//! The menu bar: which of its menus is open, and how its entries look.

use vstd::prelude::*;

verus! {

/// The entries of the menu bar.
#[derive(Debug, Clone, Copy, PartialEq, Eq, PartialOrd, Ord, Structural)]
pub enum HeaderOptionType {
    File,
    Edit,
    View,
    Tools,
    Options,
    Help,
}

impl HeaderOptionType {
    /// The entry's caption.
    pub open spec fn caption(self) -> Seq<char> {
        match self {
            HeaderOptionType::File => "File"@,
            HeaderOptionType::Edit => "Edit"@,
            HeaderOptionType::View => "View"@,
            HeaderOptionType::Tools => "Tools"@,
            HeaderOptionType::Options => "Options"@,
            HeaderOptionType::Help => "Help"@,
        }
    }

    pub fn to_string(&self) -> (caption: String)
        ensures
            caption@ == self.caption(),
    {
        match self {
            HeaderOptionType::File => String::from_str("File"),
            HeaderOptionType::Edit => String::from_str("Edit"),
            HeaderOptionType::View => String::from_str("View"),
            HeaderOptionType::Tools => String::from_str("Tools"),
            HeaderOptionType::Options => String::from_str("Options"),
            HeaderOptionType::Help => String::from_str("Help"),
        }
    }
}

/// How an entry of the menu bar looks, as values of its style sheet.
pub struct HeaderOptionStyle {
    pub cursor: &'static str,
    pub background: &'static str,
    pub color: &'static str,
    pub background_hover: &'static str,
    pub color_hover: &'static str,
}

/// An entry of the menu bar.
pub struct HeaderOption;

impl HeaderOption {
    /// Whether the entry `typ` is the one whose menu is open.
    pub fn is_active(typ: HeaderOptionType, active_header: Option<HeaderOptionType>) -> (active:
        bool)
        ensures
            active == (active_header == Some(typ)),
    {
        match active_header {
            Some(header) => header == typ,
            None => false,
        }
    }

    /// The look of an entry: a disabled entry is gray and ignores the
    /// pointer; the entry of the open menu is highlighted, as is an enabled
    /// entry under the pointer.
    pub fn style(disabled: bool, active: bool) -> (style: HeaderOptionStyle)
        ensures
            style.cursor@ == if disabled {
                "default"@
            } else {
                "pointer"@
            },
            style.background@ == if active {
                "#f5f5f5"@
            } else {
                "inherit"@
            },
            style.color@ == if disabled {
                "gray"@
            } else if active {
                "#7988ff"@
            } else {
                "inherit"@
            },
            style.background_hover@ == if disabled {
                "inherit"@
            } else {
                "#f5f5f5"@
            },
            style.color_hover@ == if disabled {
                "gray"@
            } else {
                "#7988ff"@
            },
    {
        HeaderOptionStyle {
            cursor: if disabled {
                "default"
            } else {
                "pointer"
            },
            background: if active {
                "#f5f5f5"
            } else {
                "inherit"
            },
            color: if disabled {
                "gray"
            } else if active {
                "#7988ff"
            } else {
                "inherit"
            },
            background_hover: if disabled {
                "inherit"
            } else {
                "#f5f5f5"
            },
            color_hover: if disabled {
                "gray"
            } else {
                "#7988ff"
            },
        }
    }
}

/// How a line of a menu looks, as values of its style sheet.
pub struct MenuOptionStyle {
    pub cursor_hover: &'static str,
    pub background_hover: &'static str,
    pub grid_template: &'static str,
    pub txt_color: &'static str,
}

impl MenuOptionStyle {
    /// The look of a menu line: a disabled line is gray and ignores the
    /// pointer, an enabled one lights up under it; a line with a shortcut
    /// keeps a second, narrower column for it.
    pub fn new(disabled: bool, has_shortcut: bool) -> (style: Self)
        ensures
            style.cursor_hover@ == if disabled {
                "default"@
            } else {
                "pointer"@
            },
            style.background_hover@ == if disabled {
                "inherit"@
            } else {
                "dodgerblue"@
            },
            style.grid_template@ == if has_shortcut {
                "2fr 1fr"@
            } else {
                "1fr"@
            },
            style.txt_color@ == if disabled {
                "gray"@
            } else {
                "inherit"@
            },
    {
        Self {
            cursor_hover: if disabled {
                "default"
            } else {
                "pointer"
            },
            background_hover: if disabled {
                "inherit"
            } else {
                "dodgerblue"
            },
            grid_template: if has_shortcut {
                "2fr 1fr"
            } else {
                "1fr"
            },
            txt_color: if disabled {
                "gray"
            } else {
                "inherit"
            },
        }
    }
}

/// What the pointer can do to the menu bar.
pub enum MainHeaderMsg {
    /// An entry was clicked.
    Clicked(HeaderOptionType),
    /// The pointer moved over an entry.
    Hovered(HeaderOptionType),
    /// A click landed outside every menu.
    Closed,
}

/// The menu that is open after a message, given the one that was open before.
///
/// A click on the open menu's entry closes it and a click on another entry
/// opens that one; hovering moves an open menu along but opens none; a click
/// outside closes whatever is open.
pub open spec fn header_after(active: Option<HeaderOptionType>, msg: MainHeaderMsg) -> Option<
    HeaderOptionType,
> {
    match msg {
        MainHeaderMsg::Clicked(header) => if active == Some(header) {
            None
        } else {
            Some(header)
        },
        MainHeaderMsg::Hovered(header) => if active is Some {
            Some(header)
        } else {
            None
        },
        MainHeaderMsg::Closed => None,
    }
}

/// Whether the menu bar has to be built anew after a message: always, but for
/// hovering while no menu is open.
pub open spec fn header_redraws(active: Option<HeaderOptionType>, msg: MainHeaderMsg) -> bool {
    !(msg is Hovered && active is None)
}

pub struct MainHeader {
    header_active: Option<HeaderOptionType>,
}

impl View for MainHeader {
    type V = Option<HeaderOptionType>;

    /// The entry whose menu is open, if any.
    closed spec fn view(&self) -> Option<HeaderOptionType> {
        self.header_active
    }
}

impl MainHeader {
    /// A menu bar with every menu closed.
    pub fn create() -> (header: Self)
        ensures
            header@ is None,
    {
        Self { header_active: None }
    }

    pub fn update(&mut self, msg: MainHeaderMsg) -> (redraw: bool)
        ensures
            final(self)@ == header_after(old(self)@, msg),
            redraw == header_redraws(old(self)@, msg),
    {
        match msg {
            MainHeaderMsg::Clicked(header) => {
                if self.is_header_active(header) {
                    self.header_active = None;
                } else {
                    self.header_active = Some(header);
                }
                true
            },
            MainHeaderMsg::Hovered(header) => {
                if self.header_active.is_some() {
                    self.header_active = Some(header);
                    true
                } else {
                    false
                }
            },
            MainHeaderMsg::Closed => {
                self.header_active = None;
                true
            },
        }
    }

    /// Whether the menu of `header` is the open one.
    pub fn is_header_active(&self, header: HeaderOptionType) -> (active: bool)
        ensures
            active == (self@ == Some(header)),
    {
        match self.header_active {
            Some(h) => h == header,
            None => false,
        }
    }

    /// The entry whose menu is open, if any.
    pub fn get_header_active(&self) -> (active: Option<HeaderOptionType>)
        ensures
            active == self@,
    {
        self.header_active
    }
}

} // verus!
