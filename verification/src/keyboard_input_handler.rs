//! Keyboard shortcuts: which command a key press stands for.

use vstd::prelude::*;

use crate::application::Command;

verus! {

/// What a shortcut is, mathematically.
pub struct ShortcutModel {
    pub ctrl: bool,
    pub alt: bool,
    pub shift: bool,
    /// The key's name in upper case.
    pub key: Seq<char>,
    pub cmd: Command,
}

impl ShortcutModel {
    /// Whether a key press with these modifiers and this key name is the
    /// shortcut.
    pub open spec fn pressed(self, ctrl: bool, alt: bool, shift: bool, key: Seq<char>) -> bool {
        self.ctrl == ctrl && self.alt == alt && self.shift == shift && self.key == key
    }
}

/// A key, the modifiers held with it, and the command that they call.
#[derive(Debug, Clone, Copy, PartialEq, Eq)]
pub struct KeyboardShortcut {
    pub ctrl: bool,
    pub alt: bool,
    pub shift: bool,
    pub key: &'static str,
    pub cmd: Command,
}

impl View for KeyboardShortcut {
    type V = ShortcutModel;

    open spec fn view(&self) -> ShortcutModel {
        ShortcutModel {
            ctrl: self.ctrl,
            alt: self.alt,
            shift: self.shift,
            key: self.key@,
            cmd: self.cmd,
        }
    }
}

impl DeepView for KeyboardShortcut {
    type V = ShortcutModel;

    open spec fn deep_view(&self) -> ShortcutModel {
        self@
    }
}

impl KeyboardShortcut {
    pub fn new(ctrl: bool, alt: bool, shift: bool, key: &'static str, cmd: Command) -> (shortcut:
        Self)
        ensures
            shortcut@ == (ShortcutModel { ctrl, alt, shift, key: key@, cmd }),
    {
        Self { ctrl, alt, shift, key, cmd }
    }
}

/// One row of the shortcut table.
pub open spec fn row(ctrl: bool, alt: bool, shift: bool, key: Seq<char>, cmd: Command) -> ShortcutModel {
    ShortcutModel { ctrl, alt, shift, key, cmd }
}

/// The shortcuts of the editor. Where two rows answer the same key press, the
/// earlier one wins.
pub open spec fn shortcut_table() -> Seq<ShortcutModel> {
    seq![
        row(true, false, false, "S"@, Command::Save),
        row(true, false, false, "N"@, Command::New),
        row(true, false, false, "O"@, Command::Open),
        row(true, false, false, "P"@, Command::Print),
        row(true, false, false, "W"@, Command::Close),
        row(false, true, false, "F4"@, Command::Exit),
        row(true, false, false, "Z"@, Command::Undo),
        row(true, false, false, "Y"@, Command::Redo),
        row(true, false, false, "C"@, Command::Copy),
        row(true, false, false, "V"@, Command::Paste),
        row(true, false, false, "X"@, Command::Cut),
        row(false, false, false, "DELETE"@, Command::Delete),
        row(true, false, false, "+"@, Command::ZoomIn),
        row(true, false, false, "-"@, Command::ZoomOut),
        row(true, false, true, "F"@, Command::FitWindow),
        row(true, false, true, "G"@, Command::ToggleGrid),
        row(false, false, false, "ESCAPE"@, Command::ExitCurrentTool),
        row(false, false, false, "R"@, Command::RotateLeft),
        row(false, false, true, "R"@, Command::RotateRight),
        row(true, false, false, "M"@, Command::MirrorVertical),
        row(true, false, true, "M"@, Command::MirrorHorizontal),
        row(false, false, true, "C"@, Command::MakeConnections),
        row(true, false, false, "T"@, Command::PlaceText),
    ]
}

/// The command of the first row that a key press matches, if any does.
pub open spec fn first_match(
    table: Seq<ShortcutModel>,
    ctrl: bool,
    alt: bool,
    shift: bool,
    key: Seq<char>,
) -> Option<Command>
    decreases table.len(),
{
    if table.len() == 0 {
        None
    } else if table[0].pressed(ctrl, alt, shift, key) {
        Some(table[0].cmd)
    } else {
        first_match(table.skip(1), ctrl, alt, shift, key)
    }
}

/// The upper-case form of a text, as the standard library maps it.
pub uninterp spec fn uppercase(text: Seq<char>) -> Seq<char>;

/// `str::to_uppercase` of the standard library: the result is the upper-case
/// form of the argument, a function of the argument alone. Nothing more is
/// claimed of it.
#[verifier::external_body]
fn to_uppercase(text: &str) -> (upper: String)
    ensures
        upper@ == uppercase(text@),
{
    text.to_uppercase()
}

/// Whether two texts hold the same characters.
fn same_text(a: &str, b: &str) -> (same: bool)
    ensures
        same == (a@ == b@),
{
    let a = String::from_str(a);
    let b = String::from_str(b);
    a == b
}

/// The shortcut table as the editor ships it.
pub fn shortcuts() -> (table: Vec<KeyboardShortcut>)
    ensures
        table.deep_view() == shortcut_table(),
{
    let mut table: Vec<KeyboardShortcut> = Vec::new();
    table.push(KeyboardShortcut::new(true, false, false, "S", Command::Save));
    table.push(KeyboardShortcut::new(true, false, false, "N", Command::New));
    table.push(KeyboardShortcut::new(true, false, false, "O", Command::Open));
    table.push(KeyboardShortcut::new(true, false, false, "P", Command::Print));
    table.push(KeyboardShortcut::new(true, false, false, "W", Command::Close));
    table.push(KeyboardShortcut::new(false, true, false, "F4", Command::Exit));
    table.push(KeyboardShortcut::new(true, false, false, "Z", Command::Undo));
    table.push(KeyboardShortcut::new(true, false, false, "Y", Command::Redo));
    table.push(KeyboardShortcut::new(true, false, false, "C", Command::Copy));
    table.push(KeyboardShortcut::new(true, false, false, "V", Command::Paste));
    table.push(KeyboardShortcut::new(true, false, false, "X", Command::Cut));
    table.push(KeyboardShortcut::new(false, false, false, "DELETE", Command::Delete));
    table.push(KeyboardShortcut::new(true, false, false, "+", Command::ZoomIn));
    table.push(KeyboardShortcut::new(true, false, false, "-", Command::ZoomOut));
    table.push(KeyboardShortcut::new(true, false, true, "F", Command::FitWindow));
    table.push(KeyboardShortcut::new(true, false, true, "G", Command::ToggleGrid));
    table.push(KeyboardShortcut::new(false, false, false, "ESCAPE", Command::ExitCurrentTool));
    table.push(KeyboardShortcut::new(false, false, false, "R", Command::RotateLeft));
    table.push(KeyboardShortcut::new(false, false, true, "R", Command::RotateRight));
    table.push(KeyboardShortcut::new(true, false, false, "M", Command::MirrorVertical));
    table.push(KeyboardShortcut::new(true, false, true, "M", Command::MirrorHorizontal));
    table.push(KeyboardShortcut::new(false, false, true, "C", Command::MakeConnections));
    table.push(KeyboardShortcut::new(true, false, false, "T", Command::PlaceText));
    table
}

/// Turns key presses into commands.
pub struct KeyboardInputHandler {}

impl KeyboardInputHandler {
    /// The command that a key press calls, if it is a shortcut. `key` is the
    /// key's name in upper case.
    pub fn find_shortcut(ctrl: bool, alt: bool, shift: bool, key: &str) -> (cmd: Option<Command>)
        ensures
            cmd == first_match(shortcut_table(), ctrl, alt, shift, key@),
    {
        let table = shortcuts();
        assert(shortcut_table().skip(0) =~= shortcut_table());
        let mut i: usize = 0;
        while i < table.len()
            invariant
                i <= table.len(),
                table.deep_view() == shortcut_table(),
                first_match(shortcut_table(), ctrl, alt, shift, key@) == first_match(
                    shortcut_table().skip(i as int),
                    ctrl,
                    alt,
                    shift,
                    key@,
                ),
            decreases table.len() - i,
        {
            let s = &table[i];
            proof {
                let rest = shortcut_table().skip(i as int);
                assert(rest.skip(1) =~= shortcut_table().skip(i + 1));
            }
            if s.ctrl == ctrl && s.alt == alt && s.shift == shift && same_text(s.key, key) {
                return Some(s.cmd);
            }
            i += 1;
        }
        None
    }

    /// The command that a pressed key calls, if it is a shortcut: the key's
    /// name is put in upper case and looked up together with the modifiers.
    /// Releasing a key, or a key press as such, calls nothing.
    pub fn keydown(ctrl: bool, alt: bool, shift: bool, key: &str) -> (cmd: Option<Command>)
        ensures
            cmd == first_match(shortcut_table(), ctrl, alt, shift, uppercase(key@)),
    {
        let key = to_uppercase(key);
        Self::find_shortcut(ctrl, alt, shift, key.as_str())
    }
}

} // verus!
