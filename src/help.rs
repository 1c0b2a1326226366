//! The key summaries shown by the help screens: each entry's text and how
//! many rows above the bottom of the screen it is drawn.
use vstd::prelude::*;

verus! {

#[derive(Copy, Clone, Debug, PartialEq, Eq, Structural)]
pub enum HelpKeys {
    Save,
    Quit,
    JumpTo,
    Search,
    SnapUp,
    SnapDown,
    Highlight,
    VimMode,
}

/// The Insert-mode help entries, in drawing order.
pub const HELP_ITEMS: [HelpKeys; 8] = [
    HelpKeys::Save,
    HelpKeys::Quit,
    HelpKeys::JumpTo,
    HelpKeys::Search,
    HelpKeys::SnapUp,
    HelpKeys::SnapDown,
    HelpKeys::Highlight,
    HelpKeys::VimMode,
];

impl HelpKeys {
    /// Rows above the bottom edge, and the entry's text.
    pub fn value(self) -> (r: (usize, &'static str))
        ensures
            r.0 == match self {
                HelpKeys::Save => 2usize,
                HelpKeys::Quit => 3,
                HelpKeys::JumpTo => 4,
                HelpKeys::Search => 5,
                HelpKeys::SnapUp => 6,
                HelpKeys::SnapDown => 7,
                HelpKeys::Highlight => 8,
                HelpKeys::VimMode => 9,
            },
            r.1@ == match self {
                HelpKeys::Save => "Ctrl-w = save       "@,
                HelpKeys::Quit => "Ctrl-q = quit       "@,
                HelpKeys::JumpTo => "Ctrl-j = jump-to    "@,
                HelpKeys::Search => "Ctrl-f = search     "@,
                HelpKeys::SnapUp => "Ctrl-u = snap-up    "@,
                HelpKeys::SnapDown => "Ctrl-d = snap-down  "@,
                HelpKeys::Highlight => "Ctrl-c = highlight  "@,
                HelpKeys::VimMode => "Ctrl-n = vim mode   "@,
            },
    {
        match self {
            HelpKeys::Save => (2, "Ctrl-w = save       "),
            HelpKeys::Quit => (3, "Ctrl-q = quit       "),
            HelpKeys::JumpTo => (4, "Ctrl-j = jump-to    "),
            HelpKeys::Search => (5, "Ctrl-f = search     "),
            HelpKeys::SnapUp => (6, "Ctrl-u = snap-up    "),
            HelpKeys::SnapDown => (7, "Ctrl-d = snap-down  "),
            HelpKeys::Highlight => (8, "Ctrl-c = highlight  "),
            HelpKeys::VimMode => (9, "Ctrl-n = vim mode   "),
        }
    }
}

#[derive(Copy, Clone, Debug, PartialEq, Eq, Structural)]
pub enum VimKeyBindings {
    JumpToBeginingOfNextWord,
    JumpToEndOfCurrentWord,
    JumpToBeginingOfCurrentWord,
    PageUp,
    PageDown,
    PageRight,
    PageLeft,
    Right,
    Left,
    Up,
    Down,
    Exit,
}

/// The Vim-mode help entries, in drawing order.
pub const VIM_BINDINGS: [VimKeyBindings; 12] = [
    VimKeyBindings::JumpToBeginingOfNextWord,
    VimKeyBindings::JumpToEndOfCurrentWord,
    VimKeyBindings::JumpToBeginingOfCurrentWord,
    VimKeyBindings::PageUp,
    VimKeyBindings::PageDown,
    VimKeyBindings::PageLeft,
    VimKeyBindings::PageRight,
    VimKeyBindings::Right,
    VimKeyBindings::Left,
    VimKeyBindings::Up,
    VimKeyBindings::Down,
    VimKeyBindings::Exit,
];

impl VimKeyBindings {
    /// Rows above the bottom edge, and the entry's text.
    pub fn value(self) -> (r: (usize, &'static str))
        ensures
            r.0 == match self {
                VimKeyBindings::JumpToBeginingOfNextWord => 1usize,
                VimKeyBindings::JumpToEndOfCurrentWord => 2,
                VimKeyBindings::JumpToBeginingOfCurrentWord => 3,
                VimKeyBindings::PageUp => 4,
                VimKeyBindings::PageDown => 5,
                VimKeyBindings::Right => 6,
                VimKeyBindings::Left => 7,
                VimKeyBindings::Up => 8,
                VimKeyBindings::Down => 9,
                VimKeyBindings::Exit => 10,
                VimKeyBindings::PageRight => 11,
                VimKeyBindings::PageLeft => 12,
            },
            r.1@ == match self {
                VimKeyBindings::JumpToBeginingOfNextWord => "w = Begining of next word     "@,
                VimKeyBindings::JumpToEndOfCurrentWord => "e = End of current word       "@,
                VimKeyBindings::JumpToBeginingOfCurrentWord => "b = Begining of current word  "@,
                VimKeyBindings::PageUp => "gg = Page Up                  "@,
                VimKeyBindings::PageDown => "GG = Page Down                "@,
                VimKeyBindings::Right => "l = Right                     "@,
                VimKeyBindings::Left => "h = Left                      "@,
                VimKeyBindings::Up => "k = Up                        "@,
                VimKeyBindings::Down => "j = Down                      "@,
                VimKeyBindings::Exit => "Esc = Exit                    "@,
                VimKeyBindings::PageRight => "$ = Page Right                "@,
                VimKeyBindings::PageLeft => "0 = Page Left                 "@,
            },
    {
        match self {
            VimKeyBindings::JumpToBeginingOfNextWord => (1, "w = Begining of next word     "),
            VimKeyBindings::JumpToEndOfCurrentWord => (2, "e = End of current word       "),
            VimKeyBindings::JumpToBeginingOfCurrentWord => (3, "b = Begining of current word  "),
            VimKeyBindings::PageUp => (4, "gg = Page Up                  "),
            VimKeyBindings::PageDown => (5, "GG = Page Down                "),
            VimKeyBindings::Right => (6, "l = Right                     "),
            VimKeyBindings::Left => (7, "h = Left                      "),
            VimKeyBindings::Up => (8, "k = Up                        "),
            VimKeyBindings::Down => (9, "j = Down                      "),
            VimKeyBindings::Exit => (10, "Esc = Exit                    "),
            VimKeyBindings::PageRight => (11, "$ = Page Right                "),
            VimKeyBindings::PageLeft => (12, "0 = Page Left                 "),
        }
    }
}

} // verus!
