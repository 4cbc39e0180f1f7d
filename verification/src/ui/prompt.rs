//! Keyboard navigation of a menu and the reading of typed answers.

use vstd::prelude::*;

use crate::text::{string_from_chars, trim_chars, chars_of, trimmed};

verus! {

/// A key as the menu sees it.
#[derive(Debug, Clone, Copy, PartialEq, Eq, Structural)]
pub enum MenuKey {
    Up,
    Down,
    Enter,
    Escape,
    Char(char),
    Other,
}

/// What a key press does to an open menu.
#[derive(Debug, Clone, Copy, PartialEq, Eq, Structural)]
pub enum MenuResponse {
    /// The highlight moves to this option.
    Move(usize),
    /// This option is chosen.
    Choose(usize),
    /// The menu is closed without a choice.
    Cancel,
    /// The whole program is aborted at once.
    Abort,
    /// Nothing happens.
    Ignore,
}

/// The option highlighted first: the default, or the last option when the
/// default is past the end.
pub open spec fn menu_start_of(default_idx: nat, len: nat) -> nat {
    if default_idx < len {
        default_idx
    } else {
        (len - 1) as nat
    }
}

/// The option highlighted when a menu of `len` options opens.
pub fn menu_start(default_idx: usize, len: usize) -> (r: usize)
    requires
        len > 0,
    ensures
        r == menu_start_of(default_idx as nat, len as nat),
        r < len,
{
    if default_idx < len {
        default_idx
    } else {
        len - 1
    }
}

/// The response to a key: Ctrl+C aborts the program; Escape and `q` cancel; Up and `k` move up,
/// Down and `j` move down, both wrapping around; Enter chooses the highlight.
pub open spec fn menu_response_of(selected: nat, len: nat, key: MenuKey, control: bool) -> MenuResponse {
    if control && key == MenuKey::Char('c') {
        MenuResponse::Abort
    } else if key == MenuKey::Up || key == MenuKey::Char('k') {
        MenuResponse::Move(
            if selected > 0 {
                (selected - 1) as usize
            } else {
                (len - 1) as usize
            },
        )
    } else if key == MenuKey::Down || key == MenuKey::Char('j') {
        MenuResponse::Move(
            if selected + 1 < len {
                (selected + 1) as usize
            } else {
                0
            },
        )
    } else if key == MenuKey::Enter {
        MenuResponse::Choose(selected as usize)
    } else if key == MenuKey::Escape || key == MenuKey::Char('q') {
        MenuResponse::Cancel
    } else {
        MenuResponse::Ignore
    }
}

/// The response of a menu of `len` options with `selected` highlighted to a key
/// press, Ctrl held or not.
pub fn menu_response(selected: usize, len: usize, key: MenuKey, control: bool) -> (r: MenuResponse)
    requires
        selected < len,
    ensures
        r == menu_response_of(selected as nat, len as nat, key, control),
{
    if control && key == MenuKey::Char('c') {
        MenuResponse::Abort
    } else if key == MenuKey::Up || key == MenuKey::Char('k') {
        MenuResponse::Move(
            if selected > 0 {
                selected - 1
            } else {
                len - 1
            },
        )
    } else if key == MenuKey::Down || key == MenuKey::Char('j') {
        MenuResponse::Move(
            if selected + 1 < len {
                selected + 1
            } else {
                0
            },
        )
    } else if key == MenuKey::Enter {
        MenuResponse::Choose(selected)
    } else if key == MenuKey::Escape || key == MenuKey::Char('q') {
        MenuResponse::Cancel
    } else {
        MenuResponse::Ignore
    }
}

/// The highlight never leaves the menu, and moving down then up (or up then
/// down) comes back to the same option; Ctrl+C always aborts, and Escape or
/// `q` without Ctrl always cancels.
pub proof fn law_menu_navigation(selected: nat, len: nat, control: bool)
    requires
        selected < len,
        len <= usize::MAX,
    ensures
        menu_response_of(selected, len, MenuKey::Up, control) matches MenuResponse::Move(n) && n < len
            && menu_response_of(n as nat, len, MenuKey::Down, control) == MenuResponse::Move(
            selected as usize,
        ),
        menu_response_of(selected, len, MenuKey::Down, control) matches MenuResponse::Move(n) && n < len
            && menu_response_of(n as nat, len, MenuKey::Up, control) == MenuResponse::Move(
            selected as usize,
        ),
        menu_response_of(selected, len, MenuKey::Enter, control) == MenuResponse::Choose(
            selected as usize,
        ),
        menu_response_of(selected, len, MenuKey::Char('c'), true) == MenuResponse::Abort,
        menu_response_of(selected, len, MenuKey::Escape, control) == MenuResponse::Cancel,
        menu_response_of(selected, len, MenuKey::Char('q'), false) == MenuResponse::Cancel,
{
}

/// The option a yes/no question highlights first: "Yes" (the second) when
/// yes is the default.
pub fn yes_no_default(default_yes: bool) -> (r: usize)
    ensures
        r == (if default_yes { 1usize } else { 0usize }),
{
    if default_yes {
        1
    } else {
        0
    }
}

/// The answer typed at a prompt: the trimmed line, or the default when the
/// line is blank (no answer when there is no default either).
pub open spec fn typed_answer(line: Seq<char>, default_value: Option<Seq<char>>) -> Option<Seq<char>> {
    if trimmed(line).len() == 0 {
        default_value
    } else {
        Some(trimmed(line))
    }
}

/// Reads the answer to a text prompt.
pub fn resolve_input(line: &str, default_value: Option<&str>) -> (r: Option<String>)
    ensures
        match r {
            Some(s) => typed_answer(line@, match default_value {
                Some(d) => Some(d@),
                None => None,
            }) == Some(s@),
            None => typed_answer(line@, match default_value {
                Some(d) => Some(d@),
                None => None,
            }) is None,
        },
{
    let t = trim_chars(&chars_of(line));
    if t.len() == 0 {
        match default_value {
            Some(d) => Some(String::from_str(d)),
            None => None,
        }
    } else {
        Some(string_from_chars(t.as_slice()))
    }
}

/// What a choice in the folder browser does.
#[derive(Debug, Clone, Copy, PartialEq, Eq, Structural)]
pub enum BrowseAction {
    /// Take the folder being shown.
    SelectCurrent,
    /// Show the parent folder.
    GoToParent,
    /// Show this subfolder (an index into the listed subfolders).
    Enter(usize),
    /// Stay where it is.
    Stay,
}

/// The browser lists "select this folder", then "parent folder", then the
/// subfolders.
pub open spec fn browse_action_of(choice: nat, subfolders: nat) -> BrowseAction {
    if choice == 0 {
        BrowseAction::SelectCurrent
    } else if choice == 1 {
        BrowseAction::GoToParent
    } else if choice - 2 < subfolders {
        BrowseAction::Enter((choice - 2) as usize)
    } else {
        BrowseAction::Stay
    }
}

/// What choosing option `choice` of the folder browser does.
pub fn browse_action(choice: usize, subfolders: usize) -> (r: BrowseAction)
    ensures
        r == browse_action_of(choice as nat, subfolders as nat),
{
    if choice == 0 {
        BrowseAction::SelectCurrent
    } else if choice == 1 {
        BrowseAction::GoToParent
    } else if choice - 2 < subfolders {
        BrowseAction::Enter(choice - 2)
    } else {
        BrowseAction::Stay
    }
}

} // verus!
