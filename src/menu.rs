use vstd::prelude::*;

verus! {

/// An entry of the main menu, as the user picked it.
#[derive(Debug, Clone, Copy, PartialEq, Eq, Structural)]
pub enum MenuChoice {
    Add,
    List,
    Update,
    Delete,
    Exit,
    Invalid,
}

/// The entry that a line of input picks: the digits 1 to 5, alone, pick
/// Add, List, Update, Delete and Exit; anything else is invalid.
pub open spec fn choice_of(s: Seq<char>) -> MenuChoice {
    if s.len() != 1 {
        MenuChoice::Invalid
    } else if s[0] == '1' {
        MenuChoice::Add
    } else if s[0] == '2' {
        MenuChoice::List
    } else if s[0] == '3' {
        MenuChoice::Update
    } else if s[0] == '4' {
        MenuChoice::Delete
    } else if s[0] == '5' {
        MenuChoice::Exit
    } else {
        MenuChoice::Invalid
    }
}

/// Reads a menu entry from a trimmed line of input.
pub fn parse_choice(input: &str) -> (r: MenuChoice)
    ensures
        r == choice_of(input@),
{
    if input.unicode_len() != 1 {
        return MenuChoice::Invalid;
    }
    let c = input.get_char(0);
    if c == '1' {
        MenuChoice::Add
    } else if c == '2' {
        MenuChoice::List
    } else if c == '3' {
        MenuChoice::Update
    } else if c == '4' {
        MenuChoice::Delete
    } else if c == '5' {
        MenuChoice::Exit
    } else {
        MenuChoice::Invalid
    }
}

/// The prompt shown while the screen waits for Enter.
pub fn pause_screen() -> (r: &'static str)
    ensures
        r@ == "Press Enter to continue..."@,
{
    "Press Enter to continue..."
}

} // verus!
