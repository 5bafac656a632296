//! The text of the session: the menu, the prompts and the replies.

use crate::book::BookState;
use crate::session::{Choices, Reply, Stage, NOT_AN_OPTION};
use vstd::prelude::*;

verus! {

/// The banner shown once when the session starts.
pub const WELCOME: &'static str =
    "Book keeper, Welcome\n--------------------\nThis CLI program store library data in memory \nso after closing it removes everything.\n";

/// The help line.
pub const HELP: &'static str = "[o] - options\t[h] - help\t[q] - quit";

/// The decimal digit for `d`.
pub open spec fn digit_char(d: nat) -> char
    recommends
        d < 10,
{
    ('0' as nat + d) as char
}

/// `n` in decimal, without leading zeros.
pub open spec fn decimal_text(n: nat) -> Seq<char>
    decreases n,
{
    if n < 10 {
        seq![digit_char(n)]
    } else {
        decimal_text(n / 10).push(digit_char(n % 10))
    }
}

/// The menu line of a choice.
pub open spec fn option_text(choice: Choices) -> Seq<char> {
    "["@ + decimal_text(choice.id as nat) + "] - "@ + choice.description@
}

/// The menu: one line for each choice, in order.
pub open spec fn options_text(choices: Seq<Choices>) -> Seq<Seq<char>> {
    Seq::new(choices.len(), |i: int| option_text(choices[i]))
}

/// The lines that answer a reply, given the menu's choices.
pub open spec fn reply_text(reply: Reply, choices: Seq<Choices>) -> Seq<Seq<char>> {
    match reply {
        Reply::Nothing => Seq::empty(),
        Reply::Help => seq![HELP@],
        Reply::Options => options_text(choices),
        Reply::NotAnOption => seq![NOT_AN_OPTION@],
        Reply::InputError(message) => seq!["Error \""@ + message@ + "\" "@],
        Reply::Borrow(BookState::Found(book)) => seq!["Book borrowed "@ + book@],
        Reply::Borrow(BookState::NotFound) => seq!["Book not found!"@],
        Reply::Borrow(BookState::Borrowed) => seq!["Book is already borrowed"@],
    }
}

/// What is shown before the next line is read.
pub open spec fn prompt_for(stage: Stage) -> Seq<char> {
    match stage {
        Stage::Menu => "> "@,
        Stage::BookName => "Enter book name: "@,
        Stage::AuthorId { .. } => "Enter author id: "@,
        Stage::BookId => "Enter book id: "@,
        Stage::Finished => ""@,
    }
}

/// The two choices of the menu.
pub fn menu() -> (choices: Vec<Choices<'static>>)
    ensures
        choices@.len() == 2,
        choices@[0].id == 1,
        choices@[0].description@ == "Register new book"@,
        choices@[1].id == 2,
        choices@[1].description@ == "Borrow a book"@,
{
    let mut choices: Vec<Choices> = Vec::new();
    choices.push(Choices { id: 1, description: "Register new book" });
    choices.push(Choices { id: 2, description: "Borrow a book" });
    choices
}

/// The text of one decimal digit.
fn digit_text(d: u8) -> (text: &'static str)
    requires
        d < 10,
    ensures
        text@ == seq![digit_char(d as nat)],
{
    proof {
        reveal_strlit("0");
        reveal_strlit("1");
        reveal_strlit("2");
        reveal_strlit("3");
        reveal_strlit("4");
        reveal_strlit("5");
        reveal_strlit("6");
        reveal_strlit("7");
        reveal_strlit("8");
        reveal_strlit("9");
    }
    match d {
        0 => "0",
        1 => "1",
        2 => "2",
        3 => "3",
        4 => "4",
        5 => "5",
        6 => "6",
        7 => "7",
        8 => "8",
        _ => "9",
    }
}

/// Writes a byte in decimal, without leading zeros.
pub fn decimal(n: u8) -> (text: String)
    ensures
        text@ == decimal_text(n as nat),
{
    let mut text = String::new();
    if n >= 100 {
        text.append(digit_text(n / 100));
    }
    if n >= 10 {
        text.append(digit_text((n / 10) % 10));
    }
    text.append(digit_text(n % 10));
    proof {
        reveal_with_fuel(decimal_text, 3);
    }
    text
}

/// The menu line of a choice: its number in brackets, then its description.
pub fn option_line(choice: &Choices) -> (line: String)
    ensures
        line@ == option_text(*choice),
{
    let mut line = String::from_str("[");
    line.append(decimal(choice.id).as_str());
    line.append("] - ");
    line.append(choice.description);
    line
}

/// The lines to show in answer to a reply, given the menu's choices.
pub fn reply_lines(reply: &Reply, choices: &Vec<Choices>) -> (lines: Vec<String>)
    ensures
        lines.deep_view() == reply_text(*reply, choices@),
{
    let mut lines: Vec<String> = Vec::new();
    match reply {
        Reply::Nothing => {},
        Reply::Help => {
            lines.push(String::from_str(HELP));
        },
        Reply::Options => {
            let mut i: usize = 0;
            while i < choices.len()
                invariant
                    i <= choices@.len(),
                    lines@.len() == i,
                    forall|j: int| 0 <= j < i ==> (#[trigger] lines@[j])@ == option_text(choices@[j]),
                decreases choices@.len() - i,
            {
                lines.push(option_line(&choices[i]));
                i += 1;
            }
        },
        Reply::NotAnOption => {
            lines.push(String::from_str(NOT_AN_OPTION));
        },
        Reply::InputError(message) => {
            let mut line = String::from_str("Error \"");
            line.append(message);
            line.append("\" ");
            lines.push(line);
        },
        Reply::Borrow(BookState::Found(book)) => {
            let mut line = String::from_str("Book borrowed ");
            line.append(book.name.as_str());
            lines.push(line);
        },
        Reply::Borrow(BookState::NotFound) => {
            lines.push(String::from_str("Book not found!"));
        },
        Reply::Borrow(BookState::Borrowed) => {
            lines.push(String::from_str("Book is already borrowed"));
        },
    }
    lines
}

/// What to show before the next line is read at `stage`.
pub fn prompt_text(stage: &Stage) -> (text: &'static str)
    ensures
        text@ == prompt_for(*stage),
{
    match stage {
        Stage::Menu => "> ",
        Stage::BookName => "Enter book name: ",
        Stage::AuthorId { .. } => "Enter author id: ",
        Stage::BookId => "Enter book id: ",
        Stage::Finished => "",
    }
}

} // verus!
