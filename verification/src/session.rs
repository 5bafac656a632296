//! The prompt: what a line of input means, and what the session does next.

use crate::book::{borrow, register, BookRecord, BookState, Library, MAX_BOOKS};
use crate::text::{chars_of, parse_number, parse_u8, trim, trim_bounds};
use vstd::prelude::*;

verus! {

/// Why a line that was read holds no number.
pub const NOT_A_NUMBER: &'static str = "Not a number";

/// Why a line that could not be read holds no number.
pub const EXPECTING_AN_INPUT: &'static str = "expecting an input";

/// Why a line is no command of the menu.
pub const NOT_AN_OPTION: &'static str = "Not an option";

/// One entry of the menu.
#[derive(Clone, Copy, Debug)]
pub struct Choices<'a> {
    pub id: u8,
    pub description: &'a str,
}

/// An action that a single letter asks for.
#[derive(Clone, Copy, Debug, PartialEq, Eq, Structural)]
pub enum PromptAction {
    Exit,
    Help,
    Options,
}

/// What a line typed at the prompt was understood as.
#[derive(Clone, Copy, Debug, PartialEq, Eq, Structural)]
pub enum PromptInput {
    Action(PromptAction),
    Choice(u8),
    UnknownAction,
}

/// The characters of a line, where one was read.
pub open spec fn line_text(line: Option<&str>) -> Option<Seq<char>> {
    match line {
        Some(s) => Some(s@),
        None => None,
    }
}

/// The number on a line: the trimmed line read as a byte in decimal. A
/// line that could not be read holds none.
pub open spec fn number_on(line: Option<Seq<char>>) -> Option<u8> {
    match line {
        Some(s) => parse_u8(trim(s)),
        None => None,
    }
}

/// Why a line holds no number.
pub open spec fn number_error(line: Option<Seq<char>>) -> Seq<char> {
    match line {
        Some(_) => NOT_A_NUMBER@,
        None => EXPECTING_AN_INPUT@,
    }
}

/// How a line is classified: a number is a choice, whatever else it could
/// be; the single letters `q`, `o` and `h` are actions; the rest is unknown,
/// and so is a line that could not be read. Only surrounding whitespace is
/// ignored.
pub open spec fn classify(line: Option<Seq<char>>) -> PromptInput {
    match line {
        None => PromptInput::UnknownAction,
        Some(s) => match parse_u8(trim(s)) {
            Some(n) => PromptInput::Choice(n),
            None => if trim(s) == seq!['q'] {
                PromptInput::Action(PromptAction::Exit)
            } else if trim(s) == seq!['o'] {
                PromptInput::Action(PromptAction::Options)
            } else if trim(s) == seq!['h'] {
                PromptInput::Action(PromptAction::Help)
            } else {
                PromptInput::UnknownAction
            },
        },
    }
}

/// Reads a line as a number. `None` stands for a line that could not be read.
pub fn read_as_number(line: Option<&str>) -> (number: Result<u8, &'static str>)
    ensures
        match number_on(line_text(line)) {
            Some(n) => number == Ok::<u8, &'static str>(n),
            None => number matches Err(e) && e@ == number_error(line_text(line)),
        },
{
    match line {
        Some(s) => {
            let chars = chars_of(s);
            let (lo, hi) = trim_bounds(&chars);
            match parse_number(&chars, lo, hi) {
                Some(n) => Ok(n),
                None => Err(NOT_A_NUMBER),
            }
        },
        None => Err(EXPECTING_AN_INPUT),
    }
}

/// Classifies a line typed at the prompt. `None` stands for a line that
/// could not be read.
pub fn read_action_input(line: Option<&str>) -> (input: PromptInput)
    ensures
        input == classify(line_text(line)),
{
    match line {
        Some(s) => {
            let chars = chars_of(s);
            let (lo, hi) = trim_bounds(&chars);
            match parse_number(&chars, lo, hi) {
                Some(n) => PromptInput::Choice(n),
                None => {
                    if hi - lo != 1 {
                        return PromptInput::UnknownAction;
                    }
                    let c = chars[lo];
                    assert(trim(s@) =~= seq![c]);
                    if c == 'q' {
                        PromptInput::Action(PromptAction::Exit)
                    } else if c == 'o' {
                        PromptInput::Action(PromptAction::Options)
                    } else if c == 'h' {
                        PromptInput::Action(PromptAction::Help)
                    } else {
                        PromptInput::UnknownAction
                    }
                },
            }
        },
        None => PromptInput::UnknownAction,
    }
}

/// What is accepted at the prompt of a menu with `max_input_case` entries:
/// a choice beyond the last entry is no option.
pub open spec fn accepted(input: PromptInput, max_input_case: usize) -> Option<PromptInput> {
    match input {
        PromptInput::Choice(n) => if n > max_input_case {
            None
        } else {
            Some(input)
        },
        _ => Some(input),
    }
}

/// Classifies the line typed at the prompt of a menu with `max_input_case`
/// entries, and refuses a choice beyond the last entry.
pub fn prompt(line: Option<&str>, max_input_case: usize) -> (input: Result<
    PromptInput,
    &'static str,
>)
    ensures
        match accepted(classify(line_text(line)), max_input_case) {
            Some(p) => input == Ok::<PromptInput, &'static str>(p),
            None => input matches Err(e) && e@ == NOT_AN_OPTION@,
        },
{
    match read_action_input(line) {
        PromptInput::Choice(num) => {
            if num as usize > max_input_case {
                return Err(NOT_AN_OPTION);
            }
            Ok(PromptInput::Choice(num))
        },
        p => Ok(p),
    }
}

/// What the session does with a line typed at the menu.
#[derive(Clone, Copy, Debug, PartialEq, Eq, Structural)]
pub enum Command {
    Exit,
    ShowHelp,
    ShowOptions,
    RegisterBook,
    BorrowBook,
    NotAnOption,
}

/// The command behind what the prompt accepted: the three actions, choice 1
/// to register a book, choice 2 to borrow one. Everything else is no
/// option, and so is what the prompt refused.
pub open spec fn command_for(input: Option<PromptInput>) -> Command {
    match input {
        Some(PromptInput::Action(PromptAction::Exit)) => Command::Exit,
        Some(PromptInput::Action(PromptAction::Help)) => Command::ShowHelp,
        Some(PromptInput::Action(PromptAction::Options)) => Command::ShowOptions,
        Some(PromptInput::Choice(n)) => if n == 1 {
            Command::RegisterBook
        } else if n == 2 {
            Command::BorrowBook
        } else {
            Command::NotAnOption
        },
        Some(PromptInput::UnknownAction) => Command::NotAnOption,
        None => Command::NotAnOption,
    }
}

/// Chooses the command for what the prompt returned.
pub fn dispatch(input: Result<PromptInput, &'static str>) -> (command: Command)
    ensures
        command == command_for(
            match input {
                Ok(p) => Some(p),
                Err(_) => None,
            },
        ),
{
    match input {
        Ok(PromptInput::Action(PromptAction::Exit)) => Command::Exit,
        Ok(PromptInput::Action(PromptAction::Help)) => Command::ShowHelp,
        Ok(PromptInput::Action(PromptAction::Options)) => Command::ShowOptions,
        Ok(PromptInput::Choice(ch_op)) => match ch_op {
            1 => Command::RegisterBook,
            2 => Command::BorrowBook,
            _ => Command::NotAnOption,
        },
        Ok(PromptInput::UnknownAction) => Command::NotAnOption,
        Err(_) => Command::NotAnOption,
    }
}

/// What the session waits for.
#[derive(Debug)]
pub enum Stage {
    /// A command at the menu.
    Menu,
    /// The title of a book to register.
    BookName,
    /// The author of the book to register under `book_name`.
    AuthorId { book_name: String },
    /// The identifier of a book to borrow.
    BookId,
    /// Nothing: the session is over.
    Finished,
}

/// What the session answers to a line.
#[derive(Debug)]
pub enum Reply<'a> {
    /// Nothing is shown.
    Nothing,
    /// The help line.
    Help,
    /// The menu.
    Options,
    /// The line was no command of the menu.
    NotAnOption,
    /// The line held no number; carries the reason.
    InputError(&'static str),
    /// A borrow was attempted; carries how it ended.
    Borrow(BookState<'a>),
}

/// The stage and reply that a command leads to from the menu.
pub open spec fn menu_turn(command: Command) -> (Stage, Reply<'static>) {
    match command {
        Command::Exit => (Stage::Finished, Reply::Nothing),
        Command::ShowHelp => (Stage::Menu, Reply::Help),
        Command::ShowOptions => (Stage::Menu, Reply::Options),
        Command::RegisterBook => (Stage::BookName, Reply::Nothing),
        Command::BorrowBook => (Stage::BookId, Reply::Nothing),
        Command::NotAnOption => (Stage::Menu, Reply::NotAnOption),
    }
}

/// One turn at the menu: the line is classified against a menu with
/// `max_input_case` entries and the command behind it decides where the
/// session goes.
pub fn at_menu(line: Option<&str>, max_input_case: usize) -> (next: (Stage, Reply<'static>))
    ensures
        next == menu_turn(command_for(accepted(classify(line_text(line)), max_input_case))),
{
    match dispatch(prompt(line, max_input_case)) {
        Command::Exit => (Stage::Finished, Reply::Nothing),
        Command::ShowHelp => (Stage::Menu, Reply::Help),
        Command::ShowOptions => (Stage::Menu, Reply::Options),
        Command::RegisterBook => (Stage::BookName, Reply::Nothing),
        Command::BorrowBook => (Stage::BookId, Reply::Nothing),
        Command::NotAnOption => (Stage::Menu, Reply::NotAnOption),
    }
}

/// The characters of a line that was handed over, where one was read.
pub open spec fn owned_line_text(line: Option<String>) -> Option<Seq<char>> {
    match line {
        Some(s) => Some(s@),
        None => None,
    }
}

/// Whether `next` is the turn of the register sub-flow on `line`, from the
/// catalog `before` to the catalog `after`.
///
/// While the title is awaited (`book_name` is `None`), a line that was read
/// becomes the title as it stands and the author is asked for; one that
/// could not be read leaves the title awaited. Once the title is there, a
/// number registers the book under that author and the session is back at
/// the menu; anything else is answered with the reason and the author is
/// asked for again. Only a registration changes the catalog.
pub open spec fn is_register_turn(
    book_name: Option<Seq<char>>,
    line: Option<Seq<char>>,
    before: Seq<BookRecord>,
    after: Seq<BookRecord>,
    next: (Stage, Reply),
) -> bool {
    match book_name {
        None => {
            &&& after == before
            &&& next.1 is Nothing
            &&& match line {
                Some(title) => next.0 matches Stage::AuthorId { book_name } && book_name@ == title,
                None => next.0 is BookName,
            }
        },
        Some(title) => match number_on(line) {
            Some(author) => {
                &&& after == register(before, title, author as nat)
                &&& next.0 is Menu
                &&& next.1 is Nothing
            },
            None => {
                &&& after == before
                &&& next.0 matches Stage::AuthorId { book_name } && book_name@ == title
                &&& next.1 matches Reply::InputError(e) && e@ == number_error(line)
            },
        },
    }
}

/// Whether `next` is the turn of the borrow sub-flow on `line`, from the
/// catalog `before` to the catalog `after`.
///
/// A number is borrowed, the reply tells how that ended, and the session is
/// back at the menu whatever the outcome. Anything else is answered with the
/// reason, the identifier is asked for again and the catalog stays as it is.
pub open spec fn is_borrow_turn(
    line: Option<Seq<char>>,
    before: Seq<BookRecord>,
    after: Seq<BookRecord>,
    next: (Stage, Reply),
) -> bool {
    match number_on(line) {
        Some(id) => {
            &&& after == borrow(before, id as nat)
            &&& next.0 is Menu
            &&& next.1 matches Reply::Borrow(state) && state.is_outcome_of(before, id as nat)
        },
        None => {
            &&& after == before
            &&& next.0 is BookId
            &&& next.1 matches Reply::InputError(e) && e@ == number_error(line)
        },
    }
}

/// Borrows a line as text.
fn as_text(line: &Option<String>) -> (text: Option<&str>)
    ensures
        line_text(text) == owned_line_text(*line),
{
    match line {
        Some(s) => Some(s.as_str()),
        None => None,
    }
}

/// One turn of the register sub-flow: `book_name` is the title once it has
/// been read, `line` the line just typed.
pub fn enter_new_book(library: &mut Library, book_name: Option<String>, line: Option<String>) -> (next:
    (Stage, Reply<'static>))
    requires
        old(library).wf(),
        book_name is Some && number_on(owned_line_text(line)) is Some ==> old(library)@.len()
            < MAX_BOOKS,
    ensures
        final(library).wf(),
        is_register_turn(
            owned_line_text(book_name),
            owned_line_text(line),
            old(library)@,
            final(library)@,
            next,
        ),
{
    match book_name {
        None => match line {
            Some(title) => (Stage::AuthorId { book_name: title }, Reply::Nothing),
            None => (Stage::BookName, Reply::Nothing),
        },
        Some(title) => match read_as_number(as_text(&line)) {
            Ok(num) => {
                library.register_new_book(title, num);
                (Stage::Menu, Reply::Nothing)
            },
            Err(e_r) => (Stage::AuthorId { book_name: title }, Reply::InputError(e_r)),
        },
    }
}

/// One turn of the borrow sub-flow on the line just typed.
pub fn borrow_book<'a>(library: &'a mut Library, line: Option<&str>) -> (next: (Stage, Reply<'a>))
    requires
        old(library).wf(),
    ensures
        final(library).wf(),
        is_borrow_turn(line_text(line), old(library)@, final(library)@, next),
{
    match read_as_number(line) {
        Ok(num) => (Stage::Menu, Reply::Borrow(library.borrow_book(num))),
        Err(e_r) => (Stage::BookId, Reply::InputError(e_r)),
    }
}

/// One turn of the session: what it makes of `line` at `stage`, with a menu
/// of `max_input_case` entries. `None` stands for a line that could not be
/// read. A finished session stays finished.
pub fn step<'a>(
    stage: Stage,
    library: &'a mut Library,
    line: Option<String>,
    max_input_case: usize,
) -> (next: (Stage, Reply<'a>))
    requires
        old(library).wf(),
        stage is AuthorId && number_on(owned_line_text(line)) is Some ==> old(library)@.len()
            < MAX_BOOKS,
    ensures
        final(library).wf(),
        match stage {
            Stage::Menu => {
                &&& final(library)@ == old(library)@
                &&& next == menu_turn(
                    command_for(accepted(classify(owned_line_text(line)), max_input_case)),
                )
            },
            Stage::BookName => is_register_turn(
                None,
                owned_line_text(line),
                old(library)@,
                final(library)@,
                next,
            ),
            Stage::AuthorId { book_name } => is_register_turn(
                Some(book_name@),
                owned_line_text(line),
                old(library)@,
                final(library)@,
                next,
            ),
            Stage::BookId => is_borrow_turn(
                owned_line_text(line),
                old(library)@,
                final(library)@,
                next,
            ),
            Stage::Finished => {
                &&& final(library)@ == old(library)@
                &&& next.0 is Finished
                &&& next.1 is Nothing
            },
        },
{
    match stage {
        Stage::Menu => at_menu(as_text(&line), max_input_case),
        Stage::BookName => enter_new_book(library, None, line),
        Stage::AuthorId { book_name } => enter_new_book(library, Some(book_name), line),
        Stage::BookId => borrow_book(library, as_text(&line)),
        Stage::Finished => (Stage::Finished, Reply::Nothing),
    }
}

} // verus!
