use book_keeper::book::{BookState, Library, MAX_BOOKS};
use book_keeper::session::{
    at_menu, borrow_book, dispatch, enter_new_book, prompt, read_action_input, read_as_number,
    step, Command, PromptAction, PromptInput, Reply, Stage,
};

#[test]
fn read_as_number_reads_a_trimmed_byte() {
    assert_eq!(read_as_number(Some("7")), Ok(7));
    assert_eq!(read_as_number(Some("7\n")), Ok(7));
    assert_eq!(read_as_number(Some("  255 \r\n")), Ok(255));
    assert_eq!(read_as_number(Some("0")), Ok(0));
    assert_eq!(read_as_number(Some("+12")), Ok(12));
    assert_eq!(read_as_number(Some("007")), Ok(7));
}

#[test]
fn read_as_number_says_why_it_failed() {
    assert_eq!(read_as_number(Some("256")), Err("Not a number"));
    assert_eq!(read_as_number(Some("-1")), Err("Not a number"));
    assert_eq!(read_as_number(Some("")), Err("Not a number"));
    assert_eq!(read_as_number(Some("\n")), Err("Not a number"));
    assert_eq!(read_as_number(Some("q")), Err("Not a number"));
    assert_eq!(read_as_number(Some("1 2")), Err("Not a number"));
    assert_eq!(read_as_number(None), Err("expecting an input"));
}

#[test]
fn read_as_number_agrees_with_the_standard_library() {
    for n in 0..1000u32 {
        let line = format!(" {}\n", n);
        assert_eq!(read_as_number(Some(&line)).ok(), line.trim().parse::<u8>().ok());
    }
}

#[test]
fn numbers_are_choices() {
    assert_eq!(read_action_input(Some("1\n")), PromptInput::Choice(1));
    assert_eq!(read_action_input(Some("2")), PromptInput::Choice(2));
    assert_eq!(read_action_input(Some(" 0 ")), PromptInput::Choice(0));
    assert_eq!(read_action_input(Some("255")), PromptInput::Choice(255));
    assert_eq!(read_action_input(Some("5")), PromptInput::Choice(5));
}

#[test]
fn single_letters_are_actions() {
    assert_eq!(read_action_input(Some("q")), PromptInput::Action(PromptAction::Exit));
    assert_eq!(read_action_input(Some("o")), PromptInput::Action(PromptAction::Options));
    assert_eq!(read_action_input(Some("h")), PromptInput::Action(PromptAction::Help));
    assert_eq!(read_action_input(Some("q\n")), PromptInput::Action(PromptAction::Exit));
    assert_eq!(read_action_input(Some("  o\r\n")), PromptInput::Action(PromptAction::Options));
    assert_eq!(read_action_input(Some("\th ")), PromptInput::Action(PromptAction::Help));
    assert_eq!(read_action_input(Some(" q")), PromptInput::Action(PromptAction::Exit));
}

#[test]
fn only_the_exact_tokens_are_actions() {
    for line in [
        "Q", "O", "H", "quit", "qq", "q q", "help", "options", "oh", "", " ", "\n", "x", "-1",
        "256", "q.", "'q'", "\u{ff51}", "q\u{200b}",
    ] {
        assert_eq!(read_action_input(Some(line)), PromptInput::UnknownAction, "{:?}", line);
    }
}

#[test]
fn a_line_that_could_not_be_read_is_unknown() {
    assert_eq!(read_action_input(None), PromptInput::UnknownAction);
    assert_eq!(prompt(None, 2), Ok(PromptInput::UnknownAction));
    assert_eq!(dispatch(prompt(None, 2)), Command::NotAnOption);
}

#[test]
fn prompt_refuses_choices_beyond_the_menu() {
    assert_eq!(prompt(Some("0"), 2), Ok(PromptInput::Choice(0)));
    assert_eq!(prompt(Some("1"), 2), Ok(PromptInput::Choice(1)));
    assert_eq!(prompt(Some("2"), 2), Ok(PromptInput::Choice(2)));
    assert_eq!(prompt(Some("3"), 2), Err("Not an option"));
    assert_eq!(prompt(Some("5"), 2), Err("Not an option"));
    assert_eq!(prompt(Some("255"), 2), Err("Not an option"));
    assert_eq!(prompt(Some("255"), 255), Ok(PromptInput::Choice(255)));
    assert_eq!(prompt(Some("255"), 1000), Ok(PromptInput::Choice(255)));
    assert_eq!(prompt(Some("0"), 0), Ok(PromptInput::Choice(0)));
    assert_eq!(prompt(Some("1"), 0), Err("Not an option"));
}

#[test]
fn prompt_passes_everything_else_on() {
    assert_eq!(prompt(Some("q"), 0), Ok(PromptInput::Action(PromptAction::Exit)));
    assert_eq!(prompt(Some("o"), 2), Ok(PromptInput::Action(PromptAction::Options)));
    assert_eq!(prompt(Some("h"), 2), Ok(PromptInput::Action(PromptAction::Help)));
    assert_eq!(prompt(Some("quit"), 2), Ok(PromptInput::UnknownAction));
}

#[test]
fn dispatch_knows_two_choices() {
    assert_eq!(dispatch(Ok(PromptInput::Choice(1))), Command::RegisterBook);
    assert_eq!(dispatch(Ok(PromptInput::Choice(2))), Command::BorrowBook);
    assert_eq!(dispatch(Ok(PromptInput::Choice(0))), Command::NotAnOption);
    assert_eq!(dispatch(Ok(PromptInput::Choice(3))), Command::NotAnOption);
    assert_eq!(dispatch(Ok(PromptInput::Choice(255))), Command::NotAnOption);
    assert_eq!(dispatch(Ok(PromptInput::Action(PromptAction::Exit))), Command::Exit);
    assert_eq!(dispatch(Ok(PromptInput::Action(PromptAction::Help))), Command::ShowHelp);
    assert_eq!(dispatch(Ok(PromptInput::Action(PromptAction::Options))), Command::ShowOptions);
    assert_eq!(dispatch(Ok(PromptInput::UnknownAction)), Command::NotAnOption);
    assert_eq!(dispatch(Err("Not an option")), Command::NotAnOption);
}

#[test]
fn menu_boundary() {
    assert_eq!(dispatch(prompt(Some("1"), 2)), Command::RegisterBook);
    assert_eq!(dispatch(prompt(Some("2"), 2)), Command::BorrowBook);
    assert_eq!(dispatch(prompt(Some("0"), 2)), Command::NotAnOption);
    assert_eq!(dispatch(prompt(Some("3"), 2)), Command::NotAnOption);
    for n in 0..=255u8 {
        let command = dispatch(prompt(Some(&n.to_string()), 2));
        let expected = match n {
            1 => Command::RegisterBook,
            2 => Command::BorrowBook,
            _ => Command::NotAnOption,
        };
        assert_eq!(command, expected);
    }
}

#[test]
fn menu_turns() {
    assert!(matches!(at_menu(Some("q\n"), 2), (Stage::Finished, Reply::Nothing)));
    assert!(matches!(at_menu(Some("h\n"), 2), (Stage::Menu, Reply::Help)));
    assert!(matches!(at_menu(Some("o\n"), 2), (Stage::Menu, Reply::Options)));
    assert!(matches!(at_menu(Some("1\n"), 2), (Stage::BookName, Reply::Nothing)));
    assert!(matches!(at_menu(Some("2\n"), 2), (Stage::BookId, Reply::Nothing)));
    assert!(matches!(at_menu(Some("0\n"), 2), (Stage::Menu, Reply::NotAnOption)));
    assert!(matches!(at_menu(Some("3\n"), 2), (Stage::Menu, Reply::NotAnOption)));
    assert!(matches!(at_menu(Some("Q\n"), 2), (Stage::Menu, Reply::NotAnOption)));
    assert!(matches!(at_menu(Some(""), 2), (Stage::Menu, Reply::NotAnOption)));
    assert!(matches!(at_menu(None, 2), (Stage::Menu, Reply::NotAnOption)));
    assert!(matches!(at_menu(Some("2\n"), 1), (Stage::Menu, Reply::NotAnOption)));
}

#[test]
fn choice_five_is_no_option_and_leaves_the_catalog_alone() {
    let mut library = Library::new();
    library.register_new_book(String::from("Dune"), 7);
    let (stage, reply) = step(Stage::Menu, &mut library, Some(String::from("5")), 2);
    assert!(matches!(stage, Stage::Menu));
    assert!(matches!(reply, Reply::NotAnOption));
    let books = library.list_of_books();
    assert_eq!(books.len(), 1);
    assert_eq!(books[0].book_details.name, "Dune");
    assert_eq!(books[0].book_id(), 0);
    assert_eq!(books[0].author_id, 7);
    assert_eq!(books[0].no_of_borrow(), 0);
    assert!(!books[0].is_borrowed());
    assert_eq!(library.get_last_id(), 1);
}

#[test]
fn register_turn_takes_the_title_as_it_stands() {
    let mut library = Library::new();
    let (stage, reply) = enter_new_book(&mut library, None, Some(String::from("  Dune \n")));
    assert!(matches!(reply, Reply::Nothing));
    match stage {
        Stage::AuthorId { book_name } => assert_eq!(book_name, "  Dune \n"),
        other => panic!("{:?}", other),
    }
    assert!(library.list_of_books().is_empty());
}

#[test]
fn register_turn_waits_for_a_title_that_can_be_read() {
    let mut library = Library::new();
    let (stage, reply) = enter_new_book(&mut library, None, None);
    assert!(matches!(stage, Stage::BookName));
    assert!(matches!(reply, Reply::Nothing));
    assert!(library.list_of_books().is_empty());
}

#[test]
fn register_turn_asks_again_for_an_author() {
    let mut library = Library::new();
    for (line, message) in [
        (Some("seven\n"), "Not a number"),
        (Some("256\n"), "Not a number"),
        (Some("\n"), "Not a number"),
        (None, "expecting an input"),
    ] {
        let (stage, reply) =
            enter_new_book(&mut library, Some(String::from("Dune")), line.map(String::from));
        match stage {
            Stage::AuthorId { book_name } => assert_eq!(book_name, "Dune"),
            other => panic!("{:?}", other),
        }
        match reply {
            Reply::InputError(e) => assert_eq!(e, message),
            other => panic!("{:?}", other),
        }
        assert!(library.list_of_books().is_empty());
    }
}

#[test]
fn register_turn_registers_once_the_author_is_there() {
    let mut library = Library::new();
    let (stage, reply) =
        enter_new_book(&mut library, Some(String::from("Dune")), Some(String::from(" 7\n")));
    assert!(matches!(stage, Stage::Menu));
    assert!(matches!(reply, Reply::Nothing));
    let books = library.list_of_books();
    assert_eq!(books.len(), 1);
    assert_eq!(books[0].book_details.name, "Dune");
    assert_eq!(books[0].author_id, 7);
    assert_eq!(books[0].book_id(), 0);
}

#[test]
fn borrow_turn_reports_each_outcome_and_returns_to_the_menu() {
    let mut library = Library::new();
    library.register_new_book(String::from("Dune"), 7);
    match borrow_book(&mut library, Some("0\n")) {
        (Stage::Menu, Reply::Borrow(BookState::Found(book))) => assert_eq!(book.name, "Dune"),
        other => panic!("{:?}", other),
    }
    assert!(matches!(
        borrow_book(&mut library, Some("0\n")),
        (Stage::Menu, Reply::Borrow(BookState::Borrowed))
    ));
    assert!(matches!(
        borrow_book(&mut library, Some("1\n")),
        (Stage::Menu, Reply::Borrow(BookState::NotFound))
    ));
    assert_eq!(library.list_of_books()[0].no_of_borrow(), 1);
}

#[test]
fn borrow_turn_asks_again_for_a_number() {
    let mut library = Library::new();
    library.register_new_book(String::from("Dune"), 7);
    match borrow_book(&mut library, Some("zero\n")) {
        (Stage::BookId, Reply::InputError(e)) => assert_eq!(e, "Not a number"),
        other => panic!("{:?}", other),
    }
    match borrow_book(&mut library, None) {
        (Stage::BookId, Reply::InputError(e)) => assert_eq!(e, "expecting an input"),
        other => panic!("{:?}", other),
    }
    assert!(!library.list_of_books()[0].is_borrowed());
}

fn run(library: &mut Library, lines: &[&str]) -> (Stage, Vec<String>) {
    let mut stage = Stage::Menu;
    let mut seen = Vec::new();
    for line in lines {
        let (next, reply) = step(stage, library, Some(String::from(*line)), 2);
        seen.push(format!("{:?}", reply));
        stage = next;
    }
    (stage, seen)
}

#[test]
fn a_whole_session() {
    let mut library = Library::new();
    let (stage, seen) = run(
        &mut library,
        &[
            "h\n", "1\n", "Dune\n", "x\n", "7\n", "2\n", "nope\n", "0\n", "2\n", "0\n", "2\n",
            "9\n", "o\n", "7\n", "q\n",
        ],
    );
    assert!(matches!(stage, Stage::Finished));
    assert_eq!(
        seen,
        vec![
            "Help",
            "Nothing",
            "Nothing",
            "InputError(\"Not a number\")",
            "Nothing",
            "Nothing",
            "InputError(\"Not a number\")",
            "Borrow(Found(Book { name: \"Dune\\n\" }))",
            "Nothing",
            "Borrow(Borrowed)",
            "Nothing",
            "Borrow(NotFound)",
            "Options",
            "NotAnOption",
            "Nothing",
        ]
    );
    let books = library.list_of_books();
    assert_eq!(books.len(), 1);
    assert_eq!(books[0].book_details.name, "Dune\n");
    assert_eq!(books[0].author_id, 7);
    assert_eq!(books[0].no_of_borrow(), 1);
    assert!(books[0].is_borrowed());
}

#[test]
fn a_finished_session_stays_finished() {
    let mut library = Library::new();
    library.register_new_book(String::from("Dune"), 7);
    for line in [Some("1\n"), Some("q\n"), Some("0\n"), None] {
        let (stage, reply) = step(Stage::Finished, &mut library, line.map(String::from), 2);
        assert!(matches!(stage, Stage::Finished));
        assert!(matches!(reply, Reply::Nothing));
    }
    assert_eq!(library.list_of_books().len(), 1);
    assert!(!library.list_of_books()[0].is_borrowed());
}

#[test]
fn only_q_ends_the_session() {
    let mut library = Library::new();
    for line in [Some("Q\n"), Some("quit\n"), Some("exit\n"), Some(""), Some("0\n"), Some("3\n"), None] {
        let (stage, _) = step(Stage::Menu, &mut library, line.map(String::from), 2);
        assert!(matches!(stage, Stage::Menu), "{:?}", line);
    }
    let (stage, _) = step(Stage::Menu, &mut library, Some(String::from("q\n")), 2);
    assert!(matches!(stage, Stage::Finished));
}

#[test]
fn a_session_can_fill_the_catalog() {
    let mut library = Library::new();
    let mut stage = Stage::Menu;
    for i in 0..MAX_BOOKS {
        for line in [String::from("1\n"), format!("book {}\n", i), format!("{}\n", i)] {
            let (next, _) = step(stage, &mut library, Some(line), 2);
            stage = next;
        }
        assert!(matches!(stage, Stage::Menu));
        assert_eq!(library.get_last_id(), i + 1);
    }
    assert!(library.is_full());
    assert_eq!(library.list_of_books()[254].book_details.name, "book 254\n");
    assert_eq!(library.list_of_books()[254].book_id(), 254);
}
