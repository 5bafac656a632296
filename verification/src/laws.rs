//! What holds of the catalog and of the prompt, whatever they are given.

use crate::book::{
    borrow, fresh_record, is_available, is_first_match, is_missing, is_taken, records_wf, register,
    BookRecord, BookState, MAX_BOOKS,
};
use crate::display::decimal_text;
use crate::session::{
    accepted, classify, command_for, menu_turn, number_on, Command, PromptAction, PromptInput,
};
use crate::text::{
    all_digits, decimal_value, lemma_trim_end_at, lemma_trim_start_at, parse_u8, trim,
};
use vstd::prelude::*;

verus! {

/// The catalog after registering every entry of `entries`, a title and an
/// author each, in order.
pub open spec fn register_all(books: Seq<BookRecord>, entries: Seq<(Seq<char>, nat)>) -> Seq<
    BookRecord,
>
    decreases entries.len(),
{
    if entries.len() == 0 {
        books
    } else {
        register(register_all(books, entries.drop_last()), entries.last().0, entries.last().1)
    }
}

/// The catalog after `times` attempts to borrow `identifier`.
pub open spec fn borrow_repeatedly(books: Seq<BookRecord>, identifier: nat, times: nat) -> Seq<
    BookRecord,
>
    decreases times,
{
    if times == 0 {
        books
    } else {
        borrow(borrow_repeatedly(books, identifier, (times - 1) as nat), identifier)
    }
}

/// Registering keeps a catalog valid while there is room, and the new
/// record gets the number of books registered before it as its identifier.
pub proof fn lemma_register_keeps_valid(
    books: Seq<BookRecord>,
    title: Seq<char>,
    author_identifier: nat,
)
    requires
        records_wf(books),
        books.len() < MAX_BOOKS,
    ensures
        records_wf(register(books, title, author_identifier)),
        register(books, title, author_identifier).len() == books.len() + 1,
        register(books, title, author_identifier).last() == fresh_record(
            title,
            books.len(),
            author_identifier,
        ),
        forall|i: int|
            0 <= i < books.len() ==> register(books, title, author_identifier)[i] == books[i],
{
}

/// Starting from an empty catalog, the registration number `i` (counting
/// from 0) finds `i` books there, so it assigns the identifier `i`; and the
/// record it creates stays at position `i` with that identifier, its title
/// and its author, never lent.
pub proof fn lemma_identifiers_count_registrations(entries: Seq<(Seq<char>, nat)>, i: int)
    requires
        0 <= i < entries.len(),
    ensures
        register_all(Seq::empty(), entries.take(i)).len() == i,
        register_all(Seq::empty(), entries)[i] == fresh_record(
            entries[i].0,
            i as nat,
            entries[i].1,
        ),
        register_all(Seq::empty(), entries)[i].identifier == i,
{
    lemma_register_all(entries);
    lemma_register_all(entries.take(i));
}

/// Registering `entries` in an empty catalog gives one record for each, in
/// order, and a valid catalog as long as they fit.
pub proof fn lemma_register_all(entries: Seq<(Seq<char>, nat)>)
    ensures
        register_all(Seq::empty(), entries).len() == entries.len(),
        forall|i: int|
            0 <= i < entries.len() ==> #[trigger] register_all(Seq::empty(), entries)[i]
                == fresh_record(entries[i].0, i as nat, entries[i].1),
        entries.len() <= MAX_BOOKS ==> records_wf(register_all(Seq::empty(), entries)),
    decreases entries.len(),
{
    if entries.len() > 0 {
        lemma_register_all(entries.drop_last());
    }
}

/// In a valid catalog identifiers grow strictly with the position, so no
/// two records share one.
pub proof fn lemma_identifiers_increase(books: Seq<BookRecord>, i: int, j: int)
    requires
        records_wf(books),
        0 <= i < j < books.len(),
    ensures
        books[i].identifier < books[j].identifier,
{
}

/// In a valid catalog the first record that carries an identifier is the one
/// at that position, and there is none where the identifier is not below
/// the number of records.
pub proof fn lemma_first_match_is_position(books: Seq<BookRecord>, identifier: nat, i: int)
    requires
        records_wf(books),
    ensures
        is_first_match(books, identifier, i) <==> i == identifier && identifier < books.len(),
{
}

/// A borrow attempt ends in exactly one way, and the catalog decides which.
pub proof fn lemma_outcome_is_decided(state: BookState, books: Seq<BookRecord>, identifier: nat)
    requires
        state.is_outcome_of(books, identifier),
    ensures
        state is NotFound <==> is_missing(books, identifier),
        state is Borrowed <==> is_taken(books, identifier),
        state is Found <==> is_available(books, identifier),
{
}

/// Borrowing keeps a catalog valid, changes no record but the one borrowed,
/// and of that one only the count and the mark.
pub proof fn lemma_borrow_keeps_valid(books: Seq<BookRecord>, identifier: nat)
    requires
        records_wf(books),
    ensures
        records_wf(borrow(books, identifier)),
        borrow(books, identifier).len() == books.len(),
        forall|i: int|
            0 <= i < books.len() && i != identifier ==> borrow(books, identifier)[i] == books[i],
        forall|i: int|
            0 <= i < books.len() ==> {
                &&& (#[trigger] borrow(books, identifier)[i]).title == books[i].title
                &&& borrow(books, identifier)[i].identifier == books[i].identifier
                &&& borrow(books, identifier)[i].author_identifier == books[i].author_identifier
                &&& borrow(books, identifier)[i].status == books[i].status
            },
{
}

/// A missing identifier stays missing however often it is asked for, and
/// the catalog never changes.
pub proof fn lemma_missing_stays_missing(books: Seq<BookRecord>, identifier: nat, times: nat)
    requires
        is_missing(books, identifier),
    ensures
        borrow_repeatedly(books, identifier, times) == books,
        is_missing(borrow_repeatedly(books, identifier, times), identifier),
    decreases times,
{
    if times > 0 {
        lemma_missing_stays_missing(books, identifier, (times - 1) as nat);
    }
}

/// An available book is lent by the first attempt and refused as taken by
/// every later one: after one attempt or more the catalog is what the first
/// one left, with the book taken.
pub proof fn lemma_single_borrow(books: Seq<BookRecord>, identifier: nat, times: nat)
    requires
        is_available(books, identifier),
        times >= 1,
    ensures
        borrow_repeatedly(books, identifier, times) == borrow(books, identifier),
        is_taken(borrow_repeatedly(books, identifier, times), identifier),
        !is_available(borrow_repeatedly(books, identifier, times), identifier),
        !is_missing(borrow_repeatedly(books, identifier, times), identifier),
    decreases times,
{
    if times > 1 {
        lemma_single_borrow(books, identifier, (times - 1) as nat);
    } else {
        assert(borrow_repeatedly(books, identifier, 0) == books);
    }
}

/// A book that was lent from a valid catalog has been lent exactly once,
/// however many attempts followed, and no record of a valid catalog has
/// been lent more than once.
pub proof fn lemma_borrow_count(books: Seq<BookRecord>, identifier: nat, times: nat)
    requires
        records_wf(books),
        is_available(books, identifier),
        times >= 1,
    ensures
        borrow_repeatedly(books, identifier, times)[identifier as int].borrow_count == 1,
        forall|i: int| 0 <= i < books.len() ==> (#[trigger] books[i]).borrow_count <= 1,
{
    lemma_single_borrow(books, identifier, times);
}

/// Only the trimmed tokens `q`, `o` and `h` are actions, and each is its own.
pub proof fn lemma_action_tokens(line: Seq<char>)
    ensures
        classify(Some(line)) == PromptInput::Action(PromptAction::Exit) <==> trim(line) == seq![
            'q',
        ],
        classify(Some(line)) == PromptInput::Action(PromptAction::Options) <==> trim(line)
            == seq!['o'],
        classify(Some(line)) == PromptInput::Action(PromptAction::Help) <==> trim(line) == seq![
            'h',
        ],
        classify(Some(line)) is Choice <==> parse_u8(trim(line)) is Some,
{
}

/// At a menu of two entries, choice 1 registers, choice 2 borrows, and every
/// other number is no option, whether it is within the menu's range or not.
pub proof fn lemma_menu_boundary(n: u8)
    ensures
        command_for(accepted(PromptInput::Choice(n), 2)) == if n == 1 {
            Command::RegisterBook
        } else if n == 2 {
            Command::BorrowBook
        } else {
            Command::NotAnOption
        },
{
}

/// From the menu the session ends on the trimmed token `q` and on nothing
/// else: no other line, and no line that could not be read, ends it.
pub proof fn lemma_only_q_finishes(line: Option<Seq<char>>, max_input_case: usize)
    ensures
        menu_turn(command_for(accepted(classify(line), max_input_case))).0 is Finished <==> line
            is Some && trim(line->0) == seq!['q'],
{
    if line is Some {
        lemma_action_tokens(line->0);
    }
}

/// A number written in decimal is a string of digits that denotes it.
pub proof fn lemma_decimal_text_denotes(n: nat)
    ensures
        decimal_text(n).len() > 0,
        all_digits(decimal_text(n)),
        decimal_value(decimal_text(n)) == n,
    decreases n,
{
    let text = decimal_text(n);
    if n < 10 {
        assert(decimal_value(text.drop_last()) == 0);
    } else {
        lemma_decimal_text_denotes(n / 10);
        assert(text.drop_last() =~= decimal_text(n / 10));
    }
}

/// A byte written in decimal reads back as itself, alone on a line or with
/// whitespace around it.
pub proof fn lemma_decimal_reads_back(n: u8, line: Seq<char>)
    requires
        trim(line) == decimal_text(n as nat),
    ensures
        parse_u8(decimal_text(n as nat)) == Some(n),
        trim(decimal_text(n as nat)) == decimal_text(n as nat),
        number_on(Some(line)) == Some(n),
        classify(Some(line)) == PromptInput::Choice(n),
{
    let text = decimal_text(n as nat);
    lemma_decimal_text_denotes(n as nat);
    lemma_trim_start_at(text, 0);
    lemma_trim_end_at(text, text.len() as int);
}

} // verus!
