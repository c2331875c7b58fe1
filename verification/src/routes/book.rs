//! The replies of the handlers of books, and the lending of a copy.

use vstd::prelude::*;
use crate::model::book::{
    book_copies, by_copy, copies_wanted, copy_is, BookCopy, BookCopyForCreate, BorrowStatus,
};
use crate::model::borrowing::BorrowingForCreate;
use crate::model::review::ReviewForCreate;
use crate::model::error::Error;
use crate::model::{
    fields_view, update_spec, update_where, Field, FieldView, SqlValueView, Statement,
};
use crate::routes::{answer, failure, refuse, replied, Handler, Reply};

verus! {

/// What to do with a request to borrow a copy, once the copy has been
/// looked up.
#[derive(Debug)]
pub enum BorrowStep {
    /// The copy is available: claim it and record this borrowing.
    Lend(BorrowingForCreate),
    /// The copy is not lent; this is the reply.
    Refuse(Reply),
}

/// The rule of lending: a copy that is available is lent to the caller;
/// a copy that is borrowed or reserved is refused as a conflict; a copy
/// without a status is an anomaly; a copy that was not found is not
/// found, and a lookup that failed otherwise is unexpected.
pub open spec fn borrow_step(user_id: i64, book_id: i64, copy_id: i64, copy: Result<BookCopy, Error>) -> BorrowStep {
    match copy {
        Ok(c) => match c.status {
            Some(BorrowStatus::Available) => BorrowStep::Lend(
                BorrowingForCreate { user_id, book_id, copy_id },
            ),
            Some(_) => BorrowStep::Refuse(
                Reply::Failure { status: 409, error: "Book copy is not available" },
            ),
            None => BorrowStep::Refuse(
                Reply::Failure { status: 500, error: "Something is not right" },
            ),
        },
        Err(e) => BorrowStep::Refuse(failure(e, Handler::Reads, "Book copy not found")),
    }
}

/// Decides a request of the user `user_id` to borrow the copy `copy_id`
/// of the book `book_id`, given what the lookup of the copy came to.
pub fn borrow_book_copy(user_id: i64, book_id: i64, copy_id: i64, copy: Result<BookCopy, Error>) -> (r: BorrowStep)
    ensures
        r == borrow_step(user_id, book_id, copy_id, copy),
{
    match copy {
        Ok(c) => match c.status {
            Some(BorrowStatus::Available) => BorrowStep::Lend(
                BorrowingForCreate { user_id, book_id, copy_id },
            ),
            Some(_) => BorrowStep::Refuse(
                Reply::Failure { status: 409, error: "Book copy is not available" },
            ),
            None => BorrowStep::Refuse(
                Reply::Failure { status: 500, error: "Something is not right" },
            ),
        },
        Err(e) => BorrowStep::Refuse(refuse(&e, Handler::Reads, "Book copy not found")),
    }
}

/// The statement that claims a copy for a borrower: it sets the status
/// to borrowed in the row of the copy `copy_id` of the book `book_id`,
/// and only if that row's status is available. Of two claims of one
/// copy the store lets one touch the row.
pub fn claim_copy(copy_id: i64, book_id: i64) -> (r: Statement)
    ensures
        r@ == update_spec(
            book_copies(),
            seq![
                FieldView {
                    column: "status"@,
                    value: SqlValueView::Text(BorrowStatus::Borrowed.name()),
                },
            ],
            copy_is(copy_id, book_id).push(
                FieldView {
                    column: "status"@,
                    value: SqlValueView::Text(BorrowStatus::Available.name()),
                },
            ),
        ),
{
    let mut fields: Vec<Field> = Vec::new();
    fields.push(Field { column: "status", value: BorrowStatus::Borrowed.value() });
    let mut filters = by_copy(copy_id, book_id);
    filters.push(Field { column: "status", value: BorrowStatus::Available.value() });
    assert(fields_view(fields@) =~= seq![
        FieldView { column: "status"@, value: SqlValueView::Text(BorrowStatus::Borrowed.name()) },
    ]);
    assert(fields_view(filters@) =~= copy_is(copy_id, book_id).push(
        FieldView { column: "status"@, value: SqlValueView::Text(BorrowStatus::Available.name()) },
    ));
    update_where("BookCopies", fields, filters)
}

/// Reads the answer to a claim: the claim holds when it touched exactly
/// one row; when it touched none, another borrower was first, and the
/// reply is a conflict; more than one row is an anomaly.
pub fn claimed(rows_affected: u64) -> (r: Option<Reply>)
    ensures
        r == if rows_affected == 1 {
            None::<Reply>
        } else if rows_affected == 0 {
            Some(Reply::Failure { status: 409, error: "Book copy is not available" })
        } else {
            Some(Reply::Failure { status: 500, error: "Something is not right" })
        },
{
    if rows_affected == 1 {
        None
    } else if rows_affected == 0 {
        Some(Reply::Failure { status: 409, error: "Book copy is not available" })
    } else {
        Some(Reply::Failure { status: 500, error: "Something is not right" })
    }
}

/// Whether a lending stands: the claim and the record of the borrowing
/// are kept together or not at all. They are kept when the claim touched
/// exactly one row and the borrowing was recorded; in every other case
/// both are undone.
pub fn lending_commits(rows_affected: u64, recorded: &Result<i64, Error>) -> (r: bool)
    ensures
        r == (rows_affected == 1 && *recorded is Ok),
{
    match recorded {
        Ok(_) => rows_affected == 1,
        Err(_) => false,
    }
}

/// Where a lending stands.
#[derive(Clone, Copy, Debug, PartialEq, Eq, Structural)]
pub enum LendingStage {
    /// The copy is being looked up; nothing has been written.
    Looking,
    /// A transaction is open and the claim of the copy runs in it.
    Claiming,
    /// The copy is claimed and the record of the borrowing runs in the
    /// same transaction.
    Recording,
    /// The request has been answered.
    Done,
}

/// What the store answered to the step before.
#[derive(Debug)]
pub enum LendingEvent {
    /// The lookup of the copy came to this.
    Copy(Result<BookCopy, Error>),
    /// The claim touched this many rows, or failed.
    Claimed(Result<u64, Error>),
    /// The record of the borrowing gave this id, or failed.
    Recorded(Result<i64, Error>),
}

/// What to do next for a lending.
#[derive(Debug)]
pub enum LendingAction {
    /// Open a transaction and run the claim of the copy in it.
    Claim,
    /// Run the record of this borrowing in the same transaction.
    Record(BorrowingForCreate),
    /// Keep the claim and the record, and send the reply.
    Commit(Reply),
    /// Undo whatever the transaction holds, and send the reply.
    RollBack(Reply),
}

/// The steps of a lending, in their order: the copy is looked up, then
/// claimed, then the borrowing is recorded, and only then are claim and
/// record kept, together. A copy that is not to be lent ends the
/// lending before anything is written; a claim that touched no row, any
/// failure, and any answer that does not belong to the stage undo what
/// was written.
pub open spec fn lending_next(user_id: i64, book_id: i64, copy_id: i64, stage: LendingStage, event: LendingEvent) -> (
    LendingStage,
    LendingAction,
) {
    match (stage, event) {
        (LendingStage::Looking, LendingEvent::Copy(copy)) => match borrow_step(
            user_id,
            book_id,
            copy_id,
            copy,
        ) {
            BorrowStep::Lend(_) => (LendingStage::Claiming, LendingAction::Claim),
            BorrowStep::Refuse(reply) => (LendingStage::Done, LendingAction::RollBack(reply)),
        },
        (LendingStage::Claiming, LendingEvent::Claimed(Ok(rows))) => if rows == 1 {
            (
                LendingStage::Recording,
                LendingAction::Record(BorrowingForCreate { user_id, book_id, copy_id }),
            )
        } else if rows == 0 {
            (
                LendingStage::Done,
                LendingAction::RollBack(
                    Reply::Failure { status: 409, error: "Book copy is not available" },
                ),
            )
        } else {
            (
                LendingStage::Done,
                LendingAction::RollBack(Reply::Failure { status: 500, error: "Something is not right" }),
            )
        },
        (LendingStage::Recording, LendingEvent::Recorded(Ok(_))) => (
            LendingStage::Done,
            LendingAction::Commit(Reply::Message { status: 200, message: "Book borrowed" }),
        ),
        _ => (
            LendingStage::Done,
            LendingAction::RollBack(Reply::Failure { status: 500, error: "Something is not right" }),
        ),
    }
}

/// Takes one step of the lending of the copy `copy_id` of the book
/// `book_id` to the user `user_id`.
pub fn lending_step(user_id: i64, book_id: i64, copy_id: i64, stage: LendingStage, event: LendingEvent) -> (r: (
    LendingStage,
    LendingAction,
))
    ensures
        r == lending_next(user_id, book_id, copy_id, stage, event),
{
    match (stage, event) {
        (LendingStage::Looking, LendingEvent::Copy(copy)) => match borrow_book_copy(
            user_id,
            book_id,
            copy_id,
            copy,
        ) {
            BorrowStep::Lend(_) => (LendingStage::Claiming, LendingAction::Claim),
            BorrowStep::Refuse(reply) => (LendingStage::Done, LendingAction::RollBack(reply)),
        },
        (LendingStage::Claiming, LendingEvent::Claimed(Ok(rows))) => match claimed(rows) {
            None => (
                LendingStage::Recording,
                LendingAction::Record(BorrowingForCreate { user_id, book_id, copy_id }),
            ),
            Some(reply) => (LendingStage::Done, LendingAction::RollBack(reply)),
        },
        (LendingStage::Recording, LendingEvent::Recorded(Ok(_))) => (
            LendingStage::Done,
            LendingAction::Commit(Reply::Message { status: 200, message: "Book borrowed" }),
        ),
        _ => (
            LendingStage::Done,
            LendingAction::RollBack(Reply::Failure { status: 500, error: "Something is not right" }),
        ),
    }
}

/// A lending is kept whole or not at all. Claim and record are kept only
/// by the step that follows a record that succeeded; and a lending that
/// is kept after three steps began with an available copy, claimed
/// exactly one row, and recorded the borrowing of that copy by that user.
pub proof fn lending_is_whole(
    user_id: i64,
    book_id: i64,
    copy_id: i64,
    stage: LendingStage,
    first: LendingEvent,
    second: LendingEvent,
    third: LendingEvent,
)
    ensures
        lending_next(user_id, book_id, copy_id, stage, first).1 is Commit ==> stage
            == LendingStage::Recording && first matches LendingEvent::Recorded(Ok(_)),
        ({
            let one = lending_next(user_id, book_id, copy_id, LendingStage::Looking, first);
            let two = lending_next(user_id, book_id, copy_id, one.0, second);
            let three = lending_next(user_id, book_id, copy_id, two.0, third);
            three.1 is Commit ==> {
                &&& first matches LendingEvent::Copy(Ok(copy)) && copy.status == Some(
                    BorrowStatus::Available,
                )
                &&& one.1 is Claim
                &&& second matches LendingEvent::Claimed(Ok(rows)) && rows == 1
                &&& two.1 == LendingAction::Record(BorrowingForCreate { user_id, book_id, copy_id })
                &&& third matches LendingEvent::Recorded(Ok(_))
            }
        }),
{
}

/// Whether a new book and its copies are kept: they are kept together or
/// not at all. They are kept when the book was stored, every copy that
/// was asked for was tried, and every one was stored.
pub open spec fn creation_kept(count: i32, book: Result<i64, Error>, copies: Seq<Result<i64, Error>>) -> bool {
    &&& book is Ok
    &&& copies.len() == copies_wanted(count)
    &&& forall|i: int| 0 <= i < copies.len() ==> (#[trigger] copies[i]) is Ok
}

/// Decides whether a new book and its copies are kept, given what the
/// insert of the book and the inserts of its copies came to.
pub fn creation_commits(count: i32, book: &Result<i64, Error>, copies: &Vec<Result<i64, Error>>) -> (r: bool)
    ensures
        r == creation_kept(count, *book, copies@),
{
    if book.is_err() {
        return false;
    }
    let wanted: usize = if count > 0 {
        count as usize
    } else {
        0
    };
    if copies.len() != wanted {
        return false;
    }
    let mut i: usize = 0;
    while i < copies.len()
        invariant
            i <= copies@.len(),
            forall|j: int| 0 <= j < i ==> (#[trigger] copies@[j]) is Ok,
        decreases copies@.len() - i,
    {
        if copies[i].is_err() {
            return false;
        }
        i = i + 1;
    }
    true
}

/// The reply once the borrowing has been recorded, or could not be.
pub fn borrowed(recorded: &Result<i64, Error>) -> (r: Reply)
    ensures
        r == match *recorded {
            Ok(_) => Reply::Message { status: 200, message: "Book borrowed" },
            Err(_) => Reply::Failure { status: 500, error: "Something is not right" },
        },
{
    match recorded {
        Ok(_) => Reply::Message { status: 200, message: "Book borrowed" },
        Err(_) => Reply::Failure { status: 500, error: "Something is not right" },
    }
}

/// The copy that a request adds to the book `book_id`: the book of the
/// path, whatever book the body names, and the body's other attributes.
pub fn copy_of_book(book_id: i64, copy: BookCopyForCreate) -> (r: BookCopyForCreate)
    ensures
        r.book_id == book_id,
        r.status == copy.status,
        r.location == copy.location,
{
    BookCopyForCreate { book_id, status: copy.status, location: copy.location }
}

/// The review that a request adds to the book `book_id`: the book of
/// the path, whatever book the body names, and the body's other attributes.
pub fn review_of_book(book_id: i64, review: ReviewForCreate) -> (r: ReviewForCreate)
    ensures
        r.book_id == book_id,
        r.user_id == review.user_id,
        r.rating == review.rating,
        r.review_text == review.review_text,
{
    ReviewForCreate {
        user_id: review.user_id,
        book_id,
        rating: review.rating,
        review_text: review.review_text,
    }
}

/// The reply to a new book: its id.
pub fn add_book<T>(outcome: &Result<T, Error>) -> (r: Reply)
    ensures
        r == replied(*outcome, Reply::Payload { status: 201, key: "book_id" }, Handler::Writes, "Book not created"),
{
    answer(outcome, Reply::Payload { status: 201, key: "book_id" }, Handler::Writes, "Book not created")
}

/// The reply to a new copy: its id.
pub fn add_book_copy<T>(outcome: &Result<T, Error>) -> (r: Reply)
    ensures
        r == replied(*outcome, Reply::Payload { status: 201, key: "book_id" }, Handler::Writes, "Book not created"),
{
    answer(outcome, Reply::Payload { status: 201, key: "book_id" }, Handler::Writes, "Book not created")
}

/// The reply to a request for one book.
pub fn get_book<T>(outcome: &Result<T, Error>) -> (r: Reply)
    ensures
        r == replied(*outcome, Reply::Payload { status: 200, key: "book" }, Handler::Reads, "Book not found"),
{
    answer(outcome, Reply::Payload { status: 200, key: "book" }, Handler::Reads, "Book not found")
}

/// The reply to a request for one copy of a book.
pub fn get_book_copy<T>(outcome: &Result<T, Error>) -> (r: Reply)
    ensures
        r == replied(*outcome, Reply::Payload { status: 200, key: "copy" }, Handler::Reads, "Book copy not found"),
{
    answer(outcome, Reply::Payload { status: 200, key: "copy" }, Handler::Reads, "Book copy not found")
}

/// The reply to a request for every book.
pub fn get_books<T>(outcome: &Result<T, Error>) -> (r: Reply)
    ensures
        r == replied(*outcome, Reply::Payload { status: 200, key: "books" }, Handler::Reads, "Book not found"),
{
    answer(outcome, Reply::Payload { status: 200, key: "books" }, Handler::Reads, "Book not found")
}

/// The reply to a request for the copies of a book.
pub fn get_book_copies<T>(outcome: &Result<T, Error>) -> (r: Reply)
    ensures
        r == replied(*outcome, Reply::Payload { status: 200, key: "copies" }, Handler::Reads, "Book not found"),
{
    answer(outcome, Reply::Payload { status: 200, key: "copies" }, Handler::Reads, "Book not found")
}

/// The reply to a change of one book.
pub fn update_book<T>(outcome: &Result<T, Error>) -> (r: Reply)
    ensures
        r == replied(*outcome, Reply::Payload { status: 201, key: "book_id" }, Handler::Writes, "Book not created"),
{
    answer(outcome, Reply::Payload { status: 201, key: "book_id" }, Handler::Writes, "Book not created")
}

/// The reply to a change of one copy of a book.
pub fn update_book_copy<T>(outcome: &Result<T, Error>) -> (r: Reply)
    ensures
        r == replied(*outcome, Reply::Payload { status: 201, key: "book_id" }, Handler::Writes, "Book not created"),
{
    answer(outcome, Reply::Payload { status: 201, key: "book_id" }, Handler::Writes, "Book not created")
}

/// The reply to a request for the borrowings of a book.
pub fn get_book_borrowings<T>(outcome: &Result<T, Error>) -> (r: Reply)
    ensures
        r == replied(*outcome, Reply::Payload { status: 200, key: "borrowings" }, Handler::Reads, "Borrowing not found"),
{
    answer(outcome, Reply::Payload { status: 200, key: "borrowings" }, Handler::Reads, "Borrowing not found")
}

/// The reply to a new review of a book.
pub fn create_review<T>(outcome: &Result<T, Error>) -> (r: Reply)
    ensures
        r == replied(*outcome, Reply::Message { status: 201, message: "Review added" }, Handler::Writes, "Review could not be added"),
{
    answer(outcome, Reply::Message { status: 201, message: "Review added" }, Handler::Writes, "Review could not be added")
}

/// The reply to a request for the reviews of a book.
pub fn get_reviews<T>(outcome: &Result<T, Error>) -> (r: Reply)
    ensures
        r == replied(*outcome, Reply::Payload { status: 200, key: "reviews" }, Handler::Reads, "Review not found"),
{
    answer(outcome, Reply::Payload { status: 200, key: "reviews" }, Handler::Reads, "Review not found")
}

} // verus!
