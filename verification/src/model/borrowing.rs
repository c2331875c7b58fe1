//! Borrowings of copies, and the statements on the `Borrowing` table.

use vstd::prelude::*;
use chrono::NaiveDate;
use crate::model::error::Error;
use crate::model::{
    Field, FieldView, SqlValue, SqlValueView, Statement, changed_spec, columns_of, date_of,
    fields_view, found_spec, id_is, insert_spec, lemma_named, names, present, push_date,
    push_field, push_i64, select_spec, update_spec,
};
use crate::text::same_text;

verus! {

/// The table that holds the borrowings.
pub open spec fn borrowings() -> Seq<char> {
    "Borrowing"@
}

/// A stored borrowing.
#[derive(Debug)]
pub struct Borrowing {
    pub id: i64,
    pub user_id: i64,
    pub book_id: i64,
    pub copy_id: i64,
    pub borrow_date: NaiveDate,
    pub return_date: Option<NaiveDate>,
    pub status: BorrowingStatus,
}

/// Where a borrowing stands.
#[derive(Debug, Clone, Copy, PartialEq, Eq, Structural)]
pub enum BorrowingStatus {
    Borrowed,
    Returned,
    Late,
}

impl Default for BorrowingStatus {
    fn default() -> (r: BorrowingStatus)
        ensures
            r == BorrowingStatus::Borrowed,
    {
        BorrowingStatus::Borrowed
    }
}

impl BorrowingStatus {
    /// The lower-case text under which a status is stored and sent.
    pub open spec fn name(self) -> Seq<char> {
        match self {
            BorrowingStatus::Borrowed => "borrowed"@,
            BorrowingStatus::Returned => "returned"@,
            BorrowingStatus::Late => "late"@,
        }
    }

    /// The text of a status.
    pub fn as_str(self) -> (r: &'static str)
        ensures
            r@ == self.name(),
    {
        match self {
            BorrowingStatus::Borrowed => "borrowed",
            BorrowingStatus::Returned => "returned",
            BorrowingStatus::Late => "late",
        }
    }

    /// The status that a text names, if it names one.
    pub open spec fn named(text: Seq<char>) -> Option<BorrowingStatus> {
        if text == "borrowed"@ {
            Some(BorrowingStatus::Borrowed)
        } else if text == "returned"@ {
            Some(BorrowingStatus::Returned)
        } else if text == "late"@ {
            Some(BorrowingStatus::Late)
        } else {
            None
        }
    }

    /// Reads a status from its text; any other text names no status.
    pub fn parse(text: &str) -> (r: Option<BorrowingStatus>)
        ensures
            r == BorrowingStatus::named(text@),
    {
        if same_text(text, "borrowed") {
            Some(BorrowingStatus::Borrowed)
        } else if same_text(text, "returned") {
            Some(BorrowingStatus::Returned)
        } else if same_text(text, "late") {
            Some(BorrowingStatus::Late)
        } else {
            None
        }
    }

    /// The value a status is bound as: its text.
    pub fn value(self) -> (r: SqlValue)
        ensures
            r@ == SqlValueView::Text(self.name()),
    {
        SqlValue::Text(self.as_str().to_string())
    }

    /// The value of a status that may be absent.
    pub open spec fn bound(status: Option<BorrowingStatus>) -> Option<SqlValueView> {
        match status {
            Some(s) => Some(SqlValueView::Text(s.name())),
            None => None,
        }
    }

    /// Binds a status that may be absent.
    pub fn bind(status: Option<BorrowingStatus>) -> (r: Option<SqlValue>)
        ensures
            match r {
                Some(v) => BorrowingStatus::bound(status) == Some(v@),
                None => BorrowingStatus::bound(status) is None,
            },
    {
        match status {
            Some(s) => Some(s.value()),
            None => None,
        }
    }
}

/// What a new borrowing provides: who borrows which copy of which book.
#[derive(Debug)]
pub struct BorrowingForCreate {
    pub user_id: i64,
    pub book_id: i64,
    pub copy_id: i64,
}

/// What a change of a borrowing may provide; an absent attribute is left as it is.
#[derive(Debug)]
pub struct BorrowingForUpdate {
    pub return_date: Option<NaiveDate>,
    pub status: Option<BorrowingStatus>,
}

impl BorrowingForCreate {
    /// The fields of a new borrowing: each attribute that is present, in the
    /// order of declaration, and no other.
    pub open spec fn spec_fields(self) -> Seq<FieldView> {
        present("user_id"@, Some(SqlValueView::Int(self.user_id)))
            + present("book_id"@, Some(SqlValueView::Int(self.book_id)))
            + present("copy_id"@, Some(SqlValueView::Int(self.copy_id)))
    }

    /// Whether a new borrowing provides the column `c`.
    pub open spec fn provides(self, c: Seq<char>) -> bool {
        ||| c == "user_id"@
        ||| c == "book_id"@
        ||| c == "copy_id"@
    }

    /// The fields of a new borrowing name exactly the columns that it
    /// provides: an absent attribute is named by no field.
    pub proof fn names_what_it_provides(self, c: Seq<char>)
        ensures
            columns_of(self.spec_fields()).contains(c) <==> self.provides(c),
    {
        let p1 = present("user_id"@, Some(SqlValueView::Int(self.user_id)));
        let p2 = present("book_id"@, Some(SqlValueView::Int(self.book_id)));
        assert(Seq::<FieldView>::empty() + p1 =~= p1);
        lemma_named(Seq::empty(), "user_id"@, Some(SqlValueView::Int(self.user_id)), c);
        lemma_named(p1, "book_id"@, Some(SqlValueView::Int(self.book_id)), c);
        lemma_named(p1 + p2, "copy_id"@, Some(SqlValueView::Int(self.copy_id)), c);
    }

    /// The present attributes as fields.
    pub fn not_none_fields(self) -> (r: Vec<Field>)
        ensures
            fields_view(r@) == self.spec_fields(),
    {
        let mut fields: Vec<Field> = Vec::new();
        assert(fields_view(fields@) =~= Seq::empty());
        push_i64(&mut fields, "user_id", Some(self.user_id));
        push_i64(&mut fields, "book_id", Some(self.book_id));
        push_i64(&mut fields, "copy_id", Some(self.copy_id));
        assert(fields_view(fields@) =~= self.spec_fields());
        fields
    }
}

impl BorrowingForUpdate {
    /// The fields of a change of a borrowing: each attribute that is present, in the
    /// order of declaration, and no other.
    pub open spec fn spec_fields(self) -> Seq<FieldView> {
        present("return_date"@, date_of(self.return_date))
            + present("status"@, BorrowingStatus::bound(self.status))
    }

    /// Whether a change of a borrowing provides the column `c`.
    pub open spec fn provides(self, c: Seq<char>) -> bool {
        ||| c == "return_date"@ && self.return_date is Some
        ||| c == "status"@ && self.status is Some
    }

    /// The fields of a change of a borrowing name exactly the columns that it
    /// provides: an absent attribute is named by no field.
    pub proof fn names_what_it_provides(self, c: Seq<char>)
        ensures
            columns_of(self.spec_fields()).contains(c) <==> self.provides(c),
    {
        let p1 = present("return_date"@, date_of(self.return_date));
        assert(Seq::<FieldView>::empty() + p1 =~= p1);
        lemma_named(Seq::empty(), "return_date"@, date_of(self.return_date), c);
        lemma_named(p1, "status"@, BorrowingStatus::bound(self.status), c);
    }

    /// The present attributes as fields.
    pub fn not_none_fields(self) -> (r: Vec<Field>)
        ensures
            fields_view(r@) == self.spec_fields(),
    {
        let mut fields: Vec<Field> = Vec::new();
        assert(fields_view(fields@) =~= Seq::empty());
        push_date(&mut fields, "return_date", self.return_date);
        push_field(&mut fields, "status", BorrowingStatus::bind(self.status));
        assert(fields_view(fields@) =~= self.spec_fields());
        fields
    }
}

impl Borrowing {
    /// The columns of a borrowing.
    pub open spec fn spec_columns() -> Seq<Seq<char>> {
        seq![
            "id"@,
            "user_id"@,
            "book_id"@,
            "copy_id"@,
            "borrow_date"@,
            "return_date"@,
            "status"@,
        ]
    }

    /// The columns of a borrowing, in order.
    pub fn columns() -> (r: Vec<&'static str>)
        ensures
            names(r@) == Borrowing::spec_columns(),
    {
        let r = vec![
            "id",
            "user_id",
            "book_id",
            "copy_id",
            "borrow_date",
            "return_date",
            "status",
        ];
        assert(names(r@) =~= Borrowing::spec_columns());
        r
    }

    /// Reads the answer to the lookup of the borrowing `id`: the row, or
    /// that there is none in `Borrowing`.
    pub fn found<E>(id: i64, row: Option<E>) -> (r: Result<E, Error>)
        ensures
            r == found_spec("Borrowing", id, row),
    {
        crate::model::found("Borrowing", id, row)
    }

    /// Reads the answer to a change of the borrowing `id`: how many rows of
    /// `Borrowing` it touched.
    pub fn changed(id: i64, rows_affected: u64) -> (r: Result<(), Error>)
        ensures
            r == changed_spec("Borrowing", id, rows_affected),
    {
        crate::model::changed("Borrowing", id, rows_affected)
    }

    /// The lookup of the borrowing `id`.
    pub fn get(id: i64) -> (r: Statement)
        ensures
            r@ == select_spec(borrowings(), Borrowing::spec_columns(), id_is(id)),
    {
        crate::model::get("Borrowing", Borrowing::columns(), id)
    }

    /// The insert of a borrowing: exactly its present attributes.
    pub fn create(borrowing: BorrowingForCreate) -> (r: Result<Statement, Error>)
        ensures
            r matches Ok(s) && s@ == insert_spec(borrowings(), borrowing.spec_fields()),
    {
        crate::model::create("Borrowing", borrowing.not_none_fields())
    }

    /// The listing of the borrowings of the user `user_id`.
    pub fn list_by_user(user_id: i64) -> (r: Statement)
        ensures
            r@ == select_spec(
                borrowings(),
                Borrowing::spec_columns(),
                seq![FieldView { column: "user_id"@, value: SqlValueView::Int(user_id) }],
            ),
    {
        crate::model::list_where("Borrowing", Borrowing::columns(), "user_id", SqlValue::Int(user_id))
    }

    /// The listing of the borrowings of the book `book_id`.
    pub fn list_by_book(book_id: i64) -> (r: Statement)
        ensures
            r@ == select_spec(
                borrowings(),
                Borrowing::spec_columns(),
                seq![FieldView { column: "book_id"@, value: SqlValueView::Int(book_id) }],
            ),
    {
        crate::model::list_where("Borrowing", Borrowing::columns(), "book_id", SqlValue::Int(book_id))
    }

    /// The listing of the borrowings that stand at `status`.
    pub fn list_by_status(status: BorrowingStatus) -> (r: Statement)
        ensures
            r@ == select_spec(
                borrowings(),
                Borrowing::spec_columns(),
                seq![FieldView { column: "status"@, value: SqlValueView::Text(status.name()) }],
            ),
    {
        crate::model::list_where("Borrowing", Borrowing::columns(), "status", status.value())
    }

    /// The listing of the borrowings of the copy `copy_id` of the book `book_id`.
    pub fn list_by_book_copy(book_id: i64, copy_id: i64) -> (r: Statement)
        ensures
            r@ == select_spec(
                borrowings(),
                Borrowing::spec_columns(),
                seq![
                    FieldView { column: "book_id"@, value: SqlValueView::Int(book_id) },
                    FieldView { column: "copy_id"@, value: SqlValueView::Int(copy_id) },
                ],
            ),
    {
        let mut filters: Vec<Field> = Vec::new();
        filters.push(Field { column: "book_id", value: SqlValue::Int(book_id) });
        filters.push(Field { column: "copy_id", value: SqlValue::Int(copy_id) });
        assert(fields_view(filters@) =~= seq![
            FieldView { column: "book_id"@, value: SqlValueView::Int(book_id) },
            FieldView { column: "copy_id"@, value: SqlValueView::Int(copy_id) },
        ]);
        crate::model::select("Borrowing", Borrowing::columns(), filters)
    }

    /// The change `borrowing` of the borrowing `id`: exactly its present
    /// attributes are set, every other column keeps its value.
    pub fn update(id: i64, borrowing: BorrowingForUpdate) -> (r: Statement)
        ensures
            r@ == update_spec(borrowings(), borrowing.spec_fields(), id_is(id)),
    {
        crate::model::update("Borrowing", id, borrowing.not_none_fields())
    }
}

} // verus!
