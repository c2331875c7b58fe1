//! Books and their copies, and the statements on the `Books` and `BookCopies` tables.

use vstd::prelude::*;
use chrono::NaiveDateTime;
use crate::model::error::Error;
use crate::model::{
    Field, FieldView, SqlValue, SqlValueView, Statement, changed_spec, columns_of, delete_spec,
    fields_view, found_spec, i32_of, id_is, insert_spec, lemma_named, names, present, push_field,
    push_i32, push_i64, push_text, select_spec, text_of, update_spec,
};
use crate::text::same_text;

verus! {

/// The table that holds the books.
pub open spec fn books() -> Seq<char> {
    "Books"@
}

/// The table that holds the copies of the books.
pub open spec fn book_copies() -> Seq<char> {
    "BookCopies"@
}

/// A stored book.
#[derive(Debug)]
pub struct Book {
    pub id: i64,
    pub title: String,
    pub author: String,
    pub isbn: String,
    pub category: Option<String>,
    pub year: Option<i32>,
    pub photo: Option<String>,
    pub updated_at: Option<NaiveDateTime>,
    pub added_at: NaiveDateTime,
}

/// What a new book provides.
#[derive(Debug)]
pub struct BookForCreate {
    pub title: String,
    pub author: String,
    pub isbn: String,
    pub category: Option<String>,
    pub year: Option<i32>,
    pub photo: Option<String>,
    /// How many copies to add with the book; not a column.
    pub count: i32,
}

/// What a change of a book may provide; an absent attribute is left as it is.
#[derive(Debug)]
pub struct BookForUpdate {
    pub title: Option<String>,
    pub author: Option<String>,
    pub isbn: Option<String>,
    pub category: Option<String>,
    pub year: Option<i32>,
    pub photo: Option<String>,
    /// Not a column.
    pub count: i32,
}

/// A stored copy of a book.
#[derive(Debug)]
pub struct BookCopy {
    pub id: i64,
    pub book_id: i64,
    pub status: Option<BorrowStatus>,
    pub location: Option<String>,
    pub updated_at: Option<NaiveDateTime>,
    pub added_at: NaiveDateTime,
}

/// Whether a copy can be lent.
#[derive(Debug, Clone, Copy, PartialEq, Eq, Structural)]
pub enum BorrowStatus {
    Available,
    Borrowed,
    Reserved,
}

impl Default for BorrowStatus {
    fn default() -> (r: BorrowStatus)
        ensures
            r == BorrowStatus::Available,
    {
        BorrowStatus::Available
    }
}

impl BorrowStatus {
    /// The lower-case text under which a status is stored and sent.
    pub open spec fn name(self) -> Seq<char> {
        match self {
            BorrowStatus::Available => "available"@,
            BorrowStatus::Borrowed => "borrowed"@,
            BorrowStatus::Reserved => "reserved"@,
        }
    }

    /// The text of a status.
    pub fn as_str(self) -> (r: &'static str)
        ensures
            r@ == self.name(),
    {
        match self {
            BorrowStatus::Available => "available",
            BorrowStatus::Borrowed => "borrowed",
            BorrowStatus::Reserved => "reserved",
        }
    }

    /// The status that a text names, if it names one.
    pub open spec fn named(text: Seq<char>) -> Option<BorrowStatus> {
        if text == "available"@ {
            Some(BorrowStatus::Available)
        } else if text == "borrowed"@ {
            Some(BorrowStatus::Borrowed)
        } else if text == "reserved"@ {
            Some(BorrowStatus::Reserved)
        } else {
            None
        }
    }

    /// Reads a status from its text; any other text names no status.
    pub fn parse(text: &str) -> (r: Option<BorrowStatus>)
        ensures
            r == BorrowStatus::named(text@),
    {
        if same_text(text, "available") {
            Some(BorrowStatus::Available)
        } else if same_text(text, "borrowed") {
            Some(BorrowStatus::Borrowed)
        } else if same_text(text, "reserved") {
            Some(BorrowStatus::Reserved)
        } else {
            None
        }
    }

    /// The value a status is bound as: its text.
    pub fn value(self) -> (r: SqlValue)
        ensures
            r@ == SqlValueView::Text(self.name()),
    {
        SqlValue::Text(self.as_str().to_string())
    }

    /// The value of a status that may be absent.
    pub open spec fn bound(status: Option<BorrowStatus>) -> Option<SqlValueView> {
        match status {
            Some(s) => Some(SqlValueView::Text(s.name())),
            None => None,
        }
    }

    /// Binds a status that may be absent.
    pub fn bind(status: Option<BorrowStatus>) -> (r: Option<SqlValue>)
        ensures
            match r {
                Some(v) => BorrowStatus::bound(status) == Some(v@),
                None => BorrowStatus::bound(status) is None,
            },
    {
        match status {
            Some(s) => Some(s.value()),
            None => None,
        }
    }
}

/// What a new copy provides. A copy without a status gets the store's default, available.
#[derive(Debug)]
pub struct BookCopyForCreate {
    pub book_id: i64,
    pub status: Option<BorrowStatus>,
    pub location: Option<String>,
}

/// What a change of a copy may provide; an absent attribute is left as it is.
#[derive(Debug)]
pub struct BookCopyForUpdate {
    pub status: Option<BorrowStatus>,
    pub location: Option<String>,
}

/// That a book belongs to a category.
#[derive(Debug)]
pub struct BookCategory {
    pub book_id: i64,
    pub category_id: i64,
}

impl BookForCreate {
    /// The fields of a new book: each attribute that is present, in the
    /// order of declaration, and no other.
    pub open spec fn spec_fields(self) -> Seq<FieldView> {
        present("title"@, Some(SqlValueView::Text(self.title@)))
            + present("author"@, Some(SqlValueView::Text(self.author@)))
            + present("isbn"@, Some(SqlValueView::Text(self.isbn@)))
            + present("category"@, text_of(self.category))
            + present("year"@, i32_of(self.year))
            + present("photo"@, text_of(self.photo))
    }

    /// Whether a new book provides the column `c`.
    pub open spec fn provides(self, c: Seq<char>) -> bool {
        ||| c == "title"@
        ||| c == "author"@
        ||| c == "isbn"@
        ||| c == "category"@ && self.category is Some
        ||| c == "year"@ && self.year is Some
        ||| c == "photo"@ && self.photo is Some
    }

    /// The fields of a new book name exactly the columns that it
    /// provides: an absent attribute is named by no field.
    pub proof fn names_what_it_provides(self, c: Seq<char>)
        ensures
            columns_of(self.spec_fields()).contains(c) <==> self.provides(c),
    {
        let p1 = present("title"@, Some(SqlValueView::Text(self.title@)));
        let p2 = present("author"@, Some(SqlValueView::Text(self.author@)));
        let p3 = present("isbn"@, Some(SqlValueView::Text(self.isbn@)));
        let p4 = present("category"@, text_of(self.category));
        let p5 = present("year"@, i32_of(self.year));
        assert(Seq::<FieldView>::empty() + p1 =~= p1);
        lemma_named(Seq::empty(), "title"@, Some(SqlValueView::Text(self.title@)), c);
        lemma_named(p1, "author"@, Some(SqlValueView::Text(self.author@)), c);
        lemma_named(p1 + p2, "isbn"@, Some(SqlValueView::Text(self.isbn@)), c);
        lemma_named(p1 + p2 + p3, "category"@, text_of(self.category), c);
        lemma_named(p1 + p2 + p3 + p4, "year"@, i32_of(self.year), c);
        lemma_named(p1 + p2 + p3 + p4 + p5, "photo"@, text_of(self.photo), c);
    }

    /// The present attributes as fields.
    pub fn not_none_fields(self) -> (r: Vec<Field>)
        ensures
            fields_view(r@) == self.spec_fields(),
    {
        let mut fields: Vec<Field> = Vec::new();
        assert(fields_view(fields@) =~= Seq::empty());
        push_text(&mut fields, "title", Some(self.title));
        push_text(&mut fields, "author", Some(self.author));
        push_text(&mut fields, "isbn", Some(self.isbn));
        push_text(&mut fields, "category", self.category);
        push_i32(&mut fields, "year", self.year);
        push_text(&mut fields, "photo", self.photo);
        assert(fields_view(fields@) =~= self.spec_fields());
        fields
    }
}

impl BookForUpdate {
    /// The fields of a change of a book: each attribute that is present, in the
    /// order of declaration, and no other.
    pub open spec fn spec_fields(self) -> Seq<FieldView> {
        present("title"@, text_of(self.title))
            + present("author"@, text_of(self.author))
            + present("isbn"@, text_of(self.isbn))
            + present("category"@, text_of(self.category))
            + present("year"@, i32_of(self.year))
            + present("photo"@, text_of(self.photo))
    }

    /// Whether a change of a book provides the column `c`.
    pub open spec fn provides(self, c: Seq<char>) -> bool {
        ||| c == "title"@ && self.title is Some
        ||| c == "author"@ && self.author is Some
        ||| c == "isbn"@ && self.isbn is Some
        ||| c == "category"@ && self.category is Some
        ||| c == "year"@ && self.year is Some
        ||| c == "photo"@ && self.photo is Some
    }

    /// The fields of a change of a book name exactly the columns that it
    /// provides: an absent attribute is named by no field.
    pub proof fn names_what_it_provides(self, c: Seq<char>)
        ensures
            columns_of(self.spec_fields()).contains(c) <==> self.provides(c),
    {
        let p1 = present("title"@, text_of(self.title));
        let p2 = present("author"@, text_of(self.author));
        let p3 = present("isbn"@, text_of(self.isbn));
        let p4 = present("category"@, text_of(self.category));
        let p5 = present("year"@, i32_of(self.year));
        assert(Seq::<FieldView>::empty() + p1 =~= p1);
        lemma_named(Seq::empty(), "title"@, text_of(self.title), c);
        lemma_named(p1, "author"@, text_of(self.author), c);
        lemma_named(p1 + p2, "isbn"@, text_of(self.isbn), c);
        lemma_named(p1 + p2 + p3, "category"@, text_of(self.category), c);
        lemma_named(p1 + p2 + p3 + p4, "year"@, i32_of(self.year), c);
        lemma_named(p1 + p2 + p3 + p4 + p5, "photo"@, text_of(self.photo), c);
    }

    /// The present attributes as fields.
    pub fn not_none_fields(self) -> (r: Vec<Field>)
        ensures
            fields_view(r@) == self.spec_fields(),
    {
        let mut fields: Vec<Field> = Vec::new();
        assert(fields_view(fields@) =~= Seq::empty());
        push_text(&mut fields, "title", self.title);
        push_text(&mut fields, "author", self.author);
        push_text(&mut fields, "isbn", self.isbn);
        push_text(&mut fields, "category", self.category);
        push_i32(&mut fields, "year", self.year);
        push_text(&mut fields, "photo", self.photo);
        assert(fields_view(fields@) =~= self.spec_fields());
        fields
    }
}

impl Default for BookCopyForCreate {
    fn default() -> (r: BookCopyForCreate)
        ensures
            r.book_id == 0,
            r.status is None,
            r.location is None,
    {
        BookCopyForCreate { book_id: 0, status: None, location: None }
    }
}

impl Default for BookCopyForUpdate {
    fn default() -> (r: BookCopyForUpdate)
        ensures
            r.status is None,
            r.location is None,
    {
        BookCopyForUpdate { status: None, location: None }
    }
}

impl BookCopyForCreate {
    /// The fields of a new copy: each attribute that is present, in the
    /// order of declaration, and no other.
    pub open spec fn spec_fields(self) -> Seq<FieldView> {
        present("book_id"@, Some(SqlValueView::Int(self.book_id)))
            + present("status"@, BorrowStatus::bound(self.status))
            + present("location"@, text_of(self.location))
    }

    /// Whether a new copy provides the column `c`.
    pub open spec fn provides(self, c: Seq<char>) -> bool {
        ||| c == "book_id"@
        ||| c == "status"@ && self.status is Some
        ||| c == "location"@ && self.location is Some
    }

    /// The fields of a new copy name exactly the columns that it
    /// provides: an absent attribute is named by no field.
    pub proof fn names_what_it_provides(self, c: Seq<char>)
        ensures
            columns_of(self.spec_fields()).contains(c) <==> self.provides(c),
    {
        let p1 = present("book_id"@, Some(SqlValueView::Int(self.book_id)));
        let p2 = present("status"@, BorrowStatus::bound(self.status));
        assert(Seq::<FieldView>::empty() + p1 =~= p1);
        lemma_named(Seq::empty(), "book_id"@, Some(SqlValueView::Int(self.book_id)), c);
        lemma_named(p1, "status"@, BorrowStatus::bound(self.status), c);
        lemma_named(p1 + p2, "location"@, text_of(self.location), c);
    }

    /// The present attributes as fields.
    pub fn not_none_fields(self) -> (r: Vec<Field>)
        ensures
            fields_view(r@) == self.spec_fields(),
    {
        let mut fields: Vec<Field> = Vec::new();
        assert(fields_view(fields@) =~= Seq::empty());
        push_i64(&mut fields, "book_id", Some(self.book_id));
        push_field(&mut fields, "status", BorrowStatus::bind(self.status));
        push_text(&mut fields, "location", self.location);
        assert(fields_view(fields@) =~= self.spec_fields());
        fields
    }
}

impl BookCopyForUpdate {
    /// The fields of a change of a copy: each attribute that is present, in the
    /// order of declaration, and no other.
    pub open spec fn spec_fields(self) -> Seq<FieldView> {
        present("status"@, BorrowStatus::bound(self.status))
            + present("location"@, text_of(self.location))
    }

    /// Whether a change of a copy provides the column `c`.
    pub open spec fn provides(self, c: Seq<char>) -> bool {
        ||| c == "status"@ && self.status is Some
        ||| c == "location"@ && self.location is Some
    }

    /// The fields of a change of a copy name exactly the columns that it
    /// provides: an absent attribute is named by no field.
    pub proof fn names_what_it_provides(self, c: Seq<char>)
        ensures
            columns_of(self.spec_fields()).contains(c) <==> self.provides(c),
    {
        let p1 = present("status"@, BorrowStatus::bound(self.status));
        assert(Seq::<FieldView>::empty() + p1 =~= p1);
        lemma_named(Seq::empty(), "status"@, BorrowStatus::bound(self.status), c);
        lemma_named(p1, "location"@, text_of(self.location), c);
    }

    /// The present attributes as fields.
    pub fn not_none_fields(self) -> (r: Vec<Field>)
        ensures
            fields_view(r@) == self.spec_fields(),
    {
        let mut fields: Vec<Field> = Vec::new();
        assert(fields_view(fields@) =~= Seq::empty());
        push_field(&mut fields, "status", BorrowStatus::bind(self.status));
        push_text(&mut fields, "location", self.location);
        assert(fields_view(fields@) =~= self.spec_fields());
        fields
    }
}

impl BookCopy {
    /// The columns of a copy.
    pub open spec fn spec_columns() -> Seq<Seq<char>> {
        seq![
            "id"@,
            "book_id"@,
            "status"@,
            "location"@,
            "updated_at"@,
            "added_at"@,
        ]
    }

    /// The columns of a copy, in order.
    pub fn columns() -> (r: Vec<&'static str>)
        ensures
            names(r@) == BookCopy::spec_columns(),
    {
        let r = vec![
            "id",
            "book_id",
            "status",
            "location",
            "updated_at",
            "added_at",
        ];
        assert(names(r@) =~= BookCopy::spec_columns());
        r
    }
}

/// The condition that a copy has the id `copy_id` and belongs to the
/// book `book_id`.
pub open spec fn copy_is(copy_id: i64, book_id: i64) -> Seq<FieldView> {
    seq![
        FieldView { column: "id"@, value: SqlValueView::Int(copy_id) },
        FieldView { column: "book_id"@, value: SqlValueView::Int(book_id) },
    ]
}

/// The filter that keeps the copy `copy_id` of the book `book_id`.
pub fn by_copy(copy_id: i64, book_id: i64) -> (r: Vec<Field>)
    ensures
        fields_view(r@) == copy_is(copy_id, book_id),
{
    let mut filters: Vec<Field> = Vec::new();
    filters.push(Field { column: "id", value: SqlValue::Int(copy_id) });
    filters.push(Field { column: "book_id", value: SqlValue::Int(book_id) });
    assert(fields_view(filters@) =~= copy_is(copy_id, book_id));
    filters
}

/// How many copies a request for `count` of them makes: none for a
/// count that is not positive.
pub open spec fn copies_wanted(count: i32) -> nat {
    if count > 0 {
        count as nat
    } else {
        0
    }
}

impl Book {
    /// The columns of a book.
    pub open spec fn spec_columns() -> Seq<Seq<char>> {
        seq![
            "id"@,
            "title"@,
            "author"@,
            "isbn"@,
            "category"@,
            "year"@,
            "photo"@,
            "updated_at"@,
            "added_at"@,
        ]
    }

    /// The columns of a book, in order.
    pub fn columns() -> (r: Vec<&'static str>)
        ensures
            names(r@) == Book::spec_columns(),
    {
        let r = vec![
            "id",
            "title",
            "author",
            "isbn",
            "category",
            "year",
            "photo",
            "updated_at",
            "added_at",
        ];
        assert(names(r@) =~= Book::spec_columns());
        r
    }

    /// Reads the answer to the lookup of the book `id`: the row, or
    /// that there is none in `Books`.
    pub fn found<E>(id: i64, row: Option<E>) -> (r: Result<E, Error>)
        ensures
            r == found_spec("Books", id, row),
    {
        crate::model::found("Books", id, row)
    }

    /// Reads the answer to a change of the book `id`: how many rows of
    /// `Books` it touched.
    pub fn changed(id: i64, rows_affected: u64) -> (r: Result<(), Error>)
        ensures
            r == changed_spec("Books", id, rows_affected),
    {
        crate::model::changed("Books", id, rows_affected)
    }

    /// Reads the answer to the lookup of the copy `copy_id` of a book: the row, or
    /// that there is none in `BookCopies`.
    pub fn found_copy<E>(copy_id: i64, row: Option<E>) -> (r: Result<E, Error>)
        ensures
            r == found_spec("BookCopies", copy_id, row),
    {
        crate::model::found("BookCopies", copy_id, row)
    }

    /// Reads the answer to a change of the copy `copy_id` of a book: how many rows of
    /// `BookCopies` it touched.
    pub fn copy_changed(copy_id: i64, rows_affected: u64) -> (r: Result<(), Error>)
        ensures
            r == changed_spec("BookCopies", copy_id, rows_affected),
    {
        crate::model::changed("BookCopies", copy_id, rows_affected)
    }

    /// The lookup of the book `id`.
    pub fn get(id: i64) -> (r: Statement)
        ensures
            r@ == select_spec(books(), Book::spec_columns(), id_is(id)),
    {
        crate::model::get("Books", Book::columns(), id)
    }

    /// The lookup of the copy `copy_id` of the book `book_id`: both keys
    /// must match, so a copy of another book is not found.
    pub fn get_copy(copy_id: i64, book_id: i64) -> (r: Statement)
        ensures
            r@ == select_spec(book_copies(), BookCopy::spec_columns(), copy_is(copy_id, book_id)),
    {
        crate::model::select("BookCopies", BookCopy::columns(), by_copy(copy_id, book_id))
    }

    /// The insert of a book: exactly its present attributes.
    pub fn create(book: BookForCreate) -> (r: Result<Statement, Error>)
        ensures
            r matches Ok(s) && s@ == insert_spec(books(), book.spec_fields()),
    {
        crate::model::create("Books", book.not_none_fields())
    }

    /// The copies to add once a book has been stored under `id` with a
    /// request for `count` copies: that many, each of the new book, each
    /// without a status and a location, so that the store makes each
    /// available.
    pub fn copies_for(id: i64, count: i32) -> (r: Vec<BookCopyForCreate>)
        ensures
            r@.len() == copies_wanted(count),
            forall|i: int|
                0 <= i < r@.len() ==> (#[trigger] r@[i]).book_id == id && r@[i].status is None
                    && r@[i].location is None,
    {
        let mut copies: Vec<BookCopyForCreate> = Vec::new();
        let mut made: i32 = 0;
        while made < count
            invariant
                0 <= made,
                made == 0 || made <= count,
                copies@.len() == made,
                forall|i: int|
                    0 <= i < copies@.len() ==> (#[trigger] copies@[i]).book_id == id
                        && copies@[i].status is None && copies@[i].location is None,
            decreases count - made,
        {
            copies.push(BookCopyForCreate { book_id: id, status: None, location: None });
            made = made + 1;
        }
        copies
    }

    /// The insert of one copy: exactly its present attributes.
    pub fn add_copy(copy: BookCopyForCreate) -> (r: Result<Statement, Error>)
        ensures
            r matches Ok(s) && s@ == insert_spec(book_copies(), copy.spec_fields()),
    {
        crate::model::create("BookCopies", copy.not_none_fields())
    }

    /// The change `book` of the book `id`: exactly its present
    /// attributes are set, every other column keeps its value.
    pub fn update(id: i64, book: BookForUpdate) -> (r: Statement)
        ensures
            r@ == update_spec(books(), book.spec_fields(), id_is(id)),
    {
        crate::model::update("Books", id, book.not_none_fields())
    }

    /// The change `copy` of the copy `copy_id` of the book `book_id`:
    /// exactly its present attributes are set, and only in the row that
    /// matches both keys.
    pub fn update_copy(copy_id: i64, book_id: i64, copy: BookCopyForUpdate) -> (r: Statement)
        ensures
            r@ == update_spec(book_copies(), copy.spec_fields(), copy_is(copy_id, book_id)),
    {
        crate::model::update_where("BookCopies", copy.not_none_fields(), by_copy(copy_id, book_id))
    }

    /// The listing of the copies of the book `book_id`.
    pub fn list_copies(book_id: i64) -> (r: Statement)
        ensures
            r@ == select_spec(
                book_copies(),
                BookCopy::spec_columns(),
                seq![FieldView { column: "book_id"@, value: SqlValueView::Int(book_id) }],
            ),
    {
        crate::model::list_where("BookCopies", BookCopy::columns(), "book_id", SqlValue::Int(book_id))
    }

    /// The listing of every book.
    pub fn list() -> (r: Statement)
        ensures
            r@ == select_spec(books(), Book::spec_columns(), Seq::empty()),
    {
        crate::model::list("Books", Book::columns())
    }

    /// The removal of the book `id`.
    pub fn delete(id: i64) -> (r: Statement)
        ensures
            r@ == delete_spec(books(), id_is(id)),
    {
        crate::model::delete("Books", id)
    }
}

} // verus!
