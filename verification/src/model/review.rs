//! Reviews of books, and the statements on the `Reviews` table.

use vstd::prelude::*;
use chrono::NaiveDateTime;
use crate::model::error::Error;
use crate::model::{
    Field, FieldView, SqlValue, SqlValueView, Statement, changed_spec, columns_of, fields_view,
    found_spec, i64_of, i8_of, id_is, insert_spec, lemma_named, names, present, push_i64, push_i8,
    push_text, select_spec, text_of, update_spec,
};

verus! {

/// The table that holds the reviews.
pub open spec fn reviews() -> Seq<char> {
    "Reviews"@
}

/// A stored review.
#[derive(Debug)]
pub struct Review {
    pub id: i64,
    pub user_id: i64,
    pub book_id: i64,
    pub rating: i8,
    pub review_text: String,
    pub updated_at: Option<NaiveDateTime>,
    pub created_at: NaiveDateTime,
}

/// What a new review provides.
#[derive(Debug)]
pub struct ReviewForCreate {
    pub user_id: i64,
    pub book_id: i64,
    pub rating: i8,
    pub review_text: String,
}

/// What a change of a review may provide; an absent attribute is left as it is.
#[derive(Debug)]
pub struct ReviewForUpdate {
    pub user_id: Option<i64>,
    pub book_id: Option<i64>,
    pub rating: Option<i8>,
    pub review_text: Option<String>,
}

impl ReviewForCreate {
    /// The fields of a new review: each attribute that is present, in the
    /// order of declaration, and no other.
    pub open spec fn spec_fields(self) -> Seq<FieldView> {
        present("user_id"@, Some(SqlValueView::Int(self.user_id)))
            + present("book_id"@, Some(SqlValueView::Int(self.book_id)))
            + present("rating"@, Some(SqlValueView::Int(self.rating as i64)))
            + present("review_text"@, Some(SqlValueView::Text(self.review_text@)))
    }

    /// Whether a new review provides the column `c`.
    pub open spec fn provides(self, c: Seq<char>) -> bool {
        ||| c == "user_id"@
        ||| c == "book_id"@
        ||| c == "rating"@
        ||| c == "review_text"@
    }

    /// The fields of a new review name exactly the columns that it
    /// provides: an absent attribute is named by no field.
    pub proof fn names_what_it_provides(self, c: Seq<char>)
        ensures
            columns_of(self.spec_fields()).contains(c) <==> self.provides(c),
    {
        let p1 = present("user_id"@, Some(SqlValueView::Int(self.user_id)));
        let p2 = present("book_id"@, Some(SqlValueView::Int(self.book_id)));
        let p3 = present("rating"@, Some(SqlValueView::Int(self.rating as i64)));
        assert(Seq::<FieldView>::empty() + p1 =~= p1);
        lemma_named(Seq::empty(), "user_id"@, Some(SqlValueView::Int(self.user_id)), c);
        lemma_named(p1, "book_id"@, Some(SqlValueView::Int(self.book_id)), c);
        lemma_named(p1 + p2, "rating"@, Some(SqlValueView::Int(self.rating as i64)), c);
        lemma_named(p1 + p2 + p3, "review_text"@, Some(SqlValueView::Text(self.review_text@)), c);
    }

    /// The present attributes as fields.
    pub fn not_none_fields(self) -> (r: Vec<Field>)
        ensures
            fields_view(r@) == self.spec_fields(),
    {
        let mut fields: Vec<Field> = Vec::new();
        assert(fields_view(fields@) =~= Seq::empty());
        push_i64(&mut fields, "user_id", Some(self.user_id));
        push_i64(&mut fields, "book_id", Some(self.book_id));
        push_i8(&mut fields, "rating", Some(self.rating));
        push_text(&mut fields, "review_text", Some(self.review_text));
        assert(fields_view(fields@) =~= self.spec_fields());
        fields
    }
}

impl ReviewForUpdate {
    /// The fields of a change of a review: each attribute that is present, in the
    /// order of declaration, and no other.
    pub open spec fn spec_fields(self) -> Seq<FieldView> {
        present("user_id"@, i64_of(self.user_id))
            + present("book_id"@, i64_of(self.book_id))
            + present("rating"@, i8_of(self.rating))
            + present("review_text"@, text_of(self.review_text))
    }

    /// Whether a change of a review provides the column `c`.
    pub open spec fn provides(self, c: Seq<char>) -> bool {
        ||| c == "user_id"@ && self.user_id is Some
        ||| c == "book_id"@ && self.book_id is Some
        ||| c == "rating"@ && self.rating is Some
        ||| c == "review_text"@ && self.review_text is Some
    }

    /// The fields of a change of a review name exactly the columns that it
    /// provides: an absent attribute is named by no field.
    pub proof fn names_what_it_provides(self, c: Seq<char>)
        ensures
            columns_of(self.spec_fields()).contains(c) <==> self.provides(c),
    {
        let p1 = present("user_id"@, i64_of(self.user_id));
        let p2 = present("book_id"@, i64_of(self.book_id));
        let p3 = present("rating"@, i8_of(self.rating));
        assert(Seq::<FieldView>::empty() + p1 =~= p1);
        lemma_named(Seq::empty(), "user_id"@, i64_of(self.user_id), c);
        lemma_named(p1, "book_id"@, i64_of(self.book_id), c);
        lemma_named(p1 + p2, "rating"@, i8_of(self.rating), c);
        lemma_named(p1 + p2 + p3, "review_text"@, text_of(self.review_text), c);
    }

    /// The present attributes as fields.
    pub fn not_none_fields(self) -> (r: Vec<Field>)
        ensures
            fields_view(r@) == self.spec_fields(),
    {
        let mut fields: Vec<Field> = Vec::new();
        assert(fields_view(fields@) =~= Seq::empty());
        push_i64(&mut fields, "user_id", self.user_id);
        push_i64(&mut fields, "book_id", self.book_id);
        push_i8(&mut fields, "rating", self.rating);
        push_text(&mut fields, "review_text", self.review_text);
        assert(fields_view(fields@) =~= self.spec_fields());
        fields
    }
}

impl Review {
    /// The columns of a review.
    pub open spec fn spec_columns() -> Seq<Seq<char>> {
        seq![
            "id"@,
            "user_id"@,
            "book_id"@,
            "rating"@,
            "review_text"@,
            "updated_at"@,
            "created_at"@,
        ]
    }

    /// The columns of a review, in order.
    pub fn columns() -> (r: Vec<&'static str>)
        ensures
            names(r@) == Review::spec_columns(),
    {
        let r = vec![
            "id",
            "user_id",
            "book_id",
            "rating",
            "review_text",
            "updated_at",
            "created_at",
        ];
        assert(names(r@) =~= Review::spec_columns());
        r
    }

    /// Reads the answer to the lookup of the review `id`: the row, or
    /// that there is none in `Reviews`.
    pub fn found<E>(id: i64, row: Option<E>) -> (r: Result<E, Error>)
        ensures
            r == found_spec("Reviews", id, row),
    {
        crate::model::found("Reviews", id, row)
    }

    /// Reads the answer to a change of the review `id`: how many rows of
    /// `Reviews` it touched.
    pub fn changed(id: i64, rows_affected: u64) -> (r: Result<(), Error>)
        ensures
            r == changed_spec("Reviews", id, rows_affected),
    {
        crate::model::changed("Reviews", id, rows_affected)
    }

    /// The lookup of the review `id`.
    pub fn get(id: i64) -> (r: Statement)
        ensures
            r@ == select_spec(reviews(), Review::spec_columns(), id_is(id)),
    {
        crate::model::get("Reviews", Review::columns(), id)
    }

    /// The change `review` of the review `id`: exactly its present
    /// attributes are set, every other column keeps its value.
    pub fn update(id: i64, review: ReviewForUpdate) -> (r: Statement)
        ensures
            r@ == update_spec(reviews(), review.spec_fields(), id_is(id)),
    {
        crate::model::update("Reviews", id, review.not_none_fields())
    }

    /// The insert of a review: exactly its present attributes.
    pub fn create(review: ReviewForCreate) -> (r: Result<Statement, Error>)
        ensures
            r matches Ok(s) && s@ == insert_spec(reviews(), review.spec_fields()),
    {
        crate::model::create("Reviews", review.not_none_fields())
    }

    /// The listing of every review.
    pub fn list() -> (r: Statement)
        ensures
            r@ == select_spec(reviews(), Review::spec_columns(), Seq::empty()),
    {
        crate::model::list("Reviews", Review::columns())
    }

    /// The listing of the reviews of the book `book_id`.
    pub fn list_by_book(book_id: i64) -> (r: Statement)
        ensures
            r@ == select_spec(
                reviews(),
                Review::spec_columns(),
                seq![FieldView { column: "book_id"@, value: SqlValueView::Int(book_id) }],
            ),
    {
        crate::model::list_where("Reviews", Review::columns(), "book_id", SqlValue::Int(book_id))
    }

    /// The listing of the reviews written by the user `user_id`.
    pub fn list_by_user(user_id: i64) -> (r: Statement)
        ensures
            r@ == select_spec(
                reviews(),
                Review::spec_columns(),
                seq![FieldView { column: "user_id"@, value: SqlValueView::Int(user_id) }],
            ),
    {
        crate::model::list_where("Reviews", Review::columns(), "user_id", SqlValue::Int(user_id))
    }
}

} // verus!
