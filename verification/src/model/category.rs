//! Categories of books, and the statements on the `Categories` table.

use vstd::prelude::*;
use chrono::NaiveDateTime;
use crate::model::error::Error;
use crate::model::{
    Field, FieldView, SqlValueView, Statement, changed_spec, columns_of, fields_view, found_spec,
    id_is, insert_spec, lemma_named, names, present, push_text, select_spec, update_spec,
};

verus! {

/// The table that holds the categories.
pub open spec fn categories() -> Seq<char> {
    "Categories"@
}

/// A stored category.
#[derive(Debug)]
pub struct Category {
    pub id: i64,
    pub name: String,
    pub updated_at: Option<NaiveDateTime>,
}

/// What a new category, or a change of one, provides.
#[derive(Debug)]
pub struct CategoryForUpdate {
    pub name: String,
}

impl CategoryForUpdate {
    /// The fields of a category: each attribute that is present, in the
    /// order of declaration, and no other.
    pub open spec fn spec_fields(self) -> Seq<FieldView> {
        present("name"@, Some(SqlValueView::Text(self.name@)))
    }

    /// Whether a category provides the column `c`.
    pub open spec fn provides(self, c: Seq<char>) -> bool {
        ||| c == "name"@
    }

    /// The fields of a category name exactly the columns that it
    /// provides: an absent attribute is named by no field.
    pub proof fn names_what_it_provides(self, c: Seq<char>)
        ensures
            columns_of(self.spec_fields()).contains(c) <==> self.provides(c),
    {
        assert(Seq::<FieldView>::empty() + present("name"@, Some(SqlValueView::Text(self.name@))) =~= present("name"@, Some(SqlValueView::Text(self.name@))));
        lemma_named(Seq::empty(), "name"@, Some(SqlValueView::Text(self.name@)), c);
    }

    /// The present attributes as fields.
    pub fn not_none_fields(self) -> (r: Vec<Field>)
        ensures
            fields_view(r@) == self.spec_fields(),
    {
        let mut fields: Vec<Field> = Vec::new();
        assert(fields_view(fields@) =~= Seq::empty());
        push_text(&mut fields, "name", Some(self.name));
        assert(fields_view(fields@) =~= self.spec_fields());
        fields
    }
}

impl Category {
    /// The columns of a category.
    pub open spec fn spec_columns() -> Seq<Seq<char>> {
        seq![
            "id"@,
            "name"@,
            "updated_at"@,
        ]
    }

    /// The columns of a category, in order.
    pub fn columns() -> (r: Vec<&'static str>)
        ensures
            names(r@) == Category::spec_columns(),
    {
        let r = vec![
            "id",
            "name",
            "updated_at",
        ];
        assert(names(r@) =~= Category::spec_columns());
        r
    }

    /// Reads the answer to the lookup of the category `id`: the row, or
    /// that there is none in `Categories`.
    pub fn found<E>(id: i64, row: Option<E>) -> (r: Result<E, Error>)
        ensures
            r == found_spec("Categories", id, row),
    {
        crate::model::found("Categories", id, row)
    }

    /// Reads the answer to a change of the category `id`: how many rows of
    /// `Categories` it touched.
    pub fn changed(id: i64, rows_affected: u64) -> (r: Result<(), Error>)
        ensures
            r == changed_spec("Categories", id, rows_affected),
    {
        crate::model::changed("Categories", id, rows_affected)
    }

    /// The lookup of the category `id`.
    pub fn get(id: i64) -> (r: Statement)
        ensures
            r@ == select_spec(categories(), Category::spec_columns(), id_is(id)),
    {
        crate::model::get("Categories", Category::columns(), id)
    }

    /// The change `category` of the category `id`: exactly its present
    /// attributes are set, every other column keeps its value.
    pub fn update(id: i64, category: CategoryForUpdate) -> (r: Statement)
        ensures
            r@ == update_spec(categories(), category.spec_fields(), id_is(id)),
    {
        crate::model::update("Categories", id, category.not_none_fields())
    }

    /// The insert of a category: exactly its present attributes.
    pub fn create(category: CategoryForUpdate) -> (r: Result<Statement, Error>)
        ensures
            r matches Ok(s) && s@ == insert_spec(categories(), category.spec_fields()),
    {
        crate::model::create("Categories", category.not_none_fields())
    }

    /// The listing of every category.
    pub fn list() -> (r: Statement)
        ensures
            r@ == select_spec(categories(), Category::spec_columns(), Seq::empty()),
    {
        crate::model::list("Categories", Category::columns())
    }
}

} // verus!
