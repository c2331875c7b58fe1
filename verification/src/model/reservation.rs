//! Reservations of copies, and the statements on the `Reservations` table.

use vstd::prelude::*;
use chrono::{NaiveDate, NaiveDateTime};
use crate::model::error::Error;
use crate::model::{
    Field, FieldView, SqlValue, SqlValueView, Statement, changed_spec, columns_of, date_of,
    fields_view, found_spec, id_is, insert_spec, lemma_named, names, present, push_date,
    push_field, push_i64, select_spec, update_spec,
};
use crate::text::same_text;

verus! {

/// The table that holds the reservations.
pub open spec fn reservations() -> Seq<char> {
    "Reservations"@
}

/// A stored reservation.
#[derive(Debug)]
pub struct Reservation {
    pub id: i64,
    pub copy_id: i64,
    pub book_id: i64,
    pub user_id: i64,
    pub reservation_date: NaiveDate,
    pub status: ReservationStatus,
    pub updated_at: Option<NaiveDateTime>,
}

/// Where a reservation stands.
#[derive(Debug, Clone, Copy, PartialEq, Eq, Structural)]
pub enum ReservationStatus {
    Pending,
    Active,
    Declined,
    Expired,
    Cancelled,
}

impl ReservationStatus {
    /// The lower-case text under which a status is stored and sent.
    pub open spec fn name(self) -> Seq<char> {
        match self {
            ReservationStatus::Pending => "pending"@,
            ReservationStatus::Active => "active"@,
            ReservationStatus::Declined => "declined"@,
            ReservationStatus::Expired => "expired"@,
            ReservationStatus::Cancelled => "cancelled"@,
        }
    }

    /// The text of a status.
    pub fn as_str(self) -> (r: &'static str)
        ensures
            r@ == self.name(),
    {
        match self {
            ReservationStatus::Pending => "pending",
            ReservationStatus::Active => "active",
            ReservationStatus::Declined => "declined",
            ReservationStatus::Expired => "expired",
            ReservationStatus::Cancelled => "cancelled",
        }
    }

    /// The status that a text names, if it names one.
    pub open spec fn named(text: Seq<char>) -> Option<ReservationStatus> {
        if text == "pending"@ {
            Some(ReservationStatus::Pending)
        } else if text == "active"@ {
            Some(ReservationStatus::Active)
        } else if text == "declined"@ {
            Some(ReservationStatus::Declined)
        } else if text == "expired"@ {
            Some(ReservationStatus::Expired)
        } else if text == "cancelled"@ {
            Some(ReservationStatus::Cancelled)
        } else {
            None
        }
    }

    /// Reads a status from its text; any other text names no status.
    pub fn parse(text: &str) -> (r: Option<ReservationStatus>)
        ensures
            r == ReservationStatus::named(text@),
    {
        if same_text(text, "pending") {
            Some(ReservationStatus::Pending)
        } else if same_text(text, "active") {
            Some(ReservationStatus::Active)
        } else if same_text(text, "declined") {
            Some(ReservationStatus::Declined)
        } else if same_text(text, "expired") {
            Some(ReservationStatus::Expired)
        } else if same_text(text, "cancelled") {
            Some(ReservationStatus::Cancelled)
        } else {
            None
        }
    }

    /// The value a status is bound as: its text.
    pub fn value(self) -> (r: SqlValue)
        ensures
            r@ == SqlValueView::Text(self.name()),
    {
        SqlValue::Text(self.as_str().to_string())
    }

    /// The value of a status that may be absent.
    pub open spec fn bound(status: Option<ReservationStatus>) -> Option<SqlValueView> {
        match status {
            Some(s) => Some(SqlValueView::Text(s.name())),
            None => None,
        }
    }

    /// Binds a status that may be absent.
    pub fn bind(status: Option<ReservationStatus>) -> (r: Option<SqlValue>)
        ensures
            match r {
                Some(v) => ReservationStatus::bound(status) == Some(v@),
                None => ReservationStatus::bound(status) is None,
            },
    {
        match status {
            Some(s) => Some(s.value()),
            None => None,
        }
    }
}

/// What a new reservation provides.
#[derive(Debug)]
pub struct ReservationForCreate {
    pub copy_id: i64,
    pub book_id: i64,
    pub user_id: i64,
    pub reservation_date: Option<NaiveDate>,
}

/// What a change of a reservation provides: its new status.
#[derive(Debug)]
pub struct ReservationForUpdate {
    pub status: ReservationStatus,
}

impl ReservationForCreate {
    /// The fields of a new reservation: each attribute that is present, in the
    /// order of declaration, and no other.
    pub open spec fn spec_fields(self) -> Seq<FieldView> {
        present("copy_id"@, Some(SqlValueView::Int(self.copy_id)))
            + present("book_id"@, Some(SqlValueView::Int(self.book_id)))
            + present("user_id"@, Some(SqlValueView::Int(self.user_id)))
            + present("reservation_date"@, date_of(self.reservation_date))
    }

    /// Whether a new reservation provides the column `c`.
    pub open spec fn provides(self, c: Seq<char>) -> bool {
        ||| c == "copy_id"@
        ||| c == "book_id"@
        ||| c == "user_id"@
        ||| c == "reservation_date"@ && self.reservation_date is Some
    }

    /// The fields of a new reservation name exactly the columns that it
    /// provides: an absent attribute is named by no field.
    pub proof fn names_what_it_provides(self, c: Seq<char>)
        ensures
            columns_of(self.spec_fields()).contains(c) <==> self.provides(c),
    {
        let p1 = present("copy_id"@, Some(SqlValueView::Int(self.copy_id)));
        let p2 = present("book_id"@, Some(SqlValueView::Int(self.book_id)));
        let p3 = present("user_id"@, Some(SqlValueView::Int(self.user_id)));
        assert(Seq::<FieldView>::empty() + p1 =~= p1);
        lemma_named(Seq::empty(), "copy_id"@, Some(SqlValueView::Int(self.copy_id)), c);
        lemma_named(p1, "book_id"@, Some(SqlValueView::Int(self.book_id)), c);
        lemma_named(p1 + p2, "user_id"@, Some(SqlValueView::Int(self.user_id)), c);
        lemma_named(p1 + p2 + p3, "reservation_date"@, date_of(self.reservation_date), c);
    }

    /// The present attributes as fields.
    pub fn not_none_fields(self) -> (r: Vec<Field>)
        ensures
            fields_view(r@) == self.spec_fields(),
    {
        let mut fields: Vec<Field> = Vec::new();
        assert(fields_view(fields@) =~= Seq::empty());
        push_i64(&mut fields, "copy_id", Some(self.copy_id));
        push_i64(&mut fields, "book_id", Some(self.book_id));
        push_i64(&mut fields, "user_id", Some(self.user_id));
        push_date(&mut fields, "reservation_date", self.reservation_date);
        assert(fields_view(fields@) =~= self.spec_fields());
        fields
    }
}

impl ReservationForUpdate {
    /// The fields of a change of a reservation: each attribute that is present, in the
    /// order of declaration, and no other.
    pub open spec fn spec_fields(self) -> Seq<FieldView> {
        present("status"@, Some(SqlValueView::Text(self.status.name())))
    }

    /// Whether a change of a reservation provides the column `c`.
    pub open spec fn provides(self, c: Seq<char>) -> bool {
        ||| c == "status"@
    }

    /// The fields of a change of a reservation name exactly the columns that it
    /// provides: an absent attribute is named by no field.
    pub proof fn names_what_it_provides(self, c: Seq<char>)
        ensures
            columns_of(self.spec_fields()).contains(c) <==> self.provides(c),
    {
        assert(Seq::<FieldView>::empty() + present("status"@, Some(SqlValueView::Text(self.status.name()))) =~= present("status"@, Some(SqlValueView::Text(self.status.name()))));
        lemma_named(Seq::empty(), "status"@, Some(SqlValueView::Text(self.status.name())), c);
    }

    /// The present attributes as fields.
    pub fn not_none_fields(self) -> (r: Vec<Field>)
        ensures
            fields_view(r@) == self.spec_fields(),
    {
        let mut fields: Vec<Field> = Vec::new();
        assert(fields_view(fields@) =~= Seq::empty());
        push_field(&mut fields, "status", Some(self.status.value()));
        assert(fields_view(fields@) =~= self.spec_fields());
        fields
    }
}

impl Reservation {
    /// The columns of a reservation.
    pub open spec fn spec_columns() -> Seq<Seq<char>> {
        seq![
            "id"@,
            "copy_id"@,
            "book_id"@,
            "user_id"@,
            "reservation_date"@,
            "status"@,
            "updated_at"@,
        ]
    }

    /// The columns of a reservation, in order.
    pub fn columns() -> (r: Vec<&'static str>)
        ensures
            names(r@) == Reservation::spec_columns(),
    {
        let r = vec![
            "id",
            "copy_id",
            "book_id",
            "user_id",
            "reservation_date",
            "status",
            "updated_at",
        ];
        assert(names(r@) =~= Reservation::spec_columns());
        r
    }

    /// Reads the answer to the lookup of the reservation `id`: the row, or
    /// that there is none in `Reservations`.
    pub fn found<E>(id: i64, row: Option<E>) -> (r: Result<E, Error>)
        ensures
            r == found_spec("Reservations", id, row),
    {
        crate::model::found("Reservations", id, row)
    }

    /// Reads the answer to a change of the reservation `id`: how many rows of
    /// `Reservations` it touched.
    pub fn changed(id: i64, rows_affected: u64) -> (r: Result<(), Error>)
        ensures
            r == changed_spec("Reservations", id, rows_affected),
    {
        crate::model::changed("Reservations", id, rows_affected)
    }

    /// The lookup of the reservation `id`.
    pub fn get(id: i64) -> (r: Statement)
        ensures
            r@ == select_spec(reservations(), Reservation::spec_columns(), id_is(id)),
    {
        crate::model::get("Reservations", Reservation::columns(), id)
    }

    /// The change `reservation` of the reservation `id`: exactly its present
    /// attributes are set, every other column keeps its value.
    pub fn update(id: i64, reservation: ReservationForUpdate) -> (r: Statement)
        ensures
            r@ == update_spec(reservations(), reservation.spec_fields(), id_is(id)),
    {
        crate::model::update("Reservations", id, reservation.not_none_fields())
    }

    /// The insert of a reservation: exactly its present attributes.
    pub fn create(reservation: ReservationForCreate) -> (r: Result<Statement, Error>)
        ensures
            r matches Ok(s) && s@ == insert_spec(reservations(), reservation.spec_fields()),
    {
        crate::model::create("Reservations", reservation.not_none_fields())
    }

    /// The listing of every reservation.
    pub fn list() -> (r: Statement)
        ensures
            r@ == select_spec(reservations(), Reservation::spec_columns(), Seq::empty()),
    {
        crate::model::list("Reservations", Reservation::columns())
    }

    /// The listing of the reservations of the user `user_id`.
    pub fn list_by_user(user_id: i64) -> (r: Statement)
        ensures
            r@ == select_spec(
                reservations(),
                Reservation::spec_columns(),
                seq![FieldView { column: "user_id"@, value: SqlValueView::Int(user_id) }],
            ),
    {
        crate::model::list_where("Reservations", Reservation::columns(), "user_id", SqlValue::Int(user_id))
    }
}

} // verus!
