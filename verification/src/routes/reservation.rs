//! The replies of the handlers of reservations.

use vstd::prelude::*;
use crate::model::error::Error;
use crate::routes::{answer, replied, Handler, Reply};

verus! {

/// The reply to a request for one reservation.
pub fn get_reservation<T>(outcome: &Result<T, Error>) -> (r: Reply)
    ensures
        r == replied(*outcome, Reply::Payload { status: 200, key: "reservation" }, Handler::Reads, "Reservation not found"),
{
    answer(outcome, Reply::Payload { status: 200, key: "reservation" }, Handler::Reads, "Reservation not found")
}

/// The reply to a change of one reservation.
pub fn update_reservation<T>(outcome: &Result<T, Error>) -> (r: Reply)
    ensures
        r == replied(*outcome, Reply::Message { status: 200, message: "Reservation updated" }, Handler::Writes, "Reservation not found"),
{
    answer(outcome, Reply::Message { status: 200, message: "Reservation updated" }, Handler::Writes, "Reservation not found")
}

/// The reply to a new reservation.
pub fn create_reservation<T>(outcome: &Result<T, Error>) -> (r: Reply)
    ensures
        r == replied(*outcome, Reply::Message { status: 201, message: "Reservation added" }, Handler::Writes, "Reservation could not be added"),
{
    answer(outcome, Reply::Message { status: 201, message: "Reservation added" }, Handler::Writes, "Reservation could not be added")
}

/// The reply to a request for every reservation.
pub fn get_reservations<T>(outcome: &Result<T, Error>) -> (r: Reply)
    ensures
        r == replied(*outcome, Reply::Payload { status: 200, key: "reservations" }, Handler::Reads, "Reservation not found"),
{
    answer(outcome, Reply::Payload { status: 200, key: "reservations" }, Handler::Reads, "Reservation not found")
}

} // verus!
