//! The partitions that the booking system keeps.

use crate::db::Table;
use crate::models::{Reservation, User};
use vstd::prelude::*;

verus! {

/// The partition of reservations, each under a number that the store gave
/// out.
pub struct Reservations;

impl Table for Reservations {
    type Key = u64;

    type Value = Reservation;

    open spec fn spec_name() -> Seq<char> {
        "reservation"@
    }

    open spec fn spec_has_get_tree() -> bool {
        false
    }

    fn name() -> (name: &'static str) {
        "reservation"
    }

    fn has_get_tree() -> (custom: bool) {
        false
    }
}

/// The partition of accounts, each under its email address.
pub struct Users;

impl Table for Users {
    type Key = String;

    type Value = User;

    open spec fn spec_name() -> Seq<char> {
        "user"@
    }

    open spec fn spec_has_get_tree() -> bool {
        false
    }

    fn name() -> (name: &'static str) {
        "user"
    }

    fn has_get_tree() -> (custom: bool) {
        false
    }
}

} // verus!
