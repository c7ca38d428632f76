//! Plain data held by the booking system, and the mathematical view of each
//! type over which the contracts of the other modules are stated.

use vstd::prelude::*;
use vstd::std_specs::convert::FromSpecImpl;

verus! {

/// The value of `rooms` that books the whole auditorium.
pub const BOTH_ROOMS: u8 = 3;

/// The outcome of an operation with the value it carries taken by its view.
pub open spec fn outcome_view<T: View, E>(outcome: Result<T, E>) -> Result<T::V, E> {
    match outcome {
        Ok(value) => Ok(value@),
        Err(reason) => Err(reason),
    }
}

/// An instant on the UTC time line: whole seconds since the Unix epoch and the
/// nanoseconds past that second. A leap second is written with a nanosecond
/// count of one thousand million or more. Instants are ordered by their
/// seconds, then by their nanoseconds.
#[derive(Clone, Copy, Debug, PartialEq, Eq, PartialOrd, Ord, Hash, Structural)]
pub struct Timestamp {
    pub secs: i64,
    pub nanos: u32,
}

impl Timestamp {
    /// Whether `self` is `other` or earlier.
    pub open spec fn spec_le(self, other: Timestamp) -> bool {
        self.secs < other.secs || (self.secs == other.secs && self.nanos <= other.nanos)
    }

    /// Whether `self` is earlier than `other`.
    pub open spec fn spec_lt(self, other: Timestamp) -> bool {
        self.secs < other.secs || (self.secs == other.secs && self.nanos < other.nanos)
    }

    /// Whether `self` is `other` or earlier.
    pub fn le(self, other: Timestamp) -> (r: bool)
        ensures
            r == self.spec_le(other),
    {
        self.secs < other.secs || (self.secs == other.secs && self.nanos <= other.nanos)
    }

    /// Whether `self` is earlier than `other`.
    pub fn lt(self, other: Timestamp) -> (r: bool)
        ensures
            r == self.spec_lt(other),
    {
        self.secs < other.secs || (self.secs == other.secs && self.nanos < other.nanos)
    }
}

/// An account.
#[derive(Debug, PartialEq, Eq)]
pub struct User {
    /// The name shown for the account.
    pub name: String,
    /// The address that identifies the account.
    pub email: String,
    /// The name of the role the account holds. Any text can stand here; one
    /// that names no role authorizes nothing.
    pub role: String,
}

/// What a `User` holds.
#[verifier::ext_equal]
pub struct UserView {
    pub name: Seq<char>,
    pub email: Seq<char>,
    pub role: Seq<char>,
}

impl View for User {
    type V = UserView;

    open spec fn view(&self) -> UserView {
        UserView { name: self.name@, email: self.email@, role: self.role@ }
    }
}

impl DeepView for User {
    type V = UserView;

    open spec fn deep_view(&self) -> UserView {
        self@
    }
}

impl Clone for User {
    fn clone(&self) -> (copy: User)
        ensures
            copy@ == self@,
    {
        User { name: self.name.clone(), email: self.email.clone(), role: self.role.clone() }
    }
}

/// A reservation as it is stored.
#[derive(Debug, PartialEq, Eq)]
pub struct Reservation {
    /// The title of the event.
    pub name: String,
    /// What the event is about.
    pub description: String,
    /// The address of the account that made the reservation.
    pub author: String,
    /// The rooms wanted: 1 for the north room, 2 for the south room, 3 for
    /// both.
    pub rooms: u8,
    /// When the event starts.
    pub begin_time: Timestamp,
    /// When the event ends.
    pub end_time: Timestamp,
    /// The code of the furniture layout.
    pub layout: u8,
    /// Whether an approver has confirmed the reservation.
    pub approved: bool,
    /// How many people are expected.
    pub people: u16,
}

/// What a `Reservation` holds.
#[verifier::ext_equal]
pub struct ReservationView {
    pub name: Seq<char>,
    pub description: Seq<char>,
    pub author: Seq<char>,
    pub rooms: u8,
    pub begin_time: Timestamp,
    pub end_time: Timestamp,
    pub layout: u8,
    pub approved: bool,
    pub people: u16,
}

impl ReservationView {
    /// The same reservation, confirmed.
    pub open spec fn confirmed(self) -> ReservationView {
        ReservationView { approved: true, ..self }
    }
}

impl View for Reservation {
    type V = ReservationView;

    open spec fn view(&self) -> ReservationView {
        ReservationView {
            name: self.name@,
            description: self.description@,
            author: self.author@,
            rooms: self.rooms,
            begin_time: self.begin_time,
            end_time: self.end_time,
            layout: self.layout,
            approved: self.approved,
            people: self.people,
        }
    }
}

impl DeepView for Reservation {
    type V = ReservationView;

    open spec fn deep_view(&self) -> ReservationView {
        self@
    }
}

impl Clone for Reservation {
    fn clone(&self) -> (copy: Reservation)
        ensures
            copy@ == self@,
    {
        Reservation {
            name: self.name.clone(),
            description: self.description.clone(),
            author: self.author.clone(),
            rooms: self.rooms,
            begin_time: self.begin_time,
            end_time: self.end_time,
            layout: self.layout,
            approved: self.approved,
            people: self.people,
        }
    }
}

impl Reservation {
    /// What becomes of a stored reservation when it is confirmed: it is
    /// marked approved and otherwise kept; where nothing is stored, nothing
    /// is.
    pub open spec fn spec_approved(stored: Option<ReservationView>) -> Option<ReservationView> {
        match stored {
            Some(r) => Some(r.confirmed()),
            None => None,
        }
    }

    /// Confirms a stored reservation: marks it approved and keeps the rest.
    /// Where nothing is stored, nothing is.
    pub fn approved(stored: Option<Reservation>) -> (next: Option<Reservation>)
        ensures
            next.deep_view() == Self::spec_approved(stored.deep_view()),
    {
        match stored {
            Some(mut r) => {
                r.approved = true;
                Some(r)
            },
            None => None,
        }
    }
}

/// A reservation as a caller asks for it.
#[derive(Debug, PartialEq, Eq)]
pub struct NewReservation {
    /// The title of the event.
    pub name: String,
    /// What the event is about.
    pub description: String,
    /// The rooms wanted: 1 for the north room, 2 for the south room, 3 for
    /// both.
    pub rooms: u8,
    /// When the event starts.
    pub begin_time: Timestamp,
    /// When the event ends.
    pub end_time: Timestamp,
    /// The code of the furniture layout.
    pub layout: u8,
    /// How many people are expected.
    pub people: u16,
}

/// What a `NewReservation` holds.
#[verifier::ext_equal]
pub struct NewReservationView {
    pub name: Seq<char>,
    pub description: Seq<char>,
    pub rooms: u8,
    pub begin_time: Timestamp,
    pub end_time: Timestamp,
    pub layout: u8,
    pub people: u16,
}

impl NewReservationView {
    /// The reservation that is stored for this request on behalf of `author`:
    /// the requested fields, the author, and not approved.
    pub open spec fn recorded(self, author: Seq<char>) -> ReservationView {
        ReservationView {
            name: self.name,
            description: self.description,
            author,
            rooms: self.rooms,
            begin_time: self.begin_time,
            end_time: self.end_time,
            layout: self.layout,
            approved: false,
            people: self.people,
        }
    }
}

impl View for NewReservation {
    type V = NewReservationView;

    open spec fn view(&self) -> NewReservationView {
        NewReservationView {
            name: self.name@,
            description: self.description@,
            rooms: self.rooms,
            begin_time: self.begin_time,
            end_time: self.end_time,
            layout: self.layout,
            people: self.people,
        }
    }
}

impl Clone for NewReservation {
    fn clone(&self) -> (copy: NewReservation)
        ensures
            copy@ == self@,
    {
        NewReservation {
            name: self.name.clone(),
            description: self.description.clone(),
            rooms: self.rooms,
            begin_time: self.begin_time,
            end_time: self.end_time,
            layout: self.layout,
            people: self.people,
        }
    }
}

impl From<NewReservation> for Reservation {
    /// The stored form of a request: the requested fields, no author yet, and
    /// not approved.
    fn from(src: NewReservation) -> (r: Reservation)
        ensures
            r@ == src@.recorded(Seq::empty()),
    {
        Reservation {
            name: src.name,
            description: src.description,
            author: String::new(),
            rooms: src.rooms,
            begin_time: src.begin_time,
            end_time: src.end_time,
            layout: src.layout,
            approved: false,
            people: src.people,
        }
    }
}

impl FromSpecImpl<NewReservation> for Reservation {
    open spec fn obeys_from_spec() -> bool {
        false
    }

    open spec fn from_spec(src: NewReservation) -> Reservation {
        arbitrary()
    }
}

/// An edit of a stored reservation: each field that is given replaces the
/// stored one, each field that is left out keeps it.
#[derive(Debug, PartialEq, Eq)]
pub struct UpdateReservation {
    /// The title of the event.
    pub name: Option<String>,
    /// What the event is about.
    pub description: Option<String>,
    /// The rooms wanted: 1 for the north room, 2 for the south room, 3 for
    /// both.
    pub rooms: Option<u8>,
    /// When the event starts.
    pub begin_time: Option<Timestamp>,
    /// When the event ends.
    pub end_time: Option<Timestamp>,
    /// The code of the furniture layout.
    pub layout: Option<u8>,
    /// How many people are expected.
    pub people: Option<u16>,
}

/// What an `UpdateReservation` holds.
#[verifier::ext_equal]
pub struct UpdateReservationView {
    pub name: Option<Seq<char>>,
    pub description: Option<Seq<char>>,
    pub rooms: Option<u8>,
    pub begin_time: Option<Timestamp>,
    pub end_time: Option<Timestamp>,
    pub layout: Option<u8>,
    pub people: Option<u16>,
}

/// The given value where one is given, else the stored one.
pub open spec fn given_or<T>(given: Option<T>, stored: T) -> T {
    match given {
        Some(v) => v,
        None => stored,
    }
}

impl UpdateReservationView {
    /// The stored reservation after this edit: the given fields replaced, the
    /// others and the author kept, and the approval withdrawn.
    pub open spec fn edited(self, stored: ReservationView) -> ReservationView {
        ReservationView {
            name: given_or(self.name, stored.name),
            description: given_or(self.description, stored.description),
            author: stored.author,
            rooms: given_or(self.rooms, stored.rooms),
            begin_time: given_or(self.begin_time, stored.begin_time),
            end_time: given_or(self.end_time, stored.end_time),
            layout: given_or(self.layout, stored.layout),
            approved: false,
            people: given_or(self.people, stored.people),
        }
    }

    /// What becomes of what is stored under a key when this edit is applied
    /// to it: a stored reservation is edited, and where nothing is stored,
    /// nothing is.
    pub open spec fn applied(self, stored: Option<ReservationView>) -> Option<ReservationView> {
        match stored {
            Some(r) => Some(self.edited(r)),
            None => None,
        }
    }
}

impl View for UpdateReservation {
    type V = UpdateReservationView;

    open spec fn view(&self) -> UpdateReservationView {
        UpdateReservationView {
            name: self.name.deep_view(),
            description: self.description.deep_view(),
            rooms: self.rooms,
            begin_time: self.begin_time,
            end_time: self.end_time,
            layout: self.layout,
            people: self.people,
        }
    }
}

/// A copy of a text that may be absent.
fn copy_of(text: &Option<String>) -> (copy: Option<String>)
    ensures
        copy.deep_view() == text.deep_view(),
{
    match text {
        Some(t) => Some(t.clone()),
        None => None,
    }
}

impl Clone for UpdateReservation {
    fn clone(&self) -> (copy: UpdateReservation)
        ensures
            copy@ == self@,
    {
        UpdateReservation {
            name: copy_of(&self.name),
            description: copy_of(&self.description),
            rooms: self.rooms,
            begin_time: self.begin_time,
            end_time: self.end_time,
            layout: self.layout,
            people: self.people,
        }
    }
}

impl UpdateReservation {
    /// Applies the edit to what is stored under a key. A stored reservation
    /// gets each given field, keeps the others and its author, and loses its
    /// approval, whether or not anything changed. Where nothing is stored,
    /// nothing is.
    pub fn apply(&self, stored: Option<Reservation>) -> (next: Option<Reservation>)
        ensures
            next.deep_view() == self@.applied(stored.deep_view()),
            stored is Some ==> next is Some && !next.unwrap().approved,
    {
        match stored {
            Some(mut val) => {
                match &self.name {
                    Some(x) => {
                        val.name = x.clone();
                    },
                    None => {},
                }
                match &self.description {
                    Some(x) => {
                        val.description = x.clone();
                    },
                    None => {},
                }
                match self.rooms {
                    Some(x) => {
                        val.rooms = x;
                    },
                    None => {},
                }
                match self.begin_time {
                    Some(x) => {
                        val.begin_time = x;
                    },
                    None => {},
                }
                match self.end_time {
                    Some(x) => {
                        val.end_time = x;
                    },
                    None => {},
                }
                match self.layout {
                    Some(x) => {
                        val.layout = x;
                    },
                    None => {},
                }
                match self.people {
                    Some(x) => {
                        val.people = x;
                    },
                    None => {},
                }
                val.approved = false;
                Some(val)
            },
            None => None,
        }
    }
}

} // verus!
