//! The rules of booking: which reservations stand in each other's way, and
//! what creating, editing, approving and deleting a reservation does.
//!
//! Each operation is given what the store holds and decides what is to be
//! written. The caller reads before and writes after. `step` says what the
//! store holds after an operation, and `lemma_never_double_booked` that no
//! sequence of operations confirms two reservations that get in each other's
//! way.

use crate::auth::roles::Role;
use crate::auth::{AuthToken, AuthTokenView};
use crate::db::{deleted, inserted, lists, replaced, stored};
use crate::models::{
    outcome_view, NewReservation, NewReservationView, Reservation, ReservationView, Timestamp,
    UpdateReservationView, BOTH_ROOMS,
};
use crate::text::str_eq;
use vstd::prelude::*;

verus! {

/// Why an operation was refused.
#[derive(Clone, Copy, Debug, PartialEq, Eq, Structural)]
pub enum BookingError {
    /// The caller's token was issued for another role than the operation
    /// requires, or the caller may not touch this reservation.
    Forbidden,
    /// No reservation is stored under the given number.
    NotFound,
    /// A confirmed reservation stands in the way.
    Conflict,
    /// A bound of the time range is not an RFC 3339 timestamp.
    BadTimestamp,
}

/// Whether two room masks claim a room in common: one of them is the whole
/// auditorium, or they are the same.
pub open spec fn rooms_clash(a: u8, b: u8) -> bool {
    a == BOTH_ROOMS || b == BOTH_ROOMS || a == b
}

/// For the masks of the north room, the south room and both, two masks clash
/// exactly when they have a room in common.
pub proof fn lemma_rooms_clash_is_shared_room(a: u8, b: u8)
    requires
        1 <= a <= 3,
        1 <= b <= 3,
    ensures
        rooms_clash(a, b) <==> a & b != 0,
{
    assert(1 <= a <= 3 && 1 <= b <= 3 ==> ((a == 3 || b == 3 || a == b) <==> a & b != 0))
        by (bit_vector);
}

/// Whether the time ranges `begin..end` and `other_begin..other_end` meet,
/// their ends included.
pub open spec fn ranges_meet(
    begin: Timestamp,
    end: Timestamp,
    other_begin: Timestamp,
    other_end: Timestamp,
) -> bool {
    begin.spec_le(other_end) && other_begin.spec_le(end)
}

/// Whether `existing` stands in the way of a candidate with the given time
/// range and rooms: it is confirmed, the time ranges meet, and the room masks
/// clash. A reservation that is not confirmed never stands in the way.
pub open spec fn blocks(
    existing: ReservationView,
    begin: Timestamp,
    end: Timestamp,
    rooms: u8,
) -> bool {
    existing.approved && ranges_meet(existing.begin_time, existing.end_time, begin, end)
        && rooms_clash(existing.rooms, rooms)
}

/// Whether any of the listed reservations stands in the way of the candidate.
pub open spec fn spec_has_conflict(
    entries: Seq<(u64, ReservationView)>,
    begin: Timestamp,
    end: Timestamp,
    rooms: u8,
) -> bool {
    exists|i: int| 0 <= i < entries.len() && blocks((#[trigger] entries[i]).1, begin, end, rooms)
}

/// Whether any reservation in the store stands in the way of the candidate.
pub open spec fn store_has_conflict(
    store: Map<u64, ReservationView>,
    begin: Timestamp,
    end: Timestamp,
    rooms: u8,
) -> bool {
    exists|id: u64| #[trigger] store.dom().contains(id) && blocks(store[id], begin, end, rooms)
}

/// A listing of the store has a conflict exactly when the store has.
pub proof fn lemma_listing_conflict(
    entries: Seq<(u64, ReservationView)>,
    store: Map<u64, ReservationView>,
    begin: Timestamp,
    end: Timestamp,
    rooms: u8,
)
    requires
        lists(entries, store),
    ensures
        spec_has_conflict(entries, begin, end, rooms) == store_has_conflict(
            store,
            begin,
            end,
            rooms,
        ),
{
    if spec_has_conflict(entries, begin, end, rooms) {
        let i = choose|i: int|
            0 <= i < entries.len() && blocks((#[trigger] entries[i]).1, begin, end, rooms);
        assert(store.dom().contains(entries[i].0) && blocks(store[entries[i].0], begin, end, rooms));
    }
    if store_has_conflict(store, begin, end, rooms) {
        let id = choose|id: u64| #[trigger]
            store.dom().contains(id) && blocks(store[id], begin, end, rooms);
        let i = choose|i: int| 0 <= i < entries.len() && (#[trigger] entries[i]).0 == id;
        assert(blocks(entries[i].1, begin, end, rooms));
    }
}

/// Whether `existing` stands in the way of a candidate with the given time
/// range and rooms.
pub fn stands_in_way(existing: &Reservation, begin: Timestamp, end: Timestamp, rooms: u8) -> (r:
    bool)
    ensures
        r == blocks(existing@, begin, end, rooms),
{
    existing.approved && existing.begin_time.le(end) && begin.le(existing.end_time) && (
    existing.rooms == BOTH_ROOMS || rooms == BOTH_ROOMS || existing.rooms == rooms)
}

/// Whether any of the listed reservations stands in the way of a candidate
/// with the given time range and rooms.
pub fn has_conflict(
    entries: &Vec<(u64, Reservation)>,
    begin: Timestamp,
    end: Timestamp,
    rooms: u8,
) -> (conflict: bool)
    ensures
        conflict == spec_has_conflict(entries.deep_view(), begin, end, rooms),
{
    let ghost listing = entries.deep_view();
    let mut i: usize = 0;
    while i < entries.len()
        invariant
            i <= entries@.len(),
            listing == entries.deep_view(),
            forall|k: int| 0 <= k < i ==> !blocks((#[trigger] listing[k]).1, begin, end, rooms),
        decreases entries@.len() - i,
    {
        if stands_in_way(&entries[i].1, begin, end, rooms) {
            assert(blocks(listing[i as int].1, begin, end, rooms));
            return true;
        }
        i += 1;
    }
    false
}

/// What creating a reservation comes to: the record to store under a new
/// number, or the reason why none is stored.
pub open spec fn post_outcome(
    input: NewReservationView,
    usr: AuthTokenView,
    conflict: bool,
) -> Result<ReservationView, BookingError> {
    if usr.required != Role::Noob {
        Err(BookingError::Forbidden)
    } else if conflict {
        Err(BookingError::Conflict)
    } else {
        Ok(input.recorded(usr.user.email))
    }
}

/// Creates a reservation. The caller's token must have been issued for
/// `Role::Noob`. Where a confirmed reservation stands in the way, nothing is
/// created. Otherwise the result is the record to store under a number that
/// the store gives out: the requested fields, the caller as author, and not
/// approved.
pub fn post(input: NewReservation, entries: &Vec<(u64, Reservation)>, usr: &AuthToken) -> (outcome:
    Result<Reservation, BookingError>)
    ensures
        outcome_view(outcome) == post_outcome(
            input@,
            usr@,
            spec_has_conflict(entries.deep_view(), input.begin_time, input.end_time, input.rooms),
        ),
        usr.required == Role::Noob && !spec_has_conflict(
            entries.deep_view(),
            input.begin_time,
            input.end_time,
            input.rooms,
        ) ==> (outcome matches Ok(record) && !record.approved && record.author@
            == usr.user.email@),
{
    if !matches!(usr.required, Role::Noob) {
        return Err(BookingError::Forbidden);
    }
    if has_conflict(entries, input.begin_time, input.end_time, input.rooms) {
        return Err(BookingError::Conflict);
    }
    let mut record = Reservation::from(input);
    record.author = usr.user.email.clone();
    Ok(record)
}

/// Whether the caller may edit what is stored under a number: the token was
/// issued for `Role::Noob`, a reservation is stored there, and the caller is
/// its author.
pub open spec fn patch_outcome(event: Option<ReservationView>, usr: AuthTokenView) -> Result<
    (),
    BookingError,
> {
    if usr.required != Role::Noob {
        Err(BookingError::Forbidden)
    } else {
        match event {
            None => Err(BookingError::NotFound),
            Some(e) => if e.author == usr.user.email {
                Ok(())
            } else {
                Err(BookingError::Forbidden)
            },
        }
    }
}

/// Decides whether the caller may edit the reservation `event`, which is what
/// the store holds under the number in question. Only the author may. Where
/// the answer is `Ok`, the edit is then applied to the stored reservation
/// with `UpdateReservation::apply`, in one step of the store.
pub fn patch(event: Option<&Reservation>, usr: &AuthToken) -> (outcome: Result<(), BookingError>)
    ensures
        outcome == patch_outcome(event.deep_view(), usr@),
{
    if !matches!(usr.required, Role::Noob) {
        return Err(BookingError::Forbidden);
    }
    match event {
        None => Err(BookingError::NotFound),
        Some(e) => {
            if str_eq(e.author.as_str(), usr.user.email.as_str()) {
                Ok(())
            } else {
                Err(BookingError::Forbidden)
            }
        },
    }
}

/// Whether the caller may delete what is stored under a number: the token was
/// issued for `Role::Noob`, a reservation is stored there, the caller is its
/// author, and the caller's role is named `Approver`.
pub open spec fn delete_outcome(event: Option<ReservationView>, usr: AuthTokenView) -> Result<
    (),
    BookingError,
> {
    if usr.required != Role::Noob {
        Err(BookingError::Forbidden)
    } else {
        match event {
            None => Err(BookingError::NotFound),
            Some(e) => if e.author == usr.user.email && usr.user.role
                == Role::Approver.spec_name() {
                Ok(())
            } else {
                Err(BookingError::Forbidden)
            },
        }
    }
}

/// Decides whether the caller may delete the reservation `event`, which is
/// what the store holds under the number in question. The caller must be the
/// author and must hold the role named `Approver` as well.
pub fn delete(event: Option<&Reservation>, usr: &AuthToken) -> (outcome: Result<(), BookingError>)
    ensures
        outcome == delete_outcome(event.deep_view(), usr@),
{
    if !matches!(usr.required, Role::Noob) {
        return Err(BookingError::Forbidden);
    }
    match event {
        None => Err(BookingError::NotFound),
        Some(e) => {
            if str_eq(e.author.as_str(), usr.user.email.as_str()) && str_eq(
                usr.user.role.as_str(),
                Role::Approver.name(),
            ) {
                Ok(())
            } else {
                Err(BookingError::Forbidden)
            }
        },
    }
}

/// What approving comes to: whether the stored reservation is to be
/// confirmed, or the reason why the request is refused. A reservation in
/// whose way a confirmed one stands is left as it is, and the request still
/// succeeds.
pub open spec fn approve_outcome(
    event: Option<ReservationView>,
    usr: AuthTokenView,
    conflict: bool,
) -> Result<bool, BookingError> {
    if usr.required != Role::Approver {
        Err(BookingError::Forbidden)
    } else {
        match event {
            None => Err(BookingError::NotFound),
            Some(_) => Ok(!conflict),
        }
    }
}

/// Whether any of the listed reservations stands in the way of `event`, if
/// there is one.
pub open spec fn spec_conflict_with(
    entries: Seq<(u64, ReservationView)>,
    event: Option<ReservationView>,
) -> bool {
    match event {
        Some(e) => spec_has_conflict(entries, e.begin_time, e.end_time, e.rooms),
        None => false,
    }
}

/// Decides whether the reservation `event`, which is what the store holds
/// under the number in question, is to be confirmed. The caller's token must
/// have been issued for `Role::Approver`. The answer is `Ok(true)` where no
/// confirmed reservation among `entries` stands in the way of `event` as it
/// is now; the stored reservation is then confirmed with
/// `Reservation::approved`, in one step of the store. Where one stands in the
/// way the answer is `Ok(false)`, and nothing is written.
pub fn approve(event: Option<&Reservation>, entries: &Vec<(u64, Reservation)>, usr: &AuthToken) -> (
    outcome: Result<bool, BookingError>)
    ensures
        outcome == approve_outcome(
            event.deep_view(),
            usr@,
            spec_conflict_with(entries.deep_view(), event.deep_view()),
        ),
{
    if !matches!(usr.required, Role::Approver) {
        return Err(BookingError::Forbidden);
    }
    match event {
        None => Err(BookingError::NotFound),
        Some(e) => Ok(!has_conflict(entries, e.begin_time, e.end_time, e.rooms)),
    }
}

/// What looking a reservation up comes to.
pub open spec fn get_outcome(event: Option<ReservationView>, usr: AuthTokenView) -> Result<
    ReservationView,
    BookingError,
> {
    if usr.required != Role::Noob {
        Err(BookingError::Forbidden)
    } else {
        match event {
            None => Err(BookingError::NotFound),
            Some(e) => Ok(e),
        }
    }
}

/// Hands out the reservation `event`, which is what the store holds under
/// the number in question, to a caller whose token was issued for
/// `Role::Noob`.
pub fn get(event: Option<Reservation>, usr: &AuthToken) -> (outcome: Result<
    Reservation,
    BookingError,
>)
    ensures
        outcome_view(outcome) == get_outcome(event.deep_view(), usr@),
{
    if !matches!(usr.required, Role::Noob) {
        return Err(BookingError::Forbidden);
    }
    match event {
        None => Err(BookingError::NotFound),
        Some(e) => Ok(e),
    }
}

/// Whether a reservation is kept by the filter: it begins within
/// `begin..end`, the ends included, and its room mask is `rooms` exactly.
pub open spec fn in_range(
    reservation: ReservationView,
    rooms: u8,
    begin: Timestamp,
    end: Timestamp,
) -> bool {
    begin.spec_le(reservation.begin_time) && reservation.begin_time.spec_le(end)
        && reservation.rooms == rooms
}

/// The listed reservations that the filter keeps, in their order.
pub open spec fn spec_filter_by_date(
    entries: Seq<(u64, ReservationView)>,
    rooms: u8,
    begin: Timestamp,
    end: Timestamp,
) -> Seq<(u64, ReservationView)> {
    entries.filter(|e: (u64, ReservationView)| in_range(e.1, rooms, begin, end))
}

/// The listed reservations that begin within `begin..end`, the ends
/// included, and whose room mask is `rooms` exactly, in their order.
pub fn filter_by_date(
    rooms: u8,
    begin: Timestamp,
    end: Timestamp,
    entries: &Vec<(u64, Reservation)>,
) -> (kept: Vec<(u64, Reservation)>)
    ensures
        kept.deep_view() == spec_filter_by_date(entries.deep_view(), rooms, begin, end),
{
    let ghost listing = entries.deep_view();
    let ghost keep = |e: (u64, ReservationView)| in_range(e.1, rooms, begin, end);
    let mut kept: Vec<(u64, Reservation)> = Vec::new();
    let mut i: usize = 0;
    proof {
        assert(listing.take(0) =~= Seq::empty());
        assert(kept.deep_view() =~= listing.take(0).filter(keep));
    }
    while i < entries.len()
        invariant
            i <= entries@.len(),
            listing == entries.deep_view(),
            keep == |e: (u64, ReservationView)| in_range(e.1, rooms, begin, end),
            kept.deep_view() == listing.take(i as int).filter(keep),
        decreases entries@.len() - i,
    {
        let entry = &entries[i];
        let ghost before = kept.deep_view();
        proof {
            assert(listing.take(i + 1).drop_last() =~= listing.take(i as int));
            assert(listing.take(i + 1).last() == listing[i as int]);
            reveal(Seq::filter);
        }
        if begin.le(entry.1.begin_time) && entry.1.begin_time.le(end) && entry.1.rooms == rooms {
            kept.push((entry.0, entry.1.clone()));
            proof {
                assert(kept.deep_view() =~= before.push(listing[i as int]));
            }
        }
        i += 1;
    }
    proof {
        assert(listing.take(i as int) =~= listing);
    }
    kept
}

/// The instant that an RFC 3339 timestamp names, as seconds since the Unix
/// epoch and nanoseconds past the second: `chrono::DateTime::parse_from_rfc3339`
/// applied to the text, with `None` where it reports an error.
pub uninterp spec fn rfc3339_instant(text: Seq<char>) -> Option<(i64, u32)>;

#[verifier::external_type_specification]
#[verifier::external_body]
pub struct ExParseError(chrono::ParseError);

/// Calls `chrono::DateTime::parse_from_rfc3339` and takes the instant in UTC
/// that the parsed value stands for. The contract names the outcome: the call
/// succeeds where `rfc3339_instant` gives an instant, and then returns that
/// instant, and fails where it gives none.
#[verifier::external_body]
fn parse_rfc3339(text: &str) -> (parsed: Result<Timestamp, chrono::ParseError>)
    ensures
        match parsed {
            Ok(t) => rfc3339_instant(text@) == Some((t.secs, t.nanos)),
            Err(_) => rfc3339_instant(text@) is None,
        },
{
    let parsed = chrono::DateTime::parse_from_rfc3339(text)?;
    let utc = chrono::DateTime::<chrono::Utc>::from(parsed);
    Ok(Timestamp { secs: utc.timestamp(), nanos: utc.timestamp_subsec_nanos() })
}

/// What filtering by date comes to, given the instants that the two bounds
/// name: the kept reservations, or the reason why the request is refused.
pub open spec fn date_filter_outcome(
    rooms: u8,
    begin: Option<(i64, u32)>,
    end: Option<(i64, u32)>,
    entries: Seq<(u64, ReservationView)>,
    usr: AuthTokenView,
) -> Result<Seq<(u64, ReservationView)>, BookingError> {
    if usr.required != Role::Noob {
        Err(BookingError::Forbidden)
    } else {
        match (begin, end) {
            (Some(b), Some(e)) => Ok(
                spec_filter_by_date(
                    entries,
                    rooms,
                    Timestamp { secs: b.0, nanos: b.1 },
                    Timestamp { secs: e.0, nanos: e.1 },
                ),
            ),
            _ => Err(BookingError::BadTimestamp),
        }
    }
}

/// Filters the listed reservations by date and rooms. The bounds are RFC 3339
/// timestamps; where one of them is not, the request is refused. Kept are the
/// reservations that begin within the bounds, the ends included, and whose
/// room mask is `rooms` exactly. The caller's token must have been issued for
/// `Role::Noob`.
pub fn date_filter(
    rooms: u8,
    begin_time: &str,
    end_time: &str,
    entries: &Vec<(u64, Reservation)>,
    usr: &AuthToken,
) -> (outcome: Result<Vec<(u64, Reservation)>, BookingError>)
    ensures
        match outcome {
            Ok(kept) => date_filter_outcome(
                rooms,
                rfc3339_instant(begin_time@),
                rfc3339_instant(end_time@),
                entries.deep_view(),
                usr@,
            ) == Ok::<Seq<(u64, ReservationView)>, BookingError>(kept.deep_view()),
            Err(reason) => date_filter_outcome(
                rooms,
                rfc3339_instant(begin_time@),
                rfc3339_instant(end_time@),
                entries.deep_view(),
                usr@,
            ) == Err::<Seq<(u64, ReservationView)>, BookingError>(reason),
        },
{
    if !matches!(usr.required, Role::Noob) {
        return Err(BookingError::Forbidden);
    }
    let begin = match parse_rfc3339(begin_time) {
        Ok(t) => t,
        Err(_) => {
            return Err(BookingError::BadTimestamp);
        },
    };
    let end = match parse_rfc3339(end_time) {
        Ok(t) => t,
        Err(_) => {
            return Err(BookingError::BadTimestamp);
        },
    };
    Ok(filter_by_date(rooms, begin, end, entries))
}

/// An operation on the store of reservations, with the caller's token.
pub enum Request {
    /// Create a reservation under the number `id`, which the store gave out.
    Post { id: u64, input: NewReservationView, usr: AuthTokenView },
    /// Edit the reservation under `id`.
    Patch { id: u64, edit: UpdateReservationView, usr: AuthTokenView },
    /// Delete the reservation under `id`.
    Delete { id: u64, usr: AuthTokenView },
    /// Confirm the reservation under `id`.
    Approve { id: u64, usr: AuthTokenView },
}

/// What the store holds after a request: what the operation decides is
/// written, and a refused request changes nothing.
pub open spec fn step(
    store: Map<u64, ReservationView>,
    request: Request,
) -> Map<u64, ReservationView> {
    match request {
        Request::Post { id, input, usr } => {
            let conflict = store_has_conflict(
                store,
                input.begin_time,
                input.end_time,
                input.rooms,
            );
            match post_outcome(input, usr, conflict) {
                Ok(record) => inserted(store, id, record),
                Err(_) => store,
            }
        },
        Request::Patch { id, edit, usr } => {
            match patch_outcome(stored(store, id), usr) {
                Ok(_) => replaced(store, id, edit.applied(stored(store, id))),
                Err(_) => store,
            }
        },
        Request::Delete { id, usr } => {
            match delete_outcome(stored(store, id), usr) {
                Ok(_) => deleted(store, id),
                Err(_) => store,
            }
        },
        Request::Approve { id, usr } => {
            let conflict = match stored(store, id) {
                Some(e) => store_has_conflict(store, e.begin_time, e.end_time, e.rooms),
                None => false,
            };
            match approve_outcome(stored(store, id), usr, conflict) {
                Ok(true) => replaced(store, id, Reservation::spec_approved(stored(store, id))),
                _ => store,
            }
        },
    }
}

/// What the store holds after a sequence of requests, the first one first.
pub open spec fn run(
    store: Map<u64, ReservationView>,
    requests: Seq<Request>,
) -> Map<u64, ReservationView>
    decreases requests.len(),
{
    if requests.len() == 0 {
        store
    } else {
        step(run(store, requests.drop_last()), requests.last())
    }
}

/// Whether two reservations are both confirmed for time ranges that meet and
/// rooms that clash.
pub open spec fn double_booked(a: ReservationView, b: ReservationView) -> bool {
    a.approved && b.approved && rooms_clash(a.rooms, b.rooms) && ranges_meet(
        a.begin_time,
        a.end_time,
        b.begin_time,
        b.end_time,
    )
}

/// Whether no two reservations in the store are double booked.
pub open spec fn no_double_booking(store: Map<u64, ReservationView>) -> bool {
    forall|a: u64, b: u64|
        #![trigger store.dom().contains(a), store.dom().contains(b)]
        store.dom().contains(a) && store.dom().contains(b) && a != b ==> !double_booked(
            store[a],
            store[b],
        )
}

/// Whether some instant lies in the time ranges of both reservations, each
/// taken from its begin up to but without its end.
pub open spec fn share_instant(a: ReservationView, b: ReservationView) -> bool {
    exists|t: Timestamp|
        a.begin_time.spec_le(t) && #[trigger] t.spec_lt(a.end_time) && b.begin_time.spec_le(t)
            && t.spec_lt(b.end_time)
}

/// Two reservations that share an instant have time ranges that meet.
pub proof fn lemma_shared_instant_meets(a: ReservationView, b: ReservationView)
    requires
        share_instant(a, b),
    ensures
        ranges_meet(a.begin_time, a.end_time, b.begin_time, b.end_time),
{
    let t = choose|t: Timestamp|
        a.begin_time.spec_le(t) && #[trigger] t.spec_lt(a.end_time) && b.begin_time.spec_le(t)
            && t.spec_lt(b.end_time);
}

/// A reservation that was created for a caller stands in the store under its
/// number, with the caller as author and not approved, whenever no confirmed
/// reservation stood in its way.
pub proof fn lemma_post_records(
    store: Map<u64, ReservationView>,
    id: u64,
    input: NewReservationView,
    usr: AuthTokenView,
)
    requires
        usr.required == Role::Noob,
        !store_has_conflict(store, input.begin_time, input.end_time, input.rooms),
    ensures
        ({
            let after = step(store, Request::Post { id, input, usr });
            &&& after.dom().contains(id)
            &&& after[id] == input.recorded(usr.user.email)
            &&& !after[id].approved
            &&& after[id].author == usr.user.email
        }),
{
}

/// An edit by the author leaves the reservation not approved, whatever the
/// edit holds, and changes no other reservation.
pub proof fn lemma_patch_withdraws_approval(
    store: Map<u64, ReservationView>,
    id: u64,
    edit: UpdateReservationView,
    usr: AuthTokenView,
)
    requires
        patch_outcome(stored(store, id), usr) is Ok,
    ensures
        ({
            let after = step(store, Request::Patch { id, edit, usr });
            &&& after.dom() == store.dom()
            &&& after[id] == edit.edited(store[id])
            &&& !after[id].approved
            &&& forall|other: u64| other != id && store.dom().contains(other) ==> after[other]
                == store[other]
        }),
{
    let after = step(store, Request::Patch { id, edit, usr });
    assert(after.dom() =~= store.dom());
}

/// A request that is refused changes nothing.
pub proof fn lemma_refused_changes_nothing(store: Map<u64, ReservationView>, request: Request)
    ensures
        match request {
            Request::Post { id, input, usr } => post_outcome(
                input,
                usr,
                store_has_conflict(store, input.begin_time, input.end_time, input.rooms),
            ) is Err ==> step(store, request) == store,
            Request::Patch { id, edit, usr } => patch_outcome(stored(store, id), usr) is Err
                ==> step(store, request) == store,
            Request::Delete { id, usr } => delete_outcome(stored(store, id), usr) is Err ==> step(
                store,
                request,
            ) == store,
            Request::Approve { id, usr } => approve_outcome(stored(store, id), usr, false) is Err
                ==> step(store, request) == store,
        },
{
}

/// No request makes a double booking.
pub proof fn lemma_step_keeps_no_double_booking(
    store: Map<u64, ReservationView>,
    request: Request,
)
    requires
        no_double_booking(store),
    ensures
        no_double_booking(step(store, request)),
{
    let after = step(store, request);
    assert forall|a: u64, b: u64|
        #![trigger after.dom().contains(a), after.dom().contains(b)]
        after.dom().contains(a) && after.dom().contains(b) && a != b implies !double_booked(
        after[a],
        after[b],
    ) by {
        if double_booked(after[a], after[b]) {
            match request {
                Request::Post { id, input, usr } => {
                    assert(store.dom().contains(a) && store.dom().contains(b));
                },
                Request::Patch { id, edit, usr } => {
                    assert(store.dom().contains(a) && store.dom().contains(b));
                },
                Request::Delete { id, usr } => {
                    assert(store.dom().contains(a) && store.dom().contains(b));
                },
                Request::Approve { id, usr } => {
                    assert(store.dom().contains(a) && store.dom().contains(b));
                    if after != store {
                        let e = store[id];
                        assert(!store_has_conflict(store, e.begin_time, e.end_time, e.rooms));
                        if a == id {
                            assert(store.dom().contains(b) && blocks(
                                store[b],
                                e.begin_time,
                                e.end_time,
                                e.rooms,
                            ));
                        } else if b == id {
                            assert(store.dom().contains(a) && blocks(
                                store[a],
                                e.begin_time,
                                e.end_time,
                                e.rooms,
                            ));
                        }
                    }
                },
            }
        }
    }
}

/// What `post` decides from a listing of the store is what `step` writes.
pub proof fn lemma_post_follows_listing(
    store: Map<u64, ReservationView>,
    entries: Seq<(u64, ReservationView)>,
    id: u64,
    input: NewReservationView,
    usr: AuthTokenView,
)
    requires
        lists(entries, store),
    ensures
        step(store, Request::Post { id, input, usr }) == match post_outcome(
            input,
            usr,
            spec_has_conflict(entries, input.begin_time, input.end_time, input.rooms),
        ) {
            Ok(record) => inserted(store, id, record),
            Err(_) => store,
        },
{
    lemma_listing_conflict(entries, store, input.begin_time, input.end_time, input.rooms);
}

/// What `approve` decides from a listing of the store is what `step` writes.
pub proof fn lemma_approve_follows_listing(
    store: Map<u64, ReservationView>,
    entries: Seq<(u64, ReservationView)>,
    id: u64,
    usr: AuthTokenView,
)
    requires
        lists(entries, store),
    ensures
        step(store, Request::Approve { id, usr }) == match approve_outcome(
            stored(store, id),
            usr,
            spec_conflict_with(entries, stored(store, id)),
        ) {
            Ok(true) => replaced(store, id, Reservation::spec_approved(stored(store, id))),
            _ => store,
        },
{
    match stored(store, id) {
        Some(e) => {
            lemma_listing_conflict(entries, store, e.begin_time, e.end_time, e.rooms);
        },
        None => {},
    }
}

/// After any sequence of requests on a store without double bookings, the
/// store is without double bookings.
pub proof fn lemma_run_keeps_no_double_booking(
    store: Map<u64, ReservationView>,
    requests: Seq<Request>,
)
    requires
        no_double_booking(store),
    ensures
        no_double_booking(run(store, requests)),
    decreases requests.len(),
{
    if requests.len() > 0 {
        lemma_run_keeps_no_double_booking(store, requests.drop_last());
        lemma_step_keeps_no_double_booking(run(store, requests.drop_last()), requests.last());
    }
}

/// Whatever requests were made on a store that began empty, no two confirmed
/// reservations whose rooms clash share an instant.
pub proof fn lemma_never_double_booked(requests: Seq<Request>, a: u64, b: u64)
    ensures
        ({
            let store = run(Map::empty(), requests);
            store.dom().contains(a) && store.dom().contains(b) && a != b && store[a].approved
                && store[b].approved && rooms_clash(store[a].rooms, store[b].rooms)
                ==> !share_instant(store[a], store[b])
        }),
{
    let store = run(Map::empty(), requests);
    lemma_run_keeps_no_double_booking(Map::empty(), requests);
    if store.dom().contains(a) && store.dom().contains(b) && a != b && share_instant(
        store[a],
        store[b],
    ) {
        lemma_shared_instant_meets(store[a], store[b]);
    }
}

} // verus!
