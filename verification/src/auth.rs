//! Who a caller is, and what the caller's role lets them do.
//!
//! A caller presents an identity claim in the `Authorization` header: a
//! scheme, a space, and the base64 form of a structure that carries a name
//! and an email address. The claim is not signed. Resolving it finds the
//! account with that email address, or makes one with the lowest role, and
//! then holds the account's role against the role that the operation requires.

pub mod roles;

use crate::auth::roles::{authorized, is_authorized, Role};
use crate::db::lists;
use crate::models::{User, UserView};
use crate::text::str_eq;
use vstd::prelude::*;
use vstd::slice::slice_subrange;
use vstd::string::StringSliceAdditionalSpecFns;

verus! {

/// The byte that separates the parts of the `Authorization` header.
pub const SPACE: u8 = 0x20;

/// Why a request was turned away before it reached the operation.
#[derive(Clone, Copy, Debug, PartialEq, Eq, Structural)]
pub enum AuthError {
    /// The store of accounts could not be opened.
    StoreUnavailable,
    /// The header is missing or holds no second part.
    BadHeader,
    /// The claim is not base64.
    BadEncoding,
    /// The decoded claim is not a structure with a name and an email address.
    BadStructure,
    /// A new account could not be stored.
    InsertFailed,
    /// The account's role does not satisfy the required role.
    Forbidden,
}

impl AuthError {
    /// The HTTP status that answers a request turned away for this reason.
    pub open spec fn spec_status(self) -> u16 {
        match self {
            AuthError::StoreUnavailable => 500,
            AuthError::BadHeader => 400,
            AuthError::BadEncoding => 422,
            AuthError::BadStructure => 422,
            AuthError::InsertFailed => 500,
            AuthError::Forbidden => 403,
        }
    }

    /// The HTTP status that answers a request turned away for this reason.
    pub fn status(&self) -> (code: u16)
        ensures
            code == self.spec_status(),
    {
        match self {
            AuthError::StoreUnavailable => 500,
            AuthError::BadHeader => 400,
            AuthError::BadEncoding => 422,
            AuthError::BadStructure => 422,
            AuthError::InsertFailed => 500,
            AuthError::Forbidden => 403,
        }
    }

    /// The words that go with the status.
    pub open spec fn spec_message(self) -> Seq<char> {
        match self {
            AuthError::StoreUnavailable => "failed to connect to db"@,
            AuthError::BadHeader => "invalid authorization header"@,
            AuthError::BadEncoding => "authtoken is not a correct base64 string"@,
            AuthError::BadStructure => "can't parse JSON into struct"@,
            AuthError::InsertFailed => "failed to insert user into DB"@,
            AuthError::Forbidden => "you don't have the required role"@,
        }
    }

    /// The words that go with the status.
    pub fn message(&self) -> (words: &'static str)
        ensures
            words@ == self.spec_message(),
    {
        match self {
            AuthError::StoreUnavailable => "failed to connect to db",
            AuthError::BadHeader => "invalid authorization header",
            AuthError::BadEncoding => "authtoken is not a correct base64 string",
            AuthError::BadStructure => "can't parse JSON into struct",
            AuthError::InsertFailed => "failed to insert user into DB",
            AuthError::Forbidden => "you don't have the required role",
        }
    }
}

/// An identity claim as it is received.
#[derive(Debug, PartialEq, Eq)]
pub struct AuthTokenRaw {
    /// The name of the caller.
    pub name: String,
    /// The email address of the caller.
    pub email: String,
}

/// What an `AuthTokenRaw` holds.
#[verifier::ext_equal]
pub struct AuthTokenRawView {
    pub name: Seq<char>,
    pub email: Seq<char>,
}

impl AuthTokenRawView {
    /// The account that is made for a caller who has none yet: the claimed
    /// name and email address, and the root role.
    pub open spec fn into_user(self) -> UserView {
        UserView { name: self.name, email: self.email, role: Role::Noob.spec_name() }
    }
}

impl View for AuthTokenRaw {
    type V = AuthTokenRawView;

    open spec fn view(&self) -> AuthTokenRawView {
        AuthTokenRawView { name: self.name@, email: self.email@ }
    }
}

impl Clone for AuthTokenRaw {
    fn clone(&self) -> (copy: AuthTokenRaw)
        ensures
            copy@ == self@,
    {
        AuthTokenRaw { name: self.name.clone(), email: self.email.clone() }
    }
}

impl AuthTokenRaw {
    /// The account that is made for a caller who has none yet: the claimed
    /// name and email address, and the root role.
    pub fn into_user(self) -> (user: User)
        ensures
            user@ == self@.into_user(),
    {
        User { name: self.name, email: self.email, role: Role::Noob.name().to_owned() }
    }
}

/// An identity that has been resolved and found to satisfy a required role.
#[derive(Debug, PartialEq, Eq)]
pub struct AuthToken {
    /// The account of the caller.
    pub user: User,
    /// The role that was required of the caller.
    pub required: Role,
}

/// What an `AuthToken` holds.
#[verifier::ext_equal]
pub struct AuthTokenView {
    pub user: UserView,
    pub required: Role,
}

impl View for AuthToken {
    type V = AuthTokenView;

    open spec fn view(&self) -> AuthTokenView {
        AuthTokenView { user: self.user@, required: self.required }
    }
}

impl AuthToken {
    /// The token for `user` where `required` was asked for.
    pub fn from_user(user: User, required: Role) -> (token: AuthToken)
        ensures
            token.user == user,
            token.required == required,
    {
        AuthToken { user, required }
    }
}

/// Whether `start..end` bounds the second part of `header`: the bytes between
/// its first space and the next space, or the end where no space follows.
pub open spec fn bounds_token(header: Seq<u8>, start: int, end: int) -> bool {
    &&& 0 < start <= end <= header.len()
    &&& header[start - 1] == SPACE
    &&& forall|k: int| 0 <= k < start - 1 ==> header[k] != SPACE
    &&& forall|k: int| start <= k < end ==> header[k] != SPACE
    &&& end < header.len() ==> header[end] == SPACE
}

/// The second part of `header`, where the parts are separated by single
/// spaces: the claim. A header without a space has none.
pub open spec fn spec_claim_token(header: Seq<u8>) -> Option<Seq<u8>> {
    if exists|start: int, end: int| bounds_token(header, start, end) {
        let (start, end) = choose|start: int, end: int| bounds_token(header, start, end);
        Some(header.subrange(start, end))
    } else {
        None
    }
}

/// At most one pair of positions bounds the second part of a header.
pub proof fn lemma_token_bounds_unique(header: Seq<u8>, s1: int, e1: int, s2: int, e2: int)
    requires
        bounds_token(header, s1, e1),
        bounds_token(header, s2, e2),
    ensures
        s1 == s2,
        e1 == e2,
{
    if s1 < s2 {
        assert(header[s1 - 1] == SPACE);
    }
    if s2 < s1 {
        assert(header[s2 - 1] == SPACE);
    }
    if e1 < e2 {
        assert(header[e1] == SPACE);
    }
    if e2 < e1 {
        assert(header[e2] == SPACE);
    }
}

/// The first position at or after `from` that holds a space, or the length
/// where none does.
fn next_space(bytes: &[u8], from: usize) -> (at: usize)
    requires
        from <= bytes@.len(),
    ensures
        from <= at <= bytes@.len(),
        forall|k: int| from <= k < at ==> bytes@[k] != SPACE,
        at < bytes@.len() ==> bytes@[at as int] == SPACE,
{
    let mut at = from;
    while at < bytes.len() && bytes[at] != SPACE
        invariant
            from <= at <= bytes@.len(),
            forall|k: int| from <= k < at ==> bytes@[k] != SPACE,
        decreases bytes@.len() - at,
    {
        at += 1;
    }
    at
}

/// The second part of `header`, where the parts are separated by single
/// spaces: the claim. A header without a space has none.
pub fn claim_token(header: &[u8]) -> (token: Option<&[u8]>)
    ensures
        token.deep_view() == spec_claim_token(header@),
{
    let first = next_space(header, 0);
    if first >= header.len() {
        assert forall|start: int, end: int| !bounds_token(header@, start, end) by {
            if bounds_token(header@, start, end) {
                assert(header@[start - 1] == SPACE);
            }
        }
        return None;
    }
    let start = first + 1;
    let end = next_space(header, start);
    let token = slice_subrange(header, start, end);
    proof {
        assert(bounds_token(header@, start as int, end as int));
        let (s, e) = choose|s: int, e: int| bounds_token(header@, s, e);
        lemma_token_bounds_unique(header@, start as int, end as int, s, e);
        assert(token@ =~= token.deep_view());
    }
    Some(token)
}

/// What base64 text decodes to: `base64::decode` applied to the text, with
/// `None` where it reports an error.
pub uninterp spec fn base64_decoded(input: Seq<u8>) -> Option<Seq<u8>>;

#[verifier::external_type_specification]
#[verifier::external_body]
pub struct ExDecodeError(base64::DecodeError);

/// Calls `base64::decode`, which decodes the standard alphabet with padding.
/// The contract names the outcome: the call succeeds where `base64_decoded`
/// gives bytes, and then returns those bytes, and fails where it gives none.
#[verifier::external_body]
fn decode(input: &[u8]) -> (decoded: Result<Vec<u8>, base64::DecodeError>)
    ensures
        match decoded {
            Ok(bytes) => base64_decoded(input@) == Some(bytes@),
            Err(_) => base64_decoded(input@) is None,
        },
{
    base64::decode(input)
}

/// The text that bytes are read as: `String::from_utf8_lossy` applied to them.
pub uninterp spec fn utf8_lossy(bytes: Seq<u8>) -> Seq<char>;

/// Calls `String::from_utf8_lossy`, which reads bytes as UTF-8 and puts the
/// replacement character where they are not. The contract names the outcome.
#[verifier::external_body]
fn lossy_text(bytes: &[u8]) -> (text: String)
    ensures
        text@ == utf8_lossy(bytes@),
{
    String::from_utf8_lossy(bytes).into_owned()
}

/// The text of the claim that `header` carries, or the reason why it carries
/// none: no second part, or a second part that is not base64.
pub open spec fn spec_claim_text(header: Seq<u8>) -> Result<Seq<char>, AuthError> {
    match spec_claim_token(header) {
        None => Err(AuthError::BadHeader),
        Some(token) => match base64_decoded(token) {
            None => Err(AuthError::BadEncoding),
            Some(body) => Ok(utf8_lossy(body)),
        },
    }
}

/// Reads the claim out of the value of the `Authorization` header: takes the
/// second part of the header, decodes it from base64 and reads the bytes as
/// text. A missing header is passed as the empty string. The text still has
/// to be parsed into a name and an email address.
pub fn claim_text(header: &str) -> (claim: Result<String, AuthError>)
    ensures
        match claim {
            Ok(text) => spec_claim_text(header.spec_bytes()) == Ok::<Seq<char>, AuthError>(text@),
            Err(e) => spec_claim_text(header.spec_bytes()) == Err::<Seq<char>, AuthError>(e),
        },
{
    match claim_token(header.as_bytes()) {
        None => Err(AuthError::BadHeader),
        Some(token) => {
            assert(token@ =~= token.deep_view());
            match decode(token) {
                Err(_) => Err(AuthError::BadEncoding),
                Ok(body) => Ok(lossy_text(body.as_slice())),
            }
        },
    }
}

/// Whether the entry at `at` is the first of `users` whose account has the
/// email address `email`.
pub open spec fn is_first_with_email(
    users: Seq<(Seq<char>, UserView)>,
    email: Seq<char>,
    at: int,
) -> bool {
    &&& 0 <= at < users.len()
    &&& users[at].1.email == email
    &&& forall|k: int| 0 <= k < at ==> users[k].1.email != email
}

/// The first account among `users` with the email address `email`.
pub open spec fn spec_find_user(users: Seq<(Seq<char>, UserView)>, email: Seq<char>) -> Option<
    UserView,
> {
    if exists|at: int| is_first_with_email(users, email, at) {
        Some(users[choose|at: int| is_first_with_email(users, email, at)].1)
    } else {
        None
    }
}

/// Looks through all stored accounts, in the order of the store, for the
/// first with the given email address. The key under which an account is
/// stored plays no part.
pub fn find_user(users: &Vec<(String, User)>, email: &str) -> (found: Option<User>)
    ensures
        found.deep_view() == spec_find_user(users.deep_view(), email@),
{
    let ghost listing = users.deep_view();
    let mut i: usize = 0;
    while i < users.len()
        invariant
            i <= users@.len(),
            listing == users.deep_view(),
            forall|k: int| 0 <= k < i ==> listing[k].1.email != email@,
        decreases users@.len() - i,
    {
        if str_eq(users[i].1.email.as_str(), email) {
            let user = users[i].1.clone();
            proof {
                assert(is_first_with_email(listing, email@, i as int));
                let at = choose|at: int| is_first_with_email(listing, email@, at);
                assert(at == i) by {
                    if at < i {
                        assert(listing[at].1.email != email@);
                    }
                    if i < at {
                        assert(listing[i as int].1.email != email@);
                    }
                }
            }
            return Some(user);
        }
        i += 1;
    }
    proof {
        assert forall|at: int| !is_first_with_email(listing, email@, at) by {}
    }
    None
}

/// The outcome of looking a claim up among the stored accounts.
#[derive(Debug, PartialEq, Eq)]
pub enum Resolution {
    /// The caller has this account.
    Known(User),
    /// The caller has no account. This one has to be stored under its email
    /// address before the caller is let through.
    Provision(User),
}

/// What a `Resolution` holds.
#[verifier::ext_equal]
pub enum ResolutionView {
    Known(UserView),
    Provision(UserView),
}

impl ResolutionView {
    /// The account that the caller goes on with.
    pub open spec fn user(self) -> UserView {
        match self {
            ResolutionView::Known(u) => u,
            ResolutionView::Provision(u) => u,
        }
    }
}

impl View for Resolution {
    type V = ResolutionView;

    open spec fn view(&self) -> ResolutionView {
        match self {
            Resolution::Known(u) => ResolutionView::Known(u@),
            Resolution::Provision(u) => ResolutionView::Provision(u@),
        }
    }
}

impl Resolution {
    /// The account that the caller goes on with.
    pub fn into_user(self) -> (user: User)
        ensures
            user@ == self@.user(),
    {
        match self {
            Resolution::Known(u) => u,
            Resolution::Provision(u) => u,
        }
    }
}

/// The outcome of looking `claim` up among `users`: the first account with
/// the claimed email address, or a new account for the claim.
pub open spec fn spec_resolve(
    claim: AuthTokenRawView,
    users: Seq<(Seq<char>, UserView)>,
) -> ResolutionView {
    match spec_find_user(users, claim.email) {
        Some(u) => ResolutionView::Known(u),
        None => ResolutionView::Provision(claim.into_user()),
    }
}

/// Looks the claim up among all stored accounts. A caller who has no account
/// yet gets one with the claimed name and email address and the root role.
pub fn resolve(claim: AuthTokenRaw, users: &Vec<(String, User)>) -> (outcome: Resolution)
    ensures
        outcome@ == spec_resolve(claim@, users.deep_view()),
{
    match find_user(users, claim.email.as_str()) {
        Some(u) => Resolution::Known(u),
        None => Resolution::Provision(claim.into_user()),
    }
}

/// Holds the role of `user` against the required role.
pub fn authorize(user: User, required: Role) -> (outcome: Result<AuthToken, AuthError>)
    ensures
        authorized(user.role@, required) ==> (outcome matches Ok(token) && token.user == user
            && token.required == required),
        !authorized(user.role@, required) ==> outcome == Err::<AuthToken, AuthError>(
            AuthError::Forbidden,
        ),
{
    if is_authorized(user.role.as_str(), required) {
        Ok(AuthToken::from_user(user, required))
    } else {
        Err(AuthError::Forbidden)
    }
}

/// What the store of accounts holds once `outcome` has been acted on: a new
/// account stands under its email address, and nothing else has changed.
pub open spec fn store_after(
    store: Map<Seq<char>, UserView>,
    outcome: ResolutionView,
) -> Map<Seq<char>, UserView> {
    match outcome {
        ResolutionView::Known(_) => store,
        ResolutionView::Provision(u) => store.insert(u.email, u),
    }
}

/// Where some account among `users` has the email address, one of them is
/// the first.
pub proof fn lemma_first_with_email(users: Seq<(Seq<char>, UserView)>, email: Seq<char>, at: int)
    requires
        0 <= at < users.len(),
        users[at].1.email == email,
    ensures
        exists|first: int| is_first_with_email(users, email, first),
    decreases at,
{
    if exists|k: int| 0 <= k < at && users[k].1.email == email {
        let k = choose|k: int| 0 <= k < at && users[k].1.email == email;
        lemma_first_with_email(users, email, k);
    } else {
        assert(is_first_with_email(users, email, at));
    }
}

/// Resolving a claim is idempotent: once the outcome of resolving it has been
/// acted on, resolving the same claim again finds the account that the first
/// time gave, and leaves the store as it is. `listing` is the order in which
/// the store hands out what it holds.
pub proof fn lemma_resolve_idempotent(
    claim: AuthTokenRawView,
    store: Map<Seq<char>, UserView>,
    listing: spec_fn(Map<Seq<char>, UserView>) -> Seq<(Seq<char>, UserView)>,
)
    requires
        lists(listing(store), store),
        lists(
            listing(store_after(store, spec_resolve(claim, listing(store)))),
            store_after(store, spec_resolve(claim, listing(store))),
        ),
    ensures
        ({
            let first = spec_resolve(claim, listing(store));
            let after = store_after(store, first);
            let second = spec_resolve(claim, listing(after));
            &&& second == ResolutionView::Known(first.user())
            &&& store_after(after, second) == after
        }),
{
    let before = listing(store);
    let first = spec_resolve(claim, before);
    let after = store_after(store, first);
    let then = listing(after);
    match first {
        ResolutionView::Known(_) => {},
        ResolutionView::Provision(user) => {
            assert(user == claim.into_user());
            assert forall|i: int| 0 <= i < before.len() implies (#[trigger] before[i]).1.email
                != claim.email by {
                if before[i].1.email == claim.email {
                    lemma_first_with_email(before, claim.email, i);
                }
            }
            assert(after.dom().contains(user.email));
            let at = choose|i: int| 0 <= i < then.len() && (#[trigger] then[i]).0 == user.email;
            assert(then[at].1 == user);
            assert forall|k: int| 0 <= k < then.len() && k != at implies (#[trigger] then[k]).1.email
                != claim.email by {
                let key = then[k].0;
                assert(key != user.email) by {
                    if k < at {
                        assert(then[k].0 != then[at].0);
                    } else {
                        assert(then[at].0 != then[k].0);
                    }
                }
                assert(after.dom().contains(key));
                assert(store.dom().contains(key));
                let i = choose|i: int| 0 <= i < before.len() && (#[trigger] before[i]).0 == key;
                assert(before[i].1 == store[key]);
            }
            assert(is_first_with_email(then, claim.email, at));
            let chosen = choose|c: int| is_first_with_email(then, claim.email, c);
            assert(chosen == at);
        },
    }
}

} // verus!
