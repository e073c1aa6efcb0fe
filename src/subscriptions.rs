use vstd::prelude::*;

use crate::domain::confirmation_token::ConfirmationToken;
use crate::domain::subscriber_email::{is_valid_email, SubscriberEmail, ValidationError};
use crate::domain::subscriber_name::{is_valid_name, SubscriberName};

verus! {

/// Where a subscription stands: it only ever moves from `Pending` to `Confirmed`.
#[derive(Debug, Clone, Copy, PartialEq, Eq, Structural)]
pub enum SubscriptionStatus {
    Pending,
    Confirmed,
}

/// Why an intake request was turned down.
#[derive(Debug, Clone, Copy, PartialEq, Eq, Structural)]
pub enum SubscribeError {
    /// A field is missing or fails validation; the first failing field is named.
    Validation(ValidationError),
    /// A subscription already exists for this email address.
    EmailTaken,
    /// The token is already bound to another subscription.
    TokenTaken,
}

/// What a successful confirmation did.
#[derive(Debug, Clone, Copy, PartialEq, Eq, Structural)]
pub enum ConfirmOutcome {
    /// The subscription moved from `Pending` to `Confirmed` by this call.
    FirstConfirmation,
    /// The subscription was already confirmed; nothing changed.
    AlreadyConfirmed,
}

/// Why a confirmation was turned down.
#[derive(Debug, Clone, Copy, PartialEq, Eq, Structural)]
pub enum ConfirmError {
    TokenNotFound,
}

/// The abstract content of one stored subscription and the token bound to it.
pub struct Record {
    pub email: Seq<char>,
    pub name: Seq<char>,
    pub status: SubscriptionStatus,
    pub created_at: u64,
    pub token: Seq<char>,
}

/// A subscriber's validated identity, state and creation time.
#[derive(Debug)]
pub struct Subscription {
    id: usize,
    email: SubscriberEmail,
    name: SubscriberName,
    status: SubscriptionStatus,
    created_at: u64,
}

impl Subscription {
    pub fn id(&self) -> (r: usize)
        ensures
            r == self.spec_id(),
    {
        self.id
    }

    pub fn email(&self) -> (r: &SubscriberEmail)
        ensures
            r@ == self.spec_email(),
    {
        &self.email
    }

    pub fn name(&self) -> (r: &SubscriberName)
        ensures
            r@ == self.spec_name(),
    {
        &self.name
    }

    pub fn status(&self) -> (r: SubscriptionStatus)
        ensures
            r == self.spec_status(),
    {
        self.status
    }

    pub fn created_at(&self) -> (r: u64)
        ensures
            r == self.spec_created_at(),
    {
        self.created_at
    }

    pub closed spec fn spec_id(&self) -> usize {
        self.id
    }

    pub closed spec fn spec_email(&self) -> Seq<char> {
        self.email@
    }

    pub closed spec fn spec_name(&self) -> Seq<char> {
        self.name@
    }

    pub closed spec fn spec_status(&self) -> SubscriptionStatus {
        self.status
    }

    pub closed spec fn spec_created_at(&self) -> u64 {
        self.created_at
    }
}

/// Binds a token to the subscription it confirms.
#[derive(Debug)]
struct TokenBinding {
    token: ConfirmationToken,
    subscription_id: usize,
}

/// The subscriptions and their token bindings. Each subscription is stored
/// together with exactly one token; tokens and email addresses are unique.
#[derive(Debug)]
pub struct SubscriptionStore {
    subscriptions: Vec<Subscription>,
    bindings: Vec<TokenBinding>,
}

/// The records after confirming with `token`: each bound to it is `Confirmed`,
/// the rest are as they were.
pub open spec fn after_confirm(v: Seq<Record>, token: Seq<char>) -> Seq<Record> {
    Seq::new(
        v.len(),
        |i: int|
            if v[i].token == token {
                Record {
                    email: v[i].email,
                    name: v[i].name,
                    status: SubscriptionStatus::Confirmed,
                    created_at: v[i].created_at,
                    token: v[i].token,
                }
            } else {
                v[i]
            },
    )
}

/// Some record is bound to `token`.
pub open spec fn is_bound(v: Seq<Record>, token: Seq<char>) -> bool {
    exists|i: int| 0 <= i < v.len() && v[i].token == token
}

/// Some pending record is bound to `token`.
pub open spec fn is_pending_bound(v: Seq<Record>, token: Seq<char>) -> bool {
    exists|i: int| 0 <= i < v.len() && v[i].token == token && v[i].status == SubscriptionStatus::Pending
}

/// What confirming with `token` answers on the records `v`.
pub open spec fn confirm_outcome(v: Seq<Record>, token: Seq<char>) -> Result<ConfirmOutcome, ConfirmError> {
    if is_pending_bound(v, token) {
        Ok(ConfirmOutcome::FirstConfirmation)
    } else if is_bound(v, token) {
        Ok(ConfirmOutcome::AlreadyConfirmed)
    } else {
        Err(ConfirmError::TokenNotFound)
    }
}

/// No two records share a token or an email address.
pub open spec fn keys_unique(v: Seq<Record>) -> bool {
    forall|i: int, j: int|
        0 <= i < v.len() && 0 <= j < v.len() && i != j ==> v[i].token != v[j].token
            && v[i].email != v[j].email
}

/// The view of an optional text field.
pub open spec fn field_view(f: Option<&str>) -> Option<Seq<char>> {
    match f {
        Some(s) => Some(s@),
        None => None,
    }
}

/// What subscribing answers on the records `v`: the name is checked first, then
/// the email address, then the uniqueness of the address and of the token;
/// success gives the new subscription's id.
pub open spec fn subscribe_outcome(
    v: Seq<Record>,
    name: Option<Seq<char>>,
    email: Option<Seq<char>>,
    token: Seq<char>,
) -> Result<int, SubscribeError> {
    if name is None || !is_valid_name(name->Some_0) {
        Err(SubscribeError::Validation(ValidationError::InvalidName))
    } else if email is None || !is_valid_email(email->Some_0) {
        Err(SubscribeError::Validation(ValidationError::InvalidEmail))
    } else if exists|i: int| 0 <= i < v.len() && v[i].email == email->Some_0 {
        Err(SubscribeError::EmailTaken)
    } else if is_bound(v, token) {
        Err(SubscribeError::TokenTaken)
    } else {
        Ok(v.len() as int)
    }
}

impl View for SubscriptionStore {
    type V = Seq<Record>;

    closed spec fn view(&self) -> Seq<Record> {
        Seq::new(
            self.subscriptions@.len(),
            |i: int|
                Record {
                    email: self.subscriptions@[i].email@,
                    name: self.subscriptions@[i].name@,
                    status: self.subscriptions@[i].status,
                    created_at: self.subscriptions@[i].created_at,
                    token: self.bindings@[i].token@,
                },
        )
    }
}

impl SubscriptionStore {
    /// The store's internal invariant: subscription `i` has id `i` and is bound
    /// by binding `i`; tokens and addresses are unique.
    pub closed spec fn wf(&self) -> bool {
        &&& self.subscriptions@.len() == self.bindings@.len()
        &&& forall|i: int| 0 <= i < self.subscriptions@.len() ==> self.subscriptions@[i].id == i
        &&& forall|i: int| 0 <= i < self.bindings@.len() ==> self.bindings@[i].subscription_id == i
        &&& keys_unique(self@)
    }

    /// A well-formed store binds each token, and each email address, to one
    /// subscription at most.
    pub proof fn lemma_keys_unique(&self)
        requires
            self.wf(),
        ensures
            keys_unique(self@),
    {
    }

    /// An empty store.
    pub fn new() -> (r: SubscriptionStore)
        ensures
            r.wf(),
            r@ == Seq::<Record>::empty(),
    {
        let r = SubscriptionStore { subscriptions: Vec::new(), bindings: Vec::new() };
        assert(r@ =~= Seq::<Record>::empty());
        r
    }

    /// The number of subscriptions.
    pub fn len(&self) -> (r: usize)
        requires
            self.wf(),
        ensures
            r == self@.len(),
    {
        self.subscriptions.len()
    }

    /// The subscription with id `id`, if there is one.
    pub fn get(&self, id: usize) -> (r: Option<&Subscription>)
        requires
            self.wf(),
        ensures
            r is Some <==> id < self@.len(),
            r is Some ==> {
                let s = r->Some_0;
                &&& s.spec_id() == id
                &&& s.spec_email() == self@[id as int].email
                &&& s.spec_name() == self@[id as int].name
                &&& s.spec_status() == self@[id as int].status
                &&& s.spec_created_at() == self@[id as int].created_at
            },
    {
        if id < self.subscriptions.len() {
            Some(&self.subscriptions[id])
        } else {
            None
        }
    }

    /// The token bound to the subscription with id `id`, if there is one.
    pub fn token_of(&self, id: usize) -> (r: Option<&ConfirmationToken>)
        requires
            self.wf(),
        ensures
            r is Some <==> id < self@.len(),
            r is Some ==> r->Some_0@ == self@[id as int].token,
    {
        if id < self.bindings.len() {
            Some(&self.bindings[id].token)
        } else {
            None
        }
    }

    /// The position of the subscription with address `email`, if any.
    fn find_email(&self, email: &SubscriberEmail) -> (r: Option<usize>)
        requires
            self.wf(),
        ensures
            r is Some ==> r->Some_0 < self@.len() && self@[r->Some_0 as int].email == email@,
            r is None ==> forall|i: int| 0 <= i < self@.len() ==> self@[i].email != email@,
    {
        let mut i: usize = 0;
        while i < self.subscriptions.len()
            invariant
                self.wf(),
                i <= self@.len(),
                forall|j: int| 0 <= j < i ==> self@[j].email != email@,
            decreases self.subscriptions.len() - i,
        {
            if self.subscriptions[i].email.same_address(email) {
                return Some(i);
            }
            i = i + 1;
        }
        None
    }

    /// The position of the subscription bound to `token`, if any.
    fn find_token(&self, token: &str) -> (r: Option<usize>)
        requires
            self.wf(),
        ensures
            r is Some ==> r->Some_0 < self@.len() && self@[r->Some_0 as int].token == token@,
            r is None ==> !is_bound(self@, token@),
    {
        let mut i: usize = 0;
        while i < self.bindings.len()
            invariant
                self.wf(),
                i <= self@.len(),
                forall|j: int| 0 <= j < i ==> self@[j].token != token@,
            decreases self.bindings.len() - i,
        {
            if self.bindings[i].token.matches(token) {
                return Some(i);
            }
            i = i + 1;
        }
        None
    }

    /// Validates the fields and, on success, stores a new pending subscription
    /// together with `token` in one step. On failure nothing is stored.
    pub fn subscribe(
        &mut self,
        name_raw: Option<&str>,
        email_raw: Option<&str>,
        token: ConfirmationToken,
        created_at: u64,
    ) -> (r: Result<usize, SubscribeError>)
        requires
            old(self).wf(),
        ensures
            final(self).wf(),
            match subscribe_outcome(old(self)@, field_view(name_raw), field_view(email_raw), token@) {
                Ok(id) => r == Ok::<usize, SubscribeError>(id as usize),
                Err(e) => r == Err::<usize, SubscribeError>(e),
            },
            r is Ok ==> final(self)@ == old(self)@.push(
                Record {
                    email: email_raw->Some_0@,
                    name: name_raw->Some_0@,
                    status: SubscriptionStatus::Pending,
                    created_at,
                    token: token@,
                },
            ),
            r is Err ==> final(self)@ == old(self)@,
    {
        let name = match name_raw {
            Some(s) => match SubscriberName::parse(s) {
                Ok(n) => n,
                Err(e) => {
                    return Err(SubscribeError::Validation(e));
                },
            },
            None => {
                return Err(SubscribeError::Validation(ValidationError::InvalidName));
            },
        };
        let email = match email_raw {
            Some(s) => match SubscriberEmail::parse(s) {
                Ok(m) => m,
                Err(e) => {
                    return Err(SubscribeError::Validation(e));
                },
            },
            None => {
                return Err(SubscribeError::Validation(ValidationError::InvalidEmail));
            },
        };
        if self.find_email(&email).is_some() {
            return Err(SubscribeError::EmailTaken);
        }
        if self.find_token(token.as_str()).is_some() {
            return Err(SubscribeError::TokenTaken);
        }
        let id = self.subscriptions.len();
        let ghost before = self@;
        self.subscriptions.push(
            Subscription { id, email, name, status: SubscriptionStatus::Pending, created_at },
        );
        self.bindings.push(TokenBinding { token, subscription_id: id });
        let ghost rec = Record {
            email: email_raw->Some_0@,
            name: name_raw->Some_0@,
            status: SubscriptionStatus::Pending,
            created_at,
            token: token@,
        };
        assert(self@ =~= before.push(rec));
        Ok(id)
    }

    /// Confirms the subscription bound to `token_value`, if any, in one step:
    /// it becomes `Confirmed`, and the outcome says whether this call moved it
    /// there. An unknown token changes nothing.
    pub fn confirm_token(&mut self, token_value: &str) -> (r: Result<ConfirmOutcome, ConfirmError>)
        requires
            old(self).wf(),
        ensures
            final(self).wf(),
            r == confirm_outcome(old(self)@, token_value@),
            final(self)@ == after_confirm(old(self)@, token_value@),
    {
        let ghost before = self@;
        match self.find_token(token_value) {
            None => {
                assert(self@ =~= after_confirm(before, token_value@));
                Err(ConfirmError::TokenNotFound)
            },
            Some(i) => {
                let was = self.subscriptions[i].status;
                self.subscriptions[i].status = SubscriptionStatus::Confirmed;
                assert forall|j: int| 0 <= j < before.len() && j != i implies before[j].token
                    != token_value@ by {
                    assert(before[i as int].token == token_value@);
                }
                assert(self@ =~= after_confirm(before, token_value@));
                match was {
                    SubscriptionStatus::Pending => Ok(ConfirmOutcome::FirstConfirmation),
                    SubscriptionStatus::Confirmed => {
                        assert(!is_pending_bound(before, token_value@));
                        Ok(ConfirmOutcome::AlreadyConfirmed)
                    },
                }
            },
        }
    }
}

/// Confirming with the same token a second time changes nothing: the records
/// stay as the first confirmation left them.
pub proof fn lemma_confirm_idempotent(v: Seq<Record>, token: Seq<char>)
    ensures
        after_confirm(after_confirm(v, token), token) == after_confirm(v, token),
{
    assert(after_confirm(after_confirm(v, token), token) =~= after_confirm(v, token));
}

/// Once a bound token has been presented, every subscription it binds is
/// confirmed, and presenting it again succeeds without a first confirmation.
pub proof fn lemma_confirmed_after_confirm(v: Seq<Record>, token: Seq<char>)
    requires
        is_bound(v, token),
    ensures
        confirm_outcome(v, token) is Ok,
        forall|i: int|
            0 <= i < v.len() && v[i].token == token ==> (#[trigger] after_confirm(v, token)[i]).status
                == SubscriptionStatus::Confirmed,
        confirm_outcome(after_confirm(v, token), token) == Ok::<ConfirmOutcome, ConfirmError>(
            ConfirmOutcome::AlreadyConfirmed,
        ),
{
    let w = after_confirm(v, token);
    let i = choose|i: int| 0 <= i < v.len() && v[i].token == token;
    assert(w[i].token == token);
    assert(!is_pending_bound(w, token));
}

/// Two confirmations with the same bound token, applied one after the other
/// as the store serialises them, both succeed, and exactly one of them is the
/// first confirmation when the subscription was pending (none when it was not).
pub proof fn lemma_first_confirmation_fires_once(v: Seq<Record>, token: Seq<char>)
    requires
        is_bound(v, token),
    ensures
        confirm_outcome(v, token) is Ok,
        confirm_outcome(after_confirm(v, token), token) is Ok,
        (confirm_outcome(v, token) == Ok::<ConfirmOutcome, ConfirmError>(
            ConfirmOutcome::FirstConfirmation,
        )) == is_pending_bound(v, token),
        confirm_outcome(after_confirm(v, token), token) != Ok::<ConfirmOutcome, ConfirmError>(
            ConfirmOutcome::FirstConfirmation,
        ),
{
    lemma_confirmed_after_confirm(v, token);
}

/// A token that was never issued confirms nothing and leaves every record as it was.
pub proof fn lemma_unknown_token_changes_nothing(v: Seq<Record>, token: Seq<char>)
    requires
        !is_bound(v, token),
    ensures
        confirm_outcome(v, token) == Err::<ConfirmOutcome, ConfirmError>(ConfirmError::TokenNotFound),
        after_confirm(v, token) == v,
{
    assert(after_confirm(v, token) =~= v);
}

/// Confirmation only ever moves a record from `Pending` to `Confirmed`: no
/// confirmed record becomes pending, and nothing but the status changes.
pub proof fn lemma_status_only_advances(v: Seq<Record>, token: Seq<char>)
    ensures
        after_confirm(v, token).len() == v.len(),
        forall|i: int|
            0 <= i < v.len() ==> {
                let w = #[trigger] after_confirm(v, token)[i];
                &&& v[i].status == SubscriptionStatus::Confirmed ==> w.status
                    == SubscriptionStatus::Confirmed
                &&& w.email == v[i].email
                &&& w.name == v[i].name
                &&& w.created_at == v[i].created_at
                &&& w.token == v[i].token
            },
{
}

/// With unique tokens, confirming with the token of record `i` confirms that
/// record and leaves every other record exactly as it was.
pub proof fn lemma_confirm_touches_only_bound(v: Seq<Record>, token: Seq<char>, i: int)
    requires
        keys_unique(v),
        0 <= i < v.len(),
        v[i].token == token,
    ensures
        confirm_outcome(v, token) is Ok,
        after_confirm(v, token)[i].status == SubscriptionStatus::Confirmed,
        forall|j: int| 0 <= j < v.len() && j != i ==> #[trigger] after_confirm(v, token)[j] == v[j],
{
    lemma_confirmed_after_confirm(v, token);
    assert forall|j: int| 0 <= j < v.len() && j != i implies #[trigger] after_confirm(v, token)[j]
        == v[j] by {
        assert(v[j].token != v[i].token);
    }
}

/// A successful subscription stores a pending record bound to its token, and
/// presenting that token afterwards is its first confirmation: that record
/// becomes confirmed and every earlier record is left as it was.
pub proof fn lemma_subscribe_then_confirm(
    v: Seq<Record>,
    name: Seq<char>,
    email: Seq<char>,
    token: Seq<char>,
    created_at: u64,
)
    requires
        subscribe_outcome(v, Some(name), Some(email), token) is Ok,
    ensures
        ({
            let w = v.push(
                Record { email, name, status: SubscriptionStatus::Pending, created_at, token },
            );
            let id = v.len() as int;
            &&& subscribe_outcome(v, Some(name), Some(email), token) == Ok::<int, SubscribeError>(id)
            &&& confirm_outcome(w, token) == Ok::<ConfirmOutcome, ConfirmError>(
                ConfirmOutcome::FirstConfirmation,
            )
            &&& after_confirm(w, token)[id].status == SubscriptionStatus::Confirmed
            &&& after_confirm(w, token)[id].email == email
            &&& after_confirm(w, token)[id].name == name
            &&& forall|j: int| 0 <= j < v.len() ==> #[trigger] after_confirm(w, token)[j] == v[j]
        }),
{
    let w = v.push(Record { email, name, status: SubscriptionStatus::Pending, created_at, token });
    let id = v.len() as int;
    assert(w[id].token == token && w[id].status == SubscriptionStatus::Pending);
    assert(is_pending_bound(w, token));
    assert forall|j: int| 0 <= j < v.len() implies #[trigger] after_confirm(w, token)[j] == v[j] by {
        assert(w[j] == v[j]);
        assert(!is_bound(v, token));
        if v[j].token == token {
            assert(is_bound(v, token));
        }
    }
}

} // verus!
