//! An in-memory stat store keyed by user id, and the dispatcher run against it.
use vstd::prelude::*;
use std::collections::HashMap;
use crate::dispatch::{Decision, DecisionModel, decide, dispatch, finish, notification_user};
use crate::protocol::{
    Notification, Request, Response, ResponseModel, UserId, is_read_only, request_user,
};
use crate::record::{MiuchizDBCharacter, fresh_record};

verus! {

broadcast use vstd::std_specs::hash::group_hash_axioms;

/// Character records by user id, kept in memory.
pub struct MemoryStore {
    records: HashMap<UserId, MiuchizDBCharacter>,
}

impl View for MemoryStore {
    type V = Map<UserId, MiuchizDBCharacter>;

    closed spec fn view(&self) -> Map<UserId, MiuchizDBCharacter> {
        self.records@
    }
}

/// The records after making sure that `id` has one.
pub open spec fn ensured(m: Map<UserId, MiuchizDBCharacter>, id: UserId) -> Map<
    UserId,
    MiuchizDBCharacter,
> {
    if m.contains_key(id) {
        m
    } else {
        m.insert(id, fresh_record(id))
    }
}

/// The response, the notification and the new records when `req` is handled
/// against `m` by a store that never fails.
pub open spec fn process(m: Map<UserId, MiuchizDBCharacter>, req: Request) -> (
    ResponseModel,
    Option<Notification>,
    Map<UserId, MiuchizDBCharacter>,
) {
    let id = request_user(req);
    let m1 = ensured(m, id);
    match decide(req, m1[id]) {
        DecisionModel::Reply(r) => (r, None, m1),
        DecisionModel::Write(rec, n) => (ResponseModel::Success, Some(n), m1.insert(id, rec)),
    }
}

/// A user's balance; a user without a record has none.
pub open spec fn balance(m: Map<UserId, MiuchizDBCharacter>, id: UserId) -> int {
    if m.contains_key(id) {
        m[id].creditz as int
    } else {
        0
    }
}

/// The records after handling `reqs` one after another.
pub open spec fn run(m: Map<UserId, MiuchizDBCharacter>, reqs: Seq<Request>) -> Map<
    UserId,
    MiuchizDBCharacter,
>
    decreases reqs.len(),
{
    if reqs.len() == 0 {
        m
    } else {
        run(process(m, reqs[0]).2, reqs.drop_first())
    }
}

/// The change a credit request asks for: `+a` to add, `-a` to subtract, else zero.
pub open spec fn credit_delta(req: Request) -> int {
    match req {
        Request::AddCreditz(_, a) => a as int,
        Request::SubtractCreditz(_, a) => -(a as int),
        _ => 0,
    }
}

/// The sum of the changes of those of `reqs` that were answered `Success` when
/// handled one after another from `m`.
pub open spec fn applied_sum(m: Map<UserId, MiuchizDBCharacter>, reqs: Seq<Request>) -> int
    decreases reqs.len(),
{
    if reqs.len() == 0 {
        0
    } else {
        let p = process(m, reqs[0]);
        (if p.0 == ResponseModel::Success {
            credit_delta(reqs[0])
        } else {
            0
        }) + applied_sum(p.2, reqs.drop_first())
    }
}

/// Whether `req` adds to or subtracts from the balance of `id`.
pub open spec fn is_credit_change_of(req: Request, id: UserId) -> bool {
    match req {
        Request::AddCreditz(u, _) => u == id,
        Request::SubtractCreditz(u, _) => u == id,
        _ => false,
    }
}

/// Additions and subtractions on one user, handled one at a time, lose no
/// update: the final balance is the first plus the sum of the changes that were
/// answered `Success`.
pub proof fn lemma_no_lost_updates(m: Map<UserId, MiuchizDBCharacter>, id: UserId, reqs: Seq<Request>)
    requires
        forall|i: int| 0 <= i < reqs.len() ==> is_credit_change_of(#[trigger] reqs[i], id),
    ensures
        balance(run(m, reqs), id) == balance(m, id) + applied_sum(m, reqs),
    decreases reqs.len(),
{
    if reqs.len() > 0 {
        let rest = reqs.drop_first();
        assert forall|i: int| 0 <= i < rest.len() implies is_credit_change_of(#[trigger] rest[i], id) by {
            assert(rest[i] == reqs[i + 1]);
        }
        assert(is_credit_change_of(reqs[0], id));
        lemma_no_lost_updates(process(m, reqs[0]).2, id, rest);
    }
}

/// Handling a request answers it exactly once and touches only the record of
/// its user: every other user keeps what it had. A read creates the record if
/// absent and changes nothing else, and never notifies; a notification comes
/// exactly with `Success` and names the request's user.
pub proof fn lemma_process_one_user(m: Map<UserId, MiuchizDBCharacter>, req: Request)
    ensures
        ({
            let (r, n, m2) = process(m, req);
            let id = request_user(req);
            &&& m2.contains_key(id)
            &&& forall|k: UserId| k != id ==> (#[trigger] m2.contains_key(k) == m.contains_key(k)
                && (m.contains_key(k) ==> m2[k] == m[k]))
            &&& is_read_only(req) ==> m2 == ensured(m, id) && n.is_none()
            &&& n.is_some() <==> r == ResponseModel::Success
            &&& n.is_some() ==> notification_user(n.unwrap()) == id
        }),
{
}

impl MemoryStore {
    /// An empty store.
    pub fn new() -> (r: MemoryStore)
        ensures
            r@ == Map::<UserId, MiuchizDBCharacter>::empty(),
    {
        MemoryStore { records: HashMap::new() }
    }

    /// Creates a zero-valued record for `id` unless it has one.
    pub fn ensure_exists(&mut self, id: UserId)
        ensures
            final(self)@ == ensured(old(self)@, id),
    {
        if !self.records.contains_key(&id) {
            self.records.insert(id, MiuchizDBCharacter::fresh(id));
        }
    }

    /// The record of `id`, if it has one.
    pub fn get(&self, id: UserId) -> (r: Option<MiuchizDBCharacter>)
        ensures
            r == if self@.contains_key(id) { Some(self@[id]) } else { None::<MiuchizDBCharacter> },
    {
        match self.records.get(&id) {
            Some(rec) => Some(*rec),
            None => None,
        }
    }

    /// Replaces the whole record of `id`.
    pub fn put(&mut self, id: UserId, rec: MiuchizDBCharacter)
        ensures
            final(self)@ == old(self)@.insert(id, rec),
    {
        self.records.insert(id, rec);
    }

    /// Handles one request: creates the user's record if absent, answers it, and
    /// writes back what a mutation changed. Exactly one response comes back, with
    /// a notification only for a mutation that was applied.
    pub fn process_request(&mut self, request: &Request) -> (r: (Response, Option<Notification>))
        ensures
            (r.0@, r.1, final(self)@) == process(old(self)@, *request),
    {
        let id = request.user_id();
        self.ensure_exists(id);
        let read = self.get(id);
        let decision = dispatch(request, read);
        let stored = match &decision {
            Decision::Reply(_) => false,
            Decision::Write(rec, _) => {
                self.put(id, *rec);
                true
            },
        };
        finish(decision, stored)
    }
}

} // verus!
