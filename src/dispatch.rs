//! The request dispatcher: from a request and the user's stored record to the
//! response, the record to write back, and the notification to broadcast.
//!
//! Talking to the store is the caller's part. It fetches the record (after
//! creating it if absent), hands it to [`dispatch`], performs the write that
//! the decision asks for, if any, and hands the write's outcome to [`finish`].
use vstd::prelude::*;
use crate::protocol::{
    Notification, Request, Response, ResponseModel, UserId, is_read_only, request_user,
};
use crate::record::MiuchizDBCharacter;

verus! {

/// The error text for a store that failed to create, read or write a record.
pub open spec fn store_unavailable_text() -> Seq<char> {
    "store unavailable"@
}

/// The error text for a subtraction larger than the balance.
pub open spec fn insufficient_funds_text() -> Seq<char> {
    "Insufficient funds"@
}

/// The error text for an addition past the largest balance.
pub open spec fn creditz_overflow_text() -> Seq<char> {
    "Creditz overflow"@
}

/// What to do with a request once the user's record is known.
#[derive(Debug, Clone, PartialEq)]
pub enum Decision {
    /// Answer at once; nothing is written.
    Reply(Response),
    /// Write the record back; on success answer `Success` and broadcast the notification.
    Write(MiuchizDBCharacter, Notification),
}

/// A decision with its response seen through its view.
pub enum DecisionModel {
    Reply(ResponseModel),
    Write(MiuchizDBCharacter, Notification),
}

impl View for Decision {
    type V = DecisionModel;

    open spec fn view(&self) -> DecisionModel {
        match self {
            Decision::Reply(r) => DecisionModel::Reply(r@),
            Decision::Write(rec, n) => DecisionModel::Write(*rec, *n),
        }
    }
}

/// The decision for `req` on the user's current record `rec`.
pub open spec fn decide(req: Request, rec: MiuchizDBCharacter) -> DecisionModel {
    match req {
        Request::GetCreditz(_) => DecisionModel::Reply(ResponseModel::Creditz(rec.creditz)),
        Request::GetHappiness(_) => DecisionModel::Reply(ResponseModel::Happiness(rec.happiness)),
        Request::GetBoredom(_) => DecisionModel::Reply(ResponseModel::Boredom(rec.boredom)),
        Request::GetHunger(_) => DecisionModel::Reply(ResponseModel::Hunger(rec.hunger)),
        Request::SetCreditz(id, v) => DecisionModel::Write(
            MiuchizDBCharacter { creditz: v, ..rec },
            Notification::CreditzChanged { user_id: id, new_value: v },
        ),
        Request::AddCreditz(id, a) => if rec.creditz + a > u32::MAX {
            DecisionModel::Reply(ResponseModel::Error(creditz_overflow_text()))
        } else {
            DecisionModel::Write(
                MiuchizDBCharacter { creditz: (rec.creditz + a) as u32, ..rec },
                Notification::CreditzChanged { user_id: id, new_value: (rec.creditz + a) as u32 },
            )
        },
        Request::SubtractCreditz(id, a) => if a > rec.creditz {
            DecisionModel::Reply(ResponseModel::Error(insufficient_funds_text()))
        } else {
            DecisionModel::Write(
                MiuchizDBCharacter { creditz: (rec.creditz - a) as u32, ..rec },
                Notification::CreditzChanged { user_id: id, new_value: (rec.creditz - a) as u32 },
            )
        },
        Request::SetHappiness(id, v) => DecisionModel::Write(
            MiuchizDBCharacter { happiness: v, ..rec },
            Notification::HappinessChanged { user_id: id, new_value: v },
        ),
        Request::SetBoredom(id, v) => DecisionModel::Write(
            MiuchizDBCharacter { boredom: v, ..rec },
            Notification::BoredomChanged { user_id: id, new_value: v },
        ),
        Request::SetHunger(id, v) => DecisionModel::Write(
            MiuchizDBCharacter { hunger: v, ..rec },
            Notification::HungerChanged { user_id: id, new_value: v },
        ),
    }
}

/// The decision for `req` given what the store returned: `None` when it failed
/// to create or read the record.
pub open spec fn decide_read(req: Request, read: Option<MiuchizDBCharacter>) -> DecisionModel {
    match read {
        None => DecisionModel::Reply(ResponseModel::Error(store_unavailable_text())),
        Some(rec) => decide(req, rec),
    }
}

/// The response and notification for a decision, given whether its write, if it
/// asked for one, succeeded.
pub open spec fn outcome(d: DecisionModel, stored: bool) -> (ResponseModel, Option<Notification>) {
    match d {
        DecisionModel::Reply(r) => (r, None),
        DecisionModel::Write(_, n) => if stored {
            (ResponseModel::Success, Some(n))
        } else {
            (ResponseModel::Error(store_unavailable_text()), None)
        },
    }
}

/// The user a notification is about.
pub open spec fn notification_user(n: Notification) -> UserId {
    match n {
        Notification::CreditzChanged { user_id, .. } => user_id,
        Notification::HappinessChanged { user_id, .. } => user_id,
        Notification::BoredomChanged { user_id, .. } => user_id,
        Notification::HungerChanged { user_id, .. } => user_id,
    }
}

/// Every request gets exactly one response and at most one notification. A
/// notification comes exactly when the response is `Success`, only for a
/// mutation, and names the request's user; a read never notifies; a store that
/// failed gives an error and no notification.
pub proof fn lemma_one_response(req: Request, read: Option<MiuchizDBCharacter>, stored: bool)
    ensures
        ({
            let (r, n) = outcome(decide_read(req, read), stored);
            &&& n.is_some() <==> r == ResponseModel::Success
            &&& n.is_some() ==> !is_read_only(req) && notification_user(n.unwrap())
                == request_user(req)
            &&& is_read_only(req) ==> n.is_none()
            &&& read.is_none() ==> r == ResponseModel::Error(store_unavailable_text())
                && n.is_none()
        }),
{
}

fn error_response(text: &str) -> (r: Response)
    ensures
        r@ == ResponseModel::Error(text@),
{
    Response::Error(text.to_owned())
}

/// Decides what to do with `request` given the record the store returned for its
/// user, or `None` where the store failed to create or read it.
pub fn dispatch(request: &Request, read: Option<MiuchizDBCharacter>) -> (d: Decision)
    ensures
        d@ == decide_read(*request, read),
{
    let rec = match read {
        None => {
            proof { reveal_strlit("store unavailable"); }
            return Decision::Reply(error_response("store unavailable"));
        },
        Some(rec) => rec,
    };
    match *request {
        Request::GetCreditz(_) => Decision::Reply(Response::Creditz(rec.creditz)),
        Request::GetHappiness(_) => Decision::Reply(Response::Happiness(rec.happiness)),
        Request::GetBoredom(_) => Decision::Reply(Response::Boredom(rec.boredom)),
        Request::GetHunger(_) => Decision::Reply(Response::Hunger(rec.hunger)),
        Request::SetCreditz(id, v) => Decision::Write(
            MiuchizDBCharacter { creditz: v, ..rec },
            Notification::CreditzChanged { user_id: id, new_value: v },
        ),
        Request::AddCreditz(id, a) => match rec.creditz.checked_add(a) {
            None => {
                proof { reveal_strlit("Creditz overflow"); }
                Decision::Reply(error_response("Creditz overflow"))
            },
            Some(n) => Decision::Write(
                MiuchizDBCharacter { creditz: n, ..rec },
                Notification::CreditzChanged { user_id: id, new_value: n },
            ),
        },
        Request::SubtractCreditz(id, a) => if a > rec.creditz {
            proof { reveal_strlit("Insufficient funds"); }
            Decision::Reply(error_response("Insufficient funds"))
        } else {
            let n = rec.creditz - a;
            Decision::Write(
                MiuchizDBCharacter { creditz: n, ..rec },
                Notification::CreditzChanged { user_id: id, new_value: n },
            )
        },
        Request::SetHappiness(id, v) => Decision::Write(
            MiuchizDBCharacter { happiness: v, ..rec },
            Notification::HappinessChanged { user_id: id, new_value: v },
        ),
        Request::SetBoredom(id, v) => Decision::Write(
            MiuchizDBCharacter { boredom: v, ..rec },
            Notification::BoredomChanged { user_id: id, new_value: v },
        ),
        Request::SetHunger(id, v) => Decision::Write(
            MiuchizDBCharacter { hunger: v, ..rec },
            Notification::HungerChanged { user_id: id, new_value: v },
        ),
    }
}

/// The response and notification for `decision`; `stored` tells whether the
/// write it asked for succeeded (it is ignored for a reply).
pub fn finish(decision: Decision, stored: bool) -> (r: (Response, Option<Notification>))
    ensures
        (r.0@, r.1) == outcome(decision@, stored),
{
    match decision {
        Decision::Reply(resp) => (resp, None),
        Decision::Write(_, n) => if stored {
            (Response::Success, Some(n))
        } else {
            proof { reveal_strlit("store unavailable"); }
            (error_response("store unavailable"), None)
        },
    }
}

} // verus!
