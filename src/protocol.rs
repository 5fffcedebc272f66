use vstd::prelude::*;

verus! {

/// The key of a character record.
pub type UserId = u32;

/// The largest value a stat bar holds; it stands for 1.0.
pub const STAT_MAX: u32 = 0x7FFF_FFFF;

/// A mood value in fixed point: `0` is empty and `STAT_MAX` is full. Bars are
/// equal and ordered by that value.
#[derive(Debug, Clone, Copy, PartialEq, Eq, Structural, PartialOrd, Ord, Hash)]
pub struct StatBar {
    value_u32: u32,
}

impl StatBar {
    /// The stored fixed-point value.
    pub closed spec fn value(self) -> nat {
        self.value_u32 as nat
    }

    /// The bar that stores `v`.
    pub closed spec fn from_value(v: u32) -> StatBar {
        StatBar { value_u32: v }
    }

    /// Two bars are equal exactly when their values are.
    pub proof fn lemma_value_determines(a: StatBar, b: StatBar)
        ensures
            a == b <==> a.value() == b.value(),
    {
    }

    /// The stored value never exceeds `STAT_MAX`.
    #[verifier::type_invariant]
    pub closed spec fn wf(self) -> bool {
        self.value_u32 <= STAT_MAX
    }

    /// Builds a bar from a fixed-point value; values above `STAT_MAX` are clamped.
    pub fn from_u32(value_u32: u32) -> (r: StatBar)
        ensures
            r.wf(),
            value_u32 <= STAT_MAX ==> r == StatBar::from_value(value_u32),
            r.value() == if value_u32 <= STAT_MAX { value_u32 as nat } else { STAT_MAX as nat },
    {
        if value_u32 <= STAT_MAX {
            StatBar { value_u32 }
        } else {
            StatBar { value_u32: STAT_MAX }
        }
    }

    /// The fixed-point value.
    pub fn to_u32(&self) -> (r: u32)
        ensures
            r as nat == self.value(),
            r <= STAT_MAX,
    {
        proof {
            use_type_invariant(self);
        }
        self.value_u32
    }
}


/// A request sent from a client to the server. Each names exactly one user.
#[derive(Debug, Clone, PartialEq)]
pub enum Request {
    GetCreditz(UserId),
    SetCreditz(UserId, u32),
    AddCreditz(UserId, u32),
    SubtractCreditz(UserId, u32),
    GetHappiness(UserId),
    SetHappiness(UserId, StatBar),
    GetBoredom(UserId),
    SetBoredom(UserId, StatBar),
    GetHunger(UserId),
    SetHunger(UserId, StatBar),
}

/// The user a request is about.
pub open spec fn request_user(r: Request) -> UserId {
    match r {
        Request::GetCreditz(id) => id,
        Request::SetCreditz(id, _) => id,
        Request::AddCreditz(id, _) => id,
        Request::SubtractCreditz(id, _) => id,
        Request::GetHappiness(id) => id,
        Request::SetHappiness(id, _) => id,
        Request::GetBoredom(id) => id,
        Request::SetBoredom(id, _) => id,
        Request::GetHunger(id) => id,
        Request::SetHunger(id, _) => id,
    }
}

/// Whether a request only reads.
pub open spec fn is_read_only(r: Request) -> bool {
    match r {
        Request::GetCreditz(_) | Request::GetHappiness(_) | Request::GetBoredom(_)
        | Request::GetHunger(_) => true,
        _ => false,
    }
}

impl Request {
    /// The user this request is about.
    pub fn user_id(&self) -> (r: UserId)
        ensures
            r == request_user(*self),
    {
        match self {
            Request::GetCreditz(id) => *id,
            Request::SetCreditz(id, _) => *id,
            Request::AddCreditz(id, _) => *id,
            Request::SubtractCreditz(id, _) => *id,
            Request::GetHappiness(id) => *id,
            Request::SetHappiness(id, _) => *id,
            Request::GetBoredom(id) => *id,
            Request::SetBoredom(id, _) => *id,
            Request::GetHunger(id) => *id,
            Request::SetHunger(id, _) => *id,
        }
    }
}

/// A direct response to one request.
#[derive(Debug, Clone, PartialEq)]
pub enum Response {
    Creditz(u32),
    Happiness(StatBar),
    Boredom(StatBar),
    Hunger(StatBar),
    Success,
    Error(String),
}

/// A response with its error text as a sequence of characters.
pub enum ResponseModel {
    Creditz(u32),
    Happiness(StatBar),
    Boredom(StatBar),
    Hunger(StatBar),
    Success,
    Error(Seq<char>),
}

impl View for Response {
    type V = ResponseModel;

    open spec fn view(&self) -> ResponseModel {
        match self {
            Response::Creditz(v) => ResponseModel::Creditz(*v),
            Response::Happiness(v) => ResponseModel::Happiness(*v),
            Response::Boredom(v) => ResponseModel::Boredom(*v),
            Response::Hunger(v) => ResponseModel::Hunger(*v),
            Response::Success => ResponseModel::Success,
            Response::Error(s) => ResponseModel::Error(s@),
        }
    }
}

/// A broadcast telling every client that a user's state changed.
#[derive(Debug, Clone, Copy, PartialEq, Eq, Structural)]
pub enum Notification {
    CreditzChanged { user_id: UserId, new_value: u32 },
    HappinessChanged { user_id: UserId, new_value: StatBar },
    BoredomChanged { user_id: UserId, new_value: StatBar },
    HungerChanged { user_id: UserId, new_value: StatBar },
}

/// Everything the server writes to a connection: a response or a notification.
#[derive(Debug, Clone, PartialEq)]
pub enum ServerMessage {
    Response(Response),
    Notification(Notification),
}

} // verus!
