use vstd::prelude::*;
use crate::protocol::{StatBar, UserId, STAT_MAX};

verus! {

/// One character: a credit balance and three mood bars.
#[derive(Debug, Clone, Copy, PartialEq, Eq, Structural)]
pub struct MiuchizDBCharacter {
    pub citizen_id: u32,
    pub creditz: u32,
    pub happiness: StatBar,
    pub hunger: StatBar,
    pub boredom: StatBar,
}

/// The stored columns of a character, as plain integers.
#[derive(Debug, Clone, Copy, PartialEq, Eq, Structural)]
pub struct MiuchizStats {
    pub creditz: u32,
    pub happiness: u32,
    pub hunger: u32,
    pub boredom: u32,
}

/// The record a user starts with: everything zero.
pub open spec fn fresh_record(id: UserId) -> MiuchizDBCharacter {
    MiuchizDBCharacter {
        citizen_id: id,
        creditz: 0,
        happiness: StatBar::from_value(0),
        hunger: StatBar::from_value(0),
        boredom: StatBar::from_value(0),
    }
}

/// The value a stored 64-bit column reads as: itself where it fits in `u32`, else zero.
pub open spec fn column_u32(v: i64) -> u32 {
    if 0 <= v && v <= u32::MAX as i64 { v as u32 } else { 0 }
}

/// A stat bar read from a column: the value, clamped to `STAT_MAX`.
pub open spec fn clamped_bar(v: u32) -> nat {
    if v <= STAT_MAX { v as nat } else { STAT_MAX as nat }
}

impl MiuchizDBCharacter {
    /// All mood bars are in range.
    pub open spec fn wf(self) -> bool {
        self.happiness.wf() && self.hunger.wf() && self.boredom.wf()
    }

    /// A zero-valued record for `citizen_id`.
    pub fn fresh(citizen_id: UserId) -> (r: MiuchizDBCharacter)
        ensures
            r == fresh_record(citizen_id),
            r.wf(),
    {
        let zero = StatBar::from_u32(0);
        proof {
            StatBar::lemma_value_determines(zero, StatBar::from_value(0));
        }
        MiuchizDBCharacter { citizen_id, creditz: 0, happiness: zero, hunger: zero, boredom: zero }
    }

    /// A record built from stored columns; bars above `STAT_MAX` are clamped.
    pub fn from_stats(citizen_id: UserId, stats: MiuchizStats) -> (r: MiuchizDBCharacter)
        ensures
            r.wf(),
            r.citizen_id == citizen_id,
            r.creditz == stats.creditz,
            r.happiness.value() == clamped_bar(stats.happiness),
            r.hunger.value() == clamped_bar(stats.hunger),
            r.boredom.value() == clamped_bar(stats.boredom),
    {
        MiuchizDBCharacter {
            citizen_id,
            creditz: stats.creditz,
            happiness: StatBar::from_u32(stats.happiness),
            hunger: StatBar::from_u32(stats.hunger),
            boredom: StatBar::from_u32(stats.boredom),
        }
    }

    /// The columns to store for this record.
    pub fn to_stats(&self) -> (r: MiuchizStats)
        ensures
            r.creditz == self.creditz,
            r.happiness as nat == self.happiness.value(),
            r.hunger as nat == self.hunger.value(),
            r.boredom as nat == self.boredom.value(),
    {
        MiuchizStats {
            creditz: self.creditz,
            happiness: self.happiness.to_u32(),
            hunger: self.hunger.to_u32(),
            boredom: self.boredom.to_u32(),
        }
    }
}

/// Reads a stored 64-bit column as `u32`; a value out of range reads as zero.
pub fn column_to_u32(v: i64) -> (r: u32)
    ensures
        r == column_u32(v),
{
    if 0 <= v && v <= u32::MAX as i64 {
        v as u32
    } else {
        0
    }
}

impl MiuchizStats {
    /// Decodes the result of looking up one user: `n_rows` rows came back, and the
    /// first row's four integer columns read as given (`None` where a column is
    /// missing or not an integer). Succeeds only on exactly one row with all four.
    pub fn from_columns(
        n_rows: usize,
        creditz: Option<i64>,
        happiness: Option<i64>,
        hunger: Option<i64>,
        boredom: Option<i64>,
    ) -> (r: Option<MiuchizStats>)
        ensures
            r.is_some() <==> (n_rows == 1 && creditz.is_some() && happiness.is_some()
                && hunger.is_some() && boredom.is_some()),
            r.is_some() ==> r.unwrap() == (MiuchizStats {
                creditz: column_u32(creditz.unwrap()),
                happiness: column_u32(happiness.unwrap()),
                hunger: column_u32(hunger.unwrap()),
                boredom: column_u32(boredom.unwrap()),
            }),
    {
        if n_rows != 1 {
            return None;
        }
        match (creditz, happiness, hunger, boredom) {
            (Some(c), Some(h), Some(u), Some(b)) => Some(
                MiuchizStats {
                    creditz: column_to_u32(c),
                    happiness: column_to_u32(h),
                    hunger: column_to_u32(u),
                    boredom: column_to_u32(b),
                },
            ),
            _ => None,
        }
    }
}

} // verus!
