//! One utilisation reading of a resource, as a provider reports it.

use vstd::prelude::*;

verus! {

/// The top of the percentage scale, 100 %, in hundredths of a percent.
pub const FULL_SCALE: u16 = 10000;

/// What a [`Reading`] holds, as plain numbers: bytes, bytes, and hundredths
/// of a percent.
pub struct ReadingModel {
    pub total: nat,
    pub used: nat,
    pub percent: nat,
}

impl ReadingModel {
    /// The percentage does not exceed 100 %.
    pub open spec fn in_scale(self) -> bool {
        self.percent <= FULL_SCALE
    }
}

/// Totals and utilisation of one resource at one moment.
///
/// The percentage is kept in hundredths of a percent and never exceeds
/// [`FULL_SCALE`]: a value of this type can only be made by [`Reading::new`].
#[derive(Clone, Copy, Debug)]
pub struct Reading {
    total: u64,
    used: u64,
    percent: u16,
}

impl View for Reading {
    type V = ReadingModel;

    closed spec fn view(&self) -> ReadingModel {
        ReadingModel {
            total: self.total as nat,
            used: self.used as nat,
            percent: self.percent as nat,
        }
    }
}

impl Reading {
    #[verifier::type_invariant]
    spec fn inv(self) -> bool {
        self.percent <= FULL_SCALE
    }

    /// A reading of `total` and `used` bytes at `percent` hundredths of a
    /// percent; none where `percent` is beyond 100 %.
    pub fn new(total: u64, used: u64, percent: u16) -> (r: Option<Reading>)
        ensures
            r.is_some() <==> percent <= FULL_SCALE,
            r matches Some(reading) ==> reading@ == (ReadingModel {
                total: total as nat,
                used: used as nat,
                percent: percent as nat,
            }),
    {
        if percent <= FULL_SCALE {
            Some(Reading { total, used, percent })
        } else {
            None
        }
    }

    /// Capacity of the resource in bytes.
    pub fn total(&self) -> (t: u64)
        ensures
            t == self@.total,
    {
        self.total
    }

    /// Bytes in use.
    pub fn used(&self) -> (u: u64)
        ensures
            u == self@.used,
    {
        self.used
    }

    /// Utilisation in hundredths of a percent, at most [`FULL_SCALE`].
    pub fn percent(&self) -> (p: u16)
        ensures
            p == self@.percent,
            self@.in_scale(),
    {
        proof {
            use_type_invariant(self);
        }
        self.percent
    }
}

} // verus!
