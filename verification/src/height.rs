//! Heights of a chain: a revision number and a height within that revision.

use vstd::prelude::*;
use crate::table::{Key, Stored};

verus! {

/// Why a height could not be built or moved.
#[derive(Clone, Copy, Debug, PartialEq, Eq, Structural)]
pub enum HeightError {
    /// A height of zero within a revision does not name a block.
    ZeroHeight,
    /// Moving down by more than the height within the revision allows.
    InvalidDecrement,
}

/// A position on a chain. Heights are ordered by revision number first and by
/// the height within the revision second.
#[derive(Clone, Copy, Debug, PartialEq, Eq, Structural, Hash)]
pub struct Height {
    pub revision_number: u64,
    pub revision_height: u64,
}

impl View for Height {
    type V = Height;

    open spec fn view(&self) -> Height {
        *self
    }
}

impl Stored for Height {
    fn duplicate(&self) -> (r: Self) {
        *self
    }
}

impl Key for Height {
    fn same(&self, other: &Self) -> (r: bool) {
        self.revision_number == other.revision_number && self.revision_height
            == other.revision_height
    }
}

impl Height {
    /// `self` comes strictly before `other`.
    pub open spec fn spec_lt(self, other: Height) -> bool {
        self.revision_number < other.revision_number || (self.revision_number
            == other.revision_number && self.revision_height < other.revision_height)
    }

    /// `self` comes before `other` or equals it.
    pub open spec fn spec_le(self, other: Height) -> bool {
        self.spec_lt(other) || self == other
    }

    /// The height one block further on in the same revision.
    pub open spec fn spec_increment(self) -> Height
        recommends
            self.revision_height < u64::MAX,
    {
        Height {
            revision_number: self.revision_number,
            revision_height: (self.revision_height + 1) as u64,
        }
    }

    /// The height `delta` blocks further on in the same revision.
    pub open spec fn spec_add(self, delta: u64) -> Height
        recommends
            self.revision_height + delta <= u64::MAX,
    {
        Height {
            revision_number: self.revision_number,
            revision_height: (self.revision_height + delta) as u64,
        }
    }

    /// The height `delta` blocks back in the same revision.
    pub open spec fn spec_sub(self, delta: u64) -> Height
        recommends
            delta < self.revision_height,
    {
        Height {
            revision_number: self.revision_number,
            revision_height: (self.revision_height - delta) as u64,
        }
    }

    /// Builds a height; a height of zero within the revision is refused.
    pub fn new(revision_number: u64, revision_height: u64) -> (r: Result<Height, HeightError>)
        ensures
            revision_height == 0 ==> r == Err::<Height, HeightError>(HeightError::ZeroHeight),
            revision_height != 0 ==> r == Ok::<Height, HeightError>(
                Height { revision_number, revision_height },
            ),
    {
        if revision_height == 0 {
            Err(HeightError::ZeroHeight)
        } else {
            Ok(Height { revision_number, revision_height })
        }
    }

    /// The first height of a revision.
    pub fn min(revision_number: u64) -> (r: Height)
        ensures
            r == (Height { revision_number, revision_height: 1 }),
    {
        Height { revision_number, revision_height: 1 }
    }

    pub fn revision_number(&self) -> (r: u64)
        ensures
            r == self.revision_number,
    {
        self.revision_number
    }

    pub fn revision_height(&self) -> (r: u64)
        ensures
            r == self.revision_height,
    {
        self.revision_height
    }

    /// The next height in the same revision.
    pub fn increment(&self) -> (r: Height)
        requires
            self.revision_height < u64::MAX,
        ensures
            r == self.spec_increment(),
    {
        Height {
            revision_number: self.revision_number,
            revision_height: self.revision_height + 1,
        }
    }

    /// The height `delta` blocks further on.
    pub fn add(&self, delta: u64) -> (r: Height)
        requires
            self.revision_height + delta <= u64::MAX,
        ensures
            r == self.spec_add(delta),
    {
        Height {
            revision_number: self.revision_number,
            revision_height: self.revision_height + delta,
        }
    }

    /// The height `delta` blocks back, which must still name a block.
    pub fn sub(&self, delta: u64) -> (r: Result<Height, HeightError>)
        ensures
            delta < self.revision_height ==> r == Ok::<Height, HeightError>(self.spec_sub(delta)),
            delta >= self.revision_height ==> r == Err::<Height, HeightError>(
                HeightError::InvalidDecrement,
            ),
    {
        if delta >= self.revision_height {
            Err(HeightError::InvalidDecrement)
        } else {
            Ok(
                Height {
                    revision_number: self.revision_number,
                    revision_height: self.revision_height - delta,
                },
            )
        }
    }

    /// The height one block back.
    pub fn decrement(&self) -> (r: Result<Height, HeightError>)
        ensures
            1 < self.revision_height ==> r == Ok::<Height, HeightError>(self.spec_sub(1)),
            1 >= self.revision_height ==> r == Err::<Height, HeightError>(
                HeightError::InvalidDecrement,
            ),
    {
        self.sub(1)
    }

    /// Whether both are the same height.
    pub fn same_as(&self, other: &Height) -> (r: bool)
        ensures
            r == (*self == *other),
    {
        self.revision_number == other.revision_number && self.revision_height
            == other.revision_height
    }

    pub fn lt(&self, other: &Height) -> (r: bool)
        ensures
            r == self.spec_lt(*other),
    {
        self.revision_number < other.revision_number || (self.revision_number
            == other.revision_number && self.revision_height < other.revision_height)
    }

    pub fn le(&self, other: &Height) -> (r: bool)
        ensures
            r == self.spec_le(*other),
    {
        self.lt(other) || (self.revision_number == other.revision_number && self.revision_height
            == other.revision_height)
    }

    pub fn gt(&self, other: &Height) -> (r: bool)
        ensures
            r == other.spec_lt(*self),
    {
        other.lt(self)
    }

    pub fn ge(&self, other: &Height) -> (r: bool)
        ensures
            r == other.spec_le(*self),
    {
        other.le(self)
    }
}

/// The order on heights is a strict total order.
pub proof fn law_height_order_total(a: Height, b: Height, c: Height)
    ensures
        !a.spec_lt(a),
        a.spec_lt(b) && b.spec_lt(c) ==> a.spec_lt(c),
        a.spec_lt(b) || a == b || b.spec_lt(a),
        a.spec_lt(b) ==> !b.spec_lt(a),
{
}

/// Moving on by one block gives a strictly later height.
pub proof fn law_increment_is_later(a: Height)
    requires
        a.revision_height < u64::MAX,
    ensures
        a.spec_lt(a.spec_increment()),
        a.spec_increment().revision_number == a.revision_number,
{
}

} // verus!
