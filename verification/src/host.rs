use vstd::prelude::*;

use crate::kv::StoreKey;

verus! {

/// A point in a chain's history: revisions ordered first, heights
/// within a revision second (lexicographic order).
#[derive(Clone, Copy, Debug, PartialEq, Eq, Structural)]
pub struct Height {
    pub revision_number: u64,
    pub revision_height: u64,
}

impl Height {
    pub fn new(revision_number: u64, revision_height: u64) -> (r: Height)
        ensures
            r == (Height { revision_number, revision_height }),
    {
        Height { revision_number, revision_height }
    }

    /// Lexicographic strict order on (revision_number, revision_height).
    pub open spec fn lt_spec(self, other: Height) -> bool {
        self.revision_number < other.revision_number
            || (self.revision_number == other.revision_number
                && self.revision_height < other.revision_height)
    }

    pub open spec fn le_spec(self, other: Height) -> bool {
        self.lt_spec(other) || self == other
    }

    pub fn lt(self, other: Height) -> (r: bool)
        ensures
            r == self.lt_spec(other),
    {
        self.revision_number < other.revision_number
            || (self.revision_number == other.revision_number
                && self.revision_height < other.revision_height)
    }

    pub fn le(self, other: Height) -> (r: bool)
        ensures
            r == self.le_spec(other),
    {
        self.revision_number < other.revision_number
            || (self.revision_number == other.revision_number
                && self.revision_height <= other.revision_height)
    }

    /// The next height within the same revision.
    pub fn increment(self) -> (r: Height)
        requires
            self.revision_height < u64::MAX,
        ensures
            r.revision_number == self.revision_number,
            r.revision_height == self.revision_height + 1,
    {
        Height {
            revision_number: self.revision_number,
            revision_height: self.revision_height + 1,
        }
    }
}

/// A nanosecond-resolution instant; `0` denotes "unset".
#[derive(Clone, Copy, Debug, PartialEq, Eq, Structural)]
pub struct Timestamp {
    pub nanoseconds: u64,
}

impl Timestamp {
    pub fn from_nanoseconds(nanoseconds: u64) -> (r: Timestamp)
        ensures
            r.nanoseconds == nanoseconds,
    {
        Timestamp { nanoseconds }
    }

    pub open spec fn is_set_spec(self) -> bool {
        self.nanoseconds != 0
    }

    pub fn is_set(self) -> (r: bool)
        ensures
            r == self.is_set_spec(),
    {
        self.nanoseconds != 0
    }

    pub fn nanoseconds(self) -> (r: u64)
        ensures
            r == self.nanoseconds,
    {
        self.nanoseconds
    }

    /// Adds a duration in nanoseconds, saturating at the largest instant.
    pub fn saturating_add(self, duration: u64) -> (r: Timestamp)
        ensures
            r.nanoseconds
                == if self.nanoseconds + duration <= u64::MAX {
                    self.nanoseconds + duration
                } else {
                    u64::MAX as int
                },
    {
        if self.nanoseconds <= u64::MAX - duration {
            Timestamp { nanoseconds: self.nanoseconds + duration }
        } else {
            Timestamp { nanoseconds: u64::MAX }
        }
    }
}

impl View for Height {
    type V = Height;

    open spec fn view(&self) -> Height {
        *self
    }
}

impl StoreKey for Height {
    fn key_eq(&self, other: &Self) -> (r: bool)
        ensures
            r == (self@ == other@),
    {
        self.revision_number == other.revision_number
            && self.revision_height == other.revision_height
    }
}

impl View for Timestamp {
    type V = Timestamp;

    open spec fn view(&self) -> Timestamp {
        *self
    }
}

} // verus!
