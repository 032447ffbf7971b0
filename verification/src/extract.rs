//! Request inputs of list and create endpoints: pagination parameters and
//! validated JSON bodies.

use vstd::prelude::*;

use crate::error::{validation, Error, ErrorKind};

verus! {

/// Page size of list endpoints when none is asked for.
pub const DEFAULT_LIMIT: i64 = 50;

/// Largest page size of list endpoints.
pub const MAX_LIMIT: i64 = 100;

/// Pagination query parameters of list endpoints.
#[derive(Debug, Clone, Copy, PartialEq, Eq, Structural)]
pub struct Pagination {
    pub offset: Option<i64>,
    pub limit: Option<i64>,
}

impl Pagination {
    pub open spec fn spec_offset(self) -> i64 {
        match self.offset {
            Some(o) => if o < 0 {
                0
            } else {
                o
            },
            None => 0,
        }
    }

    pub open spec fn spec_limit(self) -> i64 {
        let l = match self.limit {
            Some(l) => l,
            None => DEFAULT_LIMIT,
        };
        if l < 1 {
            1
        } else if l > MAX_LIMIT {
            MAX_LIMIT
        } else {
            l
        }
    }

    /// The offset, defaulting to 0 and never negative.
    pub fn offset(&self) -> (r: i64)
        ensures
            r == self.spec_offset(),
    {
        let o = match self.offset {
            Some(o) => o,
            None => 0,
        };
        if o < 0 {
            0
        } else {
            o
        }
    }

    /// The page size, defaulting to 50 and clamped to 1..=100.
    pub fn limit(&self) -> (r: i64)
        ensures
            r == self.spec_limit(),
    {
        let l = match self.limit {
            Some(l) => l,
            None => DEFAULT_LIMIT,
        };
        if l < 1 {
            1
        } else if l > MAX_LIMIT {
            MAX_LIMIT
        } else {
            l
        }
    }
}

/// Every page is at least one item and at most the maximum, and starts at a
/// non-negative offset.
pub proof fn lemma_pagination_bounds(p: Pagination)
    ensures
        1 <= p.spec_limit() <= MAX_LIMIT,
        p.spec_offset() >= 0,
        forall|l: i64| p.limit == Some(l) && 1 <= l <= MAX_LIMIT ==> p.spec_limit() == l,
        forall|o: i64| p.offset == Some(o) && o >= 0 ==> p.spec_offset() == o,
{
}

/// A JSON request body that was deserialized and then validated.
#[derive(Debug)]
pub struct ValidatedJson<T>(pub T);

/// The error a body that could not be deserialized is refused with: a
/// validation error carrying the rejection's text.
pub fn malformed_body(body_text: &str) -> (e: Error)
    ensures
        e@ == validation(body_text@),
{
    Error::Validation(String::from_str(body_text))
}

/// The error a body that broke its validation rules is refused with.
pub fn invalid_body(detail: &str) -> (e: Error)
    ensures
        e@ == validation("Validation failed: "@ + detail@),
        e@.0 == ErrorKind::Validation,
{
    let mut m = String::from_str("Validation failed: ");
    m.append(detail);
    Error::Validation(m)
}

} // verus!
