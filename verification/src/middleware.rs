//! What a governor reports of a decision, beyond admitting or denying.

use crate::gcra::conforms;
use crate::gcra::decision_for;
use crate::gcra::lemma_decision_bounds;
use crate::gcra::remaining_after;
use crate::gcra::Decision;
use crate::quota::Quota;
use vstd::prelude::*;

verus! {

/// What the caller may tell the client about a request. A field that is
/// `None` is not reported.
#[derive(Clone, Copy, Debug, PartialEq, Eq, Structural)]
pub struct Metadata {
    /// The burst size of the quota.
    pub limit: Option<u32>,
    /// The units left after this request.
    pub remaining: Option<u32>,
    /// On admission, the nanoseconds until the bucket is full again.
    pub reset_after: Option<u64>,
    /// On denial, the nanoseconds until the next unit is there.
    pub retry_after: Option<u64>,
    /// Whether the request passed because the governor does not apply to its
    /// method.
    pub whitelisted: bool,
}

/// Whole seconds that cover `nanos` nanoseconds: the quotient, rounded up.
pub open spec fn seconds_covering(nanos: u64) -> int {
    (nanos + 999_999_999) / 1_000_000_000
}

/// Whole seconds that cover `nanos` nanoseconds.
pub fn whole_seconds(nanos: u64) -> (secs: u64)
    ensures
        secs == seconds_covering(nanos),
        (secs - 1) * 1_000_000_000 < nanos <= secs * 1_000_000_000,
{
    let whole: u64 = nanos / 1_000_000_000;
    if nanos % 1_000_000_000 == 0 {
        whole
    } else {
        whole + 1
    }
}

impl Metadata {
    /// Nothing to report.
    pub open spec fn spec_empty() -> Metadata {
        Metadata {
            limit: None,
            remaining: None,
            reset_after: None,
            retry_after: None,
            whitelisted: false,
        }
    }

    #[verifier::when_used_as_spec(spec_empty)]
    pub fn empty() -> (m: Metadata)
        ensures
            m == Metadata::spec_empty(),
    {
        Metadata {
            limit: None,
            remaining: None,
            reset_after: None,
            retry_after: None,
            whitelisted: false,
        }
    }

    /// The header fields that report this metadata.
    pub fn header_fields(&self) -> (fields: Vec<HeaderField>)
        ensures
            fields@ == header_fields_of(*self),
    {
        let mut fields: Vec<HeaderField> = Vec::new();
        if let Some(nanos) = self.retry_after {
            fields.push(HeaderField::After(whole_seconds(nanos)));
        }
        if let Some(limit) = self.limit {
            fields.push(HeaderField::Limit(limit));
        }
        if let Some(left) = self.remaining {
            fields.push(HeaderField::Remaining(left));
        }
        if self.whitelisted {
            fields.push(HeaderField::Whitelisted);
        }
        assert(fields@ =~= header_fields_of(*self));
        fields
    }
}

/// One header field of a response, by what it carries.
#[derive(Clone, Copy, Debug, PartialEq, Eq, Structural)]
pub enum HeaderField {
    /// `x-ratelimit-after`: the whole seconds after which a denied request
    /// may be tried again.
    After(u64),
    /// `x-ratelimit-limit`: the burst size.
    Limit(u32),
    /// `x-ratelimit-remaining`: the units left.
    Remaining(u32),
    /// `x-ratelimit-whitelisted`: the governor does not apply to the method.
    Whitelisted,
}

impl HeaderField {
    /// The name of the field, in lower case.
    pub fn name(&self) -> (name: &'static str)
        ensures
            name@ == match self {
                HeaderField::After(_) => "x-ratelimit-after"@,
                HeaderField::Limit(_) => "x-ratelimit-limit"@,
                HeaderField::Remaining(_) => "x-ratelimit-remaining"@,
                HeaderField::Whitelisted => "x-ratelimit-whitelisted"@,
            },
    {
        match self {
            HeaderField::After(_) => "x-ratelimit-after",
            HeaderField::Limit(_) => "x-ratelimit-limit",
            HeaderField::Remaining(_) => "x-ratelimit-remaining",
            HeaderField::Whitelisted => "x-ratelimit-whitelisted",
        }
    }
}

/// The header fields that report `metadata`, in the order after, limit,
/// remaining, whitelisted; a field is left out where there is nothing to
/// report.
pub open spec fn header_fields_of(metadata: Metadata) -> Seq<HeaderField> {
    let after = match metadata.retry_after {
        Some(nanos) => seq![HeaderField::After(seconds_covering(nanos) as u64)],
        None => seq![],
    };
    let limit = match metadata.limit {
        Some(limit) => seq![HeaderField::Limit(limit)],
        None => seq![],
    };
    let remaining = match metadata.remaining {
        Some(left) => seq![HeaderField::Remaining(left)],
        None => seq![],
    };
    let whitelisted = if metadata.whitelisted {
        seq![HeaderField::Whitelisted]
    } else {
        seq![]
    };
    after + limit + remaining + whitelisted
}

/// Turns a decision into what is reported of it. An annotator sees the
/// decision and cannot change it.
pub trait RateLimitingMiddleware {
    /// What is reported of `decision`, taken under `quota`.
    fn annotate(decision: &Decision, quota: &Quota) -> (metadata: Metadata);

    /// What is reported of a request that the governor does not apply to.
    fn annotate_bypass() -> (metadata: Metadata);
}

/// What [`NoOpMiddleware`] reports of a decision: on denial when to try
/// again, on admission nothing.
pub open spec fn no_op_annotation(decision: Decision) -> Metadata {
    match decision {
        Decision::Admitted { .. } => Metadata::spec_empty(),
        Decision::Denied { retry_after, .. } => Metadata {
            retry_after: Some(retry_after),
            ..Metadata::spec_empty()
        },
    }
}

/// Reports the least: on denial when to try again, otherwise nothing.
#[derive(Clone, Copy, Debug, PartialEq, Eq, Structural)]
pub struct NoOpMiddleware;

impl RateLimitingMiddleware for NoOpMiddleware {
    fn annotate(decision: &Decision, quota: &Quota) -> (metadata: Metadata)
        ensures
            metadata == no_op_annotation(*decision),
    {
        match decision {
            Decision::Admitted { .. } => Metadata::empty(),
            Decision::Denied { retry_after, .. } => Metadata {
                limit: None,
                remaining: None,
                reset_after: None,
                retry_after: Some(*retry_after),
                whitelisted: false,
            },
        }
    }

    fn annotate_bypass() -> (metadata: Metadata)
        ensures
            metadata == Metadata::spec_empty(),
    {
        Metadata::empty()
    }
}

/// What [`StateInformationMiddleware`] reports of a decision: the burst size
/// of the quota as the limit, the units left (none after a denial), and when
/// the bucket is full again or when to try again.
pub open spec fn state_information(decision: Decision, quota: Quota) -> Metadata {
    match decision {
        Decision::Admitted { remaining, reset_after, .. } => Metadata {
            limit: Some(quota.spec_burst_size()),
            remaining: Some(remaining),
            reset_after: Some(reset_after),
            retry_after: None,
            whitelisted: false,
        },
        Decision::Denied { retry_after, .. } => Metadata {
            limit: Some(quota.spec_burst_size()),
            remaining: Some(0),
            reset_after: None,
            retry_after: Some(retry_after),
            whitelisted: false,
        },
    }
}

/// What [`StateInformationMiddleware`] reports of a request that the
/// governor does not apply to: that it is whitelisted, and nothing else.
pub open spec fn whitelisted() -> Metadata {
    Metadata { whitelisted: true, ..Metadata::spec_empty() }
}

/// Reports the state of the bucket: the limit and the units left, and when
/// the bucket is full again or when to try again.
#[derive(Clone, Copy, Debug, PartialEq, Eq, Structural)]
pub struct StateInformationMiddleware;

impl RateLimitingMiddleware for StateInformationMiddleware {
    fn annotate(decision: &Decision, quota: &Quota) -> (metadata: Metadata)
        ensures
            metadata == state_information(*decision, *quota),
    {
        match decision {
            Decision::Admitted { remaining, reset_after, .. } => Metadata {
                limit: Some(quota.burst_size()),
                remaining: Some(*remaining),
                reset_after: Some(*reset_after),
                retry_after: None,
                whitelisted: false,
            },
            Decision::Denied { retry_after, .. } => Metadata {
                limit: Some(quota.burst_size()),
                remaining: Some(0),
                reset_after: None,
                retry_after: Some(*retry_after),
                whitelisted: false,
            },
        }
    }

    fn annotate_bypass() -> (metadata: Metadata)
        ensures
            metadata == whitelisted(),
    {
        Metadata {
            limit: None,
            remaining: None,
            reset_after: None,
            retry_after: None,
            whitelisted: true,
        }
    }
}

/// With the state-information annotator, an admitted request reports the
/// burst size as its limit, and as the units left a number from zero to one
/// less than the burst size: the whole units that the bucket holds after the
/// request. A denied request reports the burst size and no units.
pub proof fn lemma_reported_remaining(state: Option<u64>, now: u64, quota: Quota)
    requires
        quota.wf(),
    ensures
        state_information(decision_for(state, now, quota), quota).limit == Some(
            quota.spec_burst_size(),
        ),
        conforms(state, now, quota) ==> {
            &&& state_information(decision_for(state, now, quota), quota).remaining matches Some(
                left,
            ) && 0 <= left <= quota.spec_burst_size() - 1 && left == remaining_after(
                state,
                now,
                quota,
            )
        },
        !conforms(state, now, quota) ==> state_information(
            decision_for(state, now, quota),
            quota,
        ).remaining == Some(0u32),
{
    lemma_decision_bounds(state, now, quota);
}

} // verus!
