//! Classification of a fee-history call resolution into a probe outcome.

use vstd::prelude::*;
use crate::types::{FailureReason, FeeHistory, MultiSourceResult, ProbeOutcome, SourceResult};

verus! {

/// True when some entry of the base-fee series is zero.
pub open spec fn has_zero_fee(fees: Seq<u128>) -> bool {
    exists|i: int| 0 <= i < fees.len() && fees[i] == 0
}

/// How an agreed-on payload is judged: no data is a failure, a zero base
/// fee is a failure, anything else passes.
pub open spec fn spec_classify_payload(payload: Option<FeeHistory>) -> ProbeOutcome {
    match payload {
        Option::None => ProbeOutcome::Failure(FailureReason::EmptyResult),
        Option::Some(fh) => if fh.base_fee_per_gas@.len() == 0 {
            ProbeOutcome::Failure(FailureReason::EmptyResult)
        } else if has_zero_fee(fh.base_fee_per_gas@) {
            ProbeOutcome::Failure(FailureReason::ZeroBaseFee)
        } else {
            ProbeOutcome::Success
        },
    }
}

/// The full classification. Divergence among sources is decided before any
/// field of the payload is looked at; field-level checks apply only to an
/// answer all sources agreed on.
pub open spec fn spec_classify(resolution: Result<MultiSourceResult, String>) -> ProbeOutcome {
    match resolution {
        Result::Err(detail) => ProbeOutcome::Failure(FailureReason::UnderlyingCallError(detail)),
        Result::Ok(MultiSourceResult::Inconsistent(_)) => ProbeOutcome::Failure(
            FailureReason::InconsistentAcrossSources,
        ),
        Result::Ok(MultiSourceResult::Consistent(SourceResult::RpcErr(detail))) =>
            ProbeOutcome::Failure(FailureReason::ProviderError(detail)),
        Result::Ok(MultiSourceResult::Consistent(SourceResult::Fees(payload))) =>
            spec_classify_payload(payload),
    }
}

/// Scan of the base-fee series for a zero entry.
fn find_zero_fee(fees: &Vec<u128>) -> (found: bool)
    ensures
        found == has_zero_fee(fees@),
{
    let mut i: usize = 0;
    while i < fees.len()
        invariant
            i <= fees@.len(),
            forall|j: int| 0 <= j < i ==> fees@[j] != 0,
        decreases fees@.len() - i,
    {
        if fees[i] == 0 {
            return true;
        }
        i = i + 1;
    }
    false
}

/// Classify what the remote fee-history call resolved to. Total: every
/// possible resolution maps to exactly one outcome, and error details are
/// carried into the outcome unchanged.
pub fn classify(resolution: Result<MultiSourceResult, String>) -> (outcome: ProbeOutcome)
    ensures
        outcome == spec_classify(resolution),
{
    match resolution {
        Result::Err(detail) => ProbeOutcome::Failure(FailureReason::UnderlyingCallError(detail)),
        Result::Ok(MultiSourceResult::Inconsistent(_)) => ProbeOutcome::Failure(
            FailureReason::InconsistentAcrossSources,
        ),
        Result::Ok(MultiSourceResult::Consistent(SourceResult::RpcErr(detail))) =>
            ProbeOutcome::Failure(FailureReason::ProviderError(detail)),
        Result::Ok(MultiSourceResult::Consistent(SourceResult::Fees(payload))) => match payload {
            Option::None => ProbeOutcome::Failure(FailureReason::EmptyResult),
            Option::Some(fh) => {
                if fh.base_fee_per_gas.len() == 0 {
                    ProbeOutcome::Failure(FailureReason::EmptyResult)
                } else if find_zero_fee(&fh.base_fee_per_gas) {
                    ProbeOutcome::Failure(FailureReason::ZeroBaseFee)
                } else {
                    ProbeOutcome::Success
                }
            },
        },
    }
}

} // verus!
