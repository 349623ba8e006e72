//! The boundary guard itself: one invocation in, exactly one outcome out.

use crate::fault::{native_tag, FaultReport, PanicPayload};
use crate::ops::{maybe_fault, overflow_phrase, process, processed, trigger_phrase};
use vstd::prelude::*;

verus! {

/// One unit of native work requested by the host for a single boundary call:
/// the operation together with its typed inputs.
pub enum Invocation {
    Add(i32, i32),
    Process(String),
    MaybeFault(bool),
}

/// The success value an invocation produces, one variant per declared return
/// type of the boundary.
pub enum GuardValue {
    Int(i32),
    Text(String),
    Unit,
}

/// Whether the invocation's computation terminates abnormally instead of
/// producing its value: a sum that leaves the native integer range, or the
/// fault deliberately asked for.
pub open spec fn invocation_faults(inv: Invocation) -> bool {
    match inv {
        Invocation::Add(a, b) => a + b > i32::MAX || a + b < i32::MIN,
        Invocation::Process(_) => false,
        Invocation::MaybeFault(f) => f,
    }
}

/// The message of the fault report an invocation produces, when it faults.
/// A `Process` invocation never faults, so its entry is immaterial.
pub open spec fn fault_text(inv: Invocation) -> Seq<char> {
    match inv {
        Invocation::Add(_, _) => native_tag() + overflow_phrase(),
        Invocation::Process(_) => Seq::empty(),
        Invocation::MaybeFault(_) => native_tag() + trigger_phrase(),
    }
}

/// The exactly-one-outcome relation of the boundary: `r` is an outcome the
/// guard may produce for `inv` — the declared success value when the
/// computation completes, and a fault report with the composed message when
/// it terminates abnormally, never both, never neither.
pub open spec fn is_outcome(inv: Invocation, r: Result<GuardValue, FaultReport>) -> bool {
    if invocation_faults(inv) {
        r matches Err(f) && f.message@ == fault_text(inv)
    } else {
        match inv {
            Invocation::Add(a, b) => r matches Ok(GuardValue::Int(v)) && v == a + b,
            Invocation::Process(s) => r matches Ok(GuardValue::Text(t)) && t@ == processed(s@),
            Invocation::MaybeFault(_) => r matches Ok(GuardValue::Unit),
        }
    }
}

/// Run one invocation under fault isolation. On normal completion the
/// produced value is returned unchanged; on abnormal termination a
/// [`FaultReport`] is returned instead, and no fault is ever swallowed:
/// a report comes back exactly when the computation faults.
pub fn guard(inv: &Invocation) -> (r: Result<GuardValue, FaultReport>)
    ensures
        is_outcome(*inv, r),
        r is Err <==> invocation_faults(*inv),
{
    match inv {
        Invocation::Add(a, b) => {
            match a.checked_add(*b) {
                Some(v) => Ok(GuardValue::Int(v)),
                None => {
                    let payload = PanicPayload::Text("attempt to add with overflow".to_owned());
                    Err(FaultReport::from_payload(&payload, "nativeAdd"))
                },
            }
        },
        Invocation::Process(s) => Ok(GuardValue::Text(process(s.as_str()))),
        Invocation::MaybeFault(flag) => {
            match maybe_fault(*flag) {
                Ok(()) => Ok(GuardValue::Unit),
                Err(f) => Err(f),
            }
        },
    }
}

/// Two outcomes agree: same kind, and equal success value or equal fault
/// message.
pub open spec fn outcome_equiv(
    r1: Result<GuardValue, FaultReport>,
    r2: Result<GuardValue, FaultReport>,
) -> bool {
    match (r1, r2) {
        (Ok(GuardValue::Int(a)), Ok(GuardValue::Int(b))) => a == b,
        (Ok(GuardValue::Text(a)), Ok(GuardValue::Text(b))) => a@ == b@,
        (Ok(GuardValue::Unit), Ok(GuardValue::Unit)) => true,
        (Err(f1), Err(f2)) => f1.message@ == f2.message@,
        _ => false,
    }
}

/// Invoking the same operation twice with the same inputs yields the same
/// outcome both times: any two results the guard's contract admits for one
/// invocation agree, as success value or as fault message.
pub proof fn lemma_outcome_deterministic(
    inv: Invocation,
    r1: Result<GuardValue, FaultReport>,
    r2: Result<GuardValue, FaultReport>,
)
    requires
        is_outcome(inv, r1),
        is_outcome(inv, r2),
    ensures
        outcome_equiv(r1, r2),
{
}

/// A fault never corrupts a later invocation: after any faulting call, a
/// later invocation whose own computation does not fault still succeeds,
/// with the outcome its own contract pins.
pub proof fn lemma_fault_isolation(
    prior: Invocation,
    r_prior: Result<GuardValue, FaultReport>,
    later: Invocation,
    r_later: Result<GuardValue, FaultReport>,
)
    requires
        is_outcome(prior, r_prior),
        r_prior is Err,
        is_outcome(later, r_later),
        !invocation_faults(later),
    ensures
        r_later is Ok,
{
}

} // verus!
