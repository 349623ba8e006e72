//! The normalized form of an abnormal termination, and how its message is
//! composed from whatever the failed computation left behind.

use vstd::prelude::*;

verus! {

/// Tag prefixed to every fault message, so host-side logs can tell native
/// faults from host faults.
pub open spec fn native_tag() -> Seq<char> {
    "[native]: "@
}

/// Fallback text used when a payload carries no readable text; the name of
/// the failed operation is appended to it.
pub open spec fn fallback_phrase() -> Seq<char> {
    "panic occurred in "@
}

/// What an abnormally terminated computation left behind: a string-like
/// payload whose text can be used verbatim, or an opaque value.
pub enum PanicPayload {
    Text(String),
    Opaque,
}

/// The readable text of a payload, if it has any.
pub open spec fn payload_text(p: PanicPayload) -> Option<Seq<char>> {
    match p {
        PanicPayload::Text(s) => Some(s@),
        PanicPayload::Opaque => None,
    }
}

/// The message reported for a given payload and operation name: the native
/// tag, then the payload's own text where there is one, else the fallback
/// naming the operation.
pub open spec fn fault_message(payload: Option<Seq<char>>, operation: Seq<char>) -> Seq<char> {
    match payload {
        Some(text) => native_tag() + text,
        None => native_tag() + fallback_phrase() + operation,
    }
}

/// The normalized representation of an abnormal termination, ready to be
/// raised to the host as a runtime exception.
pub struct FaultReport {
    pub message: String,
}

impl FaultReport {
    /// The report for a payload observed while `operation` ran.
    pub fn from_payload(payload: &PanicPayload, operation: &str) -> (r: FaultReport)
        ensures
            r.message@ == fault_message(payload_text(*payload), operation@),
    {
        FaultReport { message: compose_fault_message(payload, operation) }
    }
}

/// Compose the diagnostic message for a payload observed while `operation`
/// ran: string-like payloads are quoted verbatim after the native tag, all
/// others fall back to a fixed phrase naming the operation.
pub fn compose_fault_message(payload: &PanicPayload, operation: &str) -> (r: String)
    ensures
        r@ == fault_message(payload_text(*payload), operation@),
{
    match payload {
        PanicPayload::Text(s) => {
            let mut m = "[native]: ".to_owned();
            m.append(s.as_str());
            m
        },
        PanicPayload::Opaque => {
            let mut m = "[native]: ".to_owned();
            m.append("panic occurred in ");
            m.append(operation);
            m
        },
    }
}

} // verus!
