//! The native operations a host can request across the boundary.

use crate::fault::{native_tag, FaultReport, PanicPayload};
use vstd::prelude::*;

verus! {

/// Prefix attached to every processed text.
pub open spec fn rust_prefix() -> Seq<char> {
    "[RUST] "@
}

/// Text of the deliberately triggered fault.
pub open spec fn trigger_phrase() -> Seq<char> {
    "Rust代码故意触发的panic!"@
}

/// Text of the fault raised when a sum leaves the native integer range.
pub open spec fn overflow_phrase() -> Seq<char> {
    "attempt to add with overflow"@
}

/// Sum of two native integers. The caller rules out overflow; the guard
/// turns an out-of-range sum into a fault instead.
pub fn add(a: i32, b: i32) -> (r: i32)
    requires
        i32::MIN <= a + b <= i32::MAX,
    ensures
        r == a + b,
{
    a + b
}

/// What processing does to a text: the fixed prefix, then the input.
pub open spec fn processed(s: Seq<char>) -> Seq<char> {
    rust_prefix() + s
}

/// Prefix the input with the fixed tag.
pub fn process(input: &str) -> (r: String)
    ensures
        r@ == processed(input@),
{
    let mut out = "[RUST] ".to_owned();
    out.append(input);
    out
}

/// Complete with no value, or, when asked to, terminate abnormally with the
/// fixed trigger phrase as the fault's payload.
pub fn maybe_fault(should_panic: bool) -> (r: Result<(), FaultReport>)
    ensures
        should_panic <==> r is Err,
        r matches Err(f) ==> f.message@ == native_tag() + trigger_phrase(),
{
    if should_panic {
        let payload = PanicPayload::Text("Rust代码故意触发的panic!".to_owned());
        Err(FaultReport::from_payload(&payload, "nativeMightPanic"))
    } else {
        Ok(())
    }
}

} // verus!
