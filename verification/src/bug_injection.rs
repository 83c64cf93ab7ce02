//! The catalogue of documented misuse classes of the buffer protocol. Each
//! variant names one failure class that the type-state machinery rejects
//! when a program is built: double waits, missed waits, host access while
//! in flight, out-of-order launches, cross-session reuse, leaked tokens
//! and size confusion. `inject` is the inert baseline hook that programs
//! demonstrating such a class are written against.

use vstd::prelude::*;

verus! {

/// One documented misuse class of the buffer lifecycle protocol.
#[allow(non_camel_case_types)]
#[derive(Debug, Clone, Copy)]
pub enum FailKind {
    F1_DoubleWait,
    F2_MissWait,
    F3_ReadInFlight,
    F4_Order,
    F5_CrossContext,
    F6_Leak,
    F7_InvalidSize,
    F8_Other,
}

/// Baseline hook for programs demonstrating a misuse class: deliberately
/// does nothing, so that such a program exhibits its failure class purely
/// through the types it misuses.
pub fn inject(k: FailKind) {
    let _ = k;
}

} // verus!
