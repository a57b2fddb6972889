use vstd::prelude::*;

verus! {

/// Seconds the compiler may run before it is given up on.
pub const JEX_COMPILE_TIMEOUT: u64 = 10;

/// Seconds a compiled program may run before it is given up on.
pub const JEX_EXEC_TIMEOUT: u64 = 10;

} // verus!
