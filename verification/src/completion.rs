use vstd::prelude::*;
use crate::error::ReadError;

verus! {

/// One record taken from the completion queue, as plain values.
#[derive(Clone, Copy, Debug, PartialEq, Eq, Structural)]
pub struct CompletionResult {
    /// The correlation tag of the request that this record answers.
    pub tag: u64,
    /// The signed result code: a byte count, or a negated error number.
    pub code: i32,
}

/// What a result code means. A code that is not negative is the number of
/// bytes transferred; a negative code is the negation of the native error
/// number. There is no other success flag.
pub open spec fn outcome_of(code: i32) -> Result<usize, ReadError> {
    if code >= 0 {
        Ok(code as usize)
    } else {
        Err(ReadError::ReadOperation { errno: (-(code as int)) as u32 })
    }
}

/// The conversions inside [`outcome_of`] lose nothing: the byte count is the
/// code itself, and the error number is its absolute value, for every code
/// including the least one.
pub proof fn outcome_is_exact(code: i32)
    ensures
        code >= 0 ==> (outcome_of(code) matches Ok(n) && n as int == code as int),
        code < 0 ==> (outcome_of(code) matches Err(ReadError::ReadOperation { errno })
            && errno as int == -(code as int)),
{
}

/// Interprets the result code of a completion.
pub fn interpret(code: i32) -> (outcome: Result<usize, ReadError>)
    ensures
        outcome == outcome_of(code),
        code >= 0 <==> outcome is Ok,
{
    if code >= 0 {
        Ok(code as usize)
    } else if code == i32::MIN {
        Err(ReadError::ReadOperation { errno: 2147483648u32 })
    } else {
        Err(ReadError::ReadOperation { errno: (-code) as u32 })
    }
}

impl CompletionResult {
    /// The outcome that this record reports.
    pub fn outcome(&self) -> (outcome: Result<usize, ReadError>)
        ensures
            outcome == outcome_of(self.code),
    {
        interpret(self.code)
    }
}

} // verus!
