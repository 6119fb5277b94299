use vstd::prelude::*;

verus! {

/// The error codes that a pod operation or a registry call reports.
#[derive(Clone, Copy, Debug, PartialEq, Eq, Structural)]
pub enum MemepodError {
    Uninitialized,
    AlreadyInitialized,
    Unauthorised,
    InsufficientFund,
    UnknownToken,
    NotActive,
    PodNameTooLong,
    TokenNameTooLong,
    TokenSymbolTooLong,
}

/// Why a pod operation did not commit. Whatever the reason, the operation has
/// changed nothing.
#[derive(Clone, Copy, Debug, PartialEq, Eq, Structural)]
pub enum PodError {
    /// A precondition failed with one of the program's error codes.
    Program(MemepodError),
    /// A record already stands at the pod's address: a pod is created once.
    PodExists,
    /// A counter would leave the `u64` range: the whole call aborts.
    Overflow,
    /// The base vault does not hold what a purchase would send out, so the
    /// token transfer out of it is refused and the whole call aborts.
    VaultShortfall,
}

/// The text that goes with each code.
pub open spec fn error_message(e: MemepodError) -> Seq<char> {
    match e {
        MemepodError::Uninitialized => "Uninitialized"@,
        MemepodError::AlreadyInitialized => "AlreadyInitialized"@,
        MemepodError::Unauthorised => "Unauthorised"@,
        MemepodError::InsufficientFund => "Insufficient fund"@,
        MemepodError::UnknownToken => "One token should be Sol"@,
        MemepodError::NotActive => "Not Actived"@,
        MemepodError::PodNameTooLong => "Pod name too long"@,
        MemepodError::TokenNameTooLong => "Token name too long"@,
        MemepodError::TokenSymbolTooLong => "Token symbol too long"@,
    }
}

impl MemepodError {
    /// The message that goes with each code.
    pub fn message(&self) -> (r: &'static str)
        ensures
            r@ == error_message(*self),
    {
        match self {
            MemepodError::Uninitialized => "Uninitialized",
            MemepodError::AlreadyInitialized => "AlreadyInitialized",
            MemepodError::Unauthorised => "Unauthorised",
            MemepodError::InsufficientFund => "Insufficient fund",
            MemepodError::UnknownToken => "One token should be Sol",
            MemepodError::NotActive => "Not Actived",
            MemepodError::PodNameTooLong => "Pod name too long",
            MemepodError::TokenNameTooLong => "Token name too long",
            MemepodError::TokenSymbolTooLong => "Token symbol too long",
        }
    }
}

} // verus!
