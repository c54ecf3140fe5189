use vstd::prelude::*;

verus! {

/// Tracks a student's approved funding and how much has been streamed so far.
///
/// `amount_claimed` starts at zero and increments with each partial
/// withdrawal, allowing the contract to enforce the invariant
/// `amount_claimed + new_claim <= approved_amount`; a withdrawal must also
/// stay within what the pool has collected.
#[derive(Clone, Copy, Debug, PartialEq, Eq, Structural)]
pub struct Application {
    /// The total amount the student is approved to receive from this pool.
    pub approved_amount: i128,
    /// Running total of funds already disbursed to the student.
    pub amount_claimed: i128,
}

/// The stored state of one pool: who created it, its funding goal, how much
/// it has collected net of fees, and whether it still accepts donations.
pub struct PoolRecord<A> {
    pub creator: A,
    pub goal: u128,
    pub collected: u128,
    pub closed: bool,
}

/// Why a call of the contract is refused.
#[derive(Clone, Copy, Debug, PartialEq, Eq, Structural)]
pub enum ContractError {
    /// No pool is stored under the given id.
    PoolNotFound,
    /// The pool has been closed and takes no more donations.
    PoolClosed,
    /// A claim of zero or less was asked for.
    ClaimAmountNotPositive,
    /// No application status has been set for the student in the pool.
    StatusNotFound,
    /// The student's application status is not "Approved".
    NotApproved,
    /// The claim would take the student's total past what the pool collected.
    Overdraw,
    /// A counter or a running total would leave the range of its type.
    ArithmeticOverflow,
}

impl ContractError {
    /// The text with which the contract aborts on this error.
    pub fn message(&self) -> (r: &'static str)
        ensures
            r@ == self.message_text(),
    {
        match self {
            ContractError::PoolNotFound => "Pool not found",
            ContractError::PoolClosed => "Pool is closed",
            ContractError::ClaimAmountNotPositive => "Claim amount must be positive",
            ContractError::StatusNotFound => "Application status not found",
            ContractError::NotApproved => "Application is not approved",
            ContractError::Overdraw => "Overdraw attempt",
            ContractError::ArithmeticOverflow => "attempt to add with overflow",
        }
    }

    pub open spec fn message_text(&self) -> Seq<char> {
        match self {
            ContractError::PoolNotFound => "Pool not found"@,
            ContractError::PoolClosed => "Pool is closed"@,
            ContractError::ClaimAmountNotPositive => "Claim amount must be positive"@,
            ContractError::StatusNotFound => "Application status not found"@,
            ContractError::NotApproved => "Application is not approved"@,
            ContractError::Overdraw => "Overdraw attempt"@,
            ContractError::ArithmeticOverflow => "attempt to add with overflow"@,
        }
    }
}

/// What a stored counter reads as: nothing stored counts as zero.
pub open spec fn stored_or_zero(stored: Option<u32>) -> int {
    match stored {
        Some(n) => n as int,
        None => 0,
    }
}

/// The value of a `u128` amount reinterpreted as an `i128`, as a cast
/// between the two types gives it: amounts above `i128::MAX` wrap around to
/// negative values.
pub open spec fn wrap_to_i128(amount: u128) -> int {
    if amount <= i128::MAX {
        amount as int
    } else {
        amount - 0x1_0000_0000_0000_0000_0000_0000_0000_0000int
    }
}

} // verus!
