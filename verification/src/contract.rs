use vstd::prelude::*;

use crate::records::{stored_or_zero, wrap_to_i128, Application, ContractError, PoolRecord};
use crate::text::{approved_status, is_approved};

verus! {

/// The share of a donation that the protocol keeps as a fee: one percent,
/// rounded down.
pub open spec fn donation_fee(amount: u128) -> int {
    amount as int / 100
}

/// What the pool is credited with from a donation: the donation less its fee.
pub open spec fn donation_net(amount: u128) -> int {
    amount - donation_fee(amount)
}

/// A pool as `create_pool` stores it: nothing collected yet and open.
pub open spec fn fresh_pool<A>(creator: A, goal: u128) -> PoolRecord<A> {
    PoolRecord { creator, goal, collected: 0, closed: false }
}

/// The outcome of creating a pool when `pool_count` is what the ledger holds
/// as the number of pools: the new pool takes the next id, which is also the
/// new number of pools.
pub open spec fn create_pool_outcome<A>(pool_count: Option<u32>, creator: A, goal: u128) -> Result<
    (u32, PoolRecord<A>),
    ContractError,
> {
    if stored_or_zero(pool_count) + 1 > u32::MAX {
        Err(ContractError::ArithmeticOverflow)
    } else {
        Ok(((stored_or_zero(pool_count) + 1) as u32, fresh_pool(creator, goal)))
    }
}

/// What a donation writes back to the ledger.
pub struct Donation<A> {
    /// The pool, credited with the donation net of its fee.
    pub pool: PoolRecord<A>,
    /// The pool's number of donations, this one included.
    pub donor_count: u32,
    /// The protocol fees collected and not yet claimed, this fee included.
    pub unclaimed_fees: u128,
    /// The fee kept from this donation.
    pub fee: u128,
}

/// The outcome of donating `amount` to the pool `pool`, given the pool's
/// donation counter and the protocol's unclaimed fees as the ledger holds
/// them.
pub open spec fn donate_outcome<A>(
    pool: Option<PoolRecord<A>>,
    donor_count: Option<u32>,
    unclaimed_fees: Option<u128>,
    amount: u128,
) -> Result<Donation<A>, ContractError> {
    let fees: int = match unclaimed_fees {
        Some(f) => f as int,
        None => 0,
    };
    match pool {
        None => Err(ContractError::PoolNotFound),
        Some(p) => if p.closed {
            Err(ContractError::PoolClosed)
        } else if p.collected + donation_net(amount) > u128::MAX || fees + donation_fee(amount)
            > u128::MAX || stored_or_zero(donor_count) + 1 > u32::MAX {
            Err(ContractError::ArithmeticOverflow)
        } else {
            Ok(
                Donation {
                    pool: PoolRecord {
                        creator: p.creator,
                        goal: p.goal,
                        collected: (p.collected + donation_net(amount)) as u128,
                        closed: false,
                    },
                    donor_count: (stored_or_zero(donor_count) + 1) as u32,
                    unclaimed_fees: (fees + donation_fee(amount)) as u128,
                    fee: donation_fee(amount) as u128,
                },
            )
        },
    }
}

/// The outcome of reading pool `pool_id`, stored as `pool`: its id,
/// creator, goal, collected amount and whether it is closed.
pub open spec fn get_pool_outcome<A>(pool_id: u32, pool: Option<PoolRecord<A>>) -> Result<
    (u32, A, u128, u128, bool),
    ContractError,
> {
    match pool {
        None => Err(ContractError::PoolNotFound),
        Some(p) => Ok((pool_id, p.creator, p.goal, p.collected, p.closed)),
    }
}

/// The outcome of closing the pool stored as `pool`: the same pool, closed.
pub open spec fn close_pool_outcome<A>(pool: Option<PoolRecord<A>>) -> Result<
    PoolRecord<A>,
    ContractError,
> {
    match pool {
        None => Err(ContractError::PoolNotFound),
        Some(p) => Ok(
            PoolRecord { creator: p.creator, goal: p.goal, collected: p.collected, closed: true },
        ),
    }
}

/// The application record that a first claim starts from: approved for what
/// the pool has collected, nothing claimed yet.
pub open spec fn first_application(collected: u128) -> Application {
    Application { approved_amount: wrap_to_i128(collected) as i128, amount_claimed: 0 }
}

/// The most a student's running total may reach: what the pool has
/// collected, and no more than the student is approved for.
pub open spec fn claim_limit(collected: u128, application: Application) -> int {
    if wrap_to_i128(collected) <= application.approved_amount {
        wrap_to_i128(collected)
    } else {
        application.approved_amount as int
    }
}

/// The outcome of a student's claim of `claim_amount` from a pool, given the
/// student's status text, the pool and the student's application record as
/// the ledger holds them: the application record to store, with the claim
/// added to its running total.
pub open spec fn claim_outcome<A>(
    status: Option<Seq<u8>>,
    pool: Option<PoolRecord<A>>,
    application: Option<Application>,
    claim_amount: i128,
) -> Result<Application, ContractError> {
    if claim_amount <= 0 {
        Err(ContractError::ClaimAmountNotPositive)
    } else {
        match status {
            None => Err(ContractError::StatusNotFound),
            Some(s) => if s != approved_status() {
                Err(ContractError::NotApproved)
            } else {
                match pool {
                    None => Err(ContractError::PoolNotFound),
                    Some(p) => {
                        let app = match application {
                            Some(a) => a,
                            None => first_application(p.collected),
                        };
                        let total = app.amount_claimed + claim_amount;
                        if total > claim_limit(p.collected, app) {
                            Err(ContractError::Overdraw)
                        } else {
                            Ok(
                                Application {
                                    approved_amount: app.approved_amount,
                                    amount_claimed: total as i128,
                                },
                            )
                        }
                    },
                }
            },
        }
    }
}

/// The view of a stored status text, if any.
pub open spec fn status_view(status: Option<Vec<u8>>) -> Option<Seq<u8>> {
    match status {
        Some(s) => Some(s@),
        None => None,
    }
}

/// The donation and scholarship pool contract.
pub struct Contract;

impl Contract {
    /// Create a new donation / sponsorship pool.
    ///
    /// `pool_count` is the number of pools the ledger holds, if it holds one.
    /// Returns the new pool's id, which is also the new number of pools, and
    /// the pool record to store under that id.
    pub fn create_pool<A>(pool_count: Option<u32>, creator: A, goal: u128) -> (r: Result<
        (u32, PoolRecord<A>),
        ContractError,
    >)
        ensures
            r == create_pool_outcome(pool_count, creator, goal),
    {
        let count: u32 = match pool_count {
            Some(n) => n,
            None => 0,
        };
        if count == u32::MAX {
            return Err(ContractError::ArithmeticOverflow);
        }
        let pool_id: u32 = count + 1;
        Ok((pool_id, PoolRecord { creator, goal, collected: 0, closed: false }))
    }

    /// Donate `amount` to the pool stored as `pool`.
    ///
    /// One percent of the donation, rounded down, is kept as a protocol fee
    /// and added to the unclaimed fees; the rest is credited to the pool's
    /// collected amount, and the pool's donation counter goes up by one.
    /// A missing pool, a closed pool, or a total that would overflow its type
    /// refuses the donation.
    pub fn donate<A>(
        pool: Option<PoolRecord<A>>,
        donor_count: Option<u32>,
        unclaimed_fees: Option<u128>,
        amount: u128,
    ) -> (r: Result<Donation<A>, ContractError>)
        ensures
            r == donate_outcome(pool, donor_count, unclaimed_fees, amount),
    {
        let p = match pool {
            Some(p) => p,
            None => return Err(ContractError::PoolNotFound),
        };
        if p.closed {
            return Err(ContractError::PoolClosed);
        }
        let fee: u128 = amount / 100;
        let net: u128 = amount - fee;
        if p.collected > u128::MAX - net {
            return Err(ContractError::ArithmeticOverflow);
        }
        let fees: u128 = match unclaimed_fees {
            Some(f) => f,
            None => 0,
        };
        if fees > u128::MAX - fee {
            return Err(ContractError::ArithmeticOverflow);
        }
        let count: u32 = match donor_count {
            Some(n) => n,
            None => 0,
        };
        if count == u32::MAX {
            return Err(ContractError::ArithmeticOverflow);
        }
        Ok(
            Donation {
                pool: PoolRecord {
                    creator: p.creator,
                    goal: p.goal,
                    collected: p.collected + net,
                    closed: false,
                },
                donor_count: count + 1,
                unclaimed_fees: fees + fee,
                fee,
            },
        )
    }

    /// Get pool information as a tuple (id, creator, goal, collected,
    /// is_closed), from the pool stored under `pool_id`.
    pub fn get_pool<A>(pool_id: u32, pool: Option<PoolRecord<A>>) -> (r: Result<
        (u32, A, u128, u128, bool),
        ContractError,
    >)
        ensures
            r == get_pool_outcome(pool_id, pool),
    {
        match pool {
            Some(p) => Ok((pool_id, p.creator, p.goal, p.collected, p.closed)),
            None => Err(ContractError::PoolNotFound),
        }
    }

    /// Close the pool stored as `pool`: the record to store back is the same
    /// pool, closed. Closing is allowed to the pool's creator only, whose
    /// authorization the host checks; the returned record names that creator.
    pub fn close_pool<A>(pool: Option<PoolRecord<A>>) -> (r: Result<PoolRecord<A>, ContractError>)
        ensures
            r == close_pool_outcome(pool),
    {
        match pool {
            Some(p) => Ok(
                PoolRecord { creator: p.creator, goal: p.goal, collected: p.collected, closed: true },
            ),
            None => Err(ContractError::PoolNotFound),
        }
    }

    /// Get the total number of pools: what the ledger holds, or zero.
    pub fn get_pool_count(pool_count: Option<u32>) -> (r: u32)
        ensures
            r == stored_or_zero(pool_count),
    {
        match pool_count {
            Some(n) => n,
            None => 0,
        }
    }

    /// Get the application status of a student in a pool: the stored text,
    /// or the empty text where none has been set.
    pub fn get_application_status(status: Option<Vec<u8>>) -> (r: Vec<u8>)
        ensures
            r@ == match status {
                Some(s) => s@,
                None => Seq::<u8>::empty(),
            },
    {
        match status {
            Some(s) => s,
            None => Vec::new(),
        }
    }

    /// Get the amount a student has claimed from a pool: the running total
    /// of the student's application record, or zero before any claim.
    pub fn get_claimed_amount(application: Option<Application>) -> (r: i128)
        ensures
            r == match application {
                Some(a) => a.amount_claimed,
                None => 0,
            },
    {
        match application {
            Some(a) => a.amount_claimed,
            None => 0,
        }
    }

    /// Get the protocol fees collected from donations and not yet claimed:
    /// what the ledger holds, or zero. These rules only accumulate the fees;
    /// they have no call that pays them out.
    pub fn get_unclaimed_fees(unclaimed_fees: Option<u128>) -> (r: u128)
        ensures
            r == match unclaimed_fees {
                Some(f) => f,
                None => 0,
            },
    {
        match unclaimed_fees {
            Some(f) => f,
            None => 0,
        }
    }

    /// Claim funds: lets an approved student draw `claim_amount` from a pool,
    /// in part or in full, over as many calls as the pool's funds allow.
    ///
    /// `status` is the student's application status text, `pool` the pool and
    /// `application` the student's application record, as the ledger holds
    /// them. A first claim starts a record approved for what the pool has
    /// collected. Returns the record to store, its running total raised by
    /// the claim; the host then transfers `claim_amount` to the student.
    ///
    /// Refused, in this order, when the claim is not positive, when no status
    /// is set, when the status is not "Approved", when the pool does not
    /// exist, and, as an overdraw, when the running total would exceed what
    /// the pool has collected or what the student is approved for.
    pub fn claim_funds<A>(
        status: Option<Vec<u8>>,
        pool: &Option<PoolRecord<A>>,
        application: Option<Application>,
        claim_amount: i128,
    ) -> (r: Result<Application, ContractError>)
        ensures
            r == claim_outcome(status_view(status), *pool, application, claim_amount),
    {
        if claim_amount <= 0 {
            return Err(ContractError::ClaimAmountNotPositive);
        }
        let s = match status {
            Some(s) => s,
            None => return Err(ContractError::StatusNotFound),
        };
        if !is_approved(&s) {
            return Err(ContractError::NotApproved);
        }
        let collected_total: u128 = match pool {
            Some(p) => p.collected,
            None => return Err(ContractError::PoolNotFound),
        };
        let collected: i128 = wrapping_i128(collected_total);
        let app = match application {
            Some(a) => a,
            None => Application { approved_amount: collected, amount_claimed: 0 },
        };
        let limit: i128 = if collected <= app.approved_amount {
            collected
        } else {
            app.approved_amount
        };
        // A running total past `i128::MAX` is past any limit as well.
        if app.amount_claimed > i128::MAX - claim_amount {
            return Err(ContractError::Overdraw);
        }
        let total: i128 = app.amount_claimed + claim_amount;
        if total > limit {
            return Err(ContractError::Overdraw);
        }
        Ok(Application { approved_amount: app.approved_amount, amount_claimed: total })
    }
}

/// A `u128` amount reinterpreted as an `i128`, wrapping around above
/// `i128::MAX` as a cast between the two types does.
pub fn wrapping_i128(amount: u128) -> (r: i128)
    ensures
        r == wrap_to_i128(amount),
{
    if amount <= i128::MAX as u128 {
        amount as i128
    } else {
        let above: u128 = amount - (i128::MAX as u128) - 1;
        (above as i128) + i128::MIN
    }
}

} // verus!
