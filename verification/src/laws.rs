use vstd::prelude::*;

use crate::contract::{
    claim_outcome, close_pool_outcome, create_pool_outcome, donate_outcome, donation_fee,
    donation_net, fresh_pool, get_pool_outcome,
};
use crate::records::{stored_or_zero, wrap_to_i128, Application, ContractError, PoolRecord};
use crate::ledger::{
    claimed_total, claims_within_collected, first_claim_collected, fresh_ledger, ledger_run,
    lemma_run_application_record, lemma_run_keeps_claims_within_collected,
    lemma_run_keeps_closed_pool, lemma_run_keeps_pool_numbering, lemma_run_keeps_status,
    pools_created, record_matches_claims, writes_status, LedgerCall,
};
use crate::text::approved_status;

verus! {

/// A new pool takes the id after the current number of pools, that id is the
/// new number of pools, and reading the pool back under its id gives its
/// creator and goal, nothing collected, and open.
pub proof fn law_new_pool_reads_back<A>(pool_count: Option<u32>, creator: A, goal: u128)
    requires
        stored_or_zero(pool_count) < u32::MAX,
    ensures
        create_pool_outcome(pool_count, creator, goal) matches Ok((id, pool)) && id
            == stored_or_zero(pool_count) + 1 && stored_or_zero(Some(id)) == id && get_pool_outcome(
            id,
            Some(pool),
        ) == Ok::<(u32, A, u128, u128, bool), ContractError>((id, creator, goal, 0u128, false)),
{
}

/// Pools are numbered in sequence: creating two pools one after the other
/// gives them consecutive ids.
pub proof fn law_pools_numbered_in_sequence<A>(
    pool_count: Option<u32>,
    creator1: A,
    goal1: u128,
    creator2: A,
    goal2: u128,
)
    requires
        stored_or_zero(pool_count) + 2 <= u32::MAX,
    ensures
        ({
            let first = create_pool_outcome(pool_count, creator1, goal1);
            let second = create_pool_outcome(Some(first->Ok_0.0), creator2, goal2);
            &&& first is Ok
            &&& second is Ok
            &&& first->Ok_0.0 == stored_or_zero(pool_count) + 1
            &&& second->Ok_0.0 == first->Ok_0.0 + 1
        }),
{
}

/// The fee kept from a donation and the amount credited to the pool add up
/// to the donation, and the fee is one percent of it, rounded down.
pub proof fn law_donation_splits_amount(amount: u128)
    ensures
        donation_fee(amount) + donation_net(amount) == amount,
        0 <= donation_fee(amount) * 100 <= amount < (donation_fee(amount) + 1) * 100,
        0 <= donation_net(amount) <= amount,
{
}

/// Donations accumulate: two donations in a row credit the pool with both
/// donations net of their fees, add both fees to the unclaimed fees, count
/// two more donations, and leave the creator, goal and open state as they
/// were.
pub proof fn law_donations_accumulate<A>(
    pool: PoolRecord<A>,
    donor_count: Option<u32>,
    unclaimed_fees: Option<u128>,
    amount1: u128,
    amount2: u128,
)
    requires
        donate_outcome(Some(pool), donor_count, unclaimed_fees, amount1) is Ok,
        ({
            let d1 = donate_outcome(Some(pool), donor_count, unclaimed_fees, amount1)->Ok_0;
            donate_outcome(Some(d1.pool), Some(d1.donor_count), Some(d1.unclaimed_fees), amount2) is Ok
        }),
    ensures
        ({
            let d1 = donate_outcome(Some(pool), donor_count, unclaimed_fees, amount1)->Ok_0;
            let d2 = donate_outcome(
                Some(d1.pool),
                Some(d1.donor_count),
                Some(d1.unclaimed_fees),
                amount2,
            )->Ok_0;
            let fees: int = match unclaimed_fees {
                Some(f) => f as int,
                None => 0,
            };
            &&& d2.pool.collected == pool.collected + donation_net(amount1) + donation_net(amount2)
            &&& d2.unclaimed_fees == fees + donation_fee(amount1) + donation_fee(amount2)
            &&& d2.donor_count == stored_or_zero(donor_count) + 2
            &&& d2.pool.creator == pool.creator
            &&& d2.pool.goal == pool.goal
            &&& !d2.pool.closed
        }),
{
}

/// A closed pool refuses donations: once a pool is closed, any donation to it
/// is refused as going to a closed pool.
pub proof fn law_closed_pool_refuses_donations<A>(
    pool: Option<PoolRecord<A>>,
    donor_count: Option<u32>,
    unclaimed_fees: Option<u128>,
    amount: u128,
)
    requires
        pool is Some,
    ensures
        close_pool_outcome(pool) is Ok,
        donate_outcome(Some(close_pool_outcome(pool)->Ok_0), donor_count, unclaimed_fees, amount)
            == Err::<crate::contract::Donation<A>, ContractError>(ContractError::PoolClosed),
{
}

/// Closing a pool changes nothing but its closed flag, and closing it again
/// changes nothing at all.
pub proof fn law_close_pool_idempotent<A>(pool: PoolRecord<A>)
    ensures
        ({
            let closed = close_pool_outcome(Some(pool))->Ok_0;
            &&& close_pool_outcome(Some(pool)) is Ok
            &&& closed.creator == pool.creator
            &&& closed.goal == pool.goal
            &&& closed.collected == pool.collected
            &&& closed.closed
            &&& close_pool_outcome(Some(closed)) == Ok::<PoolRecord<A>, ContractError>(closed)
        }),
{
}

/// A granted claim adds exactly the claimed amount to the student's running
/// total, keeps the approved amount, and never takes the running total past
/// what the pool has collected or past the approved amount: the invariant
/// `amount_claimed + new_claim <= approved_amount` holds of every claim that
/// is granted.
pub proof fn law_claim_stays_within_collected<A>(
    status: Option<Seq<u8>>,
    pool: PoolRecord<A>,
    application: Option<Application>,
    claim_amount: i128,
)
    requires
        claim_outcome(status, Some(pool), application, claim_amount) is Ok,
    ensures
        ({
            let before = match application {
                Some(a) => a,
                None => Application {
                    approved_amount: wrap_to_i128(pool.collected) as i128,
                    amount_claimed: 0,
                },
            };
            let after = claim_outcome(status, Some(pool), application, claim_amount)->Ok_0;
            &&& status == Some(approved_status())
            &&& claim_amount > 0
            &&& after.amount_claimed == before.amount_claimed + claim_amount
            &&& after.approved_amount == before.approved_amount
            &&& after.amount_claimed <= wrap_to_i128(pool.collected)
            &&& after.amount_claimed <= after.approved_amount
        }),
{
}

/// Claims accumulate: two granted claims in a row raise the student's
/// running total by both amounts; from no record at all, the running total
/// is then the sum of the two claims.
pub proof fn law_claims_accumulate<A>(
    status: Option<Seq<u8>>,
    pool: PoolRecord<A>,
    application: Option<Application>,
    amount1: i128,
    amount2: i128,
)
    requires
        claim_outcome(status, Some(pool), application, amount1) is Ok,
        claim_outcome(
            status,
            Some(pool),
            Some(claim_outcome(status, Some(pool), application, amount1)->Ok_0),
            amount2,
        ) is Ok,
    ensures
        ({
            let first = claim_outcome(status, Some(pool), application, amount1)->Ok_0;
            let second = claim_outcome(status, Some(pool), Some(first), amount2)->Ok_0;
            let before: int = match application {
                Some(a) => a.amount_claimed as int,
                None => 0,
            };
            &&& second.amount_claimed == before + amount1 + amount2
            &&& second.approved_amount == first.approved_amount
            &&& application is None ==> second.amount_claimed == amount1 + amount2
        }),
{
}

/// Donations never put an earlier claim in overdraw: if a student's running
/// total is within what the pool has collected, it stays within it after a
/// donation, as long as the collected amount stays within `i128::MAX`.
pub proof fn law_donation_keeps_claims_within_collected<A>(
    pool: PoolRecord<A>,
    donor_count: Option<u32>,
    unclaimed_fees: Option<u128>,
    amount: u128,
    application: Application,
)
    requires
        application.amount_claimed <= wrap_to_i128(pool.collected),
        donate_outcome(Some(pool), donor_count, unclaimed_fees, amount) is Ok,
        donate_outcome(Some(pool), donor_count, unclaimed_fees, amount)->Ok_0.pool.collected
            <= i128::MAX,
    ensures
        application.amount_claimed <= wrap_to_i128(
            donate_outcome(Some(pool), donor_count, unclaimed_fees, amount)->Ok_0.pool.collected,
        ),
{
}

/// A claim is refused while the student's status is anything but
/// "Approved", whatever the pool and the amount.
pub proof fn law_only_approved_students_claim<A>(
    status: Seq<u8>,
    pool: Option<PoolRecord<A>>,
    application: Option<Application>,
    claim_amount: i128,
)
    requires
        status != approved_status(),
    ensures
        claim_outcome(Some(status), pool, application, claim_amount) is Err,
{
}

/// Over any calls from a freshly deployed contract, a pool reads back under
/// an id exactly when the id lies between 1 and the pool count; any other id
/// is refused as not found.
pub proof fn law_pool_ids_read_back_up_to_count<A, S>(calls: Seq<LedgerCall<A, S>>, pool_id: u32)
    ensures
        ({
            let l = ledger_run(fresh_ledger(), calls);
            &&& get_pool_outcome(pool_id, l.pools.get(pool_id)) is Ok <==> 1 <= pool_id
                <= stored_or_zero(l.pool_count)
            &&& !(1 <= pool_id <= stored_or_zero(l.pool_count)) ==> get_pool_outcome(
                pool_id,
                l.pools.get(pool_id),
            ) == Err::<(u32, A, u128, u128, bool), ContractError>(ContractError::PoolNotFound)
        }),
{
    lemma_run_keeps_pool_numbering(fresh_ledger::<A, S>(), calls);
    let l = ledger_run(fresh_ledger::<A, S>(), calls);
    assert(l.pools.dom().contains(pool_id) <==> 1 <= pool_id <= stored_or_zero(l.pool_count));
}

/// Over any calls from a freshly deployed contract, the pool count is the
/// number of pool creations that returned normally; no other call changes it.
pub proof fn law_pool_count_counts_creations<A, S>(calls: Seq<LedgerCall<A, S>>)
    ensures
        stored_or_zero(ledger_run(fresh_ledger(), calls).pool_count) == pools_created(
            fresh_ledger(),
            calls,
        ),
{
    lemma_run_keeps_pool_numbering(fresh_ledger::<A, S>(), calls);
}

/// Over any calls from a freshly deployed contract, a student's application
/// record in a pool is absent exactly when no claim of the student's on the
/// pool was granted; otherwise it is approved for what the pool had
/// collected at the first granted claim, its running total (the claimed
/// amount that reads back) is the sum of the granted claims, and that total
/// never exceeds the approved amount.
pub proof fn law_application_record_sums_claims<A, S>(
    calls: Seq<LedgerCall<A, S>>,
    pool_id: u32,
    student: S,
)
    ensures
        ({
            let record = ledger_run(fresh_ledger(), calls).applications.get((pool_id, student));
            let claimed: int = match record {
                Some(a) => a.amount_claimed as int,
                None => 0,
            };
            &&& record_matches_claims(
                record,
                first_claim_collected(fresh_ledger(), calls, pool_id, student),
                claimed_total(fresh_ledger(), calls, pool_id, student),
            )
            &&& record is None <==> first_claim_collected(
                fresh_ledger(),
                calls,
                pool_id,
                student,
            ) is None
            &&& claimed == claimed_total(fresh_ledger(), calls, pool_id, student)
        }),
{
    lemma_run_application_record(calls, pool_id, student);
}

/// Over any calls from a freshly deployed contract, every stored application
/// record has claimed no more than it is approved for.
pub proof fn law_stored_claims_within_approved<A, S>(calls: Seq<LedgerCall<A, S>>)
    ensures
        forall|key: (u32, S)| #[trigger]
            ledger_run(fresh_ledger(), calls).applications.dom().contains(key) ==> ledger_run(
                fresh_ledger(),
                calls,
            ).applications[key].amount_claimed <= ledger_run(
                fresh_ledger(),
                calls,
            ).applications[key].approved_amount,
{
    assert forall|key: (u32, S)| #[trigger]
        ledger_run(fresh_ledger(), calls).applications.dom().contains(key) implies ledger_run(
            fresh_ledger(),
            calls,
        ).applications[key].amount_claimed <= ledger_run(
            fresh_ledger(),
            calls,
        ).applications[key].approved_amount by {
        lemma_run_application_record(calls, key.0, key.1);
        assert(ledger_run(fresh_ledger::<A, S>(), calls).applications.get(key) == Some(
            ledger_run(fresh_ledger::<A, S>(), calls).applications[key],
        ));
    }
}

/// A closed pool stays closed: once the calls `before` from a freshly
/// deployed contract have closed pool `pool_id`, no later calls change its
/// record (it stays closed, with the same creator, goal and collected
/// amount), and every later donation to it is refused as going to a closed
/// pool.
pub proof fn law_closed_pool_stays_closed<A, S>(
    before: Seq<LedgerCall<A, S>>,
    after: Seq<LedgerCall<A, S>>,
    pool_id: u32,
)
    requires
        ledger_run(fresh_ledger(), before).pools.dom().contains(pool_id),
        ledger_run(fresh_ledger(), before).pools[pool_id].closed,
    ensures
        ({
            let closed = ledger_run(fresh_ledger(), before);
            let later = ledger_run(closed, after);
            &&& later.pools.get(pool_id) == closed.pools.get(pool_id)
            &&& later.pools[pool_id].closed
            &&& later.pools[pool_id].collected == closed.pools[pool_id].collected
            &&& forall|donor_count: Option<u32>, unclaimed_fees: Option<u128>, amount: u128|
                #[trigger] donate_outcome(later.pools.get(pool_id), donor_count, unclaimed_fees, amount)
                    == Err::<crate::contract::Donation<A>, ContractError>(ContractError::PoolClosed)
        }),
{
    let closed = ledger_run(fresh_ledger::<A, S>(), before);
    lemma_run_keeps_pool_numbering(fresh_ledger::<A, S>(), before);
    lemma_run_keeps_closed_pool(closed, after, pool_id);
    let later = ledger_run(closed, after);
    assert(later.pools.get(pool_id) == Some(later.pools[pool_id]));
    assert(closed.pools.get(pool_id) == Some(closed.pools[pool_id]));
}

/// The last status written wins: after a student's status in a pool is set,
/// later calls that do not set that same student's status in that pool leave
/// it reading back as written.
pub proof fn law_status_reads_back_last_write<A, S>(
    before: Seq<LedgerCall<A, S>>,
    pool_id: u32,
    student: S,
    status: Seq<u8>,
    after: Seq<LedgerCall<A, S>>,
)
    requires
        forall|i: int| 0 <= i < after.len() ==> !writes_status(#[trigger] after[i], pool_id, student),
    ensures
        ledger_run(
            ledger_run(
                fresh_ledger(),
                before.push(LedgerCall::SetApplicationStatus { pool_id, student, status }),
            ),
            after,
        ).statuses.get((pool_id, student)) == Some(status),
{
    let written = ledger_run(
        fresh_ledger::<A, S>(),
        before.push(LedgerCall::SetApplicationStatus { pool_id, student, status }),
    );
    assert(before.push(LedgerCall::SetApplicationStatus { pool_id, student, status }).drop_last()
        == before);
    assert(written.statuses.get((pool_id, student)) == Some(status));
    lemma_run_keeps_status(written, after, pool_id, student);
}

/// Over any calls from a freshly deployed contract, no student has drawn
/// more than the pool has collected: every stored running total is positive
/// and within its pool's current collected amount, as long as that amount is
/// at most `i128::MAX` (above it, the amount reads as negative and claims
/// are refused).
pub proof fn law_claims_stay_within_collected_over_calls<A, S>(calls: Seq<LedgerCall<A, S>>)
    ensures
        claims_within_collected(ledger_run(fresh_ledger(), calls)),
{
    lemma_run_keeps_claims_within_collected(fresh_ledger::<A, S>(), calls);
}

/// Reading a pool gives back the stored record as it is: its id, creator,
/// goal, collected amount and closed flag, whatever the goal and the
/// collected amount are.
pub proof fn law_get_pool_reads_back_stored_record<A>(pool_id: u32, pool: PoolRecord<A>)
    ensures
        get_pool_outcome(pool_id, Some(pool)) == Ok::<(u32, A, u128, u128, bool), ContractError>(
            (pool_id, pool.creator, pool.goal, pool.collected, pool.closed),
        ),
        get_pool_outcome::<A>(pool_id, None) == Err::<(u32, A, u128, u128, bool), ContractError>(
            ContractError::PoolNotFound,
        ),
{
}

/// After a granted donation, the pool reads back open, with its goal and
/// creator as before and its collected amount raised by the donation less
/// one percent (rounded down), however far the collected amount has passed
/// the goal.
pub proof fn law_donated_pool_reads_back_open<A>(
    pool_id: u32,
    pool: PoolRecord<A>,
    donor_count: Option<u32>,
    unclaimed_fees: Option<u128>,
    amount: u128,
)
    requires
        donate_outcome(Some(pool), donor_count, unclaimed_fees, amount) is Ok,
    ensures
        get_pool_outcome(
            pool_id,
            Some(donate_outcome(Some(pool), donor_count, unclaimed_fees, amount)->Ok_0.pool),
        ) == Ok::<(u32, A, u128, u128, bool), ContractError>(
            (
                pool_id,
                pool.creator,
                pool.goal,
                (pool.collected + amount - amount as int / 100) as u128,
                false,
            ),
        ),
{
}

/// Closing a pool leaves what reading it gives unchanged but for the closed
/// flag: the same creator, goal and collected amount, now closed. A missing
/// pool cannot be closed.
pub proof fn law_closed_pool_reads_back_its_collected_amount<A>(pool_id: u32, pool: PoolRecord<A>)
    ensures
        close_pool_outcome(Some(pool)) is Ok,
        get_pool_outcome(pool_id, Some(close_pool_outcome(Some(pool))->Ok_0)) == Ok::<
            (u32, A, u128, u128, bool),
            ContractError,
        >((pool_id, pool.creator, pool.goal, pool.collected, true)),
        close_pool_outcome::<A>(None) == Err::<PoolRecord<A>, ContractError>(
            ContractError::PoolNotFound,
        ),
{
}

/// An open pool accepts every donation whose totals fit their types, whatever
/// its goal and collected amount: the pool is credited with the donation less
/// one percent (rounded down), the fee is added to the unclaimed fees, and
/// the donation counter goes up by one. A missing pool is not found and a
/// closed one refuses; nothing else refuses a donation.
pub proof fn law_open_pool_accepts_fitting_donations<A>(
    pool: PoolRecord<A>,
    donor_count: Option<u32>,
    unclaimed_fees: Option<u128>,
    amount: u128,
)
    ensures
        ({
            let fee: int = amount as int / 100;
            let fees: int = match unclaimed_fees {
                Some(f) => f as int,
                None => 0,
            };
            let count: int = match donor_count {
                Some(n) => n as int,
                None => 0,
            };
            let fits = pool.collected + (amount - fee) <= u128::MAX && fees + fee <= u128::MAX
                && count + 1 <= u32::MAX;
            let r = donate_outcome(Some(pool), donor_count, unclaimed_fees, amount);
            &&& pool.closed ==> r == Err::<crate::contract::Donation<A>, ContractError>(
                ContractError::PoolClosed,
            )
            &&& !pool.closed && !fits ==> r == Err::<crate::contract::Donation<A>, ContractError>(
                ContractError::ArithmeticOverflow,
            )
            &&& !pool.closed && fits ==> {
                &&& r is Ok
                &&& r->Ok_0.pool.creator == pool.creator
                &&& r->Ok_0.pool.goal == pool.goal
                &&& r->Ok_0.pool.collected == pool.collected + amount - fee
                &&& !r->Ok_0.pool.closed
                &&& r->Ok_0.fee == fee
                &&& r->Ok_0.unclaimed_fees == fees + fee
                &&& r->Ok_0.donor_count == count + 1
            }
        }),
        donate_outcome::<A>(None, donor_count, unclaimed_fees, amount) == Err::<
            crate::contract::Donation<A>,
            ContractError,
        >(ContractError::PoolNotFound),
{
}

/// A claim by an approved student on an existing pool is granted whenever it
/// fits: when it is positive and the running total with it stays within both
/// what the pool has collected (as an `i128`) and what the student is
/// approved for, the running total is raised by exactly the claim. A first
/// claim starts from a record approved for the collected amount with nothing
/// claimed.
pub proof fn law_fitting_claim_is_granted<A>(
    pool: PoolRecord<A>,
    application: Option<Application>,
    claim_amount: i128,
)
    requires
        claim_amount > 0,
        ({
            let a = match application {
                Some(a) => a,
                None => Application {
                    approved_amount: wrap_to_i128(pool.collected) as i128,
                    amount_claimed: 0,
                },
            };
            &&& a.amount_claimed + claim_amount <= wrap_to_i128(pool.collected)
            &&& a.amount_claimed + claim_amount <= a.approved_amount
        }),
    ensures
        ({
            let a = match application {
                Some(a) => a,
                None => Application {
                    approved_amount: wrap_to_i128(pool.collected) as i128,
                    amount_claimed: 0,
                },
            };
            claim_outcome(Some(approved_status()), Some(pool), application, claim_amount) == Ok::<
                Application,
                ContractError,
            >(
                Application {
                    approved_amount: a.approved_amount,
                    amount_claimed: (a.amount_claimed + claim_amount) as i128,
                },
            )
        }),
{
}

/// A claim by an approved student on an existing pool is refused as an
/// overdraw exactly when the running total with it would pass what the pool
/// has collected (as an `i128`) or what the student is approved for.
pub proof fn law_claim_overdraw_exactly_past_a_limit<A>(
    pool: PoolRecord<A>,
    application: Option<Application>,
    claim_amount: i128,
)
    requires
        claim_amount > 0,
    ensures
        ({
            let a = match application {
                Some(a) => a,
                None => Application {
                    approved_amount: wrap_to_i128(pool.collected) as i128,
                    amount_claimed: 0,
                },
            };
            let total = a.amount_claimed + claim_amount;
            let r = claim_outcome(Some(approved_status()), Some(pool), application, claim_amount);
            &&& r is Ok || r == Err::<Application, ContractError>(ContractError::Overdraw)
            &&& (r == Err::<Application, ContractError>(ContractError::Overdraw)) <==> (total
                > wrap_to_i128(pool.collected) || total > a.approved_amount)
        }),
{
}

/// A claim's outcome does not depend on whether the pool is closed: closing
/// a pool stops donations, not the drawing down of what it collected.
pub proof fn law_claim_ignores_closed_flag<A>(
    status: Option<Seq<u8>>,
    pool: PoolRecord<A>,
    application: Option<Application>,
    claim_amount: i128,
)
    ensures
        claim_outcome(status, Some(pool), application, claim_amount) == claim_outcome(
            status,
            Some(
                PoolRecord {
                    creator: pool.creator,
                    goal: pool.goal,
                    collected: pool.collected,
                    closed: !pool.closed,
                },
            ),
            application,
            claim_amount,
        ),
{
}

/// Claims are refused, before anything else is looked at, when not
/// positive; then when no status is set; then when the status is not
/// "Approved"; then when the pool does not exist.
pub proof fn law_claim_refusals_in_order<A>(
    status: Option<Seq<u8>>,
    pool: Option<PoolRecord<A>>,
    application: Option<Application>,
    claim_amount: i128,
)
    ensures
        claim_amount <= 0 ==> claim_outcome(status, pool, application, claim_amount) == Err::<
            Application,
            ContractError,
        >(ContractError::ClaimAmountNotPositive),
        claim_amount > 0 && status is None ==> claim_outcome(status, pool, application, claim_amount)
            == Err::<Application, ContractError>(ContractError::StatusNotFound),
        claim_amount > 0 && status is Some && status->Some_0 != seq![65u8, 112u8, 112u8, 114u8, 111u8, 118u8, 101u8, 100u8]
            ==> claim_outcome(status, pool, application, claim_amount) == Err::<
            Application,
            ContractError,
        >(ContractError::NotApproved),
        claim_amount > 0 && status == Some(seq![65u8, 112u8, 112u8, 114u8, 111u8, 118u8, 101u8, 100u8]) && pool is None
            ==> claim_outcome(status, pool, application, claim_amount) == Err::<
            Application,
            ContractError,
        >(ContractError::PoolNotFound),
{
}

/// Creating a pool when the pool counter is at its limit is refused as an
/// overflow; otherwise the new pool takes the next id and starts open with
/// nothing collected.
pub proof fn law_create_pool_takes_next_id<A>(pool_count: Option<u32>, creator: A, goal: u128)
    ensures
        ({
            let count: int = match pool_count {
                Some(n) => n as int,
                None => 0,
            };
            let r = create_pool_outcome(pool_count, creator, goal);
            &&& count == u32::MAX ==> r == Err::<(u32, PoolRecord<A>), ContractError>(
                ContractError::ArithmeticOverflow,
            )
            &&& count < u32::MAX ==> r == Ok::<(u32, PoolRecord<A>), ContractError>(
                ((count + 1) as u32, PoolRecord { creator, goal, collected: 0, closed: false }),
            )
        }),
{
}

/// Reinterpreting a `u128` amount as an `i128` keeps its low 128 bits: the
/// result is the `i128` that differs from the amount by a multiple of
/// 2^128, which is the amount itself up to `i128::MAX`.
pub proof fn law_wrap_keeps_low_bits(amount: u128)
    ensures
        i128::MIN <= wrap_to_i128(amount) <= i128::MAX,
        (amount - wrap_to_i128(amount)) % 0x1_0000_0000_0000_0000_0000_0000_0000_0000int == 0,
        amount <= i128::MAX ==> wrap_to_i128(amount) == amount,
{
}

} // verus!
