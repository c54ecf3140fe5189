use vstd::prelude::*;

use crate::contract::{claim_outcome, close_pool_outcome, create_pool_outcome, donate_outcome};
use crate::records::{Application, PoolRecord};

verus! {

/// What the contract's storage holds, as the records its calls read and
/// write: the pool counter, the pools by id, each pool's donation counter,
/// the unclaimed protocol fees, and per (pool id, student) the status text
/// and the application record. `A` stands for creators' accounts and `S`
/// for students'.
#[verifier::reject_recursive_types(S)]
pub struct LedgerModel<A, S> {
    pub pool_count: Option<u32>,
    pub pools: Map<u32, PoolRecord<A>>,
    pub donor_counts: Map<u32, u32>,
    pub unclaimed_fees: Option<u128>,
    pub statuses: Map<(u32, S), Seq<u8>>,
    pub applications: Map<(u32, S), Application>,
}

/// A call of the contract that writes to its storage. `authorized` says
/// whether the authorization that the call needs (the pool creator's for
/// closing, the student's for claiming) was given.
pub enum LedgerCall<A, S> {
    CreatePool { creator: A, goal: u128 },
    Donate { pool_id: u32, amount: u128 },
    ClosePool { pool_id: u32, authorized: bool },
    SetApplicationStatus { pool_id: u32, student: S, status: Seq<u8> },
    ClaimFunds { pool_id: u32, student: S, claim_amount: i128, authorized: bool },
}

/// The storage of a freshly deployed contract: nothing stored.
pub open spec fn fresh_ledger<A, S>() -> LedgerModel<A, S> {
    LedgerModel {
        pool_count: None,
        pools: Map::empty(),
        donor_counts: Map::empty(),
        unclaimed_fees: None,
        statuses: Map::empty(),
        applications: Map::empty(),
    }
}

/// One call on the ledger `l`: the storage afterwards, and whether the call
/// returned normally. A refused call changes nothing.
pub open spec fn ledger_step<A, S>(l: LedgerModel<A, S>, call: LedgerCall<A, S>) -> (
    LedgerModel<A, S>,
    bool,
) {
    match call {
        LedgerCall::CreatePool { creator, goal } => match create_pool_outcome(
            l.pool_count,
            creator,
            goal,
        ) {
            Ok((id, pool)) => (
                LedgerModel { pool_count: Some(id), pools: l.pools.insert(id, pool), ..l },
                true,
            ),
            Err(_) => (l, false),
        },
        LedgerCall::Donate { pool_id, amount } => match donate_outcome(
            l.pools.get(pool_id),
            l.donor_counts.get(pool_id),
            l.unclaimed_fees,
            amount,
        ) {
            Ok(d) => (
                LedgerModel {
                    pools: l.pools.insert(pool_id, d.pool),
                    donor_counts: l.donor_counts.insert(pool_id, d.donor_count),
                    unclaimed_fees: Some(d.unclaimed_fees),
                    ..l
                },
                true,
            ),
            Err(_) => (l, false),
        },
        LedgerCall::ClosePool { pool_id, authorized } => match close_pool_outcome(
            l.pools.get(pool_id),
        ) {
            Ok(pool) => if authorized {
                (LedgerModel { pools: l.pools.insert(pool_id, pool), ..l }, true)
            } else {
                (l, false)
            },
            Err(_) => (l, false),
        },
        LedgerCall::SetApplicationStatus { pool_id, student, status } => (
            LedgerModel { statuses: l.statuses.insert((pool_id, student), status), ..l },
            true,
        ),
        LedgerCall::ClaimFunds { pool_id, student, claim_amount, authorized } => if !authorized {
            (l, false)
        } else {
            match claim_outcome(
                l.statuses.get((pool_id, student)),
                l.pools.get(pool_id),
                l.applications.get((pool_id, student)),
                claim_amount,
            ) {
                Ok(a) => (
                    LedgerModel {
                        applications: l.applications.insert((pool_id, student), a),
                        ..l
                    },
                    true,
                ),
                Err(_) => (l, false),
            }
        },
    }
}

/// The storage after the calls `calls`, made in order, on the ledger `l`.
pub open spec fn ledger_run<A, S>(l: LedgerModel<A, S>, calls: Seq<LedgerCall<A, S>>) -> LedgerModel<
    A,
    S,
>
    decreases calls.len(),
{
    if calls.len() == 0 {
        l
    } else {
        ledger_step(ledger_run(l, calls.drop_last()), calls.last()).0
    }
}

/// Whether the last of `calls` returned normally, made after the others.
pub open spec fn last_call_returned<A, S>(
    l: LedgerModel<A, S>,
    calls: Seq<LedgerCall<A, S>>,
) -> bool
    recommends
        calls.len() > 0,
{
    ledger_step(ledger_run(l, calls.drop_last()), calls.last()).1
}

/// How many of `calls` are pool creations that returned normally.
pub open spec fn pools_created<A, S>(l: LedgerModel<A, S>, calls: Seq<LedgerCall<A, S>>) -> int
    decreases calls.len(),
{
    if calls.len() == 0 {
        0
    } else {
        pools_created(l, calls.drop_last()) + if calls.last() is CreatePool && last_call_returned(
            l,
            calls,
        ) {
            1int
        } else {
            0int
        }
    }
}

/// Whether the last of `calls` is a claim by `student` on pool `pool_id` that
/// was granted.
pub open spec fn last_call_is_granted_claim<A, S>(
    l: LedgerModel<A, S>,
    calls: Seq<LedgerCall<A, S>>,
    pool_id: u32,
    student: S,
) -> bool
    recommends
        calls.len() > 0,
{
    &&& calls.last() matches LedgerCall::ClaimFunds { pool_id: p, student: s, .. }
    &&& p == pool_id
    &&& s == student
    &&& last_call_returned(l, calls)
}

/// The sum of the amounts of the granted claims by `student` on pool
/// `pool_id` among `calls`.
pub open spec fn claimed_total<A, S>(
    l: LedgerModel<A, S>,
    calls: Seq<LedgerCall<A, S>>,
    pool_id: u32,
    student: S,
) -> int
    decreases calls.len(),
{
    if calls.len() == 0 {
        0
    } else {
        claimed_total(l, calls.drop_last(), pool_id, student) + if last_call_is_granted_claim(
            l,
            calls,
            pool_id,
            student,
        ) {
            calls.last()->ClaimFunds_claim_amount as int
        } else {
            0int
        }
    }
}

/// What the pool `pool_id` had collected, as an `i128`, when the first of
/// `calls` that is a granted claim by `student` on it was made; `None` when
/// there is no such claim.
pub open spec fn first_claim_collected<A, S>(
    l: LedgerModel<A, S>,
    calls: Seq<LedgerCall<A, S>>,
    pool_id: u32,
    student: S,
) -> Option<int>
    decreases calls.len(),
{
    if calls.len() == 0 {
        None
    } else {
        match first_claim_collected(l, calls.drop_last(), pool_id, student) {
            Some(c) => Some(c),
            None => if last_call_is_granted_claim(l, calls, pool_id, student) {
                Some(
                    crate::records::wrap_to_i128(
                        ledger_run(l, calls.drop_last()).pools[pool_id].collected,
                    ),
                )
            } else {
                None
            },
        }
    }
}

} // verus!

verus! {

/// The pools stored are exactly those numbered from 1 to the pool count.
pub open spec fn pools_numbered_up_to_count<A, S>(l: LedgerModel<A, S>) -> bool {
    forall|id: u32|
        #[trigger] l.pools.dom().contains(id) <==> 1 <= id <= crate::records::stored_or_zero(
            l.pool_count,
        )
}

/// One call keeps the pools numbered from 1 to the count, and raises the
/// count by one exactly when it is a pool creation that returns normally.
pub proof fn lemma_step_keeps_pool_numbering<A, S>(l: LedgerModel<A, S>, call: LedgerCall<A, S>)
    requires
        pools_numbered_up_to_count(l),
    ensures
        pools_numbered_up_to_count(ledger_step(l, call).0),
        crate::records::stored_or_zero(ledger_step(l, call).0.pool_count)
            == crate::records::stored_or_zero(l.pool_count) + if call is CreatePool
            && ledger_step(l, call).1 {
            1int
        } else {
            0int
        },
{
    let next = ledger_step(l, call).0;
    match call {
        LedgerCall::CreatePool { creator, goal } => {
            if ledger_step(l, call).1 {
                assert forall|id: u32|
                    #[trigger] next.pools.dom().contains(id) <==> 1 <= id
                        <= crate::records::stored_or_zero(next.pool_count) by {
                    if id != crate::records::stored_or_zero(next.pool_count) {
                        assert(next.pools.dom().contains(id) == l.pools.dom().contains(id));
                    }
                }
            }
        },
        LedgerCall::Donate { pool_id, amount } => {
            if ledger_step(l, call).1 {
                assert(l.pools.dom().contains(pool_id));
                assert forall|id: u32|
                    #[trigger] next.pools.dom().contains(id) <==> l.pools.dom().contains(id) by {}
            }
        },
        LedgerCall::ClosePool { pool_id, authorized } => {
            if ledger_step(l, call).1 {
                assert(l.pools.dom().contains(pool_id));
                assert forall|id: u32|
                    #[trigger] next.pools.dom().contains(id) <==> l.pools.dom().contains(id) by {}
            }
        },
        LedgerCall::SetApplicationStatus { .. } => {},
        LedgerCall::ClaimFunds { .. } => {},
    }
}

/// Over any calls from a ledger whose pools are numbered from 1 to its count,
/// the pools stay so numbered and the count grows by the number of pool
/// creations that returned normally.
pub proof fn lemma_run_keeps_pool_numbering<A, S>(
    l: LedgerModel<A, S>,
    calls: Seq<LedgerCall<A, S>>,
)
    requires
        pools_numbered_up_to_count(l),
    ensures
        pools_numbered_up_to_count(ledger_run(l, calls)),
        crate::records::stored_or_zero(ledger_run(l, calls).pool_count)
            == crate::records::stored_or_zero(l.pool_count) + pools_created(l, calls),
    decreases calls.len(),
{
    if calls.len() > 0 {
        lemma_run_keeps_pool_numbering(l, calls.drop_last());
        lemma_step_keeps_pool_numbering(ledger_run(l, calls.drop_last()), calls.last());
    }
}

} // verus!

verus! {

/// What a stored application record says of the claims that built it: none
/// is stored exactly when no claim was granted; otherwise it is approved for
/// what the pool had collected at the first granted claim, its running total
/// is the sum of the granted claims, and that total is within the approved
/// amount.
pub open spec fn record_matches_claims(
    record: Option<Application>,
    first_collected: Option<int>,
    total: int,
) -> bool {
    match record {
        None => first_collected is None && total == 0,
        Some(a) => {
            &&& first_collected == Some(a.approved_amount as int)
            &&& a.amount_claimed == total
            &&& a.amount_claimed <= a.approved_amount
        },
    }
}

/// Over any calls from a fresh ledger, the application record stored for
/// `student` in pool `pool_id` matches the granted claims among the calls.
pub proof fn lemma_run_application_record<A, S>(
    calls: Seq<LedgerCall<A, S>>,
    pool_id: u32,
    student: S,
)
    ensures
        record_matches_claims(
            ledger_run(fresh_ledger(), calls).applications.get((pool_id, student)),
            first_claim_collected(fresh_ledger(), calls, pool_id, student),
            claimed_total(fresh_ledger(), calls, pool_id, student),
        ),
    decreases calls.len(),
{
    let l0 = fresh_ledger::<A, S>();
    if calls.len() == 0 {
        assert(l0.applications.get((pool_id, student)) is None);
    } else {
        lemma_run_application_record(calls.drop_last(), pool_id, student);
        let prev = ledger_run(l0, calls.drop_last());
        let call = calls.last();
        let key = (pool_id, student);
        let next = ledger_step(prev, call).0;
        assert(next == ledger_run(l0, calls));
        if last_call_is_granted_claim(l0, calls, pool_id, student) {
            let amount = call->ClaimFunds_claim_amount;
            let outcome = claim_outcome(
                prev.statuses.get(key),
                prev.pools.get(pool_id),
                prev.applications.get(key),
                amount,
            );
            assert(outcome is Ok);
            assert(prev.pools.dom().contains(pool_id));
            assert(prev.pools.get(pool_id) == Some(prev.pools[pool_id]));
            assert(next.applications.get(key) == Some(outcome->Ok_0));
        } else {
            match call {
                LedgerCall::ClaimFunds { pool_id: p, student: s, claim_amount, authorized } => {
                    if ledger_step(prev, call).1 {
                        assert((p, s) != key);
                        assert(next.applications.get(key) == prev.applications.get(key));
                    }
                },
                _ => {},
            }
            assert(next.applications.get(key) == prev.applications.get(key));
        }
    }
}

} // verus!

verus! {

/// One call leaves a closed pool's record as it is: it stays stored, closed,
/// with the same creator, goal and collected amount.
pub proof fn lemma_step_keeps_closed_pool<A, S>(
    l: LedgerModel<A, S>,
    call: LedgerCall<A, S>,
    pool_id: u32,
)
    requires
        pools_numbered_up_to_count(l),
        l.pools.dom().contains(pool_id),
        l.pools[pool_id].closed,
    ensures
        ledger_step(l, call).0.pools.dom().contains(pool_id),
        ledger_step(l, call).0.pools[pool_id] == l.pools[pool_id],
{
    assert(l.pools.get(pool_id) == Some(l.pools[pool_id]));
    match call {
        LedgerCall::CreatePool { .. } => {
            if ledger_step(l, call).1 {
                assert(pool_id <= crate::records::stored_or_zero(l.pool_count));
            }
        },
        _ => {},
    }
}

/// Over any calls from a ledger whose pools are numbered from 1 to its count,
/// a closed pool's record stays as it is.
pub proof fn lemma_run_keeps_closed_pool<A, S>(
    l: LedgerModel<A, S>,
    calls: Seq<LedgerCall<A, S>>,
    pool_id: u32,
)
    requires
        pools_numbered_up_to_count(l),
        l.pools.dom().contains(pool_id),
        l.pools[pool_id].closed,
    ensures
        ledger_run(l, calls).pools.dom().contains(pool_id),
        ledger_run(l, calls).pools[pool_id] == l.pools[pool_id],
    decreases calls.len(),
{
    if calls.len() > 0 {
        lemma_run_keeps_closed_pool(l, calls.drop_last(), pool_id);
        lemma_run_keeps_pool_numbering(l, calls.drop_last());
        lemma_step_keeps_closed_pool(ledger_run(l, calls.drop_last()), calls.last(), pool_id);
    }
}

/// Whether `call` writes the status of `student` in pool `pool_id`.
pub open spec fn writes_status<A, S>(call: LedgerCall<A, S>, pool_id: u32, student: S) -> bool {
    call matches LedgerCall::SetApplicationStatus { pool_id: p, student: s, .. } && p == pool_id
        && s == student
}

/// Calls that do not write a student's status in a pool leave it as it is.
pub proof fn lemma_run_keeps_status<A, S>(
    l: LedgerModel<A, S>,
    calls: Seq<LedgerCall<A, S>>,
    pool_id: u32,
    student: S,
)
    requires
        forall|i: int| 0 <= i < calls.len() ==> !writes_status(#[trigger] calls[i], pool_id, student),
    ensures
        ledger_run(l, calls).statuses.get((pool_id, student)) == l.statuses.get((pool_id, student)),
    decreases calls.len(),
{
    if calls.len() > 0 {
        let init = calls.drop_last();
        assert forall|i: int| 0 <= i < init.len() implies !writes_status(
            #[trigger] init[i],
            pool_id,
            student,
        ) by {
            assert(init[i] == calls[i]);
        }
        lemma_run_keeps_status(l, init, pool_id, student);
        assert(!writes_status(calls[calls.len() - 1], pool_id, student));
        let prev = ledger_run(l, init);
        match calls.last() {
            LedgerCall::SetApplicationStatus { pool_id: p, student: s, status } => {
                assert((p, s) != (pool_id, student));
                assert(ledger_step(prev, calls.last()).0.statuses.get((pool_id, student))
                    == prev.statuses.get((pool_id, student)));
            },
            _ => {},
        }
    }
}

/// Every stored application record belongs to a stored pool, has a positive
/// running total, and that total is within what the pool has collected as
/// long as the collected amount is at most `i128::MAX`.
pub open spec fn claims_within_collected<A, S>(l: LedgerModel<A, S>) -> bool {
    forall|key: (u32, S)| #[trigger]
        l.applications.dom().contains(key) ==> {
            &&& l.pools.dom().contains(key.0)
            &&& 0 < l.applications[key].amount_claimed
            &&& l.pools[key.0].collected <= i128::MAX ==> l.applications[key].amount_claimed
                <= l.pools[key.0].collected
        }
}

/// One call keeps every stored running total positive and within its pool's
/// collected amount (while that amount is at most `i128::MAX`).
pub proof fn lemma_step_keeps_claims_within_collected<A, S>(
    l: LedgerModel<A, S>,
    call: LedgerCall<A, S>,
)
    requires
        pools_numbered_up_to_count(l),
        claims_within_collected(l),
    ensures
        claims_within_collected(ledger_step(l, call).0),
{
    let next = ledger_step(l, call).0;
    if ledger_step(l, call).1 {
        match call {
            LedgerCall::CreatePool { creator, goal } => {
                let id = next.pool_count->Some_0;
                assert(!l.pools.dom().contains(id));
                assert forall|key: (u32, S)| #[trigger]
                    next.applications.dom().contains(key) implies {
                    &&& next.pools.dom().contains(key.0)
                    &&& 0 < next.applications[key].amount_claimed
                    &&& next.pools[key.0].collected <= i128::MAX
                        ==> next.applications[key].amount_claimed <= next.pools[key.0].collected
                } by {
                    assert(l.applications.dom().contains(key));
                    assert(key.0 != id);
                }
            },
            LedgerCall::Donate { pool_id, amount } => {
                assert(l.pools.dom().contains(pool_id));
                assert(l.pools.get(pool_id) == Some(l.pools[pool_id]));
                assert(next.pools[pool_id].collected >= l.pools[pool_id].collected);
                assert forall|key: (u32, S)| #[trigger]
                    next.applications.dom().contains(key) implies {
                    &&& next.pools.dom().contains(key.0)
                    &&& 0 < next.applications[key].amount_claimed
                    &&& next.pools[key.0].collected <= i128::MAX
                        ==> next.applications[key].amount_claimed <= next.pools[key.0].collected
                } by {
                    assert(l.applications.dom().contains(key));
                    if key.0 != pool_id {
                        assert(next.pools[key.0] == l.pools[key.0]);
                    }
                }
            },
            LedgerCall::ClosePool { pool_id, authorized } => {
                assert(l.pools.dom().contains(pool_id));
                assert(l.pools.get(pool_id) == Some(l.pools[pool_id]));
                assert forall|key: (u32, S)| #[trigger]
                    next.applications.dom().contains(key) implies {
                    &&& next.pools.dom().contains(key.0)
                    &&& 0 < next.applications[key].amount_claimed
                    &&& next.pools[key.0].collected <= i128::MAX
                        ==> next.applications[key].amount_claimed <= next.pools[key.0].collected
                } by {
                    assert(l.applications.dom().contains(key));
                    if key.0 != pool_id {
                        assert(next.pools[key.0] == l.pools[key.0]);
                    }
                }
            },
            LedgerCall::SetApplicationStatus { .. } => {},
            LedgerCall::ClaimFunds { pool_id, student, claim_amount, authorized } => {
                let k = (pool_id, student);
                assert(l.pools.dom().contains(pool_id));
                assert(l.pools.get(pool_id) == Some(l.pools[pool_id]));
                if l.applications.dom().contains(k) {
                    assert(l.applications.get(k) == Some(l.applications[k]));
                }
                assert forall|key: (u32, S)| #[trigger]
                    next.applications.dom().contains(key) implies {
                    &&& next.pools.dom().contains(key.0)
                    &&& 0 < next.applications[key].amount_claimed
                    &&& next.pools[key.0].collected <= i128::MAX
                        ==> next.applications[key].amount_claimed <= next.pools[key.0].collected
                } by {
                    if key != k {
                        assert(l.applications.dom().contains(key));
                        assert(next.applications[key] == l.applications[key]);
                    }
                }
            },
        }
    }
}

/// Over any calls from a ledger whose pools are numbered from 1 to its
/// count, every stored running total stays positive and within its pool's
/// collected amount (while that amount is at most `i128::MAX`).
pub proof fn lemma_run_keeps_claims_within_collected<A, S>(
    l: LedgerModel<A, S>,
    calls: Seq<LedgerCall<A, S>>,
)
    requires
        pools_numbered_up_to_count(l),
        claims_within_collected(l),
    ensures
        claims_within_collected(ledger_run(l, calls)),
    decreases calls.len(),
{
    if calls.len() > 0 {
        lemma_run_keeps_claims_within_collected(l, calls.drop_last());
        lemma_run_keeps_pool_numbering(l, calls.drop_last());
        lemma_step_keeps_claims_within_collected(ledger_run(l, calls.drop_last()), calls.last());
    }
}

} // verus!
