use std::collections::HashMap;

use nevo_contract::{Application, Contract, ContractError, PoolRecord};

/// An in-memory stand-in for the contract's ledger storage, with entry
/// points that read the records a call needs, run the library's rule, and
/// write back what it returns, aborting with the error's message as the
/// contract does.
struct Ledger {
    pool_count: Option<u32>,
    pools: HashMap<u32, PoolRecord<u32>>,
    donor_counts: HashMap<u32, u32>,
    unclaimed_fees: Option<u128>,
    statuses: HashMap<(u32, u32), Vec<u8>>,
    applications: HashMap<(u32, u32), Application>,
    transferred: Vec<(u32, i128)>,
    next_address: u32,
}

fn abort(e: ContractError) -> ! {
    panic!("{}", e.message())
}

impl Ledger {
    fn new() -> Ledger {
        Ledger {
            pool_count: None,
            pools: HashMap::new(),
            donor_counts: HashMap::new(),
            unclaimed_fees: None,
            statuses: HashMap::new(),
            applications: HashMap::new(),
            transferred: Vec::new(),
            next_address: 0,
        }
    }

    fn generate(&mut self) -> u32 {
        self.next_address += 1;
        self.next_address
    }

    fn create_pool(&mut self, creator: u32, _title: &str, _description: &str, goal: u128) -> u32 {
        match Contract::create_pool(self.pool_count, creator, goal) {
            Ok((pool_id, pool)) => {
                self.pools.insert(pool_id, pool);
                self.pool_count = Some(pool_id);
                pool_id
            }
            Err(e) => abort(e),
        }
    }

    fn take_pool(&self, pool_id: u32) -> Option<PoolRecord<u32>> {
        self.pools.get(&pool_id).map(|p| PoolRecord {
            creator: p.creator,
            goal: p.goal,
            collected: p.collected,
            closed: p.closed,
        })
    }

    fn donate(&mut self, pool_id: u32, _donor: u32, amount: u128) {
        let pool = self.take_pool(pool_id);
        let count = self.donor_counts.get(&pool_id).copied();
        match Contract::donate(pool, count, self.unclaimed_fees, amount) {
            Ok(d) => {
                self.pools.insert(pool_id, d.pool);
                self.donor_counts.insert(pool_id, d.donor_count);
                self.unclaimed_fees = Some(d.unclaimed_fees);
            }
            Err(e) => abort(e),
        }
    }

    fn get_pool(&self, pool_id: u32) -> (u32, u32, u128, u128, bool) {
        match Contract::get_pool(pool_id, self.take_pool(pool_id)) {
            Ok(t) => t,
            Err(e) => abort(e),
        }
    }

    /// `caller` is the account whose authorization the call carries.
    fn close_pool(&mut self, caller: u32, pool_id: u32) {
        match Contract::close_pool(self.take_pool(pool_id)) {
            Ok(pool) => {
                if pool.creator != caller {
                    panic!("HostError: Auth, InvalidAction");
                }
                self.pools.insert(pool_id, pool);
            }
            Err(e) => abort(e),
        }
    }

    fn get_pool_count(&self) -> u32 {
        Contract::get_pool_count(self.pool_count)
    }

    fn set_application_status(&mut self, pool_id: u32, student: u32, status: &str) {
        self.statuses.insert((pool_id, student), status.as_bytes().to_vec());
    }

    fn get_application_status(&self, pool_id: u32, student: u32) -> String {
        let stored = self.statuses.get(&(pool_id, student)).cloned();
        String::from_utf8(Contract::get_application_status(stored)).unwrap()
    }

    fn get_claimed_amount(&self, pool_id: u32, student: u32) -> i128 {
        Contract::get_claimed_amount(self.applications.get(&(pool_id, student)).copied())
    }

    fn get_unclaimed_fees(&self) -> u128 {
        Contract::get_unclaimed_fees(self.unclaimed_fees)
    }

    fn claim_funds(&mut self, student: u32, pool_id: u32, claim_amount: i128) {
        let status = self.statuses.get(&(pool_id, student)).cloned();
        let pool = self.take_pool(pool_id);
        let application = self.applications.get(&(pool_id, student)).copied();
        match Contract::claim_funds(status, &pool, application, claim_amount) {
            Ok(app) => {
                self.transferred.push((student, claim_amount));
                self.applications.insert((pool_id, student), app);
            }
            Err(e) => abort(e),
        }
    }
}

fn open_pool(creator: u32, goal: u128, collected: u128) -> PoolRecord<u32> {
    PoolRecord { creator, goal, collected, closed: false }
}

fn approved() -> Option<Vec<u8>> {
    Some(b"Approved".to_vec())
}

// ─── Scenarios of the contract's own test suite ───────────────────────────────

#[test]
fn test_create_pool() {
    let mut l = Ledger::new();
    let creator = l.generate();
    let goal: u128 = 1_000_000_000;

    let pool_id = l.create_pool(creator, "Emergency Relief Fund", "Helping those in need", goal);
    assert_eq!(pool_id, 1);

    let pool = l.get_pool(pool_id);
    assert_eq!(pool.0, 1);
    assert_eq!(pool.1, creator);
    assert_eq!(pool.2, goal);
    assert_eq!(pool.3, 0);
    assert_eq!(pool.4, false);
}

#[test]
fn test_donate() {
    let mut l = Ledger::new();
    let creator = l.generate();
    let donor = l.generate();
    let goal: u128 = 10_000_000_000;
    let pool_id = l.create_pool(creator, "Educational Scholarship", "Support for students", goal);

    let donation_amount: u128 = 100_000_000;
    let expected_fee = (donation_amount * 1) / 100;
    let expected_collected = donation_amount - expected_fee;
    l.donate(pool_id, donor, donation_amount);

    let pool = l.get_pool(pool_id);
    assert_eq!(pool.3, expected_collected);
}

#[test]
fn test_multiple_donations() {
    let mut l = Ledger::new();
    let creator = l.generate();
    let donor1 = l.generate();
    let donor2 = l.generate();
    let pool_id = l.create_pool(creator, "Community Project", "Building together", 5_000_000_000);

    let donation1: u128 = 100_000_000;
    let donation2: u128 = 200_000_000;
    let fee1 = (donation1 * 1) / 100;
    let fee2 = (donation2 * 1) / 100;
    let expected_collected = (donation1 - fee1) + (donation2 - fee2);

    l.donate(pool_id, donor1, donation1);
    l.donate(pool_id, donor2, donation2);

    let pool = l.get_pool(pool_id);
    assert_eq!(pool.3, expected_collected);
}

#[test]
fn test_close_pool() {
    let mut l = Ledger::new();
    let creator = l.generate();
    let pool_id = l.create_pool(creator, "Closed Pool", "Test pool", 1_000_000_000);
    l.close_pool(creator, pool_id);

    let pool = l.get_pool(pool_id);
    assert_eq!(pool.4, true);
}

#[test]
#[should_panic(expected = "Pool is closed")]
fn test_donate_to_closed_pool() {
    let mut l = Ledger::new();
    let creator = l.generate();
    let donor = l.generate();
    let pool_id = l.create_pool(creator, "Test Pool", "Test", 1_000_000_000);
    l.close_pool(creator, pool_id);

    l.donate(pool_id, donor, 100_000_000);
}

#[test]
#[should_panic(expected = "HostError: Auth")]
fn test_close_pool_unauthorized() {
    let mut l = Ledger::new();
    let creator = l.generate();
    let unauthorized = l.generate();
    let pool_id = l.create_pool(creator, "Test Pool", "Test", 1_000_000_000);

    l.close_pool(unauthorized, pool_id);
}

#[test]
fn test_multiple_pools() {
    let mut l = Ledger::new();
    let creator1 = l.generate();
    let creator2 = l.generate();

    let pool_id_1 = l.create_pool(creator1, "Pool 1", "First pool", 1_000_000_000);
    let pool_id_2 = l.create_pool(creator2, "Pool 2", "Second pool", 2_000_000_000);

    assert_eq!(pool_id_1, 1);
    assert_eq!(pool_id_2, 2);
    assert_eq!(l.get_pool_count(), 2);
}

#[test]
#[should_panic(expected = "Application status not found")]
fn test_claim_funds_no_status() {
    let mut l = Ledger::new();
    let creator = l.generate();
    let student = l.generate();
    let pool_id = l.create_pool(creator, "Test Pool", "Test", 1_000_000_000);
    l.donate(pool_id, creator, 500_000_000);

    l.claim_funds(student, pool_id, 100_000_000i128);
}

#[test]
#[should_panic(expected = "Application is not approved")]
fn test_claim_funds_rejected_application() {
    let mut l = Ledger::new();
    let creator = l.generate();
    let student = l.generate();
    let pool_id = l.create_pool(creator, "Test Pool", "Test", 1_000_000_000);
    l.donate(pool_id, creator, 500_000_000);
    l.set_application_status(pool_id, student, "Rejected");

    l.claim_funds(student, pool_id, 100_000_000i128);
}

#[test]
#[should_panic(expected = "Overdraw attempt")]
fn test_claim_funds_overdraw() {
    let mut l = Ledger::new();
    let creator = l.generate();
    let student = l.generate();
    let pool_id = l.create_pool(creator, "Test Pool", "Test", 1_000_000_000);
    l.donate(pool_id, creator, 100_000_000);
    l.set_application_status(pool_id, student, "Approved");

    l.claim_funds(student, pool_id, 500_000_000i128);
}

#[test]
#[should_panic(expected = "Claim amount must be positive")]
fn test_claim_funds_negative_amount() {
    let mut l = Ledger::new();
    let creator = l.generate();
    let student = l.generate();
    let pool_id = l.create_pool(creator, "Test Pool", "Test", 1_000_000_000);
    l.donate(pool_id, creator, 500_000_000);
    l.set_application_status(pool_id, student, "Approved");

    l.claim_funds(student, pool_id, -100_000_000i128);
}

#[test]
fn test_claim_funds_get_claimed_amount() {
    let mut l = Ledger::new();
    let creator = l.generate();
    let student = l.generate();
    let pool_id = l.create_pool(creator, "Test Pool", "Test", 1_000_000_000);

    let initial_claimed = l.get_claimed_amount(pool_id, student);
    assert_eq!(initial_claimed, 0);

    l.donate(pool_id, creator, 500_000_000);
    l.set_application_status(pool_id, student, "Approved");
}

#[test]
fn test_get_application_status() {
    let mut l = Ledger::new();
    let creator = l.generate();
    let student = l.generate();
    let pool_id = l.create_pool(creator, "Test Pool", "Test", 1_000_000_000);

    let initial_status = l.get_application_status(pool_id, student);
    assert_eq!(initial_status, "");

    l.set_application_status(pool_id, student, "Approved");
    let status_after_set = l.get_application_status(pool_id, student);
    assert_eq!(status_after_set, "Approved");
}

#[test]
fn test_stress_pool_count_u32_boundary() {
    let mut l = Ledger::new();
    const POOL_COUNT: u32 = 500;
    let goal: u128 = 1_000_000_000;

    for _ in 0..POOL_COUNT {
        let creator = l.generate();
        l.create_pool(creator, "Stress Pool", "Boundary test", goal);
    }

    assert_eq!(l.get_pool_count(), POOL_COUNT);

    let last_pool = l.get_pool(POOL_COUNT);
    assert_eq!(last_pool.0, POOL_COUNT);
    assert_eq!(last_pool.2, goal);
    assert_eq!(last_pool.4, false);
}

#[test]
fn test_fee_accumulation_on_donation() {
    let mut l = Ledger::new();
    let creator = l.generate();
    let donor = l.generate();
    let pool_id = l.create_pool(creator, "Test Pool", "Fee test", 1_000_000_000);

    let donation_amount = 100_000_000u128;
    l.donate(pool_id, donor, donation_amount);

    let expected_fee = (donation_amount * 1) / 100;
    let expected_collected = donation_amount - expected_fee;

    assert_eq!(l.get_unclaimed_fees(), expected_fee);
    let pool = l.get_pool(pool_id);
    assert_eq!(pool.3, expected_collected);
}

#[test]
fn test_multiple_donations_accumulate_fees() {
    let mut l = Ledger::new();
    let creator = l.generate();
    let donor1 = l.generate();
    let donor2 = l.generate();
    let pool_id = l.create_pool(creator, "Multi-donation Pool", "Fee accumulation test", 10_000_000_000);

    let donation1 = 200_000_000u128;
    l.donate(pool_id, donor1, donation1);
    let fee1 = (donation1 * 1) / 100;

    let donation2 = 300_000_000u128;
    l.donate(pool_id, donor2, donation2);
    let fee2 = (donation2 * 1) / 100;

    let total_expected_fees = fee1 + fee2;
    assert_eq!(l.get_unclaimed_fees(), total_expected_fees);

    let pool = l.get_pool(pool_id);
    let expected_collected = (donation1 - fee1) + (donation2 - fee2);
    assert_eq!(pool.3, expected_collected);
}

#[test]
fn test_get_unclaimed_fees_initial_state() {
    let l = Ledger::new();
    assert_eq!(l.get_unclaimed_fees(), 0);
}

// ─── Further cases ─────────────────────────────────────────────────────────────

#[test]
fn test_school_registration_to_claim_integration_flow() {
    let mut l = Ledger::new();
    let sponsor = l.generate();
    let donor = l.generate();
    let student = l.generate();
    let pool_id = l.create_pool(sponsor, "School Pool", "Scholarship round", 1_000_000_000);
    l.donate(pool_id, donor, 600_000_000);
    l.set_application_status(pool_id, student, "Approved");

    l.claim_funds(student, pool_id, 150_000_000);
    l.claim_funds(student, pool_id, 50_000_000);

    assert_eq!(l.get_claimed_amount(pool_id, student), 200_000_000);
    assert_eq!(l.transferred, vec![(student, 150_000_000), (student, 50_000_000)]);
    // The record of the first claim is approved for what the pool had collected.
    let app = l.applications[&(pool_id, student)];
    assert_eq!(app.approved_amount, 594_000_000);
    // Fees stay apart from what students draw.
    assert_eq!(l.get_unclaimed_fees(), 6_000_000);
}

#[test]
fn claim_of_exactly_the_collected_amount_is_granted() {
    let pool = open_pool(1, 1_000, 990);
    let r = Contract::claim_funds(approved(), &Some(pool), None, 990);
    assert_eq!(r, Ok(Application { approved_amount: 990, amount_claimed: 990 }));
    let again = Contract::claim_funds(approved(), &Some(open_pool(1, 1_000, 990)), r.ok(), 1);
    assert_eq!(again, Err(ContractError::Overdraw));
}

#[test]
fn claim_checks_come_in_order() {
    // A non-positive amount is refused before anything else is looked at.
    assert_eq!(
        Contract::claim_funds::<u32>(None, &None, None, 0),
        Err(ContractError::ClaimAmountNotPositive)
    );
    assert_eq!(
        Contract::claim_funds::<u32>(None, &None, None, 5),
        Err(ContractError::StatusNotFound)
    );
    assert_eq!(
        Contract::claim_funds::<u32>(Some(b"Pending".to_vec()), &None, None, 5),
        Err(ContractError::NotApproved)
    );
    assert_eq!(
        Contract::claim_funds::<u32>(Some(b"approved".to_vec()), &None, None, 5),
        Err(ContractError::NotApproved)
    );
    assert_eq!(
        Contract::claim_funds::<u32>(approved(), &None, None, 5),
        Err(ContractError::PoolNotFound)
    );
}

#[test]
fn claim_running_total_past_i128_max_is_an_overdraw() {
    let app = Application { approved_amount: 10, amount_claimed: i128::MAX };
    let r = Contract::claim_funds(approved(), &Some(open_pool(1, 10, 10)), Some(app), 1);
    assert_eq!(r, Err(ContractError::Overdraw));
}

#[test]
fn collected_above_i128_max_wraps_negative_and_blocks_claims() {
    let huge = (i128::MAX as u128) + 1;
    assert_eq!(nevo_contract::wrapping_i128(huge), i128::MIN);
    assert_eq!(nevo_contract::wrapping_i128(u128::MAX), -1);
    assert_eq!(nevo_contract::wrapping_i128(12), 12);
    let r = Contract::claim_funds(approved(), &Some(open_pool(1, 10, huge)), None, 1);
    assert_eq!(r, Err(ContractError::Overdraw));
}

#[test]
fn pool_counter_at_its_limit_refuses_new_pools() {
    let r = Contract::create_pool(Some(u32::MAX), 1u32, 10);
    assert!(matches!(r, Err(ContractError::ArithmeticOverflow)));
    let r = Contract::create_pool(Some(u32::MAX - 1), 1u32, 10);
    assert!(matches!(r, Ok((id, _)) if id == u32::MAX));
}

#[test]
fn donation_fee_rounds_down() {
    let d = Contract::donate(Some(open_pool(1, 100, 0)), None, None, 199).ok().unwrap();
    assert_eq!(d.fee, 1);
    assert_eq!(d.pool.collected, 198);
    assert_eq!(d.donor_count, 1);
    assert_eq!(d.unclaimed_fees, 1);
    let d = Contract::donate(Some(open_pool(1, 100, 0)), Some(4), Some(7), 99).ok().unwrap();
    assert_eq!(d.fee, 0);
    assert_eq!(d.pool.collected, 99);
    assert_eq!(d.donor_count, 5);
    assert_eq!(d.unclaimed_fees, 7);
}

#[test]
fn donation_overflows_are_refused() {
    let full = open_pool(1, 100, u128::MAX);
    assert!(matches!(
        Contract::donate(Some(full), None, None, 100),
        Err(ContractError::ArithmeticOverflow)
    ));
    assert!(matches!(
        Contract::donate(Some(open_pool(1, 100, 0)), Some(u32::MAX), None, 100),
        Err(ContractError::ArithmeticOverflow)
    ));
    assert!(matches!(
        Contract::donate(Some(open_pool(1, 100, 0)), None, Some(u128::MAX), 100),
        Err(ContractError::ArithmeticOverflow)
    ));
    assert!(matches!(
        Contract::donate::<u32>(None, None, None, 100),
        Err(ContractError::PoolNotFound)
    ));
}

#[test]
fn closing_twice_keeps_the_pool_closed() {
    let once = Contract::close_pool(Some(open_pool(3, 50, 20))).ok().unwrap();
    assert!(once.closed);
    assert_eq!((once.creator, once.goal, once.collected), (3, 50, 20));
    let twice = Contract::close_pool(Some(once)).ok().unwrap();
    assert!(twice.closed);
    assert_eq!((twice.creator, twice.goal, twice.collected), (3, 50, 20));
    assert!(matches!(Contract::close_pool::<u32>(None), Err(ContractError::PoolNotFound)));
}

#[test]
fn missing_pool_is_not_found() {
    assert!(matches!(Contract::get_pool::<u32>(9, None), Err(ContractError::PoolNotFound)));
}

#[test]
fn status_texts_compare_by_bytes() {
    assert!(nevo_contract::is_approved(&b"Approved".to_vec()));
    assert!(!nevo_contract::is_approved(&b"Approved ".to_vec()));
    assert!(!nevo_contract::is_approved(&Vec::new()));
    assert_eq!(nevo_contract::approved_status_bytes(), b"Approved".to_vec());
    assert!(nevo_contract::same_text(&b"ab".to_vec(), &b"ab".to_vec()));
    assert!(!nevo_contract::same_text(&b"ab".to_vec(), &b"ac".to_vec()));
}

#[test]
fn error_messages_are_those_of_the_contract() {
    assert_eq!(ContractError::PoolNotFound.message(), "Pool not found");
    assert_eq!(ContractError::PoolClosed.message(), "Pool is closed");
    assert_eq!(ContractError::ClaimAmountNotPositive.message(), "Claim amount must be positive");
    assert_eq!(ContractError::StatusNotFound.message(), "Application status not found");
    assert_eq!(ContractError::NotApproved.message(), "Application is not approved");
    assert_eq!(ContractError::Overdraw.message(), "Overdraw attempt");
    assert_eq!(ContractError::ArithmeticOverflow.message(), "attempt to add with overflow");
}

#[test]
fn later_claims_stay_within_the_approved_amount() {
    let first = Contract::claim_funds(approved(), &Some(open_pool(1, 500, 100)), None, 100);
    assert_eq!(first, Ok(Application { approved_amount: 100, amount_claimed: 100 }));
    // The pool collects more, but the student is approved for 100 only.
    let second = Contract::claim_funds(approved(), &Some(open_pool(1, 500, 199)), first.ok(), 50);
    assert_eq!(second, Err(ContractError::Overdraw));
    // A record approved for 50 with 50 claimed gets nothing more from a pool of 100.
    let full = Application { approved_amount: 50, amount_claimed: 50 };
    let third = Contract::claim_funds(approved(), &Some(open_pool(1, 500, 100)), Some(full), 10);
    assert_eq!(third, Err(ContractError::Overdraw));
    // Below both limits the claim is granted.
    let part = Application { approved_amount: 80, amount_claimed: 50 };
    let fourth = Contract::claim_funds(approved(), &Some(open_pool(1, 500, 100)), Some(part), 30);
    assert_eq!(fourth, Ok(Application { approved_amount: 80, amount_claimed: 80 }));
}

#[test]
fn pools_read_back_exactly_from_one_to_the_count() {
    let mut l = Ledger::new();
    let creator = l.generate();
    l.create_pool(creator, "A", "a", 10);
    l.create_pool(creator, "B", "b", 20);
    l.donate(1, creator, 100);
    l.close_pool(creator, 2);
    assert_eq!(l.get_pool_count(), 2);
    assert_eq!(l.get_pool(1).2, 10);
    assert_eq!(l.get_pool(2).2, 20);
    let pools = l.pools.len();
    assert_eq!(pools, 2);
    assert!(matches!(Contract::get_pool(0, l.take_pool(0)), Err(ContractError::PoolNotFound)));
    assert!(matches!(Contract::get_pool(3, l.take_pool(3)), Err(ContractError::PoolNotFound)));
}

#[test]
fn test_fee_separation_from_pool_allocations() {
    let mut l = Ledger::new();
    let creator = l.generate();
    let donor = l.generate();
    let student = l.generate();
    let pool_goal: u128 = 1_000_000_000;
    let pool_id = l.create_pool(creator, "School Pool", "Separation test", pool_goal);

    let donation_amount = 500_000_000u128;
    let expected_fee = (donation_amount * 1) / 100;
    let expected_net = donation_amount - expected_fee;
    l.donate(pool_id, donor, donation_amount);

    // The student's application is approved.
    l.set_application_status(pool_id, student, "Approved");

    let pool = l.get_pool(pool_id);
    assert_eq!(pool.2, pool_goal);
    assert_eq!(pool.3, expected_net);
    assert_eq!(l.get_unclaimed_fees(), expected_fee);

    l.claim_funds(student, pool_id, 100_000_000i128);
    assert_eq!(l.get_claimed_amount(pool_id, student), 100_000_000i128);
    assert_eq!(l.get_unclaimed_fees(), expected_fee);
}

#[test]
fn closed_pool_stays_closed_through_later_calls() {
    let mut l = Ledger::new();
    let creator = l.generate();
    let student = l.generate();
    let pool_id = l.create_pool(creator, "P", "p", 1_000);
    l.donate(pool_id, creator, 500);
    l.close_pool(creator, pool_id);
    let before = l.get_pool(pool_id);
    l.create_pool(creator, "Q", "q", 10);
    l.set_application_status(pool_id, student, "Approved");
    l.claim_funds(student, pool_id, 100);
    l.close_pool(creator, pool_id);
    assert_eq!(l.get_pool(pool_id), before);
    let r = Contract::donate(l.take_pool(pool_id), None, None, 10);
    assert!(matches!(r, Err(ContractError::PoolClosed)));
}

#[test]
fn last_status_written_reads_back() {
    let mut l = Ledger::new();
    let creator = l.generate();
    let student = l.generate();
    let other = l.generate();
    let pool_id = l.create_pool(creator, "P", "p", 1_000);
    l.set_application_status(pool_id, student, "Pending");
    l.set_application_status(pool_id, student, "Rejected");
    l.set_application_status(pool_id, other, "Approved");
    l.donate(pool_id, creator, 500);
    assert_eq!(l.get_application_status(pool_id, student), "Rejected");
    assert_eq!(l.get_application_status(pool_id, other), "Approved");
}
