use crowdfunding::account::AccountId;
use crowdfunding::contract::CampaignRecord;
use crowdfunding::laws::law_queries_repeat;
use crowdfunding::ledger::same_entries;
use crowdfunding::ledger::DonationLedger;
use crowdfunding::progress_percentage;
use crowdfunding::AuthProof;
use crowdfunding::CampaignStatus;
use crowdfunding::CrowdfundingContract;
use crowdfunding::TransferOutcome;
use soroban_sdk::Env;

const ASSET: &str = "CDLZFC3SYJYDZT7K67VZ75HPJVIEUVNIXF47ZG2FB2RMQQVU2HHGCYSC";
const OWNER: &str = "GBGBAKLJP3RVQ4K5HIKKFLOYC7CLAFSRIQG6QCBXD54BMWWJBXCYD5UV";
const DONOR: &str = "GAD2PRBTK7BXTM5OT32D54CC2KUXIG7BX3KJ7PDTLVFABJWC7TNLWCFH";
const ALICE: &str = "GAV5QBWJP4HABLY2D7BTFD5HMOUSNFZDZDNY7LCPSOXXDWYYNVXJBKNV";
const BOB: &str = "GCA3MN6Y7TJMNWTDLHTJMMITUELQ3Z4V4S3SLOCNDYFUZ7M6YWGOTE64";
const CAROL: &str = "GBGCNWIHJQT5RHW6LETQYCWBJNY6A4NRKI4VDH3VI5FS6O5GGSA7LQ7N";

fn id(text: &str) -> AccountId {
    AccountId::from_bytes(text.as_bytes().to_vec())
}

fn record(initialized: bool, goal: i128, total_raised: i128, status: CampaignStatus, withdrawn: bool) -> CampaignRecord {
    CampaignRecord {
        initialized,
        owner: id(OWNER),
        goal,
        deadline: 1000,
        min_donation: 0,
        transfer_asset: id(ASSET),
        title: String::from("t"),
        description: String::from("d"),
        image_url: String::from("i"),
        total_raised,
        status,
        withdrawn,
    }
}

#[test]
fn account_ids_compare_by_their_bytes() {
    let a = id("GA");
    let b = AccountId::from_bytes(vec![b'G', b'A']);
    assert!(a.same_as(&b));
    assert!(a.same_as(&a.duplicate()));
    assert_eq!(a.as_bytes(), &vec![b'G', b'A']);
    assert!(!a.same_as(&id("GB")));
    assert!(!a.same_as(&id("GAA")));
    assert!(!a.same_as(&id("")));
    assert!(id("").is_empty());
    assert!(!a.is_empty());
    assert!(id("").same_as(&AccountId::from_bytes(Vec::new())));
}

#[test]
fn new_ledger_is_empty() {
    let env = Env::default();
    let ledger = DonationLedger::new(&env);
    assert!(ledger.entries().is_empty());
    assert_eq!(ledger.get(&id(ALICE)), 0);
    assert_eq!(ledger.checked_total(), Some(0));
}

#[test]
fn credit_adds_up_per_account() {
    let env = Env::default();
    let mut ledger = DonationLedger::new(&env);
    ledger.credit(&id(ALICE), 5);
    assert_eq!(ledger.get(&id(ALICE)), 5);
    assert_eq!(ledger.get(&id(BOB)), 0);
    ledger.credit(&id(BOB), 7);
    ledger.credit(&id(ALICE), 11);
    assert_eq!(ledger.get(&id(ALICE)), 16);
    assert_eq!(ledger.get(&id(BOB)), 7);
    assert_eq!(ledger.checked_total(), Some(23));
    assert_eq!(ledger.entries().len(), 2);
}

#[test]
fn remove_takes_the_entry_out() {
    let env = Env::default();
    let mut ledger = DonationLedger::new(&env);
    ledger.credit(&id(ALICE), 5);
    ledger.credit(&id(BOB), 7);
    assert_eq!(ledger.remove(&id(ALICE)), 5);
    assert_eq!(ledger.get(&id(ALICE)), 0);
    assert_eq!(ledger.entries(), vec![(id(BOB), 7)]);
    assert_eq!(ledger.remove(&id(ALICE)), 0);
    assert_eq!(ledger.remove(&id(CAROL)), 0);
    assert_eq!(ledger.entries(), vec![(id(BOB), 7)]);
    assert_eq!(ledger.checked_total(), Some(7));
}

#[test]
fn entries_come_in_dictionary_order() {
    let env = Env::default();
    let mut ledger = DonationLedger::new(&env);
    ledger.credit(&id(BOB), 1);
    ledger.credit(&id(CAROL), 2);
    ledger.credit(&id(ALICE), 3);
    ledger.credit(&id(DONOR), 4);
    ledger.credit(&id("G"), 5);
    ledger.credit(&id("GA"), 6);
    assert_eq!(
        ledger.entries(),
        vec![(id("G"), 5), (id("GA"), 6), (id(DONOR), 4), (id(ALICE), 3), (id(CAROL), 2), (id(BOB), 1)]
    );
}

#[test]
fn entries_are_ordered_byte_by_byte() {
    let env = Env::default();
    let mut ledger = DonationLedger::new(&env);
    let keys: Vec<Vec<u8>> = vec![
        vec![0xff, 0x00],
        vec![0x80],
        vec![0x01],
        vec![],
        vec![0x00, 0x00],
        vec![0x7f],
        vec![0xff],
        vec![0x00],
        vec![0x7f, 0xff, 0xff],
    ];
    for (n, key) in keys.iter().enumerate() {
        ledger.credit(&AccountId::from_bytes(key.clone()), n as i128 + 1);
    }
    let listed: Vec<(Vec<u8>, i128)> =
        ledger.entries().iter().map(|entry| (entry.0.as_bytes().clone(), entry.1)).collect();
    assert_eq!(
        listed,
        vec![
            (vec![], 4),
            (vec![0x00], 8),
            (vec![0x00, 0x00], 5),
            (vec![0x01], 3),
            (vec![0x7f], 6),
            (vec![0x7f, 0xff, 0xff], 9),
            (vec![0x80], 2),
            (vec![0xff], 7),
            (vec![0xff, 0x00], 1),
        ]
    );
    assert_eq!(ledger.get(&AccountId::from_bytes(vec![])), 4);
    assert_eq!(ledger.remove(&AccountId::from_bytes(vec![0x80])), 2);
    assert_eq!(ledger.entries().len(), 8);
    assert_eq!(ledger.checked_total(), Some(43));
}

#[test]
fn checked_total_notices_a_sum_beyond_the_range() {
    let env = Env::default();
    let mut ledger = DonationLedger::new(&env);
    ledger.credit(&id(ALICE), i128::MAX - 1);
    assert_eq!(ledger.checked_total(), Some(i128::MAX - 1));
    ledger.credit(&id(BOB), 1);
    assert_eq!(ledger.checked_total(), Some(i128::MAX));
    ledger.credit(&id(CAROL), 1);
    assert_eq!(ledger.checked_total(), None);
}

#[test]
fn from_entries_wants_positive_amounts_and_distinct_accounts() {
    let env = Env::default();
    let ledger = DonationLedger::from_entries(&env, &vec![(id(BOB), 2), (id(ALICE), 1)]).unwrap();
    assert_eq!(ledger.entries(), vec![(id(ALICE), 1), (id(BOB), 2)]);
    assert!(DonationLedger::from_entries(&env, &vec![]).unwrap().entries().is_empty());
    assert!(DonationLedger::from_entries(&env, &vec![(id(ALICE), 1), (id(ALICE), 2)]).is_none());
    assert!(DonationLedger::from_entries(&env, &vec![(id(ALICE), 0)]).is_none());
    assert!(DonationLedger::from_entries(&env, &vec![(id(ALICE), 3), (id(BOB), -1)]).is_none());
}

#[test]
fn same_entries_compares_entry_by_entry() {
    let a = vec![(id(ALICE), 1), (id(BOB), 2)];
    assert!(same_entries(&a, &vec![(id(ALICE), 1), (id(BOB), 2)]));
    assert!(!same_entries(&a, &vec![(id(ALICE), 1)]));
    assert!(!same_entries(&a, &vec![(id(ALICE), 1), (id(BOB), 3)]));
    assert!(!same_entries(&a, &vec![(id(BOB), 2), (id(ALICE), 1)]));
    assert!(same_entries(&vec![], &vec![]));
}

#[test]
fn restore_brings_a_campaign_back() {
    let env = Env::default();
    let mut contract = CrowdfundingContract::new(&env);
    let done = contract.initialize(
        id(OWNER),
        100,
        1000,
        id(ASSET),
        String::from("t"),
        String::from("d"),
        String::from("i"),
        0,
        0,
        AuthProof::Granted,
    );
    assert_eq!(done, Ok(()));
    assert_eq!(contract.donate(&id(BOB), 30, 1, AuthProof::Granted, TransferOutcome::Completed), Ok(()));
    assert_eq!(contract.donate(&id(ALICE), 20, 2, AuthProof::Granted, TransferOutcome::Completed), Ok(()));

    let kept = contract.record();
    let copy = CampaignRecord {
        initialized: kept.initialized,
        owner: kept.owner.duplicate(),
        goal: kept.goal,
        deadline: kept.deadline,
        min_donation: kept.min_donation,
        transfer_asset: kept.transfer_asset.duplicate(),
        title: kept.title.clone(),
        description: kept.description.clone(),
        image_url: kept.image_url.clone(),
        total_raised: kept.total_raised,
        status: kept.status,
        withdrawn: kept.withdrawn,
    };
    let mut back = CrowdfundingContract::restore(&env, copy, &contract.get_all_donors()).unwrap();
    assert_eq!(back.get_total_raised(), 50);
    assert_eq!(back.get_donation(&id(BOB)), 30);
    assert_eq!(back.get_all_donors(), contract.get_all_donors());
    assert_eq!(back.get_campaign_info(), contract.get_campaign_info());
    assert_eq!(back.donate(&id(BOB), 50, 3, AuthProof::Granted, TransferOutcome::Completed), Ok(()));
    assert_eq!(back.get_campaign_status(), CampaignStatus::Successful.code());
}

#[test]
fn restore_turns_down_what_no_campaign_can_be() {
    let env = Env::default();
    let entries = vec![(id(ALICE), 20), (id(BOB), 30)];
    let accepts = |r: CampaignRecord, e: &Vec<(AccountId, i128)>| CrowdfundingContract::restore(&env, r, e).is_some();

    assert!(accepts(record(true, 100, 50, CampaignStatus::Active, false), &entries));
    assert!(accepts(record(true, 100, 50, CampaignStatus::Failed, false), &entries));
    assert!(accepts(record(true, 50, 50, CampaignStatus::Successful, false), &entries));
    assert!(accepts(record(true, 50, 50, CampaignStatus::Withdrawn, true), &entries));
    // The total is not the sum of the ledger.
    assert!(!accepts(record(true, 100, 51, CampaignStatus::Active, false), &entries));
    assert!(!accepts(record(true, 100, 50, CampaignStatus::Active, false), &vec![]));
    // Paid out and status disagree.
    assert!(!accepts(record(true, 50, 50, CampaignStatus::Withdrawn, false), &entries));
    assert!(!accepts(record(true, 50, 50, CampaignStatus::Successful, true), &entries));
    // Status and goal disagree.
    assert!(!accepts(record(true, 50, 50, CampaignStatus::Active, false), &entries));
    assert!(!accepts(record(true, 50, 50, CampaignStatus::Failed, false), &entries));
    assert!(!accepts(record(true, 100, 50, CampaignStatus::Successful, false), &entries));
    // No goal.
    assert!(!accepts(record(true, 0, 50, CampaignStatus::Successful, false), &entries));
    // An entry twice, an entry of nothing.
    assert!(!accepts(
        record(true, 100, 50, CampaignStatus::Active, false),
        &vec![(id(ALICE), 20), (id(ALICE), 30)]
    ));
    assert!(!accepts(
        record(true, 100, 50, CampaignStatus::Active, false),
        &vec![(id(ALICE), 50), (id(BOB), 0)]
    ));
    // A campaign that is not set up is blank.
    assert!(!accepts(record(false, 0, 0, CampaignStatus::Active, false), &vec![]));
    assert!(accepts(CampaignRecord::blank(), &vec![]));
    assert!(!accepts(CampaignRecord::blank(), &vec![(id(ALICE), 1)]));
}

#[test]
fn progress_is_the_share_in_hundredths_of_a_percent() {
    assert_eq!(progress_percentage(0, 100), 0);
    assert_eq!(progress_percentage(25_000_000, 100_000_000), 2500);
    assert_eq!(progress_percentage(1, 3), 3333);
    assert_eq!(progress_percentage(2, 3), 6666);
    assert_eq!(progress_percentage(1, 10_001), 0);
    assert_eq!(progress_percentage(1, 10_000), 1);
    assert_eq!(progress_percentage(9_999, 10_000), 9999);
    assert_eq!(progress_percentage(99, 100), 9900);
    assert_eq!(progress_percentage(123_456, 987_654), 1249);
}

#[test]
fn progress_saturates_and_needs_a_goal() {
    assert_eq!(progress_percentage(100, 100), 10000);
    assert_eq!(progress_percentage(101, 100), 10000);
    assert_eq!(progress_percentage(i128::MAX, 1), 10000);
    assert_eq!(progress_percentage(i128::MAX, i128::MAX), 10000);
    assert_eq!(progress_percentage(50, 0), 0);
    assert_eq!(progress_percentage(50, -3), 0);
    assert_eq!(progress_percentage(0, 0), 0);
}

#[test]
fn progress_of_amounts_near_the_end_of_the_range() {
    assert_eq!(progress_percentage(i128::MAX - 1, i128::MAX), 9999);
    assert_eq!(progress_percentage(i128::MAX / 2, i128::MAX), 4999);
    assert_eq!(progress_percentage(i128::MAX / 2 + 1, i128::MAX), 5000);
    assert_eq!(progress_percentage(i128::MAX / 3, i128::MAX - 7), 3333);
    assert_eq!(progress_percentage(1, i128::MAX), 0);
}

#[test]
fn queries_answer_the_same_when_asked_again() {
    let env = Env::default();
    let mut contract = CrowdfundingContract::new(&env);
    assert!(law_queries_repeat(&contract, &id(ALICE), 5));
    let done = contract.initialize(
        id(OWNER),
        100,
        1000,
        id(ASSET),
        String::from("t"),
        String::from("d"),
        String::from("i"),
        0,
        0,
        AuthProof::Granted,
    );
    assert_eq!(done, Ok(()));
    assert_eq!(contract.donate(&id(BOB), 30, 1, AuthProof::Granted, TransferOutcome::Completed), Ok(()));
    assert_eq!(contract.donate(&id(ALICE), 20, 2, AuthProof::Granted, TransferOutcome::Completed), Ok(()));
    assert!(law_queries_repeat(&contract, &id(ALICE), 5));
    assert!(law_queries_repeat(&contract, &id(CAROL), 5000));
    let before = (contract.get_total_raised(), contract.get_campaign_status(), contract.get_all_donors());
    let _ = contract.get_progress_percentage();
    let _ = contract.is_deadline_passed(5000);
    let after = (contract.get_total_raised(), contract.get_campaign_status(), contract.get_all_donors());
    assert_eq!(before, after);
}
