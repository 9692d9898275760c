use crowdfunding::AccountId;
use crowdfunding::AuthProof;
use crowdfunding::CampaignStatus;
use crowdfunding::CrowdfundingContract;
use crowdfunding::EscrowError;
use crowdfunding::TransferOutcome;
use soroban_sdk::Env;

const XLM_CONTRACT_TESTNET: &str = "CDLZFC3SYJYDZT7K67VZ75HPJVIEUVNIXF47ZG2FB2RMQQVU2HHGCYSC";
const OWNER: &str = "GBGBAKLJP3RVQ4K5HIKKFLOYC7CLAFSRIQG6QCBXD54BMWWJBXCYD5UV";
const DONOR: &str = "GAD2PRBTK7BXTM5OT32D54CC2KUXIG7BX3KJ7PDTLVFABJWC7TNLWCFH";

fn account(strkey: &str) -> AccountId {
    AccountId::from_bytes(strkey.as_bytes().to_vec())
}

fn set_up(
    contract: &mut CrowdfundingContract,
    goal: i128,
    deadline: u64,
    description: &str,
    min_donation: i128,
    now: u64,
) {
    let done = contract.initialize(
        account(OWNER),
        goal,
        deadline,
        account(XLM_CONTRACT_TESTNET),
        String::from("Test Campaign"),
        String::from(description),
        String::from("https://example.com/image.jpg"),
        min_donation,
        now,
        AuthProof::Granted,
    );
    assert_eq!(done, Ok(()));
}

#[test]
fn test_initialize_campaign() {
    let env = Env::default();
    let mut contract = CrowdfundingContract::new(&env);

    let now: u64 = 0;
    let goal = 900_000_000i128;
    let deadline = now + 86400;
    let min_donation = 1_000_000i128;

    set_up(&mut contract, goal, deadline, "A test campaign for fundraising", min_donation, now);

    assert_eq!(contract.get_total_raised(), 0);
    assert_eq!(contract.get_campaign_status(), 0);
    assert_eq!(contract.get_min_donation(), min_donation);
}

#[test]
fn test_get_donation_no_donation() {
    let env = Env::default();
    let mut contract = CrowdfundingContract::new(&env);

    let now: u64 = 0;
    let non_donor = account(DONOR);
    set_up(&mut contract, 900_000_000i128, now + 86400, "A test campaign", 1_000_000i128, now);

    assert_eq!(contract.get_donation(&non_donor), 0);
}

#[test]
#[should_panic(expected = "Donation amount must be positive")]
fn test_donate_zero_amount() {
    let env = Env::default();
    let mut contract = CrowdfundingContract::new(&env);

    let now: u64 = 0;
    let donor = account(DONOR);
    set_up(&mut contract, 900_000_000i128, now + 86400, "A test campaign", 1_000_000i128, now);

    let refused = contract
        .donate(&donor, 0, now, AuthProof::Granted, TransferOutcome::Completed)
        .unwrap_err();
    assert_eq!(refused, EscrowError::AmountNotPositive);
    assert_eq!(contract.get_total_raised(), 0);
    panic!("{}", refused.message());
}

#[test]
#[should_panic(expected = "Donation amount must be positive")]
fn test_donate_negative_amount() {
    let env = Env::default();
    let mut contract = CrowdfundingContract::new(&env);

    let now: u64 = 0;
    let donor = account(DONOR);
    set_up(&mut contract, 900_000_000i128, now + 86400, "A test campaign", 1_000_000i128, now);

    let refused = contract
        .donate(&donor, -100_000_000, now, AuthProof::Granted, TransferOutcome::Completed)
        .unwrap_err();
    assert_eq!(refused, EscrowError::AmountNotPositive);
    assert_eq!(contract.get_total_raised(), 0);
    panic!("{}", refused.message());
}

#[test]
#[should_panic(expected = "Campaign has ended")]
fn test_donate_after_deadline() {
    let env = Env::default();
    let mut contract = CrowdfundingContract::new(&env);

    let now: u64 = 0;
    let donor = account(DONOR);
    let deadline = now + 100;
    set_up(&mut contract, 900_000_000i128, deadline, "A test campaign", 1_000_000i128, now);

    let now = deadline + 1;

    let refused = contract
        .donate(&donor, 100_000_000, now, AuthProof::Granted, TransferOutcome::Completed)
        .unwrap_err();
    assert_eq!(refused, EscrowError::CampaignEnded);
    assert_eq!(contract.get_campaign_status(), CampaignStatus::Failed.code());
    panic!("{}", refused.message());
}

#[test]
fn test_is_already_init_before_initialization() {
    let env = Env::default();
    let contract = CrowdfundingContract::new(&env);

    assert_eq!(contract.get_is_already_init(), false);
}

#[test]
fn test_is_already_init_after_initialization() {
    let env = Env::default();
    let mut contract = CrowdfundingContract::new(&env);

    let now: u64 = 0;
    assert_eq!(contract.get_is_already_init(), false);

    set_up(&mut contract, 900_000_000i128, now + 86400, "A test campaign", 1_000_000i128, now);

    assert_eq!(contract.get_is_already_init(), true);
}

#[test]
fn test_is_already_init_persists() {
    let env = Env::default();
    let mut contract = CrowdfundingContract::new(&env);

    let now: u64 = 0;
    let donor = account(DONOR);
    set_up(&mut contract, 900_000_000i128, now + 86400, "A test campaign", 1_000_000i128, now);

    assert_eq!(contract.get_is_already_init(), true);

    let _ = contract.get_total_raised();
    let _ = contract.get_donation(&donor);

    assert_eq!(contract.get_is_already_init(), true);
}

#[test]
fn test_get_campaign_info() {
    let env = Env::default();
    let mut contract = CrowdfundingContract::new(&env);

    let now: u64 = 0;
    let owner = account(OWNER);
    let goal = 900_000_000i128;
    let deadline = now + 86400;
    let title = String::from("Test Campaign");
    let description = String::from("A test campaign for fundraising");
    let image_url = String::from("https://example.com/image.jpg");
    let min_donation = 1_000_000i128;

    set_up(&mut contract, goal, deadline, "A test campaign for fundraising", min_donation, now);

    let (
        ret_owner,
        ret_goal,
        ret_deadline,
        ret_title,
        ret_desc,
        ret_image,
        ret_min_don,
        ret_status,
    ) = contract.get_campaign_info();

    assert_eq!(ret_owner, owner);
    assert_eq!(ret_goal, goal);
    assert_eq!(ret_deadline, deadline);
    assert_eq!(ret_title, title);
    assert_eq!(ret_desc, description);
    assert_eq!(ret_image, image_url);
    assert_eq!(ret_min_don, min_donation);
    assert_eq!(ret_status, 0);
}

#[test]
#[should_panic(expected = "Donation below minimum amount")]
fn test_donate_below_minimum() {
    let env = Env::default();
    let mut contract = CrowdfundingContract::new(&env);

    let now: u64 = 0;
    let donor = account(DONOR);
    set_up(&mut contract, 900_000_000i128, now + 86400, "A test campaign", 10_000_000i128, now);

    let refused = contract
        .donate(&donor, 1_000_000, now, AuthProof::Granted, TransferOutcome::Completed)
        .unwrap_err();
    assert_eq!(refused, EscrowError::BelowMinimumDonation);
    assert_eq!(contract.get_total_raised(), 0);
    panic!("{}", refused.message());
}

#[test]
fn test_progress_percentage() {
    let env = Env::default();
    let mut contract = CrowdfundingContract::new(&env);

    let now: u64 = 0;
    set_up(&mut contract, 100_000_000i128, now + 86400, "A test campaign", 1_000_000i128, now);

    assert_eq!(contract.get_progress_percentage(), 0);
    assert_eq!(contract.get_total_raised(), 0);
}

#[test]
fn test_deadline_check() {
    let env = Env::default();
    let mut contract = CrowdfundingContract::new(&env);

    let now: u64 = 0;
    let deadline = now + 86400;
    set_up(&mut contract, 900_000_000i128, deadline, "A test campaign", 1_000_000i128, now);

    assert_eq!(contract.is_deadline_passed(now), false);

    let now = deadline + 1;

    assert_eq!(contract.is_deadline_passed(now), true);
}
