use sahayog_donation::{
    donate, initialize, toggle_active, Donate, DonationState, Identity, Initialize, Phase,
    SahayogError, ToggleActive, TransferKind, MAX_CAMPAIGN_DURATION, MAX_DONATION_LAMPORTS,
    MAX_MESSAGE_LENGTH, MIN_DONATION_LAMPORTS,
};

fn id(tag: u8) -> Identity {
    Identity::new([tag; 32])
}

fn campaign(deadline: i64) -> DonationState {
    let ctx = Initialize { authority: id(1), bump: 254 };
    initialize(&ctx, id(2), deadline, deadline - 1000).unwrap()
}

fn giving(donor: u8) -> Donate {
    Donate { donor: id(donor), fund_wallet: id(2) }
}

#[test]
fn constants_have_their_documented_values() {
    assert_eq!(MIN_DONATION_LAMPORTS, 100_000);
    assert_eq!(MAX_DONATION_LAMPORTS, 500_000_000_000);
    assert_eq!(MAX_CAMPAIGN_DURATION, 180 * 24 * 60 * 60);
    assert_eq!(MAX_MESSAGE_LENGTH, 280);
}

#[test]
fn identities_compare_by_every_byte() {
    let mut bytes = [7u8; 32];
    let a = Identity::new(bytes);
    assert!(a == Identity::new([7u8; 32]));
    assert_eq!(a.to_bytes(), [7u8; 32]);
    bytes[31] = 8;
    assert!(a != Identity::new(bytes));
    bytes[31] = 7;
    bytes[0] = 0;
    assert!(a != Identity::new(bytes));
}

#[test]
fn initialize_rejects_deadline_equal_to_now() {
    let ctx = Initialize { authority: id(1), bump: 255 };
    assert_eq!(initialize(&ctx, id(2), 1000, 1000).unwrap_err(), SahayogError::DeadlineInPast);
}

#[test]
fn initialize_rejects_deadline_before_now() {
    let ctx = Initialize { authority: id(1), bump: 255 };
    assert_eq!(initialize(&ctx, id(2), 999, 1000).unwrap_err(), SahayogError::DeadlineInPast);
    assert_eq!(
        initialize(&ctx, id(2), i64::MIN, i64::MAX).unwrap_err(),
        SahayogError::DeadlineInPast
    );
}

#[test]
fn initialize_rejects_deadline_one_second_past_the_limit() {
    let ctx = Initialize { authority: id(1), bump: 255 };
    assert_eq!(
        initialize(&ctx, id(2), 1000 + 15_552_001, 1000).unwrap_err(),
        SahayogError::CampaignTooLong
    );
    assert_eq!(
        initialize(&ctx, id(2), i64::MAX, i64::MIN).unwrap_err(),
        SahayogError::CampaignTooLong
    );
}

#[test]
fn initialize_accepts_deadline_at_the_limit() {
    let ctx = Initialize { authority: id(1), bump: 253 };
    let state = initialize(&ctx, id(2), 1000 + 15_552_000, 1000).unwrap();
    assert!(state.authority == id(1));
    assert!(state.fund_wallet == id(2));
    assert_eq!(state.total_donated, 0);
    assert_eq!(state.total_withdrawn, 0);
    assert_eq!(state.donor_count, 0);
    assert!(state.is_active);
    assert_eq!(state.deadline, 15_553_000);
    assert_eq!(state.bump, 253);
    assert_eq!(state.available(), 0);
}

#[test]
fn initialize_accepts_the_nearest_deadline() {
    let ctx = Initialize { authority: id(1), bump: 0 };
    let state = initialize(&ctx, id(2), 1001, 1000).unwrap();
    assert_eq!(state.deadline, 1001);
}

#[test]
fn initialize_near_the_largest_timestamp() {
    let ctx = Initialize { authority: id(1), bump: 0 };
    let state = initialize(&ctx, id(2), i64::MAX, i64::MAX - 5).unwrap();
    assert_eq!(state.deadline, i64::MAX);
    assert_eq!(
        initialize(&ctx, id(2), i64::MAX, i64::MAX - 15_552_001).unwrap_err(),
        SahayogError::CampaignTooLong
    );
    assert!(initialize(&ctx, id(2), i64::MAX, i64::MAX - 15_552_000).is_ok());
}

#[test]
fn initialize_with_times_before_the_epoch() {
    let ctx = Initialize { authority: id(1), bump: 0 };
    assert!(initialize(&ctx, id(2), 10, -10).is_ok());
    assert_eq!(
        initialize(&ctx, id(2), 15_552_000, -1).unwrap_err(),
        SahayogError::CampaignTooLong
    );
}

#[test]
fn expired_from_the_deadline_on() {
    let state = campaign(5000);
    assert!(!state.expired(4999));
    assert!(state.expired(5000));
    assert!(state.expired(5001));
}

#[test]
fn phase_follows_pause_and_deadline() {
    let mut state = campaign(5000);
    assert_eq!(state.phase(4999), Phase::Active);
    assert_eq!(state.phase(5000), Phase::Expired);
    state.is_active = false;
    assert_eq!(state.phase(4999), Phase::Paused);
    assert_eq!(state.phase(5000), Phase::Expired);
    assert_eq!(state.phase(i64::MAX), Phase::Expired);
    assert_eq!(state.phase(i64::MIN), Phase::Paused);
}

#[test]
fn donate_rejects_amount_just_below_minimum() {
    let state = campaign(5000);
    assert_eq!(
        donate(&state, &giving(9), 99_999, String::from("hi"), 4500).unwrap_err(),
        SahayogError::DonationTooSmall
    );
    assert_eq!(
        donate(&state, &giving(9), 0, String::new(), 4500).unwrap_err(),
        SahayogError::DonationTooSmall
    );
}

#[test]
fn donate_rejects_amount_just_above_maximum() {
    let state = campaign(5000);
    assert_eq!(
        donate(&state, &giving(9), 500_000_000_001, String::from("hi"), 4500).unwrap_err(),
        SahayogError::DonationTooLarge
    );
    assert_eq!(
        donate(&state, &giving(9), u64::MAX, String::new(), 4500).unwrap_err(),
        SahayogError::DonationTooLarge
    );
}

#[test]
fn donate_accepts_the_bounds_and_names_the_transfer() {
    let state = campaign(5000);
    let low = donate(&state, &giving(9), 100_000, String::from("hi"), 4500).unwrap();
    assert_eq!(low.kind, TransferKind::Donation);
    assert!(low.from == id(9));
    assert!(low.to == id(2));
    assert_eq!(low.amount, 100_000);
    let high = donate(&state, &giving(9), 500_000_000_000, String::new(), 4999).unwrap();
    assert_eq!(high.amount, 500_000_000_000);
    assert!(high.from == id(9));
    assert!(high.to == id(2));
}

#[test]
fn donate_changes_nothing_by_itself() {
    let state = campaign(5000);
    let before = state;
    donate(&state, &giving(9), 100_000, String::new(), 4500).unwrap();
    assert_eq!(state.total_donated, before.total_donated);
    assert_eq!(state.donor_count, before.donor_count);
}

#[test]
fn donate_rejects_paused_campaign() {
    let mut state = campaign(5000);
    state.is_active = false;
    assert_eq!(
        donate(&state, &giving(9), 100_000, String::new(), 4500).unwrap_err(),
        SahayogError::CampaignInactive
    );
}

#[test]
fn donate_rejects_from_the_deadline_on() {
    let state = campaign(5000);
    assert_eq!(
        donate(&state, &giving(9), 100_000, String::new(), 5000).unwrap_err(),
        SahayogError::CampaignExpired
    );
    assert_eq!(
        donate(&state, &giving(9), 100_000, String::new(), 5001).unwrap_err(),
        SahayogError::CampaignExpired
    );
    assert!(donate(&state, &giving(9), 100_000, String::new(), 4999).is_ok());
}

#[test]
fn donate_rejects_message_of_281_characters() {
    let state = campaign(5000);
    assert_eq!(
        donate(&state, &giving(9), 100_000, "a".repeat(281), 4500).unwrap_err(),
        SahayogError::MessageTooLong
    );
    assert!(donate(&state, &giving(9), 100_000, "a".repeat(280), 4500).is_ok());
}

#[test]
fn donate_counts_characters_not_bytes() {
    let state = campaign(5000);
    let text = "\u{e9}".repeat(280);
    assert_eq!(text.len(), 560);
    assert!(donate(&state, &giving(9), 100_000, text, 4500).is_ok());
    assert_eq!(
        donate(&state, &giving(9), 100_000, "\u{e9}".repeat(281), 4500).unwrap_err(),
        SahayogError::MessageTooLong
    );
}

#[test]
fn donate_rejects_another_treasury() {
    let state = campaign(5000);
    let ctx = Donate { donor: id(9), fund_wallet: id(3) };
    assert_eq!(
        donate(&state, &ctx, 100_000, String::new(), 4500).unwrap_err(),
        SahayogError::InvalidFundWallet
    );
}

#[test]
fn donate_reports_the_first_failure() {
    let mut state = campaign(5000);
    state.is_active = false;
    // paused, expired, too small and too long at once
    assert_eq!(
        donate(&state, &giving(9), 1, "a".repeat(300), 6000).unwrap_err(),
        SahayogError::CampaignInactive
    );
    state.is_active = true;
    assert_eq!(
        donate(&state, &giving(9), 1, "a".repeat(300), 6000).unwrap_err(),
        SahayogError::CampaignExpired
    );
    assert_eq!(
        donate(&state, &giving(9), 1, "a".repeat(300), 4000).unwrap_err(),
        SahayogError::DonationTooSmall
    );
    assert_eq!(
        donate(&state, &giving(9), u64::MAX, "a".repeat(300), 4000).unwrap_err(),
        SahayogError::DonationTooLarge
    );
    assert_eq!(
        donate(&state, &giving(9), 200_000, "a".repeat(300), 4000).unwrap_err(),
        SahayogError::MessageTooLong
    );
}

#[test]
fn toggle_flips_once_per_call() {
    let mut state = campaign(5000);
    let before = state;
    let ctx = ToggleActive { authority: id(1) };
    assert_eq!(toggle_active(&mut state, &ctx), Ok(()));
    assert!(!state.is_active);
    assert_eq!(toggle_active(&mut state, &ctx), Ok(()));
    assert!(state.is_active);
    assert!(state.authority == before.authority);
    assert!(state.fund_wallet == before.fund_wallet);
    assert_eq!(state.total_donated, before.total_donated);
    assert_eq!(state.total_withdrawn, before.total_withdrawn);
    assert_eq!(state.donor_count, before.donor_count);
    assert_eq!(state.deadline, before.deadline);
    assert_eq!(state.bump, before.bump);
}

#[test]
fn toggle_refuses_a_stranger() {
    let mut state = campaign(5000);
    let ctx = ToggleActive { authority: id(7) };
    assert_eq!(toggle_active(&mut state, &ctx), Err(SahayogError::Unauthorized));
    assert!(state.is_active);
}

#[test]
fn toggle_works_after_the_deadline() {
    let mut state = campaign(5000);
    let ctx = ToggleActive { authority: id(1) };
    assert!(state.expired(9000));
    assert_eq!(toggle_active(&mut state, &ctx), Ok(()));
    assert!(!state.is_active);
}

#[test]
fn error_messages() {
    assert_eq!(
        SahayogError::Unauthorized.message(),
        "Unauthorized: Only the campaign authority can perform this action"
    );
    assert_eq!(SahayogError::CampaignInactive.message(), "Campaign is not active");
    assert_eq!(SahayogError::CampaignExpired.message(), "Campaign has expired");
    assert_eq!(
        SahayogError::DonationTooSmall.message(),
        "Donation amount is below minimum (0.0001 SOL)"
    );
    assert_eq!(
        SahayogError::DonationTooLarge.message(),
        "Donation amount exceeds maximum (500 SOL)"
    );
    assert_eq!(
        SahayogError::MessageTooLong.message(),
        "Message exceeds maximum length (280 characters)"
    );
    assert_eq!(SahayogError::DeadlineInPast.message(), "Deadline must be in the future");
    assert_eq!(
        SahayogError::CampaignTooLong.message(),
        "Campaign duration exceeds maximum (180 days)"
    );
    assert_eq!(
        SahayogError::WithdrawalBeforeDeadline.message(),
        "Withdrawal not allowed before campaign deadline"
    );
    assert_eq!(SahayogError::InsufficientFunds.message(), "Insufficient funds for withdrawal");
    assert_eq!(SahayogError::ZeroAmount.message(), "Amount must be greater than zero");
    assert_eq!(SahayogError::InvalidFundWallet.message(), "Invalid fund wallet address");
    assert_eq!(SahayogError::TransferFailed.message(), "Transfer of funds failed");
}
