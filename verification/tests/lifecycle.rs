use deadmansswitch::{
    cancel_switch, initialize_switch, initialize_switch_with_assets, send_heartbeat,
    trigger_expiry, validate_switch, validate_switch_with_assets, Address, AssetAllocation,
    AssetType, Beneficiary, BeneficiaryAllocation, ErrorCode, Switch, SwitchStatus, TokenType,
    BASIS_POINTS_TOTAL, MAX_BENEFICIARIES, MAX_SWITCH_ID_LEN,
};

fn address(tag: u8) -> Address {
    Address { bytes: [tag; 32] }
}

fn halves() -> Vec<Beneficiary> {
    vec![
        Beneficiary { address: address(1), share_bps: 5000 },
        Beneficiary { address: address(2), share_bps: 5000 },
    ]
}

fn shares(values: &[u16]) -> Vec<Beneficiary> {
    let mut list = Vec::new();
    for (i, value) in values.iter().enumerate() {
        list.push(Beneficiary { address: address(i as u8 + 1), share_bps: *value });
    }
    list
}

fn active_switch(now: i64, timeout: i64) -> Switch {
    initialize_switch(address(9), 254, now, String::from("vault"), timeout, halves(), TokenType::Sol)
        .unwrap()
}

fn one_asset(tag: u8) -> BeneficiaryAllocation {
    BeneficiaryAllocation {
        address: address(tag),
        assets: vec![AssetAllocation { asset_type: AssetType::Sol, amount: 500 }],
    }
}

#[test]
fn initialize_creates_an_active_switch() {
    let switch = initialize_switch(
        address(9),
        254,
        1_000,
        String::from("vault"),
        3_600,
        halves(),
        TokenType::Sol,
    )
    .unwrap();
    assert_eq!(switch.owner, address(9));
    assert_eq!(switch.switch_id, "vault");
    assert_eq!(switch.beneficiaries, halves());
    assert_eq!(switch.token_type, TokenType::Sol);
    assert_eq!(switch.timeout_seconds, 3_600);
    assert_eq!(switch.heartbeat_deadline, 4_600);
    assert_eq!(switch.status, SwitchStatus::Active);
    assert_eq!(switch.bump, 254);
    assert!(switch.is_well_formed());
}

#[test]
fn initialize_keeps_the_token_mint() {
    let token = TokenType::Spl { mint: address(77) };
    let switch =
        initialize_switch(address(9), 1, 0, String::from("t"), 1, halves(), token).unwrap();
    assert_eq!(switch.token_type, TokenType::Spl { mint: address(77) });
    assert_eq!(switch.heartbeat_deadline, 1);
}

#[test]
fn initialize_at_a_negative_time() {
    let switch =
        initialize_switch(address(9), 1, -500, String::from("t"), 200, halves(), TokenType::Sol)
            .unwrap();
    assert_eq!(switch.heartbeat_deadline, -300);
}

#[test]
fn initialize_up_to_the_largest_time() {
    let switch = initialize_switch(
        address(9),
        1,
        i64::MAX - 10,
        String::from("t"),
        10,
        halves(),
        TokenType::Sol,
    )
    .unwrap();
    assert_eq!(switch.heartbeat_deadline, i64::MAX);
}

#[test]
fn initialize_rejects_shares_below_the_whole() {
    let result = initialize_switch(
        address(9),
        1,
        0,
        String::from("vault"),
        60,
        shares(&[5000, 4999]),
        TokenType::Sol,
    );
    assert_eq!(result, Err(ErrorCode::InvalidShareDistribution));
}

#[test]
fn initialize_rejects_shares_above_the_whole() {
    let result = initialize_switch(
        address(9),
        1,
        0,
        String::from("vault"),
        60,
        shares(&[5000, 5001]),
        TokenType::Sol,
    );
    assert_eq!(result, Err(ErrorCode::InvalidShareDistribution));
}

#[test]
fn initialize_rejects_shares_that_only_wrap_to_the_whole() {
    // 60000 + 15536 is 10000 modulo 65536, and is not 10000.
    let result = initialize_switch(
        address(9),
        1,
        0,
        String::from("vault"),
        60,
        shares(&[60000, 15536]),
        TokenType::Sol,
    );
    assert_eq!(result, Err(ErrorCode::InvalidShareDistribution));
}

#[test]
fn initialize_accepts_a_single_beneficiary_with_everything() {
    let result = initialize_switch(
        address(9),
        1,
        0,
        String::from("vault"),
        60,
        shares(&[10000]),
        TokenType::Sol,
    );
    assert!(result.is_ok());
}

#[test]
fn initialize_accepts_zero_shares_beside_others() {
    let result = initialize_switch(
        address(9),
        1,
        0,
        String::from("vault"),
        60,
        shares(&[0, 10000, 0]),
        TokenType::Sol,
    );
    assert!(result.is_ok());
}

#[test]
fn initialize_rejects_an_empty_identifier() {
    let result =
        initialize_switch(address(9), 1, 0, String::new(), 60, halves(), TokenType::Sol);
    assert_eq!(result, Err(ErrorCode::InvalidSwitchId));
}

#[test]
fn initialize_accepts_an_identifier_of_32_bytes() {
    let id = "a".repeat(32);
    let result = initialize_switch(address(9), 1, 0, id, 60, halves(), TokenType::Sol);
    assert!(result.is_ok());
}

#[test]
fn initialize_rejects_an_identifier_of_33_bytes() {
    let id = "a".repeat(33);
    let result = initialize_switch(address(9), 1, 0, id, 60, halves(), TokenType::Sol);
    assert_eq!(result, Err(ErrorCode::InvalidSwitchId));
}

#[test]
fn initialize_counts_the_bytes_of_an_identifier() {
    // Seventeen letters of two bytes each: 34 bytes.
    let id = "\u{e9}".repeat(17);
    let result = initialize_switch(address(9), 1, 0, id, 60, halves(), TokenType::Sol);
    assert_eq!(result, Err(ErrorCode::InvalidSwitchId));
    // Sixteen of them take exactly 32 bytes.
    let id = "\u{e9}".repeat(16);
    let result = initialize_switch(address(9), 1, 0, id, 60, halves(), TokenType::Sol);
    assert!(result.is_ok());
}

#[test]
fn initialize_rejects_an_empty_beneficiary_list() {
    let result = initialize_switch(
        address(9),
        1,
        0,
        String::from("vault"),
        60,
        Vec::new(),
        TokenType::Sol,
    );
    assert_eq!(result, Err(ErrorCode::InvalidBeneficiaryCount));
}

#[test]
fn initialize_accepts_ten_beneficiaries() {
    let result = initialize_switch(
        address(9),
        1,
        0,
        String::from("vault"),
        60,
        shares(&[1000; 10]),
        TokenType::Sol,
    );
    assert!(result.is_ok());
}

#[test]
fn initialize_rejects_eleven_beneficiaries() {
    let mut list = shares(&[1000; 10]);
    list.push(Beneficiary { address: address(50), share_bps: 0 });
    let result =
        initialize_switch(address(9), 1, 0, String::from("vault"), 60, list, TokenType::Sol);
    assert_eq!(result, Err(ErrorCode::InvalidBeneficiaryCount));
}

#[test]
fn initialize_rejects_a_timeout_of_zero() {
    let result =
        initialize_switch(address(9), 1, 0, String::from("vault"), 0, halves(), TokenType::Sol);
    assert_eq!(result, Err(ErrorCode::InvalidTimeout));
}

#[test]
fn initialize_rejects_a_negative_timeout() {
    let result = initialize_switch(
        address(9),
        1,
        0,
        String::from("vault"),
        -1,
        halves(),
        TokenType::Sol,
    );
    assert_eq!(result, Err(ErrorCode::InvalidTimeout));
    let result = initialize_switch(
        address(9),
        1,
        0,
        String::from("vault"),
        i64::MIN,
        halves(),
        TokenType::Sol,
    );
    assert_eq!(result, Err(ErrorCode::InvalidTimeout));
}

#[test]
fn initialize_reports_the_first_violation() {
    // Identifier before everything else.
    let result =
        initialize_switch(address(9), 1, 0, String::new(), 0, Vec::new(), TokenType::Sol);
    assert_eq!(result, Err(ErrorCode::InvalidSwitchId));
    // Beneficiary count before shares and timeout.
    let result =
        initialize_switch(address(9), 1, 0, String::from("v"), 0, Vec::new(), TokenType::Sol);
    assert_eq!(result, Err(ErrorCode::InvalidBeneficiaryCount));
    // Shares before timeout.
    let result = initialize_switch(
        address(9),
        1,
        0,
        String::from("v"),
        0,
        shares(&[9999]),
        TokenType::Sol,
    );
    assert_eq!(result, Err(ErrorCode::InvalidShareDistribution));
}

#[test]
fn initialize_with_assets_lists_the_addresses_without_shares() {
    let switch = initialize_switch_with_assets(
        address(9),
        200,
        50,
        String::from("estate"),
        100,
        vec![one_asset(4), one_asset(5)],
    )
    .unwrap();
    assert_eq!(switch.owner, address(9));
    assert_eq!(switch.switch_id, "estate");
    assert_eq!(
        switch.beneficiaries,
        vec![
            Beneficiary { address: address(4), share_bps: 0 },
            Beneficiary { address: address(5), share_bps: 0 },
        ]
    );
    assert_eq!(switch.token_type, TokenType::Sol);
    assert_eq!(switch.timeout_seconds, 100);
    assert_eq!(switch.heartbeat_deadline, 150);
    assert_eq!(switch.status, SwitchStatus::Active);
    assert_eq!(switch.bump, 200);
    assert!(switch.is_well_formed());
}

#[test]
fn initialize_with_assets_rejects_a_beneficiary_without_assets() {
    let empty = BeneficiaryAllocation { address: address(5), assets: Vec::new() };
    let result = initialize_switch_with_assets(
        address(9),
        1,
        0,
        String::from("estate"),
        100,
        vec![one_asset(4), empty],
    );
    assert_eq!(result, Err(ErrorCode::InvalidAssetAllocation));
}

#[test]
fn initialize_with_assets_rejects_bad_parameters() {
    let result =
        initialize_switch_with_assets(address(9), 1, 0, String::new(), 100, vec![one_asset(4)]);
    assert_eq!(result, Err(ErrorCode::InvalidSwitchId));
    let result = initialize_switch_with_assets(
        address(9),
        1,
        0,
        "b".repeat(33),
        100,
        vec![one_asset(4)],
    );
    assert_eq!(result, Err(ErrorCode::InvalidSwitchId));
    let result =
        initialize_switch_with_assets(address(9), 1, 0, String::from("e"), 100, Vec::new());
    assert_eq!(result, Err(ErrorCode::InvalidBeneficiaryCount));
    let eleven: Vec<BeneficiaryAllocation> = (0..11).map(|i| one_asset(i as u8)).collect();
    let result = initialize_switch_with_assets(address(9), 1, 0, String::from("e"), 100, eleven);
    assert_eq!(result, Err(ErrorCode::InvalidBeneficiaryCount));
    let result = initialize_switch_with_assets(
        address(9),
        1,
        0,
        String::from("e"),
        0,
        vec![one_asset(4)],
    );
    assert_eq!(result, Err(ErrorCode::InvalidTimeout));
}

#[test]
fn initialize_with_assets_checks_the_timeout_before_the_allocations() {
    let empty = BeneficiaryAllocation { address: address(5), assets: Vec::new() };
    let result =
        initialize_switch_with_assets(address(9), 1, 0, String::from("e"), -5, vec![empty]);
    assert_eq!(result, Err(ErrorCode::InvalidTimeout));
}

#[test]
fn the_limits_are_what_they_are() {
    assert_eq!(MAX_BENEFICIARIES, 10);
    assert_eq!(BASIS_POINTS_TOTAL, 10_000);
    assert_eq!(MAX_SWITCH_ID_LEN, 32);
}

#[test]
fn validation_reports_what_initialize_reports() {
    let id = String::from("vault");
    assert_eq!(validate_switch(&id, 60, &halves()), Ok(()));
    assert_eq!(validate_switch(&String::new(), 60, &halves()), Err(ErrorCode::InvalidSwitchId));
    assert_eq!(validate_switch(&id, 60, &Vec::new()), Err(ErrorCode::InvalidBeneficiaryCount));
    assert_eq!(
        validate_switch(&id, 60, &shares(&[1, 2, 3])),
        Err(ErrorCode::InvalidShareDistribution)
    );
    assert_eq!(validate_switch(&id, 0, &halves()), Err(ErrorCode::InvalidTimeout));

    let owed = vec![one_asset(4)];
    assert_eq!(validate_switch_with_assets(&id, 60, &owed), Ok(()));
    assert_eq!(
        validate_switch_with_assets(&String::new(), 60, &owed),
        Err(ErrorCode::InvalidSwitchId)
    );
    assert_eq!(
        validate_switch_with_assets(&id, 60, &Vec::new()),
        Err(ErrorCode::InvalidBeneficiaryCount)
    );
    assert_eq!(validate_switch_with_assets(&id, -1, &owed), Err(ErrorCode::InvalidTimeout));
    let empty = vec![BeneficiaryAllocation { address: address(5), assets: Vec::new() }];
    assert_eq!(
        validate_switch_with_assets(&id, 60, &empty),
        Err(ErrorCode::InvalidAssetAllocation)
    );
}

#[test]
fn a_switch_tells_what_it_would_accept() {
    let mut switch = active_switch(1_000, 100);
    assert_eq!(switch.accepts_heartbeat(1_100), Ok(()));
    assert_eq!(switch.accepts_heartbeat(1_101), Err(ErrorCode::SwitchAlreadyExpired));
    assert_eq!(switch.accepts_expiry(1_100), Err(ErrorCode::DeadlineNotPassed));
    assert_eq!(switch.accepts_expiry(1_101), Ok(()));
    assert_eq!(switch.accepts_cancel(), Ok(()));
    // Asking changes nothing.
    assert_eq!(switch, active_switch(1_000, 100));

    assert_eq!(trigger_expiry(&mut switch, 1_101), Ok(()));
    assert_eq!(switch.accepts_heartbeat(1_050), Err(ErrorCode::SwitchNotActive));
    assert_eq!(switch.accepts_expiry(1_200), Err(ErrorCode::SwitchNotActive));
    assert_eq!(switch.accepts_cancel(), Err(ErrorCode::SwitchNotActive));
}

#[test]
fn an_early_heartbeat_still_moves_the_deadline_away() {
    let mut switch = active_switch(1_000, 100);
    assert_eq!(send_heartbeat(&mut switch, 1_000), Ok(()));
    assert_eq!(switch.heartbeat_deadline, 1_100);
    assert_eq!(send_heartbeat(&mut switch, 1_001), Ok(()));
    assert_eq!(switch.heartbeat_deadline, 1_101);
}

#[test]
fn heartbeat_before_the_deadline_moves_it() {
    let mut switch = active_switch(1_000, 100);
    assert_eq!(switch.heartbeat_deadline, 1_100);
    assert_eq!(send_heartbeat(&mut switch, 1_050), Ok(()));
    assert_eq!(switch.heartbeat_deadline, 1_150);
    assert_eq!(switch.status, SwitchStatus::Active);
    assert_eq!(switch.timeout_seconds, 100);
    assert_eq!(switch.owner, address(9));
    assert_eq!(switch.beneficiaries, halves());
}

#[test]
fn heartbeat_at_the_deadline_is_in_time() {
    let mut switch = active_switch(1_000, 100);
    assert_eq!(send_heartbeat(&mut switch, 1_100), Ok(()));
    assert_eq!(switch.heartbeat_deadline, 1_200);
    assert_eq!(switch.status, SwitchStatus::Active);
}

#[test]
fn heartbeat_after_the_deadline_is_refused() {
    let mut switch = active_switch(1_000, 100);
    assert_eq!(send_heartbeat(&mut switch, 1_101), Err(ErrorCode::SwitchAlreadyExpired));
    assert_eq!(switch.heartbeat_deadline, 1_100);
    assert_eq!(switch.status, SwitchStatus::Active);
}

#[test]
fn heartbeat_needs_an_active_switch() {
    let mut switch = active_switch(1_000, 100);
    assert_eq!(trigger_expiry(&mut switch, 2_000), Ok(()));
    assert_eq!(send_heartbeat(&mut switch, 1_050), Err(ErrorCode::SwitchNotActive));
    assert_eq!(switch.heartbeat_deadline, 1_100);
    assert_eq!(switch.status, SwitchStatus::Expired);

    let mut switch = active_switch(1_000, 100);
    assert_eq!(cancel_switch(&mut switch), Ok(()));
    assert_eq!(send_heartbeat(&mut switch, 1_050), Err(ErrorCode::SwitchNotActive));
    assert_eq!(switch.heartbeat_deadline, 1_100);
    assert_eq!(switch.status, SwitchStatus::Canceled);
}

#[test]
fn repeated_heartbeats_keep_the_switch_alive() {
    let mut switch = active_switch(0, 10);
    let mut now = 0;
    while now < 100 {
        now += 10;
        assert_eq!(send_heartbeat(&mut switch, now), Ok(()));
        assert_eq!(switch.heartbeat_deadline, now + 10);
    }
    assert_eq!(trigger_expiry(&mut switch, 105), Err(ErrorCode::DeadlineNotPassed));
    assert_eq!(switch.status, SwitchStatus::Active);
}

#[test]
fn expiry_waits_for_the_deadline_to_pass() {
    let mut switch = active_switch(1_000, 100);
    assert_eq!(trigger_expiry(&mut switch, 1_099), Err(ErrorCode::DeadlineNotPassed));
    assert_eq!(trigger_expiry(&mut switch, 1_100), Err(ErrorCode::DeadlineNotPassed));
    assert_eq!(switch.status, SwitchStatus::Active);
    assert_eq!(switch.heartbeat_deadline, 1_100);
}

#[test]
fn expiry_succeeds_exactly_once() {
    let mut switch = active_switch(1_000, 100);
    assert_eq!(trigger_expiry(&mut switch, 1_101), Ok(()));
    assert_eq!(switch.status, SwitchStatus::Expired);
    assert_eq!(switch.heartbeat_deadline, 1_100);
    assert_eq!(trigger_expiry(&mut switch, 1_102), Err(ErrorCode::SwitchNotActive));
    assert_eq!(switch.status, SwitchStatus::Expired);
}

#[test]
fn cancel_succeeds_from_active_only() {
    let mut switch = active_switch(1_000, 100);
    assert_eq!(cancel_switch(&mut switch), Ok(()));
    assert_eq!(switch.status, SwitchStatus::Canceled);
    assert_eq!(switch.heartbeat_deadline, 1_100);
    assert_eq!(cancel_switch(&mut switch), Err(ErrorCode::SwitchNotActive));
    assert_eq!(switch.status, SwitchStatus::Canceled);
}

#[test]
fn a_canceled_switch_never_expires() {
    let mut switch = active_switch(1_000, 100);
    assert_eq!(cancel_switch(&mut switch), Ok(()));
    assert_eq!(trigger_expiry(&mut switch, 5_000), Err(ErrorCode::SwitchNotActive));
    assert_eq!(switch.status, SwitchStatus::Canceled);
}

#[test]
fn an_expired_switch_is_never_canceled() {
    let mut switch = active_switch(1_000, 100);
    assert_eq!(trigger_expiry(&mut switch, 5_000), Ok(()));
    assert_eq!(cancel_switch(&mut switch), Err(ErrorCode::SwitchNotActive));
    assert_eq!(switch.status, SwitchStatus::Expired);
}

#[test]
fn well_formedness_is_told_from_the_fields() {
    let good = active_switch(0, 10);
    assert!(good.is_well_formed());

    let mut bad = good.clone();
    bad.switch_id = String::new();
    assert!(!bad.is_well_formed());

    let mut bad = good.clone();
    bad.switch_id = "x".repeat(33);
    assert!(!bad.is_well_formed());

    let mut bad = good.clone();
    bad.beneficiaries = Vec::new();
    assert!(!bad.is_well_formed());

    let mut bad = good.clone();
    bad.beneficiaries = shares(&[1000; 11]);
    assert!(!bad.is_well_formed());

    let mut bad = good.clone();
    bad.timeout_seconds = 0;
    assert!(!bad.is_well_formed());

    let mut bad = good.clone();
    bad.beneficiaries = shares(&[5000, 4000]);
    assert!(!bad.is_well_formed());

    let mut zero = good.clone();
    zero.beneficiaries = shares(&[0, 0]);
    assert!(zero.is_well_formed());
}

#[test]
fn every_error_has_its_message() {
    assert_eq!(ErrorCode::InvalidSwitchId.message(), "Invalid switch ID (1-32 characters allowed)");
    assert_eq!(
        ErrorCode::InvalidBeneficiaryCount.message(),
        "Invalid number of beneficiaries (1-10 allowed)"
    );
    assert_eq!(
        ErrorCode::InvalidShareDistribution.message(),
        "Beneficiary shares must sum to 10000 basis points (100%)"
    );
    assert_eq!(ErrorCode::InvalidTimeout.message(), "Timeout must be positive");
    assert_eq!(ErrorCode::SwitchNotActive.message(), "Switch is not active");
    assert_eq!(ErrorCode::DeadlineNotPassed.message(), "Deadline has not passed yet");
    assert_eq!(ErrorCode::SwitchNotExpired.message(), "Switch has not expired");
    assert_eq!(ErrorCode::SwitchNotCanceled.message(), "Switch has not been canceled");
    assert_eq!(
        ErrorCode::SwitchAlreadyExpired.message(),
        "Switch has already expired - heartbeat rejected"
    );
    assert_eq!(ErrorCode::InvalidTokenType.message(), "Invalid token type for this operation");
    assert_eq!(ErrorCode::InsufficientFunds.message(), "Insufficient funds in escrow");
    assert_eq!(ErrorCode::BeneficiaryNotFound.message(), "Beneficiary not found");
    assert_eq!(
        ErrorCode::InvalidAssetAllocation.message(),
        "Invalid asset allocation - beneficiary must have at least one asset"
    );
}

#[test]
fn a_switch_that_is_no_longer_active_stays_as_it_is() {
    let mut expired = active_switch(1_000, 100);
    trigger_expiry(&mut expired, 1_101).unwrap();
    let mut canceled = active_switch(1_000, 100);
    cancel_switch(&mut canceled).unwrap();
    for start in [expired, canceled] {
        let mut switch = start.clone();
        for now in [i64::MIN, 0, 1_000, 1_100, 1_101, 5_000, i64::MAX] {
            assert_eq!(send_heartbeat(&mut switch, now), Err(ErrorCode::SwitchNotActive));
            assert_eq!(trigger_expiry(&mut switch, now), Err(ErrorCode::SwitchNotActive));
            assert_eq!(cancel_switch(&mut switch), Err(ErrorCode::SwitchNotActive));
            assert_eq!(switch, start);
        }
    }
}
