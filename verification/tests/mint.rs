use mysolanaapp::breeding_machine::{
    BreedingMachine, BreedingMachineData, GatekeeperConfig, GatewayVerification, MintError,
    PaymentStep, WhitelistBurn, WhitelistMintMode, WhitelistMintSettings,
};
use mysolanaapp::mint::{next_stage, next_step_panics, MintEvent, MintStage};
use mysolanaapp::pubkey::Pubkey;

fn key(b: u8) -> Pubkey {
    Pubkey { bytes: [b; 32] }
}

fn machine() -> BreedingMachine {
    BreedingMachine {
        authority: key(1),
        wallet: key(2),
        token_mint: None,
        items_redeemed: 3,
        data: BreedingMachineData {
            price: 100,
            symbol: String::from("BRD"),
            seller_fee_basis_points: 500,
            max_supply: 0,
            is_mutable: true,
            retain_authority: true,
            go_live_date: Some(1_000),
            end_settings: None,
            creators: vec![],
            whitelist_mint_settings: None,
            items_available: 10,
            gatekeeper: None,
        },
    }
}

/// Runs the stage machine, answering each stage with the next event of `events`.
fn run(m: &BreedingMachine, payer: &Pubkey, now: i64, keys: &Vec<Pubkey>, events: &[MintEvent]) -> MintStage {
    let mut stage = MintStage::Start;
    for event in events {
        assert!(!next_step_panics(m, keys, &stage, *event));
        stage = next_stage(m, payer, now, keys, stage, *event);
    }
    stage
}

#[test]
fn lamport_mint_after_go_live_is_paid_at_the_list_price() {
    let m = machine();
    let keys = vec![];
    let stage = run(&m, &key(9), 2_000, &keys, &[MintEvent::Begin]);
    assert!(matches!(stage, MintStage::ReadBalance { payment: PaymentStep::Lamports, price: 100 }));
    let stage = next_stage(&m, &key(9), 2_000, &keys, stage, MintEvent::Balance { balance: 150 });
    assert!(matches!(stage, MintStage::Transfer { payment: PaymentStep::Lamports, amount: 100 }));
    let stage = next_stage(&m, &key(9), 2_000, &keys, stage, MintEvent::Done);
    assert!(matches!(stage, MintStage::Paid { price: 100 }));
}

#[test]
fn mint_before_go_live_is_refused() {
    let m = machine();
    let stage = run(&m, &key(9), 10, &vec![], &[MintEvent::Begin]);
    assert!(matches!(stage, MintStage::Refused(MintError::BreedingMachineNotLive)));
    let stage = run(&m, &key(1), 10, &vec![], &[MintEvent::Begin]);
    assert!(matches!(stage, MintStage::ReadBalance { price: 100, .. }));
}

#[test]
fn empty_machine_is_refused_before_payment() {
    let mut m = machine();
    m.items_redeemed = 10;
    let stage = run(&m, &key(9), 2_000, &vec![], &[MintEvent::Begin]);
    assert!(matches!(stage, MintStage::Refused(MintError::BreedingMachineEmpty)));
}

#[test]
fn short_balance_is_refused() {
    let mut m = machine();
    let stage = run(&m, &key(9), 2_000, &vec![], &[MintEvent::Begin, MintEvent::Balance { balance: 99 }]);
    assert!(matches!(stage, MintStage::Refused(MintError::NotEnoughSOL)));
    m.token_mint = Some(key(4));
    let keys = vec![key(20), key(21)];
    let stage = run(&m, &key(9), 2_000, &keys, &[MintEvent::Begin]);
    match &stage {
        MintStage::ReadBalance { payment: PaymentStep::Token { token_account, transfer_authority, mint }, price } => {
            assert_eq!((*token_account, *transfer_authority, *price), (0, 1, 100));
            assert_eq!(mint.bytes, [4u8; 32]);
        }
        other => panic!("unexpected {:?}", other),
    }
    let stage = next_stage(&m, &key(9), 2_000, &keys, stage, MintEvent::Balance { balance: 5 });
    assert!(matches!(stage, MintStage::Refused(MintError::NotEnoughTokens)));
}

#[test]
fn gateway_token_is_read_then_verified() {
    let mut m = machine();
    m.data.gatekeeper = Some(GatekeeperConfig { gatekeeper_network: key(5), expire_on_use: true });
    let stage = run(&m, &key(9), 2_000, &vec![], &[MintEvent::Begin]);
    assert!(matches!(stage, MintStage::Refused(MintError::GatewayTokenMissing)));

    let keys = vec![key(30), key(31), key(32)];
    let stage = run(&m, &key(9), 2_000, &keys, &[MintEvent::Begin]);
    assert!(matches!(stage, MintStage::ReadGatewayToken { token: 0 }));
    let stage = next_stage(&m, &key(9), 2_000, &keys, stage, MintEvent::GatewayToken { expire_time: Some(1_700) });
    match &stage {
        MintStage::VerifyGateway { plan } => {
            assert_eq!(plan.expire_time, 1_700);
            assert_eq!(plan.next_account, 3);
            assert_eq!(
                plan.verification,
                GatewayVerification::VerifyAndExpire { token: 0, gateway_app: 1, network_expire_feature: 2 }
            );
        }
        other => panic!("unexpected {:?}", other),
    }
    let stage = next_stage(&m, &key(9), 2_000, &keys, stage, MintEvent::Done);
    assert!(matches!(stage, MintStage::ReadBalance { price: 100, .. }));
}

#[test]
fn gateway_refusals() {
    let mut m = machine();
    m.data.gatekeeper = Some(GatekeeperConfig { gatekeeper_network: key(5), expire_on_use: true });
    let two = vec![key(30), key(31)];
    let stage = run(&m, &key(9), 2_000, &two, &[MintEvent::Begin, MintEvent::GatewayToken { expire_time: Some(1_700) }]);
    assert!(matches!(stage, MintStage::Refused(MintError::NetworkExpireFeatureMissing)));
    let stage = run(&m, &key(9), 2_000, &two, &[MintEvent::Begin, MintEvent::GatewayToken { expire_time: None }]);
    assert!(matches!(stage, MintStage::Refused(MintError::GatewayTokenExpireTimeInvalid)));
    // A token created (expiry - 600) before the go-live date is refused.
    let three = vec![key(30), key(31), key(32)];
    let stage = run(
        &m,
        &key(9),
        2_000,
        &three,
        &[MintEvent::Begin, MintEvent::GatewayToken { expire_time: Some(1_599) }, MintEvent::Done],
    );
    assert!(matches!(stage, MintStage::Refused(MintError::GatewayTokenExpireTimeInvalid)));
}

#[test]
fn whitelist_holder_burns_and_pays_the_discount() {
    let mut m = machine();
    m.data.whitelist_mint_settings = Some(WhitelistMintSettings {
        mode: WhitelistMintMode::BurnEveryTime,
        mint: key(7),
        presale: true,
        discount_price: Some(40),
    });
    let keys = vec![key(40), key(7), key(41)];
    let stage = run(&m, &key(9), 10, &keys, &[MintEvent::Begin]);
    assert!(matches!(stage, MintStage::ReadWhitelistAccount { account: 0 }));
    let held = MintEvent::WhitelistAmount { held: Some(1) };
    assert!(!next_step_panics(&m, &keys, &stage, held));
    let stage = next_stage(&m, &key(9), 10, &keys, stage, held);
    match &stage {
        MintStage::BurnWhitelistToken { burn, result, next_account } => {
            assert_eq!(*burn, WhitelistBurn { mint: 1, source: 0, authority: 2 });
            assert_eq!(*result, Ok(40));
            assert_eq!(*next_account, 3);
        }
        other => panic!("unexpected {:?}", other),
    }
    let stage = next_stage(&m, &key(9), 10, &keys, stage, MintEvent::Done);
    assert!(matches!(stage, MintStage::ReadBalance { price: 40, .. }));
}

#[test]
fn whitelist_burn_without_its_accounts_would_panic() {
    let mut m = machine();
    m.data.whitelist_mint_settings = Some(WhitelistMintSettings {
        mode: WhitelistMintMode::BurnEveryTime,
        mint: key(7),
        presale: true,
        discount_price: None,
    });
    let keys = vec![key(40), key(7)];
    let stage = run(&m, &key(9), 10, &keys, &[MintEvent::Begin]);
    assert!(next_step_panics(&m, &keys, &stage, MintEvent::WhitelistAmount { held: Some(1) }));
    assert!(!next_step_panics(&m, &keys, &stage, MintEvent::WhitelistAmount { held: Some(0) }));
    let none: Vec<Pubkey> = vec![];
    assert!(next_step_panics(&m, &none, &stage, MintEvent::WhitelistAmount { held: None }));
}

#[test]
fn forced_whitelist_refuses_a_payer_without_a_token() {
    let mut m = machine();
    m.data.whitelist_mint_settings = Some(WhitelistMintSettings {
        mode: WhitelistMintMode::NeverBurn,
        mint: key(7),
        presale: false,
        discount_price: None,
    });
    let keys = vec![key(40)];
    let stage = run(&m, &key(9), 2_000, &keys, &[MintEvent::Begin, MintEvent::WhitelistAmount { held: None }]);
    assert!(matches!(stage, MintStage::Refused(MintError::NoWhitelistToken)));
    let stage = run(&m, &key(9), 2_000, &keys, &[MintEvent::Begin, MintEvent::WhitelistAmount { held: Some(3) }]);
    assert!(matches!(stage, MintStage::ReadBalance { price: 100, .. }));
}

#[test]
fn presale_whitelist_opens_to_everyone_after_go_live() {
    let mut m = machine();
    m.data.whitelist_mint_settings = Some(WhitelistMintSettings {
        mode: WhitelistMintMode::NeverBurn,
        mint: key(7),
        presale: true,
        discount_price: None,
    });
    let keys = vec![key(40)];
    let stage = run(&m, &key(9), 2_000, &keys, &[MintEvent::Begin, MintEvent::WhitelistAmount { held: None }]);
    assert!(matches!(stage, MintStage::ReadBalance { price: 100, .. }));
    let stage = run(&m, &key(9), 10, &keys, &[MintEvent::Begin, MintEvent::WhitelistAmount { held: Some(0) }]);
    assert!(matches!(stage, MintStage::Refused(MintError::BreedingMachineNotLive)));
}

#[test]
fn end_settings_stop_the_mint_at_its_start() {
    let mut m = machine();
    m.data.end_settings = Some(mysolanaapp::breeding_machine::EndSettings {
        end_setting_type: mysolanaapp::breeding_machine::EndSettingType::Amount,
        number: 3,
    });
    let stage = run(&m, &key(1), 2_000, &vec![], &[MintEvent::Begin]);
    assert!(matches!(stage, MintStage::Refused(MintError::BreedingMachineNotLive)));
}

#[test]
fn balance_equal_to_the_price_is_enough() {
    let m = machine();
    let stage = run(&m, &key(9), 2_000, &vec![], &[MintEvent::Begin, MintEvent::Balance { balance: 100 }]);
    assert!(matches!(stage, MintStage::Transfer { amount: 100, .. }));
}

/// The bytes of a gateway token: version, no parent, owner, no identity, network,
/// gatekeeper, active state, then the expiry time.
fn gateway_token_bytes(expire_time: Option<i64>) -> Vec<u8> {
    let mut data = vec![0u8, 0];
    data.extend_from_slice(&[9u8; 32]);
    data.push(0);
    data.extend_from_slice(&[5u8; 32]);
    data.extend_from_slice(&[6u8; 32]);
    data.push(0);
    match expire_time {
        Some(t) => {
            data.push(1);
            data.extend_from_slice(&t.to_le_bytes());
        }
        None => data.push(0),
    }
    data
}

#[test]
fn gateway_token_event_reads_the_expiry_time() {
    match mysolanaapp::mint::gateway_token_event(&gateway_token_bytes(Some(1_700))) {
        Some(MintEvent::GatewayToken { expire_time }) => assert_eq!(expire_time, Some(1_700)),
        other => panic!("unexpected {:?}", other),
    }
    match mysolanaapp::mint::gateway_token_event(&gateway_token_bytes(None)) {
        Some(MintEvent::GatewayToken { expire_time }) => assert_eq!(expire_time, None),
        other => panic!("unexpected {:?}", other),
    }
    assert!(mysolanaapp::mint::gateway_token_event(&[0u8; 10]).is_none());
}

#[test]
fn whitelist_account_event_is_empty_for_a_stranger_account() {
    let event = mysolanaapp::mint::whitelist_account_event(&key(1), &key(2), &[0u8; 165], &key(9), &key(7));
    assert!(matches!(event, MintEvent::WhitelistAmount { held: None }));
}

#[test]
fn gateway_token_with_a_parent_is_read_past_it() {
    let mut data = vec![0u8, 1];
    data.extend_from_slice(&[3u8; 32]);
    data.extend_from_slice(&gateway_token_bytes(Some(-5))[2..]);
    match mysolanaapp::mint::gateway_token_event(&data) {
        Some(MintEvent::GatewayToken { expire_time }) => assert_eq!(expire_time, Some(-5)),
        other => panic!("unexpected {:?}", other),
    }
    let mut bad_state = gateway_token_bytes(Some(1));
    bad_state[99] = 3;
    assert!(mysolanaapp::mint::gateway_token_event(&bad_state).is_none());
    let mut bad_tag = gateway_token_bytes(Some(1));
    bad_tag[100] = 2;
    assert!(mysolanaapp::mint::gateway_token_event(&bad_tag).is_none());
    let short = gateway_token_bytes(Some(1));
    assert!(mysolanaapp::mint::gateway_token_event(&short[..108]).is_none());
}
