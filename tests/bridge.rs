use ghost_bridge::{
    process_instruction, AccountData, AccountInfo, GhostAccount, GhostError, GhostInstruction,
    GhostState, LPPosition, LiquidityPool, PaymentIntent, ProgramConfig, ProgramError, Processor,
    Pubkey,
};

fn key(n: u8) -> Pubkey {
    [n; 32]
}

fn program() -> Pubkey {
    key(200)
}

fn account(k: Pubkey, owner: Pubkey, is_signer: bool, lamports: u64, data: AccountData) -> AccountInfo {
    AccountInfo { key: k, owner, is_signer, lamports, data }
}

fn user(k: Pubkey, lamports: u64) -> AccountInfo {
    account(k, key(0), true, lamports, AccountData::Unreadable)
}

fn registry(admin: Pubkey, max_validators: u8, validators: Vec<Pubkey>) -> AccountInfo {
    let config = ProgramConfig { admin, validator_threshold: 1, max_validators, validators };
    account(key(100), program(), false, 0, AccountData::Config(config))
}

fn validators_of(a: &AccountInfo) -> Vec<Pubkey> {
    match &a.data {
        AccountData::Config(c) => c.validators.clone(),
        _ => panic!("not a registry"),
    }
}

fn ghost_of(a: &AccountInfo) -> GhostAccount {
    match &a.data {
        AccountData::Transfer(g) => *g,
        _ => panic!("not a transfer record"),
    }
}

fn pool_of(a: &AccountInfo) -> LiquidityPool {
    match &a.data {
        AccountData::Pool(p) => *p,
        _ => panic!("not a pool"),
    }
}

fn position_of(a: &AccountInfo) -> LPPosition {
    match &a.data {
        AccountData::Position(p) => *p,
        _ => panic!("not a position"),
    }
}

fn slot(n: u8) -> AccountInfo {
    account(key(n), program(), false, 0, AccountData::Unreadable)
}

fn run(accounts: &mut Vec<AccountInfo>, ins: GhostInstruction) -> Result<(), ProgramError> {
    Processor::process(&program(), accounts, ins, 1_700)
}

fn create(id: [u8; 32]) -> GhostInstruction {
    GhostInstruction::CreateGhost {
        ghost_id: id,
        amount: 77,
        destination_chain: 5,
        destination_address: [9u8; 64],
        source_token: key(11),
        destination_token: key(12),
    }
}

#[test]
fn third_validator_hits_the_limit() {
    let admin = key(1);
    let mut accs = vec![slot(100), user(admin, 0)];
    assert_eq!(
        run(&mut accs, GhostInstruction::Initialize { admin, validator_threshold: 1, max_validators: 2 }),
        Ok(())
    );
    assert_eq!(validators_of(&accs[0]), Vec::<Pubkey>::new());
    for v in [2u8, 3u8] {
        assert_eq!(run(&mut accs, GhostInstruction::SetValidator { validator: key(v), enabled: true }), Ok(()));
    }
    assert_eq!(
        run(&mut accs, GhostInstruction::SetValidator { validator: key(4), enabled: true }),
        Err(ProgramError::Custom(GhostError::ValidatorLimit))
    );
    assert_eq!(validators_of(&accs[0]), vec![key(2), key(3)]);
}

#[test]
fn enabling_twice_and_disabling() {
    let admin = key(1);
    let mut accs = vec![registry(admin, 3, vec![key(2)]), user(admin, 0)];
    assert_eq!(run(&mut accs, GhostInstruction::SetValidator { validator: key(2), enabled: true }), Ok(()));
    assert_eq!(validators_of(&accs[0]), vec![key(2)]);
    assert_eq!(run(&mut accs, GhostInstruction::SetValidator { validator: key(2), enabled: false }), Ok(()));
    assert_eq!(validators_of(&accs[0]), Vec::<Pubkey>::new());
    assert_eq!(run(&mut accs, GhostInstruction::SetValidator { validator: key(2), enabled: false }), Ok(()));
}

#[test]
fn only_the_admin_sets_validators() {
    let mut accs = vec![registry(key(1), 3, vec![]), user(key(9), 0)];
    assert_eq!(
        run(&mut accs, GhostInstruction::SetValidator { validator: key(2), enabled: true }),
        Err(ProgramError::Custom(GhostError::UnauthorizedAdmin))
    );
}

#[test]
fn initialize_needs_a_signer_and_owned_slot() {
    let mut unsigned = vec![slot(100), account(key(1), key(0), false, 0, AccountData::Unreadable)];
    let ins = GhostInstruction::Initialize { admin: key(1), validator_threshold: 1, max_validators: 2 };
    assert_eq!(run(&mut unsigned, ins), Err(ProgramError::Custom(GhostError::MissingSigner)));
    let mut foreign = vec![account(key(100), key(7), false, 0, AccountData::Unreadable), user(key(1), 0)];
    assert_eq!(run(&mut foreign, ins), Err(ProgramError::Custom(GhostError::IncorrectProgramId)));
    let mut short = vec![slot(100)];
    assert_eq!(run(&mut short, ins), Err(ProgramError::NotEnoughAccountKeys));
}

#[test]
fn burn_without_lock_is_invalid_state() {
    let id = [42u8; 32];
    let mut accs = vec![registry(key(1), 2, vec![key(2)]), slot(50), user(key(2), 0)];
    assert_eq!(run(&mut accs, create(id)), Ok(()));
    assert_eq!(ghost_of(&accs[1]).state, GhostState::Created);
    assert_eq!(
        run(&mut accs, GhostInstruction::BurnGhost { ghost_id: id, burn_proof: [3u8; 32] }),
        Err(ProgramError::Custom(GhostError::InvalidState))
    );
    assert_eq!(ghost_of(&accs[1]).state, GhostState::Created);
}

#[test]
fn outbound_flow_settles_after_acknowledgement() {
    let id = [42u8; 32];
    let mut accs = vec![registry(key(1), 2, vec![key(2)]), slot(50), user(key(2), 0)];
    assert_eq!(run(&mut accs, create(id)), Ok(()));
    let g = ghost_of(&accs[1]);
    assert_eq!(g.initiator, key(2));
    assert_eq!(g.amount, 77);
    assert_eq!(g.lock_ts, 1_700);
    assert!(!g.is_remote);
    assert_eq!(run(&mut accs, GhostInstruction::DestroyGhost { ghost_id: id }),
        Err(ProgramError::Custom(GhostError::InvalidState)));
    assert_eq!(run(&mut accs, GhostInstruction::LockGhost { ghost_id: id }), Ok(()));
    assert_eq!(ghost_of(&accs[1]).state, GhostState::Locked);
    assert_eq!(run(&mut accs, GhostInstruction::LockGhost { ghost_id: id }),
        Err(ProgramError::Custom(GhostError::InvalidState)));
    assert_eq!(run(&mut accs, GhostInstruction::BurnGhost { ghost_id: id, burn_proof: [3u8; 32] }), Ok(()));
    let g = ghost_of(&accs[1]);
    assert_eq!(g.state, GhostState::Burned);
    assert_eq!(g.burn_proof, [3u8; 32]);
    assert_eq!(g.burn_ts, 1_700);
    assert_eq!(run(&mut accs, GhostInstruction::DestroyGhost { ghost_id: id }),
        Err(ProgramError::Custom(GhostError::InvalidState)));
    assert_eq!(run(&mut accs, GhostInstruction::AcknowledgeRemote { ghost_id: id }), Ok(()));
    let g = ghost_of(&accs[1]);
    assert_eq!(g.state, GhostState::Burned);
    assert!(g.remote_ack);
    assert_eq!(run(&mut accs, GhostInstruction::DestroyGhost { ghost_id: id }), Ok(()));
    assert_eq!(ghost_of(&accs[1]).state, GhostState::Settled);
    assert_eq!(run(&mut accs, GhostInstruction::AcknowledgeRemote { ghost_id: id }),
        Err(ProgramError::Custom(GhostError::InvalidState)));
}

#[test]
fn inbound_flow_mints_to_recipient() {
    let id = [43u8; 32];
    let mut accs = vec![registry(key(1), 2, vec![key(2)]), slot(50), user(key(2), 0)];
    let mirror = GhostInstruction::MirrorGhost {
        ghost_id: id,
        source_chain: 8,
        amount: 500,
        burn_proof: [4u8; 32],
        source_token: key(13),
        destination_token: key(14),
    };
    assert_eq!(run(&mut accs, mirror), Ok(()));
    let g = ghost_of(&accs[1]);
    assert_eq!(g.state, GhostState::Burned);
    assert!(g.is_remote);
    assert_eq!(g.destination_chain, 8);
    assert_eq!(g.initiator, [0u8; 32]);
    assert_eq!(g.ghost_id, id);
    assert_eq!(run(&mut accs, mirror), Ok(()));
    let recipient = key(21);
    assert_eq!(
        run(&mut accs, GhostInstruction::MintGhost { ghost_id: id, mint_proof: [5u8; 32], recipient }),
        Ok(())
    );
    let g = ghost_of(&accs[1]);
    assert_eq!(g.state, GhostState::Minted);
    assert_eq!(g.mint_proof, [5u8; 32]);
    assert_eq!(&g.destination_address[..32], &recipient[..]);
    assert_eq!(&g.destination_address[32..], &[0u8; 32][..]);
    assert_eq!(run(&mut accs, GhostInstruction::DestroyGhost { ghost_id: id }), Ok(()));
    assert_eq!(ghost_of(&accs[1]).state, GhostState::Settled);
}

#[test]
fn mirror_over_outbound_record_is_refused() {
    let id = [44u8; 32];
    let mut accs = vec![registry(key(1), 2, vec![key(2)]), slot(50), user(key(2), 0)];
    assert_eq!(run(&mut accs, create(id)), Ok(()));
    let mirror = GhostInstruction::MirrorGhost {
        ghost_id: id,
        source_chain: 8,
        amount: 500,
        burn_proof: [4u8; 32],
        source_token: key(13),
        destination_token: key(14),
    };
    assert_eq!(run(&mut accs, mirror), Err(ProgramError::Custom(GhostError::GhostExists)));
    assert_eq!(ghost_of(&accs[1]).state, GhostState::Created);
}

#[test]
fn validator_gate_and_id_check() {
    let id = [45u8; 32];
    let mut accs = vec![registry(key(1), 2, vec![key(2)]), slot(50), user(key(3), 0)];
    assert_eq!(run(&mut accs, GhostInstruction::LockGhost { ghost_id: id }),
        Err(ProgramError::Custom(GhostError::UnauthorizedValidator)));
    let mut unsigned = vec![registry(key(1), 2, vec![key(2)]), slot(50),
        account(key(2), key(0), false, 0, AccountData::Unreadable)];
    assert_eq!(run(&mut unsigned, GhostInstruction::LockGhost { ghost_id: id }),
        Err(ProgramError::Custom(GhostError::MissingSigner)));
    let mut accs = vec![registry(key(1), 2, vec![key(2)]), slot(50), user(key(2), 0)];
    assert_eq!(run(&mut accs, create(id)), Ok(()));
    assert_eq!(run(&mut accs, GhostInstruction::LockGhost { ghost_id: [46u8; 32] }),
        Err(ProgramError::Custom(GhostError::GhostMismatch)));
    let mut no_registry = vec![slot(100), slot(50), user(key(2), 0)];
    assert_eq!(run(&mut no_registry, create(id)),
        Err(ProgramError::Custom(GhostError::AccountDeserialization)));
}

fn pool_accounts(depositor: Pubkey, lamports: u64) -> Vec<AccountInfo> {
    vec![slot(60), slot(61), user(depositor, lamports), user(key(0), 0)]
}

#[test]
fn deposits_and_withdrawal_scenario() {
    let a = key(31);
    let b = key(32);
    let mut accs = vec![slot(60), user(a, 0)];
    assert_eq!(run(&mut accs, GhostInstruction::InitializePool { pool_seed: [7u8; 32] }), Ok(()));
    let pool = accs[0].clone();
    let p = pool_of(&pool);
    assert!(p.active);
    assert_eq!((p.total_deposited, p.total_shares, p.available_liquidity), (0, 0, 0));

    let mut first = pool_accounts(a, 5_000);
    first[0] = pool;
    assert_eq!(run(&mut first, GhostInstruction::DepositToPool { amount: 1000 }), Ok(()));
    assert_eq!(position_of(&first[1]).shares, 1000);
    assert_eq!(position_of(&first[1]).owner, a);
    assert_eq!(pool_of(&first[0]).available_liquidity, 1000);
    assert_eq!(first[2].lamports, 4_000);
    assert_eq!(first[0].lamports, 1000);

    let mut second = pool_accounts(b, 5_000);
    second[0] = first[0].clone();
    assert_eq!(run(&mut second, GhostInstruction::DepositToPool { amount: 500 }), Ok(()));
    assert_eq!(position_of(&second[1]).shares, 500);
    let p = pool_of(&second[0]);
    assert_eq!((p.total_deposited, p.total_shares, p.available_liquidity), (1500, 1500, 1500));

    let mut out = vec![second[0].clone(), second[1].clone(), user(b, 0)];
    assert_eq!(run(&mut out, GhostInstruction::WithdrawFromPool { shares: 300 }), Ok(()));
    assert_eq!(out[2].lamports, 300);
    assert_eq!(position_of(&out[1]).shares, 200);
    let p = pool_of(&out[0]);
    assert_eq!((p.total_deposited, p.total_shares, p.available_liquidity), (1200, 1200, 1200));
}

fn pool_with(deposited: u64, shares: u64, available: u64) -> LiquidityPool {
    LiquidityPool {
        seed: [7u8; 32],
        total_deposited: deposited,
        total_shares: shares,
        total_fees: 0,
        available_liquidity: available,
        active: true,
    }
}

#[test]
fn deposit_rounds_shares_down() {
    let mut p = pool_with(3000, 1000, 3000);
    assert_eq!(p.deposit(1000), Ok(333));
    assert_eq!((p.total_deposited, p.total_shares, p.available_liquidity), (4000, 1333, 4000));
}

#[test]
fn deposit_into_inactive_pool_fails() {
    let mut p = pool_with(0, 0, 0);
    p.active = false;
    assert_eq!(p.deposit(10), Err(ProgramError::InvalidAccountData));
}

#[test]
fn deposit_overflow_is_reported() {
    let mut p = pool_with(u64::MAX, 1, u64::MAX);
    assert_eq!(p.deposit(1), Err(ProgramError::ArithmeticOverflow));
    assert_eq!(p.total_deposited, u64::MAX);
}

#[test]
fn withdrawal_pays_pro_rata_with_growth() {
    let owner = key(31);
    let mut p = pool_with(1500, 1000, 1500);
    let mut pos = LPPosition { owner, pool: [7u8; 32], shares: 400, deposited_at: 0 };
    assert_eq!(p.withdraw(&mut pos, &owner, 333), Ok(499));
    assert_eq!(pos.shares, 67);
    assert_eq!((p.total_deposited, p.total_shares, p.available_liquidity), (1001, 667, 1001));
}

#[test]
fn withdrawal_failures() {
    let owner = key(31);
    let mut p = pool_with(1000, 1000, 100);
    let mut pos = LPPosition { owner, pool: [7u8; 32], shares: 400, deposited_at: 0 };
    assert_eq!(p.withdraw(&mut pos, &owner, 401), Err(ProgramError::InsufficientFunds));
    assert_eq!(p.withdraw(&mut pos, &owner, 101), Err(ProgramError::InsufficientFunds));
    assert_eq!(p.withdraw(&mut pos, &key(9), 10), Err(ProgramError::InvalidAccountData));
    assert_eq!(p.withdraw(&mut pos, &owner, 100), Ok(100));
    assert_eq!(p.available_liquidity, 0);
}

#[test]
fn payout_touches_only_available_liquidity() {
    let mut p = pool_with(1000, 1000, 1000);
    assert_eq!(p.pay_out(600), Ok(()));
    assert_eq!((p.total_deposited, p.total_shares, p.available_liquidity), (1000, 1000, 400));
    assert_eq!(p.pay_out(401), Err(ProgramError::InsufficientFunds));
    assert_eq!(p.available_liquidity, 400);
    assert!(p.available_liquidity <= p.total_deposited);
}

#[test]
fn execute_payment_moves_value_to_recipient() {
    let relayer = key(2);
    let recipient = key(22);
    let pool = account(key(60), program(), false, 1000, AccountData::Pool(pool_with(1000, 1000, 1000)));
    let mut accs = vec![registry(key(1), 2, vec![relayer]), pool, user(recipient, 5), user(relayer, 0)];
    let ins = GhostInstruction::ExecutePayment { intent_id: [1u8; 32], recipient, amount: 250 };
    assert_eq!(run(&mut accs, ins), Ok(()));
    let p = pool_of(&accs[1]);
    assert_eq!((p.total_deposited, p.total_shares, p.available_liquidity), (1000, 1000, 750));
    assert_eq!(accs[1].lamports, 750);
    assert_eq!(accs[2].lamports, 255);
    let wrong = GhostInstruction::ExecutePayment { intent_id: [1u8; 32], recipient: key(23), amount: 1 };
    assert_eq!(run(&mut accs, wrong), Err(ProgramError::InvalidAccountData));
    let too_much = GhostInstruction::ExecutePayment { intent_id: [1u8; 32], recipient, amount: 751 };
    assert_eq!(run(&mut accs, too_much), Err(ProgramError::InsufficientFunds));
    assert_eq!(pool_of(&accs[1]).available_liquidity, 750);
}

#[test]
fn payment_intent_is_recorded_unexecuted() {
    let relayer = key(2);
    let mut accs = vec![registry(key(1), 2, vec![relayer]), slot(70), user(relayer, 0)];
    let ins = GhostInstruction::RecordPaymentIntent {
        intent_id: [8u8; 32],
        sender_chain: 1,
        sender_address: [6u8; 64],
        amount: 900,
        dest_token: key(15),
    };
    assert_eq!(run(&mut accs, ins), Ok(()));
    let intent: PaymentIntent = match &accs[1].data {
        AccountData::Intent(i) => *i,
        _ => panic!("not an intent"),
    };
    assert_eq!(intent.amount, 900);
    assert!(!intent.executed);
    assert_eq!(intent.recipient, [0u8; 32]);
    assert_eq!(intent.timestamp, 1_700);
    let mut stranger = vec![registry(key(1), 2, vec![relayer]), slot(70), user(key(3), 0)];
    assert_eq!(run(&mut stranger, ins), Err(ProgramError::Custom(GhostError::UnauthorizedValidator)));
}

#[test]
fn undecodable_instruction_is_rejected() {
    let mut accs = vec![slot(100)];
    assert_eq!(process_instruction(&program(), &mut accs, None, 0), Err(ProgramError::InvalidInstructionData));
}

#[test]
fn bridge_error_converts_to_program_error() {
    assert_eq!(ProgramError::from(GhostError::GhostMismatch), ProgramError::Custom(GhostError::GhostMismatch));
}

#[test]
fn record_sizes() {
    assert_eq!(ProgramConfig::space(2), 102);
    assert_eq!(GhostAccount::space(), 299);
    assert_eq!(LiquidityPool::space(), 65);
    assert_eq!(LPPosition::space(), 80);
    assert_eq!(PaymentIntent::space(), 185);
}

#[test]
fn membership_check() {
    let c = ProgramConfig { admin: key(1), validator_threshold: 1, max_validators: 3, validators: vec![key(2), key(3)] };
    assert!(c.is_validator(&key(3)));
    assert!(!c.is_validator(&key(4)));
    assert_eq!(c.assert_validator(&key(4)), Err(GhostError::UnauthorizedValidator));
    assert_eq!(c.assert_validator(&key(2)), Ok(()));
}

#[test]
fn create_over_written_record_is_refused() {
    let id = [47u8; 32];
    let mut accs = vec![registry(key(1), 2, vec![key(2)]), slot(50), user(key(2), 0)];
    assert_eq!(run(&mut accs, create(id)), Ok(()));
    assert_eq!(run(&mut accs, GhostInstruction::LockGhost { ghost_id: id }), Ok(()));
    let before = ghost_of(&accs[1]);
    assert_eq!(run(&mut accs, create(id)), Err(ProgramError::Custom(GhostError::GhostExists)));
    let after = ghost_of(&accs[1]);
    assert_eq!(after.state, GhostState::Locked);
    assert_eq!(after.lock_ts, before.lock_ts);
}

#[test]
fn second_initialize_is_refused() {
    let admin = key(1);
    let mut accs = vec![registry(admin, 2, vec![key(2)]), user(key(9), 0)];
    let ins = GhostInstruction::Initialize { admin: key(9), validator_threshold: 1, max_validators: 5 };
    assert_eq!(run(&mut accs, ins), Err(ProgramError::AccountAlreadyInitialized));
    assert_eq!(validators_of(&accs[0]), vec![key(2)]);
    match &accs[0].data {
        AccountData::Config(c) => assert_eq!(c.admin, admin),
        _ => panic!("not a registry"),
    }
}

#[test]
fn settled_record_cannot_be_settled_again() {
    let id = [48u8; 32];
    let mut accs = vec![registry(key(1), 2, vec![key(2)]), slot(50), user(key(2), 0)];
    assert_eq!(run(&mut accs, create(id)), Ok(()));
    assert_eq!(run(&mut accs, GhostInstruction::LockGhost { ghost_id: id }), Ok(()));
    assert_eq!(run(&mut accs, GhostInstruction::BurnGhost { ghost_id: id, burn_proof: [3u8; 32] }), Ok(()));
    assert_eq!(run(&mut accs, GhostInstruction::AcknowledgeRemote { ghost_id: id }), Ok(()));
    assert_eq!(run(&mut accs, GhostInstruction::DestroyGhost { ghost_id: id }), Ok(()));
    assert_eq!(run(&mut accs, GhostInstruction::DestroyGhost { ghost_id: id }),
        Err(ProgramError::Custom(GhostError::InvalidState)));
    assert_eq!(ghost_of(&accs[1]).state, GhostState::Settled);
}

#[test]
fn oversized_withdrawal_is_insufficient_funds() {
    let owner = key(31);
    let mut p = pool_with(u64::MAX, 1, u64::MAX);
    let mut pos = LPPosition { owner, pool: [7u8; 32], shares: 2, deposited_at: 0 };
    assert_eq!(p.withdraw(&mut pos, &owner, 2), Err(ProgramError::InsufficientFunds));
    assert_eq!(pos.shares, 2);
    assert_eq!(p.total_shares, 1);
}

#[test]
fn deposit_into_foreign_position_is_refused() {
    let owner = key(31);
    let intruder = key(33);
    let pool = account(key(60), program(), false, 1000, AccountData::Pool(pool_with(1000, 1000, 1000)));
    let position = LPPosition { owner, pool: [7u8; 32], shares: 1000, deposited_at: 0 };
    let mut accs = vec![
        pool,
        account(key(61), program(), false, 0, AccountData::Position(position)),
        user(intruder, 5_000),
        user(key(0), 0),
    ];
    assert_eq!(run(&mut accs, GhostInstruction::DepositToPool { amount: 100 }), Err(ProgramError::InvalidAccountData));
    assert_eq!(position_of(&accs[1]).shares, 1000);
    assert_eq!(accs[2].lamports, 5_000);
    accs[2] = user(owner, 5_000);
    assert_eq!(run(&mut accs, GhostInstruction::DepositToPool { amount: 100 }), Ok(()));
    assert_eq!(position_of(&accs[1]).shares, 1100);
}

#[test]
fn mirror_over_minted_or_settled_inbound_record_is_refused() {
    let id = [49u8; 32];
    let mut accs = vec![registry(key(1), 2, vec![key(2)]), slot(50), user(key(2), 0)];
    let mirror = GhostInstruction::MirrorGhost {
        ghost_id: id,
        source_chain: 8,
        amount: 500,
        burn_proof: [4u8; 32],
        source_token: key(13),
        destination_token: key(14),
    };
    assert_eq!(run(&mut accs, mirror), Ok(()));
    assert_eq!(
        run(&mut accs, GhostInstruction::MintGhost { ghost_id: id, mint_proof: [5u8; 32], recipient: key(21) }),
        Ok(())
    );
    assert_eq!(run(&mut accs, mirror), Err(ProgramError::Custom(GhostError::GhostExists)));
    assert_eq!(ghost_of(&accs[1]).state, GhostState::Minted);
    assert_eq!(run(&mut accs, GhostInstruction::DestroyGhost { ghost_id: id }), Ok(()));
    assert_eq!(run(&mut accs, mirror), Err(ProgramError::Custom(GhostError::GhostExists)));
    assert_eq!(ghost_of(&accs[1]).state, GhostState::Settled);
}
