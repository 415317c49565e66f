use vstd::prelude::*;

use crate::error::{GhostError, ProgramError};
use crate::ghost::{
    spec_ack, spec_burn, spec_destroy, spec_lock, spec_mint, spec_mirror,
    spec_create_into, spec_empty_ghost, spec_resolve, GhostAccount, GhostState,
};
use crate::pool::{
    spec_deposit, spec_pay_out, spec_withdraw, LPPosition, LiquidityPool, PaymentIntent,
};
use crate::registry::{key_eq, spec_set_validator, spec_zero_key, ProgramConfig, Pubkey};

verus! {

/// A decoded instruction with its typed fields.
#[derive(Debug, Clone, Copy)]
pub enum GhostInstruction {
    Initialize { admin: Pubkey, validator_threshold: u8, max_validators: u8 },
    SetValidator { validator: Pubkey, enabled: bool },
    CreateGhost {
        ghost_id: [u8; 32],
        amount: u64,
        destination_chain: u64,
        destination_address: [u8; 64],
        source_token: Pubkey,
        destination_token: Pubkey,
    },
    LockGhost { ghost_id: [u8; 32] },
    BurnGhost { ghost_id: [u8; 32], burn_proof: [u8; 32] },
    MirrorGhost {
        ghost_id: [u8; 32],
        source_chain: u64,
        amount: u64,
        burn_proof: [u8; 32],
        source_token: Pubkey,
        destination_token: Pubkey,
    },
    MintGhost { ghost_id: [u8; 32], mint_proof: [u8; 32], recipient: Pubkey },
    AcknowledgeRemote { ghost_id: [u8; 32] },
    DestroyGhost { ghost_id: [u8; 32] },
    /// Creates a liquidity pool.
    InitializePool { pool_seed: [u8; 32] },
    /// Deposits native value into a pool for shares.
    DepositToPool { amount: u64 },
    /// Redeems shares for native value.
    WithdrawFromPool { shares: u64 },
    /// Pays an incoming cross-chain transfer out of the pool (relayer only).
    ExecutePayment { intent_id: [u8; 32], recipient: Pubkey, amount: u64 },
    /// Records a payment attested on another chain (relayer only).
    RecordPaymentIntent {
        intent_id: [u8; 32],
        sender_chain: u64,
        sender_address: [u8; 64],
        amount: u64,
        dest_token: Pubkey,
    },
}

/// The decoded content of a persistent record; `Unreadable` where the stored
/// bytes hold no record of any kind.
#[derive(Debug, Clone)]
pub enum AccountData {
    Unreadable,
    Config(ProgramConfig),
    Transfer(GhostAccount),
    Pool(LiquidityPool),
    Position(LPPosition),
    Intent(PaymentIntent),
}

/// One account named by an instruction.
#[derive(Debug, Clone)]
pub struct AccountInfo {
    pub key: Pubkey,
    pub owner: Pubkey,
    pub is_signer: bool,
    pub lamports: u64,
    pub data: AccountData,
}

/// `a` holding `data` and `lamports`.
pub open spec fn with_content(a: AccountInfo, data: AccountData, lamports: u64) -> AccountInfo {
    AccountInfo { data, lamports, ..a }
}

/// `a` holding `data`.
pub open spec fn with_data(a: AccountInfo, data: AccountData) -> AccountInfo {
    AccountInfo { data, ..a }
}

/// `a` holding `lamports`.
pub open spec fn with_lamports(a: AccountInfo, lamports: u64) -> AccountInfo {
    AccountInfo { lamports, ..a }
}

/// The program error for a bridge error.
pub open spec fn custom(e: GhostError) -> ProgramError {
    ProgramError::Custom(e)
}

/// The registry stored in `a`, checked to belong to the program.
pub open spec fn spec_load_config(program_id: Pubkey, a: AccountInfo) -> Result<
    ProgramConfig,
    ProgramError,
> {
    if a.owner != program_id {
        Err(custom(GhostError::IncorrectProgramId))
    } else {
        match a.data {
            AccountData::Config(c) => Ok(c),
            _ => Err(custom(GhostError::AccountDeserialization)),
        }
    }
}

/// Whether `validator` is a registered validator that signed.
pub open spec fn spec_authorize_validator(
    program_id: Pubkey,
    config_account: AccountInfo,
    validator: AccountInfo,
) -> Result<(), ProgramError> {
    match spec_load_config(program_id, config_account) {
        Err(e) => Err(e),
        Ok(c) => if !c.validators@.contains(validator.key) {
            Err(custom(GhostError::UnauthorizedValidator))
        } else if !validator.is_signer {
            Err(custom(GhostError::MissingSigner))
        } else {
            Ok(())
        },
    }
}

/// The ghost record stored in `a`, if its bytes hold one.
pub open spec fn stored_ghost(a: AccountInfo) -> Option<GhostAccount> {
    match a.data {
        AccountData::Transfer(g) => Some(g),
        _ => None,
    }
}

/// The ghost record a validator-gated operation on `ghost_id` works on; the
/// accounts are registry, ghost record, validator.
pub open spec fn spec_load_with_validator(
    program_id: Pubkey,
    accs: Seq<AccountInfo>,
    ghost_id: [u8; 32],
) -> Result<GhostAccount, ProgramError> {
    if accs.len() < 3 {
        Err(ProgramError::NotEnoughAccountKeys)
    } else {
        match spec_authorize_validator(program_id, accs[0], accs[2]) {
            Err(e) => Err(e),
            Ok(_) => if accs[1].owner != program_id {
                Err(custom(GhostError::IncorrectProgramId))
            } else {
                match spec_resolve(stored_ghost(accs[1]), ghost_id) {
                    Err(e) => Err(custom(e)),
                    Ok(g) => Ok(g),
                }
            },
        }
    }
}

/// The accounts after a validator-gated transition `step` of the record of `ghost_id`.
pub open spec fn spec_ghost_step(
    program_id: Pubkey,
    accs: Seq<AccountInfo>,
    ghost_id: [u8; 32],
    step: spec_fn(GhostAccount) -> Result<GhostAccount, GhostError>,
) -> Result<Seq<AccountInfo>, ProgramError> {
    match spec_load_with_validator(program_id, accs, ghost_id) {
        Err(e) => Err(e),
        Ok(g) => match step(g) {
            Err(e) => Err(custom(e)),
            Ok(n) => Ok(accs.update(1, with_data(accs[1], AccountData::Transfer(n)))),
        },
    }
}

/// The accounts after `CreateGhost`; the accounts are registry, ghost record,
/// payer. A slot that already holds a written record is refused.
pub open spec fn spec_create_ghost(
    program_id: Pubkey,
    accs: Seq<AccountInfo>,
    ghost_id: [u8; 32],
    amount: u64,
    destination_chain: u64,
    destination_address: [u8; 64],
    source_token: Pubkey,
    destination_token: Pubkey,
    now: i64,
) -> Result<Seq<AccountInfo>, ProgramError> {
    if accs.len() < 3 {
        Err(ProgramError::NotEnoughAccountKeys)
    } else {
        match spec_load_config(program_id, accs[0]) {
            Err(e) => Err(e),
            Ok(_) => if !accs[2].is_signer {
                Err(custom(GhostError::MissingSigner))
            } else if accs[1].owner != program_id {
                Err(custom(GhostError::IncorrectProgramId))
            } else {
                let stored = match stored_ghost(accs[1]) {
                    Some(g) => g,
                    None => spec_empty_ghost(),
                };
                match spec_create_into(
                    stored,
                    ghost_id,
                    accs[2].key,
                    amount,
                    destination_chain,
                    destination_address,
                    source_token,
                    destination_token,
                    now,
                ) {
                    Err(e) => Err(custom(e)),
                    Ok(g) => Ok(accs.update(1, with_data(accs[1], AccountData::Transfer(g)))),
                }
            },
        }
    }
}

/// The pool stored in `a`, if its bytes hold one.
pub open spec fn stored_pool(a: AccountInfo) -> Result<LiquidityPool, ProgramError> {
    match a.data {
        AccountData::Pool(p) => Ok(p),
        _ => Err(custom(GhostError::AccountDeserialization)),
    }
}

/// The accounts after `InitializePool`; the accounts are pool, authority.
pub open spec fn spec_initialize_pool(
    program_id: Pubkey,
    accs: Seq<AccountInfo>,
    pool_seed: [u8; 32],
) -> Result<Seq<AccountInfo>, ProgramError> {
    if accs.len() < 2 {
        Err(ProgramError::NotEnoughAccountKeys)
    } else if !accs[1].is_signer {
        Err(custom(GhostError::MissingSigner))
    } else if accs[0].owner != program_id {
        Err(custom(GhostError::IncorrectProgramId))
    } else {
        let p = LiquidityPool {
            seed: pool_seed,
            total_deposited: 0,
            total_shares: 0,
            total_fees: 0,
            available_liquidity: 0,
            active: true,
        };
        Ok(accs.update(0, with_data(accs[0], AccountData::Pool(p))))
    }
}

/// The accounts after `DepositToPool`; the accounts are pool, position,
/// depositor, system program. The position must belong to the depositor;
/// `amount` moves from the depositor to the pool.
pub open spec fn spec_deposit_to_pool(
    program_id: Pubkey,
    accs: Seq<AccountInfo>,
    amount: u64,
    now: i64,
) -> Result<Seq<AccountInfo>, ProgramError> {
    if accs.len() < 4 {
        Err(ProgramError::NotEnoughAccountKeys)
    } else if !accs[2].is_signer {
        Err(custom(GhostError::MissingSigner))
    } else if accs[0].owner != program_id {
        Err(custom(GhostError::IncorrectProgramId))
    } else {
        match stored_pool(accs[0]) {
            Err(e) => Err(e),
            Ok(p) => match spec_deposit(p, amount) {
                Err(e) => Err(e),
                Ok((np, shares)) => {
                    let pos = match accs[1].data {
                        AccountData::Position(x) => x,
                        _ => LPPosition { owner: accs[2].key, pool: np.seed, shares: 0, deposited_at: 0 },
                    };
                    if pos.owner != accs[2].key {
                        Err(ProgramError::InvalidAccountData)
                    } else if accs[2].lamports < amount {
                        Err(ProgramError::InsufficientFunds)
                    } else if accs[0].lamports + amount > u64::MAX {
                        Err(ProgramError::ArithmeticOverflow)
                    } else if pos.shares + shares > u64::MAX {
                        Err(ProgramError::ArithmeticOverflow)
                    } else {
                        let npos = LPPosition {
                            shares: (pos.shares + shares) as u64,
                            deposited_at: now,
                            ..pos
                        };
                        Ok(
                            accs.update(
                                0,
                                with_content(
                                    accs[0],
                                    AccountData::Pool(np),
                                    (accs[0].lamports + amount) as u64,
                                ),
                            ).update(1, with_data(accs[1], AccountData::Position(npos))).update(
                                2,
                                with_lamports(accs[2], (accs[2].lamports - amount) as u64),
                            ),
                        )
                    }
                },
            },
        }
    }
}

/// The accounts after `WithdrawFromPool`; the accounts are pool, position,
/// withdrawer. The value paid moves from the pool to the withdrawer.
pub open spec fn spec_withdraw_from_pool(
    program_id: Pubkey,
    accs: Seq<AccountInfo>,
    shares: u64,
) -> Result<Seq<AccountInfo>, ProgramError> {
    if accs.len() < 3 {
        Err(ProgramError::NotEnoughAccountKeys)
    } else if !accs[2].is_signer {
        Err(custom(GhostError::MissingSigner))
    } else if accs[0].owner != program_id {
        Err(custom(GhostError::IncorrectProgramId))
    } else {
        match stored_pool(accs[0]) {
            Err(e) => Err(e),
            Ok(p) => match accs[1].data {
                AccountData::Position(pos) => match spec_withdraw(p, pos, accs[2].key, shares) {
                    Err(e) => Err(e),
                    Ok((np, npos, amount)) => if accs[0].lamports < amount {
                        Err(ProgramError::InsufficientFunds)
                    } else if accs[2].lamports + amount > u64::MAX {
                        Err(ProgramError::ArithmeticOverflow)
                    } else {
                        Ok(
                            accs.update(
                                0,
                                with_content(
                                    accs[0],
                                    AccountData::Pool(np),
                                    (accs[0].lamports - amount) as u64,
                                ),
                            ).update(1, with_data(accs[1], AccountData::Position(npos))).update(
                                2,
                                with_lamports(accs[2], (accs[2].lamports + amount) as u64),
                            ),
                        )
                    },
                },
                _ => Err(custom(GhostError::AccountDeserialization)),
            },
        }
    }
}

/// The accounts after `ExecutePayment`; the accounts are registry, pool,
/// recipient, relayer. `amount` moves from the pool to the recipient.
pub open spec fn spec_execute_payment(
    program_id: Pubkey,
    accs: Seq<AccountInfo>,
    recipient: Pubkey,
    amount: u64,
) -> Result<Seq<AccountInfo>, ProgramError> {
    if accs.len() < 4 {
        Err(ProgramError::NotEnoughAccountKeys)
    } else {
        match spec_authorize_validator(program_id, accs[0], accs[3]) {
            Err(e) => Err(e),
            Ok(_) => if accs[1].owner != program_id {
                Err(custom(GhostError::IncorrectProgramId))
            } else if accs[2].key != recipient {
                Err(ProgramError::InvalidAccountData)
            } else {
                match stored_pool(accs[1]) {
                    Err(e) => Err(e),
                    Ok(p) => match spec_pay_out(p, amount) {
                        Err(e) => Err(e),
                        Ok(np) => if accs[1].lamports < amount {
                            Err(ProgramError::InsufficientFunds)
                        } else if accs[2].lamports + amount > u64::MAX {
                            Err(ProgramError::ArithmeticOverflow)
                        } else {
                            Ok(
                                accs.update(
                                    1,
                                    with_content(
                                        accs[1],
                                        AccountData::Pool(np),
                                        (accs[1].lamports - amount) as u64,
                                    ),
                                ).update(
                                    2,
                                    with_lamports(accs[2], (accs[2].lamports + amount) as u64),
                                ),
                            )
                        },
                    },
                }
            },
        }
    }
}

/// The accounts after `RecordPaymentIntent`; the accounts are registry,
/// intent record, relayer.
pub open spec fn spec_record_payment_intent(
    program_id: Pubkey,
    accs: Seq<AccountInfo>,
    intent_id: [u8; 32],
    sender_chain: u64,
    sender_address: [u8; 64],
    amount: u64,
    dest_token: Pubkey,
    now: i64,
) -> Result<Seq<AccountInfo>, ProgramError> {
    if accs.len() < 3 {
        Err(ProgramError::NotEnoughAccountKeys)
    } else {
        match spec_authorize_validator(program_id, accs[0], accs[2]) {
            Err(e) => Err(e),
            Ok(_) => if accs[1].owner != program_id {
                Err(custom(GhostError::IncorrectProgramId))
            } else {
                let intent = PaymentIntent {
                    intent_id,
                    sender_chain,
                    sender_address,
                    amount,
                    dest_token,
                    recipient: spec_zero_key(),
                    executed: false,
                    timestamp: now,
                };
                Ok(accs.update(1, with_data(accs[1], AccountData::Intent(intent))))
            },
        }
    }
}

/// `r` and the accounts `after` are what `expected` gives; a failure leaves
/// every account as it was `before`.
pub open spec fn outcome(
    r: Result<(), ProgramError>,
    before: Seq<AccountInfo>,
    after: Seq<AccountInfo>,
    expected: Result<Seq<AccountInfo>, ProgramError>,
) -> bool {
    match expected {
        Ok(s) => r is Ok && after == s,
        Err(e) => r == Err::<(), ProgramError>(e) && after == before,
    }
}

/// Account `i` of `after` is account `i` of `before` with a registry holding
/// the given fields; every other account is unchanged.
pub open spec fn config_written(
    before: Seq<AccountInfo>,
    after: Seq<AccountInfo>,
    i: int,
    admin: Pubkey,
    validator_threshold: u8,
    max_validators: u8,
    validators: Seq<Pubkey>,
) -> bool {
    &&& 0 <= i < before.len()
    &&& after.len() == before.len()
    &&& forall|j: int| 0 <= j < before.len() && j != i ==> after[j] == before[j]
    &&& after[i].key == before[i].key
    &&& after[i].owner == before[i].owner
    &&& after[i].is_signer == before[i].is_signer
    &&& after[i].lamports == before[i].lamports
    &&& match after[i].data {
        AccountData::Config(c) => c.admin == admin && c.validator_threshold == validator_threshold
            && c.max_validators == max_validators && c.validators@ == validators,
        _ => false,
    }
}

/// What `Initialize` does: the accounts are registry, signer; the signer must
/// sign, the slot belong to the program and hold no registry yet; the new
/// registry has no validators.
pub open spec fn initialize_outcome(
    program_id: Pubkey,
    r: Result<(), ProgramError>,
    before: Seq<AccountInfo>,
    after: Seq<AccountInfo>,
    admin: Pubkey,
    validator_threshold: u8,
    max_validators: u8,
) -> bool {
    if before.len() < 2 {
        r == Err::<(), ProgramError>(ProgramError::NotEnoughAccountKeys) && after == before
    } else if !before[1].is_signer {
        r == Err::<(), ProgramError>(custom(GhostError::MissingSigner)) && after == before
    } else if before[0].owner != program_id {
        r == Err::<(), ProgramError>(custom(GhostError::IncorrectProgramId)) && after == before
    } else if before[0].data is Config {
        r == Err::<(), ProgramError>(ProgramError::AccountAlreadyInitialized) && after == before
    } else {
        r is Ok && config_written(
            before,
            after,
            0,
            admin,
            validator_threshold,
            max_validators,
            Seq::empty(),
        )
    }
}

/// What `SetValidator` does: the accounts are registry, administrator; the
/// administrator must sign; the validator list changes as `spec_set_validator` says.
pub open spec fn set_validator_outcome(
    program_id: Pubkey,
    r: Result<(), ProgramError>,
    before: Seq<AccountInfo>,
    after: Seq<AccountInfo>,
    validator: Pubkey,
    enabled: bool,
) -> bool {
    if before.len() < 2 {
        r == Err::<(), ProgramError>(ProgramError::NotEnoughAccountKeys) && after == before
    } else {
        match spec_load_config(program_id, before[0]) {
            Err(e) => r == Err::<(), ProgramError>(e) && after == before,
            Ok(c) => if !before[1].is_signer || before[1].key != c.admin {
                r == Err::<(), ProgramError>(custom(GhostError::UnauthorizedAdmin)) && after
                    == before
            } else {
                match spec_set_validator(c, validator, enabled) {
                    Err(e) => r == Err::<(), ProgramError>(custom(e)) && after == before,
                    Ok(vs) => r is Ok && config_written(
                        before,
                        after,
                        0,
                        c.admin,
                        c.validator_threshold,
                        c.max_validators,
                        vs,
                    ),
                }
            },
        }
    }
}

/// What instruction `ins` does to the accounts `before`, at time `now`.
pub open spec fn process_outcome(
    program_id: Pubkey,
    r: Result<(), ProgramError>,
    before: Seq<AccountInfo>,
    after: Seq<AccountInfo>,
    ins: GhostInstruction,
    now: i64,
) -> bool {
    match ins {
        GhostInstruction::Initialize { admin, validator_threshold, max_validators } =>
            initialize_outcome(
            program_id,
            r,
            before,
            after,
            admin,
            validator_threshold,
            max_validators,
        ),
        GhostInstruction::SetValidator { validator, enabled } => set_validator_outcome(
            program_id,
            r,
            before,
            after,
            validator,
            enabled,
        ),
        GhostInstruction::CreateGhost {
            ghost_id,
            amount,
            destination_chain,
            destination_address,
            source_token,
            destination_token,
        } => outcome(
            r,
            before,
            after,
            spec_create_ghost(
                program_id,
                before,
                ghost_id,
                amount,
                destination_chain,
                destination_address,
                source_token,
                destination_token,
                now,
            ),
        ),
        GhostInstruction::LockGhost { ghost_id } => outcome(
            r,
            before,
            after,
            spec_ghost_step(program_id, before, ghost_id, |g| spec_lock(g, now)),
        ),
        GhostInstruction::BurnGhost { ghost_id, burn_proof } => outcome(
            r,
            before,
            after,
            spec_ghost_step(program_id, before, ghost_id, |g| spec_burn(g, burn_proof, now)),
        ),
        GhostInstruction::MirrorGhost {
            ghost_id,
            source_chain,
            amount,
            burn_proof,
            source_token,
            destination_token,
        } => outcome(
            r,
            before,
            after,
            spec_ghost_step(
                program_id,
                before,
                ghost_id,
                |g|
                    spec_mirror(
                        g,
                        ghost_id,
                        source_chain,
                        amount,
                        burn_proof,
                        source_token,
                        destination_token,
                        now,
                    ),
            ),
        ),
        GhostInstruction::MintGhost { ghost_id, mint_proof, recipient } => outcome(
            r,
            before,
            after,
            spec_ghost_step(
                program_id,
                before,
                ghost_id,
                |g| spec_mint(g, mint_proof, recipient, now),
            ),
        ),
        GhostInstruction::AcknowledgeRemote { ghost_id } => outcome(
            r,
            before,
            after,
            spec_ghost_step(program_id, before, ghost_id, |g| spec_ack(g)),
        ),
        GhostInstruction::DestroyGhost { ghost_id } => outcome(
            r,
            before,
            after,
            spec_ghost_step(program_id, before, ghost_id, |g| spec_destroy(g)),
        ),
        GhostInstruction::InitializePool { pool_seed } => outcome(
            r,
            before,
            after,
            spec_initialize_pool(program_id, before, pool_seed),
        ),
        GhostInstruction::DepositToPool { amount } => outcome(
            r,
            before,
            after,
            spec_deposit_to_pool(program_id, before, amount, now),
        ),
        GhostInstruction::WithdrawFromPool { shares } => outcome(
            r,
            before,
            after,
            spec_withdraw_from_pool(program_id, before, shares),
        ),
        GhostInstruction::ExecutePayment { intent_id, recipient, amount } => outcome(
            r,
            before,
            after,
            spec_execute_payment(program_id, before, recipient, amount),
        ),
        GhostInstruction::RecordPaymentIntent {
            intent_id,
            sender_chain,
            sender_address,
            amount,
            dest_token,
        } => outcome(
            r,
            before,
            after,
            spec_record_payment_intent(
                program_id,
                before,
                intent_id,
                sender_chain,
                sender_address,
                amount,
                dest_token,
                now,
            ),
        ),
    }
}

/// A successful `ExecutePayment` lowers the pool's available liquidity by
/// `amount` and leaves its claim base and shares as they were.
pub proof fn lemma_execute_payment_keeps_claims(
    program_id: Pubkey,
    accs: Seq<AccountInfo>,
    recipient: Pubkey,
    amount: u64,
)
    requires
        spec_execute_payment(program_id, accs, recipient, amount) is Ok,
    ensures
        ({
            let after = spec_execute_payment(program_id, accs, recipient, amount)->Ok_0;
            let before_pool = stored_pool(accs[1])->Ok_0;
            let after_pool = stored_pool(after[1])->Ok_0;
            &&& stored_pool(accs[1]) is Ok
            &&& stored_pool(after[1]) is Ok
            &&& after_pool.total_deposited == before_pool.total_deposited
            &&& after_pool.total_shares == before_pool.total_shares
            &&& after_pool.available_liquidity == before_pool.available_liquidity - amount
        }),
{
}

/// Replaces the content of account `i`.
fn store(accounts: &mut Vec<AccountInfo>, i: usize, data: AccountData, lamports: u64)
    requires
        i < old(accounts).len(),
    ensures
        final(accounts)@ == old(accounts)@.update(
            i as int,
            with_content(old(accounts)@[i as int], data, lamports),
        ),
{
    let info = AccountInfo {
        key: accounts[i].key,
        owner: accounts[i].owner,
        is_signer: accounts[i].is_signer,
        lamports,
        data,
    };
    accounts.set(i, info);
}

/// Replaces the balance of account `i`.
fn set_lamports(accounts: &mut Vec<AccountInfo>, i: usize, lamports: u64)
    requires
        i < old(accounts).len(),
    ensures
        final(accounts)@ == old(accounts)@.update(
            i as int,
            with_lamports(old(accounts)@[i as int], lamports),
        ),
{
    accounts[i].lamports = lamports;
}

/// The instruction handlers.
pub struct Processor;

impl Processor {
    /// Loads the registry from `account`.
    pub fn load_config(program_id: &Pubkey, account: &AccountInfo) -> (r: Result<
        ProgramConfig,
        ProgramError,
    >)
        ensures
            match spec_load_config(*program_id, *account) {
                Ok(c) => r is Ok && r->Ok_0.admin == c.admin && r->Ok_0.validator_threshold
                    == c.validator_threshold && r->Ok_0.max_validators == c.max_validators
                    && r->Ok_0.validators@ == c.validators@,
                Err(e) => r == Err::<ProgramConfig, ProgramError>(e),
            },
    {
        if !key_eq(&account.owner, program_id) {
            return Err(ProgramError::Custom(GhostError::IncorrectProgramId));
        }
        match &account.data {
            AccountData::Config(c) => Ok(c.duplicate()),
            _ => Err(ProgramError::Custom(GhostError::AccountDeserialization)),
        }
    }

    /// Checks that `validator` is a registered validator that signed.
    pub fn authorize_validator(
        program_id: &Pubkey,
        config_account: &AccountInfo,
        validator: &AccountInfo,
    ) -> (r: Result<(), ProgramError>)
        ensures
            r == spec_authorize_validator(*program_id, *config_account, *validator),
    {
        let config = match Self::load_config(program_id, config_account) {
            Ok(c) => c,
            Err(e) => {
                return Err(e);
            },
        };
        if let Err(e) = config.assert_validator(&validator.key) {
            return Err(ProgramError::Custom(e));
        }
        if !validator.is_signer {
            return Err(ProgramError::Custom(GhostError::MissingSigner));
        }
        Ok(())
    }

    /// Fails with `UnauthorizedAdmin` unless `signer` is the administrator and signed.
    pub fn ensure_admin(config: &ProgramConfig, signer: &AccountInfo) -> (r: Result<(), ProgramError>)
        ensures
            r is Ok <==> signer.is_signer && signer.key == config.admin,
            r is Err ==> r == Err::<(), ProgramError>(custom(GhostError::UnauthorizedAdmin)),
    {
        if !signer.is_signer || !key_eq(&signer.key, &config.admin) {
            return Err(ProgramError::Custom(GhostError::UnauthorizedAdmin));
        }
        Ok(())
    }

    /// The record that a validator-gated operation on `ghost_id` works on.
    pub fn load_with_validator(program_id: &Pubkey, accounts: &Vec<AccountInfo>, ghost_id: [u8; 32]) -> (r:
        Result<GhostAccount, ProgramError>)
        ensures
            r == spec_load_with_validator(*program_id, accounts@, ghost_id),
    {
        if accounts.len() < 3 {
            return Err(ProgramError::NotEnoughAccountKeys);
        }
        if let Err(e) = Self::authorize_validator(program_id, &accounts[0], &accounts[2]) {
            return Err(e);
        }
        if !key_eq(&accounts[1].owner, program_id) {
            return Err(ProgramError::Custom(GhostError::IncorrectProgramId));
        }
        let stored = match &accounts[1].data {
            AccountData::Transfer(g) => Some(*g),
            _ => None,
        };
        match GhostAccount::resolve(stored, &ghost_id) {
            Ok(g) => Ok(g),
            Err(e) => Err(ProgramError::Custom(e)),
        }
    }

    /// Writes `record` back to the ghost record account.
    fn write_ghost(accounts: &mut Vec<AccountInfo>, record: GhostAccount)
        requires
            old(accounts).len() >= 3,
        ensures
            final(accounts)@ == old(accounts)@.update(
                1,
                with_data(old(accounts)@[1], AccountData::Transfer(record)),
            ),
    {
        let lamports = accounts[1].lamports;
        store(accounts, 1, AccountData::Transfer(record), lamports);
    }

    /// Opens an outbound transfer in state `Created`.
    pub fn create_ghost(
        program_id: &Pubkey,
        accounts: &mut Vec<AccountInfo>,
        ghost_id: [u8; 32],
        amount: u64,
        destination_chain: u64,
        destination_address: [u8; 64],
        source_token: Pubkey,
        destination_token: Pubkey,
        now: i64,
    ) -> (r: Result<(), ProgramError>)
        ensures
            outcome(
                r,
                old(accounts)@,
                final(accounts)@,
                spec_create_ghost(
                    *program_id,
                    old(accounts)@,
                    ghost_id,
                    amount,
                    destination_chain,
                    destination_address,
                    source_token,
                    destination_token,
                    now,
                ),
            ),
    {
        if accounts.len() < 3 {
            return Err(ProgramError::NotEnoughAccountKeys);
        }
        if let Err(e) = Self::load_config(program_id, &accounts[0]) {
            return Err(e);
        }
        if !accounts[2].is_signer {
            return Err(ProgramError::Custom(GhostError::MissingSigner));
        }
        if !key_eq(&accounts[1].owner, program_id) {
            return Err(ProgramError::Custom(GhostError::IncorrectProgramId));
        }
        if let AccountData::Transfer(stored) = &accounts[1].data {
            if stored.state != GhostState::Empty {
                return Err(ProgramError::Custom(GhostError::GhostExists));
            }
        }
        let record = GhostAccount::create(
            ghost_id,
            accounts[2].key,
            amount,
            destination_chain,
            destination_address,
            source_token,
            destination_token,
            now,
        );
        Self::write_ghost(accounts, record);
        Ok(())
    }

    /// Validator locks a created transfer.
    pub fn lock_ghost(program_id: &Pubkey, accounts: &mut Vec<AccountInfo>, ghost_id: [u8; 32], now: i64) -> (r:
        Result<(), ProgramError>)
        ensures
            outcome(
                r,
                old(accounts)@,
                final(accounts)@,
                spec_ghost_step(*program_id, old(accounts)@, ghost_id, |g| spec_lock(g, now)),
            ),
    {
        let mut record = match Self::load_with_validator(program_id, accounts, ghost_id) {
            Ok(g) => g,
            Err(e) => {
                return Err(e);
            },
        };
        if let Err(e) = record.lock(now) {
            return Err(ProgramError::Custom(e));
        }
        Self::write_ghost(accounts, record);
        Ok(())
    }

    /// Validator burns a locked transfer.
    pub fn burn_ghost(
        program_id: &Pubkey,
        accounts: &mut Vec<AccountInfo>,
        ghost_id: [u8; 32],
        burn_proof: [u8; 32],
        now: i64,
    ) -> (r: Result<(), ProgramError>)
        ensures
            outcome(
                r,
                old(accounts)@,
                final(accounts)@,
                spec_ghost_step(
                    *program_id,
                    old(accounts)@,
                    ghost_id,
                    |g| spec_burn(g, burn_proof, now),
                ),
            ),
    {
        let mut record = match Self::load_with_validator(program_id, accounts, ghost_id) {
            Ok(g) => g,
            Err(e) => {
                return Err(e);
            },
        };
        if let Err(e) = record.burn(burn_proof, now) {
            return Err(ProgramError::Custom(e));
        }
        Self::write_ghost(accounts, record);
        Ok(())
    }

    /// Validator records a burn that happened on the remote chain `source_chain`.
    pub fn mirror_ghost(
        program_id: &Pubkey,
        accounts: &mut Vec<AccountInfo>,
        ghost_id: [u8; 32],
        source_chain: u64,
        amount: u64,
        burn_proof: [u8; 32],
        source_token: Pubkey,
        destination_token: Pubkey,
        now: i64,
    ) -> (r: Result<(), ProgramError>)
        ensures
            outcome(
                r,
                old(accounts)@,
                final(accounts)@,
                spec_ghost_step(
                    *program_id,
                    old(accounts)@,
                    ghost_id,
                    |g|
                        spec_mirror(
                            g,
                            ghost_id,
                            source_chain,
                            amount,
                            burn_proof,
                            source_token,
                            destination_token,
                            now,
                        ),
                ),
            ),
    {
        let mut record = match Self::load_with_validator(program_id, accounts, ghost_id) {
            Ok(g) => g,
            Err(e) => {
                return Err(e);
            },
        };
        if let Err(e) = record.mirror(
            ghost_id,
            source_chain,
            amount,
            burn_proof,
            source_token,
            destination_token,
            now,
        ) {
            return Err(ProgramError::Custom(e));
        }
        Self::write_ghost(accounts, record);
        Ok(())
    }

    /// Validator mints a burned transfer to `recipient`.
    pub fn mint_ghost(
        program_id: &Pubkey,
        accounts: &mut Vec<AccountInfo>,
        ghost_id: [u8; 32],
        mint_proof: [u8; 32],
        recipient: Pubkey,
        now: i64,
    ) -> (r: Result<(), ProgramError>)
        ensures
            outcome(
                r,
                old(accounts)@,
                final(accounts)@,
                spec_ghost_step(
                    *program_id,
                    old(accounts)@,
                    ghost_id,
                    |g| spec_mint(g, mint_proof, recipient, now),
                ),
            ),
    {
        let mut record = match Self::load_with_validator(program_id, accounts, ghost_id) {
            Ok(g) => g,
            Err(e) => {
                return Err(e);
            },
        };
        if let Err(e) = record.mint(mint_proof, recipient, now) {
            return Err(ProgramError::Custom(e));
        }
        Self::write_ghost(accounts, record);
        Ok(())
    }

    /// Validator certifies that the remote chain minted against a burn.
    pub fn ack_remote(program_id: &Pubkey, accounts: &mut Vec<AccountInfo>, ghost_id: [u8; 32]) -> (r:
        Result<(), ProgramError>)
        ensures
            outcome(
                r,
                old(accounts)@,
                final(accounts)@,
                spec_ghost_step(*program_id, old(accounts)@, ghost_id, |g| spec_ack(g)),
            ),
    {
        let mut record = match Self::load_with_validator(program_id, accounts, ghost_id) {
            Ok(g) => g,
            Err(e) => {
                return Err(e);
            },
        };
        if let Err(e) = record.acknowledge_remote() {
            return Err(ProgramError::Custom(e));
        }
        Self::write_ghost(accounts, record);
        Ok(())
    }

    /// Validator settles a completed transfer.
    pub fn destroy_ghost(program_id: &Pubkey, accounts: &mut Vec<AccountInfo>, ghost_id: [u8; 32]) -> (r:
        Result<(), ProgramError>)
        ensures
            outcome(
                r,
                old(accounts)@,
                final(accounts)@,
                spec_ghost_step(*program_id, old(accounts)@, ghost_id, |g| spec_destroy(g)),
            ),
    {
        let mut record = match Self::load_with_validator(program_id, accounts, ghost_id) {
            Ok(g) => g,
            Err(e) => {
                return Err(e);
            },
        };
        if let Err(e) = record.settle() {
            return Err(ProgramError::Custom(e));
        }
        Self::write_ghost(accounts, record);
        Ok(())
    }

    /// Creates the registry with no validators; the accounts are registry, signer.
    pub fn initialize(
        program_id: &Pubkey,
        accounts: &mut Vec<AccountInfo>,
        admin: Pubkey,
        validator_threshold: u8,
        max_validators: u8,
    ) -> (r: Result<(), ProgramError>)
        ensures
            initialize_outcome(
                *program_id,
                r,
                old(accounts)@,
                final(accounts)@,
                admin,
                validator_threshold,
                max_validators,
            ),
    {
        if accounts.len() < 2 {
            return Err(ProgramError::NotEnoughAccountKeys);
        }
        if !accounts[1].is_signer {
            return Err(ProgramError::Custom(GhostError::MissingSigner));
        }
        if !key_eq(&accounts[0].owner, program_id) {
            return Err(ProgramError::Custom(GhostError::IncorrectProgramId));
        }
        if let AccountData::Config(_) = &accounts[0].data {
            return Err(ProgramError::AccountAlreadyInitialized);
        }
        let config = ProgramConfig::new(admin, validator_threshold, max_validators);
        let lamports = accounts[0].lamports;
        store(accounts, 0, AccountData::Config(config), lamports);
        Ok(())
    }

    /// Writes `config` back to the registry account.
    fn save_config(accounts: &mut Vec<AccountInfo>, config: ProgramConfig)
        requires
            old(accounts).len() >= 1,
        ensures
            config_written(
                old(accounts)@,
                final(accounts)@,
                0,
                config.admin,
                config.validator_threshold,
                config.max_validators,
                config.validators@,
            ),
    {
        let lamports = accounts[0].lamports;
        store(accounts, 0, AccountData::Config(config), lamports);
    }

    /// Administrator adds (`enabled`) or removes `validator`; the accounts are
    /// registry, administrator.
    pub fn set_validator(
        program_id: &Pubkey,
        accounts: &mut Vec<AccountInfo>,
        validator: Pubkey,
        enabled: bool,
    ) -> (r: Result<(), ProgramError>)
        ensures
            set_validator_outcome(
                *program_id,
                r,
                old(accounts)@,
                final(accounts)@,
                validator,
                enabled,
            ),
    {
        if accounts.len() < 2 {
            return Err(ProgramError::NotEnoughAccountKeys);
        }
        let mut config = match Self::load_config(program_id, &accounts[0]) {
            Ok(c) => c,
            Err(e) => {
                return Err(e);
            },
        };
        if let Err(e) = Self::ensure_admin(&config, &accounts[1]) {
            return Err(e);
        }
        if let Err(e) = config.set_validator(validator, enabled) {
            return Err(ProgramError::Custom(e));
        }
        Self::save_config(accounts, config);
        Ok(())
    }

    /// Creates an active pool with all counters zero.
    pub fn initialize_pool(program_id: &Pubkey, accounts: &mut Vec<AccountInfo>, pool_seed: [u8; 32]) -> (r:
        Result<(), ProgramError>)
        ensures
            outcome(
                r,
                old(accounts)@,
                final(accounts)@,
                spec_initialize_pool(*program_id, old(accounts)@, pool_seed),
            ),
    {
        if accounts.len() < 2 {
            return Err(ProgramError::NotEnoughAccountKeys);
        }
        if !accounts[1].is_signer {
            return Err(ProgramError::Custom(GhostError::MissingSigner));
        }
        if !key_eq(&accounts[0].owner, program_id) {
            return Err(ProgramError::Custom(GhostError::IncorrectProgramId));
        }
        let pool = LiquidityPool::new(pool_seed);
        let lamports = accounts[0].lamports;
        store(accounts, 0, AccountData::Pool(pool), lamports);
        Ok(())
    }

    /// The pool stored in `account`.
    pub fn load_pool(account: &AccountInfo) -> (r: Result<LiquidityPool, ProgramError>)
        ensures
            r == stored_pool(*account),
    {
        match &account.data {
            AccountData::Pool(p) => Ok(*p),
            _ => Err(ProgramError::Custom(GhostError::AccountDeserialization)),
        }
    }

    /// Deposits `amount` of the depositor's value for shares of the pool.
    pub fn deposit_to_pool(program_id: &Pubkey, accounts: &mut Vec<AccountInfo>, amount: u64, now: i64) -> (r:
        Result<(), ProgramError>)
        ensures
            outcome(
                r,
                old(accounts)@,
                final(accounts)@,
                spec_deposit_to_pool(*program_id, old(accounts)@, amount, now),
            ),
    {
        if accounts.len() < 4 {
            return Err(ProgramError::NotEnoughAccountKeys);
        }
        if !accounts[2].is_signer {
            return Err(ProgramError::Custom(GhostError::MissingSigner));
        }
        if !key_eq(&accounts[0].owner, program_id) {
            return Err(ProgramError::Custom(GhostError::IncorrectProgramId));
        }
        let mut pool = match Self::load_pool(&accounts[0]) {
            Ok(p) => p,
            Err(e) => {
                return Err(e);
            },
        };
        let shares = match pool.deposit(amount) {
            Ok(s) => s,
            Err(e) => {
                return Err(e);
            },
        };
        let position = match &accounts[1].data {
            AccountData::Position(x) => *x,
            _ => LPPosition::opened(accounts[2].key, pool.seed),
        };
        if !key_eq(&position.owner, &accounts[2].key) {
            return Err(ProgramError::InvalidAccountData);
        }
        if accounts[2].lamports < amount {
            return Err(ProgramError::InsufficientFunds);
        }
        let pool_lamports = match accounts[0].lamports.checked_add(amount) {
            Some(v) => v,
            None => {
                return Err(ProgramError::ArithmeticOverflow);
            },
        };
        let position = match position.credited(shares, now) {
            Some(p) => p,
            None => {
                return Err(ProgramError::ArithmeticOverflow);
            },
        };
        let depositor_lamports = accounts[2].lamports - amount;
        store(accounts, 0, AccountData::Pool(pool), pool_lamports);
        let lamports = accounts[1].lamports;
        store(accounts, 1, AccountData::Position(position), lamports);
        set_lamports(accounts, 2, depositor_lamports);
        Ok(())
    }

    /// Redeems `shares` of the withdrawer's position for value from the pool.
    pub fn withdraw_from_pool(program_id: &Pubkey, accounts: &mut Vec<AccountInfo>, shares: u64) -> (r:
        Result<(), ProgramError>)
        ensures
            outcome(
                r,
                old(accounts)@,
                final(accounts)@,
                spec_withdraw_from_pool(*program_id, old(accounts)@, shares),
            ),
    {
        if accounts.len() < 3 {
            return Err(ProgramError::NotEnoughAccountKeys);
        }
        if !accounts[2].is_signer {
            return Err(ProgramError::Custom(GhostError::MissingSigner));
        }
        if !key_eq(&accounts[0].owner, program_id) {
            return Err(ProgramError::Custom(GhostError::IncorrectProgramId));
        }
        let mut pool = match Self::load_pool(&accounts[0]) {
            Ok(p) => p,
            Err(e) => {
                return Err(e);
            },
        };
        let mut position = match &accounts[1].data {
            AccountData::Position(x) => *x,
            _ => {
                return Err(ProgramError::Custom(GhostError::AccountDeserialization));
            },
        };
        let withdrawer = accounts[2].key;
        let amount = match pool.withdraw(&mut position, &withdrawer, shares) {
            Ok(a) => a,
            Err(e) => {
                return Err(e);
            },
        };
        if accounts[0].lamports < amount {
            return Err(ProgramError::InsufficientFunds);
        }
        let withdrawer_lamports = match accounts[2].lamports.checked_add(amount) {
            Some(v) => v,
            None => {
                return Err(ProgramError::ArithmeticOverflow);
            },
        };
        let pool_lamports = accounts[0].lamports - amount;
        store(accounts, 0, AccountData::Pool(pool), pool_lamports);
        let lamports = accounts[1].lamports;
        store(accounts, 1, AccountData::Position(position), lamports);
        set_lamports(accounts, 2, withdrawer_lamports);
        Ok(())
    }

    /// Relayer pays `amount` from the pool to `recipient`; only the pool's
    /// available liquidity shrinks.
    pub fn execute_payment(
        program_id: &Pubkey,
        accounts: &mut Vec<AccountInfo>,
        intent_id: [u8; 32],
        recipient: Pubkey,
        amount: u64,
    ) -> (r: Result<(), ProgramError>)
        ensures
            outcome(
                r,
                old(accounts)@,
                final(accounts)@,
                spec_execute_payment(*program_id, old(accounts)@, recipient, amount),
            ),
    {
        if accounts.len() < 4 {
            return Err(ProgramError::NotEnoughAccountKeys);
        }
        if let Err(e) = Self::authorize_validator(program_id, &accounts[0], &accounts[3]) {
            return Err(e);
        }
        if !key_eq(&accounts[1].owner, program_id) {
            return Err(ProgramError::Custom(GhostError::IncorrectProgramId));
        }
        if !key_eq(&accounts[2].key, &recipient) {
            return Err(ProgramError::InvalidAccountData);
        }
        let mut pool = match Self::load_pool(&accounts[1]) {
            Ok(p) => p,
            Err(e) => {
                return Err(e);
            },
        };
        if let Err(e) = pool.pay_out(amount) {
            return Err(e);
        }
        if accounts[1].lamports < amount {
            return Err(ProgramError::InsufficientFunds);
        }
        let recipient_lamports = match accounts[2].lamports.checked_add(amount) {
            Some(v) => v,
            None => {
                return Err(ProgramError::ArithmeticOverflow);
            },
        };
        let pool_lamports = accounts[1].lamports - amount;
        store(accounts, 1, AccountData::Pool(pool), pool_lamports);
        set_lamports(accounts, 2, recipient_lamports);
        Ok(())
    }

    /// Relayer records a payment attested on another chain.
    pub fn record_payment_intent(
        program_id: &Pubkey,
        accounts: &mut Vec<AccountInfo>,
        intent_id: [u8; 32],
        sender_chain: u64,
        sender_address: [u8; 64],
        amount: u64,
        dest_token: Pubkey,
        now: i64,
    ) -> (r: Result<(), ProgramError>)
        ensures
            outcome(
                r,
                old(accounts)@,
                final(accounts)@,
                spec_record_payment_intent(
                    *program_id,
                    old(accounts)@,
                    intent_id,
                    sender_chain,
                    sender_address,
                    amount,
                    dest_token,
                    now,
                ),
            ),
    {
        if accounts.len() < 3 {
            return Err(ProgramError::NotEnoughAccountKeys);
        }
        if let Err(e) = Self::authorize_validator(program_id, &accounts[0], &accounts[2]) {
            return Err(e);
        }
        if !key_eq(&accounts[1].owner, program_id) {
            return Err(ProgramError::Custom(GhostError::IncorrectProgramId));
        }
        let intent = PaymentIntent::recorded(
            intent_id,
            sender_chain,
            sender_address,
            amount,
            dest_token,
            now,
        );
        let lamports = accounts[1].lamports;
        store(accounts, 1, AccountData::Intent(intent), lamports);
        Ok(())
    }

    /// Runs one instruction against `accounts`; `now` is the current time.
    /// A failure leaves every account unchanged.
    pub fn process(
        program_id: &Pubkey,
        accounts: &mut Vec<AccountInfo>,
        instruction: GhostInstruction,
        now: i64,
    ) -> (r: Result<(), ProgramError>)
        ensures
            process_outcome(*program_id, r, old(accounts)@, final(accounts)@, instruction, now),
    {
        match instruction {
            GhostInstruction::Initialize { admin, validator_threshold, max_validators } => {
                Self::initialize(program_id, accounts, admin, validator_threshold, max_validators)
            },
            GhostInstruction::SetValidator { validator, enabled } => {
                Self::set_validator(program_id, accounts, validator, enabled)
            },
            GhostInstruction::CreateGhost {
                ghost_id,
                amount,
                destination_chain,
                destination_address,
                source_token,
                destination_token,
            } => Self::create_ghost(
                program_id,
                accounts,
                ghost_id,
                amount,
                destination_chain,
                destination_address,
                source_token,
                destination_token,
                now,
            ),
            GhostInstruction::LockGhost { ghost_id } => {
                Self::lock_ghost(program_id, accounts, ghost_id, now)
            },
            GhostInstruction::BurnGhost { ghost_id, burn_proof } => {
                Self::burn_ghost(program_id, accounts, ghost_id, burn_proof, now)
            },
            GhostInstruction::MirrorGhost {
                ghost_id,
                source_chain,
                amount,
                burn_proof,
                source_token,
                destination_token,
            } => Self::mirror_ghost(
                program_id,
                accounts,
                ghost_id,
                source_chain,
                amount,
                burn_proof,
                source_token,
                destination_token,
                now,
            ),
            GhostInstruction::MintGhost { ghost_id, mint_proof, recipient } => {
                Self::mint_ghost(program_id, accounts, ghost_id, mint_proof, recipient, now)
            },
            GhostInstruction::AcknowledgeRemote { ghost_id } => {
                Self::ack_remote(program_id, accounts, ghost_id)
            },
            GhostInstruction::DestroyGhost { ghost_id } => {
                Self::destroy_ghost(program_id, accounts, ghost_id)
            },
            GhostInstruction::InitializePool { pool_seed } => {
                Self::initialize_pool(program_id, accounts, pool_seed)
            },
            GhostInstruction::DepositToPool { amount } => {
                Self::deposit_to_pool(program_id, accounts, amount, now)
            },
            GhostInstruction::WithdrawFromPool { shares } => {
                Self::withdraw_from_pool(program_id, accounts, shares)
            },
            GhostInstruction::ExecutePayment { intent_id, recipient, amount } => {
                Self::execute_payment(program_id, accounts, intent_id, recipient, amount)
            },
            GhostInstruction::RecordPaymentIntent {
                intent_id,
                sender_chain,
                sender_address,
                amount,
                dest_token,
            } => Self::record_payment_intent(
                program_id,
                accounts,
                intent_id,
                sender_chain,
                sender_address,
                amount,
                dest_token,
                now,
            ),
        }
    }
}

/// Entry point: runs a decoded instruction, or fails with
/// `InvalidInstructionData` where the instruction bytes did not decode
/// (`None`). A failure leaves every account unchanged.
pub fn process_instruction(
    program_id: &Pubkey,
    accounts: &mut Vec<AccountInfo>,
    instruction: Option<GhostInstruction>,
    now: i64,
) -> (r: Result<(), ProgramError>)
    ensures
        match instruction {
            None => r == Err::<(), ProgramError>(ProgramError::InvalidInstructionData)
                && final(accounts)@ == old(accounts)@,
            Some(ins) => process_outcome(*program_id, r, old(accounts)@, final(accounts)@, ins, now),
        },
{
    match instruction {
        None => Err(ProgramError::InvalidInstructionData),
        Some(ins) => Processor::process(program_id, accounts, ins, now),
    }
}

} // verus!
