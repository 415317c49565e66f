use vstd::prelude::*;

use crate::error::ProgramError;
use crate::registry::{key_eq, spec_zero_key, zero_key, Pubkey};

verus! {

/// A pool of native value that backs immediate payouts, owned through shares.
#[derive(Clone, Copy, Debug)]
pub struct LiquidityPool {
    /// Pool identifier.
    pub seed: [u8; 32],
    /// The claim base of all liquidity providers.
    pub total_deposited: u64,
    /// Shares issued to liquidity providers.
    pub total_shares: u64,
    /// Fees accumulated so far.
    pub total_fees: u64,
    /// Value that can be paid out now.
    pub available_liquidity: u64,
    /// Whether the pool accepts deposits.
    pub active: bool,
}

/// One provider's stake in a pool.
#[derive(Clone, Copy, Debug)]
pub struct LPPosition {
    pub owner: Pubkey,
    pub pool: [u8; 32],
    pub shares: u64,
    pub deposited_at: i64,
}

/// A payment attested by a relayer as owed on this chain.
#[derive(Clone, Copy, Debug)]
pub struct PaymentIntent {
    pub intent_id: [u8; 32],
    pub sender_chain: u64,
    pub sender_address: [u8; 64],
    pub amount: u64,
    pub dest_token: Pubkey,
    /// Unset (all zero) until the intent is executed.
    pub recipient: Pubkey,
    pub executed: bool,
    pub timestamp: i64,
}

/// Shares issued for a deposit of `amount`: one per unit into an empty pool,
/// else the depositor's pro-rata part, rounded down.
pub open spec fn shares_for_deposit(p: LiquidityPool, amount: u64) -> int {
    if p.total_shares == 0 {
        amount as int
    } else {
        (amount as int * p.total_shares as int) / (p.total_deposited as int)
    }
}

/// Value paid out for `shares`: their pro-rata part of the claim base, rounded down.
pub open spec fn amount_for_shares(p: LiquidityPool, shares: u64) -> int {
    (shares as int * p.total_deposited as int) / (p.total_shares as int)
}

/// The pool after a deposit of `amount`, and the shares issued.
pub open spec fn spec_deposit(p: LiquidityPool, amount: u64) -> Result<
    (LiquidityPool, u64),
    ProgramError,
> {
    if !p.active {
        Err(ProgramError::InvalidAccountData)
    } else if p.total_shares != 0 && p.total_deposited == 0 {
        Err(ProgramError::ArithmeticOverflow)
    } else {
        let shares = shares_for_deposit(p, amount);
        if shares > u64::MAX || p.total_deposited + amount > u64::MAX || p.total_shares + shares
            > u64::MAX || p.available_liquidity + amount > u64::MAX {
            Err(ProgramError::ArithmeticOverflow)
        } else {
            Ok(
                (
                    LiquidityPool {
                        total_deposited: (p.total_deposited + amount) as u64,
                        total_shares: (p.total_shares + shares) as u64,
                        available_liquidity: (p.available_liquidity + amount) as u64,
                        ..p
                    },
                    shares as u64,
                ),
            )
        }
    }
}

/// The pool and position after `withdrawer` redeems `shares`, and the value paid out.
pub open spec fn spec_withdraw(
    p: LiquidityPool,
    pos: LPPosition,
    withdrawer: Pubkey,
    shares: u64,
) -> Result<(LiquidityPool, LPPosition, u64), ProgramError> {
    if pos.owner != withdrawer {
        Err(ProgramError::InvalidAccountData)
    } else if pos.shares < shares {
        Err(ProgramError::InsufficientFunds)
    } else if p.total_shares == 0 {
        Err(ProgramError::ArithmeticOverflow)
    } else {
        let amount = amount_for_shares(p, shares);
        if amount > p.available_liquidity {
            Err(ProgramError::InsufficientFunds)
        } else if p.total_deposited < amount || p.total_shares < shares {
            Err(ProgramError::ArithmeticOverflow)
        } else {
            Ok(
                (
                    LiquidityPool {
                        total_deposited: (p.total_deposited - amount) as u64,
                        total_shares: (p.total_shares - shares) as u64,
                        available_liquidity: (p.available_liquidity - amount) as u64,
                        ..p
                    },
                    LPPosition { shares: (pos.shares - shares) as u64, ..pos },
                    amount as u64,
                ),
            )
        }
    }
}

/// The pool after paying `amount` out of its available liquidity.
pub open spec fn spec_pay_out(p: LiquidityPool, amount: u64) -> Result<LiquidityPool, ProgramError> {
    if p.available_liquidity < amount {
        Err(ProgramError::InsufficientFunds)
    } else {
        Ok(LiquidityPool { available_liquidity: (p.available_liquidity - amount) as u64, ..p })
    }
}

impl LiquidityPool {
    /// Spendable liquidity never exceeds what the providers are owed.
    pub open spec fn wf(&self) -> bool {
        self.available_liquidity <= self.total_deposited
    }

    /// Bytes reserved for one pool record.
    pub fn space() -> (r: usize)
        ensures
            r == 65,
    {
        32 + 8 + 8 + 8 + 8 + 1
    }

    /// An active pool with all counters zero.
    pub fn new(seed: [u8; 32]) -> (r: LiquidityPool)
        ensures
            r == (LiquidityPool {
                seed,
                total_deposited: 0,
                total_shares: 0,
                total_fees: 0,
                available_liquidity: 0,
                active: true,
            }),
            r.wf(),
    {
        LiquidityPool {
            seed,
            total_deposited: 0,
            total_shares: 0,
            total_fees: 0,
            available_liquidity: 0,
            active: true,
        }
    }

    /// Shares issued for a deposit of `amount`, if they can be computed.
    pub fn deposit_shares(&self, amount: u64) -> (r: Option<u64>)
        ensures
            r == (if self.total_shares != 0 && self.total_deposited == 0 || shares_for_deposit(
                *self,
                amount,
            ) > u64::MAX {
                None::<u64>
            } else {
                Some(shares_for_deposit(*self, amount) as u64)
            }),
    {
        if self.total_shares == 0 {
            Some(amount)
        } else if self.total_deposited == 0 {
            None
        } else {
            let a = amount as u128;
            let s = self.total_shares as u128;
            assert(a * s <= u64::MAX as int * u64::MAX as int) by (nonlinear_arith)
                requires
                    a <= u64::MAX,
                    s <= u64::MAX,
            ;
            let q = a * s / (self.total_deposited as u128);
            if q > u64::MAX as u128 {
                None
            } else {
                Some(q as u64)
            }
        }
    }

    /// Value paid out for `shares`, if it can be computed.
    pub fn withdrawal_amount(&self, shares: u64) -> (r: Option<u64>)
        ensures
            r == (if self.total_shares == 0 || amount_for_shares(*self, shares) > u64::MAX {
                None::<u64>
            } else {
                Some(amount_for_shares(*self, shares) as u64)
            }),
    {
        if self.total_shares == 0 {
            return None;
        }
        let s = shares as u128;
        let d = self.total_deposited as u128;
        assert(s * d <= u64::MAX as int * u64::MAX as int) by (nonlinear_arith)
            requires
                s <= u64::MAX,
                d <= u64::MAX,
        ;
        let q = s * d / (self.total_shares as u128);
        if q > u64::MAX as u128 {
            None
        } else {
            Some(q as u64)
        }
    }

    /// Takes a deposit of `amount` and returns the shares issued for it.
    /// On failure the pool is unchanged.
    pub fn deposit(&mut self, amount: u64) -> (r: Result<u64, ProgramError>)
        ensures
            match spec_deposit(*old(self), amount) {
                Ok((n, shares)) => r == Ok::<u64, ProgramError>(shares) && *final(self) == n,
                Err(e) => r == Err::<u64, ProgramError>(e) && *final(self) == *old(self),
            },
            r is Ok ==> r->Ok_0 == shares_for_deposit(*old(self), amount),
            r is Ok ==> final(self).available_liquidity == old(self).available_liquidity + amount,
            old(self).wf() ==> final(self).wf(),
    {
        if !self.active {
            return Err(ProgramError::InvalidAccountData);
        }
        let shares = match self.deposit_shares(amount) {
            Some(s) => s,
            None => {
                return Err(ProgramError::ArithmeticOverflow);
            },
        };
        let deposited = match self.total_deposited.checked_add(amount) {
            Some(v) => v,
            None => {
                return Err(ProgramError::ArithmeticOverflow);
            },
        };
        let total_shares = match self.total_shares.checked_add(shares) {
            Some(v) => v,
            None => {
                return Err(ProgramError::ArithmeticOverflow);
            },
        };
        let available = match self.available_liquidity.checked_add(amount) {
            Some(v) => v,
            None => {
                return Err(ProgramError::ArithmeticOverflow);
            },
        };
        self.total_deposited = deposited;
        self.total_shares = total_shares;
        self.available_liquidity = available;
        Ok(shares)
    }

    /// Redeems `shares` of `position` for `withdrawer` and returns the value
    /// paid out. On failure neither record changes.
    pub fn withdraw(&mut self, position: &mut LPPosition, withdrawer: &Pubkey, shares: u64) -> (r:
        Result<u64, ProgramError>)
        ensures
            match spec_withdraw(*old(self), *old(position), *withdrawer, shares) {
                Ok((n, pos, amount)) => r == Ok::<u64, ProgramError>(amount) && *final(self) == n
                    && *final(position) == pos,
                Err(e) => r == Err::<u64, ProgramError>(e) && *final(self) == *old(self)
                    && *final(position) == *old(position),
            },
            r is Ok ==> r->Ok_0 == amount_for_shares(*old(self), shares),
            old(self).wf() ==> final(self).wf(),
    {
        if !key_eq(&position.owner, withdrawer) {
            return Err(ProgramError::InvalidAccountData);
        }
        if position.shares < shares {
            return Err(ProgramError::InsufficientFunds);
        }
        if self.total_shares == 0 {
            return Err(ProgramError::ArithmeticOverflow);
        }
        let amount = match self.withdrawal_amount(shares) {
            Some(a) => a,
            None => {
                // the amount exceeds every u64, so the available liquidity too
                return Err(ProgramError::InsufficientFunds);
            },
        };
        if self.available_liquidity < amount {
            return Err(ProgramError::InsufficientFunds);
        }
        if self.total_deposited < amount || self.total_shares < shares {
            return Err(ProgramError::ArithmeticOverflow);
        }
        self.total_deposited = self.total_deposited - amount;
        self.total_shares = self.total_shares - shares;
        self.available_liquidity = self.available_liquidity - amount;
        position.shares = position.shares - shares;
        Ok(amount)
    }

    /// Pays `amount` out of the available liquidity, leaving the providers'
    /// claim base and shares as they were.
    pub fn pay_out(&mut self, amount: u64) -> (r: Result<(), ProgramError>)
        ensures
            match spec_pay_out(*old(self), amount) {
                Ok(n) => r is Ok && *final(self) == n,
                Err(e) => r == Err::<(), ProgramError>(e) && *final(self) == *old(self),
            },
            final(self).total_deposited == old(self).total_deposited,
            final(self).total_shares == old(self).total_shares,
            r is Ok ==> final(self).available_liquidity == old(self).available_liquidity - amount,
            old(self).wf() ==> final(self).wf(),
    {
        if self.available_liquidity < amount {
            return Err(ProgramError::InsufficientFunds);
        }
        self.available_liquidity = self.available_liquidity - amount;
        Ok(())
    }
}

impl LPPosition {
    /// Bytes reserved for one position record.
    pub fn space() -> (r: usize)
        ensures
            r == 80,
    {
        32 + 32 + 8 + 8
    }

    /// The position a first deposit starts from.
    pub fn opened(owner: Pubkey, pool: [u8; 32]) -> (r: LPPosition)
        ensures
            r == (LPPosition { owner, pool, shares: 0, deposited_at: 0 }),
    {
        LPPosition { owner, pool, shares: 0, deposited_at: 0 }
    }

    /// Adds `shares` issued at time `now`; `None` where the count would overflow.
    pub fn credited(&self, shares: u64, now: i64) -> (r: Option<LPPosition>)
        ensures
            r == (if self.shares + shares > u64::MAX {
                None::<LPPosition>
            } else {
                Some(LPPosition { shares: (self.shares + shares) as u64, deposited_at: now, ..*self })
            }),
    {
        match self.shares.checked_add(shares) {
            Some(total) => Some(LPPosition { shares: total, deposited_at: now, ..*self }),
            None => None,
        }
    }
}

impl PaymentIntent {
    /// Bytes reserved for one intent record.
    pub fn space() -> (r: usize)
        ensures
            r == 185,
    {
        32 + 8 + 64 + 8 + 32 + 32 + 1 + 8
    }

    /// A new, unexecuted intent with no recipient yet.
    pub fn recorded(
        intent_id: [u8; 32],
        sender_chain: u64,
        sender_address: [u8; 64],
        amount: u64,
        dest_token: Pubkey,
        now: i64,
    ) -> (r: PaymentIntent)
        ensures
            r == (PaymentIntent {
                intent_id,
                sender_chain,
                sender_address,
                amount,
                dest_token,
                recipient: spec_zero_key(),
                executed: false,
                timestamp: now,
            }),
    {
        PaymentIntent {
            intent_id,
            sender_chain,
            sender_address,
            amount,
            dest_token,
            recipient: zero_key(),
            executed: false,
            timestamp: now,
        }
    }
}

/// One call on a pool's accounting.
#[derive(Clone, Copy, Debug)]
pub enum PoolOp {
    Deposit { amount: u64 },
    Withdraw { position: LPPosition, withdrawer: Pubkey, shares: u64 },
    PayOut { amount: u64 },
}

/// The pool after `op`; a failed call leaves it as it was.
pub open spec fn next_pool(p: LiquidityPool, op: PoolOp) -> LiquidityPool {
    match op {
        PoolOp::Deposit { amount } => match spec_deposit(p, amount) {
            Ok((n, _)) => n,
            Err(_) => p,
        },
        PoolOp::Withdraw { position, withdrawer, shares } => match spec_withdraw(
            p,
            position,
            withdrawer,
            shares,
        ) {
            Ok((n, _, _)) => n,
            Err(_) => p,
        },
        PoolOp::PayOut { amount } => match spec_pay_out(p, amount) {
            Ok(n) => n,
            Err(_) => p,
        },
    }
}

/// The pool after running `ops` in order.
pub open spec fn run_pool(p: LiquidityPool, ops: Seq<PoolOp>) -> LiquidityPool
    decreases ops.len(),
{
    if ops.len() == 0 {
        p
    } else {
        next_pool(run_pool(p, ops.drop_last()), ops.last())
    }
}

/// After any sequence of deposits, withdrawals and payouts, the available
/// liquidity is still at most the total deposited.
pub proof fn lemma_liquidity_stays_backed(p: LiquidityPool, ops: Seq<PoolOp>)
    requires
        p.wf(),
    ensures
        run_pool(p, ops).wf(),
    decreases ops.len(),
{
    if ops.len() > 0 {
        lemma_liquidity_stays_backed(p, ops.drop_last());
    }
}

/// A deposit issues `amount` shares into a pool without shares, else
/// `floor(amount * total_shares / total_deposited)`, and raises the
/// available liquidity by `amount`.
pub proof fn lemma_deposit_shares(p: LiquidityPool, amount: u64)
    ensures
        spec_deposit(p, amount) is Ok ==> {
            let (n, shares) = spec_deposit(p, amount)->Ok_0;
            &&& p.total_shares == 0 ==> shares == amount
            &&& p.total_shares != 0 ==> shares as int == (amount as int * p.total_shares as int)
                / (p.total_deposited as int)
            &&& n.available_liquidity == p.available_liquidity + amount
        },
{
}

/// A withdrawal by the position's owner pays `floor(shares * total_deposited
/// / total_shares)`. It fails with `InsufficientFunds` when `shares` exceeds
/// the position; otherwise it does so exactly when that amount exceeds the
/// available liquidity, and succeeds when it does not and `shares` is within
/// the pool's total.
pub proof fn lemma_withdraw_outcome(
    p: LiquidityPool,
    position: LPPosition,
    withdrawer: Pubkey,
    shares: u64,
)
    requires
        p.wf(),
        position.owner == withdrawer,
        p.total_shares > 0,
    ensures
        shares > position.shares ==> spec_withdraw(p, position, withdrawer, shares) == Err::<
            (LiquidityPool, LPPosition, u64),
            ProgramError,
        >(ProgramError::InsufficientFunds),
        shares <= position.shares ==> (spec_withdraw(p, position, withdrawer, shares) == Err::<
            (LiquidityPool, LPPosition, u64),
            ProgramError,
        >(ProgramError::InsufficientFunds) <==> amount_for_shares(p, shares)
            > p.available_liquidity),
        shares <= position.shares && shares <= p.total_shares && amount_for_shares(p, shares)
            <= p.available_liquidity ==> {
            &&& spec_withdraw(p, position, withdrawer, shares) is Ok
            &&& spec_withdraw(p, position, withdrawer, shares)->Ok_0.2 as int == amount_for_shares(
                p,
                shares,
            )
        },
{
}

/// A payout changes only the available liquidity: the claim base and the
/// shares stay as they were, whether it succeeds or not.
pub proof fn lemma_pay_out_keeps_claims(p: LiquidityPool, amount: u64)
    ensures
        next_pool(p, PoolOp::PayOut { amount }).total_deposited == p.total_deposited,
        next_pool(p, PoolOp::PayOut { amount }).total_shares == p.total_shares,
        next_pool(p, PoolOp::PayOut { amount }).total_fees == p.total_fees,
        next_pool(p, PoolOp::PayOut { amount }).seed == p.seed,
        next_pool(p, PoolOp::PayOut { amount }).active == p.active,
{
}

} // verus!
