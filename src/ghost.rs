use vstd::prelude::*;

use crate::error::GhostError;
use crate::registry::{spec_zero_key, zero_key, Pubkey};

verus! {

/// Lifecycle of a ghost transfer. `Empty` is the state of an unwritten slot,
/// `Settled` is terminal.
#[derive(Clone, Copy, PartialEq, Eq, Debug, Structural)]
pub enum GhostState {
    Empty,
    Created,
    Locked,
    Burned,
    Minted,
    Settled,
}

/// One transfer record, addressed by its `ghost_id`.
///
/// For an inbound transfer `destination_chain` holds the origin chain and the
/// first 32 bytes of `destination_address` the local recipient once minted.
#[derive(Clone, Copy, Debug)]
pub struct GhostAccount {
    pub ghost_id: [u8; 32],
    pub initiator: Pubkey,
    pub source_token: Pubkey,
    pub destination_token: Pubkey,
    pub destination_chain: u64,
    pub destination_address: [u8; 64],
    pub state: GhostState,
    pub amount: u64,
    pub lock_ts: i64,
    pub burn_ts: i64,
    pub mint_ts: i64,
    pub burn_proof: [u8; 32],
    pub mint_proof: [u8; 32],
    pub is_remote: bool,
    pub remote_ack: bool,
}

/// The 64 zero bytes of an empty address.
pub open spec fn spec_zero_address() -> [u8; 64] {
    choose|a: [u8; 64]| a@ == Seq::new(64, |i: int| 0u8)
}

/// `addr` with its first 32 bytes replaced by `recipient`.
pub open spec fn with_recipient(addr: [u8; 64], recipient: Pubkey) -> [u8; 64] {
    choose|a: [u8; 64]| a@ == recipient@ + addr@.subrange(32, 64)
}

/// The record an unwritten slot reads as: all zero, in state `Empty`.
pub open spec fn spec_empty_ghost() -> GhostAccount {
    GhostAccount {
        ghost_id: spec_zero_key(),
        initiator: spec_zero_key(),
        source_token: spec_zero_key(),
        destination_token: spec_zero_key(),
        destination_chain: 0,
        destination_address: spec_zero_address(),
        state: GhostState::Empty,
        amount: 0,
        lock_ts: 0,
        burn_ts: 0,
        mint_ts: 0,
        burn_proof: spec_zero_key(),
        mint_proof: spec_zero_key(),
        is_remote: false,
        remote_ack: false,
    }
}

/// A new outbound record in state `Created`, timestamped `now`.
pub open spec fn spec_create(
    ghost_id: [u8; 32],
    initiator: Pubkey,
    amount: u64,
    destination_chain: u64,
    destination_address: [u8; 64],
    source_token: Pubkey,
    destination_token: Pubkey,
    now: i64,
) -> GhostAccount {
    GhostAccount {
        ghost_id,
        initiator,
        source_token,
        destination_token,
        destination_chain,
        destination_address,
        state: GhostState::Created,
        amount,
        lock_ts: now,
        burn_ts: 0,
        mint_ts: 0,
        burn_proof: spec_zero_key(),
        mint_proof: spec_zero_key(),
        is_remote: false,
        remote_ack: false,
    }
}

/// `Empty -> Created`: opens an outbound record in an empty slot; refused
/// over any record already written.
pub open spec fn spec_create_into(
    g: GhostAccount,
    ghost_id: [u8; 32],
    initiator: Pubkey,
    amount: u64,
    destination_chain: u64,
    destination_address: [u8; 64],
    source_token: Pubkey,
    destination_token: Pubkey,
    now: i64,
) -> Result<GhostAccount, GhostError> {
    if g.state != GhostState::Empty {
        Err(GhostError::GhostExists)
    } else {
        Ok(
            spec_create(
                ghost_id,
                initiator,
                amount,
                destination_chain,
                destination_address,
                source_token,
                destination_token,
                now,
            ),
        )
    }
}

/// `Created -> Locked`, refreshing the lock timestamp.
pub open spec fn spec_lock(g: GhostAccount, now: i64) -> Result<GhostAccount, GhostError> {
    if g.state != GhostState::Created {
        Err(GhostError::InvalidState)
    } else {
        Ok(GhostAccount { state: GhostState::Locked, lock_ts: now, ..g })
    }
}

/// `Locked -> Burned`, recording the burn attestation.
pub open spec fn spec_burn(g: GhostAccount, burn_proof: [u8; 32], now: i64) -> Result<
    GhostAccount,
    GhostError,
> {
    if g.state != GhostState::Locked {
        Err(GhostError::InvalidState)
    } else {
        Ok(GhostAccount { state: GhostState::Burned, burn_ts: now, burn_proof, ..g })
    }
}

/// Whether a mirror may write the slot: it is empty, or holds an inbound
/// record that is still `Burned`.
pub open spec fn mirrorable(g: GhostAccount) -> bool {
    g.state == GhostState::Empty || (g.is_remote && g.state == GhostState::Burned)
}

/// Writes an inbound record in state `Burned`; refused over any other live
/// record: an outbound one, or an inbound one already minted or settled.
pub open spec fn spec_mirror(
    g: GhostAccount,
    ghost_id: [u8; 32],
    source_chain: u64,
    amount: u64,
    burn_proof: [u8; 32],
    source_token: Pubkey,
    destination_token: Pubkey,
    now: i64,
) -> Result<GhostAccount, GhostError> {
    if !mirrorable(g) {
        Err(GhostError::GhostExists)
    } else {
        Ok(
            GhostAccount {
                ghost_id,
                initiator: spec_zero_key(),
                source_token,
                destination_token,
                destination_chain: source_chain,
                state: GhostState::Burned,
                amount,
                burn_ts: now,
                burn_proof,
                is_remote: true,
                ..g
            },
        )
    }
}

/// `Burned -> Minted`, recording the mint attestation and the recipient.
pub open spec fn spec_mint(g: GhostAccount, mint_proof: [u8; 32], recipient: Pubkey, now: i64) -> Result<
    GhostAccount,
    GhostError,
> {
    if g.state != GhostState::Burned {
        Err(GhostError::InvalidState)
    } else {
        Ok(
            GhostAccount {
                state: GhostState::Minted,
                mint_ts: now,
                mint_proof,
                destination_address: with_recipient(g.destination_address, recipient),
                ..g
            },
        )
    }
}

/// Marks a `Burned` record as minted on the remote chain.
pub open spec fn spec_ack(g: GhostAccount) -> Result<GhostAccount, GhostError> {
    if g.state != GhostState::Burned {
        Err(GhostError::InvalidState)
    } else {
        Ok(GhostAccount { remote_ack: true, ..g })
    }
}

/// Whether a record may be settled: minted here, or burned and acknowledged
/// as minted on the remote chain.
pub open spec fn settleable(g: GhostAccount) -> bool {
    g.state == GhostState::Minted || (g.state == GhostState::Burned && g.remote_ack)
}

/// Settles a record that was minted here or acknowledged remotely.
pub open spec fn spec_destroy(g: GhostAccount) -> Result<GhostAccount, GhostError> {
    if !settleable(g) {
        Err(GhostError::InvalidState)
    } else {
        Ok(GhostAccount { state: GhostState::Settled, ..g })
    }
}

/// The record a validator-gated operation works on: the stored one, or the
/// empty record where the slot holds none; a stored record in use under
/// another id is refused.
pub open spec fn spec_resolve(stored: Option<GhostAccount>, ghost_id: [u8; 32]) -> Result<
    GhostAccount,
    GhostError,
> {
    let g = match stored {
        Some(g) => g,
        None => spec_empty_ghost(),
    };
    if g.ghost_id != ghost_id && g.state != GhostState::Empty {
        Err(GhostError::GhostMismatch)
    } else {
        Ok(g)
    }
}

/// Byte-wise equality of two 32-byte ids.
fn id_eq(a: &[u8; 32], b: &[u8; 32]) -> (r: bool)
    ensures
        r == (*a == *b),
{
    crate::registry::key_eq(a, b)
}

/// Returns the 64 zero bytes of an empty address.
fn zero_address() -> (r: [u8; 64])
    ensures
        r == spec_zero_address(),
{
    let r = [0u8; 64];
    assert(r@ =~= Seq::new(64, |i: int| 0u8));
    let ghost a = spec_zero_address();
    assert(a =~= r) by {
        assert forall|i: int| 0 <= i < 64 implies a[i] == r[i] by {
            assert(a@[i] == r@[i]);
        }
    }
    r
}

impl GhostAccount {
    /// Bytes reserved for one record.
    pub fn space() -> (r: usize)
        ensures
            r == 299,
    {
        32 + 32 + 32 + 32 + 8 + 64 + 1 + 8 + 8 + 8 + 8 + 32 + 32 + 1 + 1
    }

    /// The record of an unwritten slot.
    pub fn empty() -> (r: GhostAccount)
        ensures
            r == spec_empty_ghost(),
    {
        GhostAccount {
            ghost_id: zero_key(),
            initiator: zero_key(),
            source_token: zero_key(),
            destination_token: zero_key(),
            destination_chain: 0,
            destination_address: zero_address(),
            state: GhostState::Empty,
            amount: 0,
            lock_ts: 0,
            burn_ts: 0,
            mint_ts: 0,
            burn_proof: zero_key(),
            mint_proof: zero_key(),
            is_remote: false,
            remote_ack: false,
        }
    }

    /// A new outbound transfer record.
    pub fn create(
        ghost_id: [u8; 32],
        initiator: Pubkey,
        amount: u64,
        destination_chain: u64,
        destination_address: [u8; 64],
        source_token: Pubkey,
        destination_token: Pubkey,
        now: i64,
    ) -> (r: GhostAccount)
        ensures
            r == spec_create(
                ghost_id,
                initiator,
                amount,
                destination_chain,
                destination_address,
                source_token,
                destination_token,
                now,
            ),
    {
        GhostAccount {
            ghost_id,
            initiator,
            source_token,
            destination_token,
            destination_chain,
            destination_address,
            state: GhostState::Created,
            amount,
            lock_ts: now,
            burn_ts: 0,
            mint_ts: 0,
            burn_proof: zero_key(),
            mint_proof: zero_key(),
            is_remote: false,
            remote_ack: false,
        }
    }

    /// Picks the record to work on for `ghost_id` (see `spec_resolve`).
    pub fn resolve(stored: Option<GhostAccount>, ghost_id: &[u8; 32]) -> (r: Result<
        GhostAccount,
        GhostError,
    >)
        ensures
            r == spec_resolve(stored, *ghost_id),
    {
        let g = match stored {
            Some(g) => g,
            None => GhostAccount::empty(),
        };
        if !id_eq(&g.ghost_id, ghost_id) && g.state != GhostState::Empty {
            Err(GhostError::GhostMismatch)
        } else {
            Ok(g)
        }
    }

    /// Locks a created transfer.
    pub fn lock(&mut self, now: i64) -> (r: Result<(), GhostError>)
        ensures
            match spec_lock(*old(self), now) {
                Ok(n) => r is Ok && *final(self) == n,
                Err(e) => r == Err::<(), GhostError>(e) && *final(self) == *old(self),
            },
    {
        if self.state != GhostState::Created {
            return Err(GhostError::InvalidState);
        }
        self.state = GhostState::Locked;
        self.lock_ts = now;
        Ok(())
    }

    /// Burns a locked transfer.
    pub fn burn(&mut self, burn_proof: [u8; 32], now: i64) -> (r: Result<(), GhostError>)
        ensures
            match spec_burn(*old(self), burn_proof, now) {
                Ok(n) => r is Ok && *final(self) == n,
                Err(e) => r == Err::<(), GhostError>(e) && *final(self) == *old(self),
            },
    {
        if self.state != GhostState::Locked {
            return Err(GhostError::InvalidState);
        }
        self.state = GhostState::Burned;
        self.burn_ts = now;
        self.burn_proof = burn_proof;
        Ok(())
    }

    /// Mirrors a burn that happened on the remote chain `source_chain`.
    pub fn mirror(
        &mut self,
        ghost_id: [u8; 32],
        source_chain: u64,
        amount: u64,
        burn_proof: [u8; 32],
        source_token: Pubkey,
        destination_token: Pubkey,
        now: i64,
    ) -> (r: Result<(), GhostError>)
        ensures
            match spec_mirror(
                *old(self),
                ghost_id,
                source_chain,
                amount,
                burn_proof,
                source_token,
                destination_token,
                now,
            ) {
                Ok(n) => r is Ok && *final(self) == n,
                Err(e) => r == Err::<(), GhostError>(e) && *final(self) == *old(self),
            },
    {
        let inbound_burned = self.is_remote && self.state == GhostState::Burned;
        if self.state != GhostState::Empty && !inbound_burned {
            return Err(GhostError::GhostExists);
        }
        self.ghost_id = ghost_id;
        self.initiator = zero_key();
        self.source_token = source_token;
        self.destination_token = destination_token;
        self.destination_chain = source_chain;
        self.state = GhostState::Burned;
        self.amount = amount;
        self.burn_ts = now;
        self.burn_proof = burn_proof;
        self.is_remote = true;
        Ok(())
    }

    /// Mints a burned transfer to `recipient`.
    pub fn mint(&mut self, mint_proof: [u8; 32], recipient: Pubkey, now: i64) -> (r: Result<
        (),
        GhostError,
    >)
        ensures
            match spec_mint(*old(self), mint_proof, recipient, now) {
                Ok(n) => r is Ok && *final(self) == n,
                Err(e) => r == Err::<(), GhostError>(e) && *final(self) == *old(self),
            },
    {
        if self.state != GhostState::Burned {
            return Err(GhostError::InvalidState);
        }
        let mut addr = self.destination_address;
        let mut i: usize = 0;
        while i < 32
            invariant
                0 <= i <= 32,
                forall|j: int| 0 <= j < i ==> addr@[j] == recipient@[j],
                forall|j: int| 32 <= j < 64 ==> addr@[j] == self.destination_address@[j],
            decreases 32 - i,
        {
            addr[i] = recipient[i];
            i += 1;
        }
        let ghost want = recipient@ + self.destination_address@.subrange(32, 64);
        assert(addr@ =~= want);
        let ghost chosen = with_recipient(self.destination_address, recipient);
        assert(chosen =~= addr) by {
            assert forall|j: int| 0 <= j < 64 implies chosen[j] == addr[j] by {
                assert(chosen@[j] == addr@[j]);
            }
        }
        self.state = GhostState::Minted;
        self.mint_ts = now;
        self.mint_proof = mint_proof;
        self.destination_address = addr;
        Ok(())
    }

    /// Records that the remote chain minted against this burn.
    pub fn acknowledge_remote(&mut self) -> (r: Result<(), GhostError>)
        ensures
            match spec_ack(*old(self)) {
                Ok(n) => r is Ok && *final(self) == n,
                Err(e) => r == Err::<(), GhostError>(e) && *final(self) == *old(self),
            },
    {
        if self.state != GhostState::Burned {
            return Err(GhostError::InvalidState);
        }
        self.remote_ack = true;
        Ok(())
    }

    /// Settles a transfer that is complete on both sides.
    pub fn settle(&mut self) -> (r: Result<(), GhostError>)
        ensures
            match spec_destroy(*old(self)) {
                Ok(n) => r is Ok && *final(self) == n,
                Err(e) => r == Err::<(), GhostError>(e) && *final(self) == *old(self),
            },
    {
        let burned_and_acknowledged = self.state == GhostState::Burned && self.remote_ack;
        if self.state != GhostState::Minted && !burned_and_acknowledged {
            return Err(GhostError::InvalidState);
        }
        self.state = GhostState::Settled;
        Ok(())
    }
}

/// One call of the transfer state machine, with its arguments.
#[derive(Clone, Copy, Debug)]
pub enum GhostStep {
    Create {
        ghost_id: [u8; 32],
        initiator: Pubkey,
        amount: u64,
        destination_chain: u64,
        destination_address: [u8; 64],
        source_token: Pubkey,
        destination_token: Pubkey,
        now: i64,
    },
    Lock { now: i64 },
    Burn { burn_proof: [u8; 32], now: i64 },
    Mirror {
        ghost_id: [u8; 32],
        source_chain: u64,
        amount: u64,
        burn_proof: [u8; 32],
        source_token: Pubkey,
        destination_token: Pubkey,
        now: i64,
    },
    Mint { mint_proof: [u8; 32], recipient: Pubkey, now: i64 },
    Acknowledge,
    Destroy,
}

/// The record after `step`, or the error it fails with.
pub open spec fn apply_step(g: GhostAccount, step: GhostStep) -> Result<GhostAccount, GhostError> {
    match step {
        GhostStep::Create {
            ghost_id,
            initiator,
            amount,
            destination_chain,
            destination_address,
            source_token,
            destination_token,
            now,
        } => spec_create_into(
            g,
            ghost_id,
            initiator,
            amount,
            destination_chain,
            destination_address,
            source_token,
            destination_token,
            now,
        ),
        GhostStep::Lock { now } => spec_lock(g, now),
        GhostStep::Burn { burn_proof, now } => spec_burn(g, burn_proof, now),
        GhostStep::Mirror {
            ghost_id,
            source_chain,
            amount,
            burn_proof,
            source_token,
            destination_token,
            now,
        } => spec_mirror(
            g,
            ghost_id,
            source_chain,
            amount,
            burn_proof,
            source_token,
            destination_token,
            now,
        ),
        GhostStep::Mint { mint_proof, recipient, now } => spec_mint(g, mint_proof, recipient, now),
        GhostStep::Acknowledge => spec_ack(g),
        GhostStep::Destroy => spec_destroy(g),
    }
}

/// The record after `step`; a failed call leaves it as it was.
pub open spec fn next_record(g: GhostAccount, step: GhostStep) -> GhostAccount {
    match apply_step(g, step) {
        Ok(n) => n,
        Err(_) => g,
    }
}

/// The record after running `steps` in order.
pub open spec fn run_steps(g: GhostAccount, steps: Seq<GhostStep>) -> GhostAccount
    decreases steps.len(),
{
    if steps.len() == 0 {
        g
    } else {
        next_record(run_steps(g, steps.drop_last()), steps.last())
    }
}

/// Position of a state along the lifecycle.
pub open spec fn stage(s: GhostState) -> nat {
    match s {
        GhostState::Empty => 0,
        GhostState::Created => 1,
        GhostState::Locked => 2,
        GhostState::Burned => 3,
        GhostState::Minted => 4,
        GhostState::Settled => 5,
    }
}

/// What holds of every record that the calls produce from an empty slot:
/// an inbound record is at least `Burned`, and a remote acknowledgement is
/// only ever set on a record that reached `Burned`.
pub open spec fn lifecycle_inv(g: GhostAccount) -> bool {
    let past_burn = g.state == GhostState::Burned || g.state == GhostState::Minted || g.state
        == GhostState::Settled;
    &&& g.is_remote ==> past_burn
    &&& g.remote_ack ==> past_burn
}

/// The edges of the lifecycle. Outbound: `Empty -> Created -> Locked -> Burned`,
/// then `Settled` once acknowledged or minted. Inbound: `Empty -> Burned`
/// (a re-mirror stays `Burned`), `Burned -> Minted -> Settled`.
pub open spec fn allowed_step(b: GhostAccount, a: GhostAccount) -> bool {
    let same_flow = a.is_remote == b.is_remote;
    ||| b.state == GhostState::Empty && a.state == GhostState::Created && !a.is_remote
        && !a.remote_ack
    ||| b.state == GhostState::Created && a.state == GhostState::Locked && same_flow
        && a.remote_ack == b.remote_ack
    ||| b.state == GhostState::Locked && a.state == GhostState::Burned && same_flow
        && a.remote_ack == b.remote_ack
    ||| (b.state == GhostState::Empty || (b.is_remote && b.state == GhostState::Burned))
        && a.state == GhostState::Burned && a.is_remote
    ||| b.state == GhostState::Burned && a.state == GhostState::Burned && same_flow
        && a.remote_ack
    ||| b.state == GhostState::Burned && a.state == GhostState::Minted && same_flow
        && a.remote_ack == b.remote_ack
    ||| settleable(b) && a.state == GhostState::Settled && same_flow && a.remote_ack
        == b.remote_ack
}

/// A successful call moves a record along one edge of the lifecycle and
/// keeps `lifecycle_inv`; it never moves a record back.
pub proof fn lemma_step_follows_lifecycle(g: GhostAccount, step: GhostStep)
    requires
        lifecycle_inv(g),
    ensures
        apply_step(g, step) is Ok ==> allowed_step(g, apply_step(g, step)->Ok_0),
        lifecycle_inv(next_record(g, step)),
        stage(next_record(g, step).state) >= stage(g.state),
{
}

/// Over any sequence of calls, a record keeps `lifecycle_inv` and its state
/// never regresses.
pub proof fn lemma_lifecycle_never_regresses(g: GhostAccount, steps: Seq<GhostStep>)
    requires
        lifecycle_inv(g),
    ensures
        lifecycle_inv(run_steps(g, steps)),
        stage(run_steps(g, steps).state) >= stage(g.state),
    decreases steps.len(),
{
    if steps.len() > 0 {
        lemma_lifecycle_never_regresses(g, steps.drop_last());
        lemma_step_follows_lifecycle(run_steps(g, steps.drop_last()), steps.last());
    }
}

/// Each gated call fails with `InvalidState` outside its required state:
/// lock outside `Created`, burn outside `Locked`, mint and acknowledge
/// outside `Burned`, settle unless minted, or burned and acknowledged.
pub proof fn lemma_wrong_state_rejected(
    g: GhostAccount,
    proof_bytes: [u8; 32],
    recipient: Pubkey,
    now: i64,
)
    ensures
        g.state != GhostState::Created ==> spec_lock(g, now) == Err::<GhostAccount, GhostError>(
            GhostError::InvalidState,
        ),
        g.state != GhostState::Locked ==> spec_burn(g, proof_bytes, now) == Err::<
            GhostAccount,
            GhostError,
        >(GhostError::InvalidState),
        g.state != GhostState::Burned ==> spec_mint(g, proof_bytes, recipient, now) == Err::<
            GhostAccount,
            GhostError,
        >(GhostError::InvalidState),
        g.state != GhostState::Burned ==> spec_ack(g) == Err::<GhostAccount, GhostError>(
            GhostError::InvalidState,
        ),
        !(g.state == GhostState::Minted || (g.state == GhostState::Burned && g.remote_ack))
            ==> spec_destroy(g) == Err::<
            GhostAccount,
            GhostError,
        >(GhostError::InvalidState),
{
}

/// Mirroring over a live record fails with `GhostExists`: over an outbound
/// record, and over an inbound one that was already minted or settled.
pub proof fn lemma_mirror_keeps_outbound(
    g: GhostAccount,
    ghost_id: [u8; 32],
    source_chain: u64,
    amount: u64,
    burn_proof: [u8; 32],
    source_token: Pubkey,
    destination_token: Pubkey,
    now: i64,
)
    requires
        g.state != GhostState::Empty,
        !g.is_remote || g.state != GhostState::Burned,
    ensures
        spec_mirror(
            g,
            ghost_id,
            source_chain,
            amount,
            burn_proof,
            source_token,
            destination_token,
            now,
        ) == Err::<GhostAccount, GhostError>(GhostError::GhostExists),
{
}

} // verus!
