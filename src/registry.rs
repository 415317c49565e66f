use vstd::prelude::*;

use crate::error::GhostError;

verus! {

/// A 32-byte public identifier of an actor or a token, compared for equality only.
pub type Pubkey = [u8; 32];

/// The bytes of the all-zero identity, used for "unset".
pub open spec fn zero_bytes() -> Seq<u8> {
    Seq::new(32, |i: int| 0u8)
}

/// The all-zero identity.
pub open spec fn spec_zero_key() -> Pubkey {
    choose|k: Pubkey| k@ == zero_bytes()
}

/// Returns the all-zero identity.
pub fn zero_key() -> (r: Pubkey)
    ensures
        r == spec_zero_key(),
        r@ == zero_bytes(),
{
    let r = [0u8; 32];
    assert(r@ =~= zero_bytes());
    let ghost k = spec_zero_key();
    assert(k@ == zero_bytes());
    assert(k =~= r) by {
        assert forall|i: int| 0 <= i < 32 implies k[i] == r[i] by {
            assert(k@[i] == r@[i]);
        }
    }
    r
}

/// Byte-wise equality of two identities.
pub fn key_eq(a: &Pubkey, b: &Pubkey) -> (r: bool)
    ensures
        r == (*a == *b),
{
    let mut i: usize = 0;
    while i < 32
        invariant
            0 <= i <= 32,
            forall|j: int| 0 <= j < i ==> a@[j] == b@[j],
        decreases 32 - i,
    {
        if a[i] != b[i] {
            assert(a@[i as int] != b@[i as int]);
            return false;
        }
        i += 1;
    }
    assert(*a =~= *b);
    true
}

/// The access-control registry: an administrator and a bounded list of
/// validator identities.
#[derive(Debug, Clone)]
pub struct ProgramConfig {
    pub admin: Pubkey,
    pub validator_threshold: u8,
    pub max_validators: u8,
    pub validators: Vec<Pubkey>,
}

/// The predicate "differs from `key`".
pub open spec fn differs_from(key: Pubkey) -> spec_fn(Pubkey) -> bool {
    |v: Pubkey| v != key
}

/// The validator list after removing every occurrence of `key`.
pub open spec fn without_key(s: Seq<Pubkey>, key: Pubkey) -> Seq<Pubkey> {
    s.filter(differs_from(key))
}

/// The registry after an add (`enabled`) or remove of `validator`, or the
/// error when the add would exceed `max_validators`.
pub open spec fn spec_set_validator(
    c: ProgramConfig,
    validator: Pubkey,
    enabled: bool,
) -> Result<Seq<Pubkey>, GhostError> {
    if enabled {
        if c.validators@.contains(validator) {
            Ok(c.validators@)
        } else if c.validators@.len() >= c.max_validators as int {
            Err(GhostError::ValidatorLimit)
        } else {
            Ok(c.validators@.push(validator))
        }
    } else {
        Ok(without_key(c.validators@, validator))
    }
}

impl ProgramConfig {
    /// A well-formed registry holds at most `max_validators` distinct validators.
    pub open spec fn wf(&self) -> bool {
        &&& self.validators@.len() <= self.max_validators as int
        &&& self.validators@.no_duplicates()
    }

    /// A fresh registry with no validators.
    pub fn new(admin: Pubkey, validator_threshold: u8, max_validators: u8) -> (r: ProgramConfig)
        ensures
            r.admin == admin,
            r.validator_threshold == validator_threshold,
            r.max_validators == max_validators,
            r.validators@ == Seq::<Pubkey>::empty(),
            r.wf(),
    {
        ProgramConfig { admin, validator_threshold, max_validators, validators: Vec::new() }
    }

    /// A copy of this registry.
    pub fn duplicate(&self) -> (r: ProgramConfig)
        ensures
            r.admin == self.admin,
            r.validator_threshold == self.validator_threshold,
            r.max_validators == self.max_validators,
            r.validators@ == self.validators@,
    {
        let mut validators: Vec<Pubkey> = Vec::new();
        let mut i: usize = 0;
        while i < self.validators.len()
            invariant
                0 <= i <= self.validators@.len(),
                validators@ == self.validators@.subrange(0, i as int),
            decreases self.validators@.len() - i,
        {
            validators.push(self.validators[i]);
            i += 1;
            assert(validators@ =~= self.validators@.subrange(0, i as int));
        }
        assert(validators@ =~= self.validators@);
        ProgramConfig {
            admin: self.admin,
            validator_threshold: self.validator_threshold,
            max_validators: self.max_validators,
            validators,
        }
    }

    /// Bytes reserved for a registry record holding up to `max_validators` entries.
    pub fn space(max_validators: usize) -> (r: usize)
        requires
            38 + 32 * max_validators <= usize::MAX,
        ensures
            r == 38 + 32 * max_validators,
    {
        32 + 1 + 1 + 4 + max_validators * 32
    }

    /// Whether `key` is a registered validator.
    pub fn is_validator(&self, key: &Pubkey) -> (r: bool)
        ensures
            r == self.validators@.contains(*key),
    {
        let mut i: usize = 0;
        while i < self.validators.len()
            invariant
                0 <= i <= self.validators@.len(),
                forall|j: int| 0 <= j < i ==> self.validators@[j] != *key,
            decreases self.validators@.len() - i,
        {
            if key_eq(&self.validators[i], key) {
                return true;
            }
            i += 1;
        }
        false
    }

    /// Fails with `UnauthorizedValidator` unless `key` is a registered validator.
    pub fn assert_validator(&self, key: &Pubkey) -> (r: Result<(), GhostError>)
        ensures
            r is Ok <==> self.validators@.contains(*key),
            r is Err ==> r == Err::<(), GhostError>(GhostError::UnauthorizedValidator),
    {
        if self.is_validator(key) {
            Ok(())
        } else {
            Err(GhostError::UnauthorizedValidator)
        }
    }

    /// Adds (`enabled`) or removes `validator`. Adding one already present
    /// changes nothing; adding to a full list fails with `ValidatorLimit` and
    /// changes nothing; removing drops every occurrence.
    pub fn set_validator(&mut self, validator: Pubkey, enabled: bool) -> (r: Result<(), GhostError>)
        ensures
            match spec_set_validator(*old(self), validator, enabled) {
                Ok(vs) => r is Ok && final(self).validators@ == vs,
                Err(e) => r == Err::<(), GhostError>(e) && final(self).validators@ == old(
                    self,
                ).validators@,
            },
            final(self).admin == old(self).admin,
            final(self).validator_threshold == old(self).validator_threshold,
            final(self).max_validators == old(self).max_validators,
            old(self).wf() ==> final(self).wf(),
    {
        if enabled {
            if !self.is_validator(&validator) {
                if self.validators.len() >= self.max_validators as usize {
                    return Err(GhostError::ValidatorLimit);
                }
                self.validators.push(validator);
            }
        } else {
            let mut kept: Vec<Pubkey> = Vec::new();
            let mut i: usize = 0;
            let ghost before = self.validators@;
            while i < self.validators.len()
                invariant
                    self.validators@ == before,
                    0 <= i <= before.len(),
                    kept@ == without_key(before.subrange(0, i as int), validator),
                decreases before.len() - i,
            {
                let v = self.validators[i];
                proof {
                    assert(before.subrange(0, i + 1) =~= before.subrange(0, i as int).push(v));
                    before.subrange(0, i as int).lemma_filter_push(v, differs_from(validator));
                }
                if !key_eq(&v, &validator) {
                    kept.push(v);
                }
                i += 1;
            }
            assert(before.subrange(0, before.len() as int) =~= before);
            proof {
                lemma_without_key_wf(before, validator);
            }
            self.validators = kept;
        }
        Ok(())
    }
}

/// Removing a key keeps a list duplicate-free and no longer.
proof fn lemma_without_key_wf(s: Seq<Pubkey>, key: Pubkey)
    ensures
        without_key(s, key).len() <= s.len(),
        s.no_duplicates() ==> without_key(s, key).no_duplicates(),
        !without_key(s, key).contains(key),
    decreases s.len(),
{
    broadcast use vstd::seq_lib::group_seq_properties;
    let pred = differs_from(key);
    if s.len() > 0 {
        let init = s.drop_last();
        assert(init.push(s.last()) =~= s);
        init.lemma_filter_push(s.last(), pred);
        lemma_without_key_wf(init, key);
        if s.no_duplicates() {
            assert(init.no_duplicates());
            assert(!init.contains(s.last())) by {
                if init.contains(s.last()) {
                    let j = choose|j: int| 0 <= j < init.len() && init[j] == s.last();
                    assert(0 <= j < init.len() && s[j] == s[s.len() - 1]);
                }
            }
            assert(!without_key(init, key).contains(s.last())) by {
                if without_key(init, key).contains(s.last()) {
                    init.lemma_filter_contains_rev(pred, s.last());
                }
            }
        }
    } else {
        assert(without_key(s, key) =~= s) by {
            reveal(Seq::filter);
        }
    }
}

} // verus!
