//! The escrow factory: instantiates escrows from a stored code template and
//! keeps an append-only registry of the instances it deployed.
//!
//! Instantiation itself is the host's work: the factory computes an
//! [`InstantiationPlan`] (template hash, constructor arguments, endowment,
//! and a salt derived from the block counter), the host instantiates from
//! it, and the outcome comes back to [`EscrowFactory::deploy_escrow`], which
//! records the new instance and describes the notification to emit.

use vstd::prelude::*;

use crate::account::{AccountId, Balance};

verus! {

/// An opaque content hash identifying the escrow code template the factory
/// instantiates from.
#[derive(Clone, Copy, Debug, PartialEq, Eq, Structural)]
pub struct CodeHash(pub u64);

/// Why a factory operation was rejected.
#[derive(Clone, Copy, Debug, PartialEq, Eq, Structural)]
pub enum FactoryError {
    /// The host could not bring up a new instance.
    InstantiationFailed,
}

/// The notification a successful deployment emits: the new instance's
/// identity and the deploying caller's identity.
#[derive(Clone, Copy, Debug, PartialEq, Eq, Structural)]
pub struct EscrowDeployed {
    pub escrow: AccountId,
    pub creator: AccountId,
}

/// Everything the host needs to instantiate one escrow: which template,
/// which constructor arguments, how much to endow it with, and a salt that
/// keeps repeated deployments in one block context distinct.
pub struct InstantiationPlan {
    pub code_hash: CodeHash,
    pub beneficiary: AccountId,
    pub arbiter: AccountId,
    pub endowment: Balance,
    pub salt: Vec<u8>,
}

/// The little-endian bytes of a block number, used as deployment salt.
pub open spec fn le_bytes_of(n: u32) -> Seq<u8> {
    seq![
        (n % 256) as u8,
        ((n / 256) % 256) as u8,
        ((n / 65536) % 256) as u8,
        ((n / 16777216) % 256) as u8,
    ]
}

/// Derive the deployment salt from the current block number.
pub fn block_salt(block_number: u32) -> (r: Vec<u8>)
    ensures
        r@ == le_bytes_of(block_number),
{
    let mut r: Vec<u8> = Vec::new();
    r.push((block_number % 256) as u8);
    r.push(((block_number / 256) % 256) as u8);
    r.push(((block_number / 65536) % 256) as u8);
    r.push(((block_number / 16777216) % 256) as u8);
    proof {
        assert(r@ =~= le_bytes_of(block_number));
    }
    r
}

/// The registry after a run of successful deployments: each one appends the
/// identity the host handed back, in call order.
pub open spec fn registry_run(escrows: Seq<AccountId>, ids: Seq<AccountId>) -> Seq<AccountId>
    decreases ids.len(),
{
    if ids.len() == 0 {
        escrows
    } else {
        registry_run(escrows.push(ids[0]), ids.drop_first())
    }
}

/// Registry monotonicity: `n` successful deployments grow the registry by
/// exactly those `n` identities, in call order, and never shrink or reorder
/// what was already there.
pub proof fn lemma_registry_monotone(escrows: Seq<AccountId>, ids: Seq<AccountId>)
    ensures
        registry_run(escrows, ids) == escrows + ids,
    decreases ids.len(),
{
    if ids.len() == 0 {
        assert(registry_run(escrows, ids) =~= escrows + ids);
    } else {
        lemma_registry_monotone(escrows.push(ids[0]), ids.drop_first());
        assert(escrows.push(ids[0]) + ids.drop_first() =~= escrows + ids);
    }
}

/// Registry distinctness: if the host hands back pairwise-distinct
/// identities, none of which was registered before — as a per-call-distinct
/// entropy source provides — the registry stays free of duplicates.
pub proof fn lemma_registry_distinct(escrows: Seq<AccountId>, ids: Seq<AccountId>)
    requires
        escrows.no_duplicates(),
        ids.no_duplicates(),
        forall|i: int| 0 <= i < ids.len() ==> !escrows.contains(#[trigger] ids[i]),
    ensures
        registry_run(escrows, ids).no_duplicates(),
{
    lemma_registry_monotone(escrows, ids);
    let r = escrows + ids;
    assert forall|i: int, j: int| 0 <= i < r.len() && 0 <= j < r.len() && i != j implies r[i] != r[j] by {
        if i < escrows.len() && j >= escrows.len() {
            assert(r[j] == ids[j - escrows.len()]);
            if r[i] == r[j] {
                assert(escrows.contains(ids[j - escrows.len()]));
            }
        } else if j < escrows.len() && i >= escrows.len() {
            assert(r[i] == ids[i - escrows.len()]);
            if r[i] == r[j] {
                assert(escrows.contains(ids[i - escrows.len()]));
            }
        }
    }
}

/// The factory's persistent state: the fixed template hash and the ordered
/// registry of deployed instance identities.
pub struct EscrowFactory {
    pub escrows: Vec<AccountId>,
    pub escrow_code_hash: CodeHash,
}

impl EscrowFactory {
    /// Create a factory for the given escrow code template. The registry
    /// starts empty.
    pub fn new(escrow_code_hash: CodeHash) -> (f: EscrowFactory)
        ensures
            f.escrows@ == Seq::<AccountId>::empty(),
            f.escrow_code_hash == escrow_code_hash,
    {
        EscrowFactory {
            escrows: Vec::new(),
            escrow_code_hash,
        }
    }

    /// Lay out one deployment for the host: the stored template hash, the
    /// caller-supplied constructor arguments and endowment, and a salt
    /// derived from the current block number.
    pub fn instantiation_plan(
        &self,
        beneficiary: AccountId,
        arbiter: AccountId,
        endowment: Balance,
        block_number: u32,
    ) -> (p: InstantiationPlan)
        ensures
            p.code_hash == self.escrow_code_hash,
            p.beneficiary == beneficiary,
            p.arbiter == arbiter,
            p.endowment == endowment,
            p.salt@ == le_bytes_of(block_number),
    {
        InstantiationPlan {
            code_hash: self.escrow_code_hash,
            beneficiary,
            arbiter,
            endowment,
            salt: block_salt(block_number),
        }
    }

    /// Record the host's instantiation outcome. A failed instantiation is
    /// fatal and mutates nothing; a successful one appends the new
    /// instance's identity to the registry and reports the identity
    /// together with the notification to emit.
    pub fn deploy_escrow(
        &mut self,
        caller: AccountId,
        instantiated: Option<AccountId>,
    ) -> (r: Result<(AccountId, EscrowDeployed), FactoryError>)
        ensures
            final(self).escrow_code_hash == old(self).escrow_code_hash,
            instantiated is None ==> {
                &&& r == Err::<(AccountId, EscrowDeployed), FactoryError>(FactoryError::InstantiationFailed)
                &&& final(self).escrows@ == old(self).escrows@
            },
            instantiated matches Some(id) ==> {
                &&& r == Ok::<(AccountId, EscrowDeployed), FactoryError>((id, (EscrowDeployed { escrow: id, creator: caller })))
                &&& final(self).escrows@ == old(self).escrows@.push(id)
            },
    {
        match instantiated {
            None => Err(FactoryError::InstantiationFailed),
            Some(escrow_account) => {
                self.escrows.push(escrow_account);
                Ok((escrow_account, EscrowDeployed { escrow: escrow_account, creator: caller }))
            }
        }
    }

    /// A snapshot copy of the registry, in deployment order.
    pub fn get_escrows(&self) -> (r: Vec<AccountId>)
        ensures
            r@ == self.escrows@,
    {
        let mut r: Vec<AccountId> = Vec::new();
        let mut i: usize = 0;
        while i < self.escrows.len()
            invariant
                i <= self.escrows.len(),
                r@ == self.escrows@.subrange(0, i as int),
            decreases self.escrows.len() - i,
        {
            r.push(self.escrows[i]);
            proof {
                assert(r@ =~= self.escrows@.subrange(0, i + 1 as int));
            }
            i = i + 1;
        }
        proof {
            assert(r@ =~= self.escrows@);
        }
        r
    }
}

} // verus!
