//! The delegate registry: which delegate holds which quota.

use vstd::prelude::*;
use crate::config::MinterConfig;
use crate::keys::DelegateKey;
use crate::principal::Principal;
use crate::store::KeyedStore;

verus! {

/// The quotas, one at most for each pair of target contract and delegate.
/// A pair without a quota is not a delegate of that contract.
pub struct DelegateRegistry {
    configs: KeyedStore<DelegateKey, MinterConfig>,
}

impl View for DelegateRegistry {
    type V = Map<DelegateKey, MinterConfig>;

    /// The quotas that are registered.
    closed spec fn view(&self) -> Map<DelegateKey, MinterConfig> {
        self.configs@
    }
}

/// The quota that `quotas` holds for `minter` on `contract`.
pub open spec fn quota_of(
    quotas: Map<DelegateKey, MinterConfig>,
    contract: Principal,
    minter: Principal,
) -> Option<MinterConfig> {
    let key = DelegateKey { contract, minter };
    if quotas.dom().contains(key) {
        Some(quotas[key])
    } else {
        None
    }
}

/// Every quota of `quotas` has epochs of at least one tick.
pub open spec fn quotas_usable(quotas: Map<DelegateKey, MinterConfig>) -> bool {
    forall|key: DelegateKey| quotas.dom().contains(key) ==> (#[trigger] quotas[key]).wf()
}

impl DelegateRegistry {
    /// The registry is in order: every quota in it is usable.
    pub closed spec fn wf(&self) -> bool {
        &&& self.configs.wf()
        &&& quotas_usable(self.configs@)
    }

    /// What `wf` says of the registered quotas.
    pub proof fn lemma_wf_quotas(&self)
        requires
            self.wf(),
        ensures
            quotas_usable(self@),
    {
    }

    /// A registry without delegates.
    pub fn new() -> (registry: DelegateRegistry)
        ensures
            registry.wf(),
            registry@ == Map::<DelegateKey, MinterConfig>::empty(),
    {
        DelegateRegistry { configs: KeyedStore::new() }
    }

    /// Grants `minter` the quota `config` on `contract`. A quota that the
    /// pair held before is replaced, not merged.
    pub fn register(&mut self, contract: Principal, minter: Principal, config: MinterConfig)
        requires
            old(self).wf(),
            config.wf(),
        ensures
            final(self).wf(),
            final(self)@ == old(self)@.insert(DelegateKey { contract, minter }, config),
    {
        self.configs.insert(DelegateKey { contract, minter }, config);
    }

    /// The quota of `minter` on `contract`; `None` where the pair has none.
    pub fn lookup(&self, contract: Principal, minter: Principal) -> (config: Option<MinterConfig>)
        requires
            self.wf(),
        ensures
            config == quota_of(self@, contract, minter),
            config matches Some(c) ==> c.wf(),
    {
        self.configs.get(&DelegateKey { contract, minter })
    }
}

} // verus!
