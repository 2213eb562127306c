use vstd::prelude::*;
use crate::address::{Address, ADDRESS_LEN};
use crate::errors::{ApiError, ConfigError};

verus! {

/// Per-chain configuration: the unique chain name, its native currency
/// symbol, the entrypoint contract address, and the RPC endpoint reference.
#[derive(Clone, Debug)]
pub struct ChainConfig {
    pub chain: String,
    pub currency: String,
    pub entrypoint_address: Address,
    pub rpc_endpoint: String,
}

impl ChainConfig {
    /// Well-formedness: every required field present (non-empty) and the
    /// entrypoint address of the right length.
    pub open spec fn wf(self) -> bool {
        &&& self.chain@.len() > 0
        &&& self.currency@.len() > 0
        &&& self.rpc_endpoint@.len() > 0
        &&& self.entrypoint_address.wf()
    }

    /// Runtime check of well-formedness.
    pub fn check_wf(&self) -> (r: bool)
        ensures
            r == self.wf(),
    {
        !self.chain.as_str().is_empty() && !self.currency.as_str().is_empty()
            && !self.rpc_endpoint.as_str().is_empty()
            && self.entrypoint_address.bytes.len() == ADDRESS_LEN
    }
}

/// The first entry of `s` whose chain name is `name`, if any.
pub open spec fn find_config(s: Seq<ChainConfig>, name: Seq<char>) -> Option<ChainConfig>
    decreases s.len(),
{
    if s.len() == 0 {
        None
    } else if s[0].chain@ == name {
        Some(s[0])
    } else {
        find_config(s.drop_first(), name)
    }
}

/// Lookup finds the first matching entry.
pub proof fn lemma_find_config_first(s: Seq<ChainConfig>, name: Seq<char>, i: int)
    requires
        0 <= i < s.len(),
        s[i].chain@ == name,
        forall|k: int| 0 <= k < i ==> s[k].chain@ != name,
    ensures
        find_config(s, name) == Some(s[i]),
    decreases i,
{
    if i == 0 {
    } else {
        assert(s[0].chain@ != name);
        assert forall|k: int| 0 <= k < i - 1 implies s.drop_first()[k].chain@ != name by {
            assert(s.drop_first()[k] == s[k + 1]);
        }
        assert(s.drop_first()[i - 1] == s[i]);
        lemma_find_config_first(s.drop_first(), name, i - 1);
    }
}

/// Lookup of a name that matches no entry finds nothing.
pub proof fn lemma_find_config_none(s: Seq<ChainConfig>, name: Seq<char>)
    requires
        forall|k: int| 0 <= k < s.len() ==> s[k].chain@ != name,
    ensures
        find_config(s, name) is None,
    decreases s.len(),
{
    if s.len() > 0 {
        assert forall|k: int| 0 <= k < s.drop_first().len() implies s.drop_first()[k].chain@
            != name by {
            assert(s.drop_first()[k] == s[k + 1]);
        }
        lemma_find_config_none(s.drop_first(), name);
    }
}

/// Process-wide, read-only table mapping a chain name to its configuration.
/// Built once at startup; never mutated afterwards, so any number of
/// concurrent callers may read it without synchronization.
#[derive(Clone, Debug)]
pub struct ChainRegistry {
    pub configs: Vec<ChainConfig>,
}

impl ChainRegistry {
    /// Invariant established by construction: every entry is well formed and
    /// chain names are pairwise distinct.
    pub open spec fn wf(self) -> bool {
        &&& forall|i: int| 0 <= i < self.configs@.len() ==> (#[trigger] self.configs@[i]).wf()
        &&& forall|i: int, j: int|
            #![trigger self.configs@[i], self.configs@[j]]
            0 <= i < j < self.configs@.len() ==> self.configs@[i].chain@ != self.configs@[j].chain@
    }

    /// Whether some entry carries the given chain name.
    pub open spec fn has_chain(self, name: Seq<char>) -> bool {
        exists|i: int| 0 <= i < self.configs@.len() && (#[trigger] self.configs@[i]).chain@ == name
    }

    /// Validated construction from the backing configuration. A malformed
    /// entry or a duplicated chain name fails construction: the caller must
    /// treat that as fatal, since no request can be served without a
    /// well-formed registry.
    pub fn new(configs: Vec<ChainConfig>) -> (r: Result<ChainRegistry, ConfigError>)
        ensures
            r matches Ok(reg) ==> reg.configs@ == configs@ && reg.wf(),
            (exists|i: int|
                0 <= i < configs@.len() && !(#[trigger] configs@[i]).wf()) ==> r == Err::<
                ChainRegistry,
                ConfigError,
            >(ConfigError::MalformedEntry),
            (forall|i: int| 0 <= i < configs@.len() ==> (#[trigger] configs@[i]).wf()) && (
            exists|i: int, j: int|
                #![trigger configs@[i], configs@[j]]
                0 <= i < j < configs@.len() && configs@[i].chain@ == configs@[j].chain@) ==> r
                == Err::<ChainRegistry, ConfigError>(ConfigError::DuplicateChain),
            (forall|i: int| 0 <= i < configs@.len() ==> (#[trigger] configs@[i]).wf()) && (
            forall|i: int, j: int|
                #![trigger configs@[i], configs@[j]]
                0 <= i < j < configs@.len() ==> configs@[i].chain@ != configs@[j].chain@) ==> r
                is Ok,
    {
        let n: usize = configs.len();
        let mut i: usize = 0;
        while i < n
            invariant
                n == configs@.len(),
                i <= n,
                forall|k: int| 0 <= k < i ==> (#[trigger] configs@[k]).wf(),
            decreases n - i,
        {
            if !configs[i].check_wf() {
                return Err(ConfigError::MalformedEntry);
            }
            i = i + 1;
        }
        let mut a: usize = 0;
        while a < n
            invariant
                n == configs@.len(),
                a <= n,
                forall|k: int| 0 <= k < n ==> (#[trigger] configs@[k]).wf(),
                forall|k: int, l: int|
                    #![trigger configs@[k], configs@[l]]
                    0 <= k < l < n && k < a ==> configs@[k].chain@ != configs@[l].chain@,
            decreases n - a,
        {
            let mut b: usize = a + 1;
            while b < n
                invariant
                    n == configs@.len(),
                    a < n,
                    a + 1 <= b <= n,
                    forall|k: int| 0 <= k < n ==> (#[trigger] configs@[k]).wf(),
                    forall|l: int| a < l < b ==> configs@[a as int].chain@ != (
                        #[trigger] configs@[l]).chain@,
                decreases n - b,
            {
                if configs[a].chain == configs[b].chain {
                    return Err(ConfigError::DuplicateChain);
                }
                b = b + 1;
            }
            a = a + 1;
        }
        Ok(ChainRegistry { configs })
    }

    /// Resolve a chain name to its configuration; a name with no entry fails
    /// with `UnknownChain`.
    pub fn resolve(&self, chain_name: &str) -> (r: Result<&ChainConfig, ApiError>)
        ensures
            match find_config(self.configs@, chain_name@) {
                Some(c) => r matches Ok(rc) && *rc == c,
                None => r == Err::<&ChainConfig, ApiError>(ApiError::UnknownChain),
            },
            r is Ok <==> self.has_chain(chain_name@),
    {
        let target: String = chain_name.to_owned();
        let n: usize = self.configs.len();
        let mut i: usize = 0;
        while i < n
            invariant
                n == self.configs@.len(),
                i <= n,
                target@ == chain_name@,
                forall|k: int| 0 <= k < i ==> (#[trigger] self.configs@[k]).chain@ != chain_name@,
            decreases n - i,
        {
            if self.configs[i].chain == target {
                proof {
                    lemma_find_config_first(self.configs@, chain_name@, i as int);
                }
                return Ok(&self.configs[i]);
            }
            i = i + 1;
        }
        proof {
            lemma_find_config_none(self.configs@, chain_name@);
        }
        Err(ApiError::UnknownChain)
    }
}

/// Law: in a well-formed registry, every configured chain name resolves to
/// its own entry — the currency and entrypoint address that come back are
/// exactly the configured ones.
pub proof fn lemma_resolve_configured(reg: ChainRegistry, i: int)
    requires
        reg.wf(),
        0 <= i < reg.configs@.len(),
    ensures
        find_config(reg.configs@, reg.configs@[i].chain@) == Some(reg.configs@[i]),
{
    assert(forall|k: int|
        0 <= k < i ==> (#[trigger] reg.configs@[k]).chain@ != reg.configs@[i].chain@);
    lemma_find_config_first(reg.configs@, reg.configs@[i].chain@, i);
}

/// Law: a chain name with no registry entry resolves to nothing, so
/// `resolve` fails with `UnknownChain` on it.
pub proof fn lemma_resolve_unconfigured(reg: ChainRegistry, name: Seq<char>)
    requires
        forall|k: int| 0 <= k < reg.configs@.len() ==> (#[trigger] reg.configs@[k]).chain@ != name,
    ensures
        find_config(reg.configs@, name) is None,
{
    lemma_find_config_none(reg.configs@, name);
}

} // verus!
