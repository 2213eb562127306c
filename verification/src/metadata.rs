use vstd::prelude::*;
use crate::errors::ApiError;
use crate::registry::{find_config, ChainRegistry};

verus! {

/// The currently active chain and its native currency: a value derived on
/// demand from the registry, never stored.
#[derive(Clone, Debug)]
pub struct Metadata {
    pub chain: String,
    pub currency: String,
}

/// Answers "what chain and currency is currently active" by reading the
/// registry; holds no mutable state and caches nothing.
#[derive(Clone, Debug)]
pub struct MetadataService {
    pub registry: ChainRegistry,
    pub current_chain: String,
}

impl MetadataService {
    pub fn new(registry: ChainRegistry, current_chain: String) -> (r: MetadataService)
        ensures
            r.registry == registry,
            r.current_chain == current_chain,
    {
        MetadataService { registry, current_chain }
    }

    /// The active chain's name and currency. Fails with `UnknownChain` when
    /// the configured active chain has no registry entry: that inconsistency
    /// is surfaced, never silently defaulted.
    pub fn get_chain(&self) -> (r: Result<Metadata, ApiError>)
        ensures
            match find_config(self.registry.configs@, self.current_chain@) {
                Some(c) => r matches Ok(m) && m.chain@ == self.current_chain@ && m.currency@
                    == c.currency@,
                None => r == Err::<Metadata, ApiError>(ApiError::UnknownChain),
            },
    {
        match self.registry.resolve(self.current_chain.as_str()) {
            Ok(config) => Ok(
                Metadata { chain: self.current_chain.clone(), currency: config.currency.clone() },
            ),
            Err(e) => Err(e),
        }
    }
}

} // verus!
