use vstd::prelude::*;
use crate::address::Address;
use crate::errors::ApiError;
use crate::registry::{find_config, ChainRegistry};

verus! {

/// A callable entrypoint client: the resolved entrypoint contract address
/// bound together with a caller-supplied connection handle. Binding performs
/// no I/O and is cheap to repeat per call; issuing the on-chain call itself
/// is the caller's one point of network I/O and lives outside this core.
#[derive(Clone, Debug)]
pub struct EntryPointClient<H> {
    pub entrypoint_address: Address,
    pub connection: H,
}

/// Bind the entrypoint of the given chain to a connection handle. Fails with
/// `UnknownChain`, before anything touches the handle, when the chain has no
/// registry entry.
pub fn get_entrypoint_abi<H>(registry: &ChainRegistry, current_chain: &str, client: H) -> (r:
    Result<EntryPointClient<H>, ApiError>)
    ensures
        match find_config(registry.configs@, current_chain@) {
            Some(c) => r matches Ok(ep) && ep.entrypoint_address.bytes@
                == c.entrypoint_address.bytes@ && ep.connection == client,
            None => r == Err::<EntryPointClient<H>, ApiError>(ApiError::UnknownChain),
        },
{
    match registry.resolve(current_chain) {
        Ok(config) => Ok(
            EntryPointClient {
                entrypoint_address: config.entrypoint_address.duplicate(),
                connection: client,
            },
        ),
        Err(e) => Err(e),
    }
}

} // verus!
