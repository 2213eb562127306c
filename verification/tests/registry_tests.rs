use bundler_core::address::Address;
use bundler_core::errors::{ApiError, ConfigError};
use bundler_core::metadata::MetadataService;
use bundler_core::registry::{ChainConfig, ChainRegistry};

fn addr(fill: u8) -> Address {
    Address::new(vec![fill; 20]).unwrap()
}

fn config(chain: &str, currency: &str, fill: u8) -> ChainConfig {
    ChainConfig {
        chain: String::from(chain),
        currency: String::from(currency),
        entrypoint_address: addr(fill),
        rpc_endpoint: String::from("https://rpc.example"),
    }
}

#[test]
fn resolve_returns_configured_entry_exactly() {
    let registry = ChainRegistry::new(vec![
        config("ethereum", "ETH", 0xab),
        config("goerli", "GOR", 0xcd),
    ])
    .unwrap();
    let c = registry.resolve("goerli").unwrap();
    assert_eq!(c.chain, "goerli");
    assert_eq!(c.currency, "GOR");
    assert_eq!(c.entrypoint_address.bytes, vec![0xcd; 20]);
    let e = registry.resolve("ethereum").unwrap();
    assert_eq!(e.currency, "ETH");
    assert_eq!(e.entrypoint_address.bytes, vec![0xab; 20]);
}

#[test]
fn resolve_unconfigured_name_fails_with_unknown_chain() {
    let registry = ChainRegistry::new(vec![config("ethereum", "ETH", 0xab)]).unwrap();
    assert_eq!(registry.resolve("polygon").unwrap_err(), ApiError::UnknownChain);
}

#[test]
fn active_metadata_scenario_ethereum() {
    let registry = ChainRegistry::new(vec![
        config("ethereum", "ETH", 0xab),
        config("goerli", "GOR", 0xcd),
    ])
    .unwrap();
    let service = MetadataService::new(registry, String::from("ethereum"));
    let metadata = service.get_chain().unwrap();
    assert_eq!(metadata.chain, "ethereum");
    assert_eq!(metadata.currency, "ETH");
}

#[test]
fn active_metadata_missing_chain_is_surfaced() {
    let registry = ChainRegistry::new(vec![config("ethereum", "ETH", 0xab)]).unwrap();
    let service = MetadataService::new(registry, String::from("polygon"));
    assert_eq!(service.get_chain().unwrap_err(), ApiError::UnknownChain);
}

#[test]
fn construction_rejects_duplicate_chain_names() {
    let r = ChainRegistry::new(vec![
        config("ethereum", "ETH", 0xab),
        config("ethereum", "WETH", 0xcd),
    ]);
    assert_eq!(r.unwrap_err(), ConfigError::DuplicateChain);
}

#[test]
fn construction_rejects_missing_required_field() {
    let r = ChainRegistry::new(vec![config("ethereum", "", 0xab)]);
    assert_eq!(r.unwrap_err(), ConfigError::MalformedEntry);
}

#[test]
fn construction_rejects_malformed_address() {
    let bad = ChainConfig {
        chain: String::from("ethereum"),
        currency: String::from("ETH"),
        entrypoint_address: Address { bytes: vec![0xab; 19] },
        rpc_endpoint: String::from("https://rpc.example"),
    };
    assert_eq!(ChainRegistry::new(vec![bad]).unwrap_err(), ConfigError::MalformedEntry);
}

#[test]
fn address_constructor_checks_length() {
    assert!(Address::new(vec![1u8; 20]).is_ok());
    assert_eq!(Address::new(vec![1u8; 21]).unwrap_err(), ConfigError::MalformedEntry);
    assert_eq!(Address::new(Vec::new()).unwrap_err(), ConfigError::MalformedEntry);
}
