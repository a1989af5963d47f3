use workspaces::runtime::{resolve_runtime, CreationRoute, RuntimeFlavor};
use workspaces::strutil::u64_to_dec;
use workspaces::Error;

#[test]
fn rpc_addr_sandbox_uses_local_port() {
    let flavor = RuntimeFlavor::Sandbox(3030);
    assert_eq!(flavor.rpc_addr(), "http://localhost:3030");
}

#[test]
fn rpc_addr_sandbox_other_port() {
    let flavor = RuntimeFlavor::Sandbox(12552);
    assert_eq!(flavor.rpc_addr(), "http://localhost:12552");
}

#[test]
fn rpc_addr_testnet_is_well_known() {
    assert_eq!(RuntimeFlavor::Testnet.rpc_addr(), "https://rpc.testnet.near.org");
}

#[test]
fn names_of_flavors() {
    assert_eq!(RuntimeFlavor::Sandbox(1).name(), "sandbox");
    assert_eq!(RuntimeFlavor::Testnet.name(), "testnet");
    assert_eq!(RuntimeFlavor::Mainnet.name(), "mainnet");
}

#[test]
fn keystore_path_under_is_per_flavor() {
    let sandbox = RuntimeFlavor::Sandbox(3030);
    assert_eq!(
        sandbox.keystore_path_under("/home/user"),
        "/home/user/.near-credentials/sandbox/"
    );
    assert_eq!(
        RuntimeFlavor::Testnet.keystore_path_under("/home/user"),
        "/home/user/.near-credentials/testnet/"
    );
}

#[test]
fn helper_urls_for_testnet() {
    assert_eq!(RuntimeFlavor::Testnet.helper_url(), "https://helper.testnet.near.org");
    assert_eq!(
        RuntimeFlavor::Testnet.helper_account_url(),
        "https://helper.testnet.near.org/account"
    );
}

#[test]
fn creation_routes() {
    assert_eq!(
        RuntimeFlavor::Sandbox(3030).account_creation_route(),
        CreationRoute::LocalTransaction
    );
    assert_eq!(
        RuntimeFlavor::Testnet.account_creation_route(),
        CreationRoute::HelperService
    );
}

#[test]
fn resolve_runtime_known_names() {
    assert_eq!(resolve_runtime("sandbox", 3030), Ok(RuntimeFlavor::Sandbox(3030)));
    assert_eq!(resolve_runtime("testnet", 0), Ok(RuntimeFlavor::Testnet));
}

#[test]
fn resolve_runtime_unknown_names() {
    assert_eq!(resolve_runtime("mainnet", 0), Err(Error::UnknownRuntime));
    assert_eq!(resolve_runtime("", 0), Err(Error::UnknownRuntime));
    assert_eq!(resolve_runtime("Sandbox", 0), Err(Error::UnknownRuntime));
}

#[test]
fn decimal_formatting() {
    assert_eq!(u64_to_dec(0), "0");
    assert_eq!(u64_to_dec(7), "7");
    assert_eq!(u64_to_dec(3030), "3030");
    assert_eq!(u64_to_dec(u64::MAX), "18446744073709551615");
}
