use workspaces::context::{assert_within, begin_scope, end_scope, ContextRegistry};
use workspaces::runtime::RuntimeFlavor;
use workspaces::rpc::rt_current_addr;
use workspaces::Error;

#[test]
fn installed_descriptor_is_visible_in_scope() {
    let mut registry = ContextRegistry::new();
    registry.install(1, RuntimeFlavor::Sandbox(3030));
    assert_eq!(registry.current(1), Some(RuntimeFlavor::Sandbox(3030)));
}

#[test]
fn descriptor_invisible_outside_scope() {
    let mut registry = ContextRegistry::new();
    assert_eq!(registry.current(1), None);
    registry.install(1, RuntimeFlavor::Testnet);
    registry.remove(1);
    assert_eq!(registry.current(1), None);
}

#[test]
fn concurrent_scopes_are_isolated() {
    let mut registry = ContextRegistry::new();
    registry.install(1, RuntimeFlavor::Sandbox(3030));
    registry.install(2, RuntimeFlavor::Testnet);
    assert_eq!(rt_current_addr(&registry, 1), "http://localhost:3030");
    assert_eq!(rt_current_addr(&registry, 2), "https://rpc.testnet.near.org");
    registry.remove(2);
    assert_eq!(registry.current(1), Some(RuntimeFlavor::Sandbox(3030)));
    assert_eq!(registry.current(2), None);
}

#[test]
fn begin_scope_resolves_and_installs() {
    let mut registry = ContextRegistry::new();
    let flavor = begin_scope(&mut registry, 7, "sandbox", 4040).unwrap();
    assert_eq!(flavor, RuntimeFlavor::Sandbox(4040));
    assert_eq!(registry.current(7), Some(RuntimeFlavor::Sandbox(4040)));
    end_scope(&mut registry, 7);
    assert_eq!(registry.current(7), None);
}

#[test]
fn begin_scope_rejects_unknown_name() {
    let mut registry = ContextRegistry::new();
    assert_eq!(begin_scope(&mut registry, 7, "betanet", 0), Err(Error::UnknownRuntime));
    assert_eq!(registry.current(7), None);
}

#[test]
fn assert_within_matches_current_backend() {
    let mut registry = ContextRegistry::new();
    registry.install(3, RuntimeFlavor::Testnet);
    let names = vec![String::from("sandbox"), String::from("testnet")];
    assert!(assert_within(&registry, 3, &names));
    let others = vec![String::from("sandbox"), String::from("mainnet")];
    assert!(!assert_within(&registry, 3, &others));
}

#[test]
fn credentials_path_per_backend_kind() {
    let mut registry = ContextRegistry::new();
    registry.install(1, RuntimeFlavor::Sandbox(3030));
    registry.install(2, RuntimeFlavor::Testnet);
    let bob = workspaces::account::AccountId::parse(String::from("bob")).unwrap();
    assert_eq!(
        workspaces::rpc::credentials_filepath_under(&registry, 1, "/home/user", &bob),
        "/home/user/.near-credentials/sandbox/bob.json"
    );
    assert_eq!(
        workspaces::rpc::credentials_filepath_under(&registry, 2, "/home/user", &bob),
        "/home/user/.near-credentials/testnet/bob.json"
    );
}

#[test]
fn end_to_end_local_scope() {
    // A local-backend scope: create the account "alice", resolve its
    // credential path, and confirm the current RPC address carries the port
    // the scope was created with.
    let mut registry = ContextRegistry::new();
    let flavor = begin_scope(&mut registry, 42, "sandbox", 12552).unwrap();
    assert_eq!(flavor, RuntimeFlavor::Sandbox(12552));

    let alice = workspaces::account::AccountId::parse(String::from("alice")).unwrap();
    let path =
        workspaces::rpc::credentials_filepath_under(&registry, 42, "/home/user", &alice);
    assert_eq!(path, "/home/user/.near-credentials/sandbox/alice.json");
    assert!(path.ends_with("alice.json"));

    assert_eq!(rt_current_addr(&registry, 42), "http://localhost:12552");

    end_scope(&mut registry, 42);
    assert_eq!(registry.current(42), None);
}
