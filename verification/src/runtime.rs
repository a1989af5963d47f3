//! Backend descriptors: which execution target a scope talks to, and the
//! addresses and paths derived from it.

use vstd::prelude::*;
use vstd::pervasive::unreached;
use vstd::string::StringExecFns;
use crate::Error;
use crate::strutil::{dec_str, str_eq, u64_to_dec};

verus! {

/// One execution target for ledger operations: an ephemeral local node
/// listening on the given port, the shared remote test network, or the main
/// network (declared, but no capability of it is implemented).
#[derive(Clone, Copy, Debug, PartialEq, Eq, Structural)]
pub enum RuntimeFlavor {
    Mainnet,
    Testnet,
    Sandbox(u16),
}

/// How accounts come into being on a backend: the local node accepts an
/// ordinary account-creating transaction, the remote network requires a call
/// to its out-of-band helper service.
#[derive(Clone, Copy, Debug, PartialEq, Eq, Structural)]
pub enum CreationRoute {
    LocalTransaction,
    HelperService,
}

impl RuntimeFlavor {
    /// The RPC address of this backend.
    pub open spec fn rpc_addr_spec(self) -> Seq<char>
        recommends
            !(self is Mainnet),
    {
        match self {
            RuntimeFlavor::Sandbox(port) => "http://localhost:"@ + dec_str(port as nat),
            RuntimeFlavor::Testnet => "https://rpc.testnet.near.org"@,
            RuntimeFlavor::Mainnet => Seq::empty(),
        }
    }

    /// The human-readable name of this backend.
    pub open spec fn name_spec(self) -> Seq<char> {
        match self {
            RuntimeFlavor::Sandbox(_) => "sandbox"@,
            RuntimeFlavor::Testnet => "testnet"@,
            RuntimeFlavor::Mainnet => "mainnet"@,
        }
    }

    /// The credential directory of this backend, relative to the home directory.
    pub open spec fn credentials_dir_spec(self) -> Seq<char>
        recommends
            !(self is Mainnet),
    {
        match self {
            RuntimeFlavor::Sandbox(_) => ".near-credentials/sandbox/"@,
            RuntimeFlavor::Testnet => ".near-credentials/testnet/"@,
            RuntimeFlavor::Mainnet => Seq::empty(),
        }
    }

    /// The keystore directory of this backend under the given home directory.
    pub open spec fn keystore_path_spec(self, home: Seq<char>) -> Seq<char>
        recommends
            !(self is Mainnet),
    {
        home + "/"@ + self.credentials_dir_spec()
    }

    /// Computes the RPC address: `http://localhost:{port}` for the local
    /// variant, the well-known URL for the remote test network.
    pub fn rpc_addr(&self) -> (r: String)
        requires
            !(self is Mainnet),
        ensures
            r@ == self.rpc_addr_spec(),
    {
        match self {
            RuntimeFlavor::Sandbox(port) => {
                let mut s = String::from_str("http://localhost:");
                let digits = u64_to_dec(*port as u64);
                s.append(digits.as_str());
                s
            },
            RuntimeFlavor::Testnet => String::from_str("https://rpc.testnet.near.org"),
            RuntimeFlavor::Mainnet => unreached(),
        }
    }

    /// The name this backend is requested by.
    pub fn name(&self) -> (r: &'static str)
        ensures
            r@ == self.name_spec(),
    {
        match self {
            RuntimeFlavor::Sandbox(_) => "sandbox",
            RuntimeFlavor::Testnet => "testnet",
            RuntimeFlavor::Mainnet => "mainnet",
        }
    }

    /// The keystore directory under an explicitly given home directory.
    pub fn keystore_path_under(&self, home: &str) -> (r: String)
        requires
            !(self is Mainnet),
        ensures
            r@ == self.keystore_path_spec(home@),
    {
        let mut s = String::from_str(home);
        s.append("/");
        match self {
            RuntimeFlavor::Sandbox(_) => s.append(".near-credentials/sandbox/"),
            RuntimeFlavor::Testnet => s.append(".near-credentials/testnet/"),
            RuntimeFlavor::Mainnet => unreached(),
        }
        s
    }

    /// Resolves the user's home directory and returns the keystore directory
    /// under it; fails when no home directory can be determined.
    pub fn keystore_path(&self) -> (r: Result<String, Error>)
        requires
            !(self is Mainnet),
        ensures
            r is Ok ==> exists|home: Seq<char>| r.unwrap()@ == self.keystore_path_spec(home),
            r is Err ==> r == Err::<String, Error>(Error::MissingHomeDir),
    {
        match home_dir() {
            Some(home) => Ok(self.keystore_path_under(home.as_str())),
            None => Err(Error::MissingHomeDir),
        }
    }

    /// The account-creation helper service of this backend; only the remote
    /// test network has one.
    pub fn helper_url(&self) -> (r: String)
        requires
            self is Testnet,
        ensures
            r@ == "https://helper.testnet.near.org"@,
    {
        String::from_str("https://helper.testnet.near.org")
    }

    /// The address accounts are created at on the helper service: the
    /// `account` route under the helper URL.
    pub fn helper_account_url(&self) -> (r: String)
        requires
            self is Testnet,
        ensures
            r@ == "https://helper.testnet.near.org"@ + "/account"@,
    {
        let mut s = self.helper_url();
        s.append("/account");
        s
    }

    /// How a top-level account is created on this backend: the local node by
    /// a transaction, the remote test network through its helper service.
    pub fn account_creation_route(&self) -> (r: CreationRoute)
        requires
            !(self is Mainnet),
        ensures
            self is Sandbox ==> r == CreationRoute::LocalTransaction,
            self is Testnet ==> r == CreationRoute::HelperService,
    {
        match self {
            RuntimeFlavor::Sandbox(_) => CreationRoute::LocalTransaction,
            RuntimeFlavor::Testnet => CreationRoute::HelperService,
            RuntimeFlavor::Mainnet => unreached(),
        }
    }
}

/// Resolves a backend name to its descriptor; the local variant listens on
/// the given port. Unrecognized names are a configuration error.
pub fn resolve_runtime(name: &str, sandbox_port: u16) -> (r: Result<RuntimeFlavor, Error>)
    ensures
        name@ == "sandbox"@ ==> r == Ok::<RuntimeFlavor, Error>(RuntimeFlavor::Sandbox(sandbox_port)),
        name@ == "testnet"@ ==> r == Ok::<RuntimeFlavor, Error>(RuntimeFlavor::Testnet),
        name@ != "sandbox"@ && name@ != "testnet"@ ==> r == Err::<RuntimeFlavor, Error>(
            Error::UnknownRuntime,
        ),
{
    proof {
        reveal_strlit("sandbox");
        reveal_strlit("testnet");
        assert("sandbox"@.index(0) == 's');
        assert("testnet"@.index(0) == 't');
        assert("sandbox"@ != "testnet"@);
    }
    if str_eq(name, "sandbox") {
        Ok(RuntimeFlavor::Sandbox(sandbox_port))
    } else if str_eq(name, "testnet") {
        Ok(RuntimeFlavor::Testnet)
    } else {
        Err(Error::UnknownRuntime)
    }
}

/// Relies on `dirs::home_dir`: yields the user's home directory, when the
/// platform reports one whose path is valid Unicode. The result depends on
/// the environment, so nothing is promised of it.
#[verifier::external_body]
fn home_dir() -> Option<String> {
    match dirs::home_dir() {
        Some(path) => match path.into_os_string().into_string() {
            Ok(s) => Some(s),
            Err(_) => None,
        },
        None => None,
    }
}

} // verus!
