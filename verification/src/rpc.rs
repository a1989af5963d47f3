//! The RPC submission layer: helpers that resolve the current backend from
//! the context registry, extract access keys from query responses, decide the
//! transaction retry loop, and compute credential file paths.

use vstd::prelude::*;
use vstd::string::StringExecFns;
use crate::Error;
use crate::account::AccountId;
use crate::context::ContextRegistry;
use crate::runtime::RuntimeFlavor;

verus! {

/// An account's access key as the backend reports it: its nonce and whether
/// it grants full access or only function calls.
#[derive(Clone, Copy, Debug, PartialEq, Eq, Structural)]
pub struct AccessKeyView {
    pub nonce: u64,
    pub full_access: bool,
}

/// What a query of the backend returned: the requested access key, or some
/// other kind of answer.
#[derive(Clone, Copy, Debug, PartialEq, Eq, Structural)]
pub enum QueryResponseKind {
    AccessKey(AccessKeyView),
    Other,
}

/// A query response together with the finalized point it was observed at.
pub struct QueryResponse {
    pub kind: QueryResponseKind,
    pub block_height: u64,
    pub block_hash: Vec<u8>,
}

/// Extracts the access key from a query response, with the block height and
/// block hash it was observed at; a response of any other kind is an error.
pub fn access_key_from_response(resp: QueryResponse) -> (r: Result<
    (AccessKeyView, u64, Vec<u8>),
    Error,
>)
    ensures
        match r {
            Ok((key, height, hash)) => {
                &&& resp.kind == QueryResponseKind::AccessKey(key)
                &&& height == resp.block_height
                &&& hash@ == resp.block_hash@
            },
            Err(e) => !(resp.kind is AccessKey) && e == Error::AccessKeyMissing,
        },
{
    match resp.kind {
        QueryResponseKind::AccessKey(key) => Ok((key, resp.block_height, resp.block_hash)),
        QueryResponseKind::Other => Err(Error::AccessKeyMissing),
    }
}

/// The final outcome of a submitted transaction: its status and any return
/// payload.
pub struct ExecutionOutcome {
    pub success: bool,
    pub return_value: Vec<u8>,
}

/// One answer of the backend to a submission attempt: a final execution
/// outcome, the timeout-class error (the transaction was accepted but not
/// confirmed final within the backend's window), or any other failure.
pub enum TxResponse {
    Outcome(ExecutionOutcome),
    Timeout,
    Failure(String),
}

/// Whether a submission attempt must be retried: exactly the timeout-class
/// error is, every other response is terminal.
pub fn is_timeout(response: &TxResponse) -> (r: bool)
    ensures
        r == (response is Timeout),
{
    match response {
        TxResponse::Timeout => true,
        _ => false,
    }
}

/// Law: submission is retried exactly until the first non-timeout response.
/// Given the backend's successive answers, the number of attempts made is
/// the position of the first terminal answer: every answer before it is a
/// timeout, and the answer consumed at the last attempt is that terminal
/// one.
pub fn drive_submission(responses: &Vec<TxResponse>) -> (attempts: usize)
    requires
        exists|i: int| 0 <= i < responses@.len() && !(responses@[i] is Timeout),
    ensures
        1 <= attempts <= responses@.len(),
        forall|j: int| 0 <= j < attempts - 1 ==> responses@[j] is Timeout,
        !(responses@[attempts - 1] is Timeout),
{
    let n = responses.len();
    let mut i: usize = 0;
    loop
        invariant
            n == responses@.len(),
            0 <= i < n,
            exists|k: int| i <= k < n && !(responses@[k] is Timeout),
            forall|j: int| 0 <= j < i ==> responses@[j] is Timeout,
        decreases n - i,
    {
        if !is_timeout(&responses[i]) {
            return i + 1;
        }
        i += 1;
        proof {
            assert(i < n);
        }
    }
}

/// The RPC address of the backend currently installed for the scope. Reading
/// with no active scope, or with a backend that offers no RPC, is a setup
/// error the caller must not make.
pub fn rt_current_addr(registry: &ContextRegistry, scope_id: u64) -> (r: String)
    requires
        registry.wf(),
        registry@.contains_key(scope_id),
        !(registry@[scope_id] is Mainnet),
    ensures
        r@ == registry@[scope_id].rpc_addr_spec(),
{
    match registry.current(scope_id) {
        Some(flavor) => flavor.rpc_addr(),
        None => vstd::pervasive::unreached(),
    }
}

/// The path the account's signing credential is stored at, under an
/// explicitly given home directory: the backend's keystore directory plus
/// `<account-id>.json`.
pub open spec fn credentials_file_spec(
    flavor: RuntimeFlavor,
    home: Seq<char>,
    account: Seq<char>,
) -> Seq<char>
    recommends
        !(flavor is Mainnet),
{
    flavor.keystore_path_spec(home) + account + ".json"@
}

/// Computes the credential file path of an account under the scope's current
/// backend and the given home directory. The caller creates the directory
/// and reads or writes the file; this only names it.
pub fn credentials_filepath_under(
    registry: &ContextRegistry,
    scope_id: u64,
    home: &str,
    account_id: &AccountId,
) -> (r: String)
    requires
        registry.wf(),
        registry@.contains_key(scope_id),
        !(registry@[scope_id] is Mainnet),
    ensures
        r@ == credentials_file_spec(registry@[scope_id], home@, account_id@),
{
    let flavor = match registry.current(scope_id) {
        Some(flavor) => flavor,
        None => vstd::pervasive::unreached(),
    };
    let mut path = flavor.keystore_path_under(home);
    path.append(account_id.as_str());
    path.append(".json");
    proof {
        assert(path@ =~= credentials_file_spec(registry@[scope_id], home@, account_id@));
    }
    path
}

/// Computes the credential file path of an account under the scope's current
/// backend, resolving the user's home directory; fails when no home
/// directory can be determined.
pub fn credentials_filepath(
    registry: &ContextRegistry,
    scope_id: u64,
    account_id: &AccountId,
) -> (r: Result<String, Error>)
    requires
        registry.wf(),
        registry@.contains_key(scope_id),
        !(registry@[scope_id] is Mainnet),
    ensures
        r is Ok ==> exists|home: Seq<char>|
            r.unwrap()@ == credentials_file_spec(registry@[scope_id], home, account_id@),
        r is Err ==> r == Err::<String, Error>(Error::MissingHomeDir),
{
    let flavor = match registry.current(scope_id) {
        Some(flavor) => flavor,
        None => vstd::pervasive::unreached(),
    };
    let mut path = match flavor.keystore_path() {
        Ok(path) => path,
        Err(e) => {
            return Err(e);
        },
    };
    let ghost home = choose|home: Seq<char>| path@ == flavor.keystore_path_spec(home);
    path.append(account_id.as_str());
    path.append(".json");
    proof {
        assert(path@ =~= credentials_file_spec(registry@[scope_id], home, account_id@));
    }
    Ok(path)
}

} // verus!
