//! Query orchestration: constructs the single outbound read request that
//! fetches one account's profile subtree from the external registry, and
//! names the failure shape of the remote call.
//!
//! The registry address is chosen from exactly two configured endpoints by a
//! network discriminator: signers under the `.near` namespace are served by
//! the main-network registry, all others by the test-network one.

use vstd::prelude::*;

verus! {

/// How the remote registry call can fail: a timeout, a remote fault, or a
/// missing result. Failure is terminal for the request; the caller must
/// re-invoke.
#[derive(Clone, Copy, PartialEq, Eq, Structural, Debug)]
pub enum QueryFailure {
    Failed,
}

/// One outbound registry read, bounded by a fixed compute budget. The caller
/// performs it and hands the response (or failure) to the continuation.
pub struct RegistryQuery {
    /// The registry endpoint to address.
    pub registry_account_id: String,
    /// The registry method to call.
    pub method_name: String,
    /// The call's JSON payload.
    pub args_json: String,
    /// Fixed compute ceiling for the remote call, in teraunits.
    pub gas_tgas: u64,
    /// Currency attached to the read call: none.
    pub attached_deposit: u128,
}

/// `s` ends with `suffix`.
pub open spec fn seq_ends_with(s: Seq<char>, suffix: Seq<char>) -> bool {
    s.len() >= suffix.len() && s.subrange(s.len() - suffix.len(), s.len() as int) == suffix
}

/// The registry endpoint serving a signer: the main-network address for
/// signers under `.near`, the test-network address otherwise.
pub open spec fn spec_registry_for_signer(signer: Seq<char>) -> Seq<char> {
    if seq_ends_with(signer, ".near"@) {
        "social.near"@
    } else {
        "v1.social08.testnet"@
    }
}

/// The path that selects one account's whole profile subtree.
pub open spec fn spec_query_key(account_id: Seq<char>) -> Seq<char> {
    account_id + "/profile/**"@
}

/// The registry read payload: `{"keys":["<account>/profile/**"]}`.
pub open spec fn spec_query_payload(account_id: Seq<char>) -> Seq<char> {
    "{\"keys\":[\""@ + spec_query_key(account_id) + "\"]}"@
}

/// Whether `s` ends with `suffix`, by characters.
pub fn str_ends_with(s: &str, suffix: &str) -> (r: bool)
    ensures
        r == seq_ends_with(s@, suffix@),
{
    let n = s.unicode_len();
    let m = suffix.unicode_len();
    if m > n {
        return false;
    }
    let offset = n - m;
    for i in 0..m
        invariant
            n == s@.len(),
            m == suffix@.len(),
            m <= n,
            offset == n - m,
            forall|j: int| 0 <= j < i ==> s@[offset + j] == suffix@[j],
    {
        let c_of_s = s.get_char(offset + i);
        let c_of_suffix = suffix.get_char(i);
        if c_of_s != c_of_suffix {
            proof {
                assert(s@.subrange(offset as int, n as int)[i as int] != suffix@[i as int]);
            }
            return false;
        }
    }
    proof {
        assert(s@.subrange(offset as int, n as int) =~= suffix@);
    }
    true
}

/// Builds the read payload for one account's profile subtree.
pub fn build_query_args(account_id: &str) -> (r: String)
    ensures
        r@ == spec_query_payload(account_id@),
{
    let mut out = String::from_str("{\"keys\":[\"");
    out.append(account_id);
    out.append("/profile/**");
    out.append("\"]}");
    proof {
        assert(out@ =~= spec_query_payload(account_id@));
    }
    out
}

/// Constructs the single outbound registry read for `predecessor_account_id`'s
/// profile subtree, addressed by the network the signer belongs to.
pub fn build_registry_query(predecessor_account_id: &str, signer_account_id: &str) -> (q:
    RegistryQuery)
    ensures
        q.registry_account_id@ == spec_registry_for_signer(signer_account_id@),
        q.method_name@ == "get"@,
        q.args_json@ == spec_query_payload(predecessor_account_id@),
        q.gas_tgas == 50,
        q.attached_deposit == 0,
{
    let registry_account_id = if str_ends_with(signer_account_id, ".near") {
        String::from_str("social.near")
    } else {
        String::from_str("v1.social08.testnet")
    };
    RegistryQuery {
        registry_account_id,
        method_name: String::from_str("get"),
        args_json: build_query_args(predecessor_account_id),
        gas_tgas: 50,
        attached_deposit: 0,
    }
}

} // verus!
