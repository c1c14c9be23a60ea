//! Ed25519 signatures.
use soroban_env_host::Env;
use soroban_sdk::EnvBase;
use vstd::prelude::*;

verus! {

/// Whether the host verifies `signature` as an Ed25519 signature of `message`
/// under `key`.
pub uninterp spec fn ed25519_holds(key: Seq<u8>, message: Seq<u8>, signature: Seq<u8>) -> bool;

/// Calls the host function `verify_sig_ed25519`, on which
/// `soroban_sdk::crypto::Crypto::ed25519_verify` stands. The result tells whether
/// it reports success, a function of the three byte strings alone. The call runs
/// on a host of its own whose metering has no limit. It reports an error, and
/// does not panic, where the key is no point of the curve, where the signature
/// does not verify, and where a byte string is longer than an object of the host
/// can be.
#[verifier::external_body]
pub(crate) fn host_ed25519(key: &[u8; 32], message: &Vec<u8>, signature: &Vec<u8>) -> (r: bool)
    ensures
        r == ed25519_holds(key@, message@, signature@),
{
    let config = soroban_sdk::testutils::EnvTestConfig { capture_snapshot_at_drop: false };
    let env = soroban_sdk::Env::new_with_config(config);
    env.cost_estimate().budget().reset_unlimited();
    let host = env.host();
    let key = host.bytes_new_from_slice(key.as_slice());
    let message = host.bytes_new_from_slice(message.as_slice());
    let signature = host.bytes_new_from_slice(signature.as_slice());
    match (key, message, signature) {
        (Ok(k), Ok(m), Ok(s)) => host.verify_sig_ed25519(k, m, s).is_ok(),
        _ => false,
    }
}

} // verus!
