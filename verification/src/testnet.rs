//! Support for the Soroban contract test harness. Running the Stellar CLI
//! and talking to the network are the harness's own concern; this module
//! computes the values it needs from plain inputs.

use vstd::prelude::*;
use vstd::string::StringExecFns;

verus! {

/// A test identity with a name usable by the Stellar CLI.
pub struct TestIdentity {
    pub name: String,
    pub public_key: String,
}

/// Path to the compiled contract WASM (release build), under the given
/// manifest directory.
pub fn contract_wasm_path(manifest_dir: &str) -> (r: String)
    ensures
        r@ == manifest_dir@
            + "/../integration-test/target/wasm32-unknown-unknown/release/soroban_impala_integration_test.wasm"@,
{
    let mut path = manifest_dir.to_owned();
    path.append(
        "/../integration-test/target/wasm32-unknown-unknown/release/soroban_impala_integration_test.wasm",
    );
    path
}

} // verus!
