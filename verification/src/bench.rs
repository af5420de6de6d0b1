//! Benchmark helpers.
use vstd::prelude::*;

verus! {

/// The URL of an endpoint of a server at `address` (`host:port`):
/// `http://<address>/<endpoint>`.
pub fn benchmark_url(address: &str, endpoint: &str) -> (r: String)
    ensures
        r@ == "http://"@ + address@ + "/"@ + endpoint@,
{
    String::from_str("http://").concat(address).concat("/").concat(endpoint)
}

} // verus!
