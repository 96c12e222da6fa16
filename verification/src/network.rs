use vstd::prelude::*;
use vstd::string::StringExecFns;

use crate::decimal::{decimal_spec, lemma_decimal_injective, u64_to_decimal};
use crate::failure::CommandFailure;

verus! {

/// Relies on rand::random::<u64>: a randomly drawn value; nothing is promised
/// of which one comes back.
#[verifier::external_body]
fn random_u64() -> u64 {
    rand::random()
}

/// Maps a raw random value to a simulated network delay in milliseconds:
/// the value reduced modulo 2000 and shifted to start at 500, which always
/// lands in [500, 2500].
pub fn network_delay_from(raw: u64) -> (d: u64)
    ensures
        d == raw % 2000 + 500,
        500 <= d <= 2500,
{
    (raw % 2000) + 500
}

/// Draws the delay for one simulated network request. Whatever value the
/// random source yields, the delay lands in [500, 2500] milliseconds.
pub fn pick_network_delay() -> (d: u64)
    ensures
        500 <= d <= 2500,
{
    network_delay_from(random_u64())
}

/// The success message reporting a simulated network delay of `delay_ms`
/// milliseconds.
pub open spec fn network_report_spec(delay_ms: nat) -> Seq<char> {
    "✅ Simulation réseau: "@ + decimal_spec(delay_ms) + "ms"@
}

/// The reported delay is faithful: two reports read the same exactly when
/// they were built from the same delay, so the message pins down how long
/// the simulation actually suspended.
pub proof fn lemma_network_report_faithful(a: nat, b: nat)
    ensures
        network_report_spec(a) == network_report_spec(b) ==> a == b,
{
    if network_report_spec(a) == network_report_spec(b) {
        let p = "✅ Simulation réseau: "@;
        let s = "ms"@;
        let da = decimal_spec(a);
        let db = decimal_spec(b);
        assert(network_report_spec(a).len() == p.len() + da.len() + s.len());
        assert(network_report_spec(b).len() == p.len() + db.len() + s.len());
        assert(da.len() == db.len());
        assert(da =~= db) by {
            assert forall|i: int| 0 <= i < da.len() implies da[i] == db[i] by {
                assert(network_report_spec(a)[p.len() + i] == da[i]);
                assert(network_report_spec(b)[p.len() + i] == db[i]);
            }
        }
        lemma_decimal_injective(a, b);
    }
}

/// Reports the outcome of the network simulation after a suspension of
/// `delay_ms` milliseconds: always a success message embedding exactly the
/// delay that was slept.
pub fn network_simulation_outcome(delay_ms: u64) -> (r: Result<String, CommandFailure>)
    ensures
        r is Ok,
        r->Ok_0@ == network_report_spec(delay_ms as nat),
{
    let mut m = "✅ Simulation réseau: ".to_owned();
    let d = u64_to_decimal(delay_ms);
    m.append(d.as_str());
    m.append("ms");
    Ok(m)
}

} // verus!
