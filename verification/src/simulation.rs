//! A simulator instance on a host, and the liveness-probe decisions.
//!
//! The probe itself opens a socket and exchanges an HTTP request for a
//! status body; that I/O lives outside this crate.  What lives here is the
//! pure part: naming the endpoint, composing the request text, and judging
//! from the response bytes whether the simulator reports itself running.

use vstd::prelude::*;

verus! {

/// A simulation instance on a host.
#[derive(Debug, Clone)]
pub struct Simulation {
    pub host: String,
}

/// The status marker a running simulator's response contains:
/// the bytes of `running:1`.
pub open spec fn running_marker() -> Seq<u8> {
    seq![114u8, 117u8, 110u8, 110u8, 105u8, 110u8, 103u8, 58u8, 49u8]
}

/// The marker occurs somewhere in `s`.
pub open spec fn contains_running_marker(s: Seq<u8>) -> bool {
    exists|i: int| 0 <= i && i + 9 <= s.len() && #[trigger] s.subrange(i, i + 9) == running_marker()
}

impl Simulation {
    /// The port the simulator serves its status on.
    pub const PORT: u16 = 32034;

    /// The host and port to probe, as `host:port` text.
    pub fn host_uri(&self) -> (r: String)
        ensures
            r@ == self.host@ + ":32034"@,
    {
        self.host.clone().concat(":32034")
    }

    /// The HTTP request text the probe sends to read the status.
    pub fn status_request(&self) -> (r: String)
        ensures
            r@ == "GET /get_sim_status?object=simStatus HTTP/1.1\r\nHost: "@ + self.host@
                + "\r\nConnection: close\r\n\r\n"@,
    {
        String::from_str("GET /get_sim_status?object=simStatus HTTP/1.1\r\nHost: ").concat(
            self.host.as_str(),
        ).concat("\r\nConnection: close\r\n\r\n")
    }
}

/// Byte `k` of the running marker.
fn marker_byte(k: usize) -> (r: u8)
    requires
        k < 9,
    ensures
        r == running_marker()[k as int],
{
    if k == 0 {
        114
    } else if k == 1 {
        117
    } else if k == 2 {
        110
    } else if k == 3 {
        110
    } else if k == 4 {
        105
    } else if k == 5 {
        110
    } else if k == 6 {
        103
    } else if k == 7 {
        58
    } else {
        49
    }
}

/// Whether the probe's response bytes report the simulator as running:
/// exactly when they contain `running:1`.
pub fn status_indicates_running(response: &Vec<u8>) -> (r: bool)
    ensures
        r == contains_running_marker(response@),
{
    let n = response.len();
    if n < 9 {
        assert(!contains_running_marker(response@)) by {
            assert forall|i: int| 0 <= i && i + 9 <= response@.len() implies #[trigger] response@
                .subrange(i, i + 9) != running_marker() by {}
        }
        return false;
    }
    let mut start: usize = 0;
    while start <= n - 9
        invariant
            9 <= n == response@.len(),
            start <= n - 9 + 1,
            forall|i: int| 0 <= i < start ==> #[trigger] response@.subrange(i, i + 9) != running_marker(),
        decreases n - start,
    {
        let mut k: usize = 0;
        let mut matched = true;
        while k < 9
            invariant
                k <= 9,
                start + 9 <= n == response@.len(),
                matched <==> (forall|j: int| 0 <= j < k ==> response@[start + j] == running_marker()[j]),
            decreases 9 - k,
        {
            if response[start + k] != marker_byte(k) {
                matched = false;
                assert(response@[start + k] != running_marker()[k as int]);
                k = 9;
            } else {
                assert(response@[start + k] == running_marker()[k as int]);
                k = k + 1;
            }
        }
        if matched {
            assert(response@.subrange(start as int, start + 9) =~= running_marker());
            return true;
        }
        assert(response@.subrange(start as int, start + 9) != running_marker()) by {
            let w = choose|j: int| 0 <= j < 9 && response@[start + j] != running_marker()[j];
            assert(response@.subrange(start as int, start + 9)[w] != running_marker()[w]);
        }
        start = start + 1;
    }
    assert(!contains_running_marker(response@)) by {
        assert forall|i: int| 0 <= i && i + 9 <= response@.len() implies #[trigger] response@
            .subrange(i, i + 9) != running_marker() by {}
    }
    false
}

} // verus!
