//! How a worker identifies itself.
use vstd::prelude::*;

use crate::text::{self, decimal_string};

verus! {

/// `Uuid::new_v4` makes a random identifier, which `simple` writes as 32 hex
/// digits in lower case. Which digits is left to chance.
#[verifier::external_body]
fn random_hex() -> (s: String)
    ensures
        text::is_lower_hex_field(s@, 32),
{
    uuid::Uuid::new_v4().simple().to_string()
}

/// Whether a text can be a random identifier that was made here.
pub closed spec fn is_drawn(rand: Seq<char>) -> bool {
    exists|s: String| #[trigger] call_ensures(random_hex, (), s) && s@ == rand
}

/// The worker id for a machine, a process and a random number in hex: its first
/// eight digits are kept.
pub open spec fn worker_id_spec(host: Seq<char>, pid: u32, rand: Seq<char>) -> Seq<char> {
    host + "-"@ + text::decimal(pid as nat) + "-"@ + rand.take(8)
}

/// Whether `id` is a worker id for a machine and a process, with eight random
/// hex digits at its end.
pub open spec fn is_worker_id(id: Seq<char>, host: Seq<char>, pid: u32) -> bool {
    exists|rand: Seq<char>|
        is_drawn(rand) && text::is_lower_hex_field(rand, 32) && id == #[trigger] worker_id_spec(
            host,
            pid,
            rand,
        )
}

/// The worker id for a machine, a process and a random number in hex.
pub fn worker_id_of(host: &str, pid: u32, rand: &str) -> (id: String)
    requires
        text::is_lower_hex_field(rand@, 32),
    ensures
        id@ == worker_id_spec(host@, pid, rand@),
{
    let mut id = host.to_owned().concat("-").concat(decimal_string(pid as u64).as_str()).concat(
        "-",
    );
    let ghost prefix = id@;
    proof {
        assert forall|i: int| 0 <= i < rand@.len() implies (#[trigger] rand@[i] as u32) < 128 by {}
    }
    assert(rand.is_ascii());
    id.append(rand.substring_ascii(0, 8));
    assert(rand@.subrange(0, 8) =~= rand@.take(8));
    id
}

/// A worker id for a machine and a process. Its last eight digits are random.
pub fn default_worker_id(host: &str, pid: u32) -> (id: String)
    ensures
        is_worker_id(id@, host@, pid),
        id@.len() > 0,
{
    let rand = random_hex();
    assert(is_drawn(rand@));
    proof {
        reveal_strlit("-");
    }
    worker_id_of(host, pid, rand.as_str())
}

/// The machine's name: what the environment says, first under `HOSTNAME` and
/// else under `COMPUTERNAME`, and what the operating system says where that is
/// unset or empty.
pub fn choose_hostname(
    hostname_var: Option<String>,
    computername_var: Option<String>,
    os_hostname: String,
) -> (r: String)
    ensures
        r == match hostname_var {
            Some(h) => if h@.len() > 0 {
                h
            } else {
                os_hostname
            },
            None => match computername_var {
                Some(c) => if c@.len() > 0 {
                    c
                } else {
                    os_hostname
                },
                None => os_hostname,
            },
        },
{
    let named = match hostname_var {
        Some(h) => Some(h),
        None => computername_var,
    };
    match named {
        Some(name) => if name.as_str().is_empty() {
            os_hostname
        } else {
            name
        },
        None => os_hostname,
    }
}

} // verus!
