//! Turning raw system counters into the figures the panels show.

use vstd::prelude::*;
use vstd::utf8::{decode_utf8, valid_utf8};

use crate::text::{first_text_line, first_text_line_of, trim, trimmed};

verus! {

/// One mounted disk, as the disk panel lists it.
#[derive(Debug, Clone, Default)]
pub struct DiskInfo {
    pub name: String,
    pub mount: String,
    pub used_bytes: u64,
    pub total_bytes: u64,
}

/// `a - b`, or zero where `b` exceeds `a`.
pub open spec fn sat_sub(a: u64, b: u64) -> u64 {
    if a >= b {
        (a - b) as u64
    } else {
        0
    }
}

impl DiskInfo {
    /// A disk of `total` bytes of which `available` are free; the used space
    /// is what is not available, never below zero.
    pub fn from_space(name: String, mount: String, total: u64, available: u64) -> (d: DiskInfo)
        ensures
            d.name == name,
            d.mount == mount,
            d.total_bytes == total,
            d.used_bytes == sat_sub(total, available),
            d.used_bytes <= d.total_bytes,
    {
        DiskInfo { name, mount, used_bytes: total.saturating_sub(available), total_bytes: total }
    }
}

/// Turns the ever-growing byte totals of the network interfaces into the
/// amount moved since the previous sample.
#[derive(Debug, Clone, Copy, PartialEq, Eq, Structural)]
pub struct NetCounter {
    pub last_rx: u64,
    pub last_tx: u64,
    pub primed: bool,
}

/// The counter after a sample, and the amounts it reports: nothing for the
/// first sample, then the growth of each total since the previous one (zero
/// where a total went down).
pub open spec fn spec_net_step(c: NetCounter, rx: u64, tx: u64) -> (NetCounter, (u64, u64)) {
    let delta = if c.primed {
        (sat_sub(rx, c.last_rx), sat_sub(tx, c.last_tx))
    } else {
        (0u64, 0u64)
    };
    (NetCounter { last_rx: rx, last_tx: tx, primed: true }, delta)
}

impl NetCounter {
    /// A counter that has seen no sample yet.
    pub fn new() -> (c: NetCounter)
        ensures
            c == (NetCounter { last_rx: 0, last_tx: 0, primed: false }),
    {
        NetCounter { last_rx: 0, last_tx: 0, primed: false }
    }

    /// Takes in the current received and transmitted totals and returns the
    /// amounts moved since the previous sample.
    pub fn step(&mut self, total_rx: u64, total_tx: u64) -> (delta: (u64, u64))
        ensures
            (*final(self), delta) == spec_net_step(*old(self), total_rx, total_tx),
    {
        let delta = if self.primed {
            (total_rx.saturating_sub(self.last_rx), total_tx.saturating_sub(self.last_tx))
        } else {
            self.primed = true;
            (0, 0)
        };
        self.last_rx = total_rx;
        self.last_tx = total_tx;
        delta
    }
}

/// Over two samples whose totals only grow, the amounts reported add up to
/// the growth since the first one, which itself reports nothing.
pub proof fn lemma_net_deltas_add_up(c: NetCounter, rx1: u64, tx1: u64, rx2: u64, tx2: u64)
    requires
        !c.primed,
        rx1 <= rx2,
        tx1 <= tx2,
    ensures
        ({
            let (c1, d1) = spec_net_step(c, rx1, tx1);
            let (c2, d2) = spec_net_step(c1, rx2, tx2);
            &&& d1 == (0u64, 0u64)
            &&& d2.0 == rx2 - rx1
            &&& d2.1 == tx2 - tx1
            &&& c2.primed
        }),
{
}

/// The totals of the first and of the second components.
pub open spec fn pair_sums(pairs: Seq<(u64, u64)>) -> (int, int)
    decreases pairs.len(),
{
    if pairs.len() == 0 {
        (0, 0)
    } else {
        let s = pair_sums(pairs.drop_last());
        (s.0 + pairs.last().0, s.1 + pairs.last().1)
    }
}

proof fn lemma_pair_sums_grow(pairs: Seq<(u64, u64)>, i: int)
    requires
        0 <= i <= pairs.len(),
    ensures
        pair_sums(pairs.take(i)).0 <= pair_sums(pairs).0,
        pair_sums(pairs.take(i)).1 <= pair_sums(pairs).1,
    decreases pairs.len() - i,
{
    if i < pairs.len() {
        lemma_pair_sums_grow(pairs, i + 1);
        assert(pairs.take(i + 1).drop_last() =~= pairs.take(i));
    } else {
        assert(pairs.take(i) =~= pairs);
    }
}

/// Adds up pairs of counters component-wise, such as bytes received and
/// transmitted per interface or bytes read and written per process. `None`
/// where a total does not fit in 64 bits.
pub fn sum_pairs(pairs: &[(u64, u64)]) -> (r: Option<(u64, u64)>)
    ensures
        match r {
            Some((a, b)) => a == pair_sums(pairs@).0 && b == pair_sums(pairs@).1,
            None => pair_sums(pairs@).0 > u64::MAX || pair_sums(pairs@).1 > u64::MAX,
        },
{
    let n = pairs.len();
    let mut a: u64 = 0;
    let mut b: u64 = 0;
    let mut i: usize = 0;
    while i < n
        invariant
            n == pairs@.len(),
            i <= n,
            a == pair_sums(pairs@.take(i as int)).0,
            b == pair_sums(pairs@.take(i as int)).1,
        decreases n - i,
    {
        let (x, y) = pairs[i];
        proof {
            assert(pairs@.take(i + 1).drop_last() =~= pairs@.take(i as int));
        }
        if x > u64::MAX - a || y > u64::MAX - b {
            proof {
                lemma_pair_sums_grow(pairs@, i + 1);
            }
            return None;
        }
        a = a + x;
        b = b + y;
        i = i + 1;
    }
    assert(pairs@.take(n as int) =~= pairs@);
    Some((a, b))
}

/// Bytes as whole mebibytes, rounded down.
pub fn bytes_to_mib(bytes: u64) -> (mb: u64)
    ensures
        mb == bytes / 1048576u64,
{
    bytes / 1024 / 1024
}

/// The name shown when no graphics adapter could be found.
pub open spec fn spec_no_gpu() -> Seq<char> {
    "N/A"@
}

/// The graphics adapter name read from the output of the adapter query:
/// the first line that holds more than whitespace, trimmed, or `N/A` where
/// the query failed, its output is not UTF-8, or it holds no such line.
pub open spec fn spec_gpu_name(stdout: Option<Seq<u8>>) -> Seq<char> {
    match stdout {
        None => spec_no_gpu(),
        Some(bytes) => if valid_utf8(bytes) {
            match first_text_line(decode_utf8(bytes)) {
                Some(line) => line,
                None => spec_no_gpu(),
            }
        } else {
            spec_no_gpu()
        },
    }
}

/// Decodes bytes with `String::from_utf8`. Claimed, as its documentation
/// states: a string exactly when the bytes are valid UTF-8, holding the
/// characters they encode.
#[verifier::external_body]
fn utf8_string(bytes: Vec<u8>) -> (r: Option<String>)
    ensures
        r is Some <==> valid_utf8(bytes@),
        r matches Some(s) ==> s@ == decode_utf8(bytes@),
{
    String::from_utf8(bytes).ok()
}

/// The graphics adapter name, from what the adapter query wrote to its
/// standard output (`None` where the query could not be run).
pub fn gpu_name_from_output(stdout: Option<Vec<u8>>) -> (name: String)
    ensures
        name@ == spec_gpu_name(
            match stdout {
                Some(v) => Some(v@),
                None => None,
            },
        ),
{
    let text = match stdout {
        None => None,
        Some(bytes) => utf8_string(bytes),
    };
    let line = match text {
        None => None,
        Some(t) => first_text_line_of(t.as_str()),
    };
    match line {
        Some(l) => l,
        None => String::from_str("N/A"),
    }
}

/// The processor name shown in the header: the first processor's brand,
/// trimmed, or nothing where no processor is listed.
pub fn cpu_brand_text(first_brand: Option<&str>) -> (s: String)
    ensures
        s@ == match first_brand {
            Some(b) => trim(b@),
            None => Seq::<char>::empty(),
        },
{
    match first_brand {
        Some(b) => trimmed(b),
        None => String::new(),
    }
}

} // verus!
