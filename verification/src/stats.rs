//! The resource-usage probe's arithmetic: per-container byte counters summed
//! into the figures the admin plane reports. The engine's stats call runs
//! outside and hands its counters in as plain values; sums saturate rather
//! than wrap.

use vstd::prelude::*;
use crate::text;

verus! {

/// One block-I/O counter: the operation name and its byte count.
pub struct BlkioEntry {
    pub op: String,
    pub value: u64,
}

/// Addition capped at the top of `u64`.
pub open spec fn spec_sat_add(a: u64, b: u64) -> u64 {
    if a + b > u64::MAX {
        u64::MAX
    } else {
        (a + b) as u64
    }
}

fn sat_add(a: u64, b: u64) -> (r: u64)
    ensures
        r == spec_sat_add(a, b),
{
    if a > u64::MAX - b {
        u64::MAX
    } else {
        a + b
    }
}

/// The received bytes of interface counters `s[..i]`, saturating.
pub open spec fn spec_rx_sum(s: Seq<(u64, u64)>, i: int) -> u64
    decreases i,
{
    if i <= 0 {
        0u64
    } else {
        spec_sat_add(spec_rx_sum(s, i - 1), s[i - 1].0)
    }
}

/// The transmitted bytes of interface counters `s[..i]`, saturating.
pub open spec fn spec_tx_sum(s: Seq<(u64, u64)>, i: int) -> u64
    decreases i,
{
    if i <= 0 {
        0u64
    } else {
        spec_sat_add(spec_tx_sum(s, i - 1), s[i - 1].1)
    }
}

/// Network totals for a container: every interface's receive and transmit
/// counters summed.
pub fn sum_network_bytes(interfaces: &Vec<(u64, u64)>) -> (r: (u64, u64))
    ensures
        r.0 == spec_rx_sum(interfaces@, interfaces@.len() as int),
        r.1 == spec_tx_sum(interfaces@, interfaces@.len() as int),
{
    let n = interfaces.len();
    let mut rx: u64 = 0;
    let mut tx: u64 = 0;
    let mut i: usize = 0;
    while i < n
        invariant
            n == interfaces@.len(),
            0 <= i <= n,
            rx == spec_rx_sum(interfaces@, i as int),
            tx == spec_tx_sum(interfaces@, i as int),
        decreases n - i,
    {
        rx = sat_add(rx, interfaces[i].0);
        tx = sat_add(tx, interfaces[i].1);
        i += 1;
    }
    (rx, tx)
}

/// The bytes of entries `s[..i]` whose operation is `op`, saturating.
pub open spec fn spec_op_sum(s: Seq<BlkioEntry>, op: Seq<char>, i: int) -> u64
    decreases i,
{
    if i <= 0 {
        0u64
    } else if s[i - 1].op@ == op {
        spec_sat_add(spec_op_sum(s, op, i - 1), s[i - 1].value)
    } else {
        spec_op_sum(s, op, i - 1)
    }
}

/// Disk totals for a container: the block-I/O byte counters summed by
/// operation, reads and writes.
pub fn sum_blkio_bytes(entries: &Vec<BlkioEntry>) -> (r: (u64, u64))
    ensures
        r.0 == spec_op_sum(entries@, "read"@, entries@.len() as int),
        r.1 == spec_op_sum(entries@, "write"@, entries@.len() as int),
{
    let n = entries.len();
    let mut read: u64 = 0;
    let mut write_total: u64 = 0;
    let mut i: usize = 0;
    while i < n
        invariant
            n == entries@.len(),
            0 <= i <= n,
            read == spec_op_sum(entries@, "read"@, i as int),
            write_total == spec_op_sum(entries@, "write"@, i as int),
        decreases n - i,
    {
        proof {
            assert("read"@ != "write"@) by {
                reveal_strlit("read");
                reveal_strlit("write");
                assert("read"@.len() == 4);
                assert("write"@.len() == 5);
            }
        }
        let e = &entries[i];
        if text::str_eq(e.op.as_str(), "read") {
            read = sat_add(read, e.value);
        } else if text::str_eq(e.op.as_str(), "write") {
            write_total = sat_add(write_total, e.value);
        }
        i += 1;
    }
    (read, write_total)
}

} // verus!
