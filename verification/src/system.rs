//! The whole-number parts of the server's status report: uptime, memory
//! and disk amounts, network counters.
//!
//! Reading the counters from the system, and the percentages (floating
//! point), are the application's part.

use vstd::prelude::*;

use crate::text::{chars_of, is_whitespace, owned, parse_u64, parsed_u64, whitespace};

verus! {

/// Network traffic counters.
pub struct NetworkStats {
    pub upload_bytes: u64,
    pub download_bytes: u64,
}

/// The network counters: traffic is not measured, so both are zero.
pub fn get_network_stats() -> (n: NetworkStats)
    ensures
        n.upload_bytes == 0,
        n.download_bytes == 0,
{
    NetworkStats { upload_bytes: 0, download_bytes: 0 }
}

/// `k` starts the first word of `s`: everything before it is white space,
/// and it is not.
pub open spec fn first_word_start(s: Seq<char>, k: int) -> bool {
    0 <= k < s.len() && !whitespace(s[k]) && forall|j: int| 0 <= j < k ==> whitespace(#[trigger] s[j])
}

/// `e` ends the word starting at `k`: nothing from `k` up to it is white
/// space, and it is the end or white space.
pub open spec fn word_end(s: Seq<char>, k: int, e: int) -> bool {
    k < e <= s.len() && (forall|j: int| k <= j < e ==> !whitespace(#[trigger] s[j])) && (e == s.len()
        || whitespace(s[e]))
}

/// The uptime read from the first word of `/proc/uptime`, as
/// `str::parse::<u64>` reads it; 0 when there is no word or it does not
/// parse (as for a fractional number of seconds).
pub open spec fn uptime_of(text: Seq<char>) -> u64 {
    if exists|k: int, e: int| first_word_start(text, k) && word_end(text, k, e) {
        let (k, e) = choose|k: int, e: int| first_word_start(text, k) && word_end(text, k, e);
        match parsed_u64(text.subrange(k, e)) {
            Some(v) => v,
            None => 0,
        }
    } else {
        0
    }
}

/// The uptime in seconds given the text of `/proc/uptime`.
pub fn uptime_from_text(text: &str) -> (u: u64)
    ensures
        u == uptime_of(text@),
{
    let v = chars_of(text);
    let mut k: usize = 0;
    while k < v.len() && is_whitespace(v[k])
        invariant
            k <= v.len(),
            v@ == text@,
            forall|j: int| 0 <= j < k ==> whitespace(#[trigger] v@[j]),
        decreases v.len() - k,
    {
        k = k + 1;
    }
    if k == v.len() {
        assert forall|k2: int, e: int| !(first_word_start(text@, k2) && word_end(text@, k2, e)) by {
            if first_word_start(text@, k2) {
                assert(whitespace(v@[k2]));
            }
        }
        return 0;
    }
    let mut e: usize = k + 1;
    while e < v.len() && !is_whitespace(v[e])
        invariant
            k < e <= v.len(),
            v@ == text@,
            first_word_start(text@, k as int),
            forall|j: int| k <= j < e ==> !whitespace(#[trigger] v@[j]),
        decreases v.len() - e,
    {
        e = e + 1;
    }
    assert(word_end(text@, k as int, e as int));
    let ghost pair = choose|k2: int, e2: int| first_word_start(text@, k2) && word_end(text@, k2, e2);
    assert(pair.0 == k) by {
        if pair.0 < k {
            assert(whitespace(v@[pair.0]));
        } else if pair.0 > k {
            assert(whitespace(v@[k as int]));
        }
    }
    assert(pair.1 == e) by {
        if pair.1 < e {
            assert(whitespace(v@[pair.1]));
        } else if pair.1 > e {
            assert(whitespace(v@[e as int]));
        }
    }
    match parse_u64(&v, k, e) {
        Some(n) => n,
        None => 0,
    }
}

/// The server's status: `online` once it has been up for a second.
pub fn status_text(uptime_seconds: u64) -> (s: String)
    ensures
        uptime_seconds > 0 ==> s@ == "online"@,
        uptime_seconds == 0 ==> s@ == "offline"@,
{
    if uptime_seconds > 0 {
        owned("online")
    } else {
        owned("offline")
    }
}

/// Memory amounts given in bytes, in whole KiB: total, used, free.
pub fn memory_kb(total: u64, used: u64, free: u64) -> (r: (u64, u64, u64))
    ensures
        r == (total / 1024, used / 1024, free / 1024),
{
    (total / 1024, used / 1024, free / 1024)
}

/// Disk amounts in whole GiB from the total and available bytes: total,
/// used (never below zero), free.
pub fn disk_gb(total: u64, free: u64) -> (r: (u64, u64, u64))
    ensures
        r.0 == total / 1073741824,
        r.1 == (if total >= free { (total - free) as u64 } else { 0u64 }) / 1073741824,
        r.2 == free / 1073741824,
{
    let used = total.saturating_sub(free);
    (total / 1073741824, used / 1073741824, free / 1073741824)
}

} // verus!
