//! Health-aware selection policies of the five outbound group kinds.
//!
//! Each policy is a pure function over one consistent snapshot of the
//! members' health records, taken in declaration order.
use vstd::prelude::*;

use crate::addr::wire_of;
use crate::session::Session;

verus! {

/// One member's health snapshot: the alive flag and the last
/// measured latency in milliseconds, `None` until first probed.
#[derive(Clone, Copy, Debug)]
pub struct MemberHealth {
    /// Did the last probe succeed?
    pub alive: bool,
    /// Last measured latency; `None` for a never-probed member.
    pub latency: Option<u64>,
}

/// A member a URL test may route through: alive and probed at least
/// once.
pub open spec fn eligible(m: MemberHealth) -> bool {
    m.alive && m.latency is Some
}

/// The measured latency of an eligible member.
pub open spec fn lat(m: MemberHealth) -> u64 {
    m.latency.unwrap()
}

/// URL-test selection: the first (by declaration order) alive,
/// already-probed member with the lowest measured latency, or
/// nothing when no member qualifies.
pub fn url_test_select(h: &Vec<MemberHealth>) -> (r: Option<usize>)
    ensures
        match r {
            Some(i) => i < h@.len() && eligible(h@[i as int]) && (forall|j: int|
                0 <= j < h@.len() && eligible(h@[j]) ==> lat(h@[i as int]) <= lat(h@[j])) && (
            forall|j: int| 0 <= j < i ==> !(eligible(h@[j]) && lat(h@[j]) <= lat(h@[i as int]))),
            None => forall|j: int| 0 <= j < h@.len() ==> !eligible(h@[j]),
        },
{
    let mut best: Option<usize> = None;
    let mut i: usize = 0;
    while i < h.len()
        invariant
            i <= h@.len(),
            match best {
                Some(b) => b < i && eligible(h@[b as int]) && (forall|j: int|
                    0 <= j < i && eligible(h@[j]) ==> lat(h@[b as int]) <= lat(h@[j])) && (
                forall|j: int|
                    0 <= j < b ==> !(eligible(h@[j]) && lat(h@[j]) <= lat(h@[b as int]))),
                None => forall|j: int| 0 <= j < i ==> !eligible(h@[j]),
            },
        decreases h@.len() - i,
    {
        let m = h[i];
        if m.alive {
            if let Some(l) = m.latency {
                match best {
                    Some(b) => {
                        let bl = h[b].latency.unwrap();
                        if l < bl {
                            best = Some(i);
                        }
                    }
                    None => {
                        best = Some(i);
                    }
                }
            }
        }
        i += 1;
    }
    best
}

/// Fallback selection: the first alive member in declaration order,
/// or nothing when no member is alive (the group is then
/// unreachable).
pub fn fallback_select(h: &Vec<MemberHealth>) -> (r: Option<usize>)
    ensures
        match r {
            Some(i) => i < h@.len() && h@[i as int].alive && (forall|j: int|
                0 <= j < i ==> !h@[j].alive),
            None => forall|j: int| 0 <= j < h@.len() ==> !h@[j].alive,
        },
{
    let mut i: usize = 0;
    while i < h.len()
        invariant
            i <= h@.len(),
            forall|j: int| 0 <= j < i ==> !h@[j].alive,
        decreases h@.len() - i,
    {
        if h[i].alive {
            return Some(i);
        }
        i += 1;
    }
    None
}

/// How many of the first `n` members are alive.
pub open spec fn alive_count_to(h: Seq<MemberHealth>, n: int) -> int
    decreases n,
{
    if n <= 0 {
        0
    } else {
        alive_count_to(h, n - 1) + if h[n - 1].alive {
            1int
        } else {
            0int
        }
    }
}

/// How many members are alive.
pub open spec fn alive_count(h: Seq<MemberHealth>) -> int {
    alive_count_to(h, h.len() as int)
}

/// Load-balance selection over a stable session key: the
/// `key mod alive-count`-th alive member, for affinity across
/// repeated connections with the same key; with no member alive it
/// degrades to round-robin driven by the caller's counter.
pub fn load_balance_select(h: &Vec<MemberHealth>, key: u64, counter: u64) -> (r: usize)
    requires
        h@.len() > 0,
    ensures
        r < h@.len(),
        alive_count(h@) > 0 ==> h@[r as int].alive && alive_count_to(h@, r as int) == key as int
            % alive_count(h@),
        alive_count(h@) == 0 ==> r as int == counter as int % h@.len() as int,
{
    let mut count: usize = 0;
    let mut i: usize = 0;
    while i < h.len()
        invariant
            i <= h@.len(),
            count == alive_count_to(h@, i as int),
            count <= i,
        decreases h@.len() - i,
    {
        if h[i].alive {
            count += 1;
        }
        i += 1;
    }
    if count == 0 {
        return (counter % (h.len() as u64)) as usize;
    }
    let target: usize = (key % (count as u64)) as usize;
    let mut seen: usize = 0;
    let mut i: usize = 0;
    while i < h.len()
        invariant
            i <= h@.len(),
            seen == alive_count_to(h@, i as int),
            seen <= target,
            target < count,
            count == alive_count(h@),
            target as int == key as int % alive_count(h@),
        decreases h@.len() - i,
    {
        if h[i].alive {
            if seen == target {
                return i;
            }
            seen += 1;
        }
        i += 1;
    }
    proof {
        assert(false);
    }
    0
}

/// Counting alive members never decreases along the list.
proof fn lemma_alive_count_mono(h: Seq<MemberHealth>, i: int, j: int)
    requires
        0 <= i <= j <= h.len(),
    ensures
        alive_count_to(h, i) <= alive_count_to(h, j),
    decreases j,
{
    if i < j {
        lemma_alive_count_mono(h, i, j - 1);
    }
}

/// Affinity: with at least one alive member, the session key alone
/// decides the choice — any two indices meeting the selection
/// contract for the same snapshot and key are the same, so repeated
/// connections with one key stick to one member.
pub proof fn lemma_load_balance_affinity(h: Seq<MemberHealth>, key: u64, r1: int, r2: int)
    requires
        alive_count(h) > 0,
        0 <= r1 < h.len(),
        h[r1].alive,
        alive_count_to(h, r1) == key as int % alive_count(h),
        0 <= r2 < h.len(),
        h[r2].alive,
        alive_count_to(h, r2) == key as int % alive_count(h),
    ensures
        r1 == r2,
{
    if r1 < r2 {
        lemma_alive_count_mono(h, r1 + 1, r2);
        assert(alive_count_to(h, r1 + 1) == alive_count_to(h, r1) + 1);
    }
    if r2 < r1 {
        lemma_alive_count_mono(h, r2 + 1, r1);
        assert(alive_count_to(h, r2 + 1) == alive_count_to(h, r2) + 1);
    }
}

/// FNV-1a over a byte sequence; wrapping 64-bit arithmetic.
pub open spec fn fnv1a(s: Seq<u8>) -> u64
    decreases s.len(),
{
    if s.len() == 0 {
        0xcbf29ce484222325u64
    } else {
        (fnv1a(s.drop_last()) ^ s.last() as u64).wrapping_mul(0x100000001b3u64)
    }
}

/// The stable per-session key that load balancing hashes: FNV-1a of
/// the destination's wire bytes, so repeated connections to one
/// destination stick to one member.
pub fn session_key(sess: &Session) -> (r: u64)
    requires
        sess.destination.wf(),
    ensures
        r == fnv1a(wire_of(sess.destination@)),
{
    let bytes = sess.destination.wire_bytes();
    let ghost w = wire_of(sess.destination@);
    let mut acc: u64 = 0xcbf29ce484222325;
    let mut i: usize = 0;
    while i < bytes.len()
        invariant
            i <= bytes@.len(),
            bytes@ == w,
            acc == fnv1a(w.take(i as int)),
        decreases bytes@.len() - i,
    {
        proof {
            assert(w.take(i + 1).drop_last() =~= w.take(i as int));
            assert(w.take(i + 1).last() == w[i as int]);
        }
        acc = (acc ^ bytes[i] as u64).wrapping_mul(0x100000001b3);
        i += 1;
    }
    proof {
        assert(w.take(w.len() as int) =~= w);
    }
    acc
}

/// A Select group: an ordered member list with one manually pinned
/// current member, defaulting to the first declared; it changes only
/// through an explicit control action, never automatically.
pub struct Selector {
    /// Member names, in declaration order.
    pub members: Vec<String>,
    /// Index of the pinned member.
    pub current: usize,
}

impl Selector {
    /// Well-formedness: nonempty, and the pin points at a member.
    pub open spec fn wf(&self) -> bool {
        self.members@.len() > 0 && self.current < self.members@.len()
    }

    /// A Select group pinned to its first declared member.
    pub fn new(members: Vec<String>) -> (r: Self)
        requires
            members@.len() > 0,
        ensures
            r.wf(),
            r.members == members,
            r.current == 0,
    {
        Selector { members, current: 0 }
    }

    /// Pins the current member; out-of-range indices are refused and
    /// change nothing.
    pub fn set_current(&mut self, i: usize) -> (r: bool)
        requires
            old(self).wf(),
        ensures
            final(self).wf(),
            final(self).members == old(self).members,
            r == (i < old(self).members@.len()),
            r ==> final(self).current == i,
            !r ==> final(self).current == old(self).current,
    {
        if i < self.members.len() {
            self.current = i;
            true
        } else {
            false
        }
    }

    /// The pinned member's name.
    pub fn current_name(&self) -> (r: &String)
        requires
            self.wf(),
        ensures
            r == self.members@[self.current as int],
    {
        &self.members[self.current]
    }
}

} // verus!
