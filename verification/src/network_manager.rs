//! How the NetworkManager backend arranges what it reads: the order of the
//! active connections, one access point per network name, and the known
//! connections among the visible access points.

use vstd::prelude::*;
use crate::network::{AccessPoint, ActiveConnectionInfo, KnownConnection, Vpn, connection_name};
use crate::text::str_eq;

verus! {

/// Airplane mode is on when Bluetooth is soft-blocked and Wi-Fi is off.
pub fn airplane_mode(bluetooth_soft_blocked: bool, wifi_enabled: bool) -> (b: bool)
    ensures
        b == (bluetooth_soft_blocked && !wifi_enabled),
{
    bluetooth_soft_blocked && !wifi_enabled
}

/// `x` placed into `s` after every element that `le` puts at or before it,
/// scanning from the end.
pub open spec fn insert_sorted<T>(s: Seq<T>, x: T, le: spec_fn(T, T) -> bool) -> Seq<T>
    decreases s.len(),
{
    if s.len() == 0 {
        seq![x]
    } else if le(s.last(), x) {
        s.push(x)
    } else {
        insert_sorted(s.drop_last(), x, le).push(s.last())
    }
}

/// The stable sort of `s` by `le`: elements that `le` does not order keep
/// their order.
pub open spec fn stable_sort<T>(s: Seq<T>, le: spec_fn(T, T) -> bool) -> Seq<T>
    decreases s.len(),
{
    if s.len() == 0 {
        s
    } else {
        insert_sorted(stable_sort(s.drop_last(), le), s.last(), le)
    }
}

/// Whether `le` orders `s`.
pub open spec fn sorted_by<T>(s: Seq<T>, le: spec_fn(T, T) -> bool) -> bool {
    forall|i: int, j: int| 0 <= i < j < s.len() ==> le(s[i], s[j])
}

/// Whether `le` is a total preorder.
pub open spec fn total_preorder<T>(le: spec_fn(T, T) -> bool) -> bool {
    &&& forall|a: T, b: T| #[trigger] le(a, b) || le(b, a)
    &&& forall|a: T, b: T, c: T| #[trigger] le(a, b) && #[trigger] le(b, c) ==> le(a, c)
}

proof fn lemma_insert_at<T>(s: Seq<T>, x: T, le: spec_fn(T, T) -> bool, q: int)
    requires
        0 <= q <= s.len(),
        forall|j: int| q <= j < s.len() ==> !le(#[trigger] s[j], x),
        q > 0 ==> le(s[q - 1], x),
    ensures
        insert_sorted(s, x, le) == s.insert(q, x),
    decreases s.len(),
{
    if s.len() == 0 {
        assert(s.insert(q, x) =~= seq![x]);
    } else if q == s.len() {
        assert(s.insert(q, x) =~= s.push(x));
    } else {
        assert(!le(s[s.len() - 1], x));
        let t = s.drop_last();
        assert forall|j: int| q <= j < t.len() implies !le(#[trigger] t[j], x) by {
            assert(t[j] == s[j]);
        }
        if q > 0 {
            assert(t[q - 1] == s[q - 1]);
        }
        lemma_insert_at(t, x, le, q);
        assert(t.insert(q, x).push(s.last()) =~= s.insert(q, x));
    }
}

proof fn lemma_insert_position<T>(s: Seq<T>, x: T, le: spec_fn(T, T) -> bool) -> (q: int)
    ensures
        0 <= q <= s.len(),
        forall|j: int| q <= j < s.len() ==> !le(#[trigger] s[j], x),
        q > 0 ==> le(s[q - 1], x),
        insert_sorted(s, x, le) == s.insert(q, x),
    decreases s.len(),
{
    if s.len() == 0 {
        lemma_insert_at(s, x, le, 0);
        0
    } else if le(s.last(), x) {
        lemma_insert_at(s, x, le, s.len() as int);
        s.len() as int
    } else {
        let t = s.drop_last();
        let q = lemma_insert_position(t, x, le);
        assert forall|j: int| q <= j < s.len() implies !le(#[trigger] s[j], x) by {
            if j < t.len() {
                assert(t[j] == s[j]);
            }
        }
        if q > 0 {
            assert(t[q - 1] == s[q - 1]);
        }
        lemma_insert_at(s, x, le, q);
        q
    }
}

/// A stable sort by a total preorder orders its result and keeps exactly
/// the same elements.
pub proof fn lemma_stable_sort_sorted<T>(s: Seq<T>, le: spec_fn(T, T) -> bool)
    requires
        total_preorder(le),
    ensures
        sorted_by(stable_sort(s, le), le),
        stable_sort(s, le).len() == s.len(),
        stable_sort(s, le).to_multiset() == s.to_multiset(),
    decreases s.len(),
{
    if s.len() > 0 {
        let t = stable_sort(s.drop_last(), le);
        lemma_stable_sort_sorted(s.drop_last(), le);
        let x = s.last();
        let q = lemma_insert_position(t, x, le);
        let r = t.insert(q, x);
        vstd::seq_lib::to_multiset_insert(t, q, x);
        vstd::seq_lib::to_multiset_build(s.drop_last(), x);
        assert(s.drop_last().push(x) =~= s);
        assert forall|i: int, j: int| 0 <= i < j < r.len() implies le(r[i], r[j]) by {
            if j < q {
                assert(r[i] == t[i] && r[j] == t[j]);
            } else if j == q {
                assert(r[j] == x && r[i] == t[i]);
                if i < q - 1 {
                    assert(le(t[i], t[q - 1]));
                    assert(le(t[i], t[q - 1]) && le(t[q - 1], x));
                }
            } else if i == q {
                assert(r[i] == x && r[j] == t[j - 1]);
                assert(!le(t[j - 1], x));
                assert(le(t[j - 1], x) || le(x, t[j - 1]));
            } else if i < q {
                assert(r[i] == t[i] && r[j] == t[j - 1]);
            } else {
                assert(r[i] == t[i - 1] && r[j] == t[j - 1]);
            }
        }
    }
}

/// The rank of a kind of connection: VPNs first, then wired, then Wi-Fi.
pub open spec fn connection_rank(c: ActiveConnectionInfo) -> int {
    match c {
        ActiveConnectionInfo::Vpn { .. } => 0,
        ActiveConnectionInfo::Wired { .. } => 1,
        ActiveConnectionInfo::WiFi { .. } => 2,
    }
}

/// Lexicographic order of character sequences from position `i` on.
pub open spec fn chars_le_from(a: Seq<char>, b: Seq<char>, i: int) -> bool
    decreases a.len() - i,
{
    if i >= a.len() {
        true
    } else if i >= b.len() {
        false
    } else if (a[i] as u32) < (b[i] as u32) {
        true
    } else if (a[i] as u32) > (b[i] as u32) {
        false
    } else {
        chars_le_from(a, b, i + 1)
    }
}

/// Lexicographic order of character sequences (the order of `String`).
pub open spec fn chars_le(a: Seq<char>, b: Seq<char>) -> bool {
    chars_le_from(a, b, 0)
}

/// Active connections ordered by kind, then by name.
pub open spec fn connection_le(a: ActiveConnectionInfo, b: ActiveConnectionInfo) -> bool {
    connection_rank(a) < connection_rank(b) || (connection_rank(a) == connection_rank(b)
        && chars_le(connection_name(a)@, connection_name(b)@))
}

/// [`connection_le`] as a value.
pub open spec fn connection_order() -> spec_fn(ActiveConnectionInfo, ActiveConnectionInfo) -> bool {
    |a: ActiveConnectionInfo, b: ActiveConnectionInfo| connection_le(a, b)
}

/// Whether `a` comes at or before `b` in lexicographic order.
fn str_le(a: &str, b: &str) -> (r: bool)
    ensures
        r == chars_le(a@, b@),
{
    let n = a.unicode_len();
    let m = b.unicode_len();
    let mut i: usize = 0;
    while i < n && i < m
        invariant
            n == a@.len(),
            m == b@.len(),
            i <= n,
            i <= m,
            chars_le(a@, b@) == chars_le_from(a@, b@, i as int),
        decreases n - i,
    {
        let ca = a.get_char(i);
        let cb = b.get_char(i);
        if (ca as u32) < (cb as u32) {
            return true;
        }
        if (ca as u32) > (cb as u32) {
            return false;
        }
        i = i + 1;
    }
    n <= m
}

fn connection_rank_of(c: &ActiveConnectionInfo) -> (r: u8)
    ensures
        r == connection_rank(*c),
{
    match c {
        ActiveConnectionInfo::Vpn { .. } => 0,
        ActiveConnectionInfo::Wired { .. } => 1,
        ActiveConnectionInfo::WiFi { .. } => 2,
    }
}

fn connection_le_exec(a: &ActiveConnectionInfo, b: &ActiveConnectionInfo) -> (r: bool)
    ensures
        r == connection_le(*a, *b),
{
    let ra = connection_rank_of(a);
    let rb = connection_rank_of(b);
    if ra < rb {
        return true;
    }
    if ra > rb {
        return false;
    }
    let na = a.name();
    let nb = b.name();
    str_le(na.as_str(), nb.as_str())
}

/// The active connections in the order the menu lists them: VPNs, then
/// wired, then Wi-Fi, each by name; connections that compare equal keep
/// their order.
pub fn sort_active_connections(connections: Vec<ActiveConnectionInfo>) -> (r: Vec<
    ActiveConnectionInfo,
>)
    ensures
        r@ == stable_sort(connections@, connection_order()),
{
    let ghost all = connections@;
    let ghost le = connection_order();
    let n = connections.len();
    let mut rest = connections;
    let mut out: Vec<ActiveConnectionInfo> = Vec::new();
    let mut i: usize = 0;
    while i < n
        invariant
            n == all.len(),
            i <= n,
            le == connection_order(),
            rest@ == all.subrange(i as int, n as int),
            out@ == stable_sort(all.take(i as int), le),
        decreases n - i,
    {
        let x = rest.remove(0);
        proof {
            assert(all.take(i + 1).drop_last() =~= all.take(i as int));
            assert(all.take(i + 1).last() == all[i as int]);
        }
        let mut p = out.len();
        while p > 0 && !connection_le_exec(&out[p - 1], &x)
            invariant
                p <= out@.len(),
                le == connection_order(),
                forall|j: int| p <= j < out@.len() ==> !le(#[trigger] out@[j], x),
            decreases p,
        {
            p = p - 1;
        }
        proof {
            if p > 0 {
                assert(le(out@[p - 1], x));
            }
            lemma_insert_at(out@, x, le, p as int);
        }
        out.insert(p, x);
        i = i + 1;
        proof {
            assert(rest@ =~= all.subrange(i as int, n as int));
        }
    }
    proof {
        assert(all.take(n as int) =~= all);
    }
    out
}

/// Access points ordered by signal strength, strongest first.
pub open spec fn strength_le(a: AccessPoint, b: AccessPoint) -> bool {
    a.strength >= b.strength
}

/// [`strength_le`] as a value.
pub open spec fn strength_order() -> spec_fn(AccessPoint, AccessPoint) -> bool {
    |a: AccessPoint, b: AccessPoint| strength_le(a, b)
}

/// The access points, strongest first; equally strong ones keep their order.
pub fn sort_by_strength(aps: Vec<AccessPoint>) -> (r: Vec<AccessPoint>)
    ensures
        r@ == stable_sort(aps@, strength_order()),
{
    let ghost all = aps@;
    let ghost le = strength_order();
    let n = aps.len();
    let mut rest = aps;
    let mut out: Vec<AccessPoint> = Vec::new();
    let mut i: usize = 0;
    while i < n
        invariant
            n == all.len(),
            i <= n,
            le == strength_order(),
            rest@ == all.subrange(i as int, n as int),
            out@ == stable_sort(all.take(i as int), le),
        decreases n - i,
    {
        let x = rest.remove(0);
        proof {
            assert(all.take(i + 1).drop_last() =~= all.take(i as int));
            assert(all.take(i + 1).last() == all[i as int]);
        }
        let mut p = out.len();
        while p > 0 && out[p - 1].strength < x.strength
            invariant
                p <= out@.len(),
                le == strength_order(),
                forall|j: int| p <= j < out@.len() ==> !le(#[trigger] out@[j], x),
            decreases p,
        {
            p = p - 1;
        }
        proof {
            if p > 0 {
                assert(le(out@[p - 1], x));
            }
            lemma_insert_at(out@, x, le, p as int);
        }
        out.insert(p, x);
        i = i + 1;
        proof {
            assert(rest@ =~= all.subrange(i as int, n as int));
        }
    }
    proof {
        assert(all.take(n as int) =~= all);
    }
    out
}

/// Whether some access point of `s` has the network name `ssid`.
pub open spec fn has_ssid(s: Seq<AccessPoint>, ssid: Seq<char>) -> bool {
    exists|i: int| 0 <= i < s.len() && (#[trigger] s[i]).ssid@ == ssid
}

/// Whether no two access points of `s` share a network name.
pub open spec fn ssids_unique(s: Seq<AccessPoint>) -> bool {
    forall|i: int, j: int|
        0 <= i < s.len() && 0 <= j < s.len() && i != j ==> (#[trigger] s[i]).ssid@ != (
        #[trigger] s[j]).ssid@
}

/// One access point per network name: for each name, in the order names
/// first appear, the last of its strongest access points.
pub open spec fn strongest_by_ssid(s: Seq<AccessPoint>) -> Seq<AccessPoint>
    decreases s.len(),
{
    if s.len() == 0 {
        s
    } else {
        let d = strongest_by_ssid(s.drop_last());
        let x = s.last();
        if has_ssid(d, x.ssid@) {
            let i = choose|i: int| 0 <= i < d.len() && (#[trigger] d[i]).ssid@ == x.ssid@;
            if d[i].strength > x.strength {
                d
            } else {
                d.update(i, x)
            }
        } else {
            d.push(x)
        }
    }
}

proof fn lemma_strongest_unique(s: Seq<AccessPoint>)
    ensures
        ssids_unique(strongest_by_ssid(s)),
    decreases s.len(),
{
    if s.len() > 0 {
        let t = s.drop_last();
        lemma_strongest_unique(t);
        let d = strongest_by_ssid(t);
        let x = s.last();
        let r = strongest_by_ssid(s);
        if !has_ssid(d, x.ssid@) {
            assert forall|a: int, b: int|
                0 <= a < r.len() && 0 <= b < r.len() && a != b implies (#[trigger] r[a]).ssid@
                != (#[trigger] r[b]).ssid@ by {
                if a < d.len() && b < d.len() {
                    assert(r[a] == d[a] && r[b] == d[b]);
                } else if a < d.len() {
                    assert(r[a] == d[a]);
                } else {
                    assert(r[b] == d[b]);
                }
            }
        }
    }
}

proof fn lemma_strongest_dominates(s: Seq<AccessPoint>)
    ensures
        forall|k: int|
            0 <= k < s.len() ==> exists|i: int|
                0 <= i < strongest_by_ssid(s).len() && (#[trigger] strongest_by_ssid(s)[i]).ssid@
                    == (#[trigger] s[k]).ssid@ && strongest_by_ssid(s)[i].strength
                    >= s[k].strength,
    decreases s.len(),
{
    if s.len() > 0 {
        let t = s.drop_last();
        lemma_strongest_dominates(t);
        let d = strongest_by_ssid(t);
        let x = s.last();
        let r = strongest_by_ssid(s);
        if has_ssid(d, x.ssid@) {
            let i = choose|i: int| 0 <= i < d.len() && (#[trigger] d[i]).ssid@ == x.ssid@;
            assert forall|k: int| 0 <= k < s.len() implies exists|m: int|
                0 <= m < r.len() && (#[trigger] r[m]).ssid@ == (#[trigger] s[k]).ssid@
                    && r[m].strength >= s[k].strength by {
                if k == s.len() - 1 {
                    assert(r[i].ssid@ == s[k].ssid@);
                } else {
                    assert(s[k] == t[k]);
                    let m = choose|m: int|
                        0 <= m < d.len() && (#[trigger] d[m]).ssid@ == (#[trigger] t[k]).ssid@
                            && d[m].strength >= t[k].strength;
                    if m == i && d[i].strength <= x.strength {
                        assert(r[m] == x);
                    } else {
                        assert(r[m] == d[m]);
                    }
                }
            }
        } else {
            assert forall|k: int| 0 <= k < s.len() implies exists|m: int|
                0 <= m < r.len() && (#[trigger] r[m]).ssid@ == (#[trigger] s[k]).ssid@
                    && r[m].strength >= s[k].strength by {
                if k == s.len() - 1 {
                    assert(r[d.len() as int] == x);
                } else {
                    assert(s[k] == t[k]);
                    let m = choose|m: int|
                        0 <= m < d.len() && (#[trigger] d[m]).ssid@ == (#[trigger] t[k]).ssid@
                            && d[m].strength >= t[k].strength;
                    assert(r[m] == d[m]);
                }
            }
        }
    }
}

/// One access point per network name keeps the names unique, and every
/// name seen is kept with at least the strength of each access point that
/// carries it.
pub proof fn lemma_strongest_by_ssid(s: Seq<AccessPoint>)
    ensures
        ssids_unique(strongest_by_ssid(s)),
        forall|k: int|
            0 <= k < s.len() ==> exists|i: int|
                0 <= i < strongest_by_ssid(s).len() && (#[trigger] strongest_by_ssid(s)[i]).ssid@
                    == (#[trigger] s[k]).ssid@ && strongest_by_ssid(s)[i].strength
                    >= s[k].strength,
{
    lemma_strongest_unique(s);
    lemma_strongest_dominates(s);
}

proof fn lemma_unique_index(d: Seq<AccessPoint>, ssid: Seq<char>, k: int)
    requires
        ssids_unique(d),
        0 <= k < d.len(),
        d[k].ssid@ == ssid,
    ensures
        has_ssid(d, ssid),
        (choose|c: int| 0 <= c < d.len() && (#[trigger] d[c]).ssid@ == ssid) == k,
{
    let c = choose|c: int| 0 <= c < d.len() && (#[trigger] d[c]).ssid@ == ssid;
    assert(d[k].ssid@ == ssid);
    if c != k {
        assert(d[c].ssid@ != d[k].ssid@);
    }
}

/// The position of the access point named `ssid`.
fn find_ssid(aps: &Vec<AccessPoint>, ssid: &str) -> (r: Option<usize>)
    ensures
        r matches Some(i) ==> i < aps@.len() && aps@[i as int].ssid@ == ssid@,
        r is None ==> !has_ssid(aps@, ssid@),
{
    let mut i: usize = 0;
    while i < aps.len()
        invariant
            i <= aps@.len(),
            forall|j: int| 0 <= j < i ==> (#[trigger] aps@[j]).ssid@ != ssid@,
        decreases aps@.len() - i,
    {
        if str_eq(aps[i].ssid.as_str(), ssid) {
            return Some(i);
        }
        i = i + 1;
    }
    None
}

/// One access point per network name (see [`strongest_by_ssid`]), strongest
/// first.
pub fn strongest_per_ssid(aps: Vec<AccessPoint>) -> (r: Vec<AccessPoint>)
    ensures
        r@ == stable_sort(strongest_by_ssid(aps@), strength_order()),
{
    let ghost all = aps@;
    let n = aps.len();
    let mut rest = aps;
    let mut kept: Vec<AccessPoint> = Vec::new();
    let mut i: usize = 0;
    while i < n
        invariant
            n == all.len(),
            i <= n,
            rest@ == all.subrange(i as int, n as int),
            kept@ == strongest_by_ssid(all.take(i as int)),
        decreases n - i,
    {
        let x = rest.remove(0);
        proof {
            assert(all.take(i + 1).drop_last() =~= all.take(i as int));
            assert(all.take(i + 1).last() == all[i as int]);
            lemma_strongest_unique(all.take(i as int));
        }
        match find_ssid(&kept, x.ssid.as_str()) {
            Some(k) => {
                proof {
                    lemma_unique_index(kept@, x.ssid@, k as int);
                }
                if kept[k].strength <= x.strength {
                    kept.set(k, x);
                }
            },
            None => {
                kept.push(x);
            },
        }
        i = i + 1;
        proof {
            assert(rest@ =~= all.subrange(i as int, n as int));
        }
    }
    proof {
        assert(all.take(n as int) =~= all);
    }
    sort_by_strength(kept)
}

/// Whether an access point's network name is among `ssids`.
pub open spec fn is_known_ssid(ap: AccessPoint, ssids: Seq<String>) -> bool {
    exists|i: int| 0 <= i < ssids.len() && (#[trigger] ssids[i])@ == ap.ssid@
}

/// The access points whose network is known, in order.
pub open spec fn known_access_points(aps: Seq<AccessPoint>, ssids: Seq<String>) -> Seq<
    AccessPoint,
>
    decreases aps.len(),
{
    if aps.len() == 0 {
        aps
    } else if is_known_ssid(aps.last(), ssids) {
        known_access_points(aps.drop_last(), ssids).push(aps.last())
    } else {
        known_access_points(aps.drop_last(), ssids)
    }
}

/// Whether a network name is among `ssids`.
fn ssid_known(ssid: &str, ssids: &Vec<String>) -> (b: bool)
    ensures
        b == exists|i: int| 0 <= i < ssids@.len() && (#[trigger] ssids@[i])@ == ssid@,
{
    let mut i: usize = 0;
    while i < ssids.len()
        invariant
            i <= ssids@.len(),
            forall|j: int| 0 <= j < i ==> (#[trigger] ssids@[j])@ != ssid@,
        decreases ssids@.len() - i,
    {
        if str_eq(ssids[i].as_str(), ssid) {
            return true;
        }
        i = i + 1;
    }
    false
}

/// The known connections: the visible access points whose network name has
/// a saved connection, in order, then the saved VPNs.
pub fn known_connections(aps: &Vec<AccessPoint>, known_ssids: &Vec<String>, known_vpns: Vec<
    Vpn,
>) -> (r: Vec<KnownConnection>)
    ensures
        r@.len() == known_access_points(aps@, known_ssids@).len() + known_vpns@.len(),
        forall|i: int|
            0 <= i < known_access_points(aps@, known_ssids@).len() ==> r@[i]
                == KnownConnection::AccessPoint(known_access_points(aps@, known_ssids@)[i]),
        forall|i: int|
            0 <= i < known_vpns@.len() ==> r@[known_access_points(aps@, known_ssids@).len() + i]
                == KnownConnection::Vpn(known_vpns@[i]),
{
    let mut out: Vec<KnownConnection> = Vec::new();
    let mut i: usize = 0;
    while i < aps.len()
        invariant
            i <= aps@.len(),
            out@.len() == known_access_points(aps@.take(i as int), known_ssids@).len(),
            forall|j: int|
                0 <= j < out@.len() ==> out@[j] == KnownConnection::AccessPoint(
                    known_access_points(aps@.take(i as int), known_ssids@)[j],
                ),
        decreases aps@.len() - i,
    {
        proof {
            assert(aps@.take(i + 1).drop_last() =~= aps@.take(i as int));
            assert(aps@.take(i + 1).last() == aps@[i as int]);
        }
        if ssid_known(aps[i].ssid.as_str(), known_ssids) {
            out.push(KnownConnection::AccessPoint(aps[i].clone()));
        }
        i = i + 1;
    }
    proof {
        assert(aps@.take(aps@.len() as int) =~= aps@);
    }
    let ghost base = out@.len();
    let n = known_vpns.len();
    let mut rest = known_vpns;
    let ghost vpns = rest@;
    let mut k: usize = 0;
    while k < n
        invariant
            n == vpns.len(),
            k <= n,
            rest@ == vpns.subrange(k as int, n as int),
            out@.len() == base + k,
            base == known_access_points(aps@, known_ssids@).len(),
            forall|j: int|
                0 <= j < base ==> out@[j] == KnownConnection::AccessPoint(
                    known_access_points(aps@, known_ssids@)[j],
                ),
            forall|j: int| 0 <= j < k ==> out@[base + j] == KnownConnection::Vpn(vpns[j]),
        decreases n - k,
    {
        let v = rest.remove(0);
        out.push(KnownConnection::Vpn(v));
        k = k + 1;
        proof {
            assert(rest@ =~= vpns.subrange(k as int, n as int));
        }
    }
    out
}

/// The network backend in use.
#[derive(Debug, Clone, Copy, PartialEq, Eq, Structural)]
pub enum BackendChoice {
    NetworkManager,
    Iwd,
}

/// The backend the network service settles on: NetworkManager when it
/// starts, else iwd when it starts, else none (the service fails).
pub open spec fn choose_backend_spec(network_manager_ok: bool, iwd_ok: bool) -> Option<
    BackendChoice,
> {
    if network_manager_ok {
        Some(BackendChoice::NetworkManager)
    } else if iwd_ok {
        Some(BackendChoice::Iwd)
    } else {
        None
    }
}

/// The backend the network service settles on: NetworkManager when it
/// starts, else iwd when it starts, else none (the service fails).
pub fn choose_backend(network_manager_ok: bool, iwd_ok: bool) -> (c: Option<BackendChoice>)
    ensures
        network_manager_ok ==> c == Some(BackendChoice::NetworkManager),
        !network_manager_ok && iwd_ok ==> c == Some(BackendChoice::Iwd),
        !network_manager_ok && !iwd_ok ==> c is None,
        c == choose_backend_spec(network_manager_ok, iwd_ok),
{
    if network_manager_ok {
        Some(BackendChoice::NetworkManager)
    } else if iwd_ok {
        Some(BackendChoice::Iwd)
    } else {
        None
    }
}

/// Where the network service's connection loop stands.
#[derive(Debug, Clone, Copy, PartialEq, Eq, Structural)]
pub enum NetStartState {
    /// Nothing connected yet.
    Init,
    /// Waiting for the system bus connection.
    Connecting,
    /// Waiting for the given backend to initialize.
    Starting(BackendChoice),
    /// The given backend is up; its events are to be listened to.
    Active(BackendChoice),
    /// Listening to the given backend's events.
    Listening(BackendChoice),
    /// Something failed; the loop pauses and starts over.
    Error,
}

/// What the connection loop reports back.
#[derive(Debug, Clone, Copy, PartialEq, Eq, Structural)]
pub enum NetStartEvent {
    /// The loop is ready for its next step (after a publish, a pause, or at
    /// the start).
    Tick,
    /// The system bus connection succeeded or failed.
    BusConnected(bool),
    /// The backend being started initialized or failed to.
    BackendStarted(bool),
    /// The event stream ended: `true` when it ended cleanly (or asked for a
    /// restart), `false` when subscribing or reading failed.
    StreamEnded(bool),
}

/// What the connection loop is to do next.
#[derive(Debug, Clone, Copy, PartialEq, Eq, Structural)]
pub enum NetStartAction {
    /// Nothing; go on with a `Tick`.
    Continue,
    /// Connect to the system bus.
    ConnectBus,
    /// Initialize the given backend's data.
    StartBackend(BackendChoice),
    /// Publish the initialized service for the given backend.
    PublishInit(BackendChoice),
    /// Publish a service error.
    PublishError,
    /// Subscribe to the given backend's events and forward them.
    Subscribe(BackendChoice),
    /// Pause for the given number of milliseconds.
    Sleep(u64),
}

/// The pause after a failure before the loop starts over, in milliseconds.
pub const NETWORK_RETRY_PAUSE_MS: u64 = 1000;

/// One step of the network service's connection loop: the bus is connected
/// first, then NetworkManager is tried and iwd is the fallback; the chosen
/// backend is published and listened to, and its stream is subscribed to
/// again whenever it ends cleanly. Any failure publishes an error, pauses
/// and starts over. An event that does not fit the state changes nothing.
pub open spec fn network_step_spec(state: NetStartState, event: NetStartEvent) -> (
    NetStartState,
    NetStartAction,
) {
    match (state, event) {
        (NetStartState::Init, NetStartEvent::Tick) => (
            NetStartState::Connecting,
            NetStartAction::ConnectBus,
        ),
        (NetStartState::Connecting, NetStartEvent::BusConnected(ok)) => if ok {
            (
                NetStartState::Starting(BackendChoice::NetworkManager),
                NetStartAction::StartBackend(BackendChoice::NetworkManager),
            )
        } else {
            (NetStartState::Error, NetStartAction::PublishError)
        },
        (NetStartState::Starting(c), NetStartEvent::BackendStarted(ok)) => if ok {
            (NetStartState::Active(c), NetStartAction::PublishInit(c))
        } else if c == BackendChoice::NetworkManager {
            (
                NetStartState::Starting(BackendChoice::Iwd),
                NetStartAction::StartBackend(BackendChoice::Iwd),
            )
        } else {
            (NetStartState::Error, NetStartAction::PublishError)
        },
        (NetStartState::Active(c), NetStartEvent::Tick) => (
            NetStartState::Listening(c),
            NetStartAction::Subscribe(c),
        ),
        (NetStartState::Listening(c), NetStartEvent::StreamEnded(ok)) => if ok {
            (NetStartState::Active(c), NetStartAction::Continue)
        } else {
            (NetStartState::Error, NetStartAction::PublishError)
        },
        (NetStartState::Error, NetStartEvent::Tick) => (
            NetStartState::Init,
            NetStartAction::Sleep(NETWORK_RETRY_PAUSE_MS),
        ),
        _ => (state, NetStartAction::Continue),
    }
}

/// One step of the network service's connection loop; see
/// [`network_step_spec`].
pub fn network_step(state: NetStartState, event: NetStartEvent) -> (r: (
    NetStartState,
    NetStartAction,
))
    ensures
        r == network_step_spec(state, event),
{
    match (state, event) {
        (NetStartState::Init, NetStartEvent::Tick) => (
            NetStartState::Connecting,
            NetStartAction::ConnectBus,
        ),
        (NetStartState::Connecting, NetStartEvent::BusConnected(ok)) => if ok {
            (
                NetStartState::Starting(BackendChoice::NetworkManager),
                NetStartAction::StartBackend(BackendChoice::NetworkManager),
            )
        } else {
            (NetStartState::Error, NetStartAction::PublishError)
        },
        (NetStartState::Starting(c), NetStartEvent::BackendStarted(ok)) => if ok {
            (NetStartState::Active(c), NetStartAction::PublishInit(c))
        } else {
            match c {
                BackendChoice::NetworkManager => (
                    NetStartState::Starting(BackendChoice::Iwd),
                    NetStartAction::StartBackend(BackendChoice::Iwd),
                ),
                BackendChoice::Iwd => (NetStartState::Error, NetStartAction::PublishError),
            }
        },
        (NetStartState::Active(c), NetStartEvent::Tick) => (
            NetStartState::Listening(c),
            NetStartAction::Subscribe(c),
        ),
        (NetStartState::Listening(c), NetStartEvent::StreamEnded(ok)) => if ok {
            (NetStartState::Active(c), NetStartAction::Continue)
        } else {
            (NetStartState::Error, NetStartAction::PublishError)
        },
        (NetStartState::Error, NetStartEvent::Tick) => (
            NetStartState::Init,
            NetStartAction::Sleep(NETWORK_RETRY_PAUSE_MS),
        ),
        _ => (state, NetStartAction::Continue),
    }
}

/// Starting up: from a connected bus, the backend that comes up is the one
/// that `choose_backend` picks from whether NetworkManager and iwd start,
/// and the service fails exactly when neither does.
pub proof fn lemma_start_up_picks_backend(network_manager_ok: bool, iwd_ok: bool)
    ensures
        ({
            let (s1, a1) = network_step_spec(
                NetStartState::Connecting,
                NetStartEvent::BusConnected(true),
            );
            let (s2, a2) = network_step_spec(s1, NetStartEvent::BackendStarted(network_manager_ok));
            let (s3, a3) = if network_manager_ok {
                (s2, a2)
            } else {
                network_step_spec(s2, NetStartEvent::BackendStarted(iwd_ok))
            };
            match choose_backend_spec(network_manager_ok, iwd_ok) {
                Some(c) => s3 == NetStartState::Active(c) && a3 == NetStartAction::PublishInit(c),
                None => s3 == NetStartState::Error && a3 == NetStartAction::PublishError,
            }
        }),
{
}

/// After a failure the loop pauses and then connects again: from `Error`,
/// two ticks lead to a bus connection request after the retry pause.
pub proof fn lemma_error_retries()
    ensures
        network_step_spec(NetStartState::Error, NetStartEvent::Tick) == (
            NetStartState::Init,
            NetStartAction::Sleep(NETWORK_RETRY_PAUSE_MS),
        ),
        network_step_spec(NetStartState::Init, NetStartEvent::Tick) == (
            NetStartState::Connecting,
            NetStartAction::ConnectBus,
        ),
{
}

/// Whether the NetworkManager event loop restarts its subscriptions after
/// forwarding `event`: a new set of wireless devices needs new streams.
pub fn restarts_after(event: &crate::network::NetworkEvent) -> (b: bool)
    ensures
        b == (*event is WirelessDevice),
{
    match event {
        crate::network::NetworkEvent::WirelessDevice { .. } => true,
        _ => false,
    }
}

/// What the NetworkManager event loop does with the next item of its event
/// stream.
#[derive(Debug)]
pub enum StreamStep<E> {
    /// The stream ended: the loop ends cleanly.
    Finished,
    /// Reading failed: the loop ends with this error.
    Failed(E),
    /// Forward the event as an update; when `stop` holds, the loop ends
    /// cleanly afterwards so that the subscriptions are made again.
    Forward { event: crate::network::NetworkEvent, stop: bool },
}

/// The next step of the NetworkManager event loop for a stream item: the end
/// of the stream finishes it, an error fails it, and an event is forwarded,
/// ending the loop after a change of wireless devices.
pub fn network_stream_step<E>(item: Option<Result<crate::network::NetworkEvent, E>>) -> (r:
    StreamStep<E>)
    ensures
        match item {
            None => r is Finished,
            Some(Err(e)) => r == StreamStep::<E>::Failed(e),
            Some(Ok(event)) => r == (StreamStep::<E>::Forward {
                event,
                stop: event is WirelessDevice,
            }),
        },
{
    match item {
        None => StreamStep::Finished,
        Some(Err(e)) => StreamStep::Failed(e),
        Some(Ok(event)) => {
            let stop = restarts_after(&event);
            StreamStep::Forward { event, stop }
        },
    }
}

/// A switch's state after asking the backend to flip it: flipped when the
/// backend accepted, unchanged otherwise.
pub fn toggled(current: bool, accepted: bool) -> (b: bool)
    ensures
        b == (if accepted {
            !current
        } else {
            current
        }),
{
    if accepted {
        !current
    } else {
        current
    }
}

/// Whether `i` is the first active VPN named `name`.
pub open spec fn is_first_active_vpn(active: Seq<ActiveConnectionInfo>, name: Seq<char>, i: int) -> bool {
    &&& 0 <= i < active.len()
    &&& active[i] matches ActiveConnectionInfo::Vpn { name: n, .. } && n@ == name
    &&& forall|j: int|
        0 <= j < i ==> !(#[trigger] active[j] matches ActiveConnectionInfo::Vpn { name: n, .. }
            && n@ == name)
}

/// What toggling a VPN asks of the backend: deactivate the first active VPN
/// of that name (by its active connection's path), or activate the saved
/// one when none of that name is active.
pub fn vpn_toggle(active: &Vec<ActiveConnectionInfo>, vpn: &Vpn) -> (r: (String, bool))
    ensures
        (exists|i: int| is_first_active_vpn(active@, vpn.name@, i)) ==> exists|i: int|
            is_first_active_vpn(active@, vpn.name@, i) && (active@[i] matches ActiveConnectionInfo::Vpn {
                object_path,
                ..
            } && r.0 == object_path) && !r.1,
        !(exists|i: int| is_first_active_vpn(active@, vpn.name@, i)) ==> r.0 == vpn.path && r.1,
{
    let mut i: usize = 0;
    while i < active.len()
        invariant
            i <= active@.len(),
            forall|j: int|
                0 <= j < i ==> !(#[trigger] active@[j] matches ActiveConnectionInfo::Vpn { name: n, .. }
                    && n@ == vpn.name@),
        decreases active@.len() - i,
    {
        match &active[i] {
            ActiveConnectionInfo::Vpn { name, object_path } => {
                if str_eq(name.as_str(), vpn.name.as_str()) {
                    proof {
                        assert(is_first_active_vpn(active@, vpn.name@, i as int));
                    }
                    return (object_path.clone(), false);
                }
            },
            _ => {},
        }
        i = i + 1;
    }
    proof {
        if exists|k: int| is_first_active_vpn(active@, vpn.name@, k) {
            let k = choose|k: int| is_first_active_vpn(active@, vpn.name@, k);
            assert(!(active@[k] matches ActiveConnectionInfo::Vpn { name: n, .. } && n@ == vpn.name@));
        }
    }
    (vpn.path.clone(), true)
}

/// The event for a wireless device's new state: a request for the network's
/// password when the device needs authentication, nothing otherwise.
pub fn password_request(state: crate::network::DeviceState, ssid: String) -> (e: Option<
    crate::network::NetworkEvent,
>)
    ensures
        state == crate::network::DeviceState::NeedAuth ==> e == Some(
            crate::network::NetworkEvent::RequestPasswordForSSID(ssid),
        ),
        state != crate::network::DeviceState::NeedAuth ==> e is None,
{
    match state {
        crate::network::DeviceState::NeedAuth => Some(
            crate::network::NetworkEvent::RequestPasswordForSSID(ssid),
        ),
        _ => None,
    }
}

/// Whether the list of wireless devices changed: the object paths differ,
/// in content or order.
pub fn devices_changed(current: &Vec<String>, known: &Vec<String>) -> (b: bool)
    ensures
        b == !(current@.len() == known@.len() && forall|i: int|
            0 <= i < current@.len() ==> (#[trigger] current@[i])@ == known@[i]@),
{
    if current.len() != known.len() {
        return true;
    }
    let mut i: usize = 0;
    while i < current.len()
        invariant
            current@.len() == known@.len(),
            i <= current@.len(),
            forall|j: int| 0 <= j < i ==> (#[trigger] current@[j])@ == known@[j]@,
        decreases current@.len() - i,
    {
        if !str_eq(current[i].as_str(), known[i].as_str()) {
            return true;
        }
        i = i + 1;
    }
    false
}

} // verus!
