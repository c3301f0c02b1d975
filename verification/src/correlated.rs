//! The correlated transport variant of the fetch protocol.
//!
//! Where the default transport serves fetches from one shared FIFO queue,
//! this variant decouples several concurrent logical requests on one
//! surface: each send stores its bytes in the pending fetch table under a
//! generated correlation id, and the embedded content later fetches exactly
//! that entry by id.  An entry is created by the send, consumed by at most
//! one matching fetch, and removed immediately after; an entry that is sent
//! but never fetched stays pending.  The two variants are alternate designs
//! for the same problem and are never mixed on one surface: a shared-queue
//! fetch on a correlated surface would make "which message does the fetch
//! return" ambiguous.

use vstd::prelude::*;
use vstd::string::StrSliceExecFns;

use crate::ipc::HttpMethod;
use crate::ipc::IpcResponse;

verus! {

/// One pending delivery: bytes awaiting the single fetch that will consume
/// them, keyed by surface and correlation id.
pub struct PendingEntry {
    pub surface: usize,
    pub correlation: u128,
    pub body: Vec<u8>,
}

/// The key under which an entry is pending.
pub open spec fn entry_key(e: PendingEntry) -> (int, int) {
    (e.surface as int, e.correlation as int)
}

/// The mathematical content of a sequence of pending entries: the mapping
/// from (surface, correlation id) to the bytes awaiting delivery.
pub open spec fn map_of(s: Seq<PendingEntry>) -> Map<(int, int), Seq<u8>>
    decreases s.len(),
{
    if s.len() == 0 {
        Map::empty()
    } else {
        map_of(s.drop_last()).insert(entry_key(s.last()), s.last().body@)
    }
}

/// No two entries pend under the same key.
pub open spec fn distinct_keys(s: Seq<PendingEntry>) -> bool {
    forall|i: int, j: int|
        0 <= i < j < s.len() ==> entry_key(#[trigger] s[i]) != entry_key(#[trigger] s[j])
}

proof fn lemma_distinct_keys_drop_last(s: Seq<PendingEntry>)
    requires
        distinct_keys(s),
        s.len() > 0,
    ensures
        distinct_keys(s.drop_last()),
{
    assert forall|i: int, j: int|
        0 <= i < j < s.drop_last().len() implies entry_key(#[trigger] s.drop_last()[i])
        != entry_key(#[trigger] s.drop_last()[j]) by {
        assert(s.drop_last()[i] == s[i]);
        assert(s.drop_last()[j] == s[j]);
    }
}

/// A key is in the table's content exactly when some entry carries it.
proof fn lemma_map_of_contains(s: Seq<PendingEntry>, k: (int, int))
    ensures
        map_of(s).contains_key(k) <==> exists|i: int|
            0 <= i < s.len() && entry_key(#[trigger] s[i]) == k,
    decreases s.len(),
{
    if s.len() == 0 {
    } else {
        lemma_map_of_contains(s.drop_last(), k);
        if map_of(s).contains_key(k) {
            if k == entry_key(s.last()) {
                assert(entry_key(s[s.len() - 1]) == k);
            } else {
                let i = choose|i: int|
                    0 <= i < s.drop_last().len() && entry_key(#[trigger] s.drop_last()[i]) == k;
                assert(s.drop_last()[i] == s[i]);
                assert(entry_key(s[i]) == k);
            }
        }
        if exists|i: int| 0 <= i < s.len() && entry_key(#[trigger] s[i]) == k {
            let i = choose|i: int| 0 <= i < s.len() && entry_key(#[trigger] s[i]) == k;
            if i == s.len() - 1 {
                assert(k == entry_key(s.last()));
            } else {
                assert(s.drop_last()[i] == s[i]);
                assert(entry_key(s.drop_last()[i]) == k);
            }
        }
    }
}

/// With distinct keys, each entry is in the content under its key, with its
/// bytes.
proof fn lemma_map_of_index(s: Seq<PendingEntry>, i: int)
    requires
        distinct_keys(s),
        0 <= i < s.len(),
    ensures
        map_of(s).contains_key(entry_key(s[i])),
        map_of(s)[entry_key(s[i])] == s[i].body@,
    decreases s.len(),
{
    if i == s.len() - 1 {
    } else {
        lemma_distinct_keys_drop_last(s);
        assert(s.drop_last()[i] == s[i]);
        lemma_map_of_index(s.drop_last(), i);
        assert(entry_key(s[i]) != entry_key(s[s.len() - 1]));
    }
}

/// With distinct keys, removing one entry removes exactly its key from the
/// content.
proof fn lemma_map_of_remove(s: Seq<PendingEntry>, i: int)
    requires
        distinct_keys(s),
        0 <= i < s.len(),
    ensures
        map_of(s.remove(i)) == map_of(s).remove(entry_key(s[i])),
    decreases s.len(),
{
    let k = entry_key(s[i]);
    if i == s.len() - 1 {
        assert(s.remove(i) =~= s.drop_last());
        lemma_map_of_contains(s.drop_last(), k);
        assert forall|j: int| 0 <= j < s.drop_last().len() implies entry_key(
            #[trigger] s.drop_last()[j],
        ) != k by {
            assert(s.drop_last()[j] == s[j]);
        }
        assert(!map_of(s.drop_last()).contains_key(k));
        assert(map_of(s).remove(k) =~= map_of(s.drop_last()));
    } else {
        lemma_distinct_keys_drop_last(s);
        assert(s.drop_last()[i] == s[i]);
        lemma_map_of_remove(s.drop_last(), i);
        let klast = entry_key(s.last());
        let vlast = s.last().body@;
        assert(s.remove(i).drop_last() =~= s.drop_last().remove(i));
        assert(s.remove(i).last() == s.last());
        assert(k != klast);
        assert(map_of(s.drop_last()).remove(k).insert(klast, vlast) =~= map_of(
            s.drop_last(),
        ).insert(klast, vlast).remove(k));
    }
}

/// The pending fetch table of the correlated variant, together with the
/// generator of correlation ids.  Ids are generated by a strictly
/// increasing counter, so a generated id never collides with a pending one.
pub struct CorrelatedStore {
    next_id: u128,
    entries: Vec<PendingEntry>,
}

impl CorrelatedStore {
    /// The bytes pending delivery, keyed by (surface, correlation id).
    pub closed spec fn pending(&self) -> Map<(int, int), Seq<u8>> {
        map_of(self.entries@)
    }

    /// The correlation id the next send will receive.
    pub closed spec fn next_correlation(&self) -> int {
        self.next_id as int
    }

    /// Every pending key is unique and carries an id the generator already
    /// passed.
    pub closed spec fn wf(&self) -> bool {
        &&& distinct_keys(self.entries@)
        &&& forall|i: int|
            0 <= i < self.entries@.len() ==> (#[trigger] self.entries@[i]).correlation
                < self.next_id
    }

    /// An empty table.
    pub fn new() -> (r: Self)
        ensures
            r.wf(),
            r.pending() == Map::<(int, int), Seq<u8>>::empty(),
            r.next_correlation() == 0,
    {
        CorrelatedStore { next_id: 0, entries: Vec::new() }
    }

    /// Stores bytes for a surface under a freshly generated correlation id
    /// and returns the id, for the host to pass along with its pull nudge.
    pub fn send(&mut self, surface: usize, body: Vec<u8>) -> (id: u128)
        requires
            old(self).wf(),
            old(self).next_correlation() < u128::MAX as int,
        ensures
            final(self).wf(),
            id as int == old(self).next_correlation(),
            final(self).next_correlation() == old(self).next_correlation() + 1,
            final(self).pending() == old(self).pending().insert(
                (surface as int, id as int),
                body@,
            ),
    {
        let id = self.next_id;
        let ghost before = self.entries@;
        self.entries.push(PendingEntry { surface, correlation: id, body });
        self.next_id = self.next_id + 1;
        proof {
            assert(self.entries@.drop_last() =~= before);
            assert(self.entries@.last() == self.entries@[before.len() as int]);
            assert forall|i: int, j: int|
                0 <= i < j < self.entries@.len() implies entry_key(#[trigger] self.entries@[i])
                != entry_key(#[trigger] self.entries@[j]) by {
                if j < before.len() {
                    assert(self.entries@[i] == before[i]);
                    assert(self.entries@[j] == before[j]);
                } else {
                    assert(self.entries@[i] == before[i]);
                    assert(before[i].correlation < id);
                }
            }
        }
        id
    }

    /// Looks up and removes the exact entry pending for this surface under
    /// this correlation id: its bytes if one is pending, nothing otherwise,
    /// and in either case no other entry is touched.
    pub fn fetch(&mut self, surface: usize, correlation: u128) -> (r: Option<Vec<u8>>)
        requires
            old(self).wf(),
        ensures
            final(self).wf(),
            final(self).next_correlation() == old(self).next_correlation(),
            old(self).pending().contains_key((surface as int, correlation as int)) ==> (r is Some
                && r.unwrap()@ == old(self).pending()[(surface as int, correlation as int)]
                && final(self).pending() == old(self).pending().remove(
                (surface as int, correlation as int),
            )),
            !old(self).pending().contains_key((surface as int, correlation as int)) ==> (r is None
                && final(self).pending() == old(self).pending()),
    {
        let ghost key = (surface as int, correlation as int);
        let mut k: usize = 0;
        while k < self.entries.len()
            invariant
                k <= self.entries@.len(),
                self == old(self),
                old(self).wf(),
                key == (surface as int, correlation as int),
                forall|i: int| 0 <= i < k ==> entry_key(#[trigger] self.entries@[i]) != key,
            decreases self.entries@.len() - k,
        {
            if self.entries[k].surface == surface && self.entries[k].correlation == correlation {
                proof {
                    lemma_map_of_index(self.entries@, k as int);
                    lemma_map_of_remove(self.entries@, k as int);
                }
                let entry = self.entries.remove(k);
                proof {
                    assert forall|i: int, j: int|
                        0 <= i < j < self.entries@.len() implies entry_key(
                        #[trigger] self.entries@[i],
                    ) != entry_key(#[trigger] self.entries@[j]) by {
                        let s = old(self).entries@;
                        if i < k as int {
                            assert(self.entries@[i] == s[i]);
                        } else {
                            assert(self.entries@[i] == s[i + 1]);
                        }
                        if j < k as int {
                            assert(self.entries@[j] == s[j]);
                        } else {
                            assert(self.entries@[j] == s[j + 1]);
                        }
                    }
                    assert forall|i: int|
                        0 <= i < self.entries@.len() implies (#[trigger] self.entries@[i]).correlation
                        < self.next_id by {
                        let s = old(self).entries@;
                        if i < k as int {
                            assert(self.entries@[i] == s[i]);
                        } else {
                            assert(self.entries@[i] == s[i + 1]);
                        }
                    }
                }
                return Some(entry.body);
            }
            k = k + 1;
        }
        proof {
            lemma_map_of_contains(self.entries@, key);
        }
        None
    }
}

/// A decimal digit.
pub open spec fn is_decimal_digit(c: char) -> bool {
    48 <= c as u32 <= 57
}

/// Every character of the sequence is a decimal digit.
pub open spec fn all_decimal_digits(s: Seq<char>) -> bool {
    forall|i: int| 0 <= i < s.len() ==> is_decimal_digit(#[trigger] s[i])
}

/// The number a sequence of decimal digits denotes, most significant first.
pub open spec fn decimal_value(s: Seq<char>) -> int
    decreases s.len(),
{
    if s.len() == 0 {
        0
    } else {
        decimal_value(s.drop_last()) * 10 + (s.last() as u32 - 48)
    }
}

/// The segment parses as a correlation id: non-empty, all digits, and small
/// enough for an unsigned 128-bit integer.
pub open spec fn parses_as_correlation(seg: Seq<char>) -> bool {
    seg.len() > 0 && all_decimal_digits(seg) && decimal_value(seg) <= u128::MAX as int
}

proof fn lemma_all_digits_take(s: Seq<char>, i: int)
    requires
        all_decimal_digits(s),
        0 <= i <= s.len(),
    ensures
        all_decimal_digits(s.take(i)),
{
    assert forall|j: int| 0 <= j < s.take(i).len() implies is_decimal_digit(
        #[trigger] s.take(i)[j],
    ) by {
        assert(s.take(i)[j] == s[j]);
    }
}

proof fn lemma_decimal_value_nonneg(s: Seq<char>)
    requires
        all_decimal_digits(s),
    ensures
        decimal_value(s) >= 0,
    decreases s.len(),
{
    if s.len() > 0 {
        lemma_all_digits_take(s, s.len() - 1);
        assert(s.drop_last() =~= s.take(s.len() - 1));
        lemma_decimal_value_nonneg(s.drop_last());
        assert(is_decimal_digit(s[s.len() - 1]));
    }
}

/// A digit string's value never shrinks as the string grows to the right.
proof fn lemma_decimal_value_prefix_le(s: Seq<char>, i: int, j: int)
    requires
        all_decimal_digits(s),
        0 <= i <= j <= s.len(),
    ensures
        decimal_value(s.take(i)) <= decimal_value(s.take(j)),
    decreases j - i,
{
    if i < j {
        lemma_decimal_value_prefix_le(s, i, j - 1);
        lemma_all_digits_take(s, j - 1);
        lemma_decimal_value_nonneg(s.take(j - 1));
        assert(s.take(j).drop_last() =~= s.take(j - 1));
        assert(s.take(j).last() == s[j - 1]);
        assert(is_decimal_digit(s[j - 1]));
    }
}

/// Parses a string of decimal digits as an unsigned 128-bit correlation id.
/// Succeeds exactly on the strings [`parses_as_correlation`] admits, and
/// then returns exactly their value.
pub fn parse_correlation_id(segment: &str) -> (r: Option<u128>)
    ensures
        r is Some ==> segment@.len() > 0 && all_decimal_digits(segment@) && r.unwrap() as int
            == decimal_value(segment@),
        parses_as_correlation(segment@) ==> r is Some,
        r is None ==> !parses_as_correlation(segment@),
{
    let n = segment.unicode_len();
    if n == 0 {
        return None;
    }
    let mut acc: u128 = 0;
    let mut i: usize = 0;
    while i < n
        invariant
            n == segment@.len(),
            i <= n,
            all_decimal_digits(segment@.take(i as int)),
            acc as int == decimal_value(segment@.take(i as int)),
        decreases n - i,
    {
        let c = segment.get_char(i);
        let d: u32 = c as u32;
        if d < 48 || d > 57 {
            proof {
                assert(!is_decimal_digit(segment@[i as int]));
            }
            return None;
        }
        let dv: u128 = (d - 48) as u128;
        if acc > (u128::MAX - dv) / 10 {
            proof {
                assert(segment@.take(i as int + 1).drop_last() =~= segment@.take(i as int));
                assert(segment@.take(i as int + 1).last() == segment@[i as int]);
                assert(decimal_value(segment@.take(i as int + 1)) > u128::MAX as int);
                if all_decimal_digits(segment@) {
                    lemma_decimal_value_prefix_le(segment@, i as int + 1, n as int);
                    assert(segment@.take(n as int) =~= segment@);
                }
            }
            return None;
        }
        acc = acc * 10 + dv;
        proof {
            assert(segment@.take(i as int + 1).drop_last() =~= segment@.take(i as int));
            assert(segment@.take(i as int + 1).last() == segment@[i as int]);
            assert(is_decimal_digit(segment@[i as int]));
            assert forall|j: int| 0 <= j < i as int + 1 implies is_decimal_digit(
                #[trigger] segment@.take(i as int + 1)[j],
            ) by {
                if j < i as int {
                    assert(segment@.take(i as int + 1)[j] == segment@.take(i as int)[j]);
                }
            }
        }
        i = i + 1;
    }
    proof {
        assert(segment@.take(n as int) =~= segment@);
    }
    Some(acc)
}

/// The URI addresses the correlated fetch endpoint: the fetch path followed
/// by a correlation-id segment.
pub open spec fn has_fetch_prefix(u: Seq<char>) -> bool {
    u.len() >= "bridge://fetch/"@.len() && u.take("bridge://fetch/"@.len() as int) == "bridge://fetch/"@
}

/// The id segment after the fetch path.
pub open spec fn correlation_segment(u: Seq<char>) -> Seq<char> {
    u.skip("bridge://fetch/"@.len() as int)
}

impl CorrelatedStore {
    /// Serves one request of the correlated variant on the surface's own
    /// thread.
    ///
    /// A GET of the fetch path with an id segment answers with the pending
    /// bytes for (this surface, that id) and removes the entry; not-found
    /// when nothing is pending under that exact key; conflict when the
    /// segment does not parse as an unsigned 128-bit integer, reported to
    /// the caller without crashing the protocol thread.  Any other request
    /// is not-found.  The table is only ever changed by consuming the one
    /// matching entry.
    pub fn handle_fetch_request(&mut self, surface: usize, method: HttpMethod, uri: &str) -> (r:
        IpcResponse)
        requires
            old(self).wf(),
        ensures
            final(self).wf(),
            final(self).next_correlation() == old(self).next_correlation(),
            !(method == HttpMethod::Get && has_fetch_prefix(uri@)) ==> (r.status == 404
                && r.body@.len() == 0 && final(self).pending() == old(self).pending()),
            (method == HttpMethod::Get && has_fetch_prefix(uri@) && !parses_as_correlation(
                correlation_segment(uri@),
            )) ==> (r.status == 409 && r.body@.len() == 0 && final(self).pending() == old(
                self,
            ).pending()),
            (method == HttpMethod::Get && has_fetch_prefix(uri@) && parses_as_correlation(
                correlation_segment(uri@),
            ) && old(self).pending().contains_key(
                (surface as int, decimal_value(correlation_segment(uri@))),
            )) ==> (r.status == 200 && r.body@ == old(self).pending()[
                (surface as int, decimal_value(correlation_segment(uri@)))
            ] && final(self).pending() == old(self).pending().remove(
                (surface as int, decimal_value(correlation_segment(uri@))),
            )),
            (method == HttpMethod::Get && has_fetch_prefix(uri@) && parses_as_correlation(
                correlation_segment(uri@),
            ) && !old(self).pending().contains_key(
                (surface as int, decimal_value(correlation_segment(uri@))),
            )) ==> (r.status == 404 && r.body@.len() == 0 && final(self).pending() == old(
                self,
            ).pending()),
    {
        let is_get = match method {
            HttpMethod::Get => true,
            _ => false,
        };
        let prefix: &str = "bridge://fetch/";
        let plen = prefix.unicode_len();
        let ulen = uri.unicode_len();
        if !is_get || ulen < plen {
            return IpcResponse { status: 404, body: Vec::new() };
        }
        let mut i: usize = 0;
        while i < plen
            invariant
                self == old(self),
                old(self).wf(),
                i <= plen,
                plen == prefix@.len(),
                prefix@ == "bridge://fetch/"@,
                ulen == uri@.len(),
                plen <= ulen,
                forall|j: int| 0 <= j < i ==> uri@[j] == prefix@[j],
            decreases plen - i,
        {
            if uri.get_char(i) != prefix.get_char(i) {
                proof {
                    assert(uri@.take(plen as int)[i as int] == uri@[i as int]);
                    assert(!has_fetch_prefix(uri@));
                }
                return IpcResponse { status: 404, body: Vec::new() };
            }
            i = i + 1;
        }
        proof {
            assert(uri@.take(plen as int) =~= "bridge://fetch/"@) by {
                assert(forall|j: int|
                    0 <= j < plen ==> uri@.take(plen as int)[j] == #[trigger] uri@[j]);
            }
        }
        let segment = uri.substring_char(plen, ulen);
        proof {
            assert(segment@ =~= correlation_segment(uri@));
        }
        match parse_correlation_id(segment) {
            None => IpcResponse { status: 409, body: Vec::new() },
            Some(id) => match self.fetch(surface, id) {
                Some(body) => IpcResponse { status: 200, body },
                None => IpcResponse { status: 404, body: Vec::new() },
            },
        }
    }
}

/// Law: a fetch for an unknown, never-sent correlation key finds nothing
/// pending, and a send under any other key does not change that — the
/// unknown key stays absent, so the earlier not-found can never have
/// swallowed the later send.
pub proof fn lemma_unknown_correlation_unmatched(
    pending: Map<(int, int), Seq<u8>>,
    unknown: (int, int),
    sent: (int, int),
    body: Seq<u8>,
)
    requires
        !pending.contains_key(unknown),
        unknown != sent,
    ensures
        !pending.insert(sent, body).contains_key(unknown),
{
}

} // verus!
