//! A cache of descriptor set layouts, keyed by their bindings.
//!
//! A layout is described by its bindings, sorted by binding number; a layout
//! asked for again with the same bindings is taken from the cache instead of
//! being created again.
use vstd::prelude::*;
use crate::vulkan::descriptors::LayoutBinding;
use crate::vulkan::device::LogicalDeviceError;

verus! {

/// Errors of the descriptor layout cache
#[derive(Clone, Copy, Debug, PartialEq, Eq, Structural)]
pub enum DescriptorCacheError {
    DeviceError(LogicalDeviceError),
}

/// Whether a binding has the binding number `k`.
pub open spec fn has_binding(k: u32) -> spec_fn(LayoutBinding) -> bool {
    |b: LayoutBinding| b.binding == k
}

/// Whether the bindings are ordered by binding number.
pub open spec fn sorted_by_binding(s: Seq<LayoutBinding>) -> bool {
    forall|a: int, b: int| 0 <= a < b < s.len() ==> (#[trigger] s[a]).binding <= (#[trigger] s[b]).binding
}

/// Whether `t` holds the bindings of `s` with each binding number's bindings
/// in the same relative order.
pub open spec fn same_bindings_per_number(s: Seq<LayoutBinding>, t: Seq<LayoutBinding>) -> bool {
    forall|k: u32| #[trigger] t.filter(has_binding(k)) == s.filter(has_binding(k))
}

/// Whether the binding number at `m`, read as a signed 32-bit integer, is
/// greater than the one before it (or than -1 for the first).
pub open spec fn number_increases_at(s: Seq<LayoutBinding>, m: int) -> bool {
    s[m].binding as i32 > (if m == 0 { -1i32 } else { s[m - 1].binding as i32 })
}

/// Whether the numbers increase at each of the first `n` bindings.
pub open spec fn increasing_upto(s: Seq<LayoutBinding>, n: int) -> bool {
    forall|m: int| 0 <= m < n ==> #[trigger] number_increases_at(s, m)
}

/// Whether the binding numbers, read as signed 32-bit integers, strictly
/// increase from above -1: the bindings need no sorting.
pub open spec fn increasing_numbers(s: Seq<LayoutBinding>) -> bool {
    increasing_upto(s, s.len() as int)
}

/// Swapping two adjacent bindings of different numbers keeps the bindings of
/// each number in order.
proof fn lemma_swap_keeps_numbers(s: Seq<LayoutBinding>, j: int)
    requires
        0 < j < s.len(),
        s[j - 1].binding != s[j].binding,
    ensures
        same_bindings_per_number(s, s.update(j - 1, s[j]).update(j, s[j - 1])),
{
    let t = s.update(j - 1, s[j]).update(j, s[j - 1]);
    let p = s.take(j - 1);
    let q = s.skip(j + 1);
    let x = s[j - 1];
    let y = s[j];
    assert(s == p + seq![x, y] + q);
    assert(t == p + seq![y, x] + q);
    assert forall|k: u32| #[trigger] t.filter(has_binding(k)) == s.filter(has_binding(k)) by {
        let f = has_binding(k);
        Seq::filter_distributes_over_add(p + seq![x, y], q, f);
        Seq::filter_distributes_over_add(p, seq![x, y], f);
        Seq::filter_distributes_over_add(p + seq![y, x], q, f);
        Seq::filter_distributes_over_add(p, seq![y, x], f);
        Seq::filter_distributes_over_add(seq![x], seq![y], f);
        Seq::filter_distributes_over_add(seq![y], seq![x], f);
        assert(seq![x, y] == seq![x] + seq![y]);
        assert(seq![y, x] == seq![y] + seq![x]);
        reveal_with_fuel(vstd::seq::Seq::filter, 2);
        assert(seq![x].drop_last() == Seq::<LayoutBinding>::empty());
        assert(seq![y].drop_last() == Seq::<LayoutBinding>::empty());
        if f(x) {
            assert(!f(y));
            assert(seq![x].filter(f) == seq![x]);
            assert(seq![y].filter(f) == Seq::<LayoutBinding>::empty());
            assert(seq![x, y].filter(f) == seq![y, x].filter(f));
        } else if f(y) {
            assert(seq![y].filter(f) == seq![y]);
            assert(seq![x].filter(f) == Seq::<LayoutBinding>::empty());
            assert(seq![x, y].filter(f) == seq![y, x].filter(f));
        } else {
            assert(seq![y].filter(f) == Seq::<LayoutBinding>::empty());
            assert(seq![x].filter(f) == Seq::<LayoutBinding>::empty());
            assert(seq![x, y].filter(f) == seq![y, x].filter(f));
        }
    }
}

/// The bindings of a number in a sequence that starts with `x`.
proof fn lemma_filter_cons(x: LayoutBinding, rest: Seq<LayoutBinding>, k: u32)
    ensures
        (seq![x] + rest).filter(has_binding(k)) == (if x.binding == k {
            seq![x] + rest.filter(has_binding(k))
        } else {
            rest.filter(has_binding(k))
        }),
{
    let f = has_binding(k);
    Seq::filter_distributes_over_add(seq![x], rest, f);
    reveal_with_fuel(vstd::seq::Seq::filter, 2);
    assert(seq![x].drop_last() == Seq::<LayoutBinding>::empty());
    if f(x) {
        assert(seq![x].filter(f) == seq![x]);
    } else {
        assert(seq![x].filter(f) == Seq::<LayoutBinding>::empty());
    }
}

/// Where some binding of `s` has the number `k`, so does some binding of `t`,
/// when both hold the same bindings of each number.
proof fn lemma_number_shared(s: Seq<LayoutBinding>, t: Seq<LayoutBinding>, i: int) -> (j: int)
    requires
        0 <= i < s.len(),
        same_bindings_per_number(s, t),
    ensures
        0 <= j < t.len(),
        t[j].binding == s[i].binding,
{
    let f = has_binding(s[i].binding);
    s.lemma_filter_contains(f, i);
    assert(t.filter(f) == s.filter(f));
    t.lemma_filter_contains_rev(f, s[i]);
    let j = choose|j: int| 0 <= j < t.len() && t[j] == s[i];
    j
}

/// Two sequences sorted by binding number that hold the same bindings of
/// each number, in the same order, are equal.
proof fn lemma_sorted_same_numbers_equal(s: Seq<LayoutBinding>, t: Seq<LayoutBinding>)
    requires
        sorted_by_binding(s),
        sorted_by_binding(t),
        same_bindings_per_number(s, t),
    ensures
        s == t,
    decreases s.len(),
{
    if s.len() == 0 && t.len() == 0 {
        assert(s =~= t);
        return;
    }
    assert(same_bindings_per_number(t, s)) by {
        assert forall|k: u32| #[trigger] s.filter(has_binding(k)) == t.filter(has_binding(k)) by {
            assert(t.filter(has_binding(k)) == s.filter(has_binding(k)));
        }
    }
    if s.len() == 0 {
        let j = lemma_number_shared(t, s, 0);
        assert(false);
    }
    if t.len() == 0 {
        let j = lemma_number_shared(s, t, 0);
        assert(false);
    }
    let m = s[0].binding;
    let jt = lemma_number_shared(s, t, 0);
    assert(t[0].binding <= t[jt].binding);
    let js = lemma_number_shared(t, s, 0);
    assert(s[0].binding <= s[js].binding);
    assert(t[0].binding == m);

    let s1 = s.drop_first();
    let t1 = t.drop_first();
    assert(s == seq![s[0]] + s1);
    assert(t == seq![t[0]] + t1);
    lemma_filter_cons(s[0], s1, m);
    lemma_filter_cons(t[0], t1, m);
    assert(s.filter(has_binding(m)) == t.filter(has_binding(m)));
    assert(s.filter(has_binding(m))[0] == s[0]);
    assert(t.filter(has_binding(m))[0] == t[0]);
    assert(s[0] == t[0]);
    assert forall|k: u32| #[trigger] t1.filter(has_binding(k)) == s1.filter(has_binding(k)) by {
        lemma_filter_cons(s[0], s1, k);
        lemma_filter_cons(t[0], t1, k);
        assert(t.filter(has_binding(k)) == s.filter(has_binding(k)));
        if k == m {
            assert(s1.filter(has_binding(k)) == s.filter(has_binding(k)).drop_first());
            assert(t1.filter(has_binding(k)) == t.filter(has_binding(k)).drop_first());
        }
    }
    assert(sorted_by_binding(s1)) by {
        assert forall|a: int, b: int| 0 <= a < b < s1.len() implies (#[trigger] s1[a]).binding <= (#[trigger] s1[b]).binding by {
            assert(s1[a] == s[a + 1] && s1[b] == s[b + 1]);
        }
    }
    assert(sorted_by_binding(t1)) by {
        assert forall|a: int, b: int| 0 <= a < b < t1.len() implies (#[trigger] t1[a]).binding <= (#[trigger] t1[b]).binding by {
            assert(t1[a] == t[a + 1] && t1[b] == t[b + 1]);
        }
    }
    lemma_sorted_same_numbers_equal(s1, t1);
}

/// A layout's description is determined by the bindings given: any two
/// descriptions of the same bindings are equal.
pub proof fn lemma_description_unique(given: Seq<LayoutBinding>, d1: Seq<LayoutBinding>, d2: Seq<LayoutBinding>)
    requires
        described_as(given, d1),
        described_as(given, d2),
    ensures
        d1 == d2,
{
    if !increasing_numbers(given) {
        assert(same_bindings_per_number(d1, d2)) by {
            assert forall|k: u32| #[trigger] d2.filter(has_binding(k)) == d1.filter(has_binding(k)) by {
                assert(d1.filter(has_binding(k)) == given.filter(has_binding(k)));
                assert(d2.filter(has_binding(k)) == given.filter(has_binding(k)));
            }
        }
        lemma_sorted_same_numbers_equal(d1, d2);
    }
}

/// Two binding numbers that are non-negative read as signed 32-bit integers
/// are ordered as those integers are.
proof fn lemma_nonneg_signed_order(x: u32, y: u32)
    by (bit_vector)
    requires
        (x as i32) >= 0,
        (y as i32) >= 0,
        (x as i32) < (y as i32),
    ensures
        x < y,
{
}

/// Where the numbers increase up to `b`, the number at `b`, read as a signed
/// 32-bit integer, is non-negative and above every earlier one.
proof fn lemma_increasing_prefix(s: Seq<LayoutBinding>, b: int)
    requires
        increasing_numbers(s),
        0 <= b < s.len(),
    ensures
        (s[b].binding as i32) >= 0,
        forall|a: int| 0 <= a < b ==> (s[a].binding as i32) < (s[b].binding as i32),
    decreases b,
{
    assert(number_increases_at(s, b));
    if b > 0 {
        lemma_increasing_prefix(s, b - 1);
    }
}

/// Bindings whose numbers need no sorting are sorted by binding number.
proof fn lemma_increasing_is_sorted(s: Seq<LayoutBinding>)
    requires
        increasing_numbers(s),
    ensures
        sorted_by_binding(s),
{
    assert forall|a: int, b: int| 0 <= a < b < s.len() implies (#[trigger] s[a]).binding <= (#[trigger] s[b]).binding by {
        lemma_increasing_prefix(s, a);
        lemma_increasing_prefix(s, b);
        lemma_nonneg_signed_order(s[a].binding, s[b].binding);
    }
}

/// A description is sorted by binding number and holds the bindings given,
/// those of each number in their order.
proof fn lemma_description_sorted(given: Seq<LayoutBinding>, d: Seq<LayoutBinding>)
    requires
        described_as(given, d),
    ensures
        sorted_by_binding(d),
        same_bindings_per_number(given, d),
{
    if increasing_numbers(given) {
        lemma_increasing_is_sorted(given);
    }
}

/// Bindings given in another order, where the bindings of each number keep
/// their relative order, get the same description.
pub proof fn lemma_reordered_same_description(
    g1: Seq<LayoutBinding>,
    g2: Seq<LayoutBinding>,
    d1: Seq<LayoutBinding>,
    d2: Seq<LayoutBinding>,
)
    requires
        same_bindings_per_number(g1, g2),
        described_as(g1, d1),
        described_as(g2, d2),
    ensures
        d1 == d2,
{
    lemma_description_sorted(g1, d1);
    lemma_description_sorted(g2, d2);
    assert(same_bindings_per_number(d1, d2)) by {
        assert forall|k: u32| #[trigger] d2.filter(has_binding(k)) == d1.filter(has_binding(k)) by {
            assert(d1.filter(has_binding(k)) == g1.filter(has_binding(k)));
            assert(d2.filter(has_binding(k)) == g2.filter(has_binding(k)));
            assert(g2.filter(has_binding(k)) == g1.filter(has_binding(k)));
        }
    }
    lemma_sorted_same_numbers_equal(d1, d2);
}

/// Sorts bindings by binding number, keeping bindings of equal number in
/// their order (a stable insertion sort).
fn sort_by_binding(v: &mut Vec<LayoutBinding>)
    ensures
        final(v).len() == old(v).len(),
        sorted_by_binding(final(v)@),
        same_bindings_per_number(old(v)@, final(v)@),
{
    let n = v.len();
    if n == 0 {
        return;
    }
    let mut i: usize = 1;
    while i < n
        invariant
            1 <= i <= n,
            v.len() == n,
            sorted_by_binding(v@.take(i as int)),
            same_bindings_per_number(old(v)@, v@),
        decreases n - i,
    {
        proof {
            assert forall|a: int, b: int| 0 <= a < b < i implies (#[trigger] v@[a]).binding <= (#[trigger] v@[b]).binding by {
                assert(v@.take(i as int)[a] == v@[a]);
                assert(v@.take(i as int)[b] == v@[b]);
            }
        }
        let mut j: usize = i;
        while j > 0 && v[j - 1].binding > v[j].binding
            invariant
                0 <= j <= i < n,
                v.len() == n,
                forall|a: int, b: int| 0 <= a < b < j ==> (#[trigger] v@[a]).binding <= (#[trigger] v@[b]).binding,
                forall|a: int, b: int| j <= a < b <= i ==> (#[trigger] v@[a]).binding <= (#[trigger] v@[b]).binding,
                forall|a: int, b: int| 0 <= a < j && j < b <= i ==> (#[trigger] v@[a]).binding <= (#[trigger] v@[b]).binding,
                same_bindings_per_number(old(v)@, v@),
            decreases j,
        {
            let x = v[j - 1];
            let y = v[j];
            proof {
                lemma_swap_keeps_numbers(v@, j as int);
            }
            let ghost before = v@;
            v.set(j - 1, y);
            v.set(j, x);
            proof {
                assert(v@ == before.update(j - 1, before[j as int]).update(j as int, before[j - 1]));
                assert forall|k: u32| #[trigger] v@.filter(has_binding(k)) == old(v)@.filter(has_binding(k)) by {
                    assert(v@.filter(has_binding(k)) == before.filter(has_binding(k)));
                    assert(before.filter(has_binding(k)) == old(v)@.filter(has_binding(k)));
                }
            }
            j = j - 1;
        }
        proof {
            assert forall|a: int, b: int| 0 <= a < b < i + 1 implies (#[trigger] v@.take(i + 1)[a]).binding <= (#[trigger] v@.take(i + 1)[b]).binding by {
                assert(v@.take(i + 1)[a] == v@[a]);
                assert(v@.take(i + 1)[b] == v@[b]);
                if a < j && b > j {
                } else if a < j && b == j {
                    assert(v@[j - 1].binding <= v@[j as int].binding);
                    if a < j - 1 {
                        assert(v@[a].binding <= v@[j - 1].binding);
                    }
                } else {
                }
            }
        }
        i = i + 1;
    }
    proof {
        assert(v@.take(n as int) == v@);
    }
}

/// A binding number read as a signed 32-bit integer.
fn signed_number(n: u32) -> (r: i32)
    ensures
        r == n as i32,
{
    n as i32
}

/// The description of a descriptor set layout: its bindings, sorted by
/// binding number. Two descriptions are equal when their bindings are.
#[derive(Debug)]
pub struct DescriptorLayoutInfo {
    pub bindings: Vec<LayoutBinding>,
}

/// The description a layout with these bindings gets: the bindings as given
/// where their numbers need no sorting, else the bindings stably sorted by
/// binding number.
pub open spec fn described_as(given: Seq<LayoutBinding>, described: Seq<LayoutBinding>) -> bool {
    if increasing_numbers(given) {
        described == given
    } else {
        &&& described.len() == given.len()
        &&& sorted_by_binding(described)
        &&& same_bindings_per_number(given, described)
    }
}

/// The word each binding contributes to the hash of a description.
pub open spec fn binding_word(b: LayoutBinding) -> i32 {
    (b.binding as i32) | (b.descriptor_type << 8u32) | ((b.descriptor_count as i32) << 16u32) | ((b.stage_flags as i32) << 24u32)
}

impl DescriptorLayoutInfo {
    /// Describes a layout with the bindings given (see [described_as]).
    pub fn new(bindings: &[LayoutBinding]) -> (info: DescriptorLayoutInfo)
        ensures
            described_as(bindings@, info.bindings@),
    {
        let mut copied: Vec<LayoutBinding> = Vec::new();
        let mut is_sorted = true;
        let mut last_binding: i32 = -1;
        let mut i: usize = 0;
        while i < bindings.len()
            invariant
                i <= bindings.len(),
                copied@ == bindings@.take(i as int),
                is_sorted == increasing_upto(bindings@, i as int),
                is_sorted ==> last_binding == (if i == 0 { -1i32 } else { bindings@[i - 1].binding as i32 }),
            decreases bindings.len() - i,
        {
            let b = bindings[i];
            copied.push(b);
            assert(bindings@.take(i + 1) == bindings@.take(i as int).push(b));
            let number = signed_number(b.binding);
            let ghost was = is_sorted;
            if number > last_binding {
                last_binding = number;
            } else {
                is_sorted = false;
            }
            proof {
                if was {
                    assert(number_increases_at(bindings@, i as int) == (number > (if i == 0 { -1i32 } else { bindings@[i - 1].binding as i32 })));
                }
                if is_sorted {
                    assert forall|m: int| 0 <= m < i + 1 implies #[trigger] number_increases_at(bindings@, m) by {
                        if m < i {
                            assert(increasing_upto(bindings@, i as int));
                        }
                    }
                } else {
                    if was {
                        assert(!number_increases_at(bindings@, i as int));
                    } else {
                        let w = choose|m: int| 0 <= m < i && !#[trigger] number_increases_at(bindings@, m);
                        assert(!number_increases_at(bindings@, w));
                    }
                }
            }
            i = i + 1;
        }
        assert(bindings@.take(i as int) == bindings@);
        if !is_sorted {
            sort_by_binding(&mut copied);
        }
        DescriptorLayoutInfo { bindings: copied }
    }

    /// Whether two descriptions have the same bindings: the same number of
    /// them, each with the same number, type, count and stages.
    pub fn same_as(&self, other: &DescriptorLayoutInfo) -> (r: bool)
        ensures
            r == (self.bindings@ == other.bindings@),
    {
        if self.bindings.len() != other.bindings.len() {
            return false;
        }
        let mut i: usize = 0;
        while i < self.bindings.len()
            invariant
                i <= self.bindings.len() == other.bindings.len(),
                forall|m: int| 0 <= m < i ==> self.bindings@[m] == other.bindings@[m],
            decreases self.bindings.len() - i,
        {
            let a = self.bindings[i];
            let b = other.bindings[i];
            if a.binding != b.binding {
                return false;
            }
            if a.descriptor_type != b.descriptor_type {
                return false;
            }
            if a.descriptor_count != b.descriptor_count {
                return false;
            }
            if a.stage_flags != b.stage_flags {
                return false;
            }
            i = i + 1;
        }
        assert(self.bindings@ =~= other.bindings@);
        true
    }

    /// The words the description feeds to a hasher, one per binding in order.
    pub fn hash_words(&self) -> (words: Vec<i32>)
        ensures
            words.len() == self.bindings.len(),
            forall|i: int| 0 <= i < words.len() ==> #[trigger] words@[i] == binding_word(self.bindings@[i]),
    {
        let mut words: Vec<i32> = Vec::new();
        let mut i: usize = 0;
        while i < self.bindings.len()
            invariant
                i <= self.bindings.len(),
                words.len() == i,
                forall|m: int| 0 <= m < i ==> #[trigger] words@[m] == binding_word(self.bindings@[m]),
            decreases self.bindings.len() - i,
        {
            let b = self.bindings[i];
            let w = (b.binding as i32) | (b.descriptor_type << 8u32) | ((b.descriptor_count as i32) << 16u32) | ((b.stage_flags as i32) << 24u32);
            words.push(w);
            i = i + 1;
        }
        words
    }
}

/// A cached layout.
#[derive(Debug)]
pub struct CacheEntry {
    pub info: DescriptorLayoutInfo,
    /// Raw handle of the layout
    pub layout: u64,
}

/// What a lookup in the cache found.
#[derive(Debug)]
pub enum LayoutLookup {
    /// The layout was created before
    Cached(u64),
    /// No layout has these bindings yet: it is to be created and inserted
    Create(DescriptorLayoutInfo),
}

/// The layouts created so far, one per description. They are held in a
/// vector searched in order, whose entries are kept distinct: a hash map
/// keyed by descriptions would need a model of their hashing and equality
/// that the verifier cannot be given for this type.
pub struct DescriptorLayoutCache {
    pub entries: Vec<CacheEntry>,
}

impl DescriptorLayoutCache {
    /// The cache as a map from bindings to layout handles.
    pub open spec fn view(&self) -> Map<Seq<LayoutBinding>, u64> {
        Map::new(
            |k: Seq<LayoutBinding>| exists|i: int| 0 <= i < self.entries.len() && (#[trigger] self.entries@[i]).info.bindings@ == k,
            |k: Seq<LayoutBinding>| self.entries@[choose|i: int| 0 <= i < self.entries.len() && (#[trigger] self.entries@[i]).info.bindings@ == k].layout,
        )
    }

    /// Well-formed: no two entries have the same bindings.
    pub open spec fn wf(&self) -> bool {
        forall|i: int, j: int| 0 <= i < j < self.entries.len() ==>
            (#[trigger] self.entries@[i]).info.bindings@ != (#[trigger] self.entries@[j]).info.bindings@
    }

    /// An empty cache.
    pub fn new() -> (c: DescriptorLayoutCache)
        ensures
            c.wf(),
            c@ == Map::<Seq<LayoutBinding>, u64>::empty(),
    {
        let c = DescriptorLayoutCache { entries: Vec::new() };
        assert(c@ =~= Map::<Seq<LayoutBinding>, u64>::empty());
        c
    }

    /// The layout cached for a description, if any.
    pub fn get(&self, info: &DescriptorLayoutInfo) -> (r: Option<u64>)
        requires
            self.wf(),
        ensures
            self@.contains_key(info.bindings@) ==> r == Some(self@[info.bindings@]),
            !self@.contains_key(info.bindings@) ==> r is None,
    {
        let mut i: usize = 0;
        while i < self.entries.len()
            invariant
                self.wf(),
                i <= self.entries.len(),
                forall|m: int| 0 <= m < i ==> (#[trigger] self.entries@[m]).info.bindings@ != info.bindings@,
            decreases self.entries.len() - i,
        {
            if self.entries[i].info.same_as(info) {
                proof {
                    let k = info.bindings@;
                    assert(self@.contains_key(k));
                    let c = choose|c: int| 0 <= c < self.entries.len() && (#[trigger] self.entries@[c]).info.bindings@ == k;
                    if c != i as int {
                        if c < i {
                        } else {
                            assert(self.entries@[i as int].info.bindings@ != self.entries@[c].info.bindings@);
                        }
                    }
                }
                return Some(self.entries[i].layout);
            }
            i = i + 1;
        }
        None
    }

    /// Records the layout created for a description not cached yet.
    pub fn insert(&mut self, info: DescriptorLayoutInfo, layout: u64)
        requires
            old(self).wf(),
            !old(self)@.contains_key(info.bindings@),
        ensures
            final(self).wf(),
            final(self)@ == old(self)@.insert(info.bindings@, layout),
    {
        let ghost k = info.bindings@;
        let ghost before = self.entries@;
        self.entries.push(CacheEntry { info, layout });
        proof {
            let n = before.len() as int;
            assert(self.entries@[n].info.bindings@ == k);
            assert forall|i: int| 0 <= i < n implies (#[trigger] self.entries@[i]) == before[i] by {}
            assert forall|kk: Seq<LayoutBinding>| #[trigger] self@.contains_key(kk) == old(self)@.insert(k, layout).contains_key(kk) by {
                if old(self)@.contains_key(kk) {
                    let c = choose|c: int| 0 <= c < before.len() && (#[trigger] before[c]).info.bindings@ == kk;
                    assert(self.entries@[c].info.bindings@ == kk);
                }
                if self@.contains_key(kk) && kk != k {
                    let c = choose|c: int| 0 <= c < self.entries.len() && (#[trigger] self.entries@[c]).info.bindings@ == kk;
                    assert(c < n);
                    assert(before[c].info.bindings@ == kk);
                }
            }
            assert forall|kk: Seq<LayoutBinding>| #[trigger] self@.contains_key(kk) implies self@[kk] == old(self)@.insert(k, layout)[kk] by {
                let c = choose|c: int| 0 <= c < self.entries.len() && (#[trigger] self.entries@[c]).info.bindings@ == kk;
                if kk == k {
                    if c < n {
                        assert(before[c].info.bindings@ == k);
                        assert(old(self)@.contains_key(k));
                    }
                } else {
                    assert(c < n);
                    let d = choose|d: int| 0 <= d < before.len() && (#[trigger] before[d]).info.bindings@ == kk;
                    if c != d {
                        assert(before[c].info.bindings@ == before[d].info.bindings@);
                        if c < d {
                        } else {
                        }
                    }
                }
            }
            assert(self@ =~= old(self)@.insert(k, layout));
        }
    }

    /// Looks up the layout for the bindings given: the cached one where a
    /// layout with the same description was created before, else the
    /// description of the layout to create.
    pub fn lookup(&self, bindings: &[LayoutBinding]) -> (r: LayoutLookup)
        requires
            self.wf(),
        ensures
            lookup_outcome(self@, bindings@, r),
    {
        let info = DescriptorLayoutInfo::new(bindings);
        match self.get(&info) {
            Some(l) => LayoutLookup::Cached(l),
            None => LayoutLookup::Create(info),
        }
    }
}

/// What a lookup of the bindings in a cache answers: the cached layout of
/// their description, or the description of the layout to create.
pub open spec fn lookup_outcome(cache: Map<Seq<LayoutBinding>, u64>, bindings: Seq<LayoutBinding>, r: LayoutLookup) -> bool {
    match r {
        LayoutLookup::Cached(l) => exists|d: Seq<LayoutBinding>| described_as(bindings, d)
            && cache.contains_key(d) && cache[d] == l,
        LayoutLookup::Create(info) => described_as(bindings, info.bindings@)
            && !cache.contains_key(info.bindings@),
    }
}

/// Asked again for the same bindings, the cache answers with the layout
/// inserted for their description instead of asking for a new one.
pub proof fn lemma_lookup_finds_inserted(
    before: Map<Seq<LayoutBinding>, u64>,
    bindings: Seq<LayoutBinding>,
    info: Seq<LayoutBinding>,
    layout: u64,
    r: LayoutLookup,
)
    requires
        described_as(bindings, info),
        lookup_outcome(before.insert(info, layout), bindings, r),
    ensures
        r matches LayoutLookup::Cached(l) && l == layout,
{
    let after = before.insert(info, layout);
    match r {
        LayoutLookup::Cached(l) => {
            let d = choose|d: Seq<LayoutBinding>| described_as(bindings, d) && after.contains_key(d) && after[d] == l;
            lemma_description_unique(bindings, d, info);
        },
        LayoutLookup::Create(created) => {
            lemma_description_unique(bindings, created.bindings@, info);
            assert(after.contains_key(info));
        },
    }
}

/// Bindings given in another order, where the bindings of each number keep
/// their relative order, find the layout cached for the first order.
pub proof fn lemma_reordered_lookup_finds_same(
    cache: Map<Seq<LayoutBinding>, u64>,
    b1: Seq<LayoutBinding>,
    b2: Seq<LayoutBinding>,
    d1: Seq<LayoutBinding>,
    r: LayoutLookup,
)
    requires
        same_bindings_per_number(b1, b2),
        described_as(b1, d1),
        cache.contains_key(d1),
        lookup_outcome(cache, b2, r),
    ensures
        r matches LayoutLookup::Cached(l) && l == cache[d1],
{
    match r {
        LayoutLookup::Cached(l) => {
            let d = choose|d: Seq<LayoutBinding>| described_as(b2, d) && cache.contains_key(d) && cache[d] == l;
            lemma_reordered_same_description(b1, b2, d1, d);
        },
        LayoutLookup::Create(created) => {
            lemma_reordered_same_description(b1, b2, d1, created.bindings@);
        },
    }
}

/// A layout inserted under a description is what a later lookup of that
/// description finds; other descriptions keep what they had.
pub proof fn lemma_insert_then_get(before: Map<Seq<LayoutBinding>, u64>, k: Seq<LayoutBinding>, layout: u64, other: Seq<LayoutBinding>)
    ensures
        before.insert(k, layout).contains_key(k) && before.insert(k, layout)[k] == layout,
        other != k ==> before.insert(k, layout).contains_key(other) == before.contains_key(other),
        other != k && before.contains_key(other) ==> before.insert(k, layout)[other] == before[other],
{
}

} // verus!
