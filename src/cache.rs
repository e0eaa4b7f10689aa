use crate::color::{color_key, key_of, lemma_key_injective, Rgb};
use std::collections::HashMap;
use vstd::prelude::*;

verus! {

broadcast use vstd::std_specs::hash::group_hash_axioms;

/// A memo of colors already mapped, keyed by the color they were mapped from.
pub struct ColorCache {
    map: HashMap<u32, Rgb>,
}

impl View for ColorCache {
    type V = Map<Rgb, Rgb>;

    closed spec fn view(&self) -> Map<Rgb, Rgb> {
        Map::new(
            |c: Rgb| self.map@.contains_key(key_of(c) as u32),
            |c: Rgb| self.map@[key_of(c) as u32],
        )
    }
}

/// One cached lookup of `c` in a memo `m`: a stored color is returned and
/// the memo kept; otherwise `fresh` is stored and returned.
pub open spec fn lookup(m: Map<Rgb, Rgb>, c: Rgb, fresh: Rgb) -> (Map<Rgb, Rgb>, Rgb) {
    if m.contains_key(c) {
        (m, m[c])
    } else {
        (m.insert(c, fresh), fresh)
    }
}

/// Every color stored in `m` is what `f` maps its key to.
pub open spec fn agrees(m: Map<Rgb, Rgb>, f: spec_fn(Rgb) -> Rgb) -> bool {
    forall|c: Rgb| #[trigger] m.contains_key(c) ==> m[c] == f(c)
}

/// Every color stored in `m` is one that `resolve` may return for its key.
pub open spec fn faithful<F: Fn(Rgb) -> Rgb>(m: Map<Rgb, Rgb>, resolve: F) -> bool {
    forall|c: Rgb| #[trigger] m.contains_key(c) ==> resolve.ensures((c,), m[c])
}

/// Looking a color up again returns what the first lookup returned, and
/// leaves the memo as the first lookup left it, whatever would have been
/// computed the second time.
pub proof fn lemma_lookup_repeats(m: Map<Rgb, Rgb>, c: Rgb, first: Rgb, second: Rgb)
    ensures
        lookup(lookup(m, c, first).0, c, second) == lookup(m, c, first),
{
}

/// A memo that holds only values of `f` answers every lookup with the value
/// of `f`, and still holds only values of `f` afterwards.
pub proof fn lemma_lookup_agrees(m: Map<Rgb, Rgb>, c: Rgb, f: spec_fn(Rgb) -> Rgb)
    requires
        agrees(m, f),
    ensures
        lookup(m, c, f(c)).1 == f(c),
        agrees(lookup(m, c, f(c)).0, f),
{
}

impl ColorCache {
    /// An empty memo.
    pub fn new() -> (r: ColorCache)
        ensures
            r@ == Map::<Rgb, Rgb>::empty(),
    {
        let r = ColorCache { map: HashMap::new() };
        assert(r@ =~= Map::<Rgb, Rgb>::empty());
        r
    }

    /// The color stored for `c`, if any.
    pub fn get(&self, c: Rgb) -> (r: Option<Rgb>)
        ensures
            r == (if self@.contains_key(c) { Some(self@[c]) } else { None::<Rgb> }),
    {
        let k = color_key(c);
        match self.map.get(&k) {
            Some(v) => Some(*v),
            None => None,
        }
    }

    /// Stores `v` as the color for `c`.
    pub fn insert(&mut self, c: Rgb, v: Rgb)
        ensures
            final(self)@ == old(self)@.insert(c, v),
    {
        let k = color_key(c);
        self.map.insert(k, v);
        proof {
            assert forall|d: Rgb| #[trigger] final(self)@.contains_key(d) == old(self)@.insert(c, v).contains_key(d)
                && (final(self)@.contains_key(d) ==> final(self)@[d] == old(self)@.insert(c, v)[d]) by {
                if key_of(d) == key_of(c) {
                    lemma_key_injective(d, c);
                }
            }
            assert(final(self)@ =~= old(self)@.insert(c, v));
        }
    }

    /// The color stored for `c`; on a miss, the result of `compute`, which
    /// is stored first.
    pub fn get_or_compute<F: FnOnce() -> Rgb>(&mut self, c: Rgb, compute: F) -> (r: Rgb)
        requires
            compute.requires(()),
        ensures
            (final(self)@, r) == lookup(old(self)@, c, r),
            !old(self)@.contains_key(c) ==> compute.ensures((), r),
    {
        match self.get(c) {
            Some(v) => v,
            None => {
                let v = compute();
                self.insert(c, v);
                v
            },
        }
    }
}

/// Maps every pixel through `resolve`, in order, consulting and filling
/// the memo so that each distinct color is resolved at most once.
pub fn map_pixels<F: Fn(Rgb) -> Rgb>(cache: &mut ColorCache, pixels: &[Rgb], resolve: &F) -> (out: Vec<Rgb>)
    requires
        forall|c: Rgb| resolve.requires((c,)),
        faithful(old(cache)@, *resolve),
    ensures
        out@.len() == pixels@.len(),
        forall|i: int| 0 <= i < pixels@.len() ==> resolve.ensures((pixels@[i],), #[trigger] out@[i]),
        faithful(final(cache)@, *resolve),
        old(cache)@.submap_of(final(cache)@),
{
    let mut out: Vec<Rgb> = Vec::new();
    let mut i: usize = 0;
    while i < pixels.len()
        invariant
            i <= pixels@.len(),
            out@.len() == i,
            forall|c: Rgb| resolve.requires((c,)),
            faithful(cache@, *resolve),
            old(cache)@.submap_of(cache@),
            forall|m: int| 0 <= m < i ==> resolve.ensures((pixels@[m],), #[trigger] out@[m]),
        decreases pixels@.len() - i,
    {
        let c = pixels[i];
        let v = match cache.get(c) {
            Some(v) => v,
            None => {
                let v = resolve(c);
                cache.insert(c, v);
                v
            },
        };
        out.push(v);
        i = i + 1;
    }
    out
}

} // verus!
