//! A format string whose data parts are rendered later, by a function given
//! at formatting time.

use vstd::prelude::*;
use crate::text::{push_str, to_string};

verus! {

/// One part of a delayed format string.
pub enum Part<T> {
    /// Literal text.
    String(String),
    /// A value rendered by the formatting function.
    Data(T),
    /// Values rendered by the formatting function, with a separator between.
    Join(Vec<T>, String),
}

/// `xs` joined with `sep` between consecutive elements.
pub open spec fn join_seqs(xs: Seq<Seq<char>>, sep: Seq<char>) -> Seq<char>
    decreases xs.len(),
{
    if xs.len() == 0 {
        Seq::empty()
    } else if xs.len() == 1 {
        xs[0]
    } else {
        join_seqs(xs.drop_last(), sep) + sep + xs.last()
    }
}

/// The text of part `p` when data is rendered by `g`.
pub open spec fn render_part<T>(p: Part<T>, g: spec_fn(T) -> Seq<char>) -> Seq<char> {
    match p {
        Part::String(s) => s@,
        Part::Data(d) => g(d),
        Part::Join(v, sep) => join_seqs(v@.map_values(g), sep@),
    }
}

/// The text of the first `n` parts when data is rendered by `g`.
pub open spec fn render_parts<T>(parts: Seq<Part<T>>, n: nat, g: spec_fn(T) -> Seq<char>) -> Seq<char>
    decreases n,
{
    if n == 0 || n > parts.len() {
        Seq::empty()
    } else {
        render_parts(parts, (n - 1) as nat, g) + render_part(parts[n - 1], g)
    }
}

/// The values that part `p` hands to the formatting function, in order.
pub open spec fn part_items<T>(p: Part<T>) -> Seq<T> {
    match p {
        Part::String(_) => Seq::empty(),
        Part::Data(d) => seq![d],
        Part::Join(v, _) => v@,
    }
}

/// The values that the first `n` parts hand to the formatting function, in
/// order.
pub open spec fn items_of<T>(parts: Seq<Part<T>>, n: nat) -> Seq<T>
    decreases n,
{
    if n == 0 || n > parts.len() {
        Seq::empty()
    } else {
        items_of(parts, (n - 1) as nat) + part_items(parts[n - 1])
    }
}

/// The text of part `p`, given the texts `outs` of its values in order.
pub open spec fn render_part_with<T>(p: Part<T>, outs: Seq<Seq<char>>) -> Seq<char> {
    match p {
        Part::String(s) => s@,
        Part::Data(_) => outs[0],
        Part::Join(_, sep) => join_seqs(outs, sep@),
    }
}

/// The text of the first `n` parts, given the texts `outs` of the values
/// they hand out, in order.
pub open spec fn render_parts_with<T>(parts: Seq<Part<T>>, n: nat, outs: Seq<Seq<char>>) -> Seq<char>
    decreases n,
{
    if n == 0 || n > parts.len() {
        Seq::empty()
    } else {
        let k = items_of(parts, (n - 1) as nat).len();
        render_parts_with(parts, (n - 1) as nat, outs)
            + render_part_with(parts[n - 1], outs.subrange(k as int, (k + part_items(parts[n - 1]).len()) as int))
    }
}

/// The texts of the strings.
pub open spec fn string_views(outs: Seq<String>) -> Seq<Seq<char>> {
    outs.map_values(|s: String| s@)
}

/// The values of fewer parts come first among those of more parts.
proof fn lemma_items_prefix<T>(parts: Seq<Part<T>>, n: nat, m: nat)
    requires
        n <= m <= parts.len(),
    ensures
        items_of(parts, n).len() <= items_of(parts, m).len(),
        items_of(parts, m).subrange(0, items_of(parts, n).len() as int) == items_of(parts, n),
    decreases m,
{
    if n < m {
        lemma_items_prefix(parts, n, (m - 1) as nat);
        let a = items_of(parts, (m - 1) as nat);
        assert((a + part_items(parts[m - 1])).subrange(0, items_of(parts, n).len() as int)
            =~= a.subrange(0, items_of(parts, n).len() as int));
    } else {
        assert(items_of(parts, m).subrange(0, items_of(parts, m).len() as int) =~= items_of(parts, m));
    }
}

/// The text of the first `n` parts depends only on the texts of their own
/// values.
proof fn lemma_render_prefix<T>(parts: Seq<Part<T>>, n: nat, a: Seq<Seq<char>>, b: Seq<Seq<char>>)
    requires
        n <= parts.len(),
        a.len() >= items_of(parts, n).len(),
        b.len() >= items_of(parts, n).len(),
        a.subrange(0, items_of(parts, n).len() as int) == b.subrange(0, items_of(parts, n).len() as int),
    ensures
        render_parts_with(parts, n, a) == render_parts_with(parts, n, b),
    decreases n,
{
    if n > 0 {
        let k = items_of(parts, (n - 1) as nat).len();
        let l = items_of(parts, n).len();
        assert(l == k + part_items(parts[n - 1]).len());
        assert(a.subrange(0, k as int) =~= a.subrange(0, l as int).subrange(0, k as int));
        assert(b.subrange(0, k as int) =~= b.subrange(0, l as int).subrange(0, k as int));
        lemma_render_prefix(parts, (n - 1) as nat, a, b);
        assert(a.subrange(k as int, l as int) =~= a.subrange(0, l as int).subrange(k as int, l as int));
        assert(b.subrange(k as int, l as int) =~= b.subrange(0, l as int).subrange(k as int, l as int));
    }
}

/// Whether every string that `f` returns for a value `t` is `g(t)`.
pub open spec fn renders_as<T, F: Fn(&T) -> String>(f: F, g: spec_fn(T) -> Seq<char>) -> bool {
    forall|t: &T, s: String| #[trigger] f.ensures((t,), s) ==> s@ == g(*t)
}

/// A format string made of literal text and values, rendered when a
/// formatting function is at hand.
pub struct DelayedFormatString<T> {
    parts: Vec<Part<T>>,
}

impl<T> View for DelayedFormatString<T> {
    type V = Seq<Part<T>>;

    closed spec fn view(&self) -> Seq<Part<T>> {
        self.parts@
    }
}

impl<T> DelayedFormatString<T> {
    pub fn new() -> (r: Self)
        ensures
            r@ == Seq::<Part<T>>::empty(),
    {
        DelayedFormatString { parts: Vec::new() }
    }

    /// Add a value.
    pub fn push(&mut self, part: T)
        ensures
            final(self)@ == old(self)@.push(Part::Data(part)),
    {
        self.parts.push(Part::Data(part));
    }

    /// Add literal text.
    pub fn push_str(&mut self, part: &str)
        ensures
            final(self)@.len() == old(self)@.len() + 1,
            final(self)@.drop_last() == old(self)@,
            final(self)@.last() matches Part::String(s) && s@ == part@,
    {
        self.parts.push(Part::String(to_string(part)));
        assert(self@.drop_last() =~= old(self)@);
    }

    /// Add values to be joined with `part` between them.
    pub fn push_join(&mut self, collection: Vec<T>, part: &str)
        ensures
            final(self)@.len() == old(self)@.len() + 1,
            final(self)@.drop_last() == old(self)@,
            final(self)@.last() matches Part::Join(v, sep) && v@ == collection@ && sep@ == part@,
    {
        self.parts.push(Part::Join(collection, to_string(part)));
        assert(self@.drop_last() =~= old(self)@);
    }

    /// The text, with each value rendered by `f`: the parts in order, a
    /// literal as itself, a value as what `f` returned for it, and joined
    /// values as what `f` returned for each, with the separator between.
    /// `f` is called on the values in order, and its results are strings
    /// that its contract allows for them. Where `f` agrees with a spec
    /// function `g`, the text is the parts rendered by `g`.
    pub fn format<F: Fn(&T) -> String>(&self, f: F) -> (r: String)
        requires
            forall|t: &T| #[trigger] f.requires((t,)),
        ensures
            exists|outs: Seq<String>| {
                &&& outs.len() == items_of(self@, self@.len()).len()
                &&& forall|k: int| 0 <= k < outs.len() ==>
                    f.ensures((&items_of(self@, self@.len())[k],), #[trigger] outs[k])
                &&& r@ == render_parts_with(self@, self@.len(), string_views(outs))
            },
            forall|g: spec_fn(T) -> Seq<char>|
                renders_as::<T, F>(f, g) ==> r@ == #[trigger] render_parts(self@, self@.len(), g),
    {
        let ghost all = items_of(self@, self@.len());
        let mut result = String::new();
        let ghost mut outs: Seq<String> = Seq::empty();
        let mut i: usize = 0;
        while i < self.parts.len()
            invariant
                i <= self@.len(),
                all == items_of(self@, self@.len()),
                forall|t: &T| #[trigger] f.requires((t,)),
                outs.len() == items_of(self@, i as nat).len(),
                forall|k: int| 0 <= k < outs.len() ==> f.ensures((&all[k],), #[trigger] outs[k]),
                result@ == render_parts_with(self@, i as nat, string_views(outs)),
                forall|g: spec_fn(T) -> Seq<char>|
                    renders_as::<T, F>(f, g) ==> result@ == #[trigger] render_parts(self@, i as nat, g),
            decreases self@.len() - i,
        {
            let ghost before = result@;
            let ghost outs0 = outs;
            let ghost base = outs0.len();
            proof {
                lemma_items_prefix(self@, (i + 1) as nat, self@.len());
                assert(items_of(self@, (i + 1) as nat) == items_of(self@, i as nat) + part_items(self@[i as int]));
            }
            match &self.parts[i] {
                Part::String(s) => {
                    push_str(&mut result, s.as_str());
                    proof {
                        assert forall|g: spec_fn(T) -> Seq<char>|
                            renders_as::<T, F>(f, g) implies result@ == #[trigger] render_parts(self@, i as nat + 1, g) by {
                            assert(before == render_parts(self@, i as nat, g));
                        }
                    }
                },
                Part::Data(d) => {
                    let s = f(d);
                    push_str(&mut result, s.as_str());
                    proof {
                        assert(all.subrange(0, items_of(self@, (i + 1) as nat).len() as int)[base as int] == *d);
                        outs = outs.push(s);
                        assert forall|g: spec_fn(T) -> Seq<char>|
                            renders_as::<T, F>(f, g) implies result@ == #[trigger] render_parts(self@, i as nat + 1, g) by {
                            assert(before == render_parts(self@, i as nat, g));
                            assert(f.ensures((d,), s));
                        }
                    }
                },
                Part::Join(collection, sep) => {
                    let ghost start = result@;
                    proof {
                        let pre = items_of(self@, (i + 1) as nat);
                        assert(pre == items_of(self@, i as nat) + collection@);
                        assert forall|k: int| 0 <= k < collection@.len() implies all[base + k] == collection@[k] by {
                            assert(all.subrange(0, pre.len() as int)[base + k] == pre[base + k]);
                        }
                    }
                    let mut j: usize = 0;
                    while j < collection.len()
                        invariant
                            j <= collection@.len(),
                            all == items_of(self@, self@.len()),
                            forall|t: &T| #[trigger] f.requires((t,)),
                            outs.len() == base + j,
                            outs.subrange(0, base as int) == outs0,
                            base + collection@.len() <= all.len(),
                            forall|k: int| 0 <= k < collection@.len() ==> all[base + k] == collection@[k],
                            forall|k: int| 0 <= k < outs.len() ==> f.ensures((&all[k],), #[trigger] outs[k]),
                            result@ == start + join_seqs(string_views(outs).subrange(base as int, base + j), sep@),
                            forall|g: spec_fn(T) -> Seq<char>|
                                renders_as::<T, F>(f, g) ==> result@ == start + #[trigger] join_seqs(collection@.take(j as int).map_values(g), sep@),
                        decreases collection@.len() - j,
                    {
                        let s = f(&collection[j]);
                        let ghost mid = result@;
                        let ghost outs1 = outs;
                        if j > 0 {
                            push_str(&mut result, sep.as_str());
                        }
                        push_str(&mut result, s.as_str());
                        proof {
                            outs = outs.push(s);
                            assert(outs.subrange(0, base as int) =~= outs1.subrange(0, base as int));
                            assert(all[base + j] == collection@[j as int]);
                            let ys = string_views(outs).subrange(base as int, base + j + 1);
                            assert(ys.drop_last() =~= string_views(outs1).subrange(base as int, base + j));
                            assert(ys.last() == s@);
                            if j == 0 {
                                assert(join_seqs(ys, sep@) == ys[0]);
                                assert(string_views(outs1).subrange(base as int, base + j) =~= Seq::<Seq<char>>::empty());
                                assert(result@ =~= start + join_seqs(ys, sep@));
                            } else {
                                assert(join_seqs(ys, sep@) == join_seqs(ys.drop_last(), sep@) + sep@ + ys.last());
                                assert(result@ =~= start + join_seqs(ys, sep@));
                            }
                            assert forall|g: spec_fn(T) -> Seq<char>|
                                renders_as::<T, F>(f, g) implies result@ == start + #[trigger] join_seqs(collection@.take(j + 1).map_values(g), sep@) by {
                                let xs = collection@.take(j + 1).map_values(g);
                                assert(xs.drop_last() =~= collection@.take(j as int).map_values(g));
                                assert(f.ensures((&collection@[j as int],), s));
                                assert(xs.last() == g(collection@[j as int]));
                                assert(mid == start + join_seqs(collection@.take(j as int).map_values(g), sep@));
                                if j == 0 {
                                    assert(join_seqs(xs, sep@) == xs[0]);
                                    assert(mid == start + join_seqs(collection@.take(0).map_values(g), sep@));
                                    assert(collection@.take(0).map_values(g) =~= Seq::<Seq<char>>::empty());
                                    assert(result@ =~= start + s@);
                                } else {
                                    assert(join_seqs(xs, sep@) == join_seqs(xs.drop_last(), sep@) + sep@ + xs.last());
                                    assert(result@ =~= mid + sep@ + s@);
                                }
                            }
                        }
                        j = j + 1;
                    }
                    proof {
                        assert(collection@.take(collection@.len() as int) =~= collection@);
                        assert forall|g: spec_fn(T) -> Seq<char>|
                            renders_as::<T, F>(f, g) implies result@ == #[trigger] render_parts(self@, i as nat + 1, g) by {
                            assert(before == render_parts(self@, i as nat, g));
                            assert(start == before);
                        }
                    }
                },
            }
            proof {
                let v0 = string_views(outs0);
                let v1 = string_views(outs);
                assert(outs.len() == items_of(self@, (i + 1) as nat).len());
                assert(v1.subrange(0, base as int) =~= v0.subrange(0, base as int));
                lemma_render_prefix(self@, i as nat, v1, v0);
                assert(render_parts_with(self@, (i + 1) as nat, v1) == render_parts_with(self@, i as nat, v1)
                    + render_part_with(self@[i as int], v1.subrange(base as int, outs.len() as int)));
            }
            let ghost i0 = i;
            i = i + 1;
            assert forall|g: spec_fn(T) -> Seq<char>|
                renders_as::<T, F>(f, g) implies result@ == #[trigger] render_parts(self@, i as nat, g) by {
                assert(render_parts(self@, i0 as nat + 1, g) == render_parts(self@, i as nat, g));
            }
        }
        proof {
            assert(all.len() == outs.len());
        }
        result
    }
}

} // verus!
