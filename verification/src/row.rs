use crate::grapheme::grapheme_clusters;
use crate::grapheme::graphemes_of;
use vstd::prelude::*;

verus! {

broadcast use vstd::seq::Seq::group_seq_flatten;

/// A cluster as the viewer draws it: a tab becomes a single space, every
/// other cluster is drawn as it is.
pub open spec fn drawn_cluster(g: Seq<char>) -> Seq<char> {
    if g == seq!['\t'] {
        seq![' ']
    } else {
        g
    }
}

/// The clusters that a render window `[start, end)` selects: `end` is
/// clamped to the cluster count, then `start` to `end`, so out-of-range
/// windows select a shorter range instead of failing.
pub open spec fn window_clusters(gs: Seq<Seq<char>>, start: int, end: int) -> Seq<Seq<char>> {
    let e = if end <= gs.len() {
        end
    } else {
        gs.len() as int
    };
    let s = if start <= e {
        start
    } else {
        e
    };
    gs.subrange(s, e)
}

/// The text a render window produces: the selected clusters, each drawn,
/// concatenated.
pub open spec fn rendered(gs: Seq<Seq<char>>, start: int, end: int) -> Seq<char> {
    window_clusters(gs, start, end).map_values(|g: Seq<char>| drawn_cluster(g)).flatten()
}

/// One line of text, with a cached grapheme-cluster count.
pub struct Row {
    text: String,
    len: usize,
}

impl View for Row {
    type V = Seq<Seq<char>>;

    /// A row is modelled as its sequence of grapheme clusters.
    closed spec fn view(&self) -> Seq<Seq<char>> {
        graphemes_of(self.text@)
    }
}

impl Row {
    #[verifier::type_invariant]
    spec fn inv(self) -> bool {
        &&& self.len == self@.len()
        &&& (self.len == 0 <==> self.text@.len() == 0)
    }

    /// The row's text as the character sequence it owns; the concatenation
    /// of its grapheme clusters.
    pub closed spec fn content(&self) -> Seq<char> {
        self.text@
    }

    /// Builds a row over the given text and caches its cluster count.
    pub fn new(text: &str) -> (r: Row)
        ensures
            r@ == graphemes_of(text@),
            r.content() == text@,
    {
        let clusters = grapheme_clusters(text);
        Row { text: text.to_owned(), len: clusters.len() }
    }

    /// The number of grapheme clusters in the row (not its byte length).
    pub fn len(&self) -> (n: usize)
        ensures
            n == self@.len(),
    {
        proof {
            use_type_invariant(self);
        }
        self.len
    }

    /// Whether the row holds no text at all.
    pub fn is_empty(&self) -> (b: bool)
        ensures
            b == (self@.len() == 0),
            b == (self.content().len() == 0),
    {
        proof {
            use_type_invariant(self);
        }
        self.len == 0
    }

    /// The visible text for grapheme-cluster columns `[start, end)`, with
    /// each tab drawn as a single space.  Out-of-range windows are clamped,
    /// so the call never fails.  A row with no tab cluster renders, over any
    /// window holding all of it from the start, to its own text verbatim.
    pub fn render(&self, start: usize, end: usize) -> (r: String)
        ensures
            r@ == rendered(self@, start as int, end as int),
            ((forall|i: int| 0 <= i < self@.len() ==> #[trigger] self@[i] != seq!['\t']) && start
                == 0 && self@.len() <= end) ==> r@ == self.content(),
    {
        let clusters = grapheme_clusters(self.text.as_str());
        let end_c = if end <= clusters.len() {
            end
        } else {
            clusters.len()
        };
        let start_c = if start <= end_c {
            start
        } else {
            end_c
        };
        let ghost gs = self@;
        let mut result = String::new();
        let mut i = start_c;
        proof {
            assert(gs.subrange(start_c as int, i as int).map_values(
                |g: Seq<char>| drawn_cluster(g),
            ) =~= Seq::<Seq<char>>::empty());
            assert(Seq::<Seq<char>>::empty().flatten() =~= Seq::<char>::empty());
        }
        while i < end_c
            invariant
                start_c <= i <= end_c <= clusters.len(),
                clusters@.len() == gs.len(),
                forall|j: int| 0 <= j < gs.len() ==> clusters@[j]@ == gs[j],
                result@ == gs.subrange(start_c as int, i as int).map_values(
                    |g: Seq<char>| drawn_cluster(g),
                ).flatten(),
            decreases end_c - i,
        {
            let cluster = &clusters[i];
            let cluster_str = cluster.as_str();
            let is_tab = cluster_str.unicode_len() == 1 && cluster_str.get_char(0) == '\t';
            let ghost before = gs.subrange(start_c as int, i as int).map_values(
                |g: Seq<char>| drawn_cluster(g),
            );
            if is_tab {
                proof {
                    reveal_strlit(" ");
                    assert(cluster@ =~= seq!['\t']);
                    assert(" "@ =~= seq![' ']);
                }
                result.append(" ");
            } else {
                proof {
                    assert(cluster@ != seq!['\t']) by {
                        if cluster@ == seq!['\t'] {
                            assert(cluster@.len() == 1 && cluster@[0] == '\t');
                        }
                    }
                }
                result.append(cluster_str);
            }
            proof {
                assert(gs.subrange(start_c as int, i + 1).map_values(
                    |g: Seq<char>| drawn_cluster(g),
                ) =~= before.push(drawn_cluster(gs[i as int]))) by {
                    assert(gs.subrange(start_c as int, i + 1) =~= gs.subrange(
                        start_c as int,
                        i as int,
                    ).push(gs[i as int]));
                }
                assert(result@ =~= before.push(drawn_cluster(gs[i as int])).flatten());
            }
            i = i + 1;
        }
        proof {
            assert(gs.subrange(start_c as int, end_c as int) =~= window_clusters(
                gs,
                start as int,
                end as int,
            ));
            if (forall|j: int| 0 <= j < gs.len() ==> #[trigger] gs[j] != seq!['\t']) && start == 0
                && gs.len() <= end {
                let mapped = gs.map_values(|g: Seq<char>| drawn_cluster(g));
                assert(gs.subrange(start_c as int, end_c as int) =~= gs);
                assert(mapped =~= gs) by {
                    assert(forall|j: int| 0 <= j < gs.len() ==> mapped[j] == gs[j]);
                }
                assert(clusters@.map_values(|g: String| g@) =~= gs);
                assert(result@ == self.text@);
            }
        }
        result
    }
}

/// Rendering the full window `[0, len)` draws exactly one cluster for every
/// grapheme cluster of the row, in order: each tab cluster as a single
/// space and every other cluster unchanged.
pub proof fn lemma_render_full(gs: Seq<Seq<char>>)
    ensures
        rendered(gs, 0, gs.len() as int) == gs.map_values(|g: Seq<char>| drawn_cluster(g)).flatten(),
        gs.map_values(|g: Seq<char>| drawn_cluster(g)).len() == gs.len(),
        forall|i: int|
            0 <= i < gs.len() ==> gs.map_values(|g: Seq<char>| drawn_cluster(g))[i]
                == drawn_cluster(gs[i]),
{
    assert(window_clusters(gs, 0, gs.len() as int) =~= gs);
}

/// However far a window `[start, end)` reaches beyond the row, the clusters
/// it draws are a clamped sub-range of the row's clusters, never more of
/// them than the row holds.
pub proof fn lemma_render_window(gs: Seq<Seq<char>>, start: int, end: int)
    requires
        0 <= start,
        0 <= end,
    ensures
        rendered(gs, start, end) == window_clusters(gs, start, end).map_values(
            |g: Seq<char>| drawn_cluster(g),
        ).flatten(),
        window_clusters(gs, start, end).len() <= gs.len(),
{
}

} // verus!
