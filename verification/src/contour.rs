//! Grouping an outline's curve stream into contours and edges.
//!
//! Whether two neighbouring curves touch, and whether their directions
//! agree where they touch, is a comparison of coordinates within a
//! tolerance. The caller makes it and hands the outcome over as a `Joint`;
//! the grouping itself is decided here.

use crate::curve::Segment;
use vstd::prelude::*;

verus! {

/// How a curve of the stream meets the curve before it.
#[derive(Clone, Copy, Debug, PartialEq, Eq, Structural)]
pub enum Joint {
    /// It does not start where the curve before it ends.
    Apart,
    /// It starts where the curve before it ends, in another direction.
    Corner,
    /// It starts where the curve before it ends and goes on in its direction.
    Smooth,
}

/// A curve of the stream with its joint to the curve before it. The joint of
/// the first curve of a stream says nothing and is not read.
#[derive(Clone, Copy, Debug, PartialEq, Eq, Structural)]
pub struct Link {
    pub joint: Joint,
    pub segment: Segment,
}

/// A run of curves without a corner.
#[derive(Clone, Debug)]
pub struct Edge {
    pub segments: Vec<Segment>,
}

/// A run of edges whose curves follow one another without a gap.
#[derive(Clone, Debug)]
pub struct Contour {
    pub edges: Vec<Edge>,
}

impl View for Edge {
    type V = Seq<Segment>;

    open spec fn view(&self) -> Seq<Segment> {
        self.segments@
    }
}

impl View for Contour {
    type V = Seq<Seq<Segment>>;

    open spec fn view(&self) -> Seq<Seq<Segment>> {
        Seq::new(self.edges@.len(), |i: int| self.edges@[i]@)
    }
}

/// The contours of `v`, each as its edges, each edge as its curves.
pub open spec fn contours_view(v: Seq<Contour>) -> Seq<Seq<Seq<Segment>>> {
    Seq::new(v.len(), |i: int| v[i]@)
}

/// The curves of `links`, in order.
pub open spec fn segments_of(links: Seq<Link>) -> Seq<Segment> {
    Seq::new(links.len(), |i: int| links[i].segment)
}

/// The grouping of a stream: the first curve opens the first edge of the
/// first contour; each later curve opens a new contour where it lies apart
/// from the curve before it, a new edge of the last contour at a corner,
/// and else joins the last edge.
pub open spec fn assembled(links: Seq<Link>) -> Seq<Seq<Seq<Segment>>>
    decreases links.len(),
{
    if links.len() == 0 {
        Seq::empty()
    } else if links.len() == 1 {
        seq![seq![seq![links[0].segment]]]
    } else {
        let before = assembled(links.drop_last());
        let next = links.last();
        match next.joint {
            Joint::Apart => before.push(seq![seq![next.segment]]),
            Joint::Corner => before.drop_last().push(before.last().push(seq![next.segment])),
            Joint::Smooth => before.drop_last().push(
                before.last().drop_last().push(before.last().last().push(next.segment)),
            ),
        }
    }
}

/// The curves of the edges `edges`, one edge after the other.
pub open spec fn edge_concat(edges: Seq<Seq<Segment>>) -> Seq<Segment>
    decreases edges.len(),
{
    if edges.len() == 0 {
        Seq::empty()
    } else {
        edge_concat(edges.drop_last()) + edges.last()
    }
}

/// The curves of the contours `contours`, one contour after the other.
pub open spec fn contour_concat(contours: Seq<Seq<Seq<Segment>>>) -> Seq<Segment>
    decreases contours.len(),
{
    if contours.len() == 0 {
        Seq::empty()
    } else {
        contour_concat(contours.drop_last()) + edge_concat(contours.last())
    }
}

/// No contour of `contours` is without an edge and no edge without a curve.
pub open spec fn all_inhabited(contours: Seq<Seq<Seq<Segment>>>) -> bool {
    forall|c: int, e: int|
        0 <= c < contours.len() && 0 <= e < contours[c].len() ==> contours[c].len() > 0
            && (#[trigger] contours[c][e]).len() > 0
}

/// How many of `links`, the first left out, open a new contour.
pub open spec fn gaps(links: Seq<Link>) -> nat
    decreases links.len(),
{
    if links.len() <= 1 {
        0
    } else {
        gaps(links.drop_last()) + if links.last().joint == Joint::Apart {
            1nat
        } else {
            0nat
        }
    }
}

/// A stream with a curve has a contour, its last contour has an edge, and
/// that edge has a curve; the contours are one more than the gaps.
pub proof fn law_assembled_shape(links: Seq<Link>)
    ensures
        links.len() == 0 ==> assembled(links).len() == 0,
        links.len() > 0 ==> assembled(links).len() == gaps(links) + 1,
        links.len() > 0 ==> assembled(links).last().len() > 0,
        links.len() > 0 ==> assembled(links).last().last().len() > 0,
        links.len() > 0 ==> assembled(links).last().last().last() == links.last().segment,
        forall|c: int| 0 <= c < assembled(links).len() ==> (#[trigger] assembled(links)[c]).len() > 0,
        all_inhabited(assembled(links)),
    decreases links.len(),
{
    if links.len() > 1 {
        law_assembled_shape(links.drop_last());
        let before = assembled(links.drop_last());
        let after = assembled(links);
        assert forall|c: int, e: int|
            0 <= c < after.len() && 0 <= e < after[c].len() implies after[c].len() > 0 && (
        #[trigger] after[c][e]).len() > 0 by {
            if c < before.len() - 1 {
                assert(after[c] == before[c]);
                assert(before[c][e].len() > 0);
            } else if c == before.len() - 1 && e < before[c].len() - 1 {
                assert(after[c][e] == before[c][e]);
                assert(before[c][e].len() > 0);
            } else if c == before.len() - 1 && e == before[c].len() - 1 && links.last().joint
                == Joint::Apart {
                assert(before[c][e].len() > 0);
            }
        }
    }
}

/// One edge alone is its own concatenation, and so is one contour.
proof fn lemma_concat_single(edge: Seq<Segment>, contour: Seq<Seq<Segment>>)
    ensures
        edge_concat(seq![edge]) == edge,
        contour_concat(seq![contour]) == edge_concat(contour),
{
    assert(seq![edge].drop_last() =~= Seq::empty());
    assert(edge_concat(Seq::<Seq<Segment>>::empty()) =~= Seq::empty());
    assert(edge_concat(seq![edge]) =~= edge);
    assert(seq![contour].drop_last() =~= Seq::empty());
    assert(contour_concat(Seq::<Seq<Seq<Segment>>>::empty()) =~= Seq::empty());
    assert(contour_concat(seq![contour]) =~= edge_concat(contour));
}

/// Appending to the last edge appends to the concatenation.
proof fn lemma_edge_concat_grow(edges: Seq<Seq<Segment>>, s: Segment)
    requires
        edges.len() > 0,
    ensures
        edge_concat(edges.drop_last().push(edges.last().push(s))) == edge_concat(edges).push(s),
        edge_concat(edges.push(seq![s])) == edge_concat(edges).push(s),
{
    let grown = edges.drop_last().push(edges.last().push(s));
    assert(grown.drop_last() =~= edges.drop_last());
    assert(edge_concat(grown) =~= edge_concat(edges).push(s));
    let more = edges.push(seq![s]);
    assert(more.drop_last() =~= edges);
    assert(edge_concat(more) =~= edge_concat(edges).push(s));
}

/// The grouping is a partition of the stream: the curves of all contours,
/// each contour edge by edge, are the curves of the stream in their order.
pub proof fn law_assembly_is_partition(links: Seq<Link>)
    ensures
        contour_concat(assembled(links)) == segments_of(links),
    decreases links.len(),
{
    if links.len() == 0 {
        assert(contour_concat(assembled(links)) =~= segments_of(links));
    } else if links.len() == 1 {
        lemma_concat_single(seq![links[0].segment], seq![seq![links[0].segment]]);
        assert(contour_concat(assembled(links)) =~= segments_of(links));
    } else {
        law_assembly_is_partition(links.drop_last());
        law_assembled_shape(links.drop_last());
        let before = assembled(links.drop_last());
        let after = assembled(links);
        let s = links.last().segment;
        assert(segments_of(links) =~= segments_of(links.drop_last()).push(s));
        match links.last().joint {
            Joint::Apart => {
                assert(after.drop_last() =~= before);
                lemma_concat_single(seq![s], seq![seq![s]]);
            },
            Joint::Corner => {
                assert(after.drop_last() =~= before.drop_last());
                lemma_edge_concat_grow(before.last(), s);
            },
            Joint::Smooth => {
                assert(after.drop_last() =~= before.drop_last());
                lemma_edge_concat_grow(before.last(), s);
            },
        }
        assert(contour_concat(after) =~= contour_concat(before).push(s));
    }
}


/// The edges of `v`, each as its curves.
pub open spec fn edges_view(v: Seq<Edge>) -> Seq<Seq<Segment>> {
    Seq::new(v.len(), |i: int| v[i]@)
}

/// Groups the stream `links` into contours and edges.
pub fn assemble(links: &Vec<Link>) -> (r: Vec<Contour>)
    ensures
        contours_view(r@) == assembled(links@),
{
    let mut done: Vec<Contour> = Vec::new();
    if links.len() == 0 {
        proof {
            assert(contours_view(done@) =~= assembled(links@));
        }
        return done;
    }
    let mut edges: Vec<Edge> = Vec::new();
    let mut run: Vec<Segment> = Vec::new();
    run.push(links[0].segment);
    let mut i: usize = 1;
    proof {
        assert(links@.take(1).len() == 1);
        assert(contours_view(done@).push(edges_view(edges@).push(run@)) =~~= assembled(
            links@.take(1),
        ));
    }
    while i < links.len()
        invariant
            1 <= i <= links@.len(),
            assembled(links@.take(i as int)) == contours_view(done@).push(
                edges_view(edges@).push(run@),
            ),
        decreases links@.len() - i,
    {
        let link = links[i];
        let ghost before = assembled(links@.take(i as int));
        let ghost d = contours_view(done@);
        let ghost e = edges_view(edges@);
        let ghost r = run@;
        proof {
            assert(links@.take(i as int + 1).drop_last() =~= links@.take(i as int));
            assert(links@.take(i as int + 1).last() == link);
            assert(before.drop_last() =~= d);
            assert(before.last() == e.push(r));
            assert(before.last().drop_last() =~= e);
            assert(before.last().last() == r);
        }
        match link.joint {
            Joint::Apart => {
                edges.push(Edge { segments: run });
                done.push(Contour { edges });
                edges = Vec::new();
                run = Vec::new();
                run.push(link.segment);
                proof {
                    assert(done@.last()@ =~= e.push(r));
                    assert(contours_view(done@) =~= before);
                    assert(edges_view(edges@).push(run@) =~~= seq![seq![link.segment]]);
                }
            },
            Joint::Corner => {
                edges.push(Edge { segments: run });
                run = Vec::new();
                run.push(link.segment);
                proof {
                    assert(edges_view(edges@) =~= e.push(r));
                    assert(run@ =~= seq![link.segment]);
                }
            },
            Joint::Smooth => {
                run.push(link.segment);
            },
        }
        i = i + 1;
    }
    proof {
        assert(links@.take(i as int) =~= links@);
    }
    let ghost e = edges_view(edges@);
    let ghost d = contours_view(done@);
    edges.push(Edge { segments: run });
    done.push(Contour { edges });
    proof {
        assert(done@.last()@ =~= e.push(run@));
        assert(contours_view(done@) =~= d.push(e.push(run@)));
    }
    done
}


/// Appending an edge to a contour appends its curves to the contour's.
proof fn lemma_edge_concat_push(edges: Seq<Seq<Segment>>, edge: Seq<Segment>)
    ensures
        edge_concat(edges.push(edge)) == edge_concat(edges) + edge,
{
    assert(edges.push(edge).drop_last() =~= edges);
}

/// Appending a contour appends its curves to those before it.
proof fn lemma_contour_concat_push(contours: Seq<Seq<Seq<Segment>>>, contour: Seq<Seq<Segment>>)
    ensures
        contour_concat(contours.push(contour)) == contour_concat(contours) + edge_concat(contour),
{
    assert(contours.push(contour).drop_last() =~= contours);
}

impl Contour {
    /// The curves of the contour, edge after edge.
    pub fn segments(&self) -> (r: Vec<Segment>)
        ensures
            r@ == edge_concat(self@),
    {
        let mut out: Vec<Segment> = Vec::new();
        let mut e: usize = 0;
        proof {
            assert(self@.take(0) =~= Seq::empty());
        }
        while e < self.edges.len()
            invariant
                e <= self.edges@.len(),
                out@ == edge_concat(self@.take(e as int)),
            decreases self.edges@.len() - e,
        {
            let edge = &self.edges[e];
            let ghost before = out@;
            let mut k: usize = 0;
            while k < edge.segments.len()
                invariant
                    k <= edge.segments@.len(),
                    out@ == before + edge.segments@.take(k as int),
                decreases edge.segments@.len() - k,
            {
                out.push(edge.segments[k]);
                proof {
                    assert(edge.segments@.take(k as int + 1) =~= edge.segments@.take(
                        k as int,
                    ).push(edge.segments@[k as int]));
                }
                k = k + 1;
            }
            proof {
                assert(edge.segments@.take(k as int) =~= edge.segments@);
                assert(self@.take(e as int + 1) =~= self@.take(e as int).push(edge@));
                lemma_edge_concat_push(self@.take(e as int), edge@);
            }
            e = e + 1;
        }
        proof {
            assert(self@.take(e as int) =~= self@);
        }
        out
    }
}

/// The curves of `contours`, contour after contour and edge after edge.
pub fn all_segments(contours: &Vec<Contour>) -> (r: Vec<Segment>)
    ensures
        r@ == contour_concat(contours_view(contours@)),
{
    let ghost view = contours_view(contours@);
    let mut out: Vec<Segment> = Vec::new();
    let mut c: usize = 0;
    proof {
        assert(view.take(0) =~= Seq::empty());
    }
    while c < contours.len()
        invariant
            c <= contours@.len(),
            view == contours_view(contours@),
            out@ == contour_concat(view.take(c as int)),
        decreases contours@.len() - c,
    {
        let mut part = contours[c].segments();
        let ghost before = out@;
        out.append(&mut part);
        proof {
            assert(view.take(c as int + 1) =~= view.take(c as int).push(contours@[c as int]@));
            lemma_contour_concat_push(view.take(c as int), contours@[c as int]@);
        }
        c = c + 1;
    }
    proof {
        assert(view.take(c as int) =~= view);
    }
    out
}

} // verus!
