use vstd::prelude::*;

verus! {

/// One edge of a monitor that a layer surface can be anchored to.
#[derive(Clone, Copy, Debug, PartialEq, Eq, Structural)]
pub enum Edge {
    Top,
    Bottom,
    Left,
    Right,
}

/// The set of the four edges.
pub open spec fn all_edges() -> Set<Edge> {
    set![Edge::Top, Edge::Bottom, Edge::Left, Edge::Right]
}

/// The edges a surface is anchored to, one flag per edge.
#[derive(Clone, Copy, Debug, PartialEq, Eq, Structural)]
pub struct Anchors {
    pub top: bool,
    pub bottom: bool,
    pub left: bool,
    pub right: bool,
}

impl View for Anchors {
    type V = Set<Edge>;

    /// The anchors as the set of edges whose flag is set.
    open spec fn view(&self) -> Set<Edge> {
        Set::new(|e: Edge| self.spec_contains(e))
    }
}

/// The anchors that hold exactly the edges of `s`.
pub open spec fn anchors_of(s: Set<Edge>) -> Anchors {
    Anchors {
        top: s.contains(Edge::Top),
        bottom: s.contains(Edge::Bottom),
        left: s.contains(Edge::Left),
        right: s.contains(Edge::Right),
    }
}

impl Anchors {
    pub open spec fn spec_contains(&self, e: Edge) -> bool {
        match e {
            Edge::Top => self.top,
            Edge::Bottom => self.bottom,
            Edge::Left => self.left,
            Edge::Right => self.right,
        }
    }

    /// Anchored to no edge.
    pub fn none() -> (r: Anchors)
        ensures
            r@ == Set::<Edge>::empty(),
    {
        let r = Anchors { top: false, bottom: false, left: false, right: false };
        assert(r@ =~= Set::<Edge>::empty());
        r
    }

    /// Anchored to all four edges.
    pub fn all() -> (r: Anchors)
        ensures
            r@ == all_edges(),
    {
        let r = Anchors { top: true, bottom: true, left: true, right: true };
        assert(r@ =~= all_edges());
        r
    }

    /// Whether the surface is anchored to `edge`.
    pub fn contains(&self, edge: Edge) -> (r: bool)
        ensures
            r == self@.contains(edge),
    {
        match edge {
            Edge::Top => self.top,
            Edge::Bottom => self.bottom,
            Edge::Left => self.left,
            Edge::Right => self.right,
        }
    }
}

/// Every set of edges is the view of exactly one value of `Anchors`.
pub proof fn lemma_anchors_of_set(s: Set<Edge>)
    ensures
        anchors_of(s)@ == s,
        forall|a: Anchors| #[trigger] a@ == s ==> a == anchors_of(s),
{
    assert(anchors_of(s)@ =~= s);
    assert forall|a: Anchors| #[trigger] a@ == s implies a == anchors_of(s) by {
        assert(a@.contains(Edge::Top) == a.top);
        assert(a@.contains(Edge::Bottom) == a.bottom);
        assert(a@.contains(Edge::Left) == a.left);
        assert(a@.contains(Edge::Right) == a.right);
    }
}

/// Every view of `Anchors` is a subset of the four edges.
pub proof fn lemma_anchors_within_edges(a: Anchors)
    ensures
        a@.subset_of(all_edges()),
{
    assert forall|e: Edge| a@.contains(e) implies all_edges().contains(e) by {
        match e {
            Edge::Top => {},
            Edge::Bottom => {},
            Edge::Left => {},
            Edge::Right => {},
        }
    }
}

} // verus!
