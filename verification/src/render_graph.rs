use vstd::prelude::*;

verus! {

/// Id of an offscreen render target: its position in the order targets were added.
#[derive(Clone, Copy, Debug, PartialEq, Eq, Structural)]
pub struct RenderTargetId(pub usize);

/// Id of a render node (a post-processing pass): its position in the order nodes were added.
#[derive(Clone, Copy, Debug, PartialEq, Eq, Structural)]
pub struct RenderNodeId(pub usize);

/// The mathematical state of a [`RenderGraph`].
pub struct RenderGraphView<T, N> {
    pub targets: Seq<T>,
    pub nodes: Seq<(N, RenderTargetId)>,
    pub order: Seq<RenderNodeId>,
}

impl<T, N> RenderGraphView<T, N> {
    /// Every node in the execution order exists and renders to an existing target.
    pub open spec fn order_valid(self) -> bool {
        forall|i: int|
            0 <= i < self.order.len() ==> (#[trigger] self.order[i]).0 < self.nodes.len()
                && self.nodes[self.order[i].0 as int].1.0 < self.targets.len()
    }

    /// The passes to run, in order: (node index, target index) for each
    /// node in the execution order.
    pub open spec fn schedule(self) -> Seq<(usize, usize)> {
        Seq::new(
            self.order.len(),
            |i: int| (self.order[i].0, self.nodes[self.order[i].0 as int].1.0),
        )
    }
}

/// Offscreen targets and post-processing passes, run in an order set by the user
/// (a simple linear DAG). `T` is what a target holds, `N` what a pass holds.
pub struct RenderGraph<T, N> {
    targets: Vec<T>,
    nodes: Vec<(N, RenderTargetId)>,
    order: Vec<RenderNodeId>,
}

impl<T, N> View for RenderGraph<T, N> {
    type V = RenderGraphView<T, N>;

    closed spec fn view(&self) -> RenderGraphView<T, N> {
        RenderGraphView { targets: self.targets@, nodes: self.nodes@, order: self.order@ }
    }
}

impl<T, N> RenderGraph<T, N> {
    /// A graph with no targets, no nodes and an empty order.
    pub fn new() -> (r: Self)
        ensures
            r@.targets == Seq::<T>::empty(),
            r@.nodes == Seq::<(N, RenderTargetId)>::empty(),
            r@.order == Seq::<RenderNodeId>::empty(),
    {
        RenderGraph { targets: Vec::new(), nodes: Vec::new(), order: Vec::new() }
    }

    /// Adds an offscreen target and returns its id
    pub fn add_offscreen_target(&mut self, target: T) -> (id: RenderTargetId)
        ensures
            id == RenderTargetId(old(self)@.targets.len() as usize),
            final(self)@ == (RenderGraphView { targets: old(self)@.targets.push(target), ..old(self)@ }),
    {
        let id = RenderTargetId(self.targets.len());
        self.targets.push(target);
        id
    }

    /// Adds a render node (post-processing pass) rendering to `target` and returns its id
    pub fn add_render_node(&mut self, node: N, target: RenderTargetId) -> (id: RenderNodeId)
        ensures
            id == RenderNodeId(old(self)@.nodes.len() as usize),
            final(self)@ == (RenderGraphView { nodes: old(self)@.nodes.push((node, target)), ..old(self)@ }),
    {
        let id = RenderNodeId(self.nodes.len());
        self.nodes.push((node, target));
        id
    }

    /// Set the order to execute render nodes in
    pub fn set_render_order(&mut self, order: Vec<RenderNodeId>)
        ensures
            final(self)@ == (RenderGraphView { order: order@, ..old(self)@ }),
    {
        self.order = order;
    }

    /// The target with `id`, if there is one.
    pub fn target(&self, id: RenderTargetId) -> (r: Option<&T>)
        ensures
            r is Some <==> id.0 < self@.targets.len(),
            r matches Some(t) ==> *t == self@.targets[id.0 as int],
    {
        if id.0 < self.targets.len() {
            Some(&self.targets[id.0])
        } else {
            None
        }
    }

    /// The node with `id`, and the target it renders to, if there is one.
    pub fn node(&self, id: RenderNodeId) -> (r: Option<&(N, RenderTargetId)>)
        ensures
            r is Some <==> id.0 < self@.nodes.len(),
            r matches Some(n) ==> *n == self@.nodes[id.0 as int],
    {
        if id.0 < self.nodes.len() {
            Some(&self.nodes[id.0])
        } else {
            None
        }
    }

    /// Whether every node in the order exists and renders to an existing target.
    pub fn order_is_valid(&self) -> (r: bool)
        ensures
            r == self@.order_valid(),
    {
        let mut i: usize = 0;
        while i < self.order.len()
            invariant
                i <= self@.order.len(),
                forall|j: int|
                    0 <= j < i ==> (#[trigger] self@.order[j]).0 < self@.nodes.len()
                        && self@.nodes[self@.order[j].0 as int].1.0 < self@.targets.len(),
            decreases self.order.len() - i,
        {
            let n = self.order[i].0;
            if n >= self.nodes.len() || self.nodes[n].1.0 >= self.targets.len() {
                return false;
            }
            i += 1;
        }
        true
    }

    /// The passes to run, in order: (node index, target index) for each node
    /// in the execution order.
    pub fn schedule(&self) -> (r: Vec<(usize, usize)>)
        requires
            self@.order_valid(),
        ensures
            r@ == self@.schedule(),
            r@.len() == self@.order.len(),
            forall|i: int| 0 <= i < r@.len() ==> (#[trigger] r@[i]).0 == self@.order[i].0
                && r@[i].1 == self@.nodes[self@.order[i].0 as int].1.0,
    {
        let mut r: Vec<(usize, usize)> = Vec::new();
        let mut i: usize = 0;
        while i < self.order.len()
            invariant
                i <= self@.order.len(),
                self@.order_valid(),
                r@ == self@.schedule().subrange(0, i as int),
            decreases self.order.len() - i,
        {
            let n = self.order[i].0;
            assert(self@.order[i as int].0 < self@.nodes.len());
            r.push((n, self.nodes[n].1.0));
            i += 1;
            assert(r@ =~= self@.schedule().subrange(0, i as int));
        }
        assert(self@.schedule().subrange(0, i as int) =~= self@.schedule());
        r
    }
}

/// Passes run in the order the user set: the i-th pass runs the i-th node of
/// the order, into the target that node was added with, and there is one pass
/// per entry of the order.
pub proof fn law_schedule_follows_order<T, N>(g: RenderGraphView<T, N>)
    requires
        g.order_valid(),
    ensures
        g.schedule().len() == g.order.len(),
        forall|i: int| 0 <= i < g.order.len() ==> (#[trigger] g.schedule()[i]).0 == g.order[i].0
            && g.schedule()[i].1 == g.nodes[g.order[i].0 as int].1.0,
{
}

/// Adding targets and nodes and then setting an order yields passes whose
/// node and target ids are the ids that were handed out.
pub proof fn law_added_ids_schedule<T, N>(g: RenderGraphView<T, N>, t: T, n: N)
    ensures
        ({
            let g1 = RenderGraphView { targets: g.targets.push(t), ..g };
            let tid = RenderTargetId(g.targets.len() as usize);
            let g2 = RenderGraphView { nodes: g1.nodes.push((n, tid)), ..g1 };
            let nid = RenderNodeId(g.nodes.len() as usize);
            let g3 = RenderGraphView { order: seq![nid], ..g2 };
            (g.targets.len() < usize::MAX && g.nodes.len() < usize::MAX) ==> {
                &&& g3.order_valid()
                &&& g3.schedule() == seq![(g.nodes.len() as usize, g.targets.len() as usize)]
            }
        }),
{
    let g1 = RenderGraphView { targets: g.targets.push(t), ..g };
    let tid = RenderTargetId(g.targets.len() as usize);
    let g2 = RenderGraphView { nodes: g1.nodes.push((n, tid)), ..g1 };
    let nid = RenderNodeId(g.nodes.len() as usize);
    let g3 = RenderGraphView { order: seq![nid], ..g2 };
    if g.targets.len() < usize::MAX && g.nodes.len() < usize::MAX {
        assert(g3.order[0] == nid);
        assert(g3.schedule() =~= seq![(g.nodes.len() as usize, g.targets.len() as usize)]);
    }
}

} // verus!
