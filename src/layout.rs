use vstd::prelude::*;
use stretch::node::{Node, Stretch};
use crate::geom::{clamp64, clamp_i64, fits_i64, Vector};
use crate::solver::{
    solver_add_child, solver_compute, solver_handed_out, solver_layout, solver_new, solver_new_node, solver_nodes,
    solver_set_style, solver_style, Dimension, Layout, Margins,
};

verus! {

#[derive(Clone, Copy, Debug, PartialEq, Eq, Structural)]
pub enum Direction {
    Row,
    Column,
}

#[derive(Clone, Copy, Debug, PartialEq, Eq, Structural)]
pub enum Justify {
    FlexStart,
    FlexEnd,
    Center,
}

#[derive(Clone, Copy, Debug, PartialEq, Eq, Structural)]
pub enum Align {
    FlexStart,
    FlexEnd,
    Center,
    Stretch,
}

/// The part of a flexbox style that layouts here set.
#[derive(Clone, Copy, Debug, PartialEq, Eq, Structural)]
pub struct Style {
    pub width: Dimension,
    pub height: Dimension,
    pub flex_direction: Direction,
    pub justify_content: Justify,
    pub align_items: Align,
    pub padding: Margins,
}

impl Margins {
    pub fn new(left: i64, top: i64, right: i64, bottom: i64) -> (r: Margins)
        ensures
            r == (Margins { left, top, right, bottom }),
    {
        Margins { left, top, right, bottom }
    }
}

impl Default for Margins {
    fn default() -> (r: Margins)
        ensures
            r == (Margins { left: 0, top: 0, right: 0, bottom: 0 }),
    {
        Margins { left: 0, top: 0, right: 0, bottom: 0 }
    }
}

impl Style {
    /// The solver's defaults: sizes left to the solver, a row, items packed at the
    /// start and stretched across, no padding.
    pub open spec fn spec_new() -> Style {
        Style {
            width: Dimension::Auto,
            height: Dimension::Auto,
            flex_direction: Direction::Row,
            justify_content: Justify::FlexStart,
            align_items: Align::Stretch,
            padding: Margins { left: 0, top: 0, right: 0, bottom: 0 },
        }
    }

    pub fn new() -> (r: Style)
        ensures
            r == Style::spec_new(),
    {
        Style {
            width: Dimension::Auto,
            height: Dimension::Auto,
            flex_direction: Direction::Row,
            justify_content: Justify::FlexStart,
            align_items: Align::Stretch,
            padding: Margins { left: 0, top: 0, right: 0, bottom: 0 },
        }
    }
}

fn to_solver_style(s: &Style) -> stretch::style::Style {
    let direction = match s.flex_direction {
        Direction::Row => stretch::style::FlexDirection::Row,
        Direction::Column => stretch::style::FlexDirection::Column,
    };
    let justify = match s.justify_content {
        Justify::FlexStart => stretch::style::JustifyContent::FlexStart,
        Justify::FlexEnd => stretch::style::JustifyContent::FlexEnd,
        Justify::Center => stretch::style::JustifyContent::Center,
    };
    let align = match s.align_items {
        Align::FlexStart => stretch::style::AlignItems::FlexStart,
        Align::FlexEnd => stretch::style::AlignItems::FlexEnd,
        Align::Center => stretch::style::AlignItems::Center,
        Align::Stretch => stretch::style::AlignItems::Stretch,
    };
    solver_style(s.width, s.height, direction, justify, align, s.padding)
}

/// The style of a new row: the custom one, else a row of fixed `height`.
pub open spec fn row_style(height: i64, custom: Option<Style>) -> Style {
    match custom {
        Some(c) => c,
        None => Style { height: Dimension::Points(height), flex_direction: Direction::Row, ..Style::spec_new() },
    }
}

/// The style of a new column: the custom one, else a column of fixed `width`.
pub open spec fn column_style(width: i64, custom: Option<Style>) -> Style {
    match custom {
        Some(c) => c,
        None => Style { width: Dimension::Points(width), flex_direction: Direction::Column, ..Style::spec_new() },
    }
}

/// The style of a leaf of fixed `size`.
pub open spec fn object_style(size: Vector) -> Style {
    Style { width: Dimension::Points(size.x), height: Dimension::Points(size.y), ..Style::spec_new() }
}

/// A node of a layout tree, by its place in the order of creation.
#[derive(Clone, Copy, Debug, PartialEq, Eq, Structural)]
pub struct NodeId {
    pub index: usize,
}

/// Why a layout request failed.
#[derive(Clone, Copy, Debug, PartialEq, Eq, Structural)]
pub enum LayoutError {
    /// No node has this identifier.
    InvalidNode,
    /// The solver has handed out all the node identifiers it can.
    Full,
}

/// A computed layout in absolute coordinates, with the layouts of all children.
#[derive(Debug)]
pub struct NodeLayout {
    pub id: NodeId,
    pub size: Vector,
    pub location: Vector,
    pub children: Vec<NodeLayout>,
}

/// Every child is created after its parent: indices grow down the tree.
pub open spec fn tree_wf(tree: Seq<Seq<usize>>) -> bool {
    forall|n: int, j: int|
        0 <= n < tree.len() && 0 <= j < tree[n].len() ==> n < #[trigger] tree[n][j] < tree.len()
}

/// Its parent's absolute location plus a child's relative one.
pub open spec fn raw_below(rel: Seq<Option<Layout>>, c: int, loc: (int, int)) -> (int, int) {
    (loc.0 + rel[c]->Some_0.location.x, loc.1 + rel[c]->Some_0.location.y)
}

/// Where a child lands: its parent's absolute location plus its relative one, each
/// coordinate held to the range of an `i64`.
pub open spec fn below(rel: Seq<Option<Layout>>, c: int, loc: (int, int)) -> (int, int) {
    (clamp64(raw_below(rel, c, loc).0), clamp64(raw_below(rel, c, loc).1))
}

/// Every node of the subtree has a computed layout.
pub open spec fn all_computed(tree: Seq<Seq<usize>>, rel: Seq<Option<Layout>>, node: int) -> bool
    decreases tree.len() - node,
    when 0 <= node
{
    &&& node < tree.len()
    &&& node < rel.len()
    &&& rel[node] is Some
    &&& forall|j: int|
        0 <= j < tree[node].len() ==> {
            let c = #[trigger] tree[node][j] as int;
            node < c < tree.len() && all_computed(tree, rel, c)
        }
}

/// Every node of the subtree has a computed layout and an absolute location that
/// fits in 64 bits without being held to the range, when the subtree's root is at
/// `loc`.
pub open spec fn abs_fits(
    tree: Seq<Seq<usize>>,
    rel: Seq<Option<Layout>>,
    node: int,
    loc: (int, int),
) -> bool
    decreases tree.len() - node,
    when 0 <= node
{
    &&& node < tree.len()
    &&& node < rel.len()
    &&& rel[node] is Some
    &&& forall|j: int|
        0 <= j < tree[node].len() ==> {
            let c = #[trigger] tree[node][j] as int;
            &&& node < c < tree.len()
            &&& c < rel.len()
            &&& rel[c] is Some
            &&& fits_i64(raw_below(rel, c, loc).0)
            &&& fits_i64(raw_below(rel, c, loc).1)
            &&& abs_fits(tree, rel, c, below(rel, c, loc))
        }
}

/// `r` is the subtree of `node` in absolute coordinates with `node` at `loc`: each
/// node's location is its parent's plus its own relative one, sizes are as
/// computed, and children keep their order of insertion.
pub open spec fn abs_ok(
    r: NodeLayout,
    tree: Seq<Seq<usize>>,
    rel: Seq<Option<Layout>>,
    node: int,
    loc: (int, int),
) -> bool
    decreases tree.len() - node,
    when 0 <= node
{
    &&& node < tree.len()
    &&& node < rel.len()
    &&& rel[node] is Some
    &&& r.id.index == node
    &&& r.location.x == loc.0
    &&& r.location.y == loc.1
    &&& r.size == rel[node]->Some_0.size
    &&& r.children@.len() == tree[node].len()
    &&& forall|j: int|
        0 <= j < tree[node].len() ==> {
            let c = #[trigger] tree[node][j] as int;
            node < c < tree.len() && c < rel.len() && abs_ok(
                r.children@[j],
                tree,
                rel,
                c,
                below(rel, c, loc),
            )
        }
}

/// Builds a tree of flexbox nodes on the solver and turns computed layouts into
/// absolute coordinates.
pub struct LayoutBuilder {
    root: NodeId,
    solver: Stretch,
    nodes: Vec<Node>,
    children: Vec<Vec<usize>>,
    styles: Vec<Style>,
    computed: Vec<Option<Layout>>,
}

impl LayoutBuilder {
    /// The children of each node, by index, in order of insertion.
    pub closed spec fn tree(&self) -> Seq<Seq<usize>> {
        Seq::new(self.children@.len(), |i: int| self.children@[i]@)
    }

    /// The style given to each node.
    pub closed spec fn styles(&self) -> Seq<Style> {
        self.styles@
    }

    /// The last computed layout of each node, relative to its parent.
    pub closed spec fn layouts(&self) -> Seq<Option<Layout>> {
        self.computed@
    }

    pub closed spec fn wf(&self) -> bool {
        &&& self.root.index == 0
        &&& self.nodes@.len() == self.children@.len()
        &&& self.computed@.len() == self.children@.len()
        &&& self.styles@.len() == self.children@.len()
        &&& self.children@.len() >= 1
        &&& solver_handed_out(self.solver) == self.nodes@.len()
        &&& tree_wf(self.tree())
        &&& forall|i: int|
            0 <= i < self.nodes@.len() ==> solver_nodes(self.solver).contains(
                #[trigger] self.nodes@[i],
            )
    }

    /// A builder holding one root node with the default style.
    pub fn new() -> (r: LayoutBuilder)
        ensures
            r.wf(),
            r.tree() == seq![Seq::<usize>::empty()],
            r.styles() == seq![Style::spec_new()],
            r.layouts() == seq![Option::<Layout>::None],
    {
        let mut solver = solver_new();
        let root_style = Style::new();
        let style = to_solver_style(&root_style);
        let created = solver_new_node(&mut solver, style);
        let node = created.unwrap();
        let mut nodes: Vec<Node> = Vec::new();
        nodes.push(node);
        let mut children: Vec<Vec<usize>> = Vec::new();
        children.push(Vec::new());
        let mut computed: Vec<Option<Layout>> = Vec::new();
        computed.push(None);
        let mut styles: Vec<Style> = Vec::new();
        styles.push(root_style);
        let r = LayoutBuilder { root: NodeId { index: 0 }, solver, nodes, children, styles, computed };
        proof {
            assert(r.styles() =~= seq![Style::spec_new()]);
            assert(r.tree() =~= seq![Seq::<usize>::empty()]);
            assert(r.layouts() =~= seq![Option::<Layout>::None]);
        }
        r
    }

    /// A well-formed builder has at least its root, and one style and one layout
    /// slot for each node of its tree.
    pub proof fn lemma_lengths(&self)
        requires
            self.wf(),
        ensures
            self.tree().len() >= 1,
            self.styles().len() == self.tree().len(),
            self.layouts().len() == self.tree().len(),
    {
    }

    /// The root node.
    pub fn root(&self) -> (r: NodeId)
        requires
            self.wf(),
        ensures
            r.index == 0,
    {
        self.root
    }

    /// Give the root node this style.
    pub fn with_style(self, style: Style) -> (r: LayoutBuilder)
        requires
            self.wf(),
        ensures
            r.wf(),
            r.tree() == self.tree(),
            r.styles() == self.styles().update(0, style),
            r.styles().len() == r.tree().len(),
            r.tree().len() >= 1,
            r.styles()[0] == style,
            r.layouts() == self.layouts(),
    {
        let mut b = self;
        let root = b.nodes[0];
        let _ = solver_set_style(&mut b.solver, root, to_solver_style(&style));
        b.styles.set(0, style);
        b
    }

    /// Append a new node with `style` as the last child of `parent`.
    fn add_node(&mut self, parent: NodeId, style: &Style) -> (r: Result<NodeId, LayoutError>)
        requires
            old(self).wf(),
        ensures
            final(self).wf(),
            parent.index >= old(self).tree().len() ==> r == Err::<NodeId, LayoutError>(
                LayoutError::InvalidNode,
            ) && *final(self) == *old(self),
            parent.index < old(self).tree().len() && old(self).tree().len() >= u32::MAX ==> r
                == Err::<NodeId, LayoutError>(LayoutError::Full) && *final(self) == *old(self),
            parent.index < old(self).tree().len() < u32::MAX ==> {
                let n = old(self).tree().len();
                &&& r == Ok::<NodeId, LayoutError>(NodeId { index: n as usize })
                &&& final(self).tree() == old(self).tree().update(
                    parent.index as int,
                    old(self).tree()[parent.index as int].push(n as usize),
                ).push(Seq::<usize>::empty())
                &&& final(self).styles() == old(self).styles().push(*style)
                &&& final(self).layouts() == old(self).layouts().push(None)
            },
    {
        if parent.index >= self.nodes.len() {
            return Err(LayoutError::InvalidNode);
        }
        if self.nodes.len() >= u32::MAX as usize {
            return Err(LayoutError::Full);
        }
        let ghost old_tree = self.tree();
        let created = solver_new_node(&mut self.solver, to_solver_style(style));
        let node = created.unwrap();
        let p = self.nodes[parent.index];
        proof {
            assert(solver_nodes(self.solver).contains(p));
        }
        let _ = solver_add_child(&mut self.solver, p, node);
        let n = self.nodes.len();
        self.nodes.push(node);
        let mut kids = self.children.remove(parent.index);
        kids.push(n);
        self.children.insert(parent.index, kids);
        self.children.push(Vec::new());
        self.computed.push(None);
        self.styles.push(*style);
        proof {
            let t = self.tree();
            let want = old_tree.update(parent.index as int, old_tree[parent.index as int].push(n)).push(
                Seq::<usize>::empty(),
            );
            assert(t =~= want);
            assert forall|i: int| 0 <= i < self.nodes@.len() implies solver_nodes(
                self.solver,
            ).contains(#[trigger] self.nodes@[i]) by {
                if i < n {
                    assert(old(self).nodes@[i] == self.nodes@[i]);
                }
            }
            assert forall|a: int, j: int|
                0 <= a < t.len() && 0 <= j < t[a].len() implies a < #[trigger] t[a][j] < t.len() by {
                if a != parent.index && a < n {
                    assert(t[a][j] == old_tree[a][j]);
                } else if a == parent.index && j < old_tree[a].len() {
                    assert(t[a][j] == old_tree[a][j]);
                }
            }
        }
        Ok(NodeId { index: n })
    }

    /// Append a row of fixed `height` (or with `custom_style`) to `parent`.
    pub fn add_row(&mut self, parent: NodeId, height: i64, custom_style: Option<Style>) -> (r: Result<
        NodeId,
        LayoutError,
    >)
        requires
            old(self).wf(),
        ensures
            final(self).wf(),
            parent.index >= old(self).tree().len() ==> r == Err::<NodeId, LayoutError>(
                LayoutError::InvalidNode,
            ) && *final(self) == *old(self),
            parent.index < old(self).tree().len() && old(self).tree().len() >= u32::MAX ==> r
                == Err::<NodeId, LayoutError>(LayoutError::Full) && *final(self) == *old(self),
            parent.index < old(self).tree().len() < u32::MAX ==> {
                let n = old(self).tree().len();
                &&& r == Ok::<NodeId, LayoutError>(NodeId { index: n as usize })
                &&& final(self).tree() == old(self).tree().update(
                    parent.index as int,
                    old(self).tree()[parent.index as int].push(n as usize),
                ).push(Seq::<usize>::empty())
                &&& final(self).styles() == old(self).styles().push(row_style(height, custom_style))
                &&& final(self).layouts() == old(self).layouts().push(None)
            },
    {
        let style = match custom_style {
            Some(s) => s,
            None => {
                let mut s = Style::new();
                s.height = Dimension::Points(height);
                s.flex_direction = Direction::Row;
                s
            },
        };
        self.add_node(parent, &style)
    }

    /// Append a column of fixed `width` (or with `custom_style`) to `parent`.
    pub fn add_column(&mut self, parent: NodeId, width: i64, custom_style: Option<Style>) -> (r:
        Result<NodeId, LayoutError>)
        requires
            old(self).wf(),
        ensures
            final(self).wf(),
            parent.index >= old(self).tree().len() ==> r == Err::<NodeId, LayoutError>(
                LayoutError::InvalidNode,
            ) && *final(self) == *old(self),
            parent.index < old(self).tree().len() && old(self).tree().len() >= u32::MAX ==> r
                == Err::<NodeId, LayoutError>(LayoutError::Full) && *final(self) == *old(self),
            parent.index < old(self).tree().len() < u32::MAX ==> {
                let n = old(self).tree().len();
                &&& r == Ok::<NodeId, LayoutError>(NodeId { index: n as usize })
                &&& final(self).tree() == old(self).tree().update(
                    parent.index as int,
                    old(self).tree()[parent.index as int].push(n as usize),
                ).push(Seq::<usize>::empty())
                &&& final(self).styles() == old(self).styles().push(column_style(width, custom_style))
                &&& final(self).layouts() == old(self).layouts().push(None)
            },
    {
        let style = match custom_style {
            Some(s) => s,
            None => {
                let mut s = Style::new();
                s.width = Dimension::Points(width);
                s.flex_direction = Direction::Column;
                s
            },
        };
        self.add_node(parent, &style)
    }

    /// Append a leaf of fixed `size` to `parent`.
    pub fn add_object(&mut self, parent: NodeId, size: Vector) -> (r: Result<NodeId, LayoutError>)
        requires
            old(self).wf(),
        ensures
            final(self).wf(),
            parent.index >= old(self).tree().len() ==> r == Err::<NodeId, LayoutError>(
                LayoutError::InvalidNode,
            ) && *final(self) == *old(self),
            parent.index < old(self).tree().len() && old(self).tree().len() >= u32::MAX ==> r
                == Err::<NodeId, LayoutError>(LayoutError::Full) && *final(self) == *old(self),
            parent.index < old(self).tree().len() < u32::MAX ==> {
                let n = old(self).tree().len();
                &&& r == Ok::<NodeId, LayoutError>(NodeId { index: n as usize })
                &&& final(self).tree() == old(self).tree().update(
                    parent.index as int,
                    old(self).tree()[parent.index as int].push(n as usize),
                ).push(Seq::<usize>::empty())
                &&& final(self).styles() == old(self).styles().push(object_style(size))
                &&& final(self).layouts() == old(self).layouts().push(None)
            },
    {
        let mut style = Style::new();
        style.width = Dimension::Points(size.x);
        style.height = Dimension::Points(size.y);
        self.add_node(parent, &style)
    }

    /// The node's layout relative to its parent, as last computed; `None` when no
    /// layout has been computed for it yet.
    pub fn get_layout(&self, node: NodeId) -> (r: Option<Layout>)
        ensures
            r == if node.index < self.layouts().len() {
                self.layouts()[node.index as int]
            } else {
                None
            },
    {
        if node.index < self.computed.len() {
            self.computed[node.index]
        } else {
            None
        }
    }

    /// Read from the solver the layout of every node of the subtree of `node`.
    fn read_subtree(&mut self, node: usize)
        requires
            old(self).wf(),
            node < old(self).tree().len(),
        ensures
            final(self).wf(),
            final(self).tree() == old(self).tree(),
            final(self).styles() == old(self).styles(),
            final(self).layouts().len() == old(self).layouts().len(),
            all_computed(final(self).tree(), final(self).layouts(), node as int),
            forall|m: int|
                0 <= m < old(self).layouts().len() && (#[trigger] old(self).layouts()[m]) is Some
                    ==> final(self).layouts()[m] is Some,
        decreases old(self).tree().len() - node,
    {
        let ghost tree = self.tree();
        let read = solver_layout(&self.solver, self.nodes[node]);
        if let Ok(l) = read {
            self.computed.set(node, Some(l));
        }
        let n = self.children[node].len();
        let mut j: usize = 0;
        while j < n
            invariant
                self.wf(),
                self.tree() == tree,
                tree == old(self).tree(),
                self.styles() == old(self).styles(),
                node < tree.len(),
                n == tree[node as int].len(),
                j <= n,
                self.layouts().len() == old(self).layouts().len(),
                self.layouts()[node as int] is Some,
                forall|m: int|
                    0 <= m < old(self).layouts().len() && (#[trigger] old(self).layouts()[m])
                        is Some ==> self.layouts()[m] is Some,
                forall|k: int|
                    0 <= k < j ==> all_computed(tree, self.layouts(), #[trigger] tree[node as int][k] as int),
            decreases n - j,
        {
            let c = self.children[node][j];
            proof {
                assert(c == tree[node as int][j as int]);
            }
            let ghost before = self.layouts();
            self.read_subtree(c);
            proof {
                assert forall|k: int| 0 <= k < j + 1 implies all_computed(
                    tree,
                    self.layouts(),
                    #[trigger] tree[node as int][k] as int,
                ) by {
                    if k < j {
                        lemma_computed_grows(tree, before, self.layouts(), tree[node as int][k] as int);
                    }
                }
            }
            j = j + 1;
        }
    }

    /// The subtree of `node` in absolute coordinates with `node` at `loc`.
    fn build(&self, node: usize, loc: Vector) -> (r: NodeLayout)
        requires
            self.wf(),
            node < self.tree().len(),
            all_computed(self.tree(), self.layouts(), node as int),
        ensures
            abs_ok(r, self.tree(), self.layouts(), node as int, (loc.x as int, loc.y as int)),
        decreases self.tree().len() - node,
    {
        let ghost tree = self.tree();
        let ghost rel = self.layouts();
        let ghost at = (loc.x as int, loc.y as int);
        let own = self.computed[node].unwrap();
        let n = self.children[node].len();
        let mut kids: Vec<NodeLayout> = Vec::new();
        let mut j: usize = 0;
        while j < n
            invariant
                self.wf(),
                tree == self.tree(),
                rel == self.layouts(),
                at == (loc.x as int, loc.y as int),
                node < tree.len(),
                all_computed(tree, rel, node as int),
                n == tree[node as int].len(),
                j <= n,
                kids@.len() == j,
                forall|k: int|
                    0 <= k < j ==> {
                        let c = #[trigger] tree[node as int][k] as int;
                        &&& node < c < tree.len()
                        &&& c < rel.len()
                        &&& abs_ok(kids@[k], tree, rel, c, below(rel, c, at))
                    },
            decreases n - j,
        {
            let c = self.children[node][j];
            proof {
                assert(c == tree[node as int][j as int]);
                assert(all_computed(tree, rel, c as int));
            }
            let cl = self.computed[c].unwrap();
            let cx = clamp_i64(loc.x as i128 + cl.location.x as i128);
            let cy = clamp_i64(loc.y as i128 + cl.location.y as i128);
            let ghost prev = kids@;
            let t = self.build(c, Vector { x: cx, y: cy });
            kids.push(t);
            proof {
                assert(rel[c as int] == Some(cl));
                assert((cx as int, cy as int) == below(rel, c as int, at));
                assert forall|k: int| 0 <= k < j implies kids@[k] == prev[k] by {}
            }
            j = j + 1;
        }
        let r = NodeLayout { id: NodeId { index: node }, size: own.size, location: loc, children: kids };
        proof {
            assert forall|k: int| 0 <= k < tree[node as int].len() implies {
                let c = #[trigger] tree[node as int][k] as int;
                node < c < tree.len() && c < rel.len() && abs_ok(
                    r.children@[k],
                    tree,
                    rel,
                    c,
                    below(rel, c, at),
                )
            } by {}
        }
        r
    }

    /// Compute the layout of the subtree of `node`, then give it in absolute
    /// coordinates: each node's location is the sum of its own relative location,
    /// those of all its ancestors up to `node`, and `origin`, held to the range of
    /// an `i64`. Children keep their order of insertion and every node of the
    /// subtree appears once. Every layout of the subtree is computed afterwards; the
    /// tree and the styles do not change.
    pub fn absolute_layout(&mut self, node: NodeId, origin: Vector) -> (r: NodeLayout)
        requires
            old(self).wf(),
            node.index < old(self).tree().len(),
        ensures
            final(self).wf(),
            final(self).tree() == old(self).tree(),
            final(self).styles() == old(self).styles(),
            all_computed(final(self).tree(), final(self).layouts(), node.index as int),
            final(self).layouts().len() == old(self).layouts().len(),
            forall|m: int|
                0 <= m < final(self).layouts().len() && (#[trigger] old(self).layouts()[m]) is Some
                    ==> final(self).layouts()[m] is Some,
            abs_ok(
                r,
                final(self).tree(),
                final(self).layouts(),
                node.index as int,
                root_at(final(self).layouts(), node.index as int, origin),
            ),
    {
        let sn = self.nodes[node.index];
        let computed = solver_compute(&mut self.solver, sn);
        proof {
            assert forall|i: int| 0 <= i < self.nodes@.len() implies solver_nodes(
                self.solver,
            ).contains(#[trigger] self.nodes@[i]) by {
                assert(solver_nodes(old(self).solver).contains(old(self).nodes@[i]));
            }
        }
        proof {
            assert(computed is Ok);
        }
        self.read_subtree(node.index);
        let own = self.computed[node.index].unwrap();
        let x = clamp_i64(origin.x as i128 + own.location.x as i128);
        let y = clamp_i64(origin.y as i128 + own.location.y as i128);
        self.build(node.index, Vector { x, y })
    }
}

/// `origin` plus the root's own relative location.
pub open spec fn raw_root(rel: Seq<Option<Layout>>, node: int, origin: Vector) -> (int, int) {
    (origin.x + rel[node]->Some_0.location.x, origin.y + rel[node]->Some_0.location.y)
}

/// Where the root of an absolute layout goes: `origin` plus its own relative
/// location, held to the range of an `i64`.
pub open spec fn root_at(rel: Seq<Option<Layout>>, node: int, origin: Vector) -> (int, int) {
    (clamp64(raw_root(rel, node, origin).0), clamp64(raw_root(rel, node, origin).1))
}

/// Computing more layouts keeps every subtree that was computed computed.
proof fn lemma_computed_grows(
    tree: Seq<Seq<usize>>,
    rel: Seq<Option<Layout>>,
    rel2: Seq<Option<Layout>>,
    node: int,
)
    requires
        0 <= node,
        all_computed(tree, rel, node),
        rel2.len() == rel.len(),
        forall|m: int| 0 <= m < rel.len() && (#[trigger] rel[m]) is Some ==> rel2[m] is Some,
    ensures
        all_computed(tree, rel2, node),
    decreases tree.len() - node,
{
    assert forall|j: int| 0 <= j < tree[node].len() implies {
        let c = #[trigger] tree[node][j] as int;
        node < c < tree.len() && all_computed(tree, rel2, c)
    } by {
        let c = tree[node][j] as int;
        lemma_computed_grows(tree, rel, rel2, c);
    }
}

/// The node reached from `node` by taking, at each step, the child at the next
/// position of `path`.
pub open spec fn node_at(tree: Seq<Seq<usize>>, node: int, path: Seq<int>) -> int
    decreases path.len(),
{
    if path.len() == 0 {
        node
    } else {
        node_at(tree, tree[node][path[0]] as int, path.drop_first())
    }
}

/// Every position of `path` names an existing child.
pub open spec fn valid_path(tree: Seq<Seq<usize>>, node: int, path: Seq<int>) -> bool
    decreases path.len(),
{
    path.len() == 0 || (0 <= path[0] < tree[node].len() && valid_path(
        tree,
        tree[node][path[0]] as int,
        path.drop_first(),
    ))
}

/// The part of a layout reached by following child positions.
pub open spec fn layout_at(r: NodeLayout, path: Seq<int>) -> NodeLayout
    decreases path.len(),
{
    if path.len() == 0 {
        r
    } else {
        layout_at(r.children@[path[0]], path.drop_first())
    }
}

/// The summed relative locations of the nodes along `path` below `node`.
pub open spec fn offsets_below(
    tree: Seq<Seq<usize>>,
    rel: Seq<Option<Layout>>,
    node: int,
    path: Seq<int>,
) -> (int, int)
    decreases path.len(),
{
    if path.len() == 0 {
        (0, 0)
    } else {
        let c = tree[node][path[0]] as int;
        let rest = offsets_below(tree, rel, c, path.drop_first());
        (rel[c]->Some_0.location.x + rest.0, rel[c]->Some_0.location.y + rest.1)
    }
}

/// The summed relative locations of every node on the path from `node` to the
/// node that `path` reaches, both included.
pub open spec fn path_offsets(
    tree: Seq<Seq<usize>>,
    rel: Seq<Option<Layout>>,
    node: int,
    path: Seq<int>,
) -> (int, int) {
    let below = offsets_below(tree, rel, node, path);
    (rel[node]->Some_0.location.x + below.0, rel[node]->Some_0.location.y + below.1)
}

proof fn lemma_location_along_path(
    r: NodeLayout,
    tree: Seq<Seq<usize>>,
    rel: Seq<Option<Layout>>,
    node: int,
    loc: (int, int),
    path: Seq<int>,
)
    requires
        0 <= node,
        abs_ok(r, tree, rel, node, loc),
        abs_fits(tree, rel, node, loc),
        valid_path(tree, node, path),
    ensures
        layout_at(r, path).id.index == node_at(tree, node, path),
        layout_at(r, path).location.x == loc.0 + offsets_below(tree, rel, node, path).0,
        layout_at(r, path).location.y == loc.1 + offsets_below(tree, rel, node, path).1,
    decreases path.len(),
{
    if path.len() > 0 {
        let c = tree[node][path[0]] as int;
        assert(abs_ok(r.children@[path[0]], tree, rel, c, below(rel, c, loc)));
        assert(abs_fits(tree, rel, c, below(rel, c, loc)));
        lemma_location_along_path(
            r.children@[path[0]],
            tree,
            rel,
            c,
            below(rel, c, loc),
            path.drop_first(),
        );
    }
}

/// In an absolute layout of the subtree of `node`, every descendant reached by a
/// path of child positions is that path's node, and, where no coordinate passes
/// the range of an `i64`, its location is `origin` plus the relative locations of
/// all nodes on the path from `node` down to it.
pub proof fn lemma_absolute_is_cumulative(
    r: NodeLayout,
    tree: Seq<Seq<usize>>,
    rel: Seq<Option<Layout>>,
    node: int,
    origin: Vector,
    path: Seq<int>,
)
    requires
        0 <= node,
        abs_ok(r, tree, rel, node, root_at(rel, node, origin)),
        fits_i64(raw_root(rel, node, origin).0),
        fits_i64(raw_root(rel, node, origin).1),
        abs_fits(tree, rel, node, root_at(rel, node, origin)),
        valid_path(tree, node, path),
    ensures
        layout_at(r, path).id.index == node_at(tree, node, path),
        layout_at(r, path).location.x == origin.x + path_offsets(tree, rel, node, path).0,
        layout_at(r, path).location.y == origin.y + path_offsets(tree, rel, node, path).1,
{
    lemma_location_along_path(r, tree, rel, node, root_at(rel, node, origin), path);
}

} // verus!
