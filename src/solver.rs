//! The flexbox solver of the `stretch` crate, seen through the calls that the
//! layout builder makes. Lengths cross this boundary as whole pixels: the solver
//! rounds every computed location and size to whole pixels itself.
use vstd::prelude::*;
use stretch::node::{Node, Stretch};
use stretch::style::{Dimension as SolverDimension, Style as SolverStyle};
use crate::geom::Vector;

verus! {

/// `stretch::node::Stretch`, the solver and its store of nodes; opaque here.
#[verifier::external_type_specification]
#[verifier::external_body]
pub struct ExStretch(Stretch);

/// `stretch::node::Node`, a handle on one node of a solver; opaque here.
#[verifier::external_type_specification]
#[verifier::external_body]
pub struct ExNode(Node);

/// `stretch::Error`, what a failed solver call returns; opaque here.
#[verifier::external_type_specification]
#[verifier::external_body]
pub struct ExSolverError(stretch::Error);

/// `stretch::style::Style`, a node's full flexbox style; opaque here.
#[verifier::external_type_specification]
#[verifier::external_body]
pub struct ExSolverStyle(SolverStyle);

/// `stretch::style::FlexDirection`, a plain enum whose variants are built here.
#[verifier::external_type_specification]
pub struct ExFlexDirection(stretch::style::FlexDirection);

/// `stretch::style::JustifyContent`, a plain enum whose variants are built here.
#[verifier::external_type_specification]
pub struct ExJustifyContent(stretch::style::JustifyContent);

/// `stretch::style::AlignItems`, a plain enum whose variants are built here.
#[verifier::external_type_specification]
pub struct ExAlignItems(stretch::style::AlignItems);

/// The nodes that a solver holds.
pub uninterp spec fn solver_nodes(s: Stretch) -> Set<Node>;

/// The nodes that have a parent or a child in a solver's tree.
pub uninterp spec fn solver_linked(s: Stretch) -> Set<Node>;

/// How many node identifiers a solver has handed out; its counter of identifiers
/// is a `u32` and never passes this number.
pub uninterp spec fn solver_handed_out(s: Stretch) -> nat;

/// A length: a whole number of pixels, or left to the solver.
#[derive(Clone, Copy, Debug, PartialEq, Eq, Structural)]
pub enum Dimension {
    Auto,
    Points(i64),
}

/// Space kept inside a node's edges, in pixels.
#[derive(Clone, Copy, Debug, PartialEq, Eq, Structural)]
pub struct Margins {
    pub left: i64,
    pub top: i64,
    pub right: i64,
    pub bottom: i64,
}

/// A node's location relative to its parent and its size, as last computed.
#[derive(Clone, Copy, Debug, PartialEq, Eq, Structural)]
pub struct Layout {
    pub size: Vector,
    pub location: Vector,
}

/// Relies on `Stretch::new`: a new solver holds no nodes, so none is linked, and
/// has handed out no node identifier.
#[verifier::external_body]
pub(crate) fn solver_new() -> (r: Stretch)
    ensures
        solver_nodes(r) == Set::<Node>::empty(),
        solver_linked(r) == Set::<Node>::empty(),
        solver_handed_out(r) == 0,
{
    Stretch::new()
}

/// Builds a `stretch::style::Style` from its parts, taking `Style::default()` for
/// the rest; nothing is assumed of the result.
#[verifier::external_body]
pub(crate) fn solver_style(
    width: Dimension,
    height: Dimension,
    flex_direction: stretch::style::FlexDirection,
    justify_content: stretch::style::JustifyContent,
    align_items: stretch::style::AlignItems,
    padding: Margins,
) -> SolverStyle {
    let dim = |d: Dimension| match d {
        Dimension::Auto => SolverDimension::Auto,
        Dimension::Points(v) => SolverDimension::Points(v as _),
    };
    let pad = |v: i64| SolverDimension::Points(v as _);
    let padding = stretch::geometry::Rect {
        start: pad(padding.left),
        end: pad(padding.right),
        top: pad(padding.top),
        bottom: pad(padding.bottom),
    };
    let size = stretch::geometry::Size { width: dim(width), height: dim(height) };
    SolverStyle { size, flex_direction, justify_content, align_items, padding, ..Default::default() }
}

/// Relies on `Stretch::new_node` with no children: it hands out one more node
/// identifier, succeeds, and adds a new node with no parent and no child. Its
/// identifier counter is a `u32` that it increments, so the count handed out must
/// stay below `u32::MAX`; below that every identifier is new.
#[verifier::external_body]
pub(crate) fn solver_new_node(s: &mut Stretch, style: SolverStyle) -> (r: Result<Node, stretch::Error>)
    requires
        solver_handed_out(*old(s)) < u32::MAX,
    ensures
        r is Ok,
        !solver_nodes(*old(s)).contains(r->Ok_0),
        !solver_linked(*final(s)).contains(r->Ok_0),
        solver_nodes(*final(s)) == solver_nodes(*old(s)).insert(r->Ok_0),
        solver_linked(*final(s)) == solver_linked(*old(s)),
        solver_handed_out(*final(s)) == solver_handed_out(*old(s)) + 1,
{
    s.new_node(style, vec![])
}

/// Relies on `Stretch::add_child`: given two nodes that the solver holds it
/// succeeds, links the two, and adds no node nor identifier. It then marks
/// `parent` and its ancestors dirty by walking up the parents, which ends only
/// where the tree has no cycle: so the child must be another node, with no parent
/// and no child yet.
#[verifier::external_body]
pub(crate) fn solver_add_child(s: &mut Stretch, parent: Node, child: Node) -> (r: Result<(), stretch::Error>)
    requires
        solver_nodes(*old(s)).contains(parent),
        solver_nodes(*old(s)).contains(child),
        parent != child,
        !solver_linked(*old(s)).contains(child),
    ensures
        r is Ok,
        solver_linked(*final(s)) == solver_linked(*old(s)).insert(parent).insert(child),
        solver_nodes(*final(s)) == solver_nodes(*old(s)),
        solver_handed_out(*final(s)) == solver_handed_out(*old(s)),
{
    s.add_child(parent, child)
}

/// Relies on `Stretch::set_style`: it succeeds when the solver holds the node and
/// adds no node, link nor identifier.
#[verifier::external_body]
pub(crate) fn solver_set_style(s: &mut Stretch, node: Node, style: SolverStyle) -> (r: Result<(), stretch::Error>)
    ensures
        solver_linked(*final(s)) == solver_linked(*old(s)),
        solver_handed_out(*final(s)) == solver_handed_out(*old(s)),
        solver_nodes(*final(s)) == solver_nodes(*old(s)),
        solver_nodes(*old(s)).contains(node) ==> r is Ok,
{
    s.set_style(node, style)
}

/// Relies on `Stretch::compute_layout` with no size limit: it adds no node, link
/// nor identifier, and it fails only for a node that the solver does not hold or
/// through a measure function, which no node made by `solver_new_node` has.
#[verifier::external_body]
pub(crate) fn solver_compute(s: &mut Stretch, node: Node) -> (r: Result<(), stretch::Error>)
    ensures
        solver_linked(*final(s)) == solver_linked(*old(s)),
        solver_nodes(*old(s)).contains(node) ==> r is Ok,
        solver_handed_out(*final(s)) == solver_handed_out(*old(s)),
        solver_nodes(*final(s)) == solver_nodes(*old(s)),
{
    s.compute_layout(node, stretch::geometry::Size::undefined())
}

/// Relies on `Stretch::layout`: it succeeds when the solver holds the node. The
/// solver's lengths are whole pixels and are taken over as such.
#[verifier::external_body]
pub(crate) fn solver_layout(s: &Stretch, node: Node) -> (r: Result<Layout, stretch::Error>)
    ensures
        solver_nodes(*s).contains(node) ==> r is Ok,
{
    match s.layout(node) {
        Ok(l) => Ok(Layout {
            size: Vector { x: l.size.width as i64, y: l.size.height as i64 },
            location: Vector { x: l.location.x as i64, y: l.location.y as i64 },
        }),
        Err(e) => Err(e),
    }
}

} // verus!
