//! Events and the capability set every tree node implements.

use vstd::prelude::*;

verus! {

use crate::context::Context;
use crate::context::TOUCH_SLOTS;
use crate::geom::LocalPoint;
use crate::geom::LocalSize;
use crate::renderer::Renderer;
use crate::viewid::ViewId;
use vstd::string::StringExecFns;
use vstd::view::View as ValueView;

/// A keyboard key, as the host shell reports it.
#[derive(Clone, Debug, PartialEq, Eq)]
pub enum KeyPress {
    ArrowLeft,
    ArrowRight,
    ArrowUp,
    ArrowDown,
    Backspace,
    Space,
    Home,
    End,
    Character(char),
}

/// What happened: a named command, a pointer transition, or a key.
#[derive(Clone, Debug)]
pub enum EventKind {
    /// A button invoked by logical name (menu, palette, keyboard path);
    /// bypasses geometric hit-testing entirely.
    PressButton(String),
    TouchBegin { id: usize },
    TouchMove { id: usize },
    TouchEnd { id: usize },
    Key(KeyPress),
}

/// One input event, with the pointer position where one applies.
#[derive(Clone, Debug)]
pub struct Event {
    pub kind: EventKind,
    pub position: LocalPoint,
}

impl Event {
    /// A deliverable event: its position is in range and its pointer id,
    /// if any, names one of the capture slots.
    pub open spec fn wf(self) -> bool {
        &&& self.position.wf()
        &&& match self.kind {
            EventKind::TouchBegin { id } => id < TOUCH_SLOTS,
            EventKind::TouchMove { id } => id < TOUCH_SLOTS,
            EventKind::TouchEnd { id } => id < TOUCH_SLOTS,
            _ => true,
        }
    }
}

/// A command a view offers for menus and keyboard invocation.
#[derive(Clone, Debug)]
pub struct CommandInfo {
    pub path: String,
    pub key: Option<KeyPress>,
}

/// What a traversal pass may never touch: the pointer-capture tables,
/// focus, the root identity and the mouse button belong to event dispatch
/// and the host, so every non-dispatch pass leaves them exactly as found.
pub open spec fn preserves_dispatch_state(a: Context, b: Context) -> bool {
    &&& b.touches@ == a.touches@
    &&& b.starts@ == a.starts@
    &&& b.previous_position@ == a.previous_position@
    &&& b.focused_id == a.focused_id
    &&& b.root_id == a.root_id
    &&& b.mouse_button == a.mouse_button
    &&& b.fired == a.fired
}

/// Cells already in the state store keep their values across a pass:
/// a traversal may create a missing cell at its default, but only event
/// dispatch rewrites one, and only the GC sweep drops one.
pub open spec fn preserves_state_cells(a: Context, b: Context) -> bool {
    forall|k: u64|
        #[trigger] a.state_map@.contains_key(k) ==> b.state_map@.contains_key(k)
            && b.state_map@[k] == a.state_map@[k]
}

/// Entries already in the session environment keep their values; a pass
/// may only install missing entries.
pub open spec fn preserves_env_cells(a: Context, b: Context) -> bool {
    forall|k: u64|
        #[trigger] a.env_map@.contains_key(k) ==> b.env_map@.contains_key(k) && b.env_map@[k]
            == a.env_map@[k]
}

/// Event dispatch may create state cells and rewrite their values, but
/// never drops one: removal belongs to the GC sweep alone.
pub open spec fn keeps_state_keys(a: Context, b: Context) -> bool {
    forall|k: u64| #[trigger] a.state_map@.contains_key(k) ==> b.state_map@.contains_key(k)
}

/// Everything a hit-test pass may do to the context: read layout, resolve
/// state and environment cells (creating missing ones at their defaults),
/// and nothing else.
pub open spec fn hittest_frame(a: Context, b: Context) -> bool {
    &&& b.wf()
    &&& b.layout@ == a.layout@
    &&& b.dirty == a.dirty
    &&& preserves_dispatch_state(a, b)
    &&& preserves_state_cells(a, b)
    &&& preserves_env_cells(a, b)
}

/// A node's own well-formedness, independent of the action type: for
/// nodes holding callbacks, that the callbacks can be called and return
/// well-formed subtrees. Constructors establish it; every protocol
/// operation requires it.
pub trait Wf {
    spec fn wf(&self) -> bool;
}

/// The action-independent half of the capability set: every pass except
/// event dispatch.
///
/// Every operation takes the node's identity, computed by the parent
/// through the Addressor, and the exclusive `Context`; a node derives its
/// children's identities with `id.child(..)` and delegates, and never
/// touches context it does not own. No operation ever clears the dirty
/// flag: clearing belongs to the host alone.
pub trait ViewCore: Wf {
    /// Whether `r` is a possible result of this node's hit-test at `pt`
    /// against the context `cx`. Relational rather than functional,
    /// because a stateful node's subtree is rebuilt by a callback that
    /// only its own contract describes; `hittest` always returns a result
    /// this predicate admits, and for geometric leaves the predicate pins
    /// the result exactly.
    spec fn hits(&self, id: ViewId, pt: LocalPoint, cx: Context, r: Option<ViewId>) -> bool;

    /// Append a debug description of the subtree to `out`.
    fn print(&self, id: ViewId, cx: &mut Context, out: &mut String)
        requires
            self.wf(),
            old(cx).wf(),
        ensures
            final(cx).wf(),
            old(cx).dirty ==> final(cx).dirty,
            preserves_dispatch_state(*old(cx), *final(cx)),
            preserves_state_cells(*old(cx), *final(cx)),
            preserves_env_cells(*old(cx), *final(cx)),
    ;

    /// Record this subtree's draw commands.
    fn draw(&self, id: ViewId, cx: &mut Context, renderer: &mut Renderer)
        requires
            self.wf(),
            old(cx).wf(),
        ensures
            final(cx).wf(),
            old(cx).dirty ==> final(cx).dirty,
            preserves_dispatch_state(*old(cx), *final(cx)),
            preserves_state_cells(*old(cx), *final(cx)),
            preserves_env_cells(*old(cx), *final(cx)),
    ;

    /// Two-pass layout, top down: the parent offers `sz`; the node returns
    /// the size it used, after recording its own layout rectangle under its
    /// own identity where later passes of the same frame will read it.
    fn layout(&self, id: ViewId, sz: LocalSize, cx: &mut Context, renderer: &mut Renderer) -> (
        used: LocalSize)
        requires
            self.wf(),
            old(cx).wf(),
            sz.wf(),
        ensures
            final(cx).wf(),
            used.wf(),
            old(cx).dirty ==> final(cx).dirty,
            preserves_dispatch_state(*old(cx), *final(cx)),
            preserves_state_cells(*old(cx), *final(cx)),
            preserves_env_cells(*old(cx), *final(cx)),
    ;

    /// The identity of the innermost view containing `pt`, if any. Reads
    /// this frame's layout results; an identity without one counts as
    /// zero-sized.
    fn hittest(&self, id: ViewId, pt: LocalPoint, cx: &mut Context) -> (r: Option<ViewId>)
        requires
            self.wf(),
            old(cx).wf(),
            pt.wf(),
        ensures
            final(cx).wf(),
            self.hits(id, pt, *old(cx), r),
            final(cx).layout@ == old(cx).layout@,
            final(cx).dirty == old(cx).dirty,
            preserves_dispatch_state(*old(cx), *final(cx)),
            preserves_state_cells(*old(cx), *final(cx)),
            preserves_env_cells(*old(cx), *final(cx)),
    ;

    /// Append the commands this subtree contributes.
    fn commands(&self, id: ViewId, cx: &mut Context, cmds: &mut Vec<CommandInfo>)
        requires
            self.wf(),
            old(cx).wf(),
        ensures
            final(cx).wf(),
            old(cx).dirty ==> final(cx).dirty,
            preserves_dispatch_state(*old(cx), *final(cx)),
            preserves_state_cells(*old(cx), *final(cx)),
            preserves_env_cells(*old(cx), *final(cx)),
    ;

    /// GC mark phase: append the identity of every state cell this subtree
    /// reaches; entries already marked stay marked.
    fn gc(&self, id: ViewId, cx: &mut Context, map: &mut Vec<ViewId>)
        requires
            self.wf(),
            old(cx).wf(),
        ensures
            final(cx).wf(),
            old(map)@.is_prefix_of(final(map)@),
            old(cx).dirty ==> final(cx).dirty,
            preserves_dispatch_state(*old(cx), *final(cx)),
            preserves_state_cells(*old(cx), *final(cx)),
            preserves_env_cells(*old(cx), *final(cx)),
    ;

    /// Emit accessibility nodes for this subtree; returns the id of the
    /// node standing for it, if it emits one.
    fn access(&self, id: ViewId, cx: &mut Context, nodes: &mut Vec<accesskit::Node>) -> (r: Option<
        accesskit::NodeId,
    >)
        requires
            self.wf(),
            old(cx).wf(),
        ensures
            final(cx).wf(),
            old(cx).dirty ==> final(cx).dirty,
            preserves_dispatch_state(*old(cx), *final(cx)),
            preserves_state_cells(*old(cx), *final(cx)),
            preserves_env_cells(*old(cx), *final(cx)),
    ;
}

/// The full capability set of a tree node: the core passes plus event
/// dispatch, generic over the opaque action type `A` that processing
/// reports to ancestors and the host.
pub trait View<A>: ViewCore {
    /// Handle one event, appending any actions for the host to interpret.
    /// Never clears the dirty flag, and never touches the root identity or
    /// the mouse button, which belong to the host.
    fn process(&self, event: &Event, id: ViewId, cx: &mut Context, actions: &mut Vec<A>)
        requires
            self.wf(),
            old(cx).wf(),
            event.wf(),
        ensures
            final(cx).wf(),
            old(cx).dirty ==> final(cx).dirty,
            final(cx).root_id == old(cx).root_id,
            final(cx).mouse_button == old(cx).mouse_button,
            keeps_state_keys(*old(cx), *final(cx)),
            preserves_env_cells(*old(cx), *final(cx)),
    ;
}

/// A view with no children, no state, no size and no reaction to anything.
pub struct EmptyView {}

impl Wf for EmptyView {
    open spec fn wf(&self) -> bool {
        true
    }
}

impl<A> View<A> for EmptyView {
    fn process(&self, _event: &Event, _id: ViewId, _cx: &mut Context, _actions: &mut Vec<A>) {
    }
}

impl ViewCore for EmptyView {
    open spec fn hits(&self, id: ViewId, pt: LocalPoint, cx: Context, r: Option<ViewId>) -> bool {
        r is None
    }

    fn print(&self, _id: ViewId, _cx: &mut Context, out: &mut String) {
        out.append("EmptyView");
    }

    fn draw(&self, _id: ViewId, _cx: &mut Context, _renderer: &mut Renderer) {
    }

    fn layout(&self, _id: ViewId, _sz: LocalSize, _cx: &mut Context, _renderer: &mut Renderer) -> (
        used: LocalSize)
        ensures
            used == (LocalSize { width: 0, height: 0 }),
    {
        LocalSize { width: 0, height: 0 }
    }

    fn hittest(&self, _id: ViewId, _pt: LocalPoint, _cx: &mut Context) -> (r: Option<ViewId>)
        ensures
            r is None,
    {
        None
    }

    fn commands(&self, _id: ViewId, _cx: &mut Context, _cmds: &mut Vec<CommandInfo>) {
    }

    fn gc(&self, _id: ViewId, _cx: &mut Context, map: &mut Vec<ViewId>) {
    }

    fn access(&self, _id: ViewId, _cx: &mut Context, _nodes: &mut Vec<accesskit::Node>) -> (r:
        Option<accesskit::NodeId>)
        ensures
            r is None,
    {
        None
    }
}

/// One full frame, as the host shell drives it: the top-down layout
/// pass, then draw, then the GC mark traversal over the freshly rebuilt
/// tree and the sweep of unmarked state cells. Returns the frame's
/// display list. No pass of a traversal ever clears the dirty flag —
/// clearing it after a redraw belongs to the host alone.
pub fn run_frame<V: ViewCore>(view: &V, sz: LocalSize, cx: &mut Context) -> (r: Renderer)
    requires
        view.wf(),
        old(cx).wf(),
        sz.wf(),
    ensures
        final(cx).wf(),
        old(cx).dirty ==> final(cx).dirty,
        forall|k: u64|
            #[trigger] final(cx).state_map@.contains_key(k) && old(cx).state_map@.contains_key(k)
                ==> final(cx).state_map@[k] == old(cx).state_map@[k],
{
    let mut renderer = Renderer::new();
    let root = cx.root_id;
    view.layout(root, sz, cx, &mut renderer);
    view.draw(root, cx, &mut renderer);
    let mut alive: Vec<ViewId> = Vec::new();
    view.gc(root, cx, &mut alive);
    cx.gc_sweep(&alive);
    renderer
}

} // verus!
