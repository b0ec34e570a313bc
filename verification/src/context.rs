//! The per-session `Context`: all long-lived UI state.
//!
//! A `Context` owns the per-identity state store, the layout-result cache,
//! the pointer-capture tables, focus, and the dirty flag that tells the host
//! shell to schedule a redraw. It is passed by exclusive reference through
//! every call of a traversal, so no two views can mutate it concurrently by
//! construction.

use vstd::prelude::*;

verus! {

use std::collections::HashMap;
use crate::geom::LocalOffset;
use crate::geom::LocalPoint;
use crate::geom::LocalRect;
use crate::geom::LocalSize;
use crate::state::State;
use crate::state::StateType;
use crate::state::StateValue;
use crate::viewid::ViewId;

broadcast use vstd::std_specs::hash::group_hash_axioms;

/// Number of pointer/touch capture slots.
pub const TOUCH_SLOTS: usize = 16;

/// Which mouse button, if any, accompanies the current pointer event.
#[derive(Clone, Copy, Debug, PartialEq, Eq, Structural)]
pub enum MouseButton {
    Left,
    Right,
    Center,
}

/// The layout result recorded for one identity during the layout pass:
/// the node's rectangle in its local space, plus the offset its parent
/// assigned to compose it into parent space.
#[derive(Clone, Copy, Debug, PartialEq, Eq, Structural)]
pub struct LayoutBox {
    pub rect: LocalRect,
    pub offset: LocalOffset,
}

impl LayoutBox {
    pub open spec fn wf(self) -> bool {
        self.rect.wf() && self.offset.wf()
    }

    /// The zero-sized box reported for an identity that has no layout entry
    /// this frame.
    pub fn zero() -> (r: LayoutBox)
        ensures
            r == LayoutBox::spec_zero(),
    {
        LayoutBox {
            rect: LocalRect {
                origin: LocalPoint { x: 0, y: 0 },
                size: LocalSize { width: 0, height: 0 },
            },
            offset: LocalOffset { x: 0, y: 0 },
        }
    }

    pub open spec fn spec_zero() -> LayoutBox {
        LayoutBox {
            rect: LocalRect {
                origin: LocalPoint { x: 0, y: 0 },
                size: LocalSize { width: 0, height: 0 },
            },
            offset: LocalOffset { x: 0, y: 0 },
        }
    }
}

/// All UI state for one window/session.
pub struct Context {
    /// Layout information for all views visited during the last layout pass.
    pub layout: HashMap<u64, LayoutBox>,
    /// Which view each pointer/touch id is captured by; the null identity
    /// marks a free slot. Always `TOUCH_SLOTS` entries.
    pub touches: Vec<ViewId>,
    /// Points at which captures started. Always `TOUCH_SLOTS` entries.
    pub starts: Vec<LocalPoint>,
    /// Previous position for each pointer id. Always `TOUCH_SLOTS` entries.
    pub previous_position: Vec<LocalPoint>,
    /// The root view identity.
    pub root_id: ViewId,
    /// The view that has keyboard focus, if any.
    pub focused_id: Option<ViewId>,
    /// The mouse button held during the pointer event being dispatched.
    pub mouse_button: Option<MouseButton>,
    /// Per-identity store of long-lived state values.
    pub state_map: HashMap<u64, StateValue>,
    /// Session-scoped environment values, keyed by state-type tag.
    pub env_map: HashMap<u64, StateValue>,
    /// Set by every mutation of stored state; polled and cleared by the host.
    pub dirty: bool,
    /// Specification-only log of the view callbacks a dispatch invoked, in
    /// order: how an invisible `Fn()` firing shows up in contracts. Erased
    /// at compile time.
    pub fired: Ghost<Seq<ViewId>>,
}

impl Context {
    /// Structural well-formedness: the capture tables have exactly
    /// `TOUCH_SLOTS` slots and every stored coordinate is in range.
    pub open spec fn wf(self) -> bool {
        &&& self.touches@.len() == TOUCH_SLOTS
        &&& self.starts@.len() == TOUCH_SLOTS
        &&& self.previous_position@.len() == TOUCH_SLOTS
        &&& forall|i: int| 0 <= i < TOUCH_SLOTS ==> (#[trigger] self.starts@[i]).wf()
        &&& forall|i: int| 0 <= i < TOUCH_SLOTS ==> (#[trigger] self.previous_position@[i]).wf()
        &&& forall|k: u64|
            self.layout@.contains_key(k) ==> (#[trigger] self.layout@[k]).wf()
    }

    /// The layout box recorded for `id`, or the zero-sized box if `id` was
    /// not visited during the last layout pass.
    pub open spec fn spec_layout_box(self, id: ViewId) -> LayoutBox {
        if self.layout@.contains_key(id.id) {
            self.layout@[id.id]
        } else {
            LayoutBox::spec_zero()
        }
    }

    pub fn new() -> (r: Context)
        ensures
            r.wf(),
            r.layout@ == Map::<u64, LayoutBox>::empty(),
            r.state_map@ == Map::<u64, StateValue>::empty(),
            r.env_map@ == Map::<u64, StateValue>::empty(),
            forall|i: int| 0 <= i < TOUCH_SLOTS ==> (#[trigger] r.touches@[i]) == (ViewId { id: 0 }),
            forall|i: int| 0 <= i < TOUCH_SLOTS ==> (#[trigger] r.starts@[i]) == (LocalPoint { x: 0, y: 0 }),
            forall|i: int|
                0 <= i < TOUCH_SLOTS ==> (#[trigger] r.previous_position@[i]) == (LocalPoint {
                    x: 0,
                    y: 0,
                }),
            r.root_id == (ViewId { id: 1 }),
            r.focused_id is None,
            r.mouse_button is None,
            !r.dirty,
            r.fired@ == Seq::<ViewId>::empty(),
    {
        let mut touches: Vec<ViewId> = Vec::new();
        let mut starts: Vec<LocalPoint> = Vec::new();
        let mut previous_position: Vec<LocalPoint> = Vec::new();
        let mut i: usize = 0;
        while i < TOUCH_SLOTS
        invariant
            touches@.len() == i,
            starts@.len() == i,
            previous_position@.len() == i,
            i <= TOUCH_SLOTS,
            forall|j: int| 0 <= j < i ==> (#[trigger] touches@[j]) == (ViewId { id: 0 }),
            forall|j: int| 0 <= j < i ==> (#[trigger] starts@[j]) == (LocalPoint { x: 0, y: 0 }),
            forall|j: int|
                0 <= j < i ==> (#[trigger] previous_position@[j]) == (LocalPoint { x: 0, y: 0 }),
        decreases TOUCH_SLOTS - i,
        {
            touches.push(ViewId { id: 0 });
            starts.push(LocalPoint { x: 0, y: 0 });
            previous_position.push(LocalPoint { x: 0, y: 0 });
            i = i + 1;
        }
        Context {
            layout: HashMap::new(),
            touches,
            starts,
            previous_position,
            root_id: ViewId { id: 1 },
            focused_id: None,
            mouse_button: None,
            state_map: HashMap::new(),
            env_map: HashMap::new(),
            dirty: false,
            fired: Ghost(Seq::empty()),
        }
    }

    /// True when everything except the layout map agrees between `a` and `b`.
    pub open spec fn same_but_layout(a: Context, b: Context) -> bool {
        &&& b.touches == a.touches
        &&& b.starts == a.starts
        &&& b.previous_position == a.previous_position
        &&& b.root_id == a.root_id
        &&& b.focused_id == a.focused_id
        &&& b.mouse_button == a.mouse_button
        &&& b.state_map == a.state_map
        &&& b.env_map == a.env_map
        &&& b.dirty == a.dirty
        &&& b.fired == a.fired
    }

    /// True when everything except the capture tables agrees.
    pub open spec fn same_but_touches(a: Context, b: Context) -> bool {
        &&& b.layout == a.layout
        &&& b.root_id == a.root_id
        &&& b.focused_id == a.focused_id
        &&& b.mouse_button == a.mouse_button
        &&& b.state_map == a.state_map
        &&& b.env_map == a.env_map
        &&& b.dirty == a.dirty
        &&& b.fired == a.fired
    }

    /// True when everything except the invocation log agrees.
    pub open spec fn same_but_fired(a: Context, b: Context) -> bool {
        &&& b.layout == a.layout
        &&& b.touches == a.touches
        &&& b.starts == a.starts
        &&& b.previous_position == a.previous_position
        &&& b.root_id == a.root_id
        &&& b.focused_id == a.focused_id
        &&& b.mouse_button == a.mouse_button
        &&& b.state_map == a.state_map
        &&& b.env_map == a.env_map
        &&& b.dirty == a.dirty
    }

    /// True when everything except the focused identity agrees.
    pub open spec fn same_but_focus(a: Context, b: Context) -> bool {
        &&& b.layout == a.layout
        &&& b.touches == a.touches
        &&& b.starts == a.starts
        &&& b.previous_position == a.previous_position
        &&& b.root_id == a.root_id
        &&& b.mouse_button == a.mouse_button
        &&& b.state_map == a.state_map
        &&& b.env_map == a.env_map
        &&& b.dirty == a.dirty
        &&& b.fired == a.fired
    }

    /// True when everything except the environment map agrees.
    pub open spec fn same_but_env(a: Context, b: Context) -> bool {
        &&& b.layout == a.layout
        &&& b.touches == a.touches
        &&& b.starts == a.starts
        &&& b.previous_position == a.previous_position
        &&& b.root_id == a.root_id
        &&& b.focused_id == a.focused_id
        &&& b.mouse_button == a.mouse_button
        &&& b.state_map == a.state_map
        &&& b.dirty == a.dirty
        &&& b.fired == a.fired
    }

    /// True when everything except the state store and the dirty flag agrees.
    pub open spec fn same_but_state(a: Context, b: Context) -> bool {
        &&& b.layout == a.layout
        &&& b.touches == a.touches
        &&& b.starts == a.starts
        &&& b.previous_position == a.previous_position
        &&& b.root_id == a.root_id
        &&& b.focused_id == a.focused_id
        &&& b.mouse_button == a.mouse_button
        &&& b.env_map == a.env_map
        &&& b.fired == a.fired
    }

    /// Record the layout result for `id`. A view calls this for its own
    /// identity before returning from `layout`, so that later passes of the
    /// same frame can read it.
    pub fn update_layout(&mut self, id: ViewId, lb: LayoutBox)
        requires
            old(self).wf(),
            lb.wf(),
        ensures
            final(self).wf(),
            final(self).layout@ == old(self).layout@.insert(id.id, lb),
            Context::same_but_layout(*old(self), *final(self)),
    {
        self.layout.insert(id.id, lb);
    }

    /// The layout box recorded for `id` this frame, or the zero-sized box if
    /// none was: reading before layout has run is not an error.
    pub fn layout_box(&self, id: ViewId) -> (r: LayoutBox)
        requires
            self.wf(),
        ensures
            r == self.spec_layout_box(id),
            r.wf(),
    {
        match self.layout.get(&id.id) {
            Some(lb) => *lb,
            None => LayoutBox::zero(),
        }
    }

    /// Whether pointer `pointer` is currently captured by `vid`.
    pub fn is_captured_by(&self, pointer: usize, vid: ViewId) -> (r: bool)
        requires
            self.wf(),
            pointer < TOUCH_SLOTS,
        ensures
            r == (self.touches@[pointer as int] == vid),
    {
        self.touches[pointer].id == vid.id
    }

    /// Capture pointer `pointer` for view `vid`, recording the gesture start
    /// and previous position. Only this slot of the capture tables changes.
    pub fn capture_touch(&mut self, pointer: usize, vid: ViewId, position: LocalPoint)
        requires
            old(self).wf(),
            pointer < TOUCH_SLOTS,
            position.wf(),
        ensures
            final(self).wf(),
            final(self).touches@ == old(self).touches@.update(pointer as int, vid),
            final(self).starts@ == old(self).starts@.update(pointer as int, position),
            final(self).previous_position@ == old(self).previous_position@.update(
                pointer as int,
                position,
            ),
            Context::same_but_touches(*old(self), *final(self)),
    {
        self.touches.set(pointer, vid);
        self.starts.set(pointer, position);
        self.previous_position.set(pointer, position);
    }

    /// Release pointer `pointer`: its slot returns to the null identity.
    /// The start and previous-position entries are left behind; they are
    /// meaningless while the slot is free and are overwritten by the next
    /// capture.
    pub fn release_touch(&mut self, pointer: usize)
        requires
            old(self).wf(),
            pointer < TOUCH_SLOTS,
        ensures
            final(self).wf(),
            final(self).touches@ == old(self).touches@.update(pointer as int, ViewId { id: 0 }),
            final(self).starts@ == old(self).starts@,
            final(self).previous_position@ == old(self).previous_position@,
            Context::same_but_touches(*old(self), *final(self)),
    {
        self.touches.set(pointer, ViewId { id: 0 });
    }

    /// The movement of pointer `pointer` since its last reported position:
    /// `position - previous_position[pointer]`. Updates the previous
    /// position to `position`.
    pub fn touch_moved(&mut self, pointer: usize, position: LocalPoint) -> (delta: LocalOffset)
        requires
            old(self).wf(),
            pointer < TOUCH_SLOTS,
            position.wf(),
        ensures
            final(self).wf(),
            delta.x == position.x - old(self).previous_position@[pointer as int].x,
            delta.y == position.y - old(self).previous_position@[pointer as int].y,
            delta.wf(),
            final(self).touches@ == old(self).touches@,
            final(self).starts@ == old(self).starts@,
            final(self).previous_position@ == old(self).previous_position@.update(
                pointer as int,
                position,
            ),
            Context::same_but_touches(*old(self), *final(self)),
    {
        let prev = self.previous_position[pointer];
        let delta = position.offset_from(&prev);
        self.previous_position.set(pointer, position);
        delta
    }

    /// Keep only the state entries whose identity appears in `alive`, which
    /// the mark phase of a GC pass collected from the freshly rebuilt tree.
    /// Every surviving entry keeps its value; every other entry is dropped.
    pub fn gc_sweep(&mut self, alive: &Vec<ViewId>)
        requires
            old(self).wf(),
        ensures
            final(self).wf(),
            forall|k: u64|
                #[trigger] final(self).state_map@.contains_key(k) <==> (
                old(self).state_map@.contains_key(k) && alive@.contains(ViewId { id: k })),
            forall|k: u64|
                final(self).state_map@.contains_key(k) ==> #[trigger] final(self).state_map@[k]
                    == old(self).state_map@[k],
            Context::same_but_state(*old(self), *final(self)),
            final(self).dirty == old(self).dirty,
    {
        let mut kept: HashMap<u64, StateValue> = HashMap::new();
        let mut i: usize = 0;
        while i < alive.len()
            invariant
                i <= alive@.len(),
                forall|k: u64|
                    #[trigger] kept@.contains_key(k) <==> (old(self).state_map@.contains_key(k)
                        && exists|j: int| 0 <= j < i && alive@[j].id == k),
                forall|k: u64|
                    kept@.contains_key(k) ==> #[trigger] kept@[k] == old(self).state_map@[k],
                forall|k: u64|
                    #[trigger] self.state_map@.contains_key(k) <==> (old(
                        self,
                    ).state_map@.contains_key(k) && !kept@.contains_key(k)),
                forall|k: u64|
                    self.state_map@.contains_key(k) ==> #[trigger] self.state_map@[k] == old(
                        self,
                    ).state_map@[k],
                Context::same_but_state(*old(self), *self),
                self.dirty == old(self).dirty,
                self.wf(),
            decreases alive@.len() - i,
        {
            let id = alive[i];
            match self.state_map.remove(&id.id) {
                Some(v) => {
                    kept.insert(id.id, v);
                },
                None => {},
            }
            i = i + 1;
        }
        proof {
            assert forall|k: u64| #[trigger] kept@.contains_key(k) <==> (
            old(self).state_map@.contains_key(k) && alive@.contains(ViewId { id: k })) by {
                if kept@.contains_key(k) {
                    let j = choose|j: int| 0 <= j < alive@.len() && alive@[j].id == k;
                    assert(alive@[j] == (ViewId { id: k }));
                    assert(alive@.contains(ViewId { id: k }));
                }
                if alive@.contains(ViewId { id: k }) {
                    let j = choose|j: int| 0 <= j < alive@.len() && alive@[j] == (ViewId { id: k });
                    assert(alive@[j].id == k);
                }
            }
        }
        self.state_map = kept;
    }
}

/// Layout ordering: reading layout for an identity before the layout
/// pass has recorded one yields the zero-sized box, and a zero-sized box
/// contains no point — so drawing or hit-testing before layout is safe
/// and can never register a hit.
pub proof fn lemma_missing_layout_reads_zero(cx: Context, id: ViewId)
    requires
        !cx.layout@.contains_key(id.id),
    ensures
        cx.spec_layout_box(id) == LayoutBox::spec_zero(),
        forall|p: LocalPoint| !LayoutBox::spec_zero().rect.spec_contains(p),
{
}

} // verus!
