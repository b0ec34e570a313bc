//! Gesture recognizers built from the view protocol and the pointer
//! capture tables.
//!
//! Per pointer id the dispatch is a small state machine: free until a
//! `TouchBegin` whose hit-test succeeds captures the slot for the hit
//! view; while captured, every `TouchMove` reports a delta; `TouchEnd`
//! reports the final delta and frees the slot. Capture is exclusive per
//! slot and independent across slots, and a slot whose `TouchEnd` never
//! arrives simply stays captured until the next `TouchBegin` on it.

use vstd::prelude::*;

verus! {

use crate::context::Context;
use crate::geom::LocalOffset;
use crate::geom::LocalPoint;
use crate::geom::LocalSize;
use crate::renderer::Renderer;
use crate::view::CommandInfo;
use crate::view::Event;
use crate::view::EventKind;
use crate::view::View;
use crate::view::ViewCore;
use crate::view::Wf;
use crate::viewid::ViewId;
use vstd::string::StringExecFns;
use vstd::view::View as ValueView;

/// Which phase of a gesture a callback is seeing.
pub enum GestureState {
    Began,
    Changed,
    Ended,
}

/// Struct for the `tap` gesture: the callback fires when a pointer that
/// began inside the child ends, still captured, inside it as well; a
/// release outside cancels the tap but still frees the slot.
pub struct Tap<V, F> {
    pub child: V,
    pub func: F,
}

impl<V: Wf, F: Fn()> Wf for Tap<V, F> {
    open spec fn wf(&self) -> bool {
        self.child.wf() && call_requires(self.func, ())
    }
}

impl<V: Wf, F: Fn() + 'static> Tap<V, F> {
    pub fn new(v: V, f: F) -> (r: Self)
        requires
            v.wf(),
            call_requires(f, ()),
        ensures
            r.wf(),
            r.child == v,
            r.func == f,
    {
        Self { child: v, func: f }
    }
}

impl<A, V: View<A>, F: Fn() + 'static> View<A> for Tap<V, F> {
    fn process(&self, event: &Event, vid: ViewId, cx: &mut Context, _actions: &mut Vec<A>)
        ensures
            final(cx).layout@ == old(cx).layout@,
            final(cx).dirty == old(cx).dirty,
            final(cx).focused_id == old(cx).focused_id,
            crate::view::preserves_state_cells(*old(cx), *final(cx)),
            final(_actions)@ == old(_actions)@,
            event.kind matches EventKind::PressButton(name) ==> *final(cx) == *old(cx),
            event.kind matches EventKind::Key(k) ==> *final(cx) == *old(cx),
            event.kind matches EventKind::TouchBegin { id } ==> exists|h: Option<ViewId>|
                {
                    &&& #[trigger] self.hits(vid, event.position, *old(cx), h)
                    &&& h is Some ==> {
                        &&& final(cx).touches@ == old(cx).touches@.update(id as int, vid)
                        &&& final(cx).starts@ == old(cx).starts@.update(id as int, event.position)
                        &&& final(cx).previous_position@ == old(cx).previous_position@.update(
                            id as int,
                            event.position,
                        )
                    }
                    &&& h is None ==> {
                        &&& final(cx).touches@ == old(cx).touches@
                        &&& final(cx).starts@ == old(cx).starts@
                        &&& final(cx).previous_position@ == old(cx).previous_position@
                    }
                },
            event.kind matches EventKind::TouchMove { id } ==> *final(cx) == *old(cx),
            event.kind matches EventKind::TouchBegin { id } ==> final(cx).fired@ == old(
                cx,
            ).fired@,
            event.kind matches EventKind::TouchEnd { id } ==> {
                &&& old(cx).touches@[id as int] != vid ==> *final(cx) == *old(cx)
                &&& old(cx).touches@[id as int] == vid ==> {
                    &&& final(cx).touches@ == old(cx).touches@.update(id as int, ViewId { id: 0 })
                    &&& final(cx).starts@ == old(cx).starts@
                    &&& final(cx).previous_position@ == old(cx).previous_position@
                    &&& exists|h: Option<ViewId>|
                        {
                            &&& #[trigger] self.hits(vid, event.position, *old(cx), h)
                            &&& h is Some ==> final(cx).fired@ == old(cx).fired@.push(vid)
                            &&& h is None ==> final(cx).fired@ == old(cx).fired@
                        }
                }
            },
    {
        match &event.kind {
            EventKind::TouchBegin { id } => {
                if self.hittest(vid, event.position, cx).is_some() {
                    cx.capture_touch(*id, vid, event.position);
                }
            },
            EventKind::TouchEnd { id } => {
                if cx.is_captured_by(*id, vid) {
                    // a tap needs a hit at the end as well as at the
                    // begin; either way the slot is freed
                    let hit = self.hittest(vid, event.position, cx).is_some();
                    cx.release_touch(*id);
                    if hit {
                        (self.func)();
                        proof {
                            cx.fired@ = cx.fired@.push(vid);
                        }
                    }
                }
            },
            _ => {},
        }
    }
}

impl<V: ViewCore, F: Fn() + 'static> ViewCore for Tap<V, F> {
    open spec fn hits(&self, id: ViewId, pt: LocalPoint, cx: Context, r: Option<ViewId>) -> bool {
        self.child.hits(id.spec_child(0), pt, cx, r)
    }

    fn print(&self, id: ViewId, cx: &mut Context, out: &mut String) {
        out.append("Tap { ");
        self.child.print(id.child(0), cx, out);
        out.append(" }");
    }

    fn draw(&self, id: ViewId, cx: &mut Context, renderer: &mut Renderer) {
        self.child.draw(id.child(0), cx, renderer);
    }

    fn layout(&self, id: ViewId, sz: LocalSize, cx: &mut Context, renderer: &mut Renderer) -> (
        used: LocalSize) {
        self.child.layout(id.child(0), sz, cx, renderer)
    }

    fn hittest(&self, id: ViewId, pt: LocalPoint, cx: &mut Context) -> (r: Option<ViewId>) {
        self.child.hittest(id.child(0), pt, cx)
    }

    fn commands(&self, id: ViewId, cx: &mut Context, cmds: &mut Vec<CommandInfo>) {
        self.child.commands(id.child(0), cx, cmds);
    }

    fn gc(&self, id: ViewId, cx: &mut Context, map: &mut Vec<ViewId>) {
        self.child.gc(id.child(0), cx, map);
    }

    fn access(&self, id: ViewId, cx: &mut Context, nodes: &mut Vec<accesskit::Node>) -> (r: Option<
        accesskit::NodeId,
    >) {
        self.child.access(id.child(0), cx, nodes)
    }
}

/// Struct for the `drag` gesture: the callback sees every intermediate
/// delta while its pointer is captured, and the final delta when the
/// pointer ends.
pub struct Drag<V, F> {
    pub child: V,
    pub func: F,
}

impl<V: Wf, F: Fn(LocalOffset, GestureState)> Wf for Drag<V, F> {
    open spec fn wf(&self) -> bool {
        &&& self.child.wf()
        &&& forall|d: LocalOffset, g: GestureState| #[trigger] call_requires(self.func, (d, g))
    }
}

impl<V: Wf, F: Fn(LocalOffset, GestureState) + 'static> Drag<V, F> {
    pub fn new(v: V, f: F) -> (r: Self)
        requires
            v.wf(),
            forall|d: LocalOffset, g: GestureState| #[trigger] call_requires(f, (d, g)),
        ensures
            r.wf(),
            r.child == v,
            r.func == f,
    {
        Self { child: v, func: f }
    }
}

impl<A, V: View<A>, F: Fn(LocalOffset, GestureState) + 'static> View<A> for Drag<V, F> {
    fn process(&self, event: &Event, vid: ViewId, cx: &mut Context, _actions: &mut Vec<A>)
        ensures
            final(cx).layout@ == old(cx).layout@,
            final(cx).dirty == old(cx).dirty,
            final(cx).focused_id == old(cx).focused_id,
            crate::view::preserves_state_cells(*old(cx), *final(cx)),
            final(_actions)@ == old(_actions)@,
            event.kind matches EventKind::PressButton(name) ==> *final(cx) == *old(cx),
            event.kind matches EventKind::Key(k) ==> *final(cx) == *old(cx),
            event.kind matches EventKind::TouchBegin { id } ==> exists|h: Option<ViewId>|
                {
                    &&& #[trigger] self.hits(vid, event.position, *old(cx), h)
                    &&& h is Some ==> {
                        &&& final(cx).touches@ == old(cx).touches@.update(id as int, vid)
                        &&& final(cx).starts@ == old(cx).starts@.update(id as int, event.position)
                        &&& final(cx).previous_position@ == old(cx).previous_position@.update(
                            id as int,
                            event.position,
                        )
                    }
                    &&& h is None ==> {
                        &&& final(cx).touches@ == old(cx).touches@
                        &&& final(cx).starts@ == old(cx).starts@
                        &&& final(cx).previous_position@ == old(cx).previous_position@
                    }
                },
            event.kind matches EventKind::TouchMove { id } ==> {
                &&& old(cx).touches@[id as int] != vid ==> *final(cx) == *old(cx)
                &&& old(cx).touches@[id as int] == vid ==> {
                    &&& final(cx).previous_position@ == old(cx).previous_position@.update(
                        id as int,
                        event.position,
                    )
                    &&& final(cx).touches@ == old(cx).touches@
                    &&& final(cx).starts@ == old(cx).starts@
                    &&& Context::same_but_touches(*old(cx), *final(cx))
                }
            },
            event.kind matches EventKind::TouchEnd { id } ==> {
                &&& old(cx).touches@[id as int] != vid ==> *final(cx) == *old(cx)
                &&& old(cx).touches@[id as int] == vid ==> {
                    &&& final(cx).touches@ == old(cx).touches@.update(id as int, ViewId { id: 0 })
                    &&& final(cx).previous_position@ == old(cx).previous_position@.update(
                        id as int,
                        event.position,
                    )
                    &&& final(cx).starts@ == old(cx).starts@
                    &&& Context::same_but_touches(*old(cx), *final(cx))
                }
            },
    {
        match &event.kind {
            EventKind::TouchBegin { id } => {
                if self.hittest(vid, event.position, cx).is_some() {
                    cx.capture_touch(*id, vid, event.position);
                }
            },
            EventKind::TouchMove { id } => {
                if cx.is_captured_by(*id, vid) {
                    let delta = cx.touch_moved(*id, event.position);
                    (self.func)(delta, GestureState::Changed);
                }
            },
            EventKind::TouchEnd { id } => {
                if cx.is_captured_by(*id, vid) {
                    let delta = cx.touch_moved(*id, event.position);
                    cx.release_touch(*id);
                    (self.func)(delta, GestureState::Ended);
                }
            },
            _ => {},
        }
    }
}

impl<V: ViewCore, F: Fn(LocalOffset, GestureState) + 'static> ViewCore for Drag<V, F> {
    open spec fn hits(&self, id: ViewId, pt: LocalPoint, cx: Context, r: Option<ViewId>) -> bool {
        self.child.hits(id.spec_child(0), pt, cx, r)
    }

    fn print(&self, id: ViewId, cx: &mut Context, out: &mut String) {
        out.append("Drag { ");
        self.child.print(id.child(0), cx, out);
        out.append(" }");
    }

    fn draw(&self, id: ViewId, cx: &mut Context, renderer: &mut Renderer) {
        self.child.draw(id.child(0), cx, renderer);
    }

    fn layout(&self, id: ViewId, sz: LocalSize, cx: &mut Context, renderer: &mut Renderer) -> (
        used: LocalSize) {
        self.child.layout(id.child(0), sz, cx, renderer)
    }

    fn hittest(&self, id: ViewId, pt: LocalPoint, cx: &mut Context) -> (r: Option<ViewId>) {
        self.child.hittest(id.child(0), pt, cx)
    }

    fn commands(&self, id: ViewId, cx: &mut Context, cmds: &mut Vec<CommandInfo>) {
        self.child.commands(id.child(0), cx, cmds);
    }

    fn gc(&self, id: ViewId, cx: &mut Context, map: &mut Vec<ViewId>) {
        self.child.gc(id.child(0), cx, map);
    }

    fn access(&self, id: ViewId, cx: &mut Context, nodes: &mut Vec<accesskit::Node>) -> (r: Option<
        accesskit::NodeId,
    >) {
        self.child.access(id.child(0), cx, nodes)
    }
}

/// A second tap form: like `Tap`, but the callback's result is appended to
/// the action list for ancestors and the host to interpret.
pub struct Tap2<V, F> {
    pub child: V,
    pub func: F,
}

impl<A, V: Wf, F: Fn() -> A> Wf for Tap2<V, F> {
    open spec fn wf(&self) -> bool {
        self.child.wf() && call_requires(self.func, ())
    }
}

impl<A, V: Wf, F: Fn() -> A + 'static> Tap2<V, F> {
    pub fn new(v: V, f: F) -> (r: Self)
        requires
            v.wf(),
            call_requires(f, ()),
        ensures
            r.wf(),
            r.child == v,
            r.func == f,
    {
        Self { child: v, func: f }
    }
}

impl<A, V: View<A>, F: Fn() -> A + 'static> View<A> for Tap2<V, F> {
    fn process(&self, event: &Event, vid: ViewId, cx: &mut Context, actions: &mut Vec<A>)
        ensures
            final(cx).layout@ == old(cx).layout@,
            final(cx).dirty == old(cx).dirty,
            final(cx).focused_id == old(cx).focused_id,
            crate::view::preserves_state_cells(*old(cx), *final(cx)),
            event.kind matches EventKind::PressButton(name) ==> *final(cx) == *old(cx)
                && final(actions)@ == old(actions)@,
            event.kind matches EventKind::Key(k) ==> *final(cx) == *old(cx) && final(actions)@
                == old(actions)@,
            event.kind matches EventKind::TouchBegin { id } ==> final(actions)@ == old(actions)@
                && exists|h: Option<ViewId>|
                {
                    &&& #[trigger] self.hits(vid, event.position, *old(cx), h)
                    &&& h is Some ==> {
                        &&& final(cx).touches@ == old(cx).touches@.update(id as int, vid)
                        &&& final(cx).starts@ == old(cx).starts@.update(id as int, event.position)
                        &&& final(cx).previous_position@ == old(cx).previous_position@.update(
                            id as int,
                            event.position,
                        )
                    }
                    &&& h is None ==> {
                        &&& final(cx).touches@ == old(cx).touches@
                        &&& final(cx).starts@ == old(cx).starts@
                        &&& final(cx).previous_position@ == old(cx).previous_position@
                    }
                },
            event.kind matches EventKind::TouchMove { id } ==> *final(cx) == *old(cx)
                && final(actions)@ == old(actions)@,
            event.kind matches EventKind::TouchEnd { id } ==> {
                &&& old(cx).touches@[id as int] != vid ==> *final(cx) == *old(cx)
                    && final(actions)@ == old(actions)@
                &&& old(cx).touches@[id as int] == vid ==> {
                    &&& final(cx).touches@ == old(cx).touches@.update(id as int, ViewId { id: 0 })
                    &&& final(cx).starts@ == old(cx).starts@
                    &&& final(cx).previous_position@ == old(cx).previous_position@
                    &&& exists|h: Option<ViewId>|
                        {
                            &&& #[trigger] self.hits(vid, event.position, *old(cx), h)
                            &&& h is None ==> final(actions)@ == old(actions)@
                            &&& h is Some ==> exists|a: A|
                                #[trigger] call_ensures(self.func, (), a) && final(actions)@
                                    == old(actions)@.push(a)
                        }
                }
            },
    {
        match &event.kind {
            EventKind::TouchBegin { id } => {
                if self.hittest(vid, event.position, cx).is_some() {
                    cx.capture_touch(*id, vid, event.position);
                }
            },
            EventKind::TouchEnd { id } => {
                if cx.is_captured_by(*id, vid) {
                    // a tap needs a hit at the end as well as at the
                    // begin; either way the slot is freed
                    let hit = self.hittest(vid, event.position, cx).is_some();
                    cx.release_touch(*id);
                    if hit {
                        actions.push((self.func)());
                    }
                }
            },
            _ => {},
        }
    }
}

impl<A, V: ViewCore, F: Fn() -> A + 'static> ViewCore for Tap2<V, F> {
    open spec fn hits(&self, id: ViewId, pt: LocalPoint, cx: Context, r: Option<ViewId>) -> bool {
        self.child.hits(id.spec_child(0), pt, cx, r)
    }

    fn print(&self, id: ViewId, cx: &mut Context, out: &mut String) {
        out.append("Tap { ");
        self.child.print(id.child(0), cx, out);
        out.append(" }");
    }

    fn draw(&self, id: ViewId, cx: &mut Context, renderer: &mut Renderer) {
        self.child.draw(id.child(0), cx, renderer);
    }

    fn layout(&self, id: ViewId, sz: LocalSize, cx: &mut Context, renderer: &mut Renderer) -> (
        used: LocalSize) {
        self.child.layout(id.child(0), sz, cx, renderer)
    }

    fn hittest(&self, id: ViewId, pt: LocalPoint, cx: &mut Context) -> (r: Option<ViewId>) {
        self.child.hittest(id.child(0), pt, cx)
    }

    fn commands(&self, id: ViewId, cx: &mut Context, cmds: &mut Vec<CommandInfo>) {
        self.child.commands(id.child(0), cx, cmds);
    }

    fn gc(&self, id: ViewId, cx: &mut Context, map: &mut Vec<ViewId>) {
        self.child.gc(id.child(0), cx, map);
    }

    fn access(&self, id: ViewId, cx: &mut Context, nodes: &mut Vec<accesskit::Node>) -> (r: Option<
        accesskit::NodeId,
    >) {
        self.child.access(id.child(0), cx, nodes)
    }
}

/// Capture exclusivity and slot independence: after a pointer `p0` is
/// captured by `x` and a second pointer `p1` is captured by `x`, both
/// slots name `x` independently; releasing `p0` frees only `p0`, and `p1`
/// remains captured. The hypotheses are exactly what `capture_touch` and
/// `release_touch` establish for a `TouchBegin` whose hit-test found `x`
/// and for the matching `TouchEnd`.
pub proof fn lemma_capture_exclusive(
    c0: Context,
    c1: Context,
    c2: Context,
    c3: Context,
    x: ViewId,
    p0: usize,
    p1: usize,
)
    requires
        c0.wf(),
        p0 < crate::context::TOUCH_SLOTS,
        p1 < crate::context::TOUCH_SLOTS,
        p0 != p1,
        c1.touches@ == c0.touches@.update(p0 as int, x),
        c2.touches@ == c1.touches@.update(p1 as int, x),
        c3.touches@ == c2.touches@.update(p0 as int, ViewId { id: 0 }),
    ensures
        c1.touches@[p0 as int] == x,
        c2.touches@[p0 as int] == x,
        c2.touches@[p1 as int] == x,
        c3.touches@[p0 as int] == (ViewId { id: 0 }),
        c3.touches@[p1 as int] == x,
{
}

} // verus!
