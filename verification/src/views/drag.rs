//! The `drag` gesture in its action-reporting form: the callback receives
//! the delta, the gesture phase and the mouse button, and its result is
//! appended to the action list.

use vstd::prelude::*;

verus! {

use crate::context::Context;
use crate::context::MouseButton;
use crate::geom::LocalOffset;
use crate::geom::LocalPoint;
use crate::geom::LocalSize;
use crate::renderer::Renderer;
use crate::view::CommandInfo;
use crate::view::Event;
use crate::view::EventKind;
use crate::view::View;
use crate::view::ViewCore;
use crate::view::Wf;
use crate::viewid::ViewId;
use vstd::string::StringExecFns;
use vstd::view::View as ValueView;

/// Which phase of a gesture a callback is seeing.
#[derive(Clone, Copy, Eq, PartialEq, Structural)]
pub enum GestureState {
    Began,
    Changed,
    Ended,
}

/// Struct for the `drag` gesture.
pub struct Drag<V, F> {
    pub child: V,
    pub func: F,
}

impl<A, V: Wf, F: Fn(LocalOffset, GestureState, Option<MouseButton>) -> A> Wf for Drag<V, F> {
    open spec fn wf(&self) -> bool {
        &&& self.child.wf()
        &&& forall|d: LocalOffset, g: GestureState, b: Option<MouseButton>|
            #[trigger] call_requires(self.func, (d, g, b))
    }
}

impl<A, V: Wf, F: Fn(LocalOffset, GestureState, Option<MouseButton>) -> A + 'static> Drag<V, F> {
    pub fn new(v: V, f: F) -> (r: Self)
        requires
            v.wf(),
            forall|d: LocalOffset, g: GestureState, b: Option<MouseButton>|
                #[trigger] call_requires(f, (d, g, b)),
        ensures
            r.wf(),
            r.child == v,
            r.func == f,
    {
        Self { child: v, func: f }
    }
}

impl<
    A,
    V: View<A>,
    F: Fn(LocalOffset, GestureState, Option<MouseButton>) -> A + 'static,
> View<A> for Drag<V, F> {
    fn process(&self, event: &Event, vid: ViewId, cx: &mut Context, actions: &mut Vec<A>)
        ensures
            final(cx).layout@ == old(cx).layout@,
            final(cx).dirty == old(cx).dirty,
            final(cx).focused_id == old(cx).focused_id,
            crate::view::preserves_state_cells(*old(cx), *final(cx)),
            event.kind matches EventKind::PressButton(name) ==> *final(cx) == *old(cx)
                && final(actions)@ == old(actions)@,
            event.kind matches EventKind::Key(k) ==> *final(cx) == *old(cx) && final(actions)@
                == old(actions)@,
            event.kind matches EventKind::TouchBegin { id } ==> final(actions)@ == old(actions)@
                && exists|h: Option<ViewId>|
                {
                    &&& #[trigger] self.hits(vid, event.position, *old(cx), h)
                    &&& h is Some ==> {
                        &&& final(cx).touches@ == old(cx).touches@.update(id as int, vid)
                        &&& final(cx).starts@ == old(cx).starts@.update(id as int, event.position)
                        &&& final(cx).previous_position@ == old(cx).previous_position@.update(
                            id as int,
                            event.position,
                        )
                    }
                    &&& h is None ==> {
                        &&& final(cx).touches@ == old(cx).touches@
                        &&& final(cx).starts@ == old(cx).starts@
                        &&& final(cx).previous_position@ == old(cx).previous_position@
                    }
                },
            event.kind matches EventKind::TouchMove { id } ==> {
                &&& old(cx).touches@[id as int] != vid ==> *final(cx) == *old(cx)
                    && final(actions)@ == old(actions)@
                &&& old(cx).touches@[id as int] == vid ==> {
                    &&& final(cx).previous_position@ == old(cx).previous_position@.update(
                        id as int,
                        event.position,
                    )
                    &&& final(cx).touches@ == old(cx).touches@
                    &&& final(cx).starts@ == old(cx).starts@
                    &&& Context::same_but_touches(*old(cx), *final(cx))
                    &&& exists|a: A|
                        #[trigger] call_ensures(
                            self.func,
                            (
                                LocalOffset {
                                    x: (event.position.x
                                        - old(cx).previous_position@[id as int].x) as i64,
                                    y: (event.position.y
                                        - old(cx).previous_position@[id as int].y) as i64,
                                },
                                GestureState::Changed,
                                old(cx).mouse_button,
                            ),
                            a,
                        ) && final(actions)@ == old(actions)@.push(a)
                }
            },
            event.kind matches EventKind::TouchEnd { id } ==> {
                &&& old(cx).touches@[id as int] != vid ==> *final(cx) == *old(cx)
                    && final(actions)@ == old(actions)@
                &&& old(cx).touches@[id as int] == vid ==> {
                    &&& final(cx).touches@ == old(cx).touches@.update(id as int, ViewId { id: 0 })
                    &&& final(cx).previous_position@ == old(cx).previous_position@.update(
                        id as int,
                        event.position,
                    )
                    &&& final(cx).starts@ == old(cx).starts@
                    &&& Context::same_but_touches(*old(cx), *final(cx))
                    &&& exists|a: A|
                        #[trigger] call_ensures(
                            self.func,
                            (
                                LocalOffset {
                                    x: (event.position.x
                                        - old(cx).previous_position@[id as int].x) as i64,
                                    y: (event.position.y
                                        - old(cx).previous_position@[id as int].y) as i64,
                                },
                                GestureState::Ended,
                                old(cx).mouse_button,
                            ),
                            a,
                        ) && final(actions)@ == old(actions)@.push(a)
                }
            },
    {
        match &event.kind {
            EventKind::TouchBegin { id } => {
                if self.hittest(vid, event.position, cx).is_some() {
                    cx.capture_touch(*id, vid, event.position);
                }
            },
            EventKind::TouchMove { id } => {
                if cx.is_captured_by(*id, vid) {
                    let delta = cx.touch_moved(*id, event.position);
                    let button = cx.mouse_button;
                    actions.push((self.func)(delta, GestureState::Changed, button));
                }
            },
            EventKind::TouchEnd { id } => {
                if cx.is_captured_by(*id, vid) {
                    let delta = cx.touch_moved(*id, event.position);
                    cx.release_touch(*id);
                    let button = cx.mouse_button;
                    actions.push((self.func)(delta, GestureState::Ended, button));
                }
            },
            _ => {},
        }
    }
}

impl<
    A,
    V: ViewCore,
    F: Fn(LocalOffset, GestureState, Option<MouseButton>) -> A + 'static,
> ViewCore for Drag<V, F> {
    open spec fn hits(&self, id: ViewId, pt: LocalPoint, cx: Context, r: Option<ViewId>) -> bool {
        self.child.hits(id.spec_child(0), pt, cx, r)
    }

    fn print(&self, id: ViewId, cx: &mut Context, out: &mut String) {
        out.append("Drag { ");
        self.child.print(id.child(0), cx, out);
        out.append(" }");
    }

    fn draw(&self, id: ViewId, cx: &mut Context, renderer: &mut Renderer) {
        self.child.draw(id.child(0), cx, renderer);
    }

    fn layout(&self, id: ViewId, sz: LocalSize, cx: &mut Context, renderer: &mut Renderer) -> (
        used: LocalSize) {
        self.child.layout(id.child(0), sz, cx, renderer)
    }

    fn hittest(&self, id: ViewId, pt: LocalPoint, cx: &mut Context) -> (r: Option<ViewId>) {
        self.child.hittest(id.child(0), pt, cx)
    }

    fn commands(&self, id: ViewId, cx: &mut Context, cmds: &mut Vec<CommandInfo>) {
        self.child.commands(id.child(0), cx, cmds);
    }

    fn gc(&self, id: ViewId, cx: &mut Context, map: &mut Vec<ViewId>) {
        self.child.gc(id.child(0), cx, map);
    }

    fn access(&self, id: ViewId, cx: &mut Context, nodes: &mut Vec<accesskit::Node>) -> (r: Option<
        accesskit::NodeId,
    >) {
        self.child.access(id.child(0), cx, nodes)
    }
}

} // verus!
