//! The `tap` gesture in its action-reporting form: the callback's result
//! is appended to the action list.

use vstd::prelude::*;

verus! {

use crate::context::Context;
use crate::geom::LocalPoint;
use crate::geom::LocalSize;
use crate::renderer::Renderer;
use crate::view::CommandInfo;
use crate::view::Event;
use crate::view::EventKind;
use crate::view::View;
use crate::view::ViewCore;
use crate::view::Wf;
use crate::viewid::ViewId;
use vstd::string::StringExecFns;
use vstd::view::View as ValueView;

/// Struct for the `tap` gesture.
pub struct Tap<V, F> {
    pub child: V,
    pub func: F,
}

impl<A, V: Wf, F: Fn() -> A> Wf for Tap<V, F> {
    open spec fn wf(&self) -> bool {
        self.child.wf() && call_requires(self.func, ())
    }
}

impl<A, V: Wf, F: Fn() -> A + 'static> Tap<V, F> {
    pub fn new(v: V, f: F) -> (r: Self)
        requires
            v.wf(),
            call_requires(f, ()),
        ensures
            r.wf(),
            r.child == v,
            r.func == f,
    {
        Self { child: v, func: f }
    }
}

impl<A, V: View<A>, F: Fn() -> A + 'static> View<A> for Tap<V, F> {
    fn process(&self, event: &Event, vid: ViewId, cx: &mut Context, actions: &mut Vec<A>)
        ensures
            final(cx).layout@ == old(cx).layout@,
            final(cx).dirty == old(cx).dirty,
            final(cx).focused_id == old(cx).focused_id,
            crate::view::preserves_state_cells(*old(cx), *final(cx)),
            event.kind matches EventKind::PressButton(name) ==> *final(cx) == *old(cx)
                && final(actions)@ == old(actions)@,
            event.kind matches EventKind::Key(k) ==> *final(cx) == *old(cx) && final(actions)@
                == old(actions)@,
            event.kind matches EventKind::TouchBegin { id } ==> final(actions)@ == old(actions)@
                && exists|h: Option<ViewId>|
                {
                    &&& #[trigger] self.hits(vid, event.position, *old(cx), h)
                    &&& h is Some ==> {
                        &&& final(cx).touches@ == old(cx).touches@.update(id as int, vid)
                        &&& final(cx).starts@ == old(cx).starts@.update(id as int, event.position)
                        &&& final(cx).previous_position@ == old(cx).previous_position@.update(
                            id as int,
                            event.position,
                        )
                    }
                    &&& h is None ==> {
                        &&& final(cx).touches@ == old(cx).touches@
                        &&& final(cx).starts@ == old(cx).starts@
                        &&& final(cx).previous_position@ == old(cx).previous_position@
                    }
                },
            event.kind matches EventKind::TouchMove { id } ==> *final(cx) == *old(cx)
                && final(actions)@ == old(actions)@,
            event.kind matches EventKind::TouchEnd { id } ==> {
                &&& old(cx).touches@[id as int] != vid ==> *final(cx) == *old(cx)
                    && final(actions)@ == old(actions)@
                &&& old(cx).touches@[id as int] == vid ==> {
                    &&& final(cx).touches@ == old(cx).touches@.update(id as int, ViewId { id: 0 })
                    &&& final(cx).starts@ == old(cx).starts@
                    &&& final(cx).previous_position@ == old(cx).previous_position@
                    &&& exists|h: Option<ViewId>|
                        {
                            &&& #[trigger] self.hits(vid, event.position, *old(cx), h)
                            &&& h is None ==> final(actions)@ == old(actions)@
                            &&& h is Some ==> exists|a: A|
                                #[trigger] call_ensures(self.func, (), a) && final(actions)@
                                    == old(actions)@.push(a)
                        }
                }
            },
    {
        match &event.kind {
            EventKind::TouchBegin { id } => {
                if self.hittest(vid, event.position, cx).is_some() {
                    cx.capture_touch(*id, vid, event.position);
                }
            },
            EventKind::TouchEnd { id } => {
                if cx.is_captured_by(*id, vid) {
                    // a tap needs a hit at the end as well as at the
                    // begin; either way the slot is freed
                    let hit = self.hittest(vid, event.position, cx).is_some();
                    cx.release_touch(*id);
                    if hit {
                        actions.push((self.func)());
                    }
                }
            },
            _ => {},
        }
    }
}

impl<A, V: ViewCore, F: Fn() -> A + 'static> ViewCore for Tap<V, F> {
    open spec fn hits(&self, id: ViewId, pt: LocalPoint, cx: Context, r: Option<ViewId>) -> bool {
        self.child.hits(id.spec_child(0), pt, cx, r)
    }

    fn print(&self, id: ViewId, cx: &mut Context, out: &mut String) {
        out.append("Tap { ");
        self.child.print(id.child(0), cx, out);
        out.append(" }");
    }

    fn draw(&self, id: ViewId, cx: &mut Context, renderer: &mut Renderer) {
        self.child.draw(id.child(0), cx, renderer);
    }

    fn layout(&self, id: ViewId, sz: LocalSize, cx: &mut Context, renderer: &mut Renderer) -> (
        used: LocalSize) {
        self.child.layout(id.child(0), sz, cx, renderer)
    }

    fn hittest(&self, id: ViewId, pt: LocalPoint, cx: &mut Context) -> (r: Option<ViewId>) {
        self.child.hittest(id.child(0), pt, cx)
    }

    fn commands(&self, id: ViewId, cx: &mut Context, cmds: &mut Vec<CommandInfo>) {
        self.child.commands(id.child(0), cx, cmds);
    }

    fn gc(&self, id: ViewId, cx: &mut Context, map: &mut Vec<ViewId>) {
        self.child.gc(id.child(0), cx, map);
    }

    fn access(&self, id: ViewId, cx: &mut Context, nodes: &mut Vec<accesskit::Node>) -> (r: Option<
        accesskit::NodeId,
    >) {
        self.child.access(id.child(0), cx, nodes)
    }
}

} // verus!
