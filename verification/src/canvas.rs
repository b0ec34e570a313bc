//! Direct drawing into a region: the view hands its laid-out rectangle to
//! a caller-supplied painting function.

use vstd::prelude::*;

verus! {

use crate::context::Context;
use crate::context::LayoutBox;
use crate::geom::LocalOffset;
use crate::geom::LocalPoint;
use crate::geom::LocalRect;
use crate::geom::LocalSize;
use crate::renderer::Renderer;
use crate::view::CommandInfo;
use crate::view::Event;
use crate::view::View;
use crate::view::ViewCore;
use crate::view::Wf;
use crate::viewid::ViewId;
use vstd::string::StringExecFns;
use vstd::view::View as ValueView;

/// Struct for `canvas`.
pub struct Canvas<F> {
    pub func: F,
}

/// A view that draws by calling `f` with its laid-out rectangle.
pub fn canvas<F: Fn(LocalRect, &mut Renderer) + 'static>(f: F) -> (r: Canvas<F>)
    requires
        forall|rect: LocalRect, v: &mut Renderer| #[trigger] call_requires(f, (rect, v)),
    ensures
        r.wf(),
        r.func == f,
{
    Canvas { func: f }
}

impl<F: Fn(LocalRect, &mut Renderer)> Wf for Canvas<F> {
    open spec fn wf(&self) -> bool {
        forall|rect: LocalRect, v: &mut Renderer| #[trigger] call_requires(self.func, (rect, v))
    }
}

impl<F: Fn(LocalRect, &mut Renderer)> Canvas<F> {
    /// Take all the offered space and record it as this view's rectangle.
    fn arrange(&self, id: ViewId, sz: LocalSize, cx: &mut Context) -> (used: LocalSize)
        requires
            old(cx).wf(),
            sz.wf(),
        ensures
            final(cx).wf(),
            used == sz,
            final(cx).layout@ == old(cx).layout@.insert(
                id.id,
                LayoutBox {
                    rect: LocalRect { origin: LocalPoint { x: 0, y: 0 }, size: sz },
                    offset: LocalOffset { x: 0, y: 0 },
                },
            ),
            Context::same_but_layout(*old(cx), *final(cx)),
    {
        cx.update_layout(
            id,
            LayoutBox {
                rect: LocalRect { origin: LocalPoint { x: 0, y: 0 }, size: sz },
                offset: LocalOffset { x: 0, y: 0 },
            },
        );
        sz
    }
}

impl<A, F: Fn(LocalRect, &mut Renderer)> View<A> for Canvas<F> {
    fn process(&self, _event: &Event, _id: ViewId, _cx: &mut Context, _actions: &mut Vec<A>) {
    }
}

impl<F: Fn(LocalRect, &mut Renderer)> ViewCore for Canvas<F> {
    open spec fn hits(&self, id: ViewId, pt: LocalPoint, cx: Context, r: Option<ViewId>) -> bool {
        r is None
    }

    fn print(&self, _id: ViewId, _cx: &mut Context, out: &mut String) {
        out.append("canvas");
    }

    fn draw(&self, id: ViewId, cx: &mut Context, renderer: &mut Renderer) {
        let lb = cx.layout_box(id);
        renderer.save();
        (self.func)(lb.rect, renderer);
        renderer.restore();
    }

    fn layout(&self, id: ViewId, sz: LocalSize, cx: &mut Context, _renderer: &mut Renderer) -> (
        used: LocalSize)
        ensures
            used == sz,
            final(cx).layout@ == old(cx).layout@.insert(
                id.id,
                LayoutBox {
                    rect: LocalRect { origin: LocalPoint { x: 0, y: 0 }, size: sz },
                    offset: LocalOffset { x: 0, y: 0 },
                },
            ),
            Context::same_but_layout(*old(cx), *final(cx)),
    {
        self.arrange(id, sz, cx)
    }

    fn hittest(&self, _id: ViewId, _pt: LocalPoint, _cx: &mut Context) -> (r: Option<ViewId>)
        ensures
            r is None,
    {
        None
    }

    fn commands(&self, _id: ViewId, _cx: &mut Context, _cmds: &mut Vec<CommandInfo>) {
    }

    fn gc(&self, _id: ViewId, _cx: &mut Context, _map: &mut Vec<ViewId>) {
    }

    fn access(&self, _id: ViewId, _cx: &mut Context, _nodes: &mut Vec<accesskit::Node>) -> (r:
        Option<accesskit::NodeId>) {
        None
    }
}

} // verus!
