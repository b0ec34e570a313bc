//! A view that fixes the size offered to its child.

use vstd::prelude::*;

verus! {

use crate::context::Context;
use crate::geom::LocalPoint;
use crate::geom::LocalSize;
use crate::renderer::Renderer;
use crate::view::CommandInfo;
use crate::view::Event;
use crate::view::View;
use crate::view::ViewCore;
use crate::view::Wf;
use crate::viewid::ViewId;
use vstd::string::StringExecFns;
use vstd::view::View as ValueView;

/// Struct for `Size`: lays its child out at a fixed size, whatever the
/// parent offers.
pub struct Size<V> {
    pub child: V,
    pub size: LocalSize,
}

impl<V> Size<V> {
    pub fn new(child: V, size: LocalSize) -> (r: Self)
        requires
            size.wf(),
        ensures
            r.child == child,
            r.size == size,
    {
        Self { child, size }
    }
}

impl<V: Wf> Wf for Size<V> {
    open spec fn wf(&self) -> bool {
        self.child.wf() && self.size.wf()
    }
}

impl<A, V: View<A>> View<A> for Size<V> {
    fn process(&self, event: &Event, id: ViewId, cx: &mut Context, actions: &mut Vec<A>) {
        self.child.process(event, id.child(0), cx, actions);
    }
}

impl<V: ViewCore> ViewCore for Size<V> {
    open spec fn hits(&self, id: ViewId, pt: LocalPoint, cx: Context, r: Option<ViewId>) -> bool {
        self.child.hits(id.spec_child(0), pt, cx, r)
    }

    fn print(&self, id: ViewId, cx: &mut Context, out: &mut String) {
        out.append("Size { ");
        self.child.print(id.child(0), cx, out);
        out.append(" }");
    }

    fn draw(&self, id: ViewId, cx: &mut Context, renderer: &mut Renderer) {
        self.child.draw(id.child(0), cx, renderer);
    }

    fn layout(&self, id: ViewId, _sz: LocalSize, cx: &mut Context, renderer: &mut Renderer) -> (
        used: LocalSize)
        ensures
            used == self.size,
    {
        self.child.layout(id.child(0), self.size, cx, renderer);
        self.size
    }

    fn hittest(&self, id: ViewId, pt: LocalPoint, cx: &mut Context) -> (r: Option<ViewId>) {
        self.child.hittest(id.child(0), pt, cx)
    }

    fn commands(&self, id: ViewId, cx: &mut Context, cmds: &mut Vec<CommandInfo>) {
        self.child.commands(id.child(0), cx, cmds);
    }

    fn gc(&self, id: ViewId, cx: &mut Context, map: &mut Vec<ViewId>) {
        self.child.gc(id.child(0), cx, map);
    }

    fn access(&self, id: ViewId, cx: &mut Context, nodes: &mut Vec<accesskit::Node>) -> (r: Option<
        accesskit::NodeId,
    >) {
        self.child.access(id.child(0), cx, nodes)
    }
}

} // verus!
