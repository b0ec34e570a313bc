//! Geometric leaf views.

use vstd::prelude::*;

verus! {

use crate::context::Context;
use crate::context::LayoutBox;
use crate::geom::LocalOffset;
use crate::geom::LocalPoint;
use crate::geom::LocalRect;
use crate::geom::LocalSize;
use crate::renderer::Color;
use crate::renderer::Renderer;
use crate::view::CommandInfo;
use crate::view::Event;
use crate::view::View;
use crate::view::ViewCore;
use crate::view::Wf;
use crate::viewid::ViewId;
use vstd::string::StringExecFns;
use vstd::view::View as ValueView;

/// A filled rectangle that occupies whatever space it is offered, and is
/// the innermost hit-test target for any point inside it.
pub struct Rectangle {
    pub color: Color,
}

/// A rectangle in the default fill colour.
pub fn rectangle() -> (r: Rectangle)
    ensures
        r.color == crate::renderer::spec_button_background_color(),
{
    Rectangle { color: crate::renderer::button_background_color() }
}

impl Rectangle {
    pub fn color(self, color: Color) -> (r: Rectangle)
        ensures
            r.color == color,
    {
        Rectangle { color }
    }

    /// Take all the offered space and record it as this view's rectangle.
    fn arrange(&self, id: ViewId, sz: LocalSize, cx: &mut Context) -> (used: LocalSize)
        requires
            old(cx).wf(),
            sz.wf(),
        ensures
            final(cx).wf(),
            used == sz,
            final(cx).layout@ == old(cx).layout@.insert(
                id.id,
                LayoutBox {
                    rect: LocalRect { origin: LocalPoint { x: 0, y: 0 }, size: sz },
                    offset: LocalOffset { x: 0, y: 0 },
                },
            ),
            Context::same_but_layout(*old(cx), *final(cx)),
    {
        cx.update_layout(
            id,
            LayoutBox {
                rect: LocalRect { origin: LocalPoint { x: 0, y: 0 }, size: sz },
                offset: LocalOffset { x: 0, y: 0 },
            },
        );
        sz
    }

    /// This view's identity exactly when `pt` falls inside its laid-out
    /// rectangle; an identity never laid out counts as zero-sized and is
    /// never hit.
    fn hit(&self, id: ViewId, pt: LocalPoint, cx: &Context) -> (r: Option<ViewId>)
        requires
            cx.wf(),
            pt.wf(),
        ensures
            r == if cx.spec_layout_box(id).rect.spec_contains(pt) {
                Some(id)
            } else {
                Option::<ViewId>::None
            },
    {
        let lb = cx.layout_box(id);
        if lb.rect.contains(&pt) {
            Some(id)
        } else {
            None
        }
    }
}

impl Wf for Rectangle {
    open spec fn wf(&self) -> bool {
        true
    }
}

impl<A> View<A> for Rectangle {
    fn process(&self, _event: &Event, _id: ViewId, _cx: &mut Context, _actions: &mut Vec<A>) {
    }
}

impl ViewCore for Rectangle {
    open spec fn hits(&self, id: ViewId, pt: LocalPoint, cx: Context, r: Option<ViewId>) -> bool {
        r == if cx.spec_layout_box(id).rect.spec_contains(pt) {
            Some(id)
        } else {
            Option::<ViewId>::None
        }
    }

    fn print(&self, _id: ViewId, _cx: &mut Context, out: &mut String) {
        out.append("Rectangle");
    }

    fn draw(&self, id: ViewId, cx: &mut Context, renderer: &mut Renderer)
        ensures
            *final(cx) == *old(cx),
            final(renderer).commands@ == old(renderer).commands@.push(
                crate::renderer::DrawCmd::FillRect {
                    rect: old(cx).spec_layout_box(id).rect,
                    radius: 0,
                    color: self.color,
                },
            ),
    {
        let lb = cx.layout_box(id);
        renderer.fill_rect(lb.rect, 0, self.color);
    }

    fn layout(&self, id: ViewId, sz: LocalSize, cx: &mut Context, _renderer: &mut Renderer) -> (
        used: LocalSize)
        ensures
            used == sz,
            final(cx).layout@ == old(cx).layout@.insert(
                id.id,
                LayoutBox {
                    rect: LocalRect { origin: LocalPoint { x: 0, y: 0 }, size: sz },
                    offset: LocalOffset { x: 0, y: 0 },
                },
            ),
            Context::same_but_layout(*old(cx), *final(cx)),
    {
        self.arrange(id, sz, cx)
    }

    fn hittest(&self, id: ViewId, pt: LocalPoint, cx: &mut Context) -> (r: Option<ViewId>)
        ensures
            *final(cx) == *old(cx),
            r == if old(cx).spec_layout_box(id).rect.spec_contains(pt) {
                Some(id)
            } else {
                Option::<ViewId>::None
            },
    {
        self.hit(id, pt, cx)
    }

    fn commands(&self, _id: ViewId, _cx: &mut Context, _cmds: &mut Vec<CommandInfo>) {
    }

    fn gc(&self, _id: ViewId, _cx: &mut Context, _map: &mut Vec<ViewId>) {
    }

    fn access(&self, _id: ViewId, _cx: &mut Context, _nodes: &mut Vec<accesskit::Node>) -> (r:
        Option<accesskit::NodeId>) {
        None
    }
}

} // verus!
