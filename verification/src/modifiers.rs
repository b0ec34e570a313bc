//! View modifiers: padding, tap, background.

use vstd::prelude::*;

verus! {

use crate::context::Context;
use crate::context::LayoutBox;
use crate::geom::COORD_LIMIT;
use crate::geom::LocalOffset;
use crate::geom::LocalPoint;
use crate::geom::LocalRect;
use crate::geom::LocalSize;
use crate::gestures::Tap;
use crate::renderer::Renderer;
use crate::view::CommandInfo;
use crate::view::Event;
use crate::view::View;
use crate::view::ViewCore;
use crate::view::Wf;
use crate::viewid::ViewId;
use vstd::string::StringExecFns;
use vstd::view::View as ValueView;

/// How much padding to put around a view.
#[derive(Clone, Copy, Debug, PartialEq, Eq, Structural)]
pub enum PaddingParam {
    /// The default amount.
    Auto,
    /// An explicit amount.
    Px(i64),
}

/// The padding amount `param` asks for, forced into `[0, COORD_LIMIT]`.
pub open spec fn spec_padding_amount(param: PaddingParam) -> i64 {
    match param {
        PaddingParam::Auto => 5,
        PaddingParam::Px(v) => crate::geom::spec_cap(v as int),
    }
}

/// Pads a child on every side.
pub struct Padding<V> {
    pub child: V,
    pub padding: i64,
}

impl<V: Wf> Wf for Padding<V> {
    open spec fn wf(&self) -> bool {
        self.child.wf() && 0 <= self.padding <= COORD_LIMIT
    }
}

impl<V: Wf> Padding<V> {
    pub fn new(child: V, param: PaddingParam) -> (r: Self)
        requires
            child.wf(),
        ensures
            r.wf(),
            r.child == child,
            r.padding == spec_padding_amount(param),
    {
        let padding: i64 = match param {
            PaddingParam::Auto => 5,
            PaddingParam::Px(v) => crate::geom::cap(v),
        };
        Self { child, padding }
    }
}

impl<A, V: View<A>> View<A> for Padding<V> {
    fn process(&self, event: &Event, id: ViewId, cx: &mut Context, actions: &mut Vec<A>) {
        self.child.process(event, id.child(0), cx, actions);
    }
}

impl<V: ViewCore> ViewCore for Padding<V> {
    open spec fn hits(&self, id: ViewId, pt: LocalPoint, cx: Context, r: Option<ViewId>) -> bool {
        if pt.x - self.padding < -COORD_LIMIT || pt.y - self.padding < -COORD_LIMIT {
            r is None
        } else {
            self.child.hits(
                id.spec_child(0),
                LocalPoint { x: (pt.x - self.padding) as i64, y: (pt.y - self.padding) as i64 },
                cx,
                r,
            )
        }
    }

    fn print(&self, id: ViewId, cx: &mut Context, out: &mut String) {
        out.append("Padding { ");
        self.child.print(id.child(0), cx, out);
        out.append(" }");
    }

    fn draw(&self, id: ViewId, cx: &mut Context, renderer: &mut Renderer) {
        renderer.save();
        renderer.translate(LocalOffset { x: self.padding, y: self.padding });
        self.child.draw(id.child(0), cx, renderer);
        renderer.restore();
    }

    fn layout(&self, id: ViewId, sz: LocalSize, cx: &mut Context, renderer: &mut Renderer) -> (
        used: LocalSize)
        ensures
            final(cx).layout@.contains_key(id.id),
            final(cx).layout@[id.id] == (LayoutBox {
                rect: LocalRect { origin: LocalPoint { x: 0, y: 0 }, size: used },
                offset: LocalOffset { x: self.padding, y: self.padding },
            }),
    {
        let inner = LocalSize {
            width: crate::geom::cap(sz.width - 2 * self.padding),
            height: crate::geom::cap(sz.height - 2 * self.padding),
        };
        let child_size = self.child.layout(id.child(0), inner, cx, renderer);
        let used = LocalSize {
            width: crate::geom::cap(child_size.width + 2 * self.padding),
            height: crate::geom::cap(child_size.height + 2 * self.padding),
        };
        cx.update_layout(
            id,
            LayoutBox {
                rect: LocalRect { origin: LocalPoint { x: 0, y: 0 }, size: used },
                offset: LocalOffset { x: self.padding, y: self.padding },
            },
        );
        used
    }

    fn hittest(&self, id: ViewId, pt: LocalPoint, cx: &mut Context) -> (r: Option<ViewId>) {
        // A point that leaves the coordinate range once the padding offset
        // is removed lies outside every well-formed child rectangle.
        if pt.x - self.padding < -COORD_LIMIT || pt.y - self.padding < -COORD_LIMIT {
            None
        } else {
            let shifted = LocalPoint { x: pt.x - self.padding, y: pt.y - self.padding };
            self.child.hittest(id.child(0), shifted, cx)
        }
    }

    fn commands(&self, id: ViewId, cx: &mut Context, cmds: &mut Vec<CommandInfo>) {
        self.child.commands(id.child(0), cx, cmds);
    }

    fn gc(&self, id: ViewId, cx: &mut Context, map: &mut Vec<ViewId>) {
        self.child.gc(id.child(0), cx, map);
    }

    fn access(&self, id: ViewId, cx: &mut Context, nodes: &mut Vec<accesskit::Node>) -> (r: Option<
        accesskit::NodeId,
    >) {
        self.child.access(id.child(0), cx, nodes)
    }
}

/// Draws one view behind another, sized to the front view.
pub struct Background<V, BG> {
    pub child: V,
    pub background: BG,
}

impl<V: Wf, BG: Wf> Wf for Background<V, BG> {
    open spec fn wf(&self) -> bool {
        self.child.wf() && self.background.wf()
    }
}

impl<V: Wf, BG: Wf> Background<V, BG> {
    pub fn new(child: V, background: BG) -> (r: Self)
        requires
            child.wf(),
            background.wf(),
        ensures
            r.wf(),
            r.child == child,
            r.background == background,
    {
        Self { child, background }
    }
}

impl<A, V: View<A>, BG: View<A>> View<A> for Background<V, BG> {
    fn process(&self, event: &Event, id: ViewId, cx: &mut Context, actions: &mut Vec<A>) {
        self.child.process(event, id.child(0), cx, actions);
        self.background.process(event, id.child(1), cx, actions);
    }
}

impl<V: ViewCore, BG: ViewCore> ViewCore for Background<V, BG> {
    open spec fn hits(&self, id: ViewId, pt: LocalPoint, cx: Context, r: Option<ViewId>) -> bool {
        exists|rf: Option<ViewId>, mid: Context|
            {
                &&& #[trigger] self.child.hits(id.spec_child(0), pt, cx, rf)
                &&& #[trigger] crate::view::hittest_frame(cx, mid)
                &&& match rf {
                    Some(h) => r == Some(h),
                    None => self.background.hits(id.spec_child(1), pt, mid, r),
                }
            }
    }

    fn print(&self, id: ViewId, cx: &mut Context, out: &mut String) {
        out.append("Background { ");
        self.child.print(id.child(0), cx, out);
        out.append(" }");
    }

    fn draw(&self, id: ViewId, cx: &mut Context, renderer: &mut Renderer) {
        self.background.draw(id.child(1), cx, renderer);
        self.child.draw(id.child(0), cx, renderer);
    }

    fn layout(&self, id: ViewId, sz: LocalSize, cx: &mut Context, renderer: &mut Renderer) -> (
        used: LocalSize) {
        let child_size = self.child.layout(id.child(0), sz, cx, renderer);
        self.background.layout(id.child(1), child_size, cx, renderer);
        child_size
    }

    fn hittest(&self, id: ViewId, pt: LocalPoint, cx: &mut Context) -> (r: Option<ViewId>) {
        let front = self.child.hittest(id.child(0), pt, cx);
        let ghost mid = *cx;
        proof {
            assert(crate::view::hittest_frame(*old(cx), mid));
        }
        match front {
            Some(hit) => Some(hit),
            None => self.background.hittest(id.child(1), pt, cx),
        }
    }

    fn commands(&self, id: ViewId, cx: &mut Context, cmds: &mut Vec<CommandInfo>) {
        self.child.commands(id.child(0), cx, cmds);
        self.background.commands(id.child(1), cx, cmds);
    }

    fn gc(&self, id: ViewId, cx: &mut Context, map: &mut Vec<ViewId>) {
        let ghost before = map@;
        self.child.gc(id.child(0), cx, map);
        self.background.gc(id.child(1), cx, map);
        proof {
            assert(before =~= map@.subrange(0, before.len() as int));
        }
    }

    fn access(&self, id: ViewId, cx: &mut Context, nodes: &mut Vec<accesskit::Node>) -> (r: Option<
        accesskit::NodeId,
    >) {
        self.child.access(id.child(0), cx, nodes)
    }
}

/// Modifier methods available on every view.
pub trait Modifiers: Wf + Sized {
    fn padding(self, param: PaddingParam) -> (r: Padding<Self>)
        requires
            self.wf(),
        ensures
            r.wf(),
            r.child == self,
            r.padding == spec_padding_amount(param),
    ;

    fn tap<F: Fn() + 'static>(self, f: F) -> (r: Tap<Self, F>)
        requires
            self.wf(),
            call_requires(f, ()),
        ensures
            r.wf(),
    ;

    fn background<BG: Wf>(self, background: BG) -> (r: Background<Self, BG>)
        requires
            self.wf(),
            background.wf(),
        ensures
            r.wf(),
            r.child == self,
            r.background == background,
    ;
}

impl<V: Wf + 'static> Modifiers for V {
    fn padding(self, param: PaddingParam) -> (r: Padding<Self>) {
        Padding::new(self, param)
    }

    fn tap<F: Fn() + 'static>(self, f: F) -> (r: Tap<Self, F>) {
        Tap::new(self, f)
    }

    fn background<BG: Wf>(self, background: BG) -> (r: Background<Self, BG>) {
        Background::new(self, background)
    }
}

} // verus!
