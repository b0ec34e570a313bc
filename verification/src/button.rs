//! A push button: a label that invokes its action when pressed by name or
//! touched inside its rectangle.

use vstd::prelude::*;

verus! {

use crate::context::Context;
use crate::context::LayoutBox;
use crate::geom::COORD_LIMIT;
use crate::geom::LocalOffset;
use crate::geom::LocalPoint;
use crate::geom::LocalRect;
use crate::geom::LocalSize;
use crate::renderer::button_background_color;
use crate::renderer::DrawCmd;
use crate::renderer::spec_text_height;
use crate::renderer::spec_text_width;
use crate::renderer::text_color;
use crate::renderer::Renderer;
use crate::view::CommandInfo;
use crate::view::Event;
use crate::view::EventKind;
use crate::view::View;
use crate::view::ViewCore;
use crate::view::Wf;
use crate::viewid::ViewId;
use vstd::string::StringExecFns;
use vstd::view::View as ValueView;

/// The font size of a button label.
pub const BUTTON_FONT_SIZE: u32 = 18;

/// Padding around a button label, on every side.
pub const BUTTON_PADDING: i64 = 4;

/// Struct for `button`.
pub struct Button<F> {
    pub text: String,
    pub func: F,
}

/// A button labelled `name` that calls `f` when pressed.
pub fn button<F: Fn() + 'static>(name: &str, f: F) -> (r: Button<F>)
    requires
        call_requires(f, ()),
    ensures
        r.text@ == name@,
        r.func == f,
        r.wf(),
{
    Button { text: name.to_owned(), func: f }
}

/// The size a button lays out at: its label's bounds plus padding on every
/// side, capped at the coordinate limit.
pub open spec fn spec_button_size(n: nat, size: u32) -> LocalSize {
    LocalSize {
        width: crate::geom::spec_cap(spec_text_width(n, size) + 2 * BUTTON_PADDING),
        height: crate::geom::spec_cap(spec_text_height(size) + 2 * BUTTON_PADDING),
    }
}

impl<F: Fn()> Wf for Button<F> {
    open spec fn wf(&self) -> bool {
        call_requires(self.func, ())
    }
}

impl<F: Fn()> Button<F> {
    /// Handle one event: a `PressButton` naming this button's label, or a
    /// touch beginning inside its laid-out rectangle, invokes the action
    /// exactly once and logs the invocation; nothing else happens, and on
    /// any other input the context comes back unchanged.
    fn press(&self, event: &Event, vid: ViewId, cx: &mut Context)
        requires
            self.wf(),
            old(cx).wf(),
            event.wf(),
        ensures
            match event.kind {
                EventKind::PressButton(n) => if n@ == self.text@ {
                    final(cx).fired@ == old(cx).fired@.push(vid) && Context::same_but_fired(
                        *old(cx),
                        *final(cx),
                    )
                } else {
                    *final(cx) == *old(cx)
                },
                EventKind::TouchBegin { id: _q } => if old(cx).spec_layout_box(
                    vid,
                ).rect.spec_contains(event.position) {
                    final(cx).fired@ == old(cx).fired@.push(vid) && Context::same_but_fired(
                        *old(cx),
                        *final(cx),
                    )
                } else {
                    *final(cx) == *old(cx)
                },
                _ => *final(cx) == *old(cx),
            },
    {
        match &event.kind {
            EventKind::PressButton(name) => {
                if *name == self.text {
                    (self.func)();
                    proof {
                        cx.fired@ = cx.fired@.push(vid);
                    }
                }
            },
            EventKind::TouchBegin { id: _ } => {
                let lb = cx.layout_box(vid);
                if lb.rect.contains(&event.position) {
                    (self.func)();
                    proof {
                        cx.fired@ = cx.fired@.push(vid);
                    }
                }
            },
            _ => {},
        }
    }

    /// Measure the label, pad it on every side, record the button's own
    /// rectangle under its identity, and return the padded size.
    fn arrange(&self, id: ViewId, cx: &mut Context, renderer: &Renderer) -> (used: LocalSize)
        requires
            old(cx).wf(),
        ensures
            final(cx).wf(),
            used == spec_button_size(self.text@.len(), BUTTON_FONT_SIZE),
            used.wf(),
            final(cx).layout@ == old(cx).layout@.insert(
                id.id,
                LayoutBox {
                    rect: LocalRect { origin: LocalPoint { x: 0, y: 0 }, size: used },
                    offset: LocalOffset { x: 0, y: 0 },
                },
            ),
            Context::same_but_layout(*old(cx), *final(cx)),
    {
        let bounds = renderer.text_bounds(self.text.as_str(), BUTTON_FONT_SIZE);
        let used = LocalSize {
            width: crate::geom::cap(bounds.width + 2 * BUTTON_PADDING),
            height: crate::geom::cap(bounds.height + 2 * BUTTON_PADDING),
        };
        cx.update_layout(
            id,
            LayoutBox {
                rect: LocalRect { origin: LocalPoint { x: 0, y: 0 }, size: used },
                offset: LocalOffset { x: 0, y: 0 },
            },
        );
        used
    }

    /// The button's display list: its rounded background sized to the
    /// padded label, then the label, drawn inset by the padding.
    fn render(&self, renderer: &mut Renderer)
        ensures
            exists|c: String|
                c@ == self.text@ && final(renderer).commands@ == old(renderer).commands@.push(
                    DrawCmd::FillRect {
                        rect: LocalRect {
                            origin: LocalPoint { x: 0, y: 0 },
                            size: spec_button_size(self.text@.len(), BUTTON_FONT_SIZE),
                        },
                        radius: 4,
                        color: crate::renderer::spec_button_background_color(),
                    },
                ).push(DrawCmd::Save).push(
                    DrawCmd::Translate { offset: LocalOffset { x: BUTTON_PADDING, y: BUTTON_PADDING } },
                ).push(
                    DrawCmd::Text {
                        content: c,
                        size: BUTTON_FONT_SIZE,
                        color: crate::renderer::spec_text_color(),
                    },
                ).push(DrawCmd::Restore),
    {
        let bounds = renderer.text_bounds(self.text.as_str(), BUTTON_FONT_SIZE);
        let padded = LocalSize {
            width: crate::geom::cap(bounds.width + 2 * BUTTON_PADDING),
            height: crate::geom::cap(bounds.height + 2 * BUTTON_PADDING),
        };
        renderer.fill_rect(
            LocalRect { origin: LocalPoint { x: 0, y: 0 }, size: padded },
            4,
            button_background_color(),
        );
        renderer.save();
        renderer.translate(LocalOffset { x: BUTTON_PADDING, y: BUTTON_PADDING });
        renderer.text(self.text.as_str(), BUTTON_FONT_SIZE, text_color());
        renderer.restore();
    }
}

impl<A, F: Fn()> View<A> for Button<F> {
    fn process(&self, event: &Event, vid: ViewId, cx: &mut Context, _actions: &mut Vec<A>)
        ensures
            final(_actions)@ == old(_actions)@,
            match event.kind {
                EventKind::PressButton(n) => if n@ == self.text@ {
                    final(cx).fired@ == old(cx).fired@.push(vid) && Context::same_but_fired(
                        *old(cx),
                        *final(cx),
                    )
                } else {
                    *final(cx) == *old(cx)
                },
                EventKind::TouchBegin { id: _q } => if old(cx).spec_layout_box(
                    vid,
                ).rect.spec_contains(event.position) {
                    final(cx).fired@ == old(cx).fired@.push(vid) && Context::same_but_fired(
                        *old(cx),
                        *final(cx),
                    )
                } else {
                    *final(cx) == *old(cx)
                },
                _ => *final(cx) == *old(cx),
            },
    {
        self.press(event, vid, cx);
    }
}

impl<F: Fn()> ViewCore for Button<F> {
    open spec fn hits(&self, id: ViewId, pt: LocalPoint, cx: Context, r: Option<ViewId>) -> bool {
        r is None
    }

    fn print(&self, _id: ViewId, _cx: &mut Context, out: &mut String) {
        out.append("Button(");
        out.append(self.text.as_str());
        out.append(")");
    }

    fn draw(&self, _id: ViewId, _cx: &mut Context, renderer: &mut Renderer)
        ensures
            exists|c: String|
                c@ == self.text@ && final(renderer).commands@ == old(renderer).commands@.push(
                    DrawCmd::FillRect {
                        rect: LocalRect {
                            origin: LocalPoint { x: 0, y: 0 },
                            size: spec_button_size(self.text@.len(), BUTTON_FONT_SIZE),
                        },
                        radius: 4,
                        color: crate::renderer::spec_button_background_color(),
                    },
                ).push(DrawCmd::Save).push(
                    DrawCmd::Translate {
                        offset: LocalOffset { x: BUTTON_PADDING, y: BUTTON_PADDING },
                    },
                ).push(
                    DrawCmd::Text {
                        content: c,
                        size: BUTTON_FONT_SIZE,
                        color: crate::renderer::spec_text_color(),
                    },
                ).push(DrawCmd::Restore),
    {
        self.render(renderer);
    }

    fn layout(&self, id: ViewId, _sz: LocalSize, cx: &mut Context, renderer: &mut Renderer) -> (
        used: LocalSize)
        ensures
            used == spec_button_size(self.text@.len(), BUTTON_FONT_SIZE),
            final(cx).layout@ == old(cx).layout@.insert(
                id.id,
                LayoutBox {
                    rect: LocalRect { origin: LocalPoint { x: 0, y: 0 }, size: used },
                    offset: LocalOffset { x: 0, y: 0 },
                },
            ),
            Context::same_but_layout(*old(cx), *final(cx)),
    {
        self.arrange(id, cx, renderer)
    }

    fn hittest(&self, _id: ViewId, _pt: LocalPoint, _cx: &mut Context) -> (r: Option<ViewId>)
        ensures
            r is None,
    {
        None
    }

    fn commands(&self, _id: ViewId, _cx: &mut Context, _cmds: &mut Vec<CommandInfo>) {
    }

    fn gc(&self, _id: ViewId, _cx: &mut Context, _map: &mut Vec<ViewId>) {
    }

    fn access(&self, _id: ViewId, _cx: &mut Context, _nodes: &mut Vec<accesskit::Node>) -> (r:
        Option<accesskit::NodeId>) {
        None
    }
}

} // verus!
