//! A non-editable text label.

use vstd::prelude::*;

verus! {

use crate::access::label_node;
use crate::context::Context;
use crate::context::LayoutBox;
use crate::geom::LocalOffset;
use crate::geom::LocalPoint;
use crate::geom::LocalRect;
use crate::geom::LocalSize;
use crate::renderer::spec_text_height;
use crate::renderer::spec_text_width;
use crate::renderer::text_color;
use crate::renderer::DrawCmd;
use crate::renderer::Renderer;
use crate::view::CommandInfo;
use crate::view::Event;
use crate::view::View;
use crate::view::ViewCore;
use crate::view::Wf;
use crate::viewid::ViewId;
use vstd::string::StringExecFns;
use vstd::view::View as ValueView;

/// The font size a label uses unless one is chosen.
pub const DEFAULT_FONT_SIZE: u32 = 18;

/// Struct for `text`.
pub struct Text {
    pub text: String,
    pub size: u32,
}

/// Shows a string as a label (not editable).
pub fn text(name: &str) -> (r: Text)
    ensures
        r.text@ == name@,
        r.size == DEFAULT_FONT_SIZE,
{
    Text { text: name.to_owned(), size: DEFAULT_FONT_SIZE }
}

impl Text {
    pub fn font_size(self, size: u32) -> (r: Self)
        ensures
            r.text == self.text,
            r.size == size,
    {
        Self { text: self.text, size }
    }
}

/// The layout pass shared by every label: measure the text, record the
/// label's own rectangle under its identity, return the measured size.
fn layout_label(content: &str, size: u32, id: ViewId, cx: &mut Context, renderer: &Renderer) -> (
    used: LocalSize)
    requires
        old(cx).wf(),
    ensures
        final(cx).wf(),
        used.width == spec_text_width(content@.len(), size),
        used.height == spec_text_height(size),
        used.wf(),
        final(cx).layout@ == old(cx).layout@.insert(
            id.id,
            LayoutBox {
                rect: LocalRect { origin: LocalPoint { x: 0, y: 0 }, size: used },
                offset: LocalOffset { x: 0, y: 0 },
            },
        ),
        Context::same_but_layout(*old(cx), *final(cx)),
{
    let used = renderer.text_bounds(content, size);
    cx.update_layout(
        id,
        LayoutBox {
            rect: LocalRect { origin: LocalPoint { x: 0, y: 0 }, size: used },
            offset: LocalOffset { x: 0, y: 0 },
        },
    );
    used
}

/// The draw pass shared by every label: one text command.
fn draw_label(content: &str, size: u32, renderer: &mut Renderer)
    ensures
        exists|c: String|
            c@ == content@ && final(renderer).commands@ == old(renderer).commands@.push(
                DrawCmd::Text { content: c, size, color: crate::renderer::spec_text_color() },
            ),
{
    renderer.text(content, size, text_color());
}

/// The accessibility emission shared by every label: one node with the
/// label role, under the id derived from the view's identity.
fn access_label(id: ViewId, nodes: &mut Vec<accesskit::Node>) -> (r: Option<accesskit::NodeId>)
    ensures
        old(nodes)@.is_prefix_of(final(nodes)@),
        final(nodes)@.len() == old(nodes)@.len() + 1,
        r matches Some(aid) && aid.0 == id.id,
{
    let aid = id.access_id();
    nodes.push(label_node());
    proof {
        assert(old(nodes)@ =~= final(nodes)@.subrange(0, old(nodes)@.len() as int));
    }
    Some(aid)
}

impl Wf for Text {
    open spec fn wf(&self) -> bool {
        true
    }
}

impl<A> View<A> for Text {
    fn process(&self, _event: &Event, _id: ViewId, _cx: &mut Context, _actions: &mut Vec<A>) {
    }
}

impl ViewCore for Text {
    open spec fn hits(&self, id: ViewId, pt: LocalPoint, cx: Context, r: Option<ViewId>) -> bool {
        r is None
    }

    fn print(&self, _id: ViewId, _cx: &mut Context, out: &mut String) {
        out.append("Text(");
        out.append(self.text.as_str());
        out.append(")");
    }

    fn draw(&self, _id: ViewId, _cx: &mut Context, renderer: &mut Renderer)
        ensures
            exists|c: String|
                c@ == self.text@ && final(renderer).commands@ == old(renderer).commands@.push(
                    DrawCmd::Text {
                        content: c,
                        size: self.size,
                        color: crate::renderer::spec_text_color(),
                    },
                ),
    {
        draw_label(self.text.as_str(), self.size, renderer);
    }

    fn layout(&self, id: ViewId, _sz: LocalSize, cx: &mut Context, renderer: &mut Renderer) -> (
        used: LocalSize)
        ensures
            used.width == spec_text_width(self.text@.len(), self.size),
            used.height == spec_text_height(self.size),
            final(cx).layout@ == old(cx).layout@.insert(
                id.id,
                LayoutBox {
                    rect: LocalRect { origin: LocalPoint { x: 0, y: 0 }, size: used },
                    offset: LocalOffset { x: 0, y: 0 },
                },
            ),
            Context::same_but_layout(*old(cx), *final(cx)),
    {
        layout_label(self.text.as_str(), self.size, id, cx, renderer)
    }

    fn hittest(&self, _id: ViewId, _pt: LocalPoint, _cx: &mut Context) -> (r: Option<ViewId>)
        ensures
            r is None,
    {
        None
    }

    fn commands(&self, _id: ViewId, _cx: &mut Context, _cmds: &mut Vec<CommandInfo>) {
    }

    fn gc(&self, _id: ViewId, _cx: &mut Context, _map: &mut Vec<ViewId>) {
    }

    fn access(&self, id: ViewId, _cx: &mut Context, nodes: &mut Vec<accesskit::Node>) -> (r:
        Option<accesskit::NodeId>)
        ensures
            old(nodes)@.is_prefix_of(final(nodes)@),
            final(nodes)@.len() == old(nodes)@.len() + 1,
            r matches Some(aid) && aid.0 == id.id,
    {
        access_label(id, nodes)
    }
}

impl Wf for String {
    open spec fn wf(&self) -> bool {
        true
    }
}

impl<A> View<A> for String {
    fn process(&self, _event: &Event, _id: ViewId, _cx: &mut Context, _actions: &mut Vec<A>) {
    }
}

impl ViewCore for String {
    open spec fn hits(&self, id: ViewId, pt: LocalPoint, cx: Context, r: Option<ViewId>) -> bool {
        r is None
    }

    fn print(&self, _id: ViewId, _cx: &mut Context, out: &mut String) {
        out.append("Text(");
        out.append(self.as_str());
        out.append(")");
    }

    fn draw(&self, _id: ViewId, _cx: &mut Context, renderer: &mut Renderer)
        ensures
            exists|c: String|
                c@ == self@ && final(renderer).commands@ == old(renderer).commands@.push(
                    DrawCmd::Text {
                        content: c,
                        size: DEFAULT_FONT_SIZE,
                        color: crate::renderer::spec_text_color(),
                    },
                ),
    {
        draw_label(self.as_str(), DEFAULT_FONT_SIZE, renderer);
    }

    fn layout(&self, id: ViewId, _sz: LocalSize, cx: &mut Context, renderer: &mut Renderer) -> (
        used: LocalSize)
        ensures
            used.width == spec_text_width(self@.len(), DEFAULT_FONT_SIZE),
            used.height == spec_text_height(DEFAULT_FONT_SIZE),
            final(cx).layout@ == old(cx).layout@.insert(
                id.id,
                LayoutBox {
                    rect: LocalRect { origin: LocalPoint { x: 0, y: 0 }, size: used },
                    offset: LocalOffset { x: 0, y: 0 },
                },
            ),
            Context::same_but_layout(*old(cx), *final(cx)),
    {
        layout_label(self.as_str(), DEFAULT_FONT_SIZE, id, cx, renderer)
    }

    fn hittest(&self, _id: ViewId, _pt: LocalPoint, _cx: &mut Context) -> (r: Option<ViewId>)
        ensures
            r is None,
    {
        None
    }

    fn commands(&self, _id: ViewId, _cx: &mut Context, _cmds: &mut Vec<CommandInfo>) {
    }

    fn gc(&self, _id: ViewId, _cx: &mut Context, _map: &mut Vec<ViewId>) {
    }

    fn access(&self, id: ViewId, _cx: &mut Context, nodes: &mut Vec<accesskit::Node>) -> (r:
        Option<accesskit::NodeId>)
        ensures
            old(nodes)@.is_prefix_of(final(nodes)@),
            final(nodes)@.len() == old(nodes)@.len() + 1,
            r matches Some(aid) && aid.0 == id.id,
    {
        access_label(id, nodes)
    }
}

} // verus!
