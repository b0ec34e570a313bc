//! Reading from the session environment.

use vstd::prelude::*;

verus! {

use crate::context::Context;
use crate::geom::LocalOffset;
use crate::geom::LocalPoint;
use crate::geom::LocalRect;
use crate::geom::LocalSize;
use crate::context::LayoutBox;
use crate::renderer::Renderer;
use crate::state::StateType;
use crate::view::CommandInfo;
use crate::view::Event;
use crate::view::View;
use crate::view::ViewCore;
use crate::view::Wf;
use crate::viewid::ViewId;
use vstd::string::StringExecFns;
use vstd::view::View as ValueView;

/// A view whose body reads a session-environment value of type `S`,
/// installed from `default` on first use.
pub struct EnvView<S, D, F> {
    pub default: D,
    pub func: F,
    pub marker: core::marker::PhantomData<S>,
}

impl<S: StateType, V: Wf, D: Fn() -> S, F: Fn(S) -> V> Wf for EnvView<S, D, F> {
    open spec fn wf(&self) -> bool {
        &&& call_requires(self.default, ())
        &&& forall|s: S| #[trigger] call_requires(self.func, (s,))
        &&& forall|s: S, v: V| #[trigger] call_ensures(self.func, (s,), v) ==> v.wf()
    }
}

/// Reads from the environment: `f` is handed the current value of the
/// environment entry of type `S` (created from `initial` on first use) and
/// returns the child view.
pub fn env<S: StateType, V: Wf, D: Fn() -> S + 'static, F: Fn(S) -> V + 'static>(
    initial: D,
    f: F,
) -> (r: EnvView<S, D, F>)
    requires
        call_requires(initial, ()),
        forall|s: S| #[trigger] call_requires(f, (s,)),
        forall|s: S, v: V| #[trigger] call_ensures(f, (s,), v) ==> v.wf(),
    ensures
        r.wf(),
        r.default == initial,
        r.func == f,
{
    EnvView { default: initial, func: f, marker: core::marker::PhantomData }
}

impl<A, S: StateType, V: View<A>, D: Fn() -> S, F: Fn(S) -> V> View<A> for EnvView<S, D, F> {
    fn process(&self, event: &Event, id: ViewId, cx: &mut Context, actions: &mut Vec<A>) {
        let s = cx.init_env::<S, D>(&self.default);
        let v = (self.func)(s);
        v.process(event, id.child(0), cx, actions);
    }
}

impl<S: StateType, V: ViewCore, D: Fn() -> S, F: Fn(S) -> V> ViewCore for EnvView<S, D, F> {
    open spec fn hits(&self, id: ViewId, pt: LocalPoint, cx: Context, r: Option<ViewId>) -> bool {
        exists|sv: S, v: V, mid: Context|
            {
                &&& Context::same_but_env(cx, mid)
                &&& mid.wf()
                &&& forall|k: u64|
                    #[trigger] cx.env_map@.contains_key(k) ==> mid.env_map@.contains_key(k)
                        && mid.env_map@[k] == cx.env_map@[k]
                &&& (cx.env_map@.contains_key(S::spec_tag()) && S::spec_fits(
                    cx.env_map@[S::spec_tag()],
                ) ==> mid == cx && sv == S::spec_unwrap(cx.env_map@[S::spec_tag()]))
                &&& call_ensures(self.func, (sv,), v)
                &&& v.hits(id.spec_child(0), pt, mid, r)
            }
    }

    fn print(&self, id: ViewId, cx: &mut Context, out: &mut String) {
        let s = cx.init_env::<S, D>(&self.default);
        let v = (self.func)(s);
        v.print(id.child(0), cx, out);
    }

    fn draw(&self, id: ViewId, cx: &mut Context, renderer: &mut Renderer) {
        let s = cx.init_env::<S, D>(&self.default);
        let v = (self.func)(s);
        v.draw(id.child(0), cx, renderer);
    }

    fn layout(&self, id: ViewId, sz: LocalSize, cx: &mut Context, renderer: &mut Renderer) -> (
        used: LocalSize)
        ensures
            final(cx).layout@.contains_key(id.id),
            final(cx).layout@[id.id] == (LayoutBox {
                rect: LocalRect { origin: LocalPoint { x: 0, y: 0 }, size: used },
                offset: LocalOffset { x: 0, y: 0 },
            }),
    {
        let s = cx.init_env::<S, D>(&self.default);
        let v = (self.func)(s);
        let child_size = v.layout(id.child(0), sz, cx, renderer);
        cx.update_layout(
            id,
            LayoutBox {
                rect: LocalRect { origin: LocalPoint { x: 0, y: 0 }, size: child_size },
                offset: LocalOffset { x: 0, y: 0 },
            },
        );
        child_size
    }

    fn hittest(&self, id: ViewId, pt: LocalPoint, cx: &mut Context) -> (r: Option<ViewId>) {
        let s = cx.init_env::<S, D>(&self.default);
        let ghost mid = *cx;
        let v = (self.func)(s);
        let r = v.hittest(id.child(0), pt, cx);
        proof {
            assert(self.hits(id, pt, *old(cx), r));
        }
        r
    }

    fn commands(&self, id: ViewId, cx: &mut Context, cmds: &mut Vec<CommandInfo>) {
        let s = cx.init_env::<S, D>(&self.default);
        let v = (self.func)(s);
        v.commands(id.child(0), cx, cmds);
    }

    fn gc(&self, id: ViewId, cx: &mut Context, map: &mut Vec<ViewId>)
        ensures
            final(map)@.len() > old(map)@.len(),
            final(map)@[old(map)@.len() as int] == id,
    {
        let ghost before = map@;
        map.push(id);
        proof {
            assert(before.is_prefix_of(map@));
        }
        let ghost mid = map@;
        let s = cx.init_env::<S, D>(&self.default);
        let v = (self.func)(s);
        v.gc(id.child(0), cx, map);
        proof {
            assert(map@[before.len() as int] == mid.subrange(0, mid.len() as int)[
                before.len() as int]);
            assert(before =~= map@.subrange(0, before.len() as int));
        }
    }

    fn access(&self, id: ViewId, cx: &mut Context, nodes: &mut Vec<accesskit::Node>) -> (r: Option<
        accesskit::NodeId,
    >) {
        let s = cx.init_env::<S, D>(&self.default);
        let v = (self.func)(s);
        v.access(id.child(0), cx, nodes)
    }
}

} // verus!
