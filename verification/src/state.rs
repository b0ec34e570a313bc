//! The per-identity state store and `State<S>` handles.
//!
//! Heterogeneous state lives in the `Context` as a tagged union keyed by a
//! type tag: looking an entry up under the wrong type is a fatal usage
//! error, never a silent reinterpretation. A `State<S>` is a cheap typed
//! handle (the identity of its cell); any number of handles may name the
//! same cell, and the cell outlives every rebuilt view value until a GC
//! sweep finds it unreachable.

use vstd::prelude::*;

verus! {

use std::collections::HashMap;
use crate::binding::Outer;
use crate::context::Context;
use crate::geom::LocalPoint;
use crate::geom::LocalSize;
use crate::renderer::Renderer;
use crate::view::CommandInfo;
use crate::view::Event;
use crate::view::View;
use crate::view::ViewCore;
use crate::view::Wf;
use crate::viewid::ViewId;
use vstd::view::View as ValueView;

broadcast use vstd::std_specs::hash::group_hash_axioms;

/// A stored state value: one variant per state type the store can hold.
#[derive(Clone, Debug)]
pub enum StateValue {
    /// A plain counter-style integer.
    Int(i32),
    /// A text value, e.g. an editor's contents.
    Text(String),
    /// A two-level record, e.g. a small data model.
    Record(Outer),
}

/// The types that can live in the state store. Each implementation fixes an
/// injection into `StateValue` together with its partial inverse, so that a
/// lookup can check the tag and refuse a mismatched reuse.
pub trait StateType: Sized {
    /// The tag of this type's variant; distinct for every implementation.
    spec fn spec_tag() -> u64;

    /// Injection into the stored representation.
    spec fn spec_wrap(self) -> StateValue;

    /// Whether `v` holds this type's variant.
    spec fn spec_fits(v: StateValue) -> bool;

    /// Partial inverse of `spec_wrap`, meaningful when `spec_fits(v)`.
    spec fn spec_unwrap(v: StateValue) -> Self;

    /// Wrapping always fits and unwraps to the original value.
    proof fn lemma_roundtrip(self)
        ensures
            Self::spec_fits(self.spec_wrap()),
            Self::spec_unwrap(self.spec_wrap()) == self,
    ;

    fn tag() -> (t: u64)
        ensures
            t == Self::spec_tag(),
    ;

    fn wrap(self) -> (v: StateValue)
        ensures
            v == self.spec_wrap(),
    ;

    fn fits(v: &StateValue) -> (b: bool)
        ensures
            b == Self::spec_fits(*v),
    ;

    fn unwrap_ref<'a>(v: &'a StateValue) -> (r: &'a Self)
        requires
            Self::spec_fits(*v),
        ensures
            *r == Self::spec_unwrap(*v),
    ;

    fn unwrap_mut<'a>(v: &'a mut StateValue) -> (r: &'a mut Self)
        requires
            Self::spec_fits(*old(v)),
        ensures
            *r == Self::spec_unwrap(*old(v)),
            *final(v) == (*final(r)).spec_wrap(),
    ;

    /// An exact copy; unlike a derived `clone`, its contract says so.
    fn dup(&self) -> (r: Self)
        ensures
            r == *self,
    ;
}

impl StateType for i32 {
    open spec fn spec_tag() -> u64 {
        1
    }

    open spec fn spec_wrap(self) -> StateValue {
        StateValue::Int(self)
    }

    open spec fn spec_fits(v: StateValue) -> bool {
        v is Int
    }

    open spec fn spec_unwrap(v: StateValue) -> Self {
        v->Int_0
    }

    proof fn lemma_roundtrip(self) {
    }

    fn tag() -> u64 {
        1
    }

    fn wrap(self) -> StateValue {
        StateValue::Int(self)
    }

    fn fits(v: &StateValue) -> bool {
        match v {
            StateValue::Int(_) => true,
            _ => false,
        }
    }

    fn unwrap_ref<'a>(v: &'a StateValue) -> (r: &'a Self) {
        match v {
            StateValue::Int(x) => x,
            _ => vstd::pervasive::unreached(),
        }
    }

    fn unwrap_mut<'a>(v: &'a mut StateValue) -> (r: &'a mut Self) {
        match v {
            StateValue::Int(x) => x,
            _ => vstd::pervasive::unreached(),
        }
    }

    fn dup(&self) -> (r: Self) {
        *self
    }
}

impl StateType for String {
    open spec fn spec_tag() -> u64 {
        2
    }

    open spec fn spec_wrap(self) -> StateValue {
        StateValue::Text(self)
    }

    open spec fn spec_fits(v: StateValue) -> bool {
        v is Text
    }

    open spec fn spec_unwrap(v: StateValue) -> Self {
        v->Text_0
    }

    proof fn lemma_roundtrip(self) {
    }

    fn tag() -> u64 {
        2
    }

    fn wrap(self) -> StateValue {
        StateValue::Text(self)
    }

    fn fits(v: &StateValue) -> bool {
        match v {
            StateValue::Text(_) => true,
            _ => false,
        }
    }

    fn unwrap_ref<'a>(v: &'a StateValue) -> (r: &'a Self) {
        match v {
            StateValue::Text(x) => x,
            _ => vstd::pervasive::unreached(),
        }
    }

    fn unwrap_mut<'a>(v: &'a mut StateValue) -> (r: &'a mut Self) {
        match v {
            StateValue::Text(x) => x,
            _ => vstd::pervasive::unreached(),
        }
    }

    fn dup(&self) -> (r: Self) {
        let t: String = self.clone();
        proof {
            assert(t@ == self@);
        }
        t
    }
}

impl StateType for Outer {
    open spec fn spec_tag() -> u64 {
        3
    }

    open spec fn spec_wrap(self) -> StateValue {
        StateValue::Record(self)
    }

    open spec fn spec_fits(v: StateValue) -> bool {
        v is Record
    }

    open spec fn spec_unwrap(v: StateValue) -> Self {
        v->Record_0
    }

    proof fn lemma_roundtrip(self) {
    }

    fn tag() -> u64 {
        3
    }

    fn wrap(self) -> StateValue {
        StateValue::Record(self)
    }

    fn fits(v: &StateValue) -> bool {
        match v {
            StateValue::Record(_) => true,
            _ => false,
        }
    }

    fn unwrap_ref<'a>(v: &'a StateValue) -> (r: &'a Self) {
        match v {
            StateValue::Record(x) => x,
            _ => vstd::pervasive::unreached(),
        }
    }

    fn unwrap_mut<'a>(v: &'a mut StateValue) -> (r: &'a mut Self) {
        match v {
            StateValue::Record(x) => x,
            _ => vstd::pervasive::unreached(),
        }
    }

    fn dup(&self) -> (r: Self) {
        *self
    }
}

/// Whether a `State<S>` handle for identity `id` can be used against the
/// store in `cx`: its cell exists and holds the expected type.
pub open spec fn spec_state_valid<S: StateType>(cx: Context, id: ViewId) -> bool {
    &&& cx.state_map@.contains_key(id.id)
    &&& S::spec_fits(cx.state_map@[id.id])
}

/// The value a `State<S>` handle currently refers to.
pub open spec fn spec_state_value<S: StateType>(cx: Context, id: ViewId) -> S {
    S::spec_unwrap(cx.state_map@[id.id])
}

/// A typed handle to one cell of the state store. Handles are cheap to
/// clone and carry no borrowed lifetime; two clones alias the same cell.
#[derive(Debug)]
pub struct State<S> {
    pub id: ViewId,
    pub marker: core::marker::PhantomData<S>,
}

impl<S> Clone for State<S> {
    fn clone(&self) -> (r: Self)
        ensures
            r.id == self.id,
    {
        State { id: self.id, marker: core::marker::PhantomData }
    }
}

impl<S: StateType> State<S> {
    /// A handle for the cell stored under `id`.
    pub fn new(id: ViewId) -> (r: Self)
        ensures
            r.id == id,
    {
        State { id, marker: core::marker::PhantomData }
    }
}

/// Whether the store needs a redraw: reads the shared dirty flag.
pub fn is_state_dirty(cx: &Context) -> (r: bool)
    ensures
        r == cx.dirty,
{
    cx.dirty
}

/// Mark the store dirty, so the host's idle loop schedules a redraw.
pub fn set_state_dirty(cx: &mut Context)
    ensures
        final(cx).dirty,
        Context::same_but_state(*old(cx), *final(cx)),
        final(cx).state_map == old(cx).state_map,
{
    cx.dirty = true;
}

/// Clear the dirty flag; the host calls this after the redraw it triggered.
pub fn clear_state_dirty(cx: &mut Context)
    ensures
        !final(cx).dirty,
        Context::same_but_state(*old(cx), *final(cx)),
        final(cx).state_map == old(cx).state_map,
{
    cx.dirty = false;
}

impl Context {
    /// Resolve the state cell for `id`, creating it from `default` on the
    /// first visit. A later visit returns the existing cell untouched, so a
    /// value mutated between frames is never reset. Returns `None` exactly
    /// when the cell exists but holds a different type: the fatal
    /// tree-shape error, which aborts the operation instead of
    /// reinterpreting the value.
    pub fn get_state<S: StateType, D: Fn() -> S>(&mut self, id: ViewId, default: &D) -> (r: Option<
        State<S>,
    >)
        requires
            old(self).wf(),
            call_requires(*default, ()),
        ensures
            final(self).wf(),
            Context::same_but_state(*old(self), *final(self)),
            final(self).dirty == old(self).dirty,
            forall|k: u64|
                #[trigger] old(self).state_map@.contains_key(k)
                    ==> final(self).state_map@.contains_key(k) && final(self).state_map@[k]
                    == old(self).state_map@[k],
            old(self).state_map@.contains_key(id.id) && S::spec_fits(old(self).state_map@[id.id])
                ==> final(self).state_map == old(self).state_map && (r matches Some(s) && s.id
                == id),
            old(self).state_map@.contains_key(id.id) && !S::spec_fits(old(self).state_map@[id.id])
                ==> final(self).state_map == old(self).state_map && r is None,
            !old(self).state_map@.contains_key(id.id) ==> (r matches Some(s) && s.id == id)
                && exists|d: S|
                call_ensures(*default, (), d) && final(self).state_map@ == old(
                    self,
                ).state_map@.insert(id.id, d.spec_wrap()),
    {
        match self.state_map.get(&id.id) {
            Some(v) => {
                if S::fits(v) {
                    Some(State::new(id))
                } else {
                    None
                }
            },
            None => {
                let d: S = (default)();
                let ghost dd = d;
                let w = d.wrap();
                proof {
                    dd.lemma_roundtrip();
                }
                self.state_map.insert(id.id, w);
                Some(State::new(id))
            },
        }
    }

    /// Read access to the value behind a state handle.
    pub fn get<'a, S: StateType>(&'a self, id: &State<S>) -> (r: &'a S)
        requires
            spec_state_valid::<S>(*self, id.id),
        ensures
            *r == spec_state_value::<S>(*self, id.id),
    {
        match self.state_map.get(&id.id.id) {
            Some(v) => S::unwrap_ref(v),
            None => vstd::pervasive::unreached(),
        }
    }

    /// Exclusive access to the value behind a state handle. Marks the
    /// context dirty before returning, whatever the caller then writes.
    pub fn get_mut<'a, S: StateType>(&'a mut self, id: &State<S>) -> (r: &'a mut S)
        requires
            old(self).wf(),
            spec_state_valid::<S>(*old(self), id.id),
        ensures
            *r == spec_state_value::<S>(*old(self), id.id),
            final(self).wf(),
            final(self).dirty,
            final(self).state_map@ == old(self).state_map@.insert(
                id.id.id,
                (*final(r)).spec_wrap(),
            ),
            Context::same_but_state(*old(self), *final(self)),
    {
        self.dirty = true;
        match self.state_map.entry(id.id.id) {
            std::collections::hash_map::Entry::Occupied(e) => {
                let v = e.into_mut();
                S::unwrap_mut(v)
            },
            std::collections::hash_map::Entry::Vacant(_) => vstd::pervasive::unreached(),
        }
    }
}

impl Context {
    /// Read the session environment value of type `S`, installing
    /// `default()` on first use. An existing entry of the expected type is
    /// returned as it stands; the dirty flag is untouched.
    pub fn init_env<S: StateType, D: Fn() -> S>(&mut self, default: &D) -> (r: S)
        requires
            old(self).wf(),
            call_requires(*default, ()),
        ensures
            final(self).wf(),
            Context::same_but_env(*old(self), *final(self)),
            forall|k: u64|
                #[trigger] old(self).env_map@.contains_key(k)
                    ==> final(self).env_map@.contains_key(k) && final(self).env_map@[k]
                    == old(self).env_map@[k],
            old(self).env_map@.contains_key(S::spec_tag()) && S::spec_fits(
                old(self).env_map@[S::spec_tag()],
            ) ==> final(self).env_map == old(self).env_map && r == S::spec_unwrap(
                old(self).env_map@[S::spec_tag()],
            ),
            !old(self).env_map@.contains_key(S::spec_tag()) ==> exists|d: S|
                call_ensures(*default, (), d) && r == d && final(self).env_map@ == old(
                    self,
                ).env_map@.insert(S::spec_tag(), d.spec_wrap()),
    {
        let tag = S::tag();
        match self.env_map.get(&tag) {
            Some(v) => {
                if S::fits(v) {
                    S::unwrap_ref(v).dup()
                } else {
                    (default)()
                }
            },
            None => {
                let d: S = (default)();
                let copy = d.dup();
                proof {
                    copy.lemma_roundtrip();
                }
                self.env_map.insert(tag, copy.wrap());
                d
            },
        }
    }
}

/// The stateful node: the load-bearing combinator. On every protocol call
/// it resolves its `State<S>` cell through the store (creating it from the
/// default on the first visit), re-invokes its body to get the current
/// child view value, and delegates to that child under a stable child
/// identity. The view value is rebuilt every traversal; the cell persists.
pub struct StateView<S, D, F> {
    pub default: D,
    pub func: F,
    pub marker: core::marker::PhantomData<S>,
}

impl<S: StateType, V: Wf, D: Fn() -> S, F: Fn(State<S>) -> V> Wf for StateView<S, D, F> {
    open spec fn wf(&self) -> bool {
        &&& call_requires(self.default, ())
        &&& forall|s: State<S>| #[trigger] call_requires(self.func, (s,))
        &&& forall|s: State<S>, v: V| #[trigger] call_ensures(self.func, (s,), v) ==> v.wf()
    }
}

/// Associates persistent state of type `S` with this point of the tree.
///
/// `initial` builds the state's first value; `f` is handed a `State<S>`
/// and returns the current child view. A type mismatch against an existing
/// cell for the same identity is the fatal tree-shape error: the operation
/// on this subtree is abandoned (nothing is read, written or drawn for it)
/// rather than ever reinterpreting the stored value.
pub fn state<S: StateType, V: Wf, D: Fn() -> S + 'static, F: Fn(State<S>) -> V + 'static>(
    initial: D,
    f: F,
) -> (r: StateView<S, D, F>)
    requires
        call_requires(initial, ()),
        forall|s: State<S>| #[trigger] call_requires(f, (s,)),
        forall|s: State<S>, v: V| #[trigger] call_ensures(f, (s,), v) ==> v.wf(),
    ensures
        r.wf(),
        r.default == initial,
        r.func == f,
{
    StateView { default: initial, func: f, marker: core::marker::PhantomData }
}

impl<A, S: StateType, V: View<A>, D: Fn() -> S, F: Fn(State<S>) -> V> View<A> for StateView<
    S,
    D,
    F,
> {
    fn process(&self, event: &Event, id: ViewId, cx: &mut Context, actions: &mut Vec<A>)
        ensures
            old(cx).state_map@.contains_key(id.id) && !S::spec_fits(old(cx).state_map@[id.id])
                ==> *final(cx) == *old(cx) && final(actions)@ == old(actions)@,
            !(old(cx).state_map@.contains_key(id.id) && !S::spec_fits(
                old(cx).state_map@[id.id],
            )) ==> final(cx).state_map@.contains_key(id.id),
    {
        match cx.get_state::<S, D>(id, &self.default) {
            Some(s) => {
                proof {
                    assert(cx.state_map@.contains_key(id.id));
                }
                let v = (self.func)(s);
                v.process(event, id.child(0), cx, actions);
            },
            None => {},
        }
    }
}

impl<S: StateType, V: ViewCore, D: Fn() -> S, F: Fn(State<S>) -> V> ViewCore for StateView<
    S,
    D,
    F,
> {
    open spec fn hits(&self, id: ViewId, pt: LocalPoint, cx: Context, r: Option<ViewId>) -> bool {
        if cx.state_map@.contains_key(id.id) && !S::spec_fits(cx.state_map@[id.id]) {
            r is None
        } else if cx.state_map@.contains_key(id.id) {
            exists|v: V|
                call_ensures(
                    self.func,
                    (State::<S> { id, marker: core::marker::PhantomData },),
                    v,
                ) && v.hits(id.spec_child(0), pt, cx, r)
        } else {
            exists|d: S, v: V, mid: Context|
                {
                    &&& call_ensures(self.default, (), d)
                    &&& mid.state_map@ == cx.state_map@.insert(id.id, d.spec_wrap())
                    &&& Context::same_but_state(cx, mid)
                    &&& mid.dirty == cx.dirty
                    &&& call_ensures(
                        self.func,
                        (State::<S> { id, marker: core::marker::PhantomData },),
                        v,
                    )
                    &&& v.hits(id.spec_child(0), pt, mid, r)
                }
        }
    }

    fn print(&self, id: ViewId, cx: &mut Context, out: &mut String) {
        match cx.get_state::<S, D>(id, &self.default) {
            Some(s) => {
                let v = (self.func)(s);
                v.print(id.child(0), cx, out);
            },
            None => {},
        }
    }

    fn draw(&self, id: ViewId, cx: &mut Context, renderer: &mut Renderer) {
        match cx.get_state::<S, D>(id, &self.default) {
            Some(s) => {
                let v = (self.func)(s);
                v.draw(id.child(0), cx, renderer);
            },
            None => {},
        }
    }

    fn layout(&self, id: ViewId, sz: LocalSize, cx: &mut Context, renderer: &mut Renderer) -> (
        used: LocalSize)
        ensures
            old(cx).state_map@.contains_key(id.id) && !S::spec_fits(old(cx).state_map@[id.id])
                ==> *final(cx) == *old(cx) && used == (LocalSize { width: 0, height: 0 }),
            !old(cx).state_map@.contains_key(id.id) ==> exists|d: S|
                call_ensures(self.default, (), d) && final(cx).state_map@.contains_key(id.id)
                    && final(cx).state_map@[id.id] == d.spec_wrap(),
            old(cx).state_map@.contains_key(id.id) && S::spec_fits(old(cx).state_map@[id.id])
                ==> final(cx).state_map@.contains_key(id.id) && final(cx).state_map@[id.id]
                == old(cx).state_map@[id.id],
    {
        match cx.get_state::<S, D>(id, &self.default) {
            Some(s) => {
                proof {
                    assert(cx.state_map@.contains_key(id.id));
                }
                let ghost cell = cx.state_map@[id.id];
                let v = (self.func)(s);
                let used = v.layout(id.child(0), sz, cx, renderer);
                proof {
                    assert(cx.state_map@.contains_key(id.id) && cx.state_map@[id.id] == cell);
                }
                used
            },
            None => LocalSize { width: 0, height: 0 },
        }
    }

    fn hittest(&self, id: ViewId, pt: LocalPoint, cx: &mut Context) -> (r: Option<ViewId>) {
        match cx.get_state::<S, D>(id, &self.default) {
            Some(s) => {
                let ghost mid = *cx;
                let v = (self.func)(s);
                let r = v.hittest(id.child(0), pt, cx);
                proof {
                    assert(s == (State::<S> { id, marker: core::marker::PhantomData }));
                    if !old(cx).state_map@.contains_key(id.id) {
                        let d = choose|d: S|
                            call_ensures(self.default, (), d) && mid.state_map@ == old(
                                cx,
                            ).state_map@.insert(id.id, d.spec_wrap());
                        assert(self.hits(id, pt, *old(cx), r));
                    }
                }
                r
            },
            None => None,
        }
    }

    fn commands(&self, id: ViewId, cx: &mut Context, cmds: &mut Vec<CommandInfo>) {
        match cx.get_state::<S, D>(id, &self.default) {
            Some(s) => {
                let v = (self.func)(s);
                v.commands(id.child(0), cx, cmds);
            },
            None => {},
        }
    }

    fn gc(&self, id: ViewId, cx: &mut Context, map: &mut Vec<ViewId>)
        ensures
            old(cx).state_map@.contains_key(id.id) && !S::spec_fits(old(cx).state_map@[id.id])
                ==> *final(cx) == *old(cx) && final(map)@ == old(map)@,
            !(old(cx).state_map@.contains_key(id.id) && !S::spec_fits(old(cx).state_map@[id.id]))
                ==> final(map)@.len() > old(map)@.len() && final(map)@[old(map)@.len() as int]
                == id,
    {
        match cx.get_state::<S, D>(id, &self.default) {
            Some(s) => {
                let ghost before = map@;
                map.push(id);
                proof {
                    assert(before.is_prefix_of(map@));
                }
                let ghost mid = map@;
                let v = (self.func)(s);
                v.gc(id.child(0), cx, map);
                proof {
                    assert(map@[before.len() as int] == mid.subrange(0, mid.len() as int)[
                        before.len() as int]);
                    assert(before =~= map@.subrange(0, before.len() as int));
                }
            },
            None => {},
        }
    }

    fn access(&self, id: ViewId, cx: &mut Context, nodes: &mut Vec<accesskit::Node>) -> (r: Option<
        accesskit::NodeId,
    >) {
        match cx.get_state::<S, D>(id, &self.default) {
            Some(s) => {
                let v = (self.func)(s);
                v.access(id.child(0), cx, nodes)
            },
            None => None,
        }
    }
}

/// State persistence: across any number of successive frames that each
/// revisit identity `id` without removing it (every visit returns the
/// existing cell and leaves the store entry untouched, as `get_state`
/// ensures), the value the cell held before the first frame — including
/// any mutation made between frames — is still there after the last.
pub proof fn lemma_state_persistence<S: StateType>(frames: Seq<Context>, id: ViewId, v: S)
    requires
        frames.len() > 0,
        spec_state_valid::<S>(frames[0], id),
        spec_state_value::<S>(frames[0], id) == v,
        forall|i: int|
            0 <= i < frames.len() - 1 ==> (#[trigger] frames[i + 1].state_map@).contains_key(id.id)
                && frames[i + 1].state_map@[id.id] == frames[i].state_map@[id.id],
    ensures
        spec_state_valid::<S>(frames[frames.len() - 1], id),
        spec_state_value::<S>(frames[frames.len() - 1], id) == v,
    decreases frames.len(),
{
    if frames.len() > 1 {
        let prefix = frames.drop_last();
        assert(prefix[0] == frames[0]);
        assert forall|i: int|
            0 <= i < prefix.len() - 1 implies (#[trigger] prefix[i + 1].state_map@).contains_key(
            id.id,
        ) && prefix[i + 1].state_map@[id.id] == prefix[i].state_map@[id.id] by {
            assert(prefix[i] == frames[i]);
            assert(prefix[i + 1] == frames[i + 1]);
        }
        lemma_state_persistence::<S>(prefix, id, v);
        let n = frames.len() as int;
        assert(prefix[prefix.len() - 1] == frames[n - 2]);
        assert((#[trigger] frames[(n - 2) + 1].state_map@).contains_key(id.id) && frames[(n - 2)
            + 1].state_map@[id.id] == frames[n - 2].state_map@[id.id]);
        assert(frames[n - 1] == frames[(n - 2) + 1]);
    }
}

/// GC correctness: after a sweep over the mark list `alive` (related to
/// the store before and after exactly as `gc_sweep` ensures), a marked
/// identity that had a cell keeps that cell with its value unchanged, and
/// an unmarked identity has no cell at all — so the next visit of a fresh
/// identity starts from its default, with no explicit disposal anywhere.
pub proof fn lemma_gc_correctness<S: StateType>(
    before: Context,
    after: Context,
    alive: Seq<ViewId>,
    id: ViewId,
)
    requires
        forall|k: u64|
            #[trigger] after.state_map@.contains_key(k) <==> (before.state_map@.contains_key(k)
                && alive.contains(ViewId { id: k })),
        forall|k: u64|
            after.state_map@.contains_key(k) ==> #[trigger] after.state_map@[k]
                == before.state_map@[k],
    ensures
        alive.contains(id) && spec_state_valid::<S>(before, id) ==> spec_state_valid::<S>(
            after,
            id,
        ) && spec_state_value::<S>(after, id) == spec_state_value::<S>(before, id),
        !alive.contains(id) ==> !after.state_map@.contains_key(id.id),
{
    assert(ViewId { id: id.id } == id);
}

} // verus!
