//! Bindings and lenses: composable read/write projections over stored
//! state, independent of the storage behind them.
//!
//! A `Lens<T, U>` is a pure, total, copyable pair of projections from a
//! container `T` to a part `U`. A `Binding<S>` is scoped read and
//! read-write access to an `S` owned by some source of truth: a state cell,
//! or another binding seen through a lens. Mapping a binding through a lens
//! costs one more indirect call per access and no extra allocation, and
//! composition associates: mapping twice equals mapping once through the
//! composed lens.

use vstd::prelude::*;

verus! {

use crate::context::Context;
use crate::state::spec_state_valid;
use crate::state::spec_state_value;
use crate::state::State;
use crate::state::StateType;
use crate::view::preserves_dispatch_state;
use crate::viewid::ViewId;

broadcast use vstd::std_specs::hash::group_hash_axioms;

/// A pure, stateless, total projection pair from `T` into a part `U`.
pub trait Lens<T, U>: Clone + Copy + 'static {
    /// What `focus` reads.
    spec fn spec_get(&self, t: T) -> U;

    /// The container after the focused part is replaced.
    spec fn spec_put(&self, t: T, u: U) -> T;

    /// The lens laws: reading back what was written, writing back what
    /// was read, and a second write overwriting the first.
    proof fn lemma_lens_laws(&self, t: T, u: U)
        ensures
            self.spec_get(self.spec_put(t, u)) == u,
            self.spec_put(t, self.spec_get(t)) == t,
            forall|u2: U| #[trigger] self.spec_put(self.spec_put(t, u), u2) == self.spec_put(
                t,
                u2,
            ),
    ;

    fn focus<'a>(&self, data: &'a T) -> (r: &'a U)
        ensures
            *r == self.spec_get(*data),
    ;

    fn focus_mut<'a>(&self, data: &'a mut T) -> (r: &'a mut U)
        ensures
            *r == self.spec_get(*old(data)),
            *final(data) == self.spec_put(*old(data), *final(r)),
    ;
}

/// Reads or writes a value owned by a source-of-truth.
pub trait Binding<S>: Clone + 'static {
    /// Whether the binding can be exercised against `cx` (its cell exists
    /// and holds the expected type).
    spec fn spec_valid(&self, cx: Context) -> bool;

    /// The value currently read through the binding.
    spec fn spec_read(&self, cx: Context) -> S;

    /// How a write of `v` relates the context before to the context after.
    spec fn spec_wrote(&self, prev: Context, next: Context, v: S) -> bool;

    /// A write lands where the next read finds it, keeps the binding
    /// valid and the context well-formed, sets the dirty flag, and never
    /// touches the dispatch state (capture tables, focus, root, button).
    proof fn lemma_wrote(&self, prev: Context, next: Context, v: S)
        requires
            self.spec_valid(prev),
            prev.wf(),
            self.spec_wrote(prev, next, v),
        ensures
            self.spec_valid(next),
            self.spec_read(next) == v,
            next.dirty,
            next.wf(),
            preserves_dispatch_state(prev, next),
            next.env_map == prev.env_map,
            next.fired == prev.fired,
            forall|k: u64|
                #[trigger] prev.state_map@.contains_key(k) ==> next.state_map@.contains_key(k),
    ;

    /// Whether the binding can currently be exercised: its backing cell
    /// exists and holds the expected type.
    fn is_valid(&self, cx: &Context) -> (b: bool)
        ensures
            b == self.spec_valid(*cx),
    ;

    /// Scoped read access.
    fn get<'a>(&self, cx: &'a mut Context) -> (r: &'a S)
        requires
            old(cx).wf(),
            self.spec_valid(*old(cx)),
        ensures
            *final(cx) == *old(cx),
            *r == self.spec_read(*old(cx)),
    ;

    /// Scoped exclusive access. Marks the context dirty before handing the
    /// reference out, whatever the caller then writes through it.
    fn get_mut<'a>(&self, cx: &'a mut Context) -> (r: &'a mut S)
        requires
            old(cx).wf(),
            self.spec_valid(*old(cx)),
        ensures
            *r == self.spec_read(*old(cx)),
            self.spec_wrote(*old(cx), *final(cx), *final(r)),
    ;
}

impl<S: StateType + 'static> Binding<S> for State<S> {
    open spec fn spec_valid(&self, cx: Context) -> bool {
        spec_state_valid::<S>(cx, self.id)
    }

    open spec fn spec_read(&self, cx: Context) -> S {
        spec_state_value::<S>(cx, self.id)
    }

    open spec fn spec_wrote(&self, prev: Context, next: Context, v: S) -> bool {
        &&& next.state_map@ == prev.state_map@.insert(self.id.id, v.spec_wrap())
        &&& Context::same_but_state(prev, next)
        &&& next.dirty
    }

    proof fn lemma_wrote(&self, prev: Context, next: Context, v: S) {
        v.lemma_roundtrip();
    }

    fn is_valid(&self, cx: &Context) -> (b: bool) {
        match cx.state_map.get(&self.id.id) {
            Some(v) => S::fits(v),
            None => false,
        }
    }

    fn get<'a>(&self, cx: &'a mut Context) -> (r: &'a S) {
        let id = State::<S> { id: self.id, marker: core::marker::PhantomData };
        cx.get(&id)
    }

    fn get_mut<'a>(&self, cx: &'a mut Context) -> (r: &'a mut S) {
        let id = State::<S> { id: self.id, marker: core::marker::PhantomData };
        cx.get_mut(&id)
    }
}

/// A binding seen through a lens: reads and writes of the part delegate
/// through the lens into the outer binding's scoped access, with no
/// intermediate copy of either value.
pub struct MapBinding<B, L, S, T> {
    pub binding: B,
    pub lens: L,
    pub phantom_s: core::marker::PhantomData<S>,
    pub phantom_t: core::marker::PhantomData<T>,
}

impl<B: Clone, L: Clone, S, T> Clone for MapBinding<B, L, S, T> {
    fn clone(&self) -> (r: Self) {
        MapBinding {
            binding: self.binding.clone(),
            lens: self.lens.clone(),
            phantom_s: core::marker::PhantomData,
            phantom_t: core::marker::PhantomData,
        }
    }
}

impl<B: Copy, L: Copy, S, T> Copy for MapBinding<B, L, S, T> {

}

impl<S, B, L, T> MapBinding<B, L, S, T> where
    B: Binding<T>,
    L: Lens<T, S>,
    S: Clone + 'static,
    T: Clone + 'static,
 {
    pub fn new(binding: B, lens: L) -> (r: Self)
        ensures
            r.binding == binding,
            r.lens == lens,
    {
        Self {
            binding,
            lens,
            phantom_s: core::marker::PhantomData,
            phantom_t: core::marker::PhantomData,
        }
    }
}

impl<S, B, L, T> Binding<S> for MapBinding<B, L, S, T> where
    B: Binding<T>,
    L: Lens<T, S>,
    S: Clone + 'static,
    T: Clone + 'static,
 {
    open spec fn spec_valid(&self, cx: Context) -> bool {
        self.binding.spec_valid(cx)
    }

    open spec fn spec_read(&self, cx: Context) -> S {
        self.lens.spec_get(self.binding.spec_read(cx))
    }

    open spec fn spec_wrote(&self, prev: Context, next: Context, v: S) -> bool {
        self.binding.spec_wrote(prev, next, self.lens.spec_put(self.binding.spec_read(prev), v))
    }

    proof fn lemma_wrote(&self, prev: Context, next: Context, v: S) {
        let t = self.lens.spec_put(self.binding.spec_read(prev), v);
        self.binding.lemma_wrote(prev, next, t);
        self.lens.lemma_lens_laws(self.binding.spec_read(prev), v);
    }

    fn is_valid(&self, cx: &Context) -> (b: bool) {
        self.binding.is_valid(cx)
    }

    fn get<'a>(&self, cx: &'a mut Context) -> (r: &'a S) {
        self.lens.focus(self.binding.get(cx))
    }

    fn get_mut<'a>(&self, cx: &'a mut Context) -> (r: &'a mut S) {
        self.lens.focus_mut(self.binding.get_mut(cx))
    }
}

/// Two lenses end to end: focuses `L1` into `T`, then `L2` into what `L1`
/// found.
pub struct LensCompose<L1, L2, U> {
    pub first: L1,
    pub second: L2,
    pub phantom: core::marker::PhantomData<U>,
}

impl<L1: Clone, L2: Clone, U> Clone for LensCompose<L1, L2, U> {
    fn clone(&self) -> (r: Self) {
        LensCompose {
            first: self.first.clone(),
            second: self.second.clone(),
            phantom: core::marker::PhantomData,
        }
    }
}

impl<L1: Copy, L2: Copy, U> Copy for LensCompose<L1, L2, U> {

}

impl<L1, L2, U> LensCompose<L1, L2, U> {
    pub fn new(first: L1, second: L2) -> (r: Self)
        ensures
            r.first == first,
            r.second == second,
    {
        LensCompose { first, second, phantom: core::marker::PhantomData }
    }
}

impl<T, U, W, L1, L2> Lens<T, W> for LensCompose<L1, L2, U> where
    L1: Lens<T, U>,
    L2: Lens<U, W>,
    U: 'static,
 {
    open spec fn spec_get(&self, t: T) -> W {
        self.second.spec_get(self.first.spec_get(t))
    }

    open spec fn spec_put(&self, t: T, w: W) -> T {
        self.first.spec_put(t, self.second.spec_put(self.first.spec_get(t), w))
    }

    proof fn lemma_lens_laws(&self, t: T, w: W) {
        let u = self.first.spec_get(t);
        self.first.lemma_lens_laws(t, self.second.spec_put(u, w));
        self.second.lemma_lens_laws(u, w);
        self.first.lemma_lens_laws(t, u);
        assert forall|w2: W| #[trigger] self.spec_put(self.spec_put(t, w), w2) == self.spec_put(
            t,
            w2,
        ) by {
            let t1 = self.first.spec_put(t, self.second.spec_put(u, w));
            self.first.lemma_lens_laws(t1, self.second.spec_put(self.first.spec_get(t1), w2));
            self.second.lemma_lens_laws(self.first.spec_get(t1), w2);
            self.second.lemma_lens_laws(u, w2);
        }
    }

    fn focus<'a>(&self, data: &'a T) -> (r: &'a W) {
        self.second.focus(self.first.focus(data))
    }

    fn focus_mut<'a>(&self, data: &'a mut T) -> (r: &'a mut W) {
        proof {
            self.first.lemma_lens_laws(*data, self.first.spec_get(*data));
        }
        let mid = self.first.focus_mut(data);
        self.second.focus_mut(mid)
    }
}

/// Composition law: mapping a mapped binding through a second lens is the
/// same binding as mapping the original through the composed lens — the
/// same reads, the same validity, and the same write relation.
pub proof fn lemma_map_compose<T, U, W, B, L1, L2>(
    b: B,
    l1: L1,
    l2: L2,
    nested: MapBinding<MapBinding<B, L1, U, T>, L2, W, U>,
    composed: MapBinding<B, LensCompose<L1, L2, U>, W, T>,
)
    where
        B: Binding<T>,
        L1: Lens<T, U>,
        L2: Lens<U, W>,
        T: Clone + 'static,
        U: Clone + 'static,
        W: Clone + 'static,
    requires
        nested.binding.binding == b,
        nested.binding.lens == l1,
        nested.lens == l2,
        composed.binding == b,
        composed.lens == (LensCompose::<L1, L2, U> {
            first: l1,
            second: l2,
            phantom: core::marker::PhantomData,
        }),
    ensures
        forall|cx: Context| nested.spec_valid(cx) == composed.spec_valid(cx),
        forall|cx: Context| nested.spec_read(cx) == composed.spec_read(cx),
        forall|prev: Context, next: Context, v: W|
            nested.spec_wrote(prev, next, v) == composed.spec_wrote(prev, next, v),
{
}

/// The one-off composition form: a binding seen through a pair of
/// closures (a projection and its update counterpart) instead of a named
/// lens. Because the projections are arbitrary closures, its reads and
/// writes are specified relationally, against the closures' own
/// contracts; for the same reason it offers `get`/`set` directly rather
/// than implementing `Binding`, so unlike a named-lens mapping it cannot
/// itself be mapped again — a binding whose meaning is only a relation
/// has no read function for a further lens to compose with. For anything
/// reused or nested, name the lens and use `MapBinding`.
pub struct Map3<B, F, FM, S, T> {
    pub binding: B,
    pub focus: F,
    pub focus_mut: FM,
    pub phantom: core::marker::PhantomData<(S, T)>,
}

impl<S, B, F, FM, T> Map3<B, F, FM, S, T> where
    B: Binding<T>,
    F: Fn(&T) -> S,
    FM: Fn(&T, S) -> T,
    S: 'static,
    T: Clone + 'static,
 {
    pub fn new(binding: B, focus: F, focus_mut: FM) -> (r: Self)
        ensures
            r.binding == binding,
            r.focus == focus,
            r.focus_mut == focus_mut,
    {
        Self { binding, focus, focus_mut, phantom: core::marker::PhantomData }
    }

    /// Read through the projection: the result is what `focus` returns
    /// for the value the outer binding currently reads.
    pub fn get(&self, cx: &mut Context) -> (r: S)
        requires
            old(cx).wf(),
            self.binding.spec_valid(*old(cx)),
            forall|t: &T| #[trigger] call_requires(self.focus, (t,)),
        ensures
            *final(cx) == *old(cx),
            exists|t: &T|
                *t == self.binding.spec_read(*old(cx)) && #[trigger] call_ensures(
                    self.focus,
                    (t,),
                    r,
                ),
    {
        let t: &T = self.binding.get(cx);
        (self.focus)(t)
    }

    /// Write through the projection: the outer binding ends up holding
    /// what `focus_mut` built from its current value and `v`, and the
    /// dirty flag is set.
    pub fn set(&self, cx: &mut Context, v: S)
        requires
            old(cx).wf(),
            self.binding.spec_valid(*old(cx)),
            forall|t: &T, s: S| #[trigger] call_requires(self.focus_mut, (t, s)),
        ensures
            final(cx).dirty,
            final(cx).wf(),
            self.binding.spec_valid(*final(cx)),
            exists|t: &T, nt: T|
                {
                    &&& *t == self.binding.spec_read(*old(cx))
                    &&& #[trigger] call_ensures(self.focus_mut, (t, v), nt)
                    &&& self.binding.spec_wrote(*old(cx), *final(cx), nt)
                    &&& self.binding.spec_read(*final(cx)) == nt
                },
    {
        let cur: &mut T = self.binding.get_mut(cx);
        let nt: T = (self.focus_mut)(&*cur, v);
        *cur = nt;
        proof {
            self.binding.lemma_wrote(*old(cx), *final(cx), *final(cur));
        }
    }
}

/// The sample record used by the lens tests: a single integer field.
#[derive(Clone, Copy, Debug, PartialEq, Eq, Structural)]
pub struct MyState {
    pub x: i32,
}

/// A lens onto `MyState::x`.
#[derive(Clone, Copy)]
pub struct MyLens {}

impl Lens<MyState, i32> for MyLens {
    open spec fn spec_get(&self, t: MyState) -> i32 {
        t.x
    }

    open spec fn spec_put(&self, t: MyState, u: i32) -> MyState {
        MyState { x: u }
    }

    proof fn lemma_lens_laws(&self, t: MyState, u: i32) {
    }

    fn focus<'a>(&self, data: &'a MyState) -> (r: &'a i32) {
        &data.x
    }

    fn focus_mut<'a>(&self, data: &'a mut MyState) -> (r: &'a mut i32) {
        &mut data.x
    }
}

/// The leaf of the sample two-level record.
#[derive(Clone, Copy, Debug, PartialEq, Eq, Structural)]
pub struct Inner {
    pub b: i32,
}

/// A small two-level data model: a record holding a record holding an
/// integer. Used to exercise nested lens composition.
#[derive(Clone, Copy, Debug, PartialEq, Eq, Structural)]
pub struct Outer {
    pub a: Inner,
}

/// A lens onto `Outer::a`.
#[derive(Clone, Copy)]
pub struct LensA {}

impl Lens<Outer, Inner> for LensA {
    open spec fn spec_get(&self, t: Outer) -> Inner {
        t.a
    }

    open spec fn spec_put(&self, t: Outer, u: Inner) -> Outer {
        Outer { a: u }
    }

    proof fn lemma_lens_laws(&self, t: Outer, u: Inner) {
    }

    fn focus<'a>(&self, data: &'a Outer) -> (r: &'a Inner) {
        &data.a
    }

    fn focus_mut<'a>(&self, data: &'a mut Outer) -> (r: &'a mut Inner) {
        &mut data.a
    }
}

/// A lens onto `Inner::b`.
#[derive(Clone, Copy)]
pub struct LensB {}

impl Lens<Inner, i32> for LensB {
    open spec fn spec_get(&self, t: Inner) -> i32 {
        t.b
    }

    open spec fn spec_put(&self, t: Inner, u: i32) -> Inner {
        Inner { b: u }
    }

    proof fn lemma_lens_laws(&self, t: Inner, u: i32) {
    }

    fn focus<'a>(&self, data: &'a Inner) -> (r: &'a i32) {
        &data.b
    }

    fn focus_mut<'a>(&self, data: &'a mut Inner) -> (r: &'a mut i32) {
        &mut data.b
    }
}

/// Scoped read: applies `f` to the bound value in place. Never touches the
/// dirty flag — the context comes back exactly as it went in.
pub fn with<S, B: Binding<S>, R, F: Fn(&S) -> R>(b: &B, cx: &mut Context, f: F) -> (r: R)
    requires
        old(cx).wf(),
        b.spec_valid(*old(cx)),
        forall|t: &S| #[trigger] call_requires(f, (t,)),
    ensures
        *final(cx) == *old(cx),
        exists|t: &S| *t == b.spec_read(*old(cx)) && #[trigger] call_ensures(f, (t,), r),
{
    let v: &S = b.get(cx);
    f(v)
}

/// Scoped read-write: applies `f` to the bound value in place, handing it
/// the current value and storing back whatever `f` left — the witness `t`
/// below is that exclusive borrow, so the result and the written value are
/// exactly what `f`'s own contract says of it. Marks the context dirty
/// unconditionally, even if `f` made no net change.
/// Reentrant exclusive access to a cell cannot arise: the borrow of the
/// context is confined to this call, and the compiler refuses a nested
/// access while it lasts.
pub fn with_mut<S, B: Binding<S>, R, F: Fn(&mut S) -> R>(b: &B, cx: &mut Context, f: F) -> (r: R)
    requires
        old(cx).wf(),
        b.spec_valid(*old(cx)),
        forall|t: &mut S| #[trigger] call_requires(f, (t,)),
    ensures
        final(cx).dirty,
        final(cx).wf(),
        b.spec_valid(*final(cx)),
        exists|t: &mut S|
            {
                &&& mut_ref_current(t) == b.spec_read(*old(cx))
                &&& #[trigger] call_ensures(f, (t,), r)
                &&& b.spec_wrote(*old(cx), *final(cx), mut_ref_future(t))
                &&& b.spec_read(*final(cx)) == mut_ref_future(t)
            },
{
    let v: &mut S = b.get_mut(cx);
    let r = f(v);
    proof {
        b.lemma_wrote(*old(cx), *final(cx), *final(v));
    }
    r
}

/// Dirty propagation: over any run of frames in which each step is
/// either a pure read (`with`, which returns the context exactly as it
/// was) or a write through some binding (`with_mut`/`get_mut`, which set
/// the flag and whose later reads preserve it), the flag is set at the
/// end exactly when it was set at the start or some step wrote.
pub proof fn lemma_dirty_propagation(frames: Seq<Context>, wrote: Seq<bool>)
    requires
        frames.len() == wrote.len() + 1,
        forall|i: int| 0 <= i < wrote.len() && !wrote[i] ==> frames[i + 1] == frames[i],
        forall|i: int| 0 <= i < wrote.len() && wrote[i] ==> (#[trigger] frames[i + 1]).dirty,
    ensures
        frames[frames.len() - 1].dirty <==> (frames[0].dirty || exists|i: int|
            0 <= i < wrote.len() && wrote[i]),
    decreases wrote.len(),
{
    if wrote.len() > 0 {
        let n = wrote.len() as int;
        let fp = frames.drop_last();
        let wp = wrote.drop_last();
        assert forall|i: int| 0 <= i < wp.len() && !wp[i] implies fp[i + 1] == fp[i] by {
            assert(wp[i] == wrote[i]);
            assert(fp[i] == frames[i]);
            assert(fp[i + 1] == frames[i + 1]);
        }
        assert forall|i: int| 0 <= i < wp.len() && wp[i] implies (#[trigger] fp[i + 1]).dirty by {
            assert(wp[i] == wrote[i]);
            assert(fp[i + 1] == frames[i + 1]);
        }
        lemma_dirty_propagation(fp, wp);
        assert(fp[fp.len() - 1] == frames[n - 1]);
        if wrote[n - 1] {
            assert(frames[n].dirty);
        } else {
            assert(frames[n] == frames[n - 1]);
            if frames[n].dirty {
                if !frames[0].dirty {
                    let j = choose|j: int| 0 <= j < wp.len() && wp[j];
                    assert(wrote[j]);
                }
            } else {
                assert forall|i: int| 0 <= i < wrote.len() implies !wrote[i] by {
                    if i < n - 1 {
                        assert(wp[i] == wrote[i]);
                    }
                }
            }
        }
    }
}

} // verus!
