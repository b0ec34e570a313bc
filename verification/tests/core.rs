use rui::clear_state_dirty;
use rui::is_state_dirty;
use rui::with;
use rui::with_mut;
use rui::Binding;
use rui::Context;
use rui::Inner;
use rui::Lens;
use rui::LensA;
use rui::LensB;
use rui::LensCompose;
use rui::Map3;
use rui::MapBinding;
use rui::MyLens;
use rui::MyState;
use rui::Outer;
use rui::State;
use rui::StateValue;
use rui::ViewId;

#[test]
fn test_lens() {
    let mut s = MyState { x: 0 };
    *MyLens {}.focus_mut(&mut s) = 42;
    assert_eq!(*MyLens {}.focus(&s), 42);
}

#[test]
fn test_bind2() {
    let mut cx = Context::new();
    let id = ViewId::default();
    cx.state_map
        .insert(id.id, StateValue::Record(Outer { a: Inner { b: 0 } }));
    let s: State<Outer> = State::new(id);

    let b = MapBinding::new(s, LensA {});

    *b.get_mut(&mut cx) = Inner { b: 42 };
    assert_eq!(b.get(&mut cx).b, 42);
}

#[test]
fn test_state_clone() {
    let mut cx = Context::new();
    let id = ViewId { id: 9 };
    cx.state_map.insert(id.id, StateValue::Int(0));
    let s: State<i32> = State::new(id);
    let s2 = s.clone();
    with_mut(&s, &mut cx, |v: &mut i32| *v = 42);
    assert_eq!(with(&s2, &mut cx, |v: &i32| *v), 42);
}

#[test]
fn identity_stable_and_distinct() {
    let p = ViewId { id: 17 };
    for i in 0..40u64 {
        assert_eq!(p.child(i), p.child(i));
        for j in 0..40u64 {
            if i != j {
                assert_ne!(p.child(i), p.child(j));
            }
        }
    }
    assert_eq!(p.child_keyed("alpha"), p.child_keyed("alpha"));
    assert_ne!(p.child_keyed("alpha"), p.child_keyed("beta"));
    // distinct parents, same selector: never the same child (the mixer
    // is a bijection)
    for a in 0..20u64 {
        for b in 0..20u64 {
            if a != b {
                assert_ne!(ViewId { id: a }.child(0), ViewId { id: b }.child(0));
            }
        }
    }
}

#[test]
fn state_persists_across_frames() {
    let mut cx = Context::new();
    let id = ViewId { id: 1 }.child(0);
    let default = || 0i32;
    // frame 1: first visit creates the cell at its default
    let cell = cx.get_state::<i32, _>(id, &default).unwrap();
    assert_eq!(*cx.get(&cell), 0);
    // mutate between frames
    *cx.get_mut(&cell) = 5;
    // frames 2..=4: revisiting neither resets nor loses the value
    for _ in 0..3 {
        let again = cx.get_state::<i32, _>(id, &default).unwrap();
        assert_eq!(*cx.get(&again), 5);
    }
}

#[test]
fn state_type_mismatch_is_refused() {
    let mut cx = Context::new();
    let id = ViewId { id: 1 }.child(0);
    let default = || 0i32;
    let _ = cx.get_state::<i32, _>(id, &default).unwrap();
    // the same identity looked up as text is the fatal tree-shape error
    let text_default = || String::new();
    assert!(cx.get_state::<String, _>(id, &text_default).is_none());
    // and the stored integer is not reinterpreted
    assert_eq!(*cx.get(&State::<i32>::new(id)), 0);
}

#[test]
fn dirty_propagation() {
    let mut cx = Context::new();
    let id = ViewId { id: 3 };
    cx.state_map.insert(id.id, StateValue::Int(0));
    let s: State<i32> = State::new(id);
    assert!(!is_state_dirty(&cx));
    for _ in 0..5 {
        let _ = with(&s, &mut cx, |v: &i32| *v);
        assert!(!is_state_dirty(&cx));
    }
    with_mut(&s, &mut cx, |v: &mut i32| *v = 7);
    assert!(is_state_dirty(&cx));
    assert_eq!(with(&s, &mut cx, |v: &i32| *v), 7);
    clear_state_dirty(&mut cx);
    assert!(!is_state_dirty(&cx));
}

#[test]
fn lens_composition_law() {
    let mut cx = Context::new();
    let id = ViewId { id: 4 };
    cx.state_map
        .insert(id.id, StateValue::Record(Outer { a: Inner { b: 1 } }));
    let root: State<Outer> = State::new(id);

    let nested = MapBinding::new(MapBinding::new(root.clone(), LensA {}), LensB {});
    let composed = MapBinding::new(root, LensCompose::new(LensA {}, LensB {}));

    let via_nested = *nested.get(&mut cx);
    let via_composed = *composed.get(&mut cx);
    assert_eq!(via_nested, via_composed);
    *nested.get_mut(&mut cx) = 42;
    assert_eq!(*composed.get(&mut cx), 42);
    *composed.get_mut(&mut cx) = 13;
    assert_eq!(*nested.get(&mut cx), 13);
}

#[test]
fn map3_closure_pair() {
    let mut cx = Context::new();
    let id = ViewId { id: 6 };
    cx.state_map
        .insert(id.id, StateValue::Record(Outer { a: Inner { b: 1 } }));
    let root: State<Outer> = State::new(id);
    let b = Map3::new(
        root,
        |t: &Outer| t.a.b,
        |_t: &Outer, v: i32| Outer {
            a: Inner { b: v },
        },
    );
    assert_eq!(b.get(&mut cx), 1);
    b.set(&mut cx, 42);
    assert_eq!(b.get(&mut cx), 42);
    assert!(cx.dirty);
}

#[test]
fn gc_three_keyed_items() {
    let mut cx = Context::new();
    let root = ViewId { id: 1 };
    let ida = root.child_keyed("a");
    let idb = root.child_keyed("b");
    let idc = root.child_keyed("c");
    let default = || 0i32;
    for (id, v) in [(ida, 10), (idb, 20), (idc, 30)] {
        let cell = cx.get_state::<i32, _>(id, &default).unwrap();
        *cx.get_mut(&cell) = v;
    }
    // first mark/sweep: all three keys are still produced by the tree
    cx.gc_sweep(&vec![ida, idb, idc]);
    assert_eq!(cx.state_map.len(), 3);

    // the middle key is removed from the source data; rebuild and sweep
    cx.gc_sweep(&vec![ida, idc]);
    assert_eq!(cx.state_map.len(), 2);
    assert!(!cx.state_map.contains_key(&idb.id));
    assert_eq!(*cx.get(&State::<i32>::new(ida)), 10);
    assert_eq!(*cx.get(&State::<i32>::new(idc)), 30);

    // a freshly inserted key starts from its default value
    let idd = root.child_keyed("d");
    let cell = cx.get_state::<i32, _>(idd, &default).unwrap();
    assert_eq!(*cx.get(&cell), 0);
}

#[test]
fn gc_sweep_empty_mark_list() {
    let mut cx = Context::new();
    let id = ViewId { id: 1 }.child(0);
    let default = || 0i32;
    let _ = cx.get_state::<i32, _>(id, &default).unwrap();
    cx.gc_sweep(&Vec::new());
    assert_eq!(cx.state_map.len(), 0);
}
