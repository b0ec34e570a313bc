use std::cell::Cell;
use std::cell::RefCell;
use std::rc::Rc;

use rui::button;
use rui::rectangle;
use rui::state;
use rui::text;
use rui::text_editor;
use rui::Color;
use rui::Context;
use rui::DrawCmd;
use rui::EmptyView;
use rui::Event;
use rui::EventKind;
use rui::GestureState;
use rui::KeyPress;
use rui::LocalPoint;
use rui::LocalSize;
use rui::Modifiers;
use rui::PaddingParam;
use rui::Renderer;
use rui::State;
use rui::StateValue;
use rui::Tap;
use rui::TextEditorState;
use rui::View;
use rui::ViewCore;
use rui::ViewId;

fn touch_begin(pointer: usize, x: i64, y: i64) -> Event {
    Event {
        kind: EventKind::TouchBegin { id: pointer },
        position: LocalPoint { x, y },
    }
}

fn touch_end(pointer: usize, x: i64, y: i64) -> Event {
    Event {
        kind: EventKind::TouchEnd { id: pointer },
        position: LocalPoint { x, y },
    }
}

#[test]
fn test_button() {
    let _ = button("click me", || {
        println!("clicked!");
    });
}

#[test]
fn test_state() {
    let _ = state(|| 0i32, |_s: State<i32>| EmptyView {});
}

#[test]
fn button_press_by_name() {
    let count = Rc::new(Cell::new(0));
    let c2 = count.clone();
    let b = button("go", move || c2.set(c2.get() + 1));
    let mut cx = Context::new();
    let id = ViewId { id: 1 };
    let mut actions: Vec<()> = Vec::new();

    let press = Event {
        kind: EventKind::PressButton(String::from("go")),
        position: LocalPoint { x: 0, y: 0 },
    };
    b.process(&press, id, &mut cx, &mut actions);
    assert_eq!(count.get(), 1);

    let other = Event {
        kind: EventKind::PressButton(String::from("stop")),
        position: LocalPoint { x: 0, y: 0 },
    };
    b.process(&other, id, &mut cx, &mut actions);
    assert_eq!(count.get(), 1);
}

#[test]
fn button_draw_commands() {
    let b = button("ok", || {});
    let mut cx = Context::new();
    let mut r = Renderer::new();
    b.draw(ViewId { id: 1 }, &mut cx, &mut r);
    assert_eq!(r.commands.len(), 5);
    assert!(matches!(r.commands[0], DrawCmd::FillRect { .. }));
    assert!(matches!(r.commands[1], DrawCmd::Save));
    assert!(matches!(r.commands[2], DrawCmd::Translate { .. }));
    match &r.commands[3] {
        DrawCmd::Text { content, size, .. } => {
            assert_eq!(content, "ok");
            assert_eq!(*size, 18);
        }
        _ => panic!("expected a text command"),
    }
    assert!(matches!(r.commands[4], DrawCmd::Restore));
}

#[test]
fn text_bounds_formula() {
    let r = Renderer::new();
    let sz = r.text_bounds("abcd", 18);
    // four glyphs, each advancing (18 + 1) / 2 = 9
    assert_eq!(sz.width, 36);
    assert_eq!(sz.height, 18);
    let empty = r.text_bounds("", 18);
    assert_eq!(empty.width, 0);
}

#[test]
fn text_layout_registers_own_box() {
    let t = text("hi");
    let mut cx = Context::new();
    let mut r = Renderer::new();
    let id = ViewId { id: 1 };
    let used = t.layout(id, LocalSize { width: 100, height: 100 }, &mut cx, &mut r);
    assert_eq!(used.width, 18);
    assert_eq!(used.height, 18);
    let lb = cx.layout_box(id);
    assert_eq!(lb.rect.size, used);
    assert_eq!(lb.rect.origin, LocalPoint { x: 0, y: 0 });
}

#[test]
fn text_access_emits_label_node() {
    let t = text("hi").font_size(20);
    let mut cx = Context::new();
    let mut nodes: Vec<accesskit::Node> = Vec::new();
    let id = ViewId { id: 44 };
    let got = t.access(id, &mut cx, &mut nodes);
    assert_eq!(nodes.len(), 1);
    assert_eq!(got, Some(accesskit::NodeId(44)));
}

#[test]
fn capture_is_exclusive_and_independent() {
    let fired = Rc::new(Cell::new(0));
    let f2 = fired.clone();
    let view = Tap::new(rectangle(), move || f2.set(f2.get() + 1));
    let mut cx = Context::new();
    let mut r = Renderer::new();
    let id = ViewId { id: 1 };
    view.layout(id, LocalSize { width: 100, height: 100 }, &mut cx, &mut r);

    let mut actions: Vec<()> = Vec::new();
    // pointer 0 begins inside: captured by this view
    view.process(&touch_begin(0, 10, 10), id, &mut cx, &mut actions);
    assert_eq!(cx.touches[0], id);
    // pointer 1 independently captures the same view
    view.process(&touch_begin(1, 10, 10), id, &mut cx, &mut actions);
    assert_eq!(cx.touches[1], id);
    assert_eq!(cx.touches[0], id);
    // pointer 0 ends: slot 0 releases, slot 1 stays captured
    view.process(&touch_end(0, 10, 10), id, &mut cx, &mut actions);
    assert_eq!(cx.touches[0], ViewId::default());
    assert_eq!(cx.touches[1], id);
    assert_eq!(fired.get(), 1);
}

#[test]
fn touch_outside_does_not_capture() {
    let view = Tap::new(rectangle(), || {});
    let mut cx = Context::new();
    let mut r = Renderer::new();
    let id = ViewId { id: 1 };
    view.layout(id, LocalSize { width: 20, height: 20 }, &mut cx, &mut r);
    let mut actions: Vec<()> = Vec::new();
    view.process(&touch_begin(0, 50, 50), id, &mut cx, &mut actions);
    assert_eq!(cx.touches[0], ViewId::default());
}

#[test]
fn drag_reports_deltas() {
    let log: Rc<RefCell<Vec<(i64, i64, bool)>>> = Rc::new(RefCell::new(Vec::new()));
    let l2 = log.clone();
    let view = rui::gestures::Drag::new(rectangle(), move |off: rui::LocalOffset, gs: GestureState| {
        l2.borrow_mut().push((off.x, off.y, matches!(gs, GestureState::Ended)));
    });
    let mut cx = Context::new();
    let mut r = Renderer::new();
    let id = ViewId { id: 1 };
    view.layout(id, LocalSize { width: 100, height: 100 }, &mut cx, &mut r);
    let mut actions: Vec<()> = Vec::new();
    view.process(&touch_begin(0, 10, 10), id, &mut cx, &mut actions);
    let mv = Event { kind: EventKind::TouchMove { id: 0 }, position: LocalPoint { x: 15, y: 12 } };
    view.process(&mv, id, &mut cx, &mut actions);
    view.process(&touch_end(0, 17, 11), id, &mut cx, &mut actions);
    let got = log.borrow().clone();
    assert_eq!(got, vec![(5, 2, false), (2, -1, true)]);
    assert_eq!(cx.touches[0], ViewId::default());
}

#[test]
fn draw_and_hittest_before_layout_read_zero_size() {
    // nothing has run layout, so every identity reads as zero-sized:
    // hit-testing misses and drawing paints a zero rectangle, no crash.
    let view = rectangle();
    let mut cx = Context::new();
    let id = ViewId { id: 1 };
    let got = view.hittest(id, LocalPoint { x: 0, y: 0 }, &mut cx);
    assert_eq!(got, None);

    let mut r = Renderer::new();
    view.draw(id, &mut cx, &mut r);
    match &r.commands[0] {
        DrawCmd::FillRect { rect, .. } => {
            assert_eq!(rect.size, LocalSize { width: 0, height: 0 });
        }
        _ => panic!("expected a rectangle command"),
    }

    let b = button("late", || {});
    let mut actions: Vec<()> = Vec::new();
    b.process(&touch_begin(0, 0, 0), id, &mut cx, &mut actions);
}

#[test]
fn padding_adds_to_layout() {
    let view = rectangle().padding(PaddingParam::Px(4));
    let mut cx = Context::new();
    let mut r = Renderer::new();
    let id = ViewId { id: 1 };
    let used = view.layout(id, LocalSize { width: 100, height: 50 }, &mut cx, &mut r);
    assert_eq!(used, LocalSize { width: 100, height: 50 });
    // the child rectangle got the offered size minus padding on each side
    let child_box = cx.layout_box(id.child(0));
    assert_eq!(child_box.rect.size, LocalSize { width: 92, height: 42 });
    let own_box = cx.layout_box(id);
    assert_eq!(own_box.offset.x, 4);
}

#[test]
fn stateful_node_keeps_state_between_traversals() {
    let view = state(|| 0i32, |_s: State<i32>| EmptyView {});
    let mut cx = Context::new();
    let mut r = Renderer::new();
    let id = ViewId { id: 1 };
    // first traversal creates the cell
    view.layout(id, LocalSize { width: 10, height: 10 }, &mut cx, &mut r);
    assert!(cx.state_map.contains_key(&id.id));
    // mutate it between frames, then traverse again: the value survives
    let cell: State<i32> = State::new(id);
    *cx.get_mut(&cell) = 9;
    view.layout(id, LocalSize { width: 10, height: 10 }, &mut cx, &mut r);
    assert_eq!(*cx.get(&cell), 9);
    // the mark phase records the cell's identity
    let mut marks: Vec<ViewId> = Vec::new();
    view.gc(id, &mut cx, &mut marks);
    assert_eq!(marks, vec![id]);
}

#[test]
fn editor_cursor_motion() {
    let mut st = TextEditorState::new();
    st.glyph_info = rui::text_editor::layout_glyphs(5, 9, 18, 2);
    // rows are [0,2), [2,4), [4,5)
    assert_eq!(st.find_line(), 0);
    st.cursor = 3;
    assert_eq!(st.find_line(), 1);
    st.down();
    assert_eq!(st.cursor, 4);
    st.up();
    assert_eq!(st.find_line(), 1);
    st.up();
    assert_eq!(st.find_line(), 0);
    st.fwd(5);
    st.fwd(5);
    st.fwd(5);
    st.fwd(5);
    st.fwd(5);
    st.fwd(5);
    assert_eq!(st.cursor, 4);
    st.back();
    assert_eq!(st.cursor, 3);
}

#[test]
fn editor_key_edits_text() {
    let mut cx = Context::new();
    let tid = ViewId { id: 70 };
    cx.state_map
        .insert(tid.id, StateValue::Text(String::from("ab")));
    let binding: State<String> = State::new(tid);
    let mut st = TextEditorState::new();
    st.cursor = 1;
    st.key(&KeyPress::Character('x'), &binding, &mut cx);
    assert_eq!(st.cursor, 2);
    match cx.state_map.get(&tid.id) {
        Some(StateValue::Text(s)) => assert_eq!(s, "axb"),
        _ => panic!("text cell lost"),
    }
    assert!(cx.dirty);
    st.key(&KeyPress::Backspace, &binding, &mut cx);
    assert_eq!(st.cursor, 1);
    match cx.state_map.get(&tid.id) {
        Some(StateValue::Text(s)) => assert_eq!(s, "ab"),
        _ => panic!("text cell lost"),
    }
    st.key(&KeyPress::End, &binding, &mut cx);
    assert_eq!(st.cursor, 2);
    st.key(&KeyPress::Home, &binding, &mut cx);
    assert_eq!(st.cursor, 0);
    st.key(&KeyPress::Space, &binding, &mut cx);
    match cx.state_map.get(&tid.id) {
        Some(StateValue::Text(s)) => assert_eq!(s, " ab"),
        _ => panic!("text cell lost"),
    }
}

#[test]
fn editor_view_types_when_focused() {
    let mut cx = Context::new();
    let tid = ViewId { id: 70 };
    cx.state_map
        .insert(tid.id, StateValue::Text(String::from("ab")));
    let binding: State<String> = State::new(tid);
    let ed = text_editor(binding);
    let eid = ViewId { id: 5 };
    let mut r = Renderer::new();
    let mut actions: Vec<()> = Vec::new();
    ed.layout(eid, LocalSize { width: 90, height: 36 }, &mut cx, &mut r);
    // a touch inside focuses the editor
    ed.process(&touch_begin(0, 3, 3), eid, &mut cx, &mut actions);
    assert_eq!(cx.focused_id, Some(eid));
    // a key press edits the bound text at the cursor (initially 0)
    let key = Event {
        kind: EventKind::Key(KeyPress::Character('x')),
        position: LocalPoint { x: 0, y: 0 },
    };
    ed.process(&key, eid, &mut cx, &mut actions);
    match cx.state_map.get(&tid.id) {
        Some(StateValue::Text(s)) => assert_eq!(s, "xab"),
        _ => panic!("text cell lost"),
    }
    assert!(cx.dirty);
    // drawing paints the text and, focused, a cursor bar
    ed.draw(eid, &mut cx, &mut r);
    assert!(r
        .commands
        .iter()
        .any(|c| matches!(c, DrawCmd::Text { .. })));
    assert!(r.commands.iter().any(|c| matches!(
        c,
        DrawCmd::FillRect {
            color: Color { r: 255, g: 0, b: 255, a: 255 },
            ..
        }
    )));
}

#[test]
fn tap2_pushes_action() {
    let view = rui::Tap2::new(rectangle(), || 7i32);
    let mut cx = Context::new();
    let mut r = Renderer::new();
    let id = ViewId { id: 1 };
    view.layout(id, LocalSize { width: 50, height: 50 }, &mut cx, &mut r);
    let mut actions: Vec<i32> = Vec::new();
    view.process(&touch_begin(0, 5, 5), id, &mut cx, &mut actions);
    assert!(actions.is_empty());
    view.process(&touch_end(0, 5, 5), id, &mut cx, &mut actions);
    assert_eq!(actions, vec![7]);
}

#[test]
fn action_drag_reports_mouse_button() {
    let view = rui::views::drag::Drag::new(
        rectangle(),
        |off: rui::LocalOffset, _gs: rui::views::drag::GestureState, btn| (off.x, btn),
    );
    let mut cx = Context::new();
    cx.mouse_button = Some(rui::MouseButton::Left);
    let mut r = Renderer::new();
    let id = ViewId { id: 1 };
    view.layout(id, LocalSize { width: 50, height: 50 }, &mut cx, &mut r);
    let mut actions: Vec<(i64, Option<rui::MouseButton>)> = Vec::new();
    view.process(&touch_begin(0, 5, 5), id, &mut cx, &mut actions);
    let mv = Event { kind: EventKind::TouchMove { id: 0 }, position: LocalPoint { x: 9, y: 5 } };
    view.process(&mv, id, &mut cx, &mut actions);
    assert_eq!(actions, vec![(4, Some(rui::MouseButton::Left))]);
}

#[test]
fn env_view_installs_and_keeps_value() {
    let view = rui::views::env::env(|| 5i32, |_v: i32| EmptyView {});
    let mut cx = Context::new();
    let mut r = Renderer::new();
    let id = ViewId { id: 1 };
    view.layout(id, LocalSize { width: 10, height: 10 }, &mut cx, &mut r);
    match cx.env_map.get(&1) {
        Some(StateValue::Int(v)) => assert_eq!(*v, 5),
        _ => panic!("environment entry missing"),
    }
    // the entry is session-scoped: a later traversal sees a later write
    cx.env_map.insert(1, StateValue::Int(9));
    view.layout(id, LocalSize { width: 10, height: 10 }, &mut cx, &mut r);
    match cx.env_map.get(&1) {
        Some(StateValue::Int(v)) => assert_eq!(*v, 9),
        _ => panic!("environment entry missing"),
    }
}

#[test]
fn size_view_fixes_child_size() {
    let view = rui::Size::new(rectangle(), LocalSize { width: 30, height: 40 });
    let mut cx = Context::new();
    let mut r = Renderer::new();
    let id = ViewId { id: 1 };
    let used = view.layout(id, LocalSize { width: 100, height: 100 }, &mut cx, &mut r);
    assert_eq!(used, LocalSize { width: 30, height: 40 });
    assert_eq!(
        cx.layout_box(id.child(0)).rect.size,
        LocalSize { width: 30, height: 40 }
    );
}

#[test]
fn background_draws_behind_child() {
    let view = text("hi").background(rectangle().color(Color { r: 1, g: 2, b: 3, a: 255 }));
    let mut cx = Context::new();
    let mut r = Renderer::new();
    let id = ViewId { id: 1 };
    view.layout(id, LocalSize { width: 100, height: 100 }, &mut cx, &mut r);
    view.draw(id, &mut cx, &mut r);
    // the background rectangle is recorded before the label's text
    let rect_at = r
        .commands
        .iter()
        .position(|c| matches!(c, DrawCmd::FillRect { .. }))
        .unwrap();
    let text_at = r
        .commands
        .iter()
        .position(|c| matches!(c, DrawCmd::Text { .. }))
        .unwrap();
    assert!(rect_at < text_at);
    // and it was laid out to the label's measured size
    assert_eq!(
        cx.layout_box(id.child(1)).rect.size,
        LocalSize { width: 18, height: 18 }
    );
}

#[test]
fn run_frame_drives_layout_draw_and_gc() {
    // a stateful node over a label: the frame lays out, draws, marks and
    // sweeps; an orphaned cell from an earlier tree shape is collected
    let view = state(|| 0i32, |_s: State<i32>| text("hi"));
    let mut host_cx = Context::new();
    let root = host_cx.root_id;
    // a leftover cell nothing in the current tree reaches
    host_cx
        .state_map
        .insert(ViewId { id: 777 }.id, StateValue::Int(3));
    let frame = rui::view::run_frame(&view, LocalSize { width: 200, height: 100 }, &mut host_cx);
    assert!(frame
        .commands
        .iter()
        .any(|c| matches!(c, DrawCmd::Text { .. })));
    // the stateful node's cell survived; the orphan did not
    assert!(host_cx.state_map.contains_key(&root.id));
    assert!(!host_cx.state_map.contains_key(&777));
    // the label registered its rectangle under its identity this frame
    assert_eq!(
        host_cx.layout_box(root.child(0)).rect.size,
        LocalSize { width: 18, height: 18 }
    );
}

#[test]
fn tap_released_outside_does_not_fire() {
    let fired = Rc::new(Cell::new(0));
    let f2 = fired.clone();
    let view = Tap::new(rectangle(), move || f2.set(f2.get() + 1));
    let mut cx = Context::new();
    let mut r = Renderer::new();
    let id = ViewId { id: 1 };
    view.layout(id, LocalSize { width: 20, height: 20 }, &mut cx, &mut r);
    let mut actions: Vec<()> = Vec::new();
    view.process(&touch_begin(0, 5, 5), id, &mut cx, &mut actions);
    assert_eq!(cx.touches[0], id);
    // the pointer leaves the view before it is released: the tap is
    // cancelled, but the capture slot is still freed
    view.process(&touch_end(0, 50, 50), id, &mut cx, &mut actions);
    assert_eq!(fired.get(), 0);
    assert_eq!(cx.touches[0], ViewId::default());
}

#[test]
fn dangling_capture_is_recaptured_by_next_begin() {
    let view = Tap::new(rectangle(), || {});
    let mut cx = Context::new();
    let mut r = Renderer::new();
    let id = ViewId { id: 1 };
    view.layout(id, LocalSize { width: 100, height: 100 }, &mut cx, &mut r);
    let mut actions: Vec<()> = Vec::new();
    // a pointer that never reports its end leaves the slot captured...
    view.process(&touch_begin(0, 5, 5), id, &mut cx, &mut actions);
    assert_eq!(cx.touches[0], id);
    assert_eq!(cx.starts[0], LocalPoint { x: 5, y: 5 });
    // ...and the next begin on the same slot simply re-captures it
    view.process(&touch_begin(0, 30, 40), id, &mut cx, &mut actions);
    assert_eq!(cx.touches[0], id);
    assert_eq!(cx.starts[0], LocalPoint { x: 30, y: 40 });
}

#[test]
fn editor_touch_outside_does_not_focus() {
    let mut cx = Context::new();
    let tid = ViewId { id: 70 };
    cx.state_map
        .insert(tid.id, StateValue::Text(String::from("ab")));
    let binding: State<String> = State::new(tid);
    let ed = text_editor(binding);
    let eid = ViewId { id: 5 };
    let mut r = Renderer::new();
    let mut actions: Vec<()> = Vec::new();
    ed.layout(eid, LocalSize { width: 30, height: 20 }, &mut cx, &mut r);
    ed.process(&touch_begin(0, 90, 90), eid, &mut cx, &mut actions);
    assert_eq!(cx.focused_id, None);
    // and unfocused key presses leave the text alone
    let key = Event {
        kind: EventKind::Key(KeyPress::Character('x')),
        position: LocalPoint { x: 0, y: 0 },
    };
    ed.process(&key, eid, &mut cx, &mut actions);
    match cx.state_map.get(&tid.id) {
        Some(StateValue::Text(s)) => assert_eq!(s, "ab"),
        _ => panic!("text cell lost"),
    }
}

#[test]
fn action_tap_released_outside_does_not_fire() {
    let view = rui::views::tap::Tap::new(rectangle(), || 7i32);
    let mut cx = Context::new();
    let mut r = Renderer::new();
    let id = ViewId { id: 1 };
    ViewCore::layout(&view, id, LocalSize { width: 20, height: 20 }, &mut cx, &mut r);
    let mut actions: Vec<i32> = Vec::new();
    view.process(&touch_begin(0, 5, 5), id, &mut cx, &mut actions);
    assert_eq!(cx.touches[0], id);
    // released outside: the tap is cancelled, no action, slot freed
    view.process(&touch_end(0, 50, 50), id, &mut cx, &mut actions);
    assert!(actions.is_empty());
    assert_eq!(cx.touches[0], ViewId::default());
    // a fresh press released inside does fire
    view.process(&touch_begin(0, 5, 5), id, &mut cx, &mut actions);
    view.process(&touch_end(0, 6, 6), id, &mut cx, &mut actions);
    assert_eq!(actions, vec![7]);
}
