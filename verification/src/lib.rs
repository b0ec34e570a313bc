//! A declarative UI runtime core: views are cheap values rebuilt on every
//! traversal, while long-lived state (data model values, cursors, focus,
//! layout results) survives in a per-session store keyed by a stable,
//! path-derived identity.

pub mod access;
pub mod binding;
pub mod button;
pub mod canvas;
pub mod context;
pub mod geom;
pub mod gestures;
pub mod modifiers;
pub mod renderer;
pub mod shapes;
pub mod size;
pub mod state;
pub mod text;
pub mod text_editor;
pub mod view;
pub mod viewid;
pub mod views;

pub use binding::with;
pub use binding::with_mut;
pub use binding::Binding;
pub use binding::Inner;
pub use binding::Lens;
pub use binding::LensA;
pub use binding::LensB;
pub use binding::LensCompose;
pub use binding::Map3;
pub use binding::MapBinding;
pub use binding::MyLens;
pub use binding::MyState;
pub use binding::Outer;
pub use button::button;
pub use button::Button;
pub use canvas::canvas;
pub use canvas::Canvas;
pub use context::Context;
pub use context::LayoutBox;
pub use context::MouseButton;
pub use context::TOUCH_SLOTS;
pub use geom::LocalOffset;
pub use geom::LocalPoint;
pub use geom::LocalRect;
pub use geom::LocalSize;
pub use gestures::Drag;
pub use gestures::GestureState;
pub use gestures::Tap;
pub use gestures::Tap2;
pub use modifiers::Background;
pub use modifiers::Modifiers;
pub use modifiers::Padding;
pub use modifiers::PaddingParam;
pub use renderer::Color;
pub use renderer::DrawCmd;
pub use renderer::Renderer;
pub use shapes::rectangle;
pub use shapes::Rectangle;
pub use size::Size;
pub use state::clear_state_dirty;
pub use state::is_state_dirty;
pub use state::set_state_dirty;
pub use state::state;
pub use state::State;
pub use state::StateType;
pub use state::StateValue;
pub use state::StateView;
pub use text::text;
pub use text::Text;
pub use text_editor::text_editor;
pub use text_editor::LineMetrics;
pub use text_editor::TextEditor;
pub use text_editor::TextEditorGlyphInfo;
pub use text_editor::TextEditorState;
pub use view::run_frame;
pub use view::CommandInfo;
pub use view::EmptyView;
pub use view::Event;
pub use view::EventKind;
pub use view::KeyPress;
pub use view::View;
pub use view::ViewCore;
pub use view::Wf;
pub use viewid::ViewId;
