//! Building the component tree: dense handles, parent validation, and the
//! name registry.

use rhubarb::control::button::{ButtonClick, ButtonControl};
use rhubarb::control::slider::{SliderChange, SliderControl};
use rhubarb::control::Control;
use rhubarb::error::RhubarbError;
use rhubarb::layout::{Component, Layout};

#[derive(Clone, Copy, Debug)]
struct UiState;

type ClickHandler = fn(ButtonClick, UiState) -> Result<UiState, RhubarbError>;
type ChangeHandler = fn(SliderChange, UiState) -> Result<UiState, RhubarbError>;

type TestLayout = Layout<ClickHandler, ChangeHandler>;

#[test]
fn handles_are_dense_and_stable() {
    let mut layout: TestLayout = Layout::new();
    let root = layout.add_panel("main", None).unwrap();
    assert_eq!(root, 0);
    let button = layout
        .add_control_to_panel("next", Control::Button(ButtonControl::new("Next")), root)
        .unwrap();
    assert_eq!(button, 1);
    let slider = layout
        .add_control_to_panel(
            "years",
            Control::Slider(SliderControl::new(vec!["a".to_owned(), "b".to_owned()], 1)),
            root,
        )
        .unwrap();
    assert_eq!(slider, 2);
    assert_eq!(layout.len(), 3);

    // each handle yields exactly the component inserted at it
    match layout.get(button) {
        Some(Component::Control(Control::Button(b))) => assert_eq!(b.text().as_str(), "Next"),
        other => panic!("unexpected component at button handle: {:?}", other),
    }
    match layout.get(slider) {
        Some(Component::Control(Control::Slider(s))) => {
            assert_eq!(s.values(), &vec!["a".to_owned(), "b".to_owned()]);
            assert_eq!(s.curr_value, 1);
        }
        other => panic!("unexpected component at slider handle: {:?}", other),
    }
    match layout.get(root) {
        Some(Component::Panel(p)) => assert_eq!(p.children(), &vec![button, slider]),
        other => panic!("unexpected component at root handle: {:?}", other),
    }
    assert_eq!(layout.roots(), &vec![root]);
    assert!(layout.get(3).is_none());
}

#[test]
fn add_control_to_non_panel_fails_and_changes_nothing() {
    let mut layout: TestLayout = Layout::new();
    let root = layout.add_panel("main", None).unwrap();
    let button = layout
        .add_control_to_panel("next", Control::Button(ButtonControl::new("Next")), root)
        .unwrap();
    let before = layout.len();

    let err = layout
        .add_control_to_panel("extra", Control::Button(ButtonControl::new("Extra")), button)
        .unwrap_err();
    match err {
        RhubarbError::InvalidLayout(msg) => {
            assert_eq!(msg, "unable to add component extra to non-panel with index 1");
        }
        other => panic!("unexpected error: {:?}", other),
    }
    // the arena length is unchanged and nothing was registered
    assert_eq!(layout.len(), before);
    assert_eq!(layout.get_component_index("extra"), None);
}

#[test]
fn add_control_at_missing_parent_fails_and_changes_nothing() {
    let mut layout: TestLayout = Layout::new();
    let before = layout.len();
    let err = layout
        .add_control_to_panel("lost", Control::Button(ButtonControl::new("Lost")), 5)
        .unwrap_err();
    assert!(matches!(err, RhubarbError::InvalidLayout(_)));
    assert_eq!(layout.len(), before);
}

#[test]
fn add_panel_to_non_panel_fails_and_changes_nothing() {
    let mut layout: TestLayout = Layout::new();
    let root = layout.add_panel("main", None).unwrap();
    let button = layout
        .add_control_to_panel("next", Control::Button(ButtonControl::new("Next")), root)
        .unwrap();
    let before = layout.len();
    let err = layout.add_panel("sub", Some(button)).unwrap_err();
    assert!(matches!(err, RhubarbError::InvalidLayout(_)));
    assert_eq!(layout.len(), before);
    assert_eq!(layout.get_component_index("sub"), None);
}

#[test]
fn nested_panels_attach_to_parent() {
    let mut layout: TestLayout = Layout::new();
    let root = layout.add_panel("main", None).unwrap();
    let sub = layout.add_panel("sub", Some(root)).unwrap();
    assert_eq!(sub, 1);
    match layout.get(root) {
        Some(Component::Panel(p)) => assert_eq!(p.children(), &vec![sub]),
        other => panic!("unexpected component at root handle: {:?}", other),
    }
    match layout.get(sub) {
        Some(Component::Panel(p)) => assert!(p.children().is_empty()),
        other => panic!("unexpected component at sub handle: {:?}", other),
    }
}

#[test]
fn registry_lookup_finds_registered_names() {
    let mut layout: TestLayout = Layout::new();
    let root = layout.add_panel("main", None).unwrap();
    let button = layout
        .add_control_to_panel("next", Control::Button(ButtonControl::new("Next")), root)
        .unwrap();
    assert_eq!(layout.get_component_index("main"), Some(root));
    assert_eq!(layout.get_component_index("next"), Some(button));
    assert_eq!(layout.get_component_index("missing"), None);
}

#[test]
fn first_registration_of_a_name_wins() {
    let mut layout: TestLayout = Layout::new();
    let first = layout.add_panel("twin", None).unwrap();
    let second = layout.add_panel("twin", None).unwrap();
    assert_ne!(first, second);
    assert_eq!(layout.get_component_index("twin"), Some(first));
}
