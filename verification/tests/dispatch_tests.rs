//! Event dispatch through controls, components and the layout arena.

use rhubarb::control::button::{ButtonClick, ButtonControl};
use rhubarb::control::slider::{SliderChange, SliderControl};
use rhubarb::control::Control;
use rhubarb::error::RhubarbError;
use rhubarb::event::{Event, EventMessage};
use rhubarb::layout::Layout;

#[derive(Clone, Copy, Debug, PartialEq, Eq)]
struct UiState {
    counter: usize,
}

type ClickHandler = fn(ButtonClick, UiState) -> Result<UiState, RhubarbError>;
type ChangeHandler = fn(SliderChange, UiState) -> Result<UiState, RhubarbError>;

fn increment(_click: ButtonClick, state: UiState) -> Result<UiState, RhubarbError> {
    Ok(UiState { counter: state.counter + 1 })
}

fn select(change: SliderChange, _state: UiState) -> Result<UiState, RhubarbError> {
    Ok(UiState { counter: change.idx })
}

fn sample_layout() -> (Layout<ClickHandler, ChangeHandler>, usize, usize, usize) {
    let mut layout: Layout<ClickHandler, ChangeHandler> = Layout::new();
    let root = layout.add_panel("main", None).unwrap();
    let button = layout
        .add_control_to_panel(
            "next",
            Control::Button(ButtonControl::new("Next").with_on_click(increment as ClickHandler)),
            root,
        )
        .unwrap();
    let slider = layout
        .add_control_to_panel(
            "years",
            Control::Slider(SliderControl::new(
                vec!["1987".to_owned(), "1997".to_owned(), "2007".to_owned()],
                0,
            )),
            root,
        )
        .unwrap();
    (layout, root, button, slider)
}

#[test]
fn button_click_runs_handler() {
    let (layout, _root, button, _slider) = sample_layout();
    let state = UiState { counter: 4 };
    let out = layout
        .handle_event(EventMessage { idx: button, event: Event::ButtonClick(ButtonClick {}) }, state)
        .unwrap();
    assert_eq!(out.counter, 5);
}

#[test]
fn button_without_handler_passes_state_through() {
    let mut layout: Layout<ClickHandler, ChangeHandler> = Layout::new();
    let root = layout.add_panel("main", None).unwrap();
    let button = layout
        .add_control_to_panel("plain", Control::Button(ButtonControl::new("Plain")), root)
        .unwrap();
    let state = UiState { counter: 7 };
    let out = layout
        .handle_event(EventMessage { idx: button, event: Event::ButtonClick(ButtonClick {}) }, state)
        .unwrap();
    assert_eq!(out, state);
}

#[test]
fn slider_without_handler_passes_state_through() {
    let (layout, _root, _button, slider) = sample_layout();
    let state = UiState { counter: 9 };
    let out = layout
        .handle_event(
            EventMessage { idx: slider, event: Event::SliderChange(SliderChange { idx: 2 }) },
            state,
        )
        .unwrap();
    assert_eq!(out, state);
}

#[test]
fn slider_change_runs_handler() {
    let mut layout: Layout<ClickHandler, ChangeHandler> = Layout::new();
    let root = layout.add_panel("main", None).unwrap();
    let slider = layout
        .add_control_to_panel(
            "years",
            Control::Slider(
                SliderControl::new(vec!["a".to_owned(), "b".to_owned()], 0)
                    .with_on_change(select as ChangeHandler),
            ),
            root,
        )
        .unwrap();
    let out = layout
        .handle_event(
            EventMessage { idx: slider, event: Event::SliderChange(SliderChange { idx: 1 }) },
            UiState { counter: 0 },
        )
        .unwrap();
    assert_eq!(out.counter, 1);
}

#[test]
fn slider_change_at_button_is_invalid_event() {
    let (layout, _root, button, _slider) = sample_layout();
    let state = UiState { counter: 3 };
    let err = layout
        .handle_event(
            EventMessage { idx: button, event: Event::SliderChange(SliderChange { idx: 1 }) },
            state,
        )
        .unwrap_err();
    match err {
        RhubarbError::InvalidEvent { event, component_type } => {
            assert_eq!(component_type, "ButtonControl");
            assert!(matches!(event, Event::SliderChange(SliderChange { idx: 1 })));
        }
        other => panic!("unexpected error: {:?}", other),
    }
    // the state the caller kept is untouched
    assert_eq!(state, UiState { counter: 3 });
}

#[test]
fn button_click_at_slider_is_invalid_event() {
    let (layout, _root, _button, slider) = sample_layout();
    let err = layout
        .handle_event(
            EventMessage { idx: slider, event: Event::ButtonClick(ButtonClick {}) },
            UiState { counter: 0 },
        )
        .unwrap_err();
    match err {
        RhubarbError::InvalidEvent { component_type, .. } => {
            assert_eq!(component_type, "SliderControl");
        }
        other => panic!("unexpected error: {:?}", other),
    }
}

#[test]
fn event_at_panel_is_invalid_event() {
    let (layout, root, _button, _slider) = sample_layout();
    let err = layout
        .handle_event(
            EventMessage { idx: root, event: Event::ButtonClick(ButtonClick {}) },
            UiState { counter: 0 },
        )
        .unwrap_err();
    match err {
        RhubarbError::InvalidEvent { component_type, .. } => {
            assert_eq!(component_type, "panel");
        }
        other => panic!("unexpected error: {:?}", other),
    }
}

#[test]
fn out_of_range_handle_is_typed_error() {
    let (layout, _root, _button, _slider) = sample_layout();
    let err = layout
        .handle_event(
            EventMessage { idx: 99, event: Event::ButtonClick(ButtonClick {}) },
            UiState { counter: 0 },
        )
        .unwrap_err();
    match err {
        RhubarbError::OutOfRange(idx) => assert_eq!(idx, 99),
        other => panic!("unexpected error: {:?}", other),
    }
}

#[test]
fn dispatch_just_past_end_is_out_of_range() {
    let (layout, _root, _button, _slider) = sample_layout();
    let len = layout.len();
    let err = layout
        .handle_event(
            EventMessage { idx: len, event: Event::ButtonClick(ButtonClick {}) },
            UiState { counter: 0 },
        )
        .unwrap_err();
    assert!(matches!(err, RhubarbError::OutOfRange(i) if i == len));
}

#[test]
fn handler_error_propagates() {
    fn fail(_click: ButtonClick, _state: UiState) -> Result<UiState, RhubarbError> {
        Err(RhubarbError::ComponentRegistry("boom".to_owned()))
    }
    let mut layout: Layout<ClickHandler, ChangeHandler> = Layout::new();
    let root = layout.add_panel("main", None).unwrap();
    let button = layout
        .add_control_to_panel(
            "failing",
            Control::Button(ButtonControl::new("Fail").with_on_click(fail as ClickHandler)),
            root,
        )
        .unwrap();
    let err = layout
        .handle_event(
            EventMessage { idx: button, event: Event::ButtonClick(ButtonClick {}) },
            UiState { counter: 0 },
        )
        .unwrap_err();
    assert!(matches!(err, RhubarbError::ComponentRegistry(s) if s == "boom"));
}

#[test]
fn event_names() {
    assert_eq!(Event::ButtonClick(ButtonClick {}).name(), "ButtonClick");
    assert_eq!(Event::SliderChange(SliderChange { idx: 0 }).name(), "SliderChange");
}
