//! The wire encoding: exact output shapes, escaping, decimal rendering,
//! error reports, and the round trip from the serialized tree back to the
//! handles the server dispatches with.

use rhubarb::control::button::{ButtonClick, ButtonControl};
use rhubarb::control::slider::{SliderChange, SliderControl};
use rhubarb::control::Control;
use rhubarb::error::RhubarbError;
use rhubarb::event::{Event, EventMessage};
use rhubarb::layout::{Component, IndexedComponent, Layout, Panel};
use rhubarb::update::Update;
use rhubarb::wire::{dec_array, escape_json, json_string, usize_to_dec};
use rhubarb::Chart;

#[derive(Clone, Copy, Debug, PartialEq, Eq)]
struct UiState {
    counter: usize,
}

type ClickHandler = fn(ButtonClick, UiState) -> Result<UiState, RhubarbError>;
type ChangeHandler = fn(SliderChange, UiState) -> Result<UiState, RhubarbError>;

#[test]
fn decimals_render_exactly() {
    assert_eq!(usize_to_dec(0).as_str(), "0");
    assert_eq!(usize_to_dec(7).as_str(), "7");
    assert_eq!(usize_to_dec(42).as_str(), "42");
    assert_eq!(usize_to_dec(1030).as_str(), "1030");
    assert_eq!(usize_to_dec(usize::MAX).as_str(), format!("{}", usize::MAX).as_str());
}

#[test]
fn dec_arrays_render_exactly() {
    assert_eq!(dec_array(&vec![]).as_str(), "[]");
    assert_eq!(dec_array(&vec![5]).as_str(), "[5]");
    assert_eq!(dec_array(&vec![1, 2, 30]).as_str(), "[1,2,30]");
}

#[test]
fn escaping_covers_quotes_backslashes_and_controls() {
    assert_eq!(escape_json("plain").as_str(), "plain");
    assert_eq!(escape_json("say \"hi\"").as_str(), "say \\\"hi\\\"");
    assert_eq!(escape_json("a\\b").as_str(), "a\\\\b");
    assert_eq!(escape_json("line\nbreak").as_str(), "line\\u000abreak");
    assert_eq!(escape_json("tab\there").as_str(), "tab\\u0009here");
    assert_eq!(json_string("x").as_str(), "\"x\"");
    // what the encoder writes, a JSON reader recovers
    let parsed: serde_json::Value =
        serde_json::from_str(json_string("say \"hi\"\n\\done").as_str()).unwrap();
    assert_eq!(parsed.as_str().unwrap(), "say \"hi\"\n\\done");
}

#[test]
fn button_wire_shape() {
    let b: ButtonControl<ClickHandler> = ButtonControl::new("Next");
    assert_eq!(b.to_wire().as_str(), "{\"text\":\"Next\"}");
}

#[test]
fn slider_wire_shape() {
    let s: SliderControl<ChangeHandler> =
        SliderControl::new(vec!["a".to_owned(), "b".to_owned()], 1);
    assert_eq!(s.to_wire().as_str(), "{\"values\":[\"a\",\"b\"],\"curr_value\":1}");
}

#[test]
fn empty_slider_wire_shape() {
    let s: SliderControl<ChangeHandler> = SliderControl::new(vec![], 0);
    assert_eq!(s.to_wire().as_str(), "{\"values\":[],\"curr_value\":0}");
}

#[test]
fn empty_layout_wire_shape() {
    let layout: Layout<ClickHandler, ChangeHandler> = Layout::new();
    assert_eq!(layout.to_wire().as_str(), "{\"component_store\":[],\"children\":[]}");
}

#[test]
fn control_wire_is_tagged_by_kind() {
    let b: Control<ClickHandler, ChangeHandler> = Control::Button(ButtonControl::new("Go"));
    assert_eq!(b.to_wire().as_str(), "{\"type\":\"button\",\"properties\":{\"text\":\"Go\"}}");
    let s: Control<ClickHandler, ChangeHandler> =
        Control::Slider(SliderControl::new(vec!["x".to_owned()], 0));
    assert_eq!(
        s.to_wire().as_str(),
        "{\"type\":\"slider\",\"properties\":{\"values\":[\"x\"],\"curr_value\":0}}"
    );
}

#[test]
fn panel_wire_shape() {
    let mut p = Panel::new();
    assert_eq!(p.to_wire().as_str(), "{\"children\":[]}");
    p.add_child(1);
    p.add_child(2);
    assert_eq!(p.to_wire().as_str(), "{\"children\":[1,2]}");
}

#[test]
fn indexed_component_wire_carries_the_handle() {
    let ic: IndexedComponent<ClickHandler, ChangeHandler> =
        IndexedComponent { idx: 3, component: Component::Control(Control::Button(ButtonControl::new("Go"))) };
    assert_eq!(
        ic.to_wire().as_str(),
        "{\"idx\":3,\"control\":{\"type\":\"button\",\"properties\":{\"text\":\"Go\"}}}"
    );
}

#[test]
fn layout_wire_enumerates_the_arena() {
    let mut layout: Layout<ClickHandler, ChangeHandler> = Layout::new();
    let root = layout.add_panel("main", None).unwrap();
    layout
        .add_control_to_panel("next", Control::Button(ButtonControl::new("Next")), root)
        .unwrap();
    assert_eq!(
        layout.to_wire().as_str(),
        "{\"component_store\":[\
         {\"idx\":0,\"panel\":{\"children\":[1]}},\
         {\"idx\":1,\"control\":{\"type\":\"button\",\"properties\":{\"text\":\"Next\"}}}\
         ],\"children\":[0]}"
    );
}

#[test]
fn update_wire_without_chart() {
    let mut u: Update<UiState, ClickHandler, ChangeHandler> =
        Update::new(None, UiState { counter: 2 });
    u.add_component(1, Component::Control(Control::Button(ButtonControl::new("Go"))))
        .unwrap();
    assert_eq!(
        u.to_wire("{\"counter\":2}").as_str(),
        "{\"components\":[{\"idx\":1,\"control\":{\"type\":\"button\",\"properties\":{\"text\":\"Go\"}}}],\
         \"state\":{\"counter\":2}}"
    );
}

#[test]
fn update_wire_with_chart_puts_the_chart_first() {
    let u: Update<UiState, ClickHandler, ChangeHandler> =
        Update::new(Some(Chart::Scatter("{\"data\":[]}".to_owned())), UiState { counter: 0 });
    assert_eq!(
        u.to_wire("{\"counter\":0}").as_str(),
        "{\"chart\":{\"data\":[]},\"components\":[],\"state\":{\"counter\":0}}"
    );
}

#[test]
fn set_chart_adds_a_chart() {
    let mut u: Update<UiState, ClickHandler, ChangeHandler> =
        Update::new(None, UiState { counter: 0 });
    assert!(u.chart().is_none());
    u.set_chart(Chart::Scatter("{}".to_owned()));
    assert!(u.chart().is_some());
    assert_eq!(
        u.to_wire("null").as_str(),
        "{\"chart\":{},\"components\":[],\"state\":null}"
    );
}

#[test]
fn wire_handles_echo_back_to_dispatch() {
    // the round trip: handles learned from the serialized tree are the very
    // handles the server resolves later events with
    fn select(change: SliderChange, _state: UiState) -> Result<UiState, RhubarbError> {
        Ok(UiState { counter: change.idx })
    }
    let mut layout: Layout<ClickHandler, ChangeHandler> = Layout::new();
    let root = layout.add_panel("main", None).unwrap();
    layout
        .add_control_to_panel("next", Control::Button(ButtonControl::new("Next")), root)
        .unwrap();
    layout
        .add_control_to_panel(
            "years",
            Control::Slider(
                SliderControl::new(vec!["1987".to_owned(), "1997".to_owned()], 0)
                    .with_on_change(select as ChangeHandler),
            ),
            root,
        )
        .unwrap();

    let parsed: serde_json::Value = serde_json::from_str(layout.to_wire().as_str()).unwrap();
    let store = parsed["component_store"].as_array().unwrap();
    assert_eq!(store.len(), layout.len());
    for (position, entry) in store.iter().enumerate() {
        // every entry is tagged with its own arena position
        assert_eq!(entry["idx"].as_u64().unwrap() as usize, position);
    }
    // a client that echoes the slider's tag reaches exactly the slider
    let slider_tag = store
        .iter()
        .find(|e| e.get("control").map_or(false, |c| c["type"] == "slider"))
        .unwrap()["idx"]
        .as_u64()
        .unwrap() as usize;
    let out = layout
        .handle_event(
            EventMessage {
                idx: slider_tag,
                event: Event::SliderChange(SliderChange { idx: 1 }),
            },
            UiState { counter: 0 },
        )
        .unwrap();
    assert_eq!(out.counter, 1);
}

#[test]
fn error_reports_spell_out_each_variant() {
    assert_eq!(
        RhubarbError::ComponentRegistry("years".to_owned()).message().as_str(),
        "Missing component name in component registry: years"
    );
    assert_eq!(
        RhubarbError::InvalidLayout("bad".to_owned()).message().as_str(),
        "Invalid layout: bad"
    );
    assert_eq!(
        RhubarbError::InvalidEvent {
            event: Event::ButtonClick(ButtonClick {}),
            component_type: "panel".to_owned(),
        }
        .message()
        .as_str(),
        "Invalid event 'ButtonClick' for component 'panel'"
    );
    assert_eq!(
        RhubarbError::OutOfRange(12).message().as_str(),
        "Component handle out of range: 12"
    );
    assert_eq!(
        RhubarbError::Serialization("broken body".to_owned()).message().as_str(),
        "Serialization error: broken body"
    );
}
