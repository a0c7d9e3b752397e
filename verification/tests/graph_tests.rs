//! The float-free plotting primitives and the default page resources.

use rhubarb::graph::{Axis, AxisKind, CountExistFields, Margin, Mode, Modes, Symbol};
use rhubarb::resource::{default_scripts, default_styles};

#[test]
fn axis_kind_wire_names() {
    assert_eq!(AxisKind::Linear.to_wire(), "\"linear\"");
    assert_eq!(AxisKind::Log.to_wire(), "\"log\"");
}

#[test]
fn axis_builds_and_encodes_present_fields_only() {
    assert_eq!(Axis::new().to_wire().as_str(), "{}");
    assert_eq!(Axis::new().title("Value 1").to_wire().as_str(), "{\"title\":\"Value 1\"}");
    assert_eq!(Axis::new().kind(AxisKind::Log).to_wire().as_str(), "{\"type\":\"log\"}");
    assert_eq!(
        Axis::new().title("Value 1").kind(AxisKind::Log).to_wire().as_str(),
        "{\"title\":\"Value 1\",\"type\":\"log\"}"
    );
}

#[test]
fn axis_setters_match_builders() {
    let mut axis = Axis::new();
    axis.set_title("GDP");
    axis.set_kind(AxisKind::Linear);
    assert_eq!(axis.to_wire().as_str(), "{\"title\":\"GDP\",\"type\":\"linear\"}");
}

#[test]
fn axis_counts_existing_fields() {
    assert_eq!(Axis::new().count_existing_fields(), 0);
    assert_eq!(Axis::new().title("t").count_existing_fields(), 1);
    assert_eq!(Axis::new().title("t").kind(AxisKind::Log).count_existing_fields(), 2);
}

#[test]
fn modes_join_with_plus() {
    assert_eq!(Mode::Lines.as_string().as_str(), "lines");
    assert_eq!(Mode::Markers.as_string().as_str(), "markers");
    assert_eq!(Mode::Text.as_string().as_str(), "text");
    assert_eq!(Modes::new(vec![]).as_string().as_str(), "");
    assert_eq!(Modes::new(vec![Mode::Markers]).as_string().as_str(), "markers");
    assert_eq!(
        Modes::new(vec![Mode::Lines, Mode::Markers, Mode::Text]).as_string().as_str(),
        "lines+markers+text"
    );
}

#[test]
fn margins_build_and_encode() {
    let m = Margin::new(1, 2, 3, 4);
    assert_eq!((m.l, m.r, m.t, m.b), (1, 2, 3, 4));
    assert_eq!(m.to_wire().as_str(), "{\"l\":1,\"r\":2,\"t\":3,\"b\":4}");
    let hv = Margin::from_hv(10, 40);
    assert_eq!(hv, Margin::new(10, 10, 40, 40));
    assert_eq!(hv.to_wire().as_str(), "{\"l\":10,\"r\":10,\"t\":40,\"b\":40}");
}

#[test]
fn symbols_encode_their_shape_names() {
    assert_eq!(Symbol::Circle.to_wire(), "\"circle\"");
    assert_eq!(Symbol::CircleOpen.to_wire(), "\"circle-open\"");
    assert_eq!(Symbol::Square.to_wire(), "\"square\"");
    assert_eq!(Symbol::SquareOpen.to_wire(), "\"square-open\"");
    assert_eq!(Symbol::X.to_wire(), "\"x\"");
    assert_eq!(Symbol::XOpen.to_wire(), "\"x-open\"");
}

#[test]
fn default_resources() {
    let scripts = default_scripts();
    assert_eq!(scripts.len(), 2);
    assert_eq!(scripts[0].url.as_str(), "https://cdn.plot.ly/plotly-1.38.1.min.js");
    assert_eq!(scripts[1].url.as_str(), "app_bundle/bundle.js");
    assert!(default_styles().is_empty());
}
