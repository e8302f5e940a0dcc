use diagrammer::components::{ArrowHead, Line, Rectangle};
use diagrammer::geometry::{Length, Point, Rect, Unit};
use diagrammer::render::{build_path, XmlElement, Node, RenderState, Renderable};
use diagrammer::Error;

fn attr<'a>(e: &'a XmlElement, name: &str) -> Option<&'a str> {
    e.attributes.iter().find(|a| a.name == name).map(|a| a.value.as_str())
}

fn three_point_line() -> Line {
    Line {
        points: vec![Point::new(10, 10), Point::new(50, 20), Point::new(20, 30)],
        width: Length(1, Unit::Raw),
        start_arrow: Some(ArrowHead::Solid),
        end_arrow: Some(ArrowHead::Solid),
    }
}

/// A sink that refuses every append after the first `accept` ones.
struct RefusingSink {
    accept: usize,
    nodes: Vec<XmlElement>,
}

impl Node for RefusingSink {
    // Only proofs read this; compiled code never calls it.
    fn nodes(&self) -> vstd::seq::Seq<XmlElement> {
        unreachable!()
    }

    fn append(&mut self, node: XmlElement) -> diagrammer::Result<()> {
        if self.nodes.len() < self.accept {
            self.nodes.push(node);
            Ok(())
        } else {
            Err(Error::Render { reason: "sink is full".to_string() })
        }
    }
}

#[test]
fn generate_id_counts_across_prefixes() {
    let mut state = RenderState::default();
    assert_eq!(state.generate_id(""), "0");
    assert_eq!(state.generate_id("arrow"), "arrow-1");
    assert_eq!(state.generate_id(""), "2");
    assert_eq!(state.generate_id("g"), "g-3");
}

#[test]
fn generate_id_independent_states() {
    let mut a = RenderState::default();
    let mut b = RenderState::default();
    assert_eq!(a.generate_id("x"), "x-0");
    assert_eq!(b.generate_id("x"), "x-0");
}

#[test]
fn path_data_of_points() {
    assert_eq!(build_path(&vec![]), "");
    assert_eq!(build_path(&vec![Point::new(3, -4)]), "M 3 -4 ");
    assert_eq!(
        build_path(&three_point_line().points),
        "M 10 10 L 50 20 L 20 30 "
    );
}

#[test]
fn empty_line_has_empty_path_data() {
    let line = Line::default();
    let mut root = XmlElement::new("svg");
    let mut state = RenderState::default();
    line.render_to(&mut root, &mut state).unwrap();
    assert_eq!(root.children.len(), 1);
    let path = &root.children[0];
    assert_eq!(path.name, "path");
    assert_eq!(attr(path, "d"), Some(""));
    assert_eq!(attr(path, "marker-start"), None);
    assert_eq!(attr(path, "marker-end"), None);
}

#[test]
fn single_point_line_has_move_only() {
    let line = Line { points: vec![Point::new(7, 8)], ..Line::default() };
    let mut root = XmlElement::new("svg");
    let mut state = RenderState::default();
    line.render_to(&mut root, &mut state).unwrap();
    assert_eq!(attr(&root.children[0], "d"), Some("M 7 8 "));
}

#[test]
fn line_arrows_get_distinct_ids() {
    let line = three_point_line();
    let mut root = XmlElement::new("svg");
    let mut state = RenderState::default();
    line.render_to(&mut root, &mut state).unwrap();
    assert_eq!(root.children.len(), 3);
    let start = &root.children[0];
    let end = &root.children[1];
    let path = &root.children[2];
    assert_eq!(start.name, "marker");
    assert_eq!(end.name, "marker");
    assert_eq!(attr(start, "id"), Some("arrow-0"));
    assert_eq!(attr(end, "id"), Some("arrow-1"));
    assert_eq!(path.name, "path");
    assert_eq!(attr(path, "marker-start"), Some("url(#arrow-0)"));
    assert_eq!(attr(path, "marker-end"), Some("url(#arrow-1)"));
    assert_eq!(attr(path, "fill"), Some("transparent"));
    assert_eq!(attr(path, "stroke"), Some("black"));
    assert_eq!(attr(path, "stroke-width"), Some("1"));
    assert_eq!(attr(path, "d"), Some("M 10 10 L 50 20 L 20 30 "));
    assert_eq!(state.generate_id(""), "2");
}

#[test]
fn end_arrow_only_uses_first_id() {
    let line = Line { end_arrow: Some(ArrowHead::Solid), ..three_point_line() };
    let line = Line { start_arrow: None, ..line };
    let mut root = XmlElement::new("svg");
    let mut state = RenderState::default();
    line.render_to(&mut root, &mut state).unwrap();
    assert_eq!(root.children.len(), 2);
    assert_eq!(attr(&root.children[1], "marker-start"), None);
    assert_eq!(attr(&root.children[1], "marker-end"), Some("url(#arrow-0)"));
}

#[test]
fn arrowhead_marker_shape() {
    let mut root = XmlElement::new("svg");
    let mut state = RenderState::default();
    state.generate_id("");
    let id = ArrowHead::Solid.render_to(&mut root, &mut state).unwrap();
    assert_eq!(id, "arrow-1");
    let marker = &root.children[0];
    assert_eq!(marker.name, "marker");
    let names: Vec<&str> = marker.attributes.iter().map(|a| a.name.as_str()).collect();
    assert_eq!(names, vec!["id", "refX", "refY", "viewBox", "orient"]);
    assert_eq!(attr(marker, "refX"), Some("5"));
    assert_eq!(attr(marker, "refY"), Some("5"));
    assert_eq!(attr(marker, "viewBox"), Some("0 0 10 10"));
    assert_eq!(attr(marker, "orient"), Some("auto-start-reverse"));
    assert_eq!(marker.children.len(), 1);
    assert_eq!(marker.children[0].name, "path");
    assert_eq!(attr(&marker.children[0], "d"), Some("M 0 0 L 10 5 L 0 10 z"));
}

#[test]
fn rectangle_attribute_mapping() {
    let r = Rectangle {
        bounds: Rect::from_size(10, 10, 100, 50),
        color: rgb::RGB8 { r: 0, g: 128, b: 255 },
        width: Length::from(10),
    };
    let mut root = XmlElement::new("svg");
    let mut state = RenderState::default();
    r.render_to(&mut root, &mut state).unwrap();
    assert_eq!(root.children.len(), 1);
    let node = &root.children[0];
    assert_eq!(node.name, "rect");
    assert_eq!(attr(node, "x"), Some("10"));
    assert_eq!(attr(node, "y"), Some("10"));
    assert_eq!(attr(node, "width"), Some("100"));
    assert_eq!(attr(node, "height"), Some("50"));
    assert_eq!(attr(node, "stroke-width"), Some("10"));
    assert_eq!(attr(node, "stroke"), Some("rgb(0, 128, 255)"));
    assert_eq!(attr(node, "fill"), Some("rgb(255,255,255)"));
    assert_eq!(state.generate_id(""), "0");
}

#[test]
fn refused_marker_stops_line() {
    let line = three_point_line();
    let mut sink = RefusingSink { accept: 0, nodes: Vec::new() };
    let mut state = RenderState::default();
    let r = line.render_to(&mut sink, &mut state);
    match r {
        Err(Error::Render { reason }) => assert_eq!(reason, "sink is full"),
        other => panic!("unexpected result: {:?}", other),
    }
    assert!(sink.nodes.is_empty());
    assert_eq!(state.generate_id("arrow"), "arrow-1");
}

#[test]
fn refused_end_marker_keeps_start_marker_only() {
    let line = three_point_line();
    let mut sink = RefusingSink { accept: 1, nodes: Vec::new() };
    let mut state = RenderState::default();
    assert!(matches!(
        line.render_to(&mut sink, &mut state),
        Err(Error::Render { .. })
    ));
    assert_eq!(sink.nodes.len(), 1);
    assert_eq!(sink.nodes[0].name, "marker");
    assert_eq!(state.generate_id(""), "2");
}

#[test]
fn refused_path_keeps_markers() {
    let line = three_point_line();
    let mut sink = RefusingSink { accept: 2, nodes: Vec::new() };
    let mut state = RenderState::default();
    assert!(line.render_to(&mut sink, &mut state).is_err());
    assert_eq!(sink.nodes.len(), 2);
    assert!(sink.nodes.iter().all(|n| n.name == "marker"));
}

#[test]
fn refused_rectangle_appends_nothing() {
    let r = Rectangle {
        bounds: Rect::from_size(0, 0, 1, 1),
        color: rgb::RGB8 { r: 1, g: 2, b: 3 },
        width: Length::default(),
    };
    let mut sink = RefusingSink { accept: 0, nodes: Vec::new() };
    let mut state = RenderState::default();
    assert!(matches!(r.render_to(&mut sink, &mut state), Err(Error::Render { .. })));
    assert!(sink.nodes.is_empty());
}

#[test]
fn element_assign_and_append() {
    let mut e = XmlElement::new("g");
    e.assign("a", "1".to_string());
    e.assign("b", "2".to_string());
    assert_eq!(attr(&e, "a"), Some("1"));
    assert_eq!(e.attributes[1].name, "b");
    assert!(e.append(XmlElement::new("rect")).is_ok());
    assert_eq!(e.children[0].name, "rect");
}
