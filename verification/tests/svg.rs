use swatchmaker::axidraw::Axidraw;
use swatchmaker::decimal::append_i64;
use swatchmaker::drawer::Path;
use swatchmaker::drawer::Point;
use swatchmaker::drawer::SvgGraph;

#[test]
fn decimal_rendering() {
    let mut s = String::new();
    append_i64(&mut s, 0);
    append_i64(&mut s, 7);
    append_i64(&mut s, -10);
    append_i64(&mut s, 12345);
    assert_eq!(s, "07-1012345");
}

#[test]
fn decimal_rendering_matches_std_at_extremes() {
    let mut s = String::new();
    append_i64(&mut s, i64::MIN);
    assert_eq!(s, format!("{}", i64::MIN));
    let mut t = String::new();
    append_i64(&mut t, i64::MAX);
    assert_eq!(t, format!("{}", i64::MAX));
}

#[test]
fn point_text() {
    let p = Point::new(3, -4);
    assert_eq!(p.to_string(), "(3, -4)");
}

#[test]
fn point_translate_shifts_in_place() {
    let mut p = Point::new(30, 20);
    p.translate(0, 10);
    assert_eq!(p.to_string(), "(30, 30)");
}

#[test]
fn translate_round_trip_restores_coordinates() {
    let mut path = Path::new();
    path.add_point(30, 20);
    path.add_point(40, -10);
    path.add_point(0, 5);
    let before = path.to_string();
    path.translate(17, -23);
    path.translate(-17, 23);
    assert_eq!(path.to_string(), before);
}

#[test]
fn empty_iff_no_point_added() {
    let mut path = Path::new();
    assert!(path.is_empty());
    path.add_point(0, 0);
    assert!(!path.is_empty());
    path.add_point(1, 1);
    assert!(!path.is_empty());
}

#[test]
fn empty_path_compiles_to_empty_string() {
    let mut path = Path::new();
    assert_eq!(path.make_svg_path(), "");
}

#[test]
fn svg_path_of_two_points() {
    let mut path = Path::new();
    path.add_point(30, 20);
    path.add_point(40, -10);
    assert_eq!(path.make_svg_path(), "<path d=\"M30 20 L40 -10 \"/>");
}

#[test]
fn path_text_keeps_trailing_comma() {
    let mut path = Path::new();
    path.add_point(30, 20);
    path.add_point(40, -10);
    assert_eq!(path.to_string(), "<(30, 20),(40, -10),>");
}

#[test]
fn empty_path_text() {
    let path = Path::new();
    assert_eq!(path.to_string(), "<>");
}

#[test]
fn path_text_after_translation() {
    let mut path = Path::new();
    path.add_point(30, 20);
    path.add_point(40, -10);
    path.translate(0, 10);
    assert_eq!(path.to_string(), "<(30, 30),(40, 0),>");
}

#[test]
fn compile_structure() {
    let mut path = Path::new();
    path.add_point(30, 20);
    path.add_point(40, -10);
    path.translate(0, 10);
    let mut graph = SvgGraph::new("test_plot", 50, 49);
    graph.add_path(&path);
    let out = graph.compile();
    assert_eq!(out.matches("<title>test_plot</title>").count(), 1);
    assert_eq!(out.matches("viewBox=\"0 0 50 49\"").count(), 1);
    assert_eq!(out.matches("<path d=\"M30 30 L40 0 \"/>").count(), 1);
    let header = out.find("<svg").unwrap();
    let title = out.find("<title>test_plot</title>").unwrap();
    let path_elem = out.find("<path d=\"M30 30 L40 0 \"/>").unwrap();
    assert!(header < title);
    assert!(title < path_elem);
    assert!(path_elem < out.len() - "</svg>".len());
    assert!(out.ends_with("</svg>"));
}

#[test]
fn compile_whole_document() {
    let mut path = Path::new();
    path.add_point(30, 20);
    path.add_point(40, -10);
    path.translate(0, 10);
    let mut graph = SvgGraph::new("test_plot", 50, 49);
    graph.add_path(&path);
    let out = graph.compile();
    assert_eq!(
        out,
        "<svg id=\"Layer_1\" data-name=\"Layer 1\" \
         xmlns=\"http://www.w3.org/2000/svg\" width=\"50\" height=\"49\" \
         viewBox=\"0 0 50 49\"><title>test_plot</title>\
         <path d=\"M30 30 L40 0 \"/></svg>"
    );
}

#[test]
fn copy_on_add_isolates_the_graph() {
    let mut path = Path::new();
    path.add_point(1, 2);
    let mut graph = SvgGraph::new("iso", 10, 10);
    graph.add_path(&path);
    let before = graph.compile();
    path.translate(100, 100);
    path.add_point(9, 9);
    let after = graph.compile();
    assert_eq!(before, after);
}

#[test]
fn compile_twice_is_byte_identical() {
    let mut path = Path::new();
    path.add_point(30, 20);
    path.add_point(40, -10);
    let mut graph = SvgGraph::new("twice", 50, 49);
    graph.add_path(&path);
    let first = graph.compile();
    let second = graph.compile();
    assert_eq!(first, second);
}

#[test]
fn empty_paths_contribute_nothing() {
    let empty = Path::new();
    let mut line = Path::new();
    line.add_point(0, 0);
    line.add_point(1, 1);
    let mut graph = SvgGraph::new("mixed", 2, 2);
    graph.add_path(&empty);
    graph.add_path(&line);
    graph.add_path(&empty);
    let out = graph.compile();
    assert_eq!(out.matches("<path").count(), 1);
    assert_eq!(out.matches("<path d=\"M0 0 L1 1 \"/>").count(), 1);
}

#[test]
fn paths_compile_in_insertion_order() {
    let mut first = Path::new();
    first.add_point(1, 1);
    let mut second = Path::new();
    second.add_point(2, 2);
    let mut graph = SvgGraph::new("order", 3, 3);
    graph.add_path(&first);
    graph.add_path(&second);
    let out = graph.compile();
    let a = out.find("<path d=\"M1 1 \"/>").unwrap();
    let b = out.find("<path d=\"M2 2 \"/>").unwrap();
    assert!(a < b);
}

#[test]
fn cloned_path_renders_identically() {
    let mut path = Path::new();
    path.add_point(5, -6);
    let copy = path.clone();
    assert_eq!(copy.to_string(), path.to_string());
}

#[test]
fn transport_constructs() {
    let _transport = Axidraw::new();
    swatchmaker::axidraw::test();
}
