use svg2tikz::{
    attributes_to_tikz, sections_to_tikz, draw_from_commands, find_path_data, first_path_data, Attribute,
    CommandKind, Coord, PathSection, Point, SvgCommand, SvgNode, TranslateError,
};

fn c(v: i64) -> Coord {
    Coord::from_int(v)
}

fn cmd(kind: CommandKind, absolute: bool, params: &[i64]) -> SvgCommand {
    SvgCommand { kind, absolute, params: params.iter().map(|v| c(*v)).collect() }
}

const HEADER: &str = "\\draw[fill,even odd rule,line width=1] ";

#[test]
fn point_renders_four_fraction_digits() {
    let p = Point::new(Coord::new(true, 12, 5), c(3));
    assert_eq!(p.to_string(), "(-12.0005, 3.0000)");
    let q = Point::new(Coord::new(false, 0, 9999), Coord::new(true, 0, 0));
    assert_eq!(q.to_string(), "(0.9999, -0.0000)");
    let r = Point::new(Coord::new(false, 1234567, 120), c(-40));
    assert_eq!(r.to_string(), "(1234567.0120, -40.0000)");
}

#[test]
fn point_renders_largest_whole_part() {
    let p = Point::new(Coord::new(false, u128::MAX, 1), Coord::new(true, u128::MAX, 0));
    let max = u128::MAX.to_string();
    assert_eq!(p.to_string(), format!("({}.0001, -{}.0000)", max, max));
}

#[test]
fn from_int_extremes() {
    assert_eq!(Point::new(c(i64::MIN), c(i64::MAX)).to_string(),
        "(-9223372036854775808.0000, 9223372036854775807.0000)");
}

#[test]
fn attribute_texts() {
    assert_eq!(Attribute::setting("fill").to_string(), "fill");
    assert_eq!(Attribute::param("line width", "1").to_string(), "line width=1");
}

#[test]
fn attribute_list_keeps_order_and_bare_commas() {
    let attrs = vec![
        Attribute::setting("b"),
        Attribute::param("a", "2"),
        Attribute::setting("b"),
    ];
    assert_eq!(attributes_to_tikz(&attrs), "b,a=2,b");
    assert_eq!(attributes_to_tikz(&attrs[..1]), "b");
    assert_eq!(attributes_to_tikz(&[]), "");
}

#[test]
fn section_texts() {
    let p = Point::new(c(1), c(2));
    assert_eq!(PathSection::Move(p).to_string(), "(1.0000, 2.0000)");
    assert_eq!(PathSection::Line(p).to_string(), "--(1.0000, 2.0000)");
    assert_eq!(PathSection::Cycle.to_string(), "--cycle");
}

#[test]
fn section_list_keeps_order_and_duplicates() {
    let cmds = vec![
        cmd(CommandKind::Move, true, &[5, 5]),
        cmd(CommandKind::Line, true, &[1, 1]),
        cmd(CommandKind::Line, true, &[1, 1]),
        cmd(CommandKind::Move, true, &[0, 0]),
    ];
    let draw = draw_from_commands(&cmds).unwrap();
    assert_eq!(
        draw.to_string(),
        format!(
            "{}(5.0000, 5.0000) --(1.0000, 1.0000) --(1.0000, 1.0000) (0.0000, 0.0000) ;",
            HEADER
        )
    );
}

#[test]
fn rendering_twice_gives_same_text() {
    let cmds = vec![cmd(CommandKind::Move, true, &[3, 4]), cmd(CommandKind::Close, true, &[])];
    let draw = draw_from_commands(&cmds).unwrap();
    let first = draw.to_string();
    let second = draw.to_string();
    assert_eq!(first, second);
    assert_eq!(first, format!("{}(3.0000, 4.0000) --cycle ;", HEADER));
}

#[test]
fn move_line_close_path() {
    let cmds = vec![
        cmd(CommandKind::Move, true, &[0, 0]),
        cmd(CommandKind::Line, true, &[10, 10]),
        cmd(CommandKind::Close, true, &[]),
    ];
    let draw = draw_from_commands(&cmds).unwrap();
    assert_eq!(
        draw.to_string(),
        format!("{}(0.0000, 0.0000) --(10.0000, 10.0000) --cycle ;", HEADER)
    );
}

#[test]
fn cubic_curve_keeps_control_point_order() {
    let s = PathSection::from_svg(&cmd(CommandKind::CubicCurve, true, &[1, 2, 3, 4, 5, 6])).unwrap();
    assert_eq!(
        s.to_string(),
        ".. controls (1.0000, 2.0000) and (3.0000, 4.0000) .. (5.0000, 6.0000)"
    );
}

#[test]
fn extra_parameters_are_not_read() {
    let s = PathSection::from_svg(&cmd(CommandKind::Line, true, &[7, 8, 9, 10])).unwrap();
    assert_eq!(s, PathSection::Line(Point::new(c(7), c(8))));
}

#[test]
fn document_without_path() {
    assert_eq!(find_path_data("<svg><rect width=\"3\"/></svg>"), Ok(None));
    let draw = draw_from_commands(&vec![]).unwrap();
    assert_eq!(draw.to_string(), "\\draw[fill,even odd rule,line width=1]  ;");
}

#[test]
fn relative_command_is_unsupported() {
    let rel = cmd(CommandKind::Line, false, &[1, 1]);
    let cmds = vec![cmd(CommandKind::Move, true, &[0, 0]), rel.clone()];
    assert_eq!(draw_from_commands(&cmds), Err(TranslateError::UnsupportedCommand(rel)));
}

#[test]
fn first_unsupported_command_is_reported() {
    let arc = cmd(CommandKind::EllipticalArc, true, &[1, 1, 0, 0, 1, 5, 5]);
    let horiz = cmd(CommandKind::HorizontalLine, true, &[4]);
    let cmds = vec![arc.clone(), horiz];
    assert_eq!(draw_from_commands(&cmds), Err(TranslateError::UnsupportedCommand(arc)));
}

#[test]
fn unsupported_shapes_and_short_parameter_lists() {
    for c0 in [
        cmd(CommandKind::QuadraticCurve, true, &[1, 2, 3, 4]),
        cmd(CommandKind::SmoothCubicCurve, true, &[1, 2, 3, 4]),
        cmd(CommandKind::VerticalLine, true, &[1]),
        cmd(CommandKind::Move, true, &[1]),
        cmd(CommandKind::CubicCurve, true, &[1, 2, 3, 4, 5]),
        cmd(CommandKind::CubicCurve, false, &[1, 2, 3, 4, 5, 6]),
    ] {
        assert_eq!(PathSection::from_svg(&c0), Err(TranslateError::UnsupportedCommand(c0.clone())));
    }
}

#[test]
fn close_is_a_cycle_whatever_its_position() {
    assert_eq!(PathSection::from_svg(&cmd(CommandKind::Close, false, &[])), Ok(PathSection::Cycle));
}

#[test]
fn only_first_path_is_taken() {
    let doc = "<svg><g><path d=\"M1,1 L2,2\"/></g><path d=\"M9,9\"/></svg>";
    assert_eq!(find_path_data(doc), Ok(Some("M1,1 L2,2".to_string())));
}

#[test]
fn path_without_data_fails() {
    let doc = "<svg><path fill=\"red\"/><path d=\"M9,9\"/></svg>";
    assert_eq!(find_path_data(doc), Err(TranslateError::MissingPathData));
}

#[test]
fn first_path_data_on_nodes() {
    let attrs = |v: &[(&str, &str)]| v.iter().map(|(k, x)| (k.to_string(), x.to_string())).collect();
    let nodes = vec![
        SvgNode::Other,
        SvgNode::Tag("rect".to_string(), attrs(&[("d", "M5,5")])),
        SvgNode::Tag("path".to_string(), attrs(&[("fill", "none"), ("d", "M1,2")])),
        SvgNode::Tag("path".to_string(), attrs(&[("d", "M3,4")])),
    ];
    assert_eq!(first_path_data(&nodes), Ok(Some("M1,2".to_string())));
    assert_eq!(first_path_data(&nodes[..2].to_vec()), Ok(None));
    assert_eq!(first_path_data(&nodes[3..].to_vec()), Ok(Some("M3,4".to_string())));
}

#[test]
fn malformed_markup_before_path_fails() {
    let doc = "<svg><g =\"1\"><path d=\"M1,1\"/></svg>";
    assert_eq!(find_path_data(doc), Err(TranslateError::DocumentParseFailure));
    assert_eq!(find_path_data("<svg></g extra><path d=\"M1,1\"/>"),
        Err(TranslateError::DocumentParseFailure));
}

#[test]
fn malformed_markup_after_path_is_not_read() {
    let doc = "<svg><path d=\"M1,1\"/><g =\"1\"></svg>";
    assert_eq!(find_path_data(doc), Ok(Some("M1,1".to_string())));
}

#[test]
fn malformed_markup_in_document_without_path_fails() {
    assert_eq!(find_path_data("<svg><g =\"1\"></svg>"), Err(TranslateError::DocumentParseFailure));
}

#[test]
fn scan_error_node_before_path_fails() {
    let path = SvgNode::Tag("path".to_string(), vec![("d".to_string(), "M1,2".to_string())]);
    let nodes = vec![SvgNode::Other, SvgNode::Error, path.clone()];
    assert_eq!(first_path_data(&nodes), Err(TranslateError::DocumentParseFailure));
    let nodes = vec![path, SvgNode::Error];
    assert_eq!(first_path_data(&nodes), Ok(Some("M1,2".to_string())));
    let nodes = vec![SvgNode::Tag("path".to_string(), vec![]), SvgNode::Error];
    assert_eq!(first_path_data(&nodes), Err(TranslateError::MissingPathData));
}

#[test]
fn section_list_text() {
    let p = Point::new(c(1), c(-2));
    let list = [PathSection::Move(p), PathSection::Cycle, PathSection::Line(p)];
    assert_eq!(sections_to_tikz(&list), "(1.0000, -2.0000) --cycle --(1.0000, -2.0000)");
    assert_eq!(sections_to_tikz(&list[..1]), "(1.0000, -2.0000)");
    assert_eq!(sections_to_tikz(&[]), "");
}
