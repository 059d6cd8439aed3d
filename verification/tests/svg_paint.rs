use generator_android::svg_paint::{compose_literal_color, line_cap_name, line_join_name, SvgLineCap, SvgLineJoin};

#[test]
fn literal_color_is_opaque_upper_case_hex() {
    assert_eq!(compose_literal_color(255, 10, 0), "Color(0xFFFF0A00)");
    assert_eq!(compose_literal_color(0, 0, 0), "Color(0xFF000000)");
    assert_eq!(compose_literal_color(171, 205, 239), "Color(0xFFABCDEF)");
}

#[test]
fn line_caps_and_joins_have_their_names() {
    assert_eq!(line_cap_name(SvgLineCap::Butt), "butt");
    assert_eq!(line_cap_name(SvgLineCap::Square), "square");
    assert_eq!(line_join_name(SvgLineJoin::Round), "round");
    assert_eq!(line_join_name(SvgLineJoin::Bevel), "bevel");
}
