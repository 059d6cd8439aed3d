use generator_android::context::ComposeReactiveContext;
use generator_android::layout::ComposeFlow;
use generator_android::tree::{render_compose_node_in_flow, DisplayNode};
use generator_android::values::VisibilityCondition;
use generator_android::layout::{ElementProps, MotionProps, NumberText, SizingProps, SpacingProps, StyleProps};
use generator_android::style_values::{ColorToken, FontFamily, ResponsiveEntry, ResponsiveValue, TextAlign, TextWeight};
use generator_android::text_node::{
    compose_em, compose_visible_text_expression, render_compose_text, render_compose_text_node, EmValue, FontSizeRange,
    TextProps, TextSegment, TextTypography,
};

fn style() -> StyleProps {
    StyleProps {
        element: ElementProps { id: None, bind: None, on_click: None, show: None, validation: None },
        bg: None,
        text: None,
        spacing: SpacingProps { p: None, px: None, py: None, pl: None, pr: None, pt: None, pb: None },
        sizing: SizingProps { w: None, w_binding: None, h: None, min_w: None, min_h: None, max_w: None, max_h: None },
        rounded: None,
        border: None,
        border_color: None,
        shadow: None,
        shadow_color: None,
        motion: MotionProps { rotate: None, scale: None, translate_x: None, translate_y: None, gesture: None, transition: None },
        bindings: Vec::new(),
        animation: None,
        center_y: None,
        font: None,
    }
}

fn num(s: &str) -> NumberText {
    NumberText { digits: s.to_string() }
}

fn typography(min: &str, base: &str, viewport: &str, max: &str, line: &str, weight: TextWeight, spacing: &str) -> TextTypography {
    TextTypography {
        font_size: FontSizeRange { min: num(min), preferred_base: num(base), preferred_viewport: num(viewport), max: num(max) },
        line_height: num(line),
        weight,
        letter_spacing_em: spacing.to_string(),
    }
}

fn md() -> TextTypography {
    typography("14", "15", "0.2", "16", "1.5", TextWeight::Semibold, "0")
}

fn props() -> TextProps {
    TextProps {
        style: style(),
        size: None,
        size_binding: None,
        weight: None,
        weight_binding: None,
        letter_spacing: None,
        letter_spacing_binding: None,
        align: None,
        i18n: None,
    }
}

fn context() -> ComposeReactiveContext {
    ComposeReactiveContext {
        signal_paths: Vec::new(),
        action_ids: Vec::new(),
        item_values: Vec::new(),
        item_paths: Vec::new(),
        dynamic_paths: vec![("user.name".to_string(), "state.user.name".to_string())],
        active_item: None,
    }
}

const MD_SIZE: &str = "doweTextSize(viewportWidth, min = 14f, preferredBase = 15f, preferredViewport = 0.2f, max = 16f)";

#[test]
fn plain_text_uses_base_typography_and_regular_weight() {
    let mut out = String::new();
    render_compose_text(false, &props(), "Hello", &[], &md(), None, 2, &mut out, FontFamily::Inter, &context());
    assert_eq!(
        out,
        format!(
            "  Text(\"Hello\", modifier = Modifier, color = Color.Unspecified, fontSize = {MD_SIZE}, lineHeight = doweTextLineHeight({MD_SIZE}, 1.5f), fontFamily = doweFontFamily(DoweFont.Inter), fontWeight = FontWeight.Normal)\n"
        )
    );
}

#[test]
fn title_takes_the_typography_of_its_sizes() {
    let mut p = props();
    p.size = Some(ResponsiveValue {
        entries: vec![ResponsiveEntry {
            breakpoint: "md".to_string(),
            value: typography("20", "22", "0.5", "24", "1.2", TextWeight::Bold, "-0.01"),
        }],
    });
    p.align = Some(ResponsiveValue { entries: vec![ResponsiveEntry { breakpoint: "base".to_string(), value: TextAlign::Center }] });
    let segments = vec![
        TextSegment { literal: "Hi ".to_string(), binding: None },
        TextSegment { literal: String::new(), binding: Some("user.name".to_string()) },
    ];
    let mut out = String::new();
    render_compose_text(true, &p, "Hi {user.name}", &segments, &md(), None, 0, &mut out, FontFamily::Inter, &context());
    let size = format!(
        "doweResponsive(viewportWidth, md = doweTextSize(viewportWidth, min = 20f, preferredBase = 22f, preferredViewport = 0.5f, max = 24f)) ?: {MD_SIZE}"
    );
    assert_eq!(
        out,
        format!(
            "Text(\"Hi \" + state.text(\"state.user.name\"), modifier = Modifier.fillMaxWidth(), color = LocalDoweTitleColor.current, fontSize = {size}, lineHeight = doweTextLineHeight({size}, doweResponsive(viewportWidth, md = 1.2f) ?: 1.5f), fontFamily = doweFontFamily(DoweFont.Inter), fontWeight = doweResponsive(viewportWidth, md = FontWeight.Bold) ?: FontWeight.SemiBold, letterSpacing = doweResponsive(viewportWidth, md = (-0.01f).em) ?: 0f.em, textAlign = doweResponsive(viewportWidth, base = TextAlign.Center) ?: TextAlign.Start)\n"
        )
    );
}

#[test]
fn bound_size_weight_and_spacing_follow_their_signals() {
    let mut p = props();
    p.size_binding = Some("ui.size".to_string());
    p.weight_binding = Some("ui.weight".to_string());
    p.letter_spacing = Some(ResponsiveValue { entries: vec![ResponsiveEntry { breakpoint: "sm".to_string(), value: EmValue("0.05".to_string()) }] });
    p.letter_spacing_binding = Some("ui.spacing".to_string());
    p.style.text = Some(ResponsiveValue {
        entries: vec![ResponsiveEntry { breakpoint: "base".to_string(), value: ColorToken { reference: "DoweDesign.info".to_string() } }],
    });
    let mut out = String::new();
    render_compose_text(false, &p, "x", &[], &md(), None, 0, &mut out, FontFamily::Inter, &context());
    assert!(out.contains("fontSize = doweDynamicTextSize(state.text(\"ui.size\"))"));
    assert!(out.contains("lineHeight = doweTextLineHeight(doweDynamicTextSize(state.text(\"ui.size\")), 1.5f)"));
    assert!(out.contains("fontWeight = doweDynamicTextWeight(state.text(\"ui.weight\"))"));
    assert!(out.contains("letterSpacing = doweDynamicTextSpacing(state.text(\"ui.spacing\"))"));
    assert!(out.contains("?: LocalContentColor.current"));
}

#[test]
fn translated_text_reads_its_resource_and_own_font_wins() {
    let mut p = props();
    p.i18n = Some("home_title".to_string());
    p.style.font = Some(ResponsiveValue { entries: vec![ResponsiveEntry { breakpoint: "base".to_string(), value: FontFamily::Roboto }] });
    let inherited = ResponsiveValue { entries: vec![ResponsiveEntry { breakpoint: "base".to_string(), value: FontFamily::Lora }] };
    let mut out = String::new();
    render_compose_text_node(false, &p, "Home", &[], &md(), Some(&inherited), 0, &mut out, FontFamily::Inter, &context());
    assert!(out.starts_with("Text(stringResource(R.string.home_title), "));
    assert!(out.contains("fontFamily = doweFontFamily(doweResponsive(viewportWidth, base = DoweFont.Roboto) ?: DoweFont.Inter)"));
}

#[test]
fn template_without_bindings_is_the_literal_and_unknown_binding_is_braced() {
    let literal = vec![TextSegment { literal: "plain".to_string(), binding: None }];
    assert_eq!(compose_visible_text_expression("plain \"q\"", None, &literal, &context()), "\"plain \\\"q\\\"\"");
    let unknown = vec![TextSegment { literal: String::new(), binding: Some("missing".to_string()) }];
    assert_eq!(compose_visible_text_expression("{missing}", None, &unknown, &context()), "\"{missing}\"");
}

#[test]
fn em_values_parenthesize_negatives() {
    assert_eq!(compose_em("0.02"), "0.02f.em");
    assert_eq!(compose_em("-0.01"), "(-0.01f).em");
    assert_eq!(compose_em(""), "f.em");
}

#[test]
fn text_and_title_nodes_render_in_a_tree_with_the_inherited_font() {
    let inherited = ResponsiveValue { entries: vec![ResponsiveEntry { breakpoint: "base".to_string(), value: FontFamily::Lora }] };
    for title in [false, true] {
        let node = if title {
            DisplayNode::Title { props: props(), value: "Hi".to_string(), segments: Vec::new(), base: md() }
        } else {
            DisplayNode::Text { props: props(), value: "Hi".to_string(), segments: Vec::new(), base: md() }
        };
        let mut via_tree = String::new();
        render_compose_node_in_flow(&node, 4, &mut via_tree, ComposeFlow::Block, Some(&inherited), FontFamily::Inter, &context());
        let mut direct = String::new();
        render_compose_text_node(title, &props(), "Hi", &[], &md(), Some(&inherited), 4, &mut direct, FontFamily::Inter, &context());
        assert_eq!(via_tree, direct);
        assert!(via_tree.contains("fontFamily = doweFontFamily(doweResponsive(viewportWidth, base = DoweFont.Lora) ?: DoweFont.Inter)"));
    }
}

#[test]
fn hidden_text_sits_inside_its_condition() {
    let mut p = props();
    p.style.element.show = Some(VisibilityCondition::Signal("open".to_string()));
    let node = DisplayNode::Text { props: p.clone(), value: "Hi".to_string(), segments: Vec::new(), base: md() };
    let mut out = String::new();
    render_compose_node_in_flow(&node, 0, &mut out, ComposeFlow::Block, None, FontFamily::Inter, &context());
    let mut body = String::new();
    render_compose_text(false, &p, "Hi", &[], &md(), None, 4, &mut body, FontFamily::Inter, &context());
    assert!(out.starts_with("if ("));
    assert!(out.ends_with(&format!("{{\n{body}}}\n")));
}
