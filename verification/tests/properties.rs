use generator_android::context::ComposeReactiveContext;
use generator_android::tree::{render_compose_display_node, DisplayNode};
use generator_android::layout::{MotionProps, 
    modifier_for_style, modifier_for_style_with_base, ComposeFlow, ElementProps, SizingProps, SpacingProps, StyleProps,
};
use generator_android::navigation::compose_component_action;
use generator_android::style_values::{ColorToken, FontFamily, ResponsiveEntry, ResponsiveValue, RoundedSize, ScaleValue};
use generator_android::text::{compose_string_literal, escape_android_xml, escape_kotlin};

fn responsive<T>(value: T) -> ResponsiveValue<T> {
    ResponsiveValue { entries: vec![ResponsiveEntry { breakpoint: "base".to_string(), value }] }
}

fn styled() -> StyleProps {
    StyleProps {
        element: ElementProps { id: Some("intro".to_string()), bind: None, on_click: None, show: None, validation: None },
        bg: Some(responsive(ColorToken { reference: "DoweDesign.surface".to_string() })),
        text: None,
        spacing: SpacingProps {
            p: Some(responsive(ScaleValue { native_units: 8 })),
            px: None,
            py: None,
            pl: None,
            pr: None,
            pt: None,
            pb: None,
        },
        sizing: SizingProps { w: None, w_binding: None, h: None, min_w: None, min_h: None, max_w: None, max_h: None },
        rounded: Some(responsive(RoundedSize::Md)),
        border: None,
        border_color: None,
        shadow: None,
        shadow_color: None,
        motion: no_motion(),
        bindings: Vec::new(),
        animation: None,
        center_y: None,
        font: None,
    }
}

fn empty_context() -> ComposeReactiveContext {
    ComposeReactiveContext {
        signal_paths: Vec::new(),
        action_ids: Vec::new(),
        item_values: Vec::new(),
        item_paths: Vec::new(),
        dynamic_paths: Vec::new(),
        active_item: None,
    }
}

#[test]
fn escaped_kotlin_text_stays_on_one_line() {
    let escaped = escape_kotlin("line one\nline two\r\n\"quoted\"");
    assert!(!escaped.contains('\n'));
    assert!(!escaped.contains('\r'));
    let literal = compose_string_literal("a\"b\\\"c");
    let inner = &literal[1..literal.len() - 1];
    let chars: Vec<char> = inner.chars().collect();
    for (i, c) in chars.iter().enumerate() {
        if *c == '"' {
            assert!(i > 0 && chars[i - 1] == '\\');
        }
    }
}

#[test]
fn escaped_resource_text_has_no_markup() {
    let escaped = escape_android_xml("<b>\"bold\"</b> & 'more'");
    assert!(!escaped.contains('<'));
    assert!(!escaped.contains('>'));
    assert!(!escaped.contains('"'));
    assert_eq!(escaped, "&lt;b&gt;&quot;bold&quot;&lt;/b&gt; &amp; \\'more\\'");
}

#[test]
fn click_handlers_are_never_null() {
    assert_eq!(compose_component_action(None, None, &empty_context()), "{}");
    assert_eq!(compose_component_action(Some("unknown"), None, &empty_context()), "{}");
}

#[test]
fn modifier_chain_keeps_its_base() {
    let props = styled();
    let chain = modifier_for_style(&props);
    assert_eq!(
        chain,
        "Modifier.doweSection(sectionRegistry, \"intro\").doweRounded(doweResponsive(viewportWidth, base = 8.dp)).doweBackground(doweResponsive(viewportWidth, base = DoweDesign.surface)).dowePadding(all = doweResponsive(viewportWidth, base = 8.dp), horizontal = null, vertical = null, start = null, end = null, top = null, bottom = null)"
    );
    let based = modifier_for_style_with_base(&props, "Modifier.fillMaxWidth()".to_string());
    assert_eq!(based, format!("Modifier.fillMaxWidth(){}", &chain["Modifier".len()..]));
}

#[test]
fn nodes_of_other_kinds_write_nothing() {
    let mut out = String::from("kept");
    render_compose_display_node(&DisplayNode::Other, 4, &mut out, ComposeFlow::Block, None, FontFamily::Inter, &empty_context());
    assert_eq!(out, "kept");
}

fn no_motion() -> MotionProps {
    MotionProps { rotate: None, scale: None, translate_x: None, translate_y: None, gesture: None, transition: None }
}
