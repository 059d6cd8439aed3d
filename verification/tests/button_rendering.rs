use generator_android::button::{ButtonBindings, ButtonProps, NumberComparison};
use generator_android::context::ComposeReactiveContext;
use generator_android::layout::{ComposeFlow, ElementProps, MotionProps, NumberText, SizingProps, SpacingProps, StyleProps};
use generator_android::media::SvgIcon;
use generator_android::style_values::{ColorToken, FontFamily};
use generator_android::tree::{render_compose_button_flow_node, render_compose_flow_node, DisplayNode};
use generator_android::values::{ComponentVariant, VariantProps};

fn element() -> ElementProps {
    ElementProps { id: None, bind: None, on_click: None, show: None, validation: None }
}

fn no_motion() -> MotionProps {
    MotionProps { rotate: None, scale: None, translate_x: None, translate_y: None, gesture: None, transition: None }
}

fn style() -> StyleProps {
    StyleProps {
        element: element(),
        bg: None,
        text: None,
        spacing: SpacingProps { p: None, px: None, py: None, pl: None, pr: None, pt: None, pb: None },
        sizing: SizingProps { w: None, w_binding: None, h: None, min_w: None, min_h: None, max_w: None, max_h: None },
        rounded: None,
        border: None,
        border_color: None,
        shadow: None,
        shadow_color: None,
        motion: no_motion(),
        bindings: Vec::new(),
        animation: None,
        center_y: None,
        font: None,
    }
}

fn variant() -> VariantProps {
    VariantProps {
        element: element(),
        style: style(),
        variant: None,
        label: None,
        placeholder: None,
        label_floating: false,
        navigation: None,
        container: "C".to_string(),
        content: "T".to_string(),
        card_container: "CC".to_string(),
        card_content: "CT".to_string(),
        scheme: ColorToken { reference: "S".to_string() },
    }
}

fn context() -> ComposeReactiveContext {
    ComposeReactiveContext {
        signal_paths: vec![("busy".to_string(), "ui.busy".to_string())],
        action_ids: vec![("save".to_string(), "a1".to_string())],
        item_values: Vec::new(),
        item_paths: Vec::new(),
        dynamic_paths: Vec::new(),
        active_item: None,
    }
}

fn icon() -> SvgIcon {
    SvgIcon { view_box: "VB".to_string(), paths: "P".to_string(), style: style() }
}

fn bindings() -> ButtonBindings {
    ButtonBindings {
        loading: None,
        disabled: None,
        variant: None,
        scheme: None,
        size: None,
        rounded: None,
        icon_start_when: None,
        icon_start_comparison: None,
        icon_end_when: None,
        icon_end_comparison: None,
    }
}

fn button() -> ButtonProps {
    ButtonProps {
        style: variant(),
        color: None,
        size: None,
        reactive: bindings(),
        swap_bind: None,
        icon_only: false,
        icon_start: None,
        icon_end: None,
        swap_icon_off: None,
    }
}

fn render(props: ButtonProps) -> String {
    let node = DisplayNode::Button { props, children: Vec::new() };
    let mut out = String::new();
    render_compose_flow_node(&node, 0, &mut out, ComposeFlow::Block, None, FontFamily::Inter, &context());
    out
}

const ICON: &str = "DoweSvg(viewBox = VB, modifier = Modifier, color = LocalContentColor.current, paths = P)\n";

#[test]
fn plain_button_runs_its_action() {
    let mut props = button();
    props.style.element.on_click = Some("save".to_string());
    assert_eq!(
        render(props),
        "Button(modifier = Modifier.doweGridCompactWidth().height(0.dp), shape = RoundedCornerShape(DoweDesign.radius), colors = ButtonDefaults.buttonColors(containerColor = C, contentColor = T), border = null, contentPadding = PaddingValues(0.dp), enabled = true, onClick = { actionScope.launch { state.run(\"a1\") } }) {\n}\n"
    );
}

#[test]
fn outlined_button_has_a_border_in_its_content_color() {
    let mut props = button();
    props.style.variant = Some(ComponentVariant::Outlined);
    assert!(render(props).contains(", border = BorderStroke(1.dp, T), contentPadding"));
}

#[test]
fn loading_button_is_disabled_and_hides_its_contents() {
    let mut props = button();
    props.reactive.loading = Some("busy".to_string());
    props.icon_end = Some(icon());
    let expected = format!(
        "Button(modifier = Modifier.doweGridCompactWidth().graphicsLayer {{ alpha = if (!(state.bool(\"ui.busy\", true))) 1f else 0.5f }}.height(0.dp), shape = RoundedCornerShape(DoweDesign.radius), colors = ButtonDefaults.buttonColors(containerColor = C, contentColor = T, disabledContainerColor = C, disabledContentColor = T), border = null, contentPadding = PaddingValues(0.dp), enabled = !(state.bool(\"ui.busy\", true)), onClick = {{}}) {{\n    Box(contentAlignment = Alignment.Center) {{\n        Row(modifier = Modifier.graphicsLayer {{ alpha = if (state.bool(\"ui.busy\", true)) 0f else 1f }}, verticalAlignment = Alignment.CenterVertically) {{\n            {ICON}        }}\n        if (state.bool(\"ui.busy\", true)) {{\n        }}\n    }}\n}}\n"
    );
    assert_eq!(render(props), expected);
}

#[test]
fn reactive_variant_and_scheme_pick_the_colors() {
    let mut props = button();
    props.reactive.variant = Some("look".to_string());
    props.color = Some("danger".to_string());
    let out = render(props);
    assert!(out.contains("containerColor = doweButtonContainer(state.text(\"look\", \"solid\"), \"danger\")"));
    assert!(out.contains("border = if (state.text(\"look\", \"solid\") == \"outlined\") BorderStroke(1.dp, doweButtonContent(state.text(\"look\", \"solid\"), \"danger\")) else null"));
}

#[test]
fn toggle_button_flips_its_signal_before_its_action() {
    let mut props = button();
    props.style.element.on_click = Some("save".to_string());
    props.swap_bind = Some("busy".to_string());
    props.icon_start = Some(icon());
    let out = render(props);
    assert!(out.contains("onClick = { state.write(\"ui.busy\", !state.bool(\"ui.busy\")); actionScope.launch { state.run(\"a1\") } })"));
    assert!(out.ends_with(&format!(") {{\n    if (state.bool(\"ui.busy\")) {{\n        {ICON}    }} else {{\n    }}\n}}\n")));
}

#[test]
fn icon_only_button_is_labelled_and_square() {
    let mut props = button();
    props.icon_only = true;
    props.size = Some("lg".to_string());
    props.style.label = Some("Close".to_string());
    let out = render(props);
    assert!(out.starts_with("Button(modifier = Modifier.doweGridCompactWidth().semantics { contentDescription = \"Close\" }.width(doweButtonMinHeight(\"lg\")).height(doweButtonMinHeight(\"lg\"))"));
}

#[test]
fn start_icon_shows_when_its_number_compares() {
    let mut props = button();
    props.icon_start = Some(icon());
    props.reactive.icon_start_when = Some("count".to_string());
    props.reactive.icon_start_comparison =
        Some(NumberComparison { operator: ">".to_string(), value: NumberText { digits: "3".to_string() } });
    let out = render(props);
    assert!(out.contains("    if (((state.text(\"count\", \"0\")).toDoubleOrNull() ?: 0.0) > 3) {\n        DoweSvg("));
}

#[test]
fn other_nodes_are_not_buttons() {
    let mut out = String::new();
    let done = render_compose_button_flow_node(&DisplayNode::Other, 0, &mut out, ComposeFlow::Block, None, FontFamily::Inter, &context());
    assert!(!done);
    assert_eq!(out, "");
}
