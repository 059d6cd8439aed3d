use generator_android::context::ComposeReactiveContext;
use generator_android::layout::{MotionProps, ComposeFlow, ElementProps, SizingProps, SpacingProps, StyleProps};
use generator_android::media::{render_compose_avatar, AvatarProps, SvgIcon};
use generator_android::navigation::NavigationAction;
use generator_android::overlays::{
    render_compose_alert_dialog, render_compose_command, render_compose_command_entry, render_compose_overlay_entry,
    render_compose_overlay_item, render_compose_toast, AlertDialogProps, CommandEntry, CommandProps, DropdownProps,
    OverlayEntry, OverlayItemProps, ToastProps,
};
use generator_android::style_values::{ColorToken, FontFamily};
use generator_android::forms::SkeletonProps;
use generator_android::tree::{
    render_compose_node_in_flow, render_compose_overlay_node, DisplayNode, DrawerProps, DropdownParts, ModalProps,
    OverlayRegions, TooltipProps,
};
use generator_android::values::VariantProps;

fn element() -> ElementProps {
    ElementProps { id: None, bind: None, on_click: None, show: None, validation: None }
}

fn style() -> StyleProps {
    StyleProps {
        element: element(),
        bg: None,
        text: None,
        spacing: SpacingProps { p: None, px: None, py: None, pl: None, pr: None, pt: None, pb: None },
        sizing: SizingProps { w: None, w_binding: None, h: None, min_w: None, min_h: None, max_w: None, max_h: None },
        rounded: None,
        border: None,
        border_color: None,
        shadow: None,
        shadow_color: None,
        motion: no_motion(),
        bindings: Vec::new(),
        animation: None,
        center_y: None,
        font: None,
    }
}

fn variant() -> VariantProps {
    VariantProps {
        element: element(),
        style: style(),
        variant: None,
        label: None,
        placeholder: None,
        label_floating: false,
        navigation: None,
        container: "C".to_string(),
        content: "T".to_string(),
        card_container: "CC".to_string(),
        card_content: "CT".to_string(),
        scheme: ColorToken { reference: "S".to_string() },
    }
}

fn context() -> ComposeReactiveContext {
    ComposeReactiveContext {
        signal_paths: vec![("open".to_string(), "ui.open".to_string())],
        action_ids: vec![("save".to_string(), "a1".to_string()), ("cancel".to_string(), "a2".to_string())],
        item_values: Vec::new(),
        item_paths: Vec::new(),
        dynamic_paths: Vec::new(),
        active_item: None,
    }
}

fn icon() -> SvgIcon {
    SvgIcon { view_box: "VB".to_string(), paths: "P".to_string(), style: style() }
}

fn item(label: &str, on_click: Option<&str>, with_icon: bool) -> OverlayItemProps {
    OverlayItemProps {
        label: label.to_string(),
        description: None,
        disabled: false,
        on_click: on_click.map(|s| s.to_string()),
        navigation: None,
        icon: if with_icon { Some(icon()) } else { None },
    }
}

const ICON_LINE: &str = "DoweSvg(viewBox = VB, modifier = Modifier, color = LocalContentColor.current, paths = P)\n";

#[test]
fn alert_dialog_closes_through_its_signal_and_cancel_action() {
    let props = AlertDialogProps {
        style: variant(),
        open: "open".to_string(),
        title: "Delete?".to_string(),
        description: "Gone \"forever\"".to_string(),
        confirm_text: "Yes".to_string(),
        cancel_text: "No".to_string(),
        loading: false,
        on_confirm: Some("save".to_string()),
        on_cancel: Some("cancel".to_string()),
        accent: ColorToken { reference: "DoweDesign.danger".to_string() },
    };
    let mut out = String::new();
    render_compose_alert_dialog(&props, 2, &mut out, &context());
    assert_eq!(
        out,
        "  DoweAlertDialog(open = state.bool(\"ui.open\"), close = { state.write(\"ui.open\", false); actionScope.launch { state.run(\"a2\") } }, title = \"Delete?\", description = \"Gone \\\"forever\\\"\", confirmText = \"Yes\", cancelText = \"No\", backgroundColor = C, contentColor = T, dangerColor = DoweDesign.danger, radius = DoweDesign.radius, loading = false, onConfirm = { actionScope.launch { state.run(\"a1\") } }, onCancel = { actionScope.launch { state.run(\"a2\") } })\n"
    );
}

#[test]
fn alert_dialog_without_actions_only_closes() {
    let props = AlertDialogProps {
        style: variant(),
        open: "other".to_string(),
        title: "T".to_string(),
        description: "D".to_string(),
        confirm_text: "Y".to_string(),
        cancel_text: "N".to_string(),
        loading: true,
        on_confirm: None,
        on_cancel: Some("unknown".to_string()),
        accent: ColorToken { reference: "R".to_string() },
    };
    let mut out = String::from("x");
    render_compose_alert_dialog(&props, 0, &mut out, &context());
    assert_eq!(
        out,
        "xDoweAlertDialog(open = state.bool(\"other\"), close = { state.write(\"other\", false) }, title = \"T\", description = \"D\", confirmText = \"Y\", cancelText = \"N\", backgroundColor = C, contentColor = T, dangerColor = R, radius = DoweDesign.radius, loading = true, onConfirm = null, onCancel = null)\n"
    );
}

#[test]
fn toast_bound_to_a_signal_reads_its_fields() {
    let props = ToastProps {
        style: variant(),
        source: Some("open".to_string()),
        title: Some("ignored".to_string()),
        description: "ignored".to_string(),
        position: "top".to_string(),
        show_icon: true,
        kind: "success".to_string(),
    };
    let mut out = String::new();
    render_compose_toast(&props, 0, &mut out, &context());
    assert_eq!(
        out,
        "DoweToast(visible = state.bool(\"ui.open.visible\"), title = state.text(\"ui.open.title\"), description = state.text(\"ui.open.message\"), position = \"top\", backgroundColor = C, contentColor = T, showIcon = true, kind = \"success\", close = { state.write(\"ui.open.visible\", false) })\n"
    );
}

#[test]
fn toast_without_signal_shows_its_own_texts() {
    let props = ToastProps {
        style: variant(),
        source: None,
        title: None,
        description: "Saved".to_string(),
        position: "bottom".to_string(),
        show_icon: false,
        kind: "info".to_string(),
    };
    let mut out = String::new();
    render_compose_toast(&props, 4, &mut out, &context());
    assert_eq!(
        out,
        "    DoweToast(visible = true, title = \"\", description = \"Saved\", position = \"bottom\", backgroundColor = C, contentColor = T, showIcon = false, kind = \"info\", close = null)\n"
    );
}

#[test]
fn overlay_item_carries_its_icon_and_link() {
    let mut it = item("Home", None, true);
    it.description = Some("Start".to_string());
    it.navigation = Some(NavigationAction::Back);
    let mut out = String::new();
    render_compose_overlay_item(&it, 2, &mut out, "BG", "FG", &context());
    assert_eq!(
        out,
        format!(
            "  DoweOverlayItem(label = \"Home\", description = \"Start\", disabled = false, backgroundColor = BG, contentColor = FG, onClick = {{ goBack() }}) {{\n      {ICON_LINE}  }}\n"
        )
    );
}

#[test]
fn dropdown_entries_are_items_in_its_colors_or_lines() {
    let props = DropdownProps { style: variant() };
    let mut out = String::new();
    render_compose_overlay_entry(&OverlayEntry::Item(item("Save", Some("save"), false)), 0, &mut out, &props, &context());
    render_compose_overlay_entry(&OverlayEntry::Divider, 0, &mut out, &props, &context());
    assert_eq!(
        out,
        "DoweOverlayItem(label = \"Save\", description = null, disabled = false, backgroundColor = C, contentColor = T, onClick = { actionScope.launch { state.run(\"a1\") } }) {\n}\nBox(modifier = Modifier.fillMaxWidth().height(1.dp).background(DoweDesign.muted))\n"
    );
}

#[test]
fn command_group_lists_its_items_under_its_label() {
    let entry = CommandEntry::Group {
        label: "Files".to_string(),
        icon: Some(icon()),
        items: vec![item("Open", None, false), item("Save", Some("save"), false)],
    };
    let mut out = String::new();
    render_compose_command_entry(&entry, 0, &mut out, &context());
    assert_eq!(
        out,
        format!(
            "Column(verticalArrangement = Arrangement.spacedBy(2.dp)) {{\n    Row(verticalAlignment = Alignment.CenterVertically, horizontalArrangement = Arrangement.spacedBy(6.dp)) {{\n        {ICON_LINE}        Text(text = \"Files\", color = DoweDesign.onMuted, fontSize = 12.sp, fontWeight = FontWeight.SemiBold)\n    }}\n    DoweOverlayItem(label = \"Open\", description = null, disabled = false, backgroundColor = Color.Transparent, contentColor = DoweDesign.onBackground, onClick = null) {{\n    }}\n    DoweOverlayItem(label = \"Save\", description = null, disabled = false, backgroundColor = Color.Transparent, contentColor = DoweDesign.onBackground, onClick = {{ actionScope.launch {{ state.run(\"a1\") }} }}) {{\n    }}\n}}\n"
        )
    );
}

fn command_props(open: Option<&str>) -> CommandProps {
    CommandProps {
        style: variant(),
        open: open.map(|s| s.to_string()),
        placeholder: "Search".to_string(),
        empty_text: "Nothing".to_string(),
        close_text: "close".to_string(),
        navigate_text: "navigate".to_string(),
        select_text: "select".to_string(),
        toggle_text: "toggle".to_string(),
        shortcut: "K".to_string(),
        show_footer: true,
        accent: ColorToken { reference: "A".to_string() },
    }
}

#[test]
fn command_palette_opens_through_its_signal() {
    let entries = vec![CommandEntry::Item(item("Go", None, false))];
    let mut out = String::new();
    render_compose_command(&command_props(Some("open")), &entries, 0, &mut out, &context());
    assert_eq!(
        out,
        "DoweCommand(open = state.bool(\"ui.open\"), close = { state.write(\"ui.open\", false) }, placeholder = \"Search\", emptyText = \"Nothing\", closeText = \"close\", navigateText = \"navigate\", selectText = \"select\", toggleText = \"toggle\", shortcut = \"K\", showFooter = true, backgroundColor = C, contentColor = T, accentColor = A) {\n    DoweOverlayItem(label = \"Go\", description = null, disabled = false, backgroundColor = Color.Transparent, contentColor = DoweDesign.onBackground, onClick = null) {\n    }\n}\n"
    );
}

#[test]
fn command_palette_without_signal_stays_closed() {
    let mut out = String::new();
    render_compose_command(&command_props(None), &[], 2, &mut out, &context());
    assert_eq!(
        out,
        "  DoweCommand(open = false, close = {}, placeholder = \"Search\", emptyText = \"Nothing\", closeText = \"close\", navigateText = \"navigate\", selectText = \"select\", toggleText = \"toggle\", shortcut = \"K\", showFooter = true, backgroundColor = C, contentColor = T, accentColor = A) {\n  }\n"
    );
}

#[test]
fn avatar_with_and_without_icon() {
    let mut props = AvatarProps {
        style: variant(),
        src: Some("https://x/y.png".to_string()),
        name: Some("Ada".to_string()),
        alt: "Ada L".to_string(),
        size: "md".to_string(),
        status: None,
        bordered: true,
    };
    props.style.element.on_click = Some("save".to_string());
    let mut out = String::new();
    render_compose_avatar(&props, None, 0, &mut out, &context());
    assert_eq!(
        out,
        "DoweAvatar(source = \"https://x/y.png\", name = \"Ada\", alt = \"Ada L\", size = \"md\", status = null, bordered = true, backgroundColor = C, contentColor = T, borderColor = T, onClick = { actionScope.launch { state.run(\"a1\") } }, hasIcon = false) {\n}\n"
    );
    let mut out = String::new();
    render_compose_avatar(&props, Some(&icon()), 2, &mut out, &context());
    assert!(out.ends_with(&format!("hasIcon = true) {{\n      {ICON_LINE}  }}\n")));
}

#[test]
fn tooltip_wraps_its_children() {
    let node = DisplayNode::Tooltip {
        props: TooltipProps { style: variant(), label: "Help".to_string(), position: "top".to_string() },
        children: vec![DisplayNode::Other],
    };
    let mut out = String::new();
    render_compose_node_in_flow(&node, 0, &mut out, ComposeFlow::Block, None, FontFamily::Inter, &context());
    assert_eq!(
        out,
        "DoweTooltip(label = \"Help\", position = \"top\", backgroundColor = C, contentColor = T, modifier = Modifier) {\n}\n"
    );
}

fn skeleton() -> DisplayNode {
    DisplayNode::Skeleton { props: SkeletonProps { variant: "text".to_string(), animation: "pulse".to_string(), style: style() } }
}

fn skeleton_line(indent: &str) -> String {
    format!("{indent}DoweSkeleton(variant = \"text\", animation = \"pulse\", modifier = Modifier.fillMaxWidth())\n")
}

fn render_overlay(node: &DisplayNode) -> String {
    let mut out = String::new();
    render_compose_overlay_node(node, 0, &mut out, ComposeFlow::Block, None, FontFamily::Inter, &context());
    out
}

#[test]
fn drawer_closes_before_it_navigates() {
    let node = DisplayNode::Drawer {
        props: DrawerProps {
            style: variant(),
            open: "open".to_string(),
            position: "left".to_string(),
            disable_overlay_close: false,
            hide_close_button: true,
        },
        regions: OverlayRegions { header: Vec::new(), body: vec![skeleton()], footer: vec![skeleton()] },
    };
    let lines = [
        "DoweDrawer(open = state.bool(\"ui.open\"), onClose = { state.write(\"ui.open\", false) }, position = \"left\", backgroundColor = CC, contentColor = CT, borderColor = null, radius = 0.dp, disableOverlayClose = false, hideCloseButton = true) {",
        "    val doweDrawerNavigate = navigate",
        "    val navigate: (String, String, String?) -> Unit = { operation, target, fragment ->",
        "        state.write(\"ui.open\", false)",
        "        doweDrawerNavigate(operation, target, fragment)",
        "    }",
        "    val doweDrawerGoBack = goBack",
        "    val goBack: () -> Unit = {",
        "        state.write(\"ui.open\", false)",
        "        doweDrawerGoBack()",
        "    }",
        "    val doweDrawerOpenExternal = openExternal",
        "    val openExternal: (String, String) -> Unit = { mode, target ->",
        "        state.write(\"ui.open\", false)",
        "        doweDrawerOpenExternal(mode, target)",
        "    }",
        "    Column(modifier = Modifier.fillMaxSize().safeDrawingPadding()) {",
        "        Column(modifier = Modifier.fillMaxWidth().weight(1f).verticalScroll(rememberScrollState())) {",
    ];
    let mut expected = lines.join("\n");
    expected.push('\n');
    expected.push_str(&skeleton_line("            "));
    expected.push_str("        }\n        Column(modifier = Modifier.fillMaxWidth()) {\n");
    expected.push_str(&skeleton_line("            "));
    expected.push_str("        }\n    }\n}\n");
    assert_eq!(render_overlay(&node), expected);
}

#[test]
fn modal_header_is_a_lambda_and_missing_footer_is_null() {
    let node = DisplayNode::Modal {
        props: ModalProps {
            style: variant(),
            open: "open".to_string(),
            on_close: Some("cancel".to_string()),
            disable_overlay_close: true,
            hide_close_button: false,
        },
        regions: OverlayRegions { header: vec![skeleton()], body: Vec::new(), footer: Vec::new() },
    };
    assert_eq!(
        render_overlay(&node),
        format!(
            "DoweModal(open = state.bool(\"ui.open\"), close = {{ state.write(\"ui.open\", false); actionScope.launch {{ state.run(\"a2\") }} }}, backgroundColor = C, contentColor = T, borderColor = null, radius = DoweDesign.radius, disableOverlayClose = true, hideCloseButton = false, header = {{\n{}}}, footer = null) {{\n}}\n",
            skeleton_line("    ")
        )
    );
}

#[test]
fn dropdown_lists_trigger_then_entries() {
    let node = DisplayNode::Dropdown {
        props: DropdownProps { style: variant() },
        parts: DropdownParts {
            trigger: vec![skeleton()],
            header: Vec::new(),
            entries: vec![OverlayEntry::Divider],
            footer: Vec::new(),
        },
    };
    assert_eq!(
        render_overlay(&node),
        format!(
            "DoweDropdown(backgroundColor = C, contentColor = T, modifier = Modifier) {{\n{}}} content: {{\n    Box(modifier = Modifier.fillMaxWidth().height(1.dp).background(DoweDesign.muted))\n}}\n",
            skeleton_line("    ")
        )
    );
}

#[test]
fn overlay_dispatch_writes_nothing_for_other_nodes() {
    assert_eq!(render_overlay(&DisplayNode::Other), "");
    assert_eq!(render_overlay(&skeleton()), skeleton_line(""));
}

fn no_motion() -> MotionProps {
    MotionProps { rotate: None, scale: None, translate_x: None, translate_y: None, gesture: None, transition: None }
}
