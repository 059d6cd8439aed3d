use generator_android::form_node::{render_compose_form_node, FormNode};
use generator_android::context::ComposeReactiveContext;
use generator_android::data::{
    compose_toggle_group_items, render_compose_toggle_group, Pagination, PaginationTotal, ToggleGroupItem,
    ToggleGroupProps,
};
use generator_android::forms::{
    compose_boolean_validation_rules, compose_validation_rules, render_compose_checkbox, render_compose_dropzone,
    render_compose_skeleton, render_compose_theme_select, render_compose_toggle, CheckboxProps, DropzoneProps,
    SkeletonProps, ThemeSelectProps, ToggleProps,
};
use generator_android::layout::{MotionProps, 
    ComposeFlow, ElementProps, FormValidation, OverlayCornerPosition, SizingProps, SpacingProps, StyleProps,
    ValidationRule,
};
use generator_android::media::{
    compose_map_markers, render_compose_camera, render_compose_chip, render_compose_optional_icon_lambda,
    render_compose_side_icon, CameraProps, ChipProps, MapMarker, SvgIcon,
};
use generator_android::shell::{
    compose_nav_menu_action, compose_side_nav_modifier, modifier_for_bar, render_compose_bottom_bar, render_compose_fab,
    BarProps, BottomBarTab, FabAction, FabProps, NavMenuItemProps, SideNavProps,
};
use generator_android::navigation::NavigationAction;
use generator_android::style_values::{ColorToken, ResponsiveEntry, ResponsiveValue, ScaleValue};
use generator_android::values::{ComponentVariant, VariantProps};

fn element() -> ElementProps {
    ElementProps { id: None, bind: None, on_click: None, show: None, validation: None }
}

fn style() -> StyleProps {
    StyleProps {
        element: element(),
        bg: None,
        text: None,
        spacing: SpacingProps { p: None, px: None, py: None, pl: None, pr: None, pt: None, pb: None },
        sizing: SizingProps { w: None, w_binding: None, h: None, min_w: None, min_h: None, max_w: None, max_h: None },
        rounded: None,
        border: None,
        border_color: None,
        shadow: None,
        shadow_color: None,
        motion: no_motion(),
        bindings: Vec::new(),
        animation: None,
        center_y: None,
        font: None,
    }
}

fn color(reference: &str) -> ColorToken {
    ColorToken { reference: reference.to_string() }
}

fn variant(kind: Option<ComponentVariant>) -> VariantProps {
    VariantProps {
        element: element(),
        style: style(),
        variant: kind,
        label: None,
        placeholder: None,
        label_floating: false,
        navigation: None,
        container: "DoweDesign.primary".to_string(),
        content: "DoweDesign.primaryText".to_string(),
        card_container: "DoweDesign.surface".to_string(),
        card_content: "DoweDesign.surfaceText".to_string(),
        scheme: color("DoweDesign.primary"),
    }
}

fn context() -> ComposeReactiveContext {
    ComposeReactiveContext {
        signal_paths: vec![("agree".to_string(), "form.agree".to_string())],
        action_ids: vec![("start".to_string(), "action-1".to_string()), ("save".to_string(), "action-2".to_string())],
        item_values: Vec::new(),
        item_paths: Vec::new(),
        dynamic_paths: Vec::new(),
        active_item: None,
    }
}

fn icon() -> SvgIcon {
    SvgIcon { view_box: "DoweSvgViewBox(0f, 0f, 24f, 24f)".to_string(), paths: "listOf()".to_string(), style: style() }
}

const ICON_CALL: &str =
    "DoweSvg(viewBox = DoweSvgViewBox(0f, 0f, 24f, 24f), modifier = Modifier, color = LocalContentColor.current, paths = listOf())\n";

#[test]
fn skeleton_fills_the_width_of_a_block() {
    let props = SkeletonProps { variant: "text".to_string(), animation: "pulse".to_string(), style: style() };
    let mut out = String::from("// start\n");
    render_compose_skeleton(&props, 4, &mut out, ComposeFlow::Block);
    assert_eq!(
        out,
        "// start\n    DoweSkeleton(variant = \"text\", animation = \"pulse\", modifier = Modifier.fillMaxWidth())\n"
    );
    let mut inline = String::new();
    render_compose_skeleton(&props, 0, &mut inline, ComposeFlow::Inline);
    assert_eq!(inline, "DoweSkeleton(variant = \"text\", animation = \"pulse\", modifier = Modifier)\n");
}

#[test]
fn checkbox_without_binding_uses_its_fixed_value() {
    let mut style = variant(None);
    style.label = Some("Accept".to_string());
    let props = CheckboxProps { style, checked: true, disabled: false, name: None };
    let mut out = String::new();
    render_compose_checkbox(&props, 0, &mut out, &context());
    assert_eq!(
        out,
        "DoweCheckbox(checked = true, onCheckedChange = {}, enabled = true, label = \"Accept\", name = null, modifier = Modifier, accentColor = DoweDesign.primary, helpText = null, errorText = null, validationRules = emptyList())\n"
    );
}

#[test]
fn bound_checkbox_reads_and_writes_its_signal_and_validates() {
    let mut style = variant(None);
    style.element.bind = Some("agree".to_string());
    style.element.validation = Some(FormValidation {
        help_text: Some("Required".to_string()),
        error_text: None,
        rules: vec![
            ValidationRule {
                kind: "matches".to_string(),
                matches: Some("password".to_string()),
                argument: None,
                message: "Must match".to_string(),
            },
            ValidationRule { kind: "required".to_string(), matches: None, argument: None, message: "Needed".to_string() },
        ],
    });
    let props = CheckboxProps { style, checked: false, disabled: true, name: Some("terms".to_string()) };
    let mut out = String::new();
    render_compose_checkbox(&props, 2, &mut out, &context());
    assert_eq!(
        out,
        "  DoweCheckbox(checked = state.bool(\"form.agree\"), onCheckedChange = { state.write(\"form.agree\", it) }, enabled = false, label = null, name = \"terms\", modifier = Modifier, accentColor = DoweDesign.primary, helpText = \"Required\", errorText = null, validationRules = listOf(DoweValidationRule(kind = \"matches\", argument = state.bool(\"password\").toString(), message = \"Must match\"), DoweValidationRule(kind = \"required\", argument = null, message = \"Needed\")))\n"
    );
}

#[test]
fn text_validation_rules_compare_texts() {
    let mut element = element();
    element.validation = Some(FormValidation {
        help_text: None,
        error_text: Some("Bad".to_string()),
        rules: vec![
            ValidationRule {
                kind: "matches".to_string(),
                matches: Some("agree".to_string()),
                argument: None,
                message: "Same".to_string(),
            },
            ValidationRule {
                kind: "minLength".to_string(),
                matches: None,
                argument: Some("3".to_string()),
                message: "Short".to_string(),
            },
        ],
    });
    assert_eq!(
        compose_validation_rules(&element, &context()),
        "listOf(DoweValidationRule(kind = \"matches\", argument = state.text(\"form.agree\"), message = \"Same\"), DoweValidationRule(kind = \"minLength\", argument = \"3\", message = \"Short\"))"
    );
    assert_eq!(compose_boolean_validation_rules(&self::element(), &context()), "emptyList()");
}

#[test]
fn toggle_has_side_labels() {
    let props = ToggleProps {
        style: variant(None),
        checked: false,
        disabled: false,
        label_left: Some("Off".to_string()),
        label_right: Some("On".to_string()),
        name: None,
    };
    let mut out = String::new();
    render_compose_toggle(&props, 0, &mut out, &context());
    assert_eq!(
        out,
        "DoweToggle(checked = false, onCheckedChange = {}, enabled = true, label = null, labelLeft = \"Off\", labelRight = \"On\", name = null, modifier = Modifier, accentColor = DoweDesign.primary)\n"
    );
}

#[test]
fn dropzone_defaults_its_placeholder_and_writes_sizes_as_longs() {
    let props = DropzoneProps {
        style: variant(Some(ComponentVariant::Outlined)),
        accept: Some("image/*".to_string()),
        multiple: true,
        max_size: Some(1024),
        disabled: false,
        help_text: None,
        error_text: None,
        size: "md".to_string(),
    };
    let mut out = String::new();
    render_compose_dropzone(&props, 0, &mut out);
    assert_eq!(
        out,
        "DoweDropzone(label = null, placeholder = \"Drag & drop files here or click to select\", accept = \"image/*\", multiple = true, maxSize = 1024L, disabled = false, helpText = null, errorText = null, size = \"md\", modifier = Modifier, backgroundColor = DoweDesign.primary, contentColor = DoweDesign.primaryText, borderColor = DoweDesign.primaryText)\n"
    );
}

#[test]
fn theme_select_takes_the_rest_of_a_row() {
    let props = ThemeSelectProps { style: variant(None), label: "Theme".to_string(), placeholder: "Pick".to_string() };
    let mut out = String::new();
    render_compose_theme_select(&props, 0, &mut out, ComposeFlow::Inline);
    assert_eq!(
        out,
        "DoweThemeSelect(modifier = Modifier.weight(1f), label = \"Theme\", placeholder = \"Pick\", backgroundColor = DoweDesign.surface, contentColor = DoweDesign.surfaceText, borderColor = DoweDesign.surfaceText)\n"
    );
    let solid = ThemeSelectProps { style: variant(Some(ComponentVariant::Solid)), label: "T".to_string(), placeholder: "P".to_string() };
    let mut block = String::new();
    render_compose_theme_select(&solid, 0, &mut block, ComposeFlow::Block);
    assert!(block.starts_with("DoweThemeSelect(modifier = Modifier, "));
    assert!(block.ends_with("borderColor = null)\n"));
}

#[test]
fn camera_quotes_the_ids_of_its_actions() {
    let props = CameraProps {
        style: variant(None),
        facing: "back".to_string(),
        label: "Scan".to_string(),
        disabled: false,
        on_start: Some("start".to_string()),
        on_capture: Some("missing".to_string()),
        on_error: None,
    };
    let mut out = String::new();
    render_compose_camera(&props, 0, &mut out, &context());
    assert_eq!(
        out,
        "DoweCamera(state = state, facing = \"back\", label = \"Scan\", disabled = false, onStart = \"action-1\", onCapture = null, onError = null, modifier = Modifier, shape = RoundedCornerShape(DoweDesign.radius), backgroundColor = DoweDesign.surface, contentColor = DoweDesign.surfaceText)\n"
    );
}

#[test]
fn map_markers_list_their_values() {
    let markers = vec![MapMarker {
        id: "m1".to_string(),
        lat: "1.5".to_string(),
        lng: "2.5".to_string(),
        label: Some("Home".to_string()),
        popup: None,
        icon: "pin".to_string(),
        on_click: Some("save".to_string()),
    }];
    assert_eq!(
        compose_map_markers(&markers, &context()),
        "listOf(DoweMapMarker(id = \"m1\", lat = \"1.5\", lng = \"2.5\", label = \"Home\", popup = null, icon = \"pin\", onClick = { actionScope.launch { state.run(\"action-2\") } }))"
    );
    assert_eq!(compose_map_markers(&[], &context()), "emptyList()");
}

#[test]
fn side_icons_and_icon_lambdas() {
    let mut out = String::new();
    render_compose_side_icon(&icon(), 2, &mut out);
    assert_eq!(out, format!("  {ICON_CALL}"));
    let mut lambda = String::new();
    render_compose_optional_icon_lambda(Some(&icon()), 2, &mut lambda);
    assert_eq!(lambda, format!("{{\n      {ICON_CALL}  }}"));
    let mut none = String::new();
    render_compose_optional_icon_lambda(None, 2, &mut none);
    assert_eq!(none, "null");
}

#[test]
fn clickable_chip_with_an_end_icon() {
    let mut style = variant(None);
    style.element.on_click = Some("save".to_string());
    let props = ChipProps { style, size: "sm".to_string(), on_close: None };
    let mut out = String::new();
    render_compose_chip(&props, "Tag", None, Some(&icon()), 0, &mut out, &context());
    assert_eq!(
        out,
        format!(
            "DoweChip(text = \"Tag\", size = \"sm\", backgroundColor = DoweDesign.primary, contentColor = DoweDesign.primaryText, borderColor = null, modifier = Modifier.clickable(onClick = {{ actionScope.launch {{ state.run(\"action-2\") }} }}), compact = true, onClose = null, start = null, end = {{\n    {ICON_CALL}}})\n"
        )
    );
}

#[test]
fn toggle_group_items() {
    let items = vec![
        ToggleGroupItem { id: "a".to_string(), label: "A".to_string(), icon: Some("star".to_string()) },
        ToggleGroupItem { id: "b".to_string(), label: "B".to_string(), icon: None },
    ];
    assert_eq!(
        compose_toggle_group_items(&items),
        "listOf(DoweToggleGroupItem(id = \"a\", label = \"A\", icon = \"star\"), DoweToggleGroupItem(id = \"b\", label = \"B\", icon = null))"
    );
    assert_eq!(compose_toggle_group_items(&[]), "emptyList()");
}

fn toggle_group(pagination: Option<Pagination>) -> ToggleGroupProps {
    ToggleGroupProps {
        style: variant(None),
        is_pagination: pagination.is_some(),
        pagination,
        value: Some("page".to_string()),
        selected: "1".to_string(),
        size: "md".to_string(),
        wide: false,
        vertical: false,
        disabled: false,
        aria_label: None,
        on_change: None,
    }
}

#[test]
fn pagination_counts_pages_of_a_fixed_total() {
    let props = toggle_group(Some(Pagination { total: PaginationTotal::Static(45), page_size: 10 }));
    let mut out = String::new();
    render_compose_toggle_group(&props, &[], &icon(), &icon(), 0, &mut out, &context());
    assert_eq!(
        out,
        format!(
            "DowePagination(value = state.text(\"page\"), onValueChange = {{ value -> state.write(\"page\", value) }}, pageCount = 5, size = \"md\", disabled = false, ariaLabel = null, backgroundColor = DoweDesign.surface, contentColor = DoweDesign.surfaceText, borderColor = null, onChange = null, previousIcon = {{\n    {ICON_CALL}}}, nextIcon = {{\n    {ICON_CALL}}}, modifier = Modifier)\n"
        )
    );
}

#[test]
fn pagination_page_counts() {
    let count = |total: PaginationTotal, size: u64| {
        let props = toggle_group(Some(Pagination { total, page_size: size }));
        let mut out = String::new();
        render_compose_toggle_group(&props, &[], &icon(), &icon(), 0, &mut out, &context());
        let start = out.find("pageCount = ").unwrap() + "pageCount = ".len();
        let end = out[start..].find(", size").unwrap() + start;
        out[start..end].to_string()
    };
    assert_eq!(count(PaginationTotal::Static(0), 10), "1");
    assert_eq!(count(PaginationTotal::Static(40), 10), "4");
    assert_eq!(count(PaginationTotal::Static(41), 10), "5");
    assert_eq!(count(PaginationTotal::Static(u64::MAX), 2), "9223372036854775808");
    assert_eq!(
        count(PaginationTotal::Signal("total".to_string()), 10),
        "maxOf(1, minOf(25, ((state.text(\"total\").toIntOrNull() ?: 0).coerceAtLeast(0) + 9) / 10))"
    );
}

#[test]
fn toggle_group_without_pagination() {
    let mut props = toggle_group(None);
    props.value = None;
    let items = vec![ToggleGroupItem { id: "a".to_string(), label: "A".to_string(), icon: None }];
    let mut out = String::new();
    render_compose_toggle_group(&props, &items, &icon(), &icon(), 0, &mut out, &context());
    assert_eq!(
        out,
        "DoweToggleGroup(value = \"1\", onValueChange = { _ -> }, items = listOf(DoweToggleGroupItem(id = \"a\", label = \"A\", icon = null)), size = \"md\", wide = false, vertical = false, disabled = false, ariaLabel = null, backgroundColor = DoweDesign.surface, contentColor = DoweDesign.surfaceText, borderColor = null, onChange = null, modifier = Modifier)\n"
    );
}

#[test]
fn menu_actions_prefer_scope_actions_over_links() {
    let ctx = context();
    let link = NavigationAction::Back;
    let with_action = NavMenuItemProps { on_click: Some("start".to_string()), navigation: Some(link.clone()) };
    assert_eq!(compose_nav_menu_action(&with_action, &ctx), "{ actionScope.launch { state.run(\"action-1\") } }");
    let nothing = NavMenuItemProps { on_click: Some("unknown".to_string()), navigation: None };
    assert_eq!(compose_nav_menu_action(&nothing, &ctx), "null");
}

#[test]
fn side_nav_modifier_widens_on_condition() {
    let props = SideNavProps { style: variant(None) };
    assert_eq!(
        compose_side_nav_modifier(&props, ComposeFlow::Block, "wide"),
        "Modifier.fillMaxWidth().then(if (wide) Modifier.fillMaxWidth() else Modifier)"
    );
}

#[test]
fn bar_modifiers() {
    let plain = BarProps { style: variant(None), floating: false, bordered: false, boxed: false };
    assert_eq!(
        modifier_for_bar(&plain, ComposeFlow::Block),
        "Modifier.fillMaxWidth().heightIn(min = 48.dp).background(DoweDesign.primary)"
    );
    let floating = BarProps { style: variant(None), floating: true, bordered: false, boxed: false };
    assert_eq!(
        modifier_for_bar(&floating, ComposeFlow::Inline),
        "Modifier.heightIn(min = 48.dp).padding(horizontal = 16.dp, vertical = 8.dp).clip(RoundedCornerShape(DoweDesign.radiusBox)).background(DoweDesign.primary).border(1.dp, DoweDesign.muted, RoundedCornerShape(DoweDesign.radiusBox))"
    );
    let bordered = BarProps { style: variant(None), floating: false, bordered: true, boxed: false };
    assert!(modifier_for_bar(&bordered, ComposeFlow::Inline).ends_with(".border(1.dp, DoweDesign.muted, RoundedCornerShape(0.dp))"));
}

#[test]
fn boxed_bottom_bar_with_a_featured_tab() {
    let props = BarProps { style: variant(None), floating: false, bordered: false, boxed: true };
    let tab = BottomBarTab {
        label: "Home".to_string(),
        i18n: None,
        navigation: NavigationAction::Back,
        featured: true,
        icon: icon(),
        animated: false,
    };
    let mut out = String::new();
    render_compose_bottom_bar(&props, &[tab], 0, &mut out, ComposeFlow::Block, &context());
    let expected = "Box(modifier = Modifier.fillMaxWidth().heightIn(min = 48.dp).background(DoweDesign.primary), contentAlignment = Alignment.BottomCenter) {\n    Row(modifier = Modifier.widthIn(max = 1536.dp).fillMaxWidth(), verticalAlignment = Alignment.Bottom, horizontalArrangement = Arrangement.SpaceEvenly) {\n        DoweRailNavItem(label = \"Home\", showLabel = true, active = false, itemSize = 56.dp, labelSize = 10f, backgroundColor = DoweDesign.primary, contentColor = DoweDesign.primaryText, borderColor = null, featured = true, onClick = { goBack() }) {\n            DoweSvg(viewBox = DoweSvgViewBox(0f, 0f, 24f, 24f), modifier = Modifier.size(20.dp), color = DoweDesign.primaryText, paths = listOf(), animated = false)\n        }\n    }\n}\n";
    assert_eq!(out, expected);
}

fn fab(fixed: bool, position: OverlayCornerPosition) -> FabProps {
    FabProps {
        style: variant(None),
        fixed,
        offset_x: ScaleValue { native_units: 16 },
        offset_y: ScaleValue { native_units: 24 },
        position,
        icon: icon(),
    }
}

#[test]
fn pinned_fab_without_open_state_writes_nothing() {
    let mut out = String::from("x");
    render_compose_fab(&fab(true, OverlayCornerPosition::BottomRight), &[], 0, &mut out, &context(), None);
    assert_eq!(out, "x");
}

#[test]
fn open_fab_lists_actions_above_its_trigger() {
    let action = FabAction {
        label: "Edit".to_string(),
        on_click: Some("save".to_string()),
        navigation: None,
        icon: icon(),
        container: "DoweDesign.info".to_string(),
        content: "DoweDesign.infoText".to_string(),
    };
    let mut out = String::new();
    render_compose_fab(&fab(true, OverlayCornerPosition::BottomRight), &[action], 0, &mut out, &context(), Some("fabOpen"));
    let expected = format!(
        "Column(modifier = Modifier.fillMaxSize().padding(horizontal = 16.dp, vertical = 24.dp), horizontalAlignment = Alignment.End, verticalArrangement = Arrangement.spacedBy(12.dp, alignment = Arrangement.Bottom)) {{\n    if (fabOpen) {{\n        Button(onClick = {{ actionScope.launch {{ state.run(\"action-2\") }} }}, colors = ButtonDefaults.buttonColors(containerColor = DoweDesign.info, contentColor = DoweDesign.infoText), border = null, contentPadding = PaddingValues(horizontal = 12.dp, vertical = 8.dp)) {{\n            Row(horizontalArrangement = Arrangement.spacedBy(12.dp), verticalAlignment = Alignment.CenterVertically) {{\n                Text(\"Edit\")\n                {ICON_CALL}            }}\n        }}\n    }}\n    Button(onClick = {{ fabOpen = !fabOpen }}, colors = ButtonDefaults.buttonColors(containerColor = DoweDesign.primary, contentColor = DoweDesign.primaryText), border = null, contentPadding = PaddingValues(0.dp), modifier = Modifier.rotate(if (fabOpen) 45f else 0f)) {{\n        {ICON_CALL}    }}\n}}\n"
    );
    assert_eq!(out, expected);
}

#[test]
fn top_corner_fab_puts_its_trigger_first() {
    let mut out = String::new();
    render_compose_fab(&fab(false, OverlayCornerPosition::TopLeft), &[], 0, &mut out, &context(), None);
    let expected = format!(
        "Column(modifier = Modifier, horizontalAlignment = Alignment.Start, verticalArrangement = Arrangement.spacedBy(12.dp, alignment = Arrangement.Top)) {{\n    Button(onClick = {{}}, colors = ButtonDefaults.buttonColors(containerColor = DoweDesign.primary, contentColor = DoweDesign.primaryText), border = null, contentPadding = PaddingValues(0.dp), modifier = Modifier) {{\n        {ICON_CALL}    }}\n}}\n"
    );
    assert_eq!(out, expected);
}

#[allow(dead_code)]
fn responsive<T>(value: T) -> ResponsiveValue<T> {
    ResponsiveValue { entries: vec![ResponsiveEntry { breakpoint: "base".to_string(), value }] }
}

fn no_motion() -> MotionProps {
    MotionProps { rotate: None, scale: None, translate_x: None, translate_y: None, gesture: None, transition: None }
}

#[test]
fn form_node_draws_each_control_with_its_component() {
    let mut style = variant(None);
    style.label = Some("Accept".to_string());
    let checkbox = FormNode::Checkbox { props: CheckboxProps { style, checked: true, disabled: false, name: None } };
    let mut out = String::new();
    render_compose_form_node(&checkbox, 0, &mut out, ComposeFlow::Block, &context());
    assert_eq!(
        out,
        "DoweCheckbox(checked = true, onCheckedChange = {}, enabled = true, label = \"Accept\", name = null, modifier = Modifier, accentColor = DoweDesign.primary, helpText = null, errorText = null, validationRules = emptyList())\n"
    );
    let pinned = FormNode::Fab { props: fab(true, OverlayCornerPosition::BottomRight), actions: Vec::new() };
    let mut nothing = String::from("x");
    render_compose_form_node(&pinned, 0, &mut nothing, ComposeFlow::Block, &context());
    assert_eq!(nothing, "x");
    let select = FormNode::SelectTheme {
        props: ThemeSelectProps { style: variant(None), label: "Theme".to_string(), placeholder: "Pick".to_string() },
    };
    let mut direct = String::new();
    if let FormNode::SelectTheme { props } = &select {
        render_compose_theme_select(props, 4, &mut direct, ComposeFlow::Inline);
    }
    let mut via_node = String::new();
    render_compose_form_node(&select, 4, &mut via_node, ComposeFlow::Inline, &context());
    assert_eq!(via_node, direct);
    assert!(via_node.starts_with("    DoweThemeSelect("));
}
