use generator_android::context::ComposeReactiveContext;
use generator_android::layout::{MotionProps, ComposeFlow, ElementProps, SizingProps, SpacingProps, StyleProps};
use generator_android::media::{RecordProps, SvgIcon};
use generator_android::style_values::{ColorToken, FontFamily, ResponsiveEntry, ResponsiveValue, ScaleValue};
use generator_android::layout::{GridTracks, NumberText};
use generator_android::navigation::NavigationAction;
use generator_android::style_values::FlexDirection;
use generator_android::shell::BarProps;
use generator_android::tree::{
    render_compose_navigation_node, BarRegions, CardProps, OverlayRegions, SidebarProps,
    render_compose_structural_flow_node, BannerProps, BrandProps, CoverSource, FlexProps, GridProps, OverlayPaint,
    SplashParts, render_compose_node_in_flow, BadgeProps, CarouselProps, CarouselSlide, CollapsibleProps, DisplayNode, MarqueeProps,
};
use generator_android::values::{VariantProps, VisibilityCondition};

fn element() -> ElementProps {
    ElementProps { id: None, bind: None, on_click: None, show: None, validation: None }
}

fn style() -> StyleProps {
    StyleProps {
        element: element(),
        bg: None,
        text: None,
        spacing: SpacingProps { p: None, px: None, py: None, pl: None, pr: None, pt: None, pb: None },
        sizing: SizingProps { w: None, w_binding: None, h: None, min_w: None, min_h: None, max_w: None, max_h: None },
        rounded: None,
        border: None,
        border_color: None,
        shadow: None,
        shadow_color: None,
        motion: no_motion(),
        bindings: Vec::new(),
        animation: None,
        center_y: None,
        font: None,
    }
}

fn variant() -> VariantProps {
    VariantProps {
        element: element(),
        style: style(),
        variant: None,
        label: None,
        placeholder: None,
        label_floating: false,
        navigation: None,
        container: "DoweDesign.primary".to_string(),
        content: "DoweDesign.primaryText".to_string(),
        card_container: "DoweDesign.surface".to_string(),
        card_content: "DoweDesign.surfaceText".to_string(),
        scheme: ColorToken { reference: "DoweDesign.primary".to_string() },
    }
}

fn context() -> ComposeReactiveContext {
    ComposeReactiveContext {
        signal_paths: vec![("open".to_string(), "ui.open".to_string())],
        action_ids: Vec::new(),
        item_values: Vec::new(),
        item_paths: Vec::new(),
        dynamic_paths: Vec::new(),
        active_item: None,
    }
}

fn record(name: &str) -> DisplayNode {
    DisplayNode::Record {
        props: RecordProps {
            style: variant(),
            name: name.to_string(),
            url: None,
            disabled: false,
            max_duration: None,
            on_start: None,
            on_pause: None,
            on_resume: None,
            on_stop: None,
            on_discard: None,
            on_confirm: None,
        },
    }
}

fn record_line(indent: &str, name: &str) -> String {
    format!(
        "{indent}DoweRecord(name = \"{name}\", url = null, disabled = false, maxDuration = null, backgroundColor = DoweDesign.surface, contentColor = DoweDesign.surfaceText, borderColor = null, onStart = null, onPause = null, onResume = null, onStop = null, onDiscard = null, onConfirm = null, modifier = Modifier)\n"
    )
}

fn render(node: &DisplayNode, indent: usize) -> String {
    let mut out = String::new();
    render_compose_node_in_flow(node, indent, &mut out, ComposeFlow::Block, None, FontFamily::Inter, &context());
    out
}

#[test]
fn hidden_nodes_sit_inside_their_condition() {
    let mut node = record("a");
    if let DisplayNode::Record { props } = &mut node {
        props.style.element.show = Some(VisibilityCondition::Signal("open".to_string()));
    }
    assert_eq!(render(&node, 2), format!("  if (state.bool(\"ui.open\")) {{\n{}  }}\n", record_line("      ", "a")));
}

#[test]
fn badge_wraps_its_children() {
    let node = DisplayNode::Badge {
        props: BadgeProps { style: variant(), text: "3".to_string(), position: "top-right".to_string() },
        children: vec![record("a"), DisplayNode::Other, record("b")],
    };
    assert_eq!(
        render(&node, 0),
        format!(
            "DoweBadge(text = \"3\", position = \"top-right\", backgroundColor = DoweDesign.primary, contentColor = DoweDesign.primaryText, modifier = Modifier) {{\n{}{}}}\n",
            record_line("    ", "a"),
            record_line("    ", "b")
        )
    );
}

#[test]
fn collapsible_has_an_arrow_and_its_children() {
    let arrow = SvgIcon { view_box: "VB".to_string(), paths: "P".to_string(), style: style() };
    let node = DisplayNode::Collapsible {
        props: CollapsibleProps { style: variant(), label: "More".to_string(), default_open: true, disabled: false },
        arrow,
        children: vec![record("a")],
    };
    assert_eq!(
        render(&node, 0),
        format!(
            "DoweCollapsible(label = \"More\", defaultOpen = true, disabled = false, backgroundColor = DoweDesign.surface, contentColor = DoweDesign.surfaceText, borderColor = null, radius = DoweDesign.radius, modifier = Modifier, arrowIcon = {{\n    DoweSvg(viewBox = VB, modifier = Modifier, color = LocalContentColor.current, paths = P)\n}}) {{\n{}}}\n",
            record_line("    ", "a")
        )
    );
}

#[test]
fn marquee_scopes_its_text_color() {
    let mut marquee_style = style();
    marquee_style.text = Some(ResponsiveValue {
        entries: vec![ResponsiveEntry { breakpoint: "base".to_string(), value: ColorToken { reference: "DoweDesign.accent".to_string() } }],
    });
    let node = DisplayNode::Marquee {
        props: MarqueeProps {
            style: marquee_style,
            speed: "slow".to_string(),
            pause_on_hover: true,
            reverse: false,
            orientation: "horizontal".to_string(),
            fade: true,
            fade_color: ColorToken { reference: "DoweDesign.background".to_string() },
            gap: ScaleValue { native_units: 12 },
        },
        children: vec![record("a")],
    };
    assert_eq!(
        render(&node, 0),
        format!(
            "DoweMarquee(speed = \"slow\", pauseOnHover = true, reverse = false, orientation = \"horizontal\", fade = true, fadeColor = DoweDesign.background, gap = 12.dp, modifier = Modifier) {{\n    CompositionLocalProvider(LocalContentColor provides (doweResponsive(viewportWidth, base = DoweDesign.accent) ?: LocalContentColor.current)) {{\n{}    }}\n}}\n",
            record_line("        ", "a")
        )
    );
}

#[test]
fn carousel_separates_its_slides_with_commas() {
    let node = DisplayNode::Carousel {
        props: CarouselProps {
            style: variant(),
            variant: "cards".to_string(),
            autoplay: false,
            autoplay_interval: 5000,
            disable_loop: false,
            hide_controls: false,
            hide_indicators: true,
            show_navigation: true,
            show_counter: false,
            orientation: "horizontal".to_string(),
            size: "md".to_string(),
            indicator_type: "dots".to_string(),
            title: Some("Gallery".to_string()),
            slide_width: Some(320),
            slide_height: None,
            slides_per_view: 1,
            gap: 16,
        },
        slides: vec![
            CarouselSlide { id: "one".to_string(), children: vec![record("a")] },
            CarouselSlide { id: "two".to_string(), children: Vec::new() },
        ],
    };
    assert_eq!(
        render(&node, 0),
        format!(
            "DoweCarousel(variant = \"cards\", slides = listOf(\n    DoweCarouselSlideSpec(id = \"one\", content = {{\n{}    }}),\n    DoweCarouselSlideSpec(id = \"two\", content = {{\n    }})\n), autoplay = false, autoplayInterval = 5000, disableLoop = false, hideControls = false, hideIndicators = true, showNavigation = true, showCounter = false, orientation = \"horizontal\", size = \"md\", indicatorType = \"dots\", title = \"Gallery\", slideWidth = 320, slideHeight = null, slidesPerView = 1, gap = 16, modifier = Modifier, accentColor = DoweDesign.primary)\n",
            record_line("        ", "a")
        )
    );
}

fn no_motion() -> MotionProps {
    MotionProps { rotate: None, scale: None, translate_x: None, translate_y: None, gesture: None, transition: None }
}

fn structural(node: &DisplayNode) -> (bool, String) {
    let mut out = String::new();
    let done = render_compose_structural_flow_node(node, 0, &mut out, ComposeFlow::Block, None, FontFamily::Inter, &context());
    (done, out)
}

#[test]
fn splash_shows_its_nodes_while_the_signal_holds() {
    let node = DisplayNode::Splash {
        binding: "open".to_string(),
        parts: SplashParts { children: vec![record("a")], content: vec![record("b")] },
    };
    assert_eq!(
        structural(&node),
        (true, format!("if (state.bool(\"ui.open\")) {{\n{}}} else {{\n{}}}\n", record_line("    ", "a"), record_line("    ", "b")))
    );
}

#[test]
fn flex_writes_a_column_and_a_row() {
    let node = DisplayNode::Flex {
        props: FlexProps {
            style: style(),
            direction: ResponsiveValue {
                entries: vec![ResponsiveEntry { breakpoint: "base".to_string(), value: FlexDirection::Column }],
            },
            justify: None,
            align: None,
            gap: None,
            wrap: false,
        },
        children: vec![record("a")],
    };
    let expected = format!(
        "if ((doweResponsive(viewportWidth, base = DoweFlexDirection.Column) ?: DoweFlexDirection.Row) == DoweFlexDirection.Column) {{\n    Column(modifier = Modifier.fillMaxWidth(), verticalArrangement = doweVerticalArrangement(null, null), horizontalAlignment = doweHorizontalAlignment(null)) {{\n{}    }}\n}} else {{\n    Row(modifier = Modifier.fillMaxWidth(), horizontalArrangement = doweHorizontalArrangement(null, null), verticalAlignment = doweVerticalAlignment(null)) {{\n{}    }}\n}}\n",
        record_line("        ", "a"),
        record_line("        ", "a")
    );
    assert_eq!(structural(&node), (true, expected));
}

#[test]
fn grid_lists_its_tracks_and_cells() {
    let node = DisplayNode::Grid {
        props: GridProps {
            style: style(),
            columns: Some(ResponsiveValue {
                entries: vec![
                    ResponsiveEntry { breakpoint: "base".to_string(), value: GridTracks::Count(2) },
                    ResponsiveEntry {
                        breakpoint: "md".to_string(),
                        value: GridTracks::Fractions(vec![
                            NumberText { digits: "2".to_string() },
                            NumberText { digits: "1.5".to_string() },
                        ]),
                    },
                ],
            }),
            gap: None,
            justify: None,
            align: None,
        },
        children: vec![record("a")],
    };
    assert_eq!(
        structural(&node),
        (
            true,
            format!(
                "DoweGrid(modifier = Modifier.fillMaxWidth(), tracks = doweResponsive(viewportWidth, base = listOf(1f, 1f), md = listOf(2f, 1.5f)) ?: listOf(1f), horizontalGap = 0.dp, verticalGap = 0.dp, horizontalAlignment = doweGridHorizontalAlignment(null), verticalAlignment = doweGridVerticalAlignment(null), horizontalStretch = doweGridHorizontalStretch(null), fillHeight = false, verticalStretch = true) {{\n{}}}\n",
                record_line("    ", "a")
            )
        )
    );
}

#[test]
fn brand_follows_its_link_with_a_label() {
    let node = DisplayNode::Brand {
        props: BrandProps { style: style(), navigation: Some(NavigationAction::Back), label: Some("Home \"page\"".to_string()) },
        children: Vec::new(),
    };
    assert_eq!(
        structural(&node),
        (
            true,
            "Row(modifier = Modifier.clickable(onClick = { goBack() }).semantics { contentDescription = \"Home \\\"page\\\"\" }, verticalAlignment = Alignment.CenterVertically) {\n}\n".to_string()
        )
    );
}

#[test]
fn banner_sits_on_its_cover() {
    let node = DisplayNode::Banner {
        props: BannerProps {
            style: style(),
            navigation: NavigationAction::Back,
            label: None,
            cover: Some(ResponsiveValue {
                entries: vec![ResponsiveEntry { breakpoint: "base".to_string(), value: CoverSource("hero.png".to_string()) }],
            }),
            overlay: Some(ResponsiveValue {
                entries: vec![ResponsiveEntry {
                    breakpoint: "base".to_string(),
                    value: OverlayPaint::BlackOpacity(NumberText { digits: "0.4".to_string() }),
                }],
            }),
        },
        children: vec![record("a")],
    };
    assert_eq!(
        structural(&node),
        (
            true,
            format!(
                "DoweCoverBox(modifier = Modifier.fillMaxWidth().clickable(onClick = {{ goBack() }}), source = doweResponsive(viewportWidth, base = \"hero.png\"), overlay = doweResponsive(viewportWidth, base = DoweOverlay.Solid(Color.Black.copy(alpha = 0.4f)))) {{\n    Column(verticalArrangement = Arrangement.spacedBy(0.dp)) {{\n{}    }}\n}}\n",
                record_line("        ", "a")
            )
        )
    );
}

#[test]
fn other_nodes_are_not_layout_nodes() {
    assert_eq!(structural(&record("a")), (false, String::new()));
}

fn bar(boxed: bool) -> BarProps {
    BarProps { style: variant(), floating: false, bordered: false, boxed }
}

fn navigation(node: &DisplayNode) -> String {
    let mut out = String::new();
    render_compose_navigation_node(node, 0, &mut out, ComposeFlow::Block, None, FontFamily::Inter, &context());
    out
}

#[test]
fn app_bar_lays_out_its_regions_in_a_row() {
    let node = DisplayNode::AppBar {
        props: bar(false),
        regions: BarRegions {
            top: Vec::new(),
            start: vec![record("a")],
            center: Vec::new(),
            end: vec![record("b")],
            bottom: Vec::new(),
        },
    };
    assert_eq!(
        navigation(&node),
        format!(
            "Column(modifier = Modifier.fillMaxWidth().heightIn(min = 48.dp).background(DoweDesign.primary)) {{\n    CompositionLocalProvider(LocalContentColor provides DoweDesign.primaryText) {{\n        Row(modifier = Modifier.fillMaxWidth(), verticalAlignment = Alignment.CenterVertically, horizontalArrangement = Arrangement.SpaceBetween) {{\n            Row(modifier = Modifier.padding(8.dp), verticalAlignment = Alignment.CenterVertically, horizontalArrangement = Arrangement.Start) {{\n{}            }}\n            Row(modifier = Modifier.padding(8.dp), verticalAlignment = Alignment.CenterVertically, horizontalArrangement = Arrangement.End) {{\n{}            }}\n        }}\n    }}\n}}\n",
            record_line("                ", "a"),
            record_line("                ", "b")
        )
    );
}

#[test]
fn boxed_footer_keeps_all_its_regions_within_the_width() {
    let node = DisplayNode::Footer {
        props: bar(true),
        regions: BarRegions {
            top: vec![record("t")],
            start: Vec::new(),
            center: vec![record("c")],
            end: Vec::new(),
            bottom: Vec::new(),
        },
    };
    assert_eq!(
        navigation(&node),
        format!(
            "Column(modifier = Modifier.fillMaxWidth().heightIn(min = 48.dp).background(DoweDesign.primary)) {{\n    CompositionLocalProvider(LocalContentColor provides DoweDesign.primaryText) {{\n        Box(modifier = Modifier.fillMaxWidth(), contentAlignment = Alignment.Center) {{\n            Column(modifier = Modifier.widthIn(max = 1536.dp).fillMaxWidth()) {{\n{}                Row(modifier = Modifier.fillMaxWidth(), verticalAlignment = Alignment.CenterVertically, horizontalArrangement = Arrangement.SpaceBetween) {{\n                    Row(modifier = Modifier.weight(1f).padding(8.dp), verticalAlignment = Alignment.CenterVertically, horizontalArrangement = Arrangement.Center) {{\n{}                    }}\n                }}\n            }}\n        }}\n    }}\n}}\n",
            record_line("                ", "t"),
            record_line("                        ", "c")
        )
    );
}

#[test]
fn boxed_app_bar_keeps_only_its_row_within_the_width() {
    let node = DisplayNode::AppBar {
        props: bar(true),
        regions: BarRegions { top: Vec::new(), start: Vec::new(), center: Vec::new(), end: Vec::new(), bottom: Vec::new() },
    };
    assert!(navigation(&node).contains(
        "        Box(modifier = Modifier.fillMaxWidth(), contentAlignment = Alignment.Center) {\n            Row(modifier = Modifier.widthIn(max = 1536.dp).fillMaxWidth(), verticalAlignment = Alignment.CenterVertically, horizontalArrangement = Arrangement.SpaceBetween) {\n            }\n        }\n"
    ));
}

#[test]
fn navigation_dispatch_writes_nothing_for_other_nodes() {
    assert_eq!(navigation(&record("a")), "");
}

#[test]
fn sidebar_scrolls_its_body_between_header_and_footer() {
    let node = DisplayNode::Sidebar {
        props: SidebarProps { style: variant() },
        regions: OverlayRegions { header: Vec::new(), body: vec![record("a")], footer: Vec::new() },
    };
    assert_eq!(
        navigation(&node),
        format!(
            "Column(modifier = Modifier.fillMaxWidth().heightIn(max = LocalConfiguration.current.screenHeightDp.dp).background(DoweDesign.primary)) {{\n    CompositionLocalProvider(LocalContentColor provides DoweDesign.primaryText) {{\n        Column(modifier = Modifier.fillMaxWidth().weight(1f).verticalScroll(rememberScrollState())) {{\n{}        }}\n    }}\n}}\n",
            record_line("            ", "a")
        )
    );
}

fn card(variant_binding: Option<&str>) -> CardProps {
    CardProps {
        style: variant(),
        title: ColorToken { reference: "DoweDesign.surfaceTitle".to_string() },
        variant_binding: variant_binding.map(|s| s.to_string()),
        scheme_binding: None,
        color: None,
        cover: None,
        overlay: None,
    }
}

#[test]
fn card_provides_its_title_color_to_its_children() {
    let node = DisplayNode::Card { props: card(None), children: vec![record("a")] };
    assert_eq!(
        structural(&node),
        (
            true,
            format!(
                "Card(modifier = Modifier.fillMaxWidth(), shape = RoundedCornerShape(DoweDesign.radius), colors = CardDefaults.cardColors(containerColor = DoweDesign.surface, contentColor = DoweDesign.surfaceText), border = null, elevation = CardDefaults.cardElevation(defaultElevation = 0.dp)) {{\n    CompositionLocalProvider(LocalDoweTitleColor provides DoweDesign.surfaceTitle) {{\n{}    }}\n}}\n",
                record_line("    ", "a")
            )
        )
    );
}

#[test]
fn reactive_card_reads_its_variant_with_escaped_quotes() {
    let node = DisplayNode::Card { props: card(Some("look")), children: Vec::new() };
    let (_, out) = structural(&node);
    assert!(out.contains("containerColor = doweCardContainer(state.text(\\\"look\\\", \\\"solid\\\"), \\\"primary\\\")"));
    assert!(out.contains("border = if (state.text(\\\"look\\\", \\\"solid\\\") == \\\"outlined\\\") BorderStroke(1.dp, doweCardContent("));
    assert!(out.contains("LocalDoweTitleColor provides doweCardTitle("));
}

#[test]
fn outlined_card_without_its_own_border_gets_one() {
    let mut props = card(None);
    props.style.variant = Some(generator_android::values::ComponentVariant::Outlined);
    let (_, out) = structural(&DisplayNode::Card { props, children: Vec::new() });
    assert!(out.contains("border = BorderStroke(1.dp, DoweDesign.primaryText), elevation"));
}
