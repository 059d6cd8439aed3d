//! View trees: nodes with their children, the visibility condition around a
//! node, and the per-kind renderers of display nodes.
use vstd::prelude::*;
use crate::button::{
    button_loading, button_open_text, compose_button_open, compose_icon_condition, compose_reactive_bool, variant_name,
    compose_variant_name, item_path_known,
    icon_condition_text, item_paths_complete, lemma_button_paths_known, ButtonProps,
};
use crate::context::{signal_path_text, ComposeReactiveContext};
use crate::shell::{bar_modifier_text, bottom_bar_text, modifier_for_bar, render_compose_bottom_bar, BarProps, BottomBarTab};
use crate::forms::{render_compose_skeleton, skeleton_line, SkeletonProps};
use crate::text_node::{render_compose_text_node, text_node_text, TextProps, TextSegment, TextTypography};
use crate::navigation::{
    close_action_text, compose_close_action, compose_component_action, compose_navigation_action,
    navigation_action_text, NavigationAction,
};
use crate::overlays::{
    alert_dialog_line, command_text, overlay_entry_text, render_compose_alert_dialog, render_compose_command,
    render_compose_overlay_entry, render_compose_toast, toast_line, AlertDialogProps, CommandEntry, CommandProps,
    DropdownProps, OverlayEntry, ToastProps,
};
use crate::data::{pagination_valid, render_compose_avatar_group, render_compose_toggle_group, toggle_group_text, avatar_group_line};
use crate::data::{AvatarGroupItem, AvatarGroupProps, ToggleGroupItem, ToggleGroupProps};
use crate::display::{
    alert_text, code_line, render_compose_alert, render_compose_code, render_compose_tree, tree_line, AlertProps,
    CodeProps, TreeProps,
};
use crate::layout::{
    compose_card_radius, compose_drawer_radius, content_color_text, divider_base_text, modifier_for_divider,
    modifier_for_style, modifier_for_style_with_base, radius_text, arrangement_text, compose_grid_fills_height,
    compose_grid_horizontal_alignment, compose_grid_horizontal_gap, compose_grid_horizontal_stretch, compose_grid_tracks,
    compose_grid_vertical_alignment, compose_grid_vertical_gap, compose_grid_vertical_stretch, compose_horizontal_alignment,
    compose_horizontal_arrangement, compose_vertical_alignment, compose_vertical_arrangement, container_modifier_text,
    grid_fills_height_text, grid_horizontal_gap_text, grid_tracks_text, grid_vertical_gap_text, grid_vertical_stretch_text,
    modifier_for_container_style, opt_align_text, opt_grid_alignment_text, GridTracks, NumberText, text_if,
    compose_content_padding, content_padding_text, modifier_for_section_container, section_container_text, SpacingProps,
    style_modifier_text, ComposeFlow, DividerProps, StyleProps,
};
use crate::media::{
    camera_line, chat_box_line, countdown_line, empty_line, image_line, map_line, microphone_line, record_line,
    render_compose_camera, render_compose_chat_box, render_compose_countdown, render_compose_empty, render_compose_image,
    render_compose_map, render_compose_microphone, render_compose_record, render_compose_side_icon,
    render_compose_type_writer, side_icon_line, type_writer_line, CameraProps, ChatBoxProps, CountdownProps, EmptyProps,
    ImageProps, MapMarker, MapProps, MicrophoneProps, RecordProps, SvgIcon, TypeWriterProps,
    avatar_text, chip_text, render_compose_avatar, render_compose_chip, AvatarProps, ChipProps,
};
use crate::style_values::{
    bool_string, bool_text, color_value_text, compose_color_value, compose_flex_direction_value, compose_responsive_value,
    compose_scale_literal, dp_text, flex_direction_value_text, opt_ref, optional_text, responsive_text, Align, ColorToken,
    FlexDirection, FontFamily, GapValue, GridAlignment, Justify, ResponsiveValue, ScaleValue,
};
use crate::text::{
    compose_optional_field, compose_optional_u16, compose_string_literal, decimal_string, decimal_text, escape_kotlin,
    kotlin_escaped, push_kotlin_escaped,
    opt_string_view, optional_string_text, optional_u16_text, pad, spaces, string_literal_text,
};
use crate::values::{
    compose_show_condition, compose_variant_border, show_condition_text, variant_border_text, ComponentVariant, MapWaypoint,
    TypeWriterItem, VariantProps, VisibilityCondition,
};

verus! {

/// A badge: its style and variant, its text and the name of its position.
#[derive(Debug, Clone)]
pub struct BadgeProps {
    pub style: VariantProps,
    pub text: String,
    pub position: String,
}

/// A tooltip: its style and variant, its label and the name of its position.
#[derive(Debug, Clone)]
pub struct TooltipProps {
    pub style: VariantProps,
    pub label: String,
    pub position: String,
}

/// A collapsible section: its style and variant, its label, whether it starts
/// open and whether it is disabled.
#[derive(Debug, Clone)]
pub struct CollapsibleProps {
    pub style: VariantProps,
    pub label: String,
    pub default_open: bool,
    pub disabled: bool,
}

/// A marquee: its style, the name of its speed, whether it pauses on hover and
/// runs backwards, the name of its orientation, whether its edges fade and into
/// which color, and the gap between its items.
#[derive(Debug, Clone)]
pub struct MarqueeProps {
    pub style: StyleProps,
    pub speed: String,
    pub pause_on_hover: bool,
    pub reverse: bool,
    pub orientation: String,
    pub fade: bool,
    pub fade_color: ColorToken,
    pub gap: ScaleValue,
}

/// A carousel: its style and variant, the name of its look, how it plays, which
/// controls it shows, the names of its orientation, size and indicator, its
/// title, the size of its slides, how many slides it shows and the gap between them.
#[derive(Debug, Clone)]
pub struct CarouselProps {
    pub style: VariantProps,
    pub variant: String,
    pub autoplay: bool,
    pub autoplay_interval: u32,
    pub disable_loop: bool,
    pub hide_controls: bool,
    pub hide_indicators: bool,
    pub show_navigation: bool,
    pub show_counter: bool,
    pub orientation: String,
    pub size: String,
    pub indicator_type: String,
    pub title: Option<String>,
    pub slide_width: Option<u16>,
    pub slide_height: Option<u16>,
    pub slides_per_view: u32,
    pub gap: u32,
}

/// A slide of a carousel: its id and its content.
#[derive(Debug)]
pub struct CarouselSlide {
    pub id: String,
    pub children: Vec<DisplayNode>,
}

/// A card: its style and variant, the title color of its surface, the signals
/// that drive its variant and color family, the name of its color family, and
/// the cover picture behind it with the paint over that picture.
#[derive(Debug, Clone)]
pub struct CardProps {
    pub style: VariantProps,
    pub title: ColorToken,
    pub variant_binding: Option<String>,
    pub scheme_binding: Option<String>,
    pub color: Option<String>,
    pub cover: Option<ResponsiveValue<CoverSource>>,
    pub overlay: Option<ResponsiveValue<OverlayPaint>>,
}

/// A sidebar: its style and variant.
#[derive(Debug, Clone)]
pub struct SidebarProps {
    pub style: VariantProps,
}

/// The regions of an app bar or a footer: the nodes above it, at its start,
/// centre and end, and below it.
#[derive(Debug)]
pub struct BarRegions {
    pub top: Vec<DisplayNode>,
    pub start: Vec<DisplayNode>,
    pub center: Vec<DisplayNode>,
    pub end: Vec<DisplayNode>,
    pub bottom: Vec<DisplayNode>,
}

/// The two parts of a splash: the nodes shown while its signal holds, and the
/// content shown otherwise.
#[derive(Debug)]
pub struct SplashParts {
    pub children: Vec<DisplayNode>,
    pub content: Vec<DisplayNode>,
}

/// A flex layout: its style, its direction, how it spreads and aligns its
/// children, the gap between them, and whether a row wraps.
#[derive(Debug, Clone)]
pub struct FlexProps {
    pub style: StyleProps,
    pub direction: ResponsiveValue<FlexDirection>,
    pub justify: Option<ResponsiveValue<Justify>>,
    pub align: Option<ResponsiveValue<Align>>,
    pub gap: Option<ResponsiveValue<GapValue>>,
    pub wrap: bool,
}

/// A grid: its style, its columns, the gap between its cells and how it aligns
/// them across and down.
#[derive(Debug, Clone)]
pub struct GridProps {
    pub style: StyleProps,
    pub columns: Option<ResponsiveValue<GridTracks>>,
    pub gap: Option<ResponsiveValue<GapValue>>,
    pub justify: Option<ResponsiveValue<GridAlignment>>,
    pub align: Option<ResponsiveValue<GridAlignment>>,
}

/// A brand mark: its style, the link it follows and the label read to
/// accessibility services.
#[derive(Debug, Clone)]
pub struct BrandProps {
    pub style: StyleProps,
    pub navigation: Option<NavigationAction>,
    pub label: Option<String>,
}

/// The address of a cover picture.
#[derive(Debug, Clone)]
pub struct CoverSource(pub String);

/// The paint laid over a cover picture: black at an opacity, or a design color.
#[derive(Debug, Clone)]
pub enum OverlayPaint {
    BlackOpacity(NumberText),
    Color(ColorToken),
}

/// A banner: its style, the link it follows, its label, and the cover picture
/// behind it with the paint over that picture.
#[derive(Debug, Clone)]
pub struct BannerProps {
    pub style: StyleProps,
    pub navigation: NavigationAction,
    pub label: Option<String>,
    pub cover: Option<ResponsiveValue<CoverSource>>,
    pub overlay: Option<ResponsiveValue<OverlayPaint>>,
}

/// A drawer: its style and variant, the signal that opens it, the name of the
/// side it slides from, and whether a tap outside or a close button closes it.
#[derive(Debug, Clone)]
pub struct DrawerProps {
    pub style: VariantProps,
    pub open: String,
    pub position: String,
    pub disable_overlay_close: bool,
    pub hide_close_button: bool,
}

/// A modal: its style and variant, the signal that opens it, the action run when
/// it closes, and whether a tap outside or a close button closes it.
#[derive(Debug, Clone)]
pub struct ModalProps {
    pub style: VariantProps,
    pub open: String,
    pub on_close: Option<String>,
    pub disable_overlay_close: bool,
    pub hide_close_button: bool,
}

/// The three regions of an overlay surface: its header, its body and its footer.
#[derive(Debug)]
pub struct OverlayRegions {
    pub header: Vec<DisplayNode>,
    pub body: Vec<DisplayNode>,
    pub footer: Vec<DisplayNode>,
}

/// The parts of a dropdown menu: the nodes that open it, the nodes above and
/// below its entries, and its entries.
#[derive(Debug)]
pub struct DropdownParts {
    pub trigger: Vec<DisplayNode>,
    pub header: Vec<DisplayNode>,
    pub entries: Vec<OverlayEntry>,
    pub footer: Vec<DisplayNode>,
}

/// A view node, with the properties of the components this library draws and
/// the children of its containers.
#[derive(Debug)]
pub enum DisplayNode {
    Tree { props: TreeProps },
    AvatarGroup { props: AvatarGroupProps, items: Vec<AvatarGroupItem> },
    ChatBox { props: ChatBoxProps },
    Empty { props: EmptyProps, icon: SvgIcon },
    TypeWriter { props: TypeWriterProps, items: Vec<TypeWriterItem> },
    Record { props: RecordProps },
    ToggleGroup { props: ToggleGroupProps, items: Vec<ToggleGroupItem>, previous: SvgIcon, next: SvgIcon },
    Camera { props: CameraProps },
    Microphone { props: MicrophoneProps },
    Image { props: ImageProps },
    Countdown { props: CountdownProps },
    MapView { props: MapProps, markers: Vec<MapMarker>, waypoints: Vec<MapWaypoint> },
    Divider { props: DividerProps, color: ColorToken },
    Alert { props: AlertProps },
    Code { props: CodeProps },
    Badge { props: BadgeProps, children: Vec<DisplayNode> },
    Tooltip { props: TooltipProps, children: Vec<DisplayNode> },
    Marquee { props: MarqueeProps, children: Vec<DisplayNode> },
    Collapsible { props: CollapsibleProps, arrow: SvgIcon, children: Vec<DisplayNode> },
    Carousel { props: CarouselProps, slides: Vec<CarouselSlide> },
    Avatar { props: AvatarProps, icon: Option<SvgIcon> },
    Chip { props: ChipProps, value: String, start: Option<SvgIcon>, end: Option<SvgIcon> },
    Skeleton { props: SkeletonProps },
    AlertDialog { props: AlertDialogProps },
    Toast { props: ToastProps },
    Command { props: CommandProps, entries: Vec<CommandEntry> },
    Drawer { props: DrawerProps, regions: OverlayRegions },
    Modal { props: ModalProps, regions: OverlayRegions },
    Dropdown { props: DropdownProps, parts: DropdownParts },
    Splash { binding: String, parts: SplashParts },
    Flex { props: FlexProps, children: Vec<DisplayNode> },
    Grid { props: GridProps, children: Vec<DisplayNode> },
    Brand { props: BrandProps, children: Vec<DisplayNode> },
    Banner { props: BannerProps, children: Vec<DisplayNode> },
    Button { props: ButtonProps, children: Vec<DisplayNode> },
    AppBar { props: BarProps, regions: BarRegions },
    Footer { props: BarProps, regions: BarRegions },
    BottomBar { props: BarProps, tabs: Vec<BottomBarTab> },
    Sidebar { props: SidebarProps, regions: OverlayRegions },
    Card { props: CardProps, children: Vec<DisplayNode> },
    Text { props: TextProps, value: String, segments: Vec<TextSegment>, base: TextTypography },
    Title { props: TextProps, value: String, segments: Vec<TextSegment>, base: TextTypography },
    Other,
}

/// The Compose call of a divider: a box of its color shaped by its modifier.
pub open spec fn divider_text(props: DividerProps, color: ColorToken, indent: usize, flow: ComposeFlow) -> Seq<char> {
    spaces(indent as nat) + "Box(modifier = "@ + style_modifier_text(props.style, divider_base_text(props, flow)) + ".background("@
        + color.reference@ + "))\n"@
}

fn render_divider(props: &DividerProps, color: &ColorToken, indent: usize, output: &mut String, flow: ComposeFlow)
    ensures
        final(output)@ == old(output)@ + divider_text(*props, *color, indent, flow),
{
    let mut line = pad(indent);
    line.append("Box(modifier = ");
    line.append(modifier_for_divider(props, flow).as_str());
    line.append(".background(");
    line.append(crate::style_values::color_ref(color));
    line.append("))\n");
    output.append(line.as_str());
}

/// The visibility condition of a node, from the element of its properties.
pub open spec fn node_show(node: DisplayNode) -> Option<VisibilityCondition> {
    match node {
        DisplayNode::Card { props, .. } => props.style.element.show,
        DisplayNode::Sidebar { props, .. } => props.style.element.show,
        DisplayNode::AppBar { props, .. } => props.style.element.show,
        DisplayNode::Footer { props, .. } => props.style.element.show,
        DisplayNode::BottomBar { props, .. } => props.style.element.show,
        DisplayNode::Button { props, .. } => props.style.element.show,
        DisplayNode::Flex { props, .. } => props.style.element.show,
        DisplayNode::Grid { props, .. } => props.style.element.show,
        DisplayNode::Brand { props, .. } => props.style.element.show,
        DisplayNode::Banner { props, .. } => props.style.element.show,
        DisplayNode::Avatar { props, .. } => props.style.element.show,
        DisplayNode::Chip { props, .. } => props.style.element.show,
        DisplayNode::Skeleton { props, .. } => props.style.element.show,
        DisplayNode::AlertDialog { props, .. } => props.style.element.show,
        DisplayNode::Toast { props, .. } => props.style.element.show,
        DisplayNode::Command { props, .. } => props.style.element.show,
        DisplayNode::Drawer { props, .. } => props.style.element.show,
        DisplayNode::Modal { props, .. } => props.style.element.show,
        DisplayNode::Dropdown { props, .. } => props.style.element.show,
        DisplayNode::Tooltip { props, .. } => props.style.element.show,
        DisplayNode::Tree { props, .. } => props.style.element.show,
        DisplayNode::AvatarGroup { props, .. } => props.style.element.show,
        DisplayNode::ChatBox { props, .. } => props.style.element.show,
        DisplayNode::Empty { props, .. } => props.style.element.show,
        DisplayNode::TypeWriter { props, .. } => props.style.element.show,
        DisplayNode::Record { props, .. } => props.style.element.show,
        DisplayNode::ToggleGroup { props, .. } => props.style.element.show,
        DisplayNode::Camera { props, .. } => props.style.element.show,
        DisplayNode::Microphone { props, .. } => props.style.element.show,
        DisplayNode::Image { props, .. } => props.style.element.show,
        DisplayNode::Countdown { props, .. } => props.style.element.show,
        DisplayNode::MapView { props, .. } => props.style.element.show,
        DisplayNode::Divider { props, .. } => props.style.element.show,
        DisplayNode::Alert { props, .. } => props.style.element.show,
        DisplayNode::Code { props, .. } => props.style.element.show,
        DisplayNode::Badge { props, .. } => props.style.element.show,
        DisplayNode::Marquee { props, .. } => props.style.element.show,
        DisplayNode::Collapsible { props, .. } => props.style.element.show,
        DisplayNode::Carousel { props, .. } => props.style.element.show,
        DisplayNode::Text { props, .. } => props.style.element.show,
        DisplayNode::Title { props, .. } => props.style.element.show,
        DisplayNode::Splash { .. } => None,
        DisplayNode::Other => None,
    }
}

fn display_node_show(node: &DisplayNode) -> (res: Option<&VisibilityCondition>)
    ensures
        opt_ref(res) == node_show(*node),
{
    match node {
        DisplayNode::Card { props, .. } => props.style.element.show.as_ref(),
        DisplayNode::Sidebar { props, .. } => props.style.element.show.as_ref(),
        DisplayNode::AppBar { props, .. } => props.style.element.show.as_ref(),
        DisplayNode::Footer { props, .. } => props.style.element.show.as_ref(),
        DisplayNode::BottomBar { props, .. } => props.style.element.show.as_ref(),
        DisplayNode::Button { props, .. } => props.style.element.show.as_ref(),
        DisplayNode::Flex { props, .. } => props.style.element.show.as_ref(),
        DisplayNode::Grid { props, .. } => props.style.element.show.as_ref(),
        DisplayNode::Brand { props, .. } => props.style.element.show.as_ref(),
        DisplayNode::Banner { props, .. } => props.style.element.show.as_ref(),
        DisplayNode::Avatar { props, .. } => props.style.element.show.as_ref(),
        DisplayNode::Chip { props, .. } => props.style.element.show.as_ref(),
        DisplayNode::Skeleton { props, .. } => props.style.element.show.as_ref(),
        DisplayNode::AlertDialog { props, .. } => props.style.element.show.as_ref(),
        DisplayNode::Toast { props, .. } => props.style.element.show.as_ref(),
        DisplayNode::Command { props, .. } => props.style.element.show.as_ref(),
        DisplayNode::Drawer { props, .. } => props.style.element.show.as_ref(),
        DisplayNode::Modal { props, .. } => props.style.element.show.as_ref(),
        DisplayNode::Dropdown { props, .. } => props.style.element.show.as_ref(),
        DisplayNode::Tooltip { props, .. } => props.style.element.show.as_ref(),
        DisplayNode::Tree { props, .. } => props.style.element.show.as_ref(),
        DisplayNode::AvatarGroup { props, .. } => props.style.element.show.as_ref(),
        DisplayNode::ChatBox { props, .. } => props.style.element.show.as_ref(),
        DisplayNode::Empty { props, .. } => props.style.element.show.as_ref(),
        DisplayNode::TypeWriter { props, .. } => props.style.element.show.as_ref(),
        DisplayNode::Record { props, .. } => props.style.element.show.as_ref(),
        DisplayNode::ToggleGroup { props, .. } => props.style.element.show.as_ref(),
        DisplayNode::Camera { props, .. } => props.style.element.show.as_ref(),
        DisplayNode::Microphone { props, .. } => props.style.element.show.as_ref(),
        DisplayNode::Image { props, .. } => props.style.element.show.as_ref(),
        DisplayNode::Countdown { props, .. } => props.style.element.show.as_ref(),
        DisplayNode::MapView { props, .. } => props.style.element.show.as_ref(),
        DisplayNode::Divider { props, .. } => props.style.element.show.as_ref(),
        DisplayNode::Alert { props, .. } => props.style.element.show.as_ref(),
        DisplayNode::Code { props, .. } => props.style.element.show.as_ref(),
        DisplayNode::Badge { props, .. } => props.style.element.show.as_ref(),
        DisplayNode::Marquee { props, .. } => props.style.element.show.as_ref(),
        DisplayNode::Collapsible { props, .. } => props.style.element.show.as_ref(),
        DisplayNode::Carousel { props, .. } => props.style.element.show.as_ref(),
        DisplayNode::Text { props, .. } => props.style.element.show.as_ref(),
        DisplayNode::Title { props, .. } => props.style.element.show.as_ref(),
        DisplayNode::Splash { .. } => None,
        DisplayNode::Other => None,
    }
}

/// The number of nodes of a tree.
pub open spec fn node_size(node: DisplayNode) -> nat
    decreases node,
{
    1 + match node {
        DisplayNode::Badge { children, .. } => nodes_size(children@),
        DisplayNode::Tooltip { children, .. } => nodes_size(children@),
        DisplayNode::Marquee { children, .. } => nodes_size(children@),
        DisplayNode::Collapsible { children, .. } => nodes_size(children@),
        DisplayNode::Carousel { slides, .. } => slides_size(slides@),
        DisplayNode::Drawer { regions, .. } => nodes_size(regions.header@) + nodes_size(regions.body@) + nodes_size(regions.footer@),
        DisplayNode::Modal { regions, .. } => nodes_size(regions.header@) + nodes_size(regions.body@) + nodes_size(regions.footer@),
        DisplayNode::Dropdown { parts, .. } => nodes_size(parts.trigger@) + nodes_size(parts.header@) + nodes_size(parts.footer@),
        DisplayNode::Splash { parts, .. } => nodes_size(parts.children@) + nodes_size(parts.content@),
        DisplayNode::Flex { children, .. } => nodes_size(children@),
        DisplayNode::Grid { children, .. } => nodes_size(children@),
        DisplayNode::Brand { children, .. } => nodes_size(children@),
        DisplayNode::Banner { children, .. } => nodes_size(children@),
        DisplayNode::Card { children, .. } => nodes_size(children@),
        DisplayNode::Button { children, .. } => 1 + nodes_size(children@),
        DisplayNode::AppBar { regions, .. } => 1 + bar_regions_size(regions),
        DisplayNode::Footer { regions, .. } => 1 + bar_regions_size(regions),
        DisplayNode::Sidebar { regions, .. } => nodes_size(regions.header@) + nodes_size(regions.body@) + nodes_size(regions.footer@),
        _ => 0,
    }
}

/// The number of nodes of a sequence of trees.
pub open spec fn nodes_size(nodes: Seq<DisplayNode>) -> nat
    decreases nodes,
{
    if nodes.len() == 0 {
        0
    } else {
        nodes_size(nodes.drop_last()) + node_size(nodes.last())
    }
}

/// The number of nodes in the regions of a bar.
pub open spec fn bar_regions_size(regions: BarRegions) -> nat
    decreases regions,
{
    nodes_size(regions.top@) + nodes_size(regions.start@) + nodes_size(regions.center@) + nodes_size(regions.end@)
        + nodes_size(regions.bottom@)
}

/// The number of nodes of the slides of a carousel.
pub open spec fn slides_size(slides: Seq<CarouselSlide>) -> nat
    decreases slides,
{
    if slides.len() == 0 {
        0
    } else {
        slides_size(slides.drop_last()) + nodes_size(slides.last().children@)
    }
}

/// Whether every pagination in a tree has a positive page size.
pub open spec fn node_valid(node: DisplayNode) -> bool
    decreases node,
{
    match node {
        DisplayNode::ToggleGroup { props, .. } => pagination_valid(props),
        DisplayNode::Badge { children, .. } => nodes_valid(children@),
        DisplayNode::Tooltip { children, .. } => nodes_valid(children@),
        DisplayNode::Marquee { children, .. } => nodes_valid(children@),
        DisplayNode::Collapsible { children, .. } => nodes_valid(children@),
        DisplayNode::Carousel { slides, .. } => slides_valid(slides@),
        DisplayNode::Drawer { regions, .. } => nodes_valid(regions.header@) && nodes_valid(regions.body@) && nodes_valid(regions.footer@),
        DisplayNode::Modal { regions, .. } => nodes_valid(regions.header@) && nodes_valid(regions.body@) && nodes_valid(regions.footer@),
        DisplayNode::Dropdown { parts, .. } => nodes_valid(parts.trigger@) && nodes_valid(parts.header@) && nodes_valid(parts.footer@),
        DisplayNode::Splash { parts, .. } => nodes_valid(parts.children@) && nodes_valid(parts.content@),
        DisplayNode::Flex { children, .. } => nodes_valid(children@),
        DisplayNode::Grid { children, .. } => nodes_valid(children@),
        DisplayNode::Brand { children, .. } => nodes_valid(children@),
        DisplayNode::Banner { children, .. } => nodes_valid(children@),
        DisplayNode::Card { children, .. } => nodes_valid(children@),
        DisplayNode::Button { children, .. } => nodes_valid(children@),
        DisplayNode::AppBar { regions, .. } => bar_regions_valid(regions),
        DisplayNode::Footer { regions, .. } => bar_regions_valid(regions),
        DisplayNode::Sidebar { regions, .. } => nodes_valid(regions.header@) && nodes_valid(regions.body@) && nodes_valid(regions.footer@),
        _ => true,
    }
}

/// Whether every pagination in a sequence of trees has a positive page size.
pub open spec fn nodes_valid(nodes: Seq<DisplayNode>) -> bool
    decreases nodes,
{
    if nodes.len() == 0 {
        true
    } else {
        nodes_valid(nodes.drop_last()) && node_valid(nodes.last())
    }
}

/// Whether every pagination in the regions of a bar has a positive page size.
pub open spec fn bar_regions_valid(regions: BarRegions) -> bool
    decreases regions,
{
    nodes_valid(regions.top@) && nodes_valid(regions.start@) && nodes_valid(regions.center@) && nodes_valid(regions.end@)
        && nodes_valid(regions.bottom@)
}

/// Whether every pagination in the slides of a carousel has a positive page size.
pub open spec fn slides_valid(slides: Seq<CarouselSlide>) -> bool
    decreases slides,
{
    if slides.len() == 0 {
        true
    } else {
        slides_valid(slides.drop_last()) && nodes_valid(slides.last().children@)
    }
}

/// A tree of nodes fits the indentation: each level adds at most 16 columns.
pub open spec fn node_fits(node: DisplayNode, indent: usize) -> bool {
    indent + 16 * node_size(node) <= usize::MAX
}

proof fn lemma_nodes_element(nodes: Seq<DisplayNode>, i: int)
    requires
        0 <= i < nodes.len(),
    ensures
        node_size(nodes[i]) <= nodes_size(nodes),
        nodes_valid(nodes) ==> node_valid(nodes[i]),
    decreases nodes.len(),
{
    if i < nodes.len() - 1 {
        assert(nodes.drop_last()[i] == nodes[i]);
        lemma_nodes_element(nodes.drop_last(), i);
    }
}

proof fn lemma_slides_element(slides: Seq<CarouselSlide>, i: int)
    requires
        0 <= i < slides.len(),
    ensures
        nodes_size(slides[i].children@) <= slides_size(slides),
        slides_valid(slides) ==> nodes_valid(slides[i].children@),
    decreases slides.len(),
{
    if i < slides.len() - 1 {
        assert(slides.drop_last()[i] == slides[i]);
        lemma_slides_element(slides.drop_last(), i);
    }
}

/// The font a container hands its children: its own, else the inherited one.
pub open spec fn font_or(own: Option<ResponsiveValue<FontFamily>>, inherited: Option<ResponsiveValue<FontFamily>>) -> Option<ResponsiveValue<FontFamily>> {
    match own {
        Some(f) => Some(f),
        None => inherited,
    }
}

/// The border color of a drawer: its card content color when outlined, else none.
pub open spec fn drawer_border_text(style: VariantProps) -> Seq<char> {
    let variant = match style.variant {
        Some(v) => v,
        None => ComponentVariant::Solid,
    };
    if variant == ComponentVariant::Outlined {
        style.card_content@
    } else {
        "null"@
    }
}

fn compose_drawer_border(style: &VariantProps) -> (res: &str)
    ensures
        res@ == drawer_border_text(*style),
{
    let variant = match style.variant {
        Some(v) => v,
        None => ComponentVariant::Solid,
    };
    if variant == ComponentVariant::Outlined {
        style.card_content.as_str()
    } else {
        "null"
    }
}

/// The navigation handlers inside a drawer: each closes the drawer at `path`
/// before it navigates, goes back or opens an external address.
#[verifier::opaque]
pub open spec fn drawer_navigation_text(indent: usize, path: Seq<char>) -> Seq<char> {
    let pad = spaces(indent as nat);
    pad + "    val doweDrawerNavigate = navigate\n"@ + pad
        + "    val navigate: (String, String, String?) -> Unit = { operation, target, fragment ->\n"@ + pad
        + "        state.write(\""@ + path + "\", false)\n"@ + pad + "        doweDrawerNavigate(operation, target, fragment)\n"@
        + pad + "    }\n"@ + pad + "    val doweDrawerGoBack = goBack\n"@ + pad + "    val goBack: () -> Unit = {\n"@ + pad
        + "        state.write(\""@ + path + "\", false)\n"@ + pad + "        doweDrawerGoBack()\n"@ + pad + "    }\n"@ + pad
        + "    val doweDrawerOpenExternal = openExternal\n"@ + pad
        + "    val openExternal: (String, String) -> Unit = { mode, target ->\n"@ + pad + "        state.write(\""@ + path
        + "\", false)\n"@ + pad + "        doweDrawerOpenExternal(mode, target)\n"@ + pad + "    }\n"@
}

fn drawer_navigation(indent: usize, path: &str) -> (res: String)
    ensures
        res@ == drawer_navigation_text(indent, path@),
{
    reveal(drawer_navigation_text);
    let p = pad(indent);
    let mut out = pad(indent);
    out.append("    val doweDrawerNavigate = navigate\n");
    out.append(p.as_str());
    out.append("    val navigate: (String, String, String?) -> Unit = { operation, target, fragment ->\n");
    out.append(p.as_str());
    out.append("        state.write(\"");
    out.append(path);
    out.append("\", false)\n");
    out.append(p.as_str());
    out.append("        doweDrawerNavigate(operation, target, fragment)\n");
    out.append(p.as_str());
    out.append("    }\n");
    out.append(p.as_str());
    out.append("    val doweDrawerGoBack = goBack\n");
    out.append(p.as_str());
    out.append("    val goBack: () -> Unit = {\n");
    out.append(p.as_str());
    out.append("        state.write(\"");
    out.append(path);
    out.append("\", false)\n");
    out.append(p.as_str());
    out.append("        doweDrawerGoBack()\n");
    out.append(p.as_str());
    out.append("    }\n");
    out.append(p.as_str());
    out.append("    val doweDrawerOpenExternal = openExternal\n");
    out.append(p.as_str());
    out.append("    val openExternal: (String, String) -> Unit = { mode, target ->\n");
    out.append(p.as_str());
    out.append("        state.write(\"");
    out.append(path);
    out.append("\", false)\n");
    out.append(p.as_str());
    out.append("        doweDrawerOpenExternal(mode, target)\n");
    out.append(p.as_str());
    out.append("    }\n");
    out
}

/// The Compose code of the entries of a dropdown menu, one after the other.
pub open spec fn overlay_entries_text(entries: Seq<OverlayEntry>, indent: usize, props: DropdownProps, context: ComposeReactiveContext) -> Seq<char>
    decreases entries.len(),
{
    if entries.len() == 0 {
        Seq::empty()
    } else {
        overlay_entries_text(entries.drop_last(), indent, props, context) + overlay_entry_text(entries.last(), indent, props, context)
    }
}

/// The provider of a container's text color that opens around its children, at the given depth.
pub open spec fn color_scope_open_text(style: StyleProps, pad: Seq<char>) -> Seq<char> {
    match content_color_text(style) {
        Some(color) => pad + "CompositionLocalProvider(LocalContentColor provides ("@ + color
            + " ?: LocalContentColor.current)) {\n"@,
        None => Seq::empty(),
    }
}

/// The end of the provider of a container's text color, at the given depth.
pub open spec fn color_scope_close_text(style: StyleProps, pad: Seq<char>) -> Seq<char> {
    if content_color_text(style) is Some {
        pad + "}\n"@
    } else {
        Seq::empty()
    }
}

/// The clickable and labelled modifiers of a brand or a banner.
#[verifier::opaque]
pub open spec fn link_modifier_text(navigation: Option<NavigationAction>, label: Option<String>) -> Seq<char> {
    (match navigation {
        Some(_) => ".clickable(onClick = "@ + navigation_action_text(navigation) + ")"@,
        None => Seq::empty(),
    }) + (match label {
        Some(l) => ".semantics { contentDescription = \""@ + kotlin_escaped(l@) + "\" }"@,
        None => Seq::empty(),
    })
}

fn link_modifier(navigation: Option<&NavigationAction>, label: Option<&String>) -> (res: String)
    ensures
        res@ == link_modifier_text(opt_ref(navigation), opt_ref(label)),
{
    reveal(link_modifier_text);
    let mut out = String::new();
    match navigation {
        Some(_) => {
            out.append(".clickable(onClick = ");
            out.append(compose_navigation_action(navigation).as_str());
            out.append(")");
        },
        None => {},
    }
    let ghost first = out@;
    match label {
        Some(l) => {
            out.append(".semantics { contentDescription = \"");
            out.append(escape_kotlin(l.as_str()).as_str());
            out.append("\" }");
        },
        None => {
            assert(out@ =~= first + Seq::<char>::empty());
        },
    }
    out
}

/// The Kotlin expression of a cover picture.
#[verifier::opaque]
pub open spec fn cover_value_text(value: ResponsiveValue<CoverSource>) -> Seq<char> {
    responsive_text(value, |c: CoverSource| "\""@ + kotlin_escaped(c.0@) + "\""@)
}

fn cover_expr(value: &CoverSource) -> (res: String)
    ensures
        res@ == "\""@ + kotlin_escaped(value.0@) + "\""@,
{
    compose_string_literal(value.0.as_str())
}

/// The Kotlin expression of a cover picture.
pub fn compose_cover_value(value: &ResponsiveValue<CoverSource>) -> (res: String)
    ensures
        res@ == cover_value_text(*value),
{
    reveal(cover_value_text);
    compose_responsive_value(value, cover_expr, Ghost(|c: CoverSource| "\""@ + kotlin_escaped(c.0@) + "\""@))
}

/// The Kotlin expression of the paint over a cover picture.
pub open spec fn overlay_expr_text(value: OverlayPaint) -> Seq<char> {
    match value {
        OverlayPaint::BlackOpacity(n) => "DoweOverlay.Solid(Color.Black.copy(alpha = "@ + n.digits@ + "f))"@,
        OverlayPaint::Color(c) => "DoweOverlay.Solid("@ + c.reference@ + ")"@,
    }
}

fn compose_overlay_expr(value: &OverlayPaint) -> (res: String)
    ensures
        res@ == overlay_expr_text(*value),
{
    match value {
        OverlayPaint::BlackOpacity(n) => {
            let mut out = String::from_str("DoweOverlay.Solid(Color.Black.copy(alpha = ");
            out.append(n.digits.as_str());
            out.append("f))");
            out
        },
        OverlayPaint::Color(c) => {
            let mut out = String::from_str("DoweOverlay.Solid(");
            out.append(c.reference.as_str());
            out.append(")");
            out
        },
    }
}

/// The Kotlin expression of the paint over a cover picture, `null` without one.
#[verifier::opaque]
pub open spec fn optional_overlay_text(value: Option<ResponsiveValue<OverlayPaint>>) -> Seq<char> {
    optional_text(value, |v: ResponsiveValue<OverlayPaint>| responsive_text(v, |p: OverlayPaint| overlay_expr_text(p)))
}

/// The Kotlin expression of the paint over a cover picture, `null` without one.
pub fn compose_optional_overlay(value: Option<&ResponsiveValue<OverlayPaint>>) -> (res: String)
    ensures
        res@ == optional_overlay_text(opt_ref(value)),
{
    reveal(optional_overlay_text);
    match value {
        Some(v) => compose_responsive_value(v, compose_overlay_expr, Ghost(|p: OverlayPaint| overlay_expr_text(p))),
        None => String::from_str("null"),
    }
}

/// The modifier chain of a flex layout: that of a container.
pub fn modifier_for_layout(props: &FlexProps, flow: ComposeFlow) -> (res: String)
    ensures
        res@ == container_modifier_text(props.style, flow),
{
    modifier_for_container_style(&props.style, flow)
}

/// The modifier chain of a grid: that of a container.
pub fn modifier_for_grid(props: &GridProps, flow: ComposeFlow) -> (res: String)
    ensures
        res@ == container_modifier_text(props.style, flow),
{
    modifier_for_container_style(&props.style, flow)
}

/// The opening line of a column of a flex layout.
#[verifier::opaque]
pub open spec fn flex_column_line(props: FlexProps, indent: usize, flow: ComposeFlow) -> Seq<char> {
    spaces(indent as nat) + "if ("@ + flex_direction_value_text(props.direction) + " == DoweFlexDirection.Column) {\n"@
        + spaces(indent as nat) + "    Column(modifier = "@ + container_modifier_text(props.style, flow) + ", verticalArrangement = "@
        + arrangement_text("doweVerticalArrangement("@, props.justify, props.gap) + ", horizontalAlignment = "@
        + "doweHorizontalAlignment("@ + opt_align_text(props.align) + ")"@ + ") {\n"@
}

#[verifier::spinoff_prover]
#[verifier::rlimit(60)]
fn flex_column(props: &FlexProps, indent: usize, flow: ComposeFlow) -> (res: String)
    ensures
        res@ == flex_column_line(*props, indent, flow),
{
    reveal(flex_column_line);
    let mut out = pad(indent);
    out.append("if (");
    out.append(compose_flex_direction_value(&props.direction).as_str());
    out.append(" == DoweFlexDirection.Column) {\n");
    out.append(pad(indent).as_str());
    out.append("    Column(modifier = ");
    out.append(modifier_for_layout(props, flow).as_str());
    out.append(", verticalArrangement = ");
    out.append(compose_vertical_arrangement(props.justify.as_ref(), props.gap.as_ref()).as_str());
    out.append(", horizontalAlignment = ");
    out.append(compose_horizontal_alignment(props.align.as_ref()).as_str());
    out.append(") {\n");
    out
}

/// The opening line of the wrapping row of a flex layout.
#[verifier::opaque]
pub open spec fn flow_row_line(props: FlexProps, indent: usize, flow: ComposeFlow) -> Seq<char> {
    spaces(indent as nat) + "    FlowRow(modifier = "@ + container_modifier_text(props.style, flow) + ", horizontalArrangement = "@
        + arrangement_text("doweHorizontalArrangement("@, props.justify, props.gap)
        + ", verticalArrangement = Arrangement.spacedBy("@ + grid_vertical_gap_text(props.gap) + "), itemVerticalAlignment = "@
        + "doweVerticalAlignment("@ + opt_align_text(props.align) + ")"@ + ") {\n"@
}

/// The opening line of the plain row of a flex layout.
#[verifier::opaque]
pub open spec fn plain_row_line(props: FlexProps, indent: usize, flow: ComposeFlow) -> Seq<char> {
    spaces(indent as nat) + "    Row(modifier = "@ + container_modifier_text(props.style, flow) + ", horizontalArrangement = "@
        + arrangement_text("doweHorizontalArrangement("@, props.justify, props.gap) + ", verticalAlignment = "@
        + "doweVerticalAlignment("@ + opt_align_text(props.align) + ")"@ + ") {\n"@
}

/// The opening line of the row of a flex layout: a wrapping row or a plain one.
pub open spec fn flex_row_line(props: FlexProps, indent: usize, flow: ComposeFlow) -> Seq<char> {
    spaces(indent as nat) + "} else {\n"@ + (if props.wrap {
        flow_row_line(props, indent, flow)
    } else {
        plain_row_line(props, indent, flow)
    })
}

fn flow_row(props: &FlexProps, indent: usize, flow: ComposeFlow) -> (res: String)
    ensures
        res@ == flow_row_line(*props, indent, flow),
{
    reveal(flow_row_line);
    let mut out = pad(indent);
    out.append("    FlowRow(modifier = ");
    out.append(modifier_for_layout(props, flow).as_str());
    out.append(", horizontalArrangement = ");
    out.append(compose_horizontal_arrangement(props.justify.as_ref(), props.gap.as_ref()).as_str());
    out.append(", verticalArrangement = Arrangement.spacedBy(");
    out.append(compose_grid_vertical_gap(props.gap.as_ref()).as_str());
    out.append("), itemVerticalAlignment = ");
    out.append(compose_vertical_alignment(props.align.as_ref()).as_str());
    out.append(") {\n");
    out
}

fn plain_row(props: &FlexProps, indent: usize, flow: ComposeFlow) -> (res: String)
    ensures
        res@ == plain_row_line(*props, indent, flow),
{
    reveal(plain_row_line);
    let mut out = pad(indent);
    out.append("    Row(modifier = ");
    out.append(modifier_for_layout(props, flow).as_str());
    out.append(", horizontalArrangement = ");
    out.append(compose_horizontal_arrangement(props.justify.as_ref(), props.gap.as_ref()).as_str());
    out.append(", verticalAlignment = ");
    out.append(compose_vertical_alignment(props.align.as_ref()).as_str());
    out.append(") {\n");
    out
}

fn flex_row(props: &FlexProps, indent: usize, flow: ComposeFlow) -> (res: String)
    ensures
        res@ == flex_row_line(*props, indent, flow),
{
    let mut out = pad(indent);
    out.append("} else {\n");
    if props.wrap {
        out.append(flow_row(props, indent, flow).as_str());
    } else {
        out.append(plain_row(props, indent, flow).as_str());
    }
    out
}

/// The opening line of a grid.
#[verifier::opaque]
pub open spec fn grid_line(props: GridProps, indent: usize, flow: ComposeFlow) -> Seq<char> {
    spaces(indent as nat) + "DoweGrid(modifier = "@ + container_modifier_text(props.style, flow) + ", tracks = "@
        + grid_tracks_text(props.columns) + ", horizontalGap = "@ + grid_horizontal_gap_text(props.gap) + ", verticalGap = "@
        + grid_vertical_gap_text(props.gap) + ", horizontalAlignment = "@ + "doweGridHorizontalAlignment("@
        + opt_grid_alignment_text(props.justify) + ")"@ + ", verticalAlignment = "@ + "doweGridVerticalAlignment("@
        + opt_grid_alignment_text(props.align) + ")"@ + ", horizontalStretch = "@ + "doweGridHorizontalStretch("@
        + opt_grid_alignment_text(props.justify) + ")"@ + ", fillHeight = "@ + grid_fills_height_text(props.style)
        + ", verticalStretch = "@ + grid_vertical_stretch_text(props.align) + ") {\n"@
}

#[verifier::spinoff_prover]
#[verifier::rlimit(60)]
fn grid_open(props: &GridProps, indent: usize, flow: ComposeFlow) -> (res: String)
    ensures
        res@ == grid_line(*props, indent, flow),
{
    reveal(grid_line);
    let mut out = pad(indent);
    out.append("DoweGrid(modifier = ");
    out.append(modifier_for_grid(props, flow).as_str());
    out.append(", tracks = ");
    out.append(compose_grid_tracks(props.columns.as_ref()).as_str());
    out.append(", horizontalGap = ");
    out.append(compose_grid_horizontal_gap(props.gap.as_ref()).as_str());
    out.append(", verticalGap = ");
    out.append(compose_grid_vertical_gap(props.gap.as_ref()).as_str());
    out.append(", horizontalAlignment = ");
    out.append(compose_grid_horizontal_alignment(props.justify.as_ref()).as_str());
    out.append(", verticalAlignment = ");
    out.append(compose_grid_vertical_alignment(props.align.as_ref()).as_str());
    out.append(", horizontalStretch = ");
    out.append(compose_grid_horizontal_stretch(props.justify.as_ref()).as_str());
    out.append(", fillHeight = ");
    out.append(compose_grid_fills_height(&props.style).as_str());
    out.append(", verticalStretch = ");
    out.append(compose_grid_vertical_stretch(props.align.as_ref()).as_str());
    out.append(") {\n");
    out
}

/// Whether a node is a layout node: a splash, a flex layout, a grid, a card, a brand or a banner.
pub open spec fn is_structural(node: DisplayNode) -> bool {
    node is Splash || node is Flex || node is Grid || node is Brand || node is Banner || node is Card
}

/// An icon at the given depth, nothing without one.
pub open spec fn opt_icon_line(icon: Option<SvgIcon>, indent: usize) -> Seq<char> {
    match icon {
        Some(i) => side_icon_line(i, indent),
        None => Seq::empty(),
    }
}

fn render_opt_icon(icon: Option<&SvgIcon>, indent: usize, output: &mut String)
    ensures
        final(output)@ == old(output)@ + opt_icon_line(opt_ref(icon), indent),
{
    match icon {
        Some(i) => render_compose_side_icon(i, indent, output),
        None => {
            assert(output@ =~= output@ + Seq::<char>::empty());
        },
    }
}

/// An icon of a button shown under a condition where it has one, at the given depth.
pub open spec fn conditional_icon_text(icon: SvgIcon, when: Option<String>, comparison: Option<crate::button::NumberComparison>, indent: usize, context: ComposeReactiveContext) -> Seq<char> {
    match when {
        Some(w) => spaces(indent as nat) + "if ("@ + icon_condition_text(context, w@, comparison) + ") {\n"@
            + side_icon_line(icon, (indent + 4) as usize) + spaces(indent as nat) + "}\n"@,
        None => side_icon_line(icon, indent),
    }
}

fn render_conditional_icon(
    icon: &SvgIcon,
    when: &Option<String>,
    comparison: Option<&crate::button::NumberComparison>,
    indent: usize,
    output: &mut String,
    context: &ComposeReactiveContext,
)
    requires
        indent + 4 <= usize::MAX,
        item_paths_complete(*context),
    ensures
        final(output)@ == old(output)@ + conditional_icon_text(*icon, *when, opt_ref(comparison), indent, *context),
{
    reveal(item_paths_complete);
    match when {
        Some(w) => {
            let mut out = pad(indent);
            out.append("if (");
            out.append(compose_icon_condition(context, w.as_str(), comparison).as_str());
            out.append(") {\n");
            render_compose_side_icon(icon, indent + 4, &mut out);
            out.append(pad(indent).as_str());
            out.append("}\n");
            output.append(out.as_str());
        },
        None => render_compose_side_icon(icon, indent, output),
    }
}

/// What a button shows before its children: the icons of the signal it toggles,
/// else its start icon.
#[verifier::opaque]
pub open spec fn button_lead_text(props: ButtonProps, indent: usize, context: ComposeReactiveContext) -> Seq<char> {
    match props.swap_bind {
        Some(p) => spaces(indent as nat) + "if (state.bool(\""@ + kotlin_escaped(signal_path_text(context, p@)) + "\")) {\n"@
            + opt_icon_line(props.icon_start, (indent + 4) as usize) + spaces(indent as nat) + "} else {\n"@
            + opt_icon_line(props.swap_icon_off, (indent + 4) as usize) + spaces(indent as nat) + "}\n"@,
        None => match props.icon_start {
            Some(i) => conditional_icon_text(i, props.reactive.icon_start_when, props.reactive.icon_start_comparison, indent, context),
            None => Seq::empty(),
        },
    }
}

fn render_button_lead(props: &ButtonProps, indent: usize, output: &mut String, context: &ComposeReactiveContext)
    requires
        indent + 4 <= usize::MAX,
        item_paths_complete(*context),
    ensures
        final(output)@ == old(output)@ + button_lead_text(*props, indent, *context),
{
    reveal(button_lead_text);
    match &props.swap_bind {
        Some(p) => {
            let mut out = pad(indent);
            out.append("if (state.bool(\"");
            out.append(escape_kotlin(context.signal_path(p.as_str()).as_str()).as_str());
            out.append("\")) {\n");
            render_opt_icon(props.icon_start.as_ref(), indent + 4, &mut out);
            out.append(pad(indent).as_str());
            out.append("} else {\n");
            render_opt_icon(props.swap_icon_off.as_ref(), indent + 4, &mut out);
            out.append(pad(indent).as_str());
            out.append("}\n");
            output.append(out.as_str());
        },
        None => match &props.icon_start {
            Some(i) => render_conditional_icon(i, &props.reactive.icon_start_when, props.reactive.icon_start_comparison.as_ref(), indent, output, context),
            None => {
                assert(output@ =~= output@ + Seq::<char>::empty());
            },
        },
    }
}

/// What a button shows after its children: its end icon.
#[verifier::opaque]
pub open spec fn button_trail_text(props: ButtonProps, indent: usize, context: ComposeReactiveContext) -> Seq<char> {
    match props.icon_end {
        Some(i) => conditional_icon_text(i, props.reactive.icon_end_when, props.reactive.icon_end_comparison, indent, context),
        None => Seq::empty(),
    }
}

fn render_button_trail(props: &ButtonProps, indent: usize, output: &mut String, context: &ComposeReactiveContext)
    requires
        indent + 4 <= usize::MAX,
        item_paths_complete(*context),
    ensures
        final(output)@ == old(output)@ + button_trail_text(*props, indent, *context),
{
    reveal(button_trail_text);
    match &props.icon_end {
        Some(i) => render_conditional_icon(i, &props.reactive.icon_end_when, props.reactive.icon_end_comparison.as_ref(), indent, output, context),
        None => {
            assert(output@ =~= output@ + Seq::<char>::empty());
        },
    }
}

/// The border of a card: none where its style draws one, else a line in its
/// content color when it is outlined.
pub open spec fn card_border_text(props: VariantProps) -> Seq<char> {
    if props.style.border is Some {
        "null"@
    } else if props.variant == Some(ComponentVariant::Outlined) {
        "BorderStroke(1.dp, "@ + props.content@ + ")"@
    } else {
        "null"@
    }
}

/// The border of a card.
pub fn compose_card_border(props: &VariantProps) -> (res: String)
    ensures
        res@ == card_border_text(*props),
{
    if props.style.border.is_some() {
        String::from_str("null")
    } else if props.variant == Some(ComponentVariant::Outlined) {
        let mut out = String::from_str("BorderStroke(1.dp, ");
        out.append(props.content.as_str());
        out.append(")");
        out
    } else {
        String::from_str("null")
    }
}

/// The state text a binding of a card reads, written with escaped quotes: from
/// the current row inside a repeated view, else from its signal with the given fallback.
pub open spec fn card_reactive_text(ctx: ComposeReactiveContext, path: Seq<char>, fallback: Seq<char>) -> Seq<char> {
    match crate::context::lookup(ctx.item_values@, path) {
        Some(item) => "state.text(\\\""@ + kotlin_escaped(crate::context::lookup(ctx.item_paths@, path).unwrap()) + "\\\", "@ + item
            + ")"@,
        None => "state.text(\\\""@ + kotlin_escaped(signal_path_text(ctx, path)) + "\\\", \\\""@ + fallback + "\\\")"@,
    }
}

fn compose_card_reactive_text(context: &ComposeReactiveContext, path: &str, fallback: &str) -> (res: String)
    requires
        item_path_known(*context, path@),
    ensures
        res@ == card_reactive_text(*context, path@, fallback@),
{
    let mut out = String::from_str("state.text(\\\"");
    match context.item_value(path) {
        Some(item) => {
            match context.item_path(path) {
                Some(p) => push_kotlin_escaped(&mut out, p.as_str()),
                None => {},
            }
            out.append("\\\", ");
            out.append(item.as_str());
            out.append(")");
        },
        None => {
            push_kotlin_escaped(&mut out, context.signal_path(path).as_str());
            out.append("\\\", \\\"");
            out.append(fallback);
            out.append("\\\")");
        },
    }
    out
}

/// The variant of a card: read from its signal, else its name, written with escaped quotes.
pub open spec fn card_variant_value(ctx: ComposeReactiveContext, props: CardProps) -> Seq<char> {
    match props.variant_binding {
        Some(p) => card_reactive_text(ctx, p@, "solid"@),
        None => "\\\""@ + variant_name(match props.style.variant {
            Some(v) => v,
            None => ComponentVariant::Solid,
        }) + "\\\""@,
    }
}

/// The color family of a card: read from its signal, else its name (primary by
/// default), written with escaped quotes.
pub open spec fn card_scheme_value(ctx: ComposeReactiveContext, props: CardProps) -> Seq<char> {
    match props.scheme_binding {
        Some(p) => card_reactive_text(ctx, p@, "primary"@),
        None => "\\\""@ + (match props.color {
            Some(c) => c@,
            None => "primary"@,
        }) + "\\\""@,
    }
}

fn compose_card_variant_value(props: &CardProps, context: &ComposeReactiveContext) -> (res: String)
    requires
        item_paths_complete(*context),
    ensures
        res@ == card_variant_value(*context, *props),
{
    reveal(item_paths_complete);
    match &props.variant_binding {
        Some(p) => compose_card_reactive_text(context, p.as_str(), "solid"),
        None => {
            let variant = match props.style.variant {
                Some(v) => v,
                None => ComponentVariant::Solid,
            };
            let mut out = String::from_str("\\\"");
            out.append(compose_variant_name(variant));
            out.append("\\\"");
            out
        },
    }
}

fn compose_card_scheme_value(props: &CardProps, context: &ComposeReactiveContext) -> (res: String)
    requires
        item_paths_complete(*context),
    ensures
        res@ == card_scheme_value(*context, *props),
{
    reveal(item_paths_complete);
    match &props.scheme_binding {
        Some(p) => compose_card_reactive_text(context, p.as_str(), "primary"),
        None => {
            let mut out = String::from_str("\\\"");
            match &props.color {
                Some(c) => out.append(c.as_str()),
                None => out.append("primary"),
            }
            out.append("\\\"");
            out
        },
    }
}

/// A color of a card: its text color where it has one, else the reactive color
/// by the given name where a signal drives its look, else the given color of its surface.
pub open spec fn card_color_text(ctx: ComposeReactiveContext, props: CardProps, name: Seq<char>, surface: Seq<char>) -> Seq<char> {
    match props.style.style.text {
        Some(t) => color_value_text(t),
        None => if props.variant_binding is Some || props.scheme_binding is Some {
            name + "("@ + card_variant_value(ctx, props) + ", "@ + card_scheme_value(ctx, props) + ")"@
        } else {
            surface
        },
    }
}

fn compose_card_color(props: &CardProps, context: &ComposeReactiveContext, name: &str, surface: &str) -> (res: String)
    requires
        item_paths_complete(*context),
    ensures
        res@ == card_color_text(*context, *props, name@, surface@),
{
    match &props.style.style.text {
        Some(t) => compose_color_value(t),
        None => if props.variant_binding.is_some() || props.scheme_binding.is_some() {
            let mut out = String::from_str(name);
            out.append("(");
            out.append(compose_card_variant_value(props, context).as_str());
            out.append(", ");
            out.append(compose_card_scheme_value(props, context).as_str());
            out.append(")");
            out
        } else {
            String::from_str(surface)
        },
    }
}

/// The container color of a card.
pub open spec fn card_container_text(ctx: ComposeReactiveContext, props: CardProps) -> Seq<char> {
    if props.variant_binding is Some || props.scheme_binding is Some {
        "doweCardContainer("@ + card_variant_value(ctx, props) + ", "@ + card_scheme_value(ctx, props) + ")"@
    } else {
        props.style.card_container@
    }
}

/// The border of a card, by its reactive variant where a signal drives its look.
pub open spec fn card_reactive_border_text(ctx: ComposeReactiveContext, props: CardProps) -> Seq<char> {
    if props.variant_binding is Some || props.scheme_binding is Some {
        "if ("@ + card_variant_value(ctx, props) + " == \\\"outlined\\\") BorderStroke(1.dp, "@
            + card_color_text(ctx, props, "doweCardContent"@, props.style.card_content@) + ") else null"@
    } else {
        card_border_text(props.style)
    }
}

/// The modifier of a card: that of a container (without paddings over a cover
/// picture), clickable where it has a click action.
pub open spec fn card_modifier_text(ctx: ComposeReactiveContext, props: CardProps, flow: ComposeFlow) -> Seq<char> {
    (if props.cover is Some {
        section_container_text(props.style.style, flow)
    } else {
        container_modifier_text(props.style.style, flow)
    }) + (match props.style.element.on_click {
        Some(_) => ".clickable(onClick = "@ + (if crate::navigation::component_action_text(ctx, opt_string_view(props.style.element.on_click), None) == "null"@ {
            "{}"@
        } else {
            crate::navigation::component_action_text(ctx, opt_string_view(props.style.element.on_click), None)
        }) + ")"@,
        None => Seq::empty(),
    })
}

/// The opening of a card: its surface, then the provider of its title color.
#[verifier::opaque]
pub open spec fn card_open_text(ctx: ComposeReactiveContext, props: CardProps, indent: usize, flow: ComposeFlow) -> Seq<char> {
    let pad = spaces(indent as nat);
    pad + "Card(modifier = "@ + card_modifier_text(ctx, props, flow) + ", shape = RoundedCornerShape("@
        + radius_text(props.style.style, "DoweDesign.radius"@) + "), colors = CardDefaults.cardColors(containerColor = "@
        + card_container_text(ctx, props) + ", contentColor = "@
        + card_color_text(ctx, props, "doweCardContent"@, props.style.card_content@) + "), border = "@
        + card_reactive_border_text(ctx, props) + ", elevation = CardDefaults.cardElevation(defaultElevation = 0.dp)) {\n"@
        + pad + "    CompositionLocalProvider(LocalDoweTitleColor provides "@
        + card_color_text(ctx, props, "doweCardTitle"@, props.title.reference@) + ") {\n"@
}

#[verifier::spinoff_prover]
#[verifier::rlimit(60)]
fn card_open(props: &CardProps, indent: usize, flow: ComposeFlow, context: &ComposeReactiveContext) -> (res: String)
    requires
        item_paths_complete(*context),
    ensures
        res@ == card_open_text(*context, *props, indent, flow),
{
    reveal(card_open_text);
    let mut modifier = if props.cover.is_some() {
        modifier_for_section_container(&props.style.style, flow)
    } else {
        modifier_for_container_style(&props.style.style, flow)
    };
    let ghost base = modifier@;
    match &props.style.element.on_click {
        Some(name) => {
            modifier.append(".clickable(onClick = ");
            modifier.append(compose_component_action(Some(name.as_str()), None, context).as_str());
            modifier.append(")");
        },
        None => {
            assert(modifier@ =~= base + Seq::<char>::empty());
        },
    }
    let reactive = props.variant_binding.is_some() || props.scheme_binding.is_some();
    let container = if reactive {
        let mut c = String::from_str("doweCardContainer(");
        c.append(compose_card_variant_value(props, context).as_str());
        c.append(", ");
        c.append(compose_card_scheme_value(props, context).as_str());
        c.append(")");
        c
    } else {
        props.style.card_container.clone()
    };
    let content = compose_card_color(props, context, "doweCardContent", props.style.card_content.as_str());
    let border = if reactive {
        let mut b = String::from_str("if (");
        b.append(compose_card_variant_value(props, context).as_str());
        b.append(" == \\\"outlined\\\") BorderStroke(1.dp, ");
        b.append(content.as_str());
        b.append(") else null");
        b
    } else {
        compose_card_border(&props.style)
    };
    let mut out = pad(indent);
    out.append("Card(modifier = ");
    out.append(modifier.as_str());
    out.append(", shape = RoundedCornerShape(");
    out.append(compose_card_radius(&props.style.style).as_str());
    out.append("), colors = CardDefaults.cardColors(containerColor = ");
    out.append(container.as_str());
    out.append(", contentColor = ");
    out.append(content.as_str());
    out.append("), border = ");
    out.append(border.as_str());
    out.append(", elevation = CardDefaults.cardElevation(defaultElevation = 0.dp)) {\n");
    out.append(pad(indent).as_str());
    out.append("    CompositionLocalProvider(LocalDoweTitleColor provides ");
    out.append(compose_card_color(props, context, "doweCardTitle", props.title.reference.as_str()).as_str());
    out.append(") {\n");
    out
}

/// The Compose code of a node in its flow: inside its visibility condition when it has one.
pub open spec fn node_in_flow_text(node: DisplayNode, indent: usize, flow: ComposeFlow, font: Option<ResponsiveValue<FontFamily>>, default_family: FontFamily, context: ComposeReactiveContext) -> Seq<char>
    decreases node, 4int,
{
    match node_show(node) {
        Some(show) => spaces(indent as nat) + "if ("@ + show_condition_text(context, show) + ") {\n"@
            + node_body_text(node, (indent + 4) as usize, flow, font, default_family, context) + spaces(indent as nat)
            + "}\n"@,
        None => node_body_text(node, indent, flow, font, default_family, context),
    }
}

/// The Compose code of a node: that of an overlay node, of a layout node, or of a display node.
pub open spec fn node_body_text(node: DisplayNode, indent: usize, flow: ComposeFlow, font: Option<ResponsiveValue<FontFamily>>, default_family: FontFamily, context: ComposeReactiveContext) -> Seq<char>
    decreases node, 3int,
{
    match node {
        DisplayNode::Badge { .. } => overlay_node_text(node, indent, flow, font, default_family, context),
        DisplayNode::Tooltip { .. } => overlay_node_text(node, indent, flow, font, default_family, context),
        DisplayNode::Avatar { .. } => overlay_node_text(node, indent, flow, font, default_family, context),
        DisplayNode::Chip { .. } => overlay_node_text(node, indent, flow, font, default_family, context),
        DisplayNode::Skeleton { .. } => overlay_node_text(node, indent, flow, font, default_family, context),
        DisplayNode::AlertDialog { .. } => overlay_node_text(node, indent, flow, font, default_family, context),
        DisplayNode::Toast { .. } => overlay_node_text(node, indent, flow, font, default_family, context),
        DisplayNode::Command { .. } => overlay_node_text(node, indent, flow, font, default_family, context),
        DisplayNode::Drawer { .. } => overlay_node_text(node, indent, flow, font, default_family, context),
        DisplayNode::Modal { .. } => overlay_node_text(node, indent, flow, font, default_family, context),
        DisplayNode::Dropdown { .. } => overlay_node_text(node, indent, flow, font, default_family, context),
        DisplayNode::Splash { .. } => flow_node_text(node, indent, flow, font, default_family, context),
        DisplayNode::Flex { .. } => flow_node_text(node, indent, flow, font, default_family, context),
        DisplayNode::Grid { .. } => flow_node_text(node, indent, flow, font, default_family, context),
        DisplayNode::Brand { .. } => flow_node_text(node, indent, flow, font, default_family, context),
        DisplayNode::Banner { .. } => flow_node_text(node, indent, flow, font, default_family, context),
        DisplayNode::Card { .. } => flow_node_text(node, indent, flow, font, default_family, context),
        DisplayNode::Button { .. } => flow_node_text(node, indent, flow, font, default_family, context),
        DisplayNode::AppBar { .. } => navigation_node_text(node, indent, flow, font, default_family, context),
        DisplayNode::Footer { .. } => navigation_node_text(node, indent, flow, font, default_family, context),
        DisplayNode::BottomBar { .. } => navigation_node_text(node, indent, flow, font, default_family, context),
        DisplayNode::Sidebar { .. } => navigation_node_text(node, indent, flow, font, default_family, context),
        _ => display_node_text(node, indent, flow, font, default_family, context),
    }
}

/// The Compose code of a display node that has no children: that of its kind;
/// another node writes nothing.
#[verifier::opaque]
pub open spec fn leaf_display_text(node: DisplayNode, indent: usize, flow: ComposeFlow, font: Option<ResponsiveValue<FontFamily>>, default_family: FontFamily, context: ComposeReactiveContext) -> Seq<char> {
    match node {
        DisplayNode::Tree { props } => tree_line(props, indent, context),
        DisplayNode::AvatarGroup { props, items } => avatar_group_line(props, items@, indent, context),
        DisplayNode::ChatBox { props } => chat_box_line(props, indent, context),
        DisplayNode::Empty { props, icon } => empty_line(props, icon, indent, context),
        DisplayNode::TypeWriter { props, items } => type_writer_line(props, items@, indent),
        DisplayNode::Record { props } => record_line(props, indent, context),
        DisplayNode::ToggleGroup { props, items, previous, next } => toggle_group_text(props, items@, previous, next, indent, context),
        DisplayNode::Camera { props } => camera_line(props, indent, context),
        DisplayNode::Microphone { props } => microphone_line(props, indent, context),
        DisplayNode::Image { props } => image_line(props, indent, context),
        DisplayNode::Countdown { props } => countdown_line(props, indent, context),
        DisplayNode::MapView { props, markers, waypoints } => map_line(props, markers@, waypoints@, indent, context),
        DisplayNode::Divider { props, color } => divider_text(props, color, indent, flow),
        DisplayNode::Alert { props } => alert_text(props, indent, font, default_family, context),
        DisplayNode::Code { props } => code_line(props, indent, context),
        DisplayNode::Text { props, value, segments, base } => text_node_text(false, props, value@, segments@, base, font, default_family, indent, context),
        DisplayNode::Title { props, value, segments, base } => text_node_text(true, props, value@, segments@, base, font, default_family, indent, context),
        _ => Seq::empty(),
    }
}

/// The Compose code of a display node: that of its kind; another node writes nothing.
pub open spec fn display_node_text(node: DisplayNode, indent: usize, flow: ComposeFlow, font: Option<ResponsiveValue<FontFamily>>, default_family: FontFamily, context: ComposeReactiveContext) -> Seq<char>
    decreases node, 2int,
{
    match node {
        DisplayNode::Marquee { props, children } => marquee_text(props, children@, indent, flow, font, default_family, context),
        DisplayNode::Collapsible { props, arrow, children } => collapsible_text(props, arrow, children@, indent, flow, font, default_family, context),
        DisplayNode::Carousel { props, slides } => carousel_text(props, slides@, indent, flow, font, default_family, context),
        _ => leaf_display_text(node, indent, flow, font, default_family, context),
    }
}

/// The opening line of a badge.
#[verifier::opaque]
pub open spec fn badge_open_text(props: BadgeProps, indent: usize) -> Seq<char> {
    spaces(indent as nat) + "DoweBadge(text = "@ + string_literal_text(props.text@) + ", position = "@
        + string_literal_text(props.position@) + ", backgroundColor = "@ + props.style.container@ + ", contentColor = "@
        + props.style.content@ + ", modifier = "@ + style_modifier_text(props.style.style, "Modifier"@) + ") {\n"@
}

/// The Compose code of a badge with its children.
pub open spec fn badge_text(props: BadgeProps, children: Seq<DisplayNode>, indent: usize, flow: ComposeFlow, font: Option<ResponsiveValue<FontFamily>>, default_family: FontFamily, context: ComposeReactiveContext) -> Seq<char>
    decreases children, 2int,
{
    badge_open_text(props, indent)
        + nodes_text(children, (indent + 4) as usize, flow, font, default_family, context) + spaces(indent as nat) + "}\n"@
}

/// The opening line of a tooltip.
#[verifier::opaque]
pub open spec fn tooltip_open_text(props: TooltipProps, indent: usize) -> Seq<char> {
    spaces(indent as nat) + "DoweTooltip(label = "@ + string_literal_text(props.label@) + ", position = "@
        + string_literal_text(props.position@) + ", backgroundColor = "@ + props.style.container@ + ", contentColor = "@
        + props.style.content@ + ", modifier = "@ + style_modifier_text(props.style.style, "Modifier"@) + ") {\n"@
}

/// The Compose code of a tooltip around its children.
pub open spec fn tooltip_text(props: TooltipProps, children: Seq<DisplayNode>, indent: usize, flow: ComposeFlow, font: Option<ResponsiveValue<FontFamily>>, default_family: FontFamily, context: ComposeReactiveContext) -> Seq<char>
    decreases children, 2int,
{
    tooltip_open_text(props, indent)
        + nodes_text(children, (indent + 4) as usize, flow, font, default_family, context) + spaces(indent as nat) + "}\n"@
}

/// The opening of a collapsible section, up to its arrow icon.
#[verifier::opaque]
pub open spec fn collapsible_open_text(props: CollapsibleProps, indent: usize) -> Seq<char> {
    spaces(indent as nat) + "DoweCollapsible(label = "@ + string_literal_text(props.label@) + ", defaultOpen = "@
        + bool_text(props.default_open) + ", disabled = "@ + bool_text(props.disabled) + ", backgroundColor = "@
        + props.style.card_container@ + ", contentColor = "@ + props.style.card_content@ + ", borderColor = "@
        + variant_border_text(props.style) + ", radius = "@ + radius_text(props.style.style, "DoweDesign.radius"@)
        + ", modifier = "@ + style_modifier_text(props.style.style, "Modifier"@) + ", arrowIcon = {\n"@
}

/// The Compose code of a collapsible section with its arrow and its children.
pub open spec fn collapsible_text(props: CollapsibleProps, arrow: SvgIcon, children: Seq<DisplayNode>, indent: usize, flow: ComposeFlow, font: Option<ResponsiveValue<FontFamily>>, default_family: FontFamily, context: ComposeReactiveContext) -> Seq<char>
    decreases children, 2int,
{
    collapsible_open_text(props, indent)
        + side_icon_line(arrow, (indent + 4) as usize) + spaces(indent as nat) + "}) {\n"@
        + nodes_text(children, (indent + 4) as usize, flow, font_or(props.style.style.font, font), default_family, context)
        + spaces(indent as nat) + "}\n"@
}

/// The children of a container, inside a provider of its text color when it has one.
pub open spec fn scoped_children_text(style: StyleProps, children: Seq<DisplayNode>, indent: usize, flow: ComposeFlow, font: Option<ResponsiveValue<FontFamily>>, default_family: FontFamily, context: ComposeReactiveContext) -> Seq<char>
    decreases children, 2int,
{
    match content_color_text(style) {
        Some(color) => spaces(indent as nat) + "CompositionLocalProvider(LocalContentColor provides ("@ + color
            + " ?: LocalContentColor.current)) {\n"@ + nodes_text(children, (indent + 4) as usize, flow, font, default_family, context)
            + spaces(indent as nat) + "}\n"@,
        None => nodes_text(children, indent, flow, font, default_family, context),
    }
}

/// The opening line of a marquee.
#[verifier::opaque]
pub open spec fn marquee_open_text(props: MarqueeProps, indent: usize) -> Seq<char> {
    spaces(indent as nat) + "DoweMarquee(speed = "@ + string_literal_text(props.speed@) + ", pauseOnHover = "@
        + bool_text(props.pause_on_hover) + ", reverse = "@ + bool_text(props.reverse) + ", orientation = "@
        + string_literal_text(props.orientation@) + ", fade = "@ + bool_text(props.fade) + ", fadeColor = "@
        + props.fade_color.reference@ + ", gap = "@ + dp_text(props.gap.native_units as nat) + ", modifier = "@
        + style_modifier_text(props.style, "Modifier"@) + ") {\n"@
}

/// The Compose code of a marquee with its children.
pub open spec fn marquee_text(props: MarqueeProps, children: Seq<DisplayNode>, indent: usize, flow: ComposeFlow, font: Option<ResponsiveValue<FontFamily>>, default_family: FontFamily, context: ComposeReactiveContext) -> Seq<char>
    decreases children, 3int,
{
    marquee_open_text(props, indent)
        + scoped_children_text(props.style, children, (indent + 4) as usize, flow, font_or(props.style.font, font), default_family, context)
        + spaces(indent as nat) + "}\n"@
}

/// The slide spec of one slide of a carousel, followed by a comma unless it is the last.
pub open spec fn slide_text(slide: CarouselSlide, last: bool, indent: usize, flow: ComposeFlow, font: Option<ResponsiveValue<FontFamily>>, default_family: FontFamily, context: ComposeReactiveContext) -> Seq<char>
    decreases slide, 1int,
{
    spaces(indent as nat) + "    DoweCarouselSlideSpec(id = "@ + string_literal_text(slide.id@) + ", content = {\n"@
        + nodes_text(slide.children@, (indent + 8) as usize, flow, font, default_family, context) + spaces(indent as nat)
        + "    })"@ + (if last { Seq::empty() } else { ","@ }) + "\n"@
}

/// The slide specs of a carousel, separated by commas; `total` is the number of slides.
pub open spec fn slides_text(slides: Seq<CarouselSlide>, total: nat, indent: usize, flow: ComposeFlow, font: Option<ResponsiveValue<FontFamily>>, default_family: FontFamily, context: ComposeReactiveContext) -> Seq<char>
    decreases slides, 2int,
{
    if slides.len() == 0 {
        Seq::empty()
    } else {
        slides_text(slides.drop_last(), total, indent, flow, font, default_family, context) + slide_text(slides.last(), slides.len() == total, indent, flow, font, default_family, context)
    }
}

/// The end of a carousel, after its slides: how it plays and looks.
#[verifier::opaque]
pub open spec fn carousel_tail_text(props: CarouselProps, indent: usize) -> Seq<char> {
    spaces(indent as nat) + "), autoplay = "@ + bool_text(props.autoplay)
        + ", autoplayInterval = "@ + decimal_text(props.autoplay_interval as nat) + ", disableLoop = "@
        + bool_text(props.disable_loop) + ", hideControls = "@ + bool_text(props.hide_controls) + ", hideIndicators = "@
        + bool_text(props.hide_indicators) + ", showNavigation = "@ + bool_text(props.show_navigation)
        + ", showCounter = "@ + bool_text(props.show_counter) + ", orientation = "@ + string_literal_text(props.orientation@)
        + ", size = "@ + string_literal_text(props.size@) + ", indicatorType = "@ + string_literal_text(props.indicator_type@)
        + ", title = "@ + optional_string_text(opt_string_view(props.title)) + ", slideWidth = "@
        + optional_u16_text(props.slide_width) + ", slideHeight = "@ + optional_u16_text(props.slide_height)
        + ", slidesPerView = "@ + decimal_text(props.slides_per_view as nat) + ", gap = "@ + decimal_text(props.gap as nat)
        + ", modifier = "@ + style_modifier_text(props.style.style, "Modifier"@) + ", accentColor = "@
        + props.style.scheme.reference@ + ")\n"@
}

/// The Compose code of a carousel with its slides.
pub open spec fn carousel_text(props: CarouselProps, slides: Seq<CarouselSlide>, indent: usize, flow: ComposeFlow, font: Option<ResponsiveValue<FontFamily>>, default_family: FontFamily, context: ComposeReactiveContext) -> Seq<char>
    decreases slides, 3int,
{
    spaces(indent as nat) + "DoweCarousel(variant = "@ + string_literal_text(props.variant@) + ", slides = listOf(\n"@
        + slides_text(slides, slides.len(), indent, flow, font, default_family, context) + carousel_tail_text(props, indent)
}

/// The Compose code of an overlay node: that of its kind; another node writes nothing.
pub open spec fn overlay_node_text(node: DisplayNode, indent: usize, flow: ComposeFlow, font: Option<ResponsiveValue<FontFamily>>, default_family: FontFamily, context: ComposeReactiveContext) -> Seq<char>
    decreases node, 2int,
{
    match node {
        DisplayNode::Drawer { props, regions } => drawer_text(props, regions, indent, font, default_family, context),
        DisplayNode::Avatar { props, icon } => avatar_text(props, icon, indent, context),
        DisplayNode::Badge { props, children } => badge_text(props, children@, indent, flow, font, default_family, context),
        DisplayNode::Chip { props, value, start, end } => chip_text(props, value@, start, end, indent, context),
        DisplayNode::Skeleton { props } => skeleton_line(props, indent, flow),
        DisplayNode::Modal { props, regions } => modal_text(props, regions, indent, font, default_family, context),
        DisplayNode::AlertDialog { props } => alert_dialog_line(props, indent, context),
        DisplayNode::Tooltip { props, children } => tooltip_text(props, children@, indent, flow, font, default_family, context),
        DisplayNode::Toast { props } => toast_line(props, indent, context),
        DisplayNode::Dropdown { props, parts } => dropdown_text(props, parts, indent, flow, font, default_family, context),
        DisplayNode::Command { props, entries } => command_text(props, entries@, indent, context),
        _ => Seq::empty(),
    }
}

/// The opening of a drawer: its surface, the navigation handlers that close
/// it first, and the column that holds its regions.
#[verifier::opaque]
pub open spec fn drawer_head_text(props: DrawerProps, indent: usize, path: Seq<char>) -> Seq<char> {
    spaces(indent as nat) + "DoweDrawer(open = state.bool(\""@ + path + "\"), onClose = { state.write(\""@ + path
        + "\", false) }, position = \""@ + props.position@ + "\", backgroundColor = "@ + props.style.card_container@
        + ", contentColor = "@ + props.style.card_content@ + ", borderColor = "@ + drawer_border_text(props.style)
        + ", radius = "@ + radius_text(props.style.style, "0.dp"@) + ", disableOverlayClose = "@
        + bool_text(props.disable_overlay_close) + ", hideCloseButton = "@ + bool_text(props.hide_close_button) + ") {\n"@
        + drawer_navigation_text(indent, path) + spaces(indent as nat) + "    Column(modifier = "@
        + style_modifier_text(props.style.style, "Modifier.fillMaxSize().safeDrawingPadding()"@) + ") {\n"@
}

/// The header or footer of a drawer or a sidebar: a column of its nodes, nothing when it has none.
pub open spec fn drawer_side_text(children: Seq<DisplayNode>, indent: usize, font: Option<ResponsiveValue<FontFamily>>, default_family: FontFamily, context: ComposeReactiveContext) -> Seq<char>
    decreases children, 1int,
{
    if children.len() == 0 {
        Seq::empty()
    } else {
        spaces(indent as nat) + "        Column(modifier = Modifier.fillMaxWidth()) {\n"@
            + nodes_text(children, (indent + 12) as usize, ComposeFlow::Block, font, default_family, context)
            + spaces(indent as nat) + "        }\n"@
    }
}

/// The Compose code of a drawer: its opening, then its header, scrolling body
/// and footer, in its own font or else the inherited one.
pub open spec fn drawer_text(props: DrawerProps, regions: OverlayRegions, indent: usize, font: Option<ResponsiveValue<FontFamily>>, default_family: FontFamily, context: ComposeReactiveContext) -> Seq<char>
    decreases regions, 2int,
{
    let path = kotlin_escaped(signal_path_text(context, props.open@));
    let current = font_or(props.style.style.font, font);
    drawer_head_text(props, indent, path) + drawer_side_text(regions.header@, indent, current, default_family, context)
        + spaces(indent as nat)
        + "        Column(modifier = Modifier.fillMaxWidth().weight(1f).verticalScroll(rememberScrollState())) {\n"@
        + nodes_text(regions.body@, (indent + 12) as usize, ComposeFlow::Block, current, default_family, context)
        + spaces(indent as nat) + "        }\n"@ + drawer_side_text(regions.footer@, indent, current, default_family, context)
        + spaces(indent as nat) + "    }\n"@ + spaces(indent as nat) + "}\n"@
}

/// The children of a region of a modal as a lambda, `null` when it has none.
pub open spec fn region_lambda_text(children: Seq<DisplayNode>, indent: usize, font: Option<ResponsiveValue<FontFamily>>, default_family: FontFamily, context: ComposeReactiveContext) -> Seq<char>
    decreases children, 1int,
{
    if children.len() == 0 {
        "null"@
    } else {
        "{\n"@ + nodes_text(children, (indent + 4) as usize, ComposeFlow::Block, font, default_family, context)
            + spaces(indent as nat) + "}"@
    }
}

/// The opening of a modal, up to its header.
#[verifier::opaque]
pub open spec fn modal_open_text(props: ModalProps, indent: usize, path: Seq<char>, context: ComposeReactiveContext) -> Seq<char> {
    spaces(indent as nat) + "DoweModal(open = state.bool(\""@ + path + "\"), close = "@
        + close_action_text(context, path, opt_string_view(props.on_close)) + ", backgroundColor = "@
        + props.style.container@ + ", contentColor = "@ + props.style.content@ + ", borderColor = "@
        + variant_border_text(props.style) + ", radius = "@ + radius_text(props.style.style, "DoweDesign.radius"@)
        + ", disableOverlayClose = "@ + bool_text(props.disable_overlay_close) + ", hideCloseButton = "@
        + bool_text(props.hide_close_button) + ", header = "@
}

/// The Compose code of a modal: its surface with its header and footer as
/// lambdas, and its body.
pub open spec fn modal_text(props: ModalProps, regions: OverlayRegions, indent: usize, font: Option<ResponsiveValue<FontFamily>>, default_family: FontFamily, context: ComposeReactiveContext) -> Seq<char>
    decreases regions, 2int,
{
    let path = kotlin_escaped(signal_path_text(context, props.open@));
    modal_open_text(props, indent, path, context)
        + region_lambda_text(regions.header@, indent, font, default_family, context) + ", footer = "@
        + region_lambda_text(regions.footer@, indent, font, default_family, context) + ") {\n"@
        + nodes_text(regions.body@, (indent + 4) as usize, ComposeFlow::Block, font, default_family, context)
        + spaces(indent as nat) + "}\n"@
}

/// The opening line of a dropdown menu.
#[verifier::opaque]
pub open spec fn dropdown_open_text(props: DropdownProps, indent: usize) -> Seq<char> {
    spaces(indent as nat) + "DoweDropdown(backgroundColor = "@ + props.style.container@ + ", contentColor = "@
        + props.style.content@ + ", modifier = "@ + style_modifier_text(props.style.style, "Modifier"@) + ") {\n"@
}

/// The Compose code of a dropdown menu: the nodes that open it, then its
/// content: its header, its entries and its footer.
pub open spec fn dropdown_text(props: DropdownProps, parts: DropdownParts, indent: usize, flow: ComposeFlow, font: Option<ResponsiveValue<FontFamily>>, default_family: FontFamily, context: ComposeReactiveContext) -> Seq<char>
    decreases parts, 2int,
{
    let inner = (indent + 4) as usize;
    dropdown_open_text(props, indent)
        + nodes_text(parts.trigger@, inner, flow, font, default_family, context) + spaces(indent as nat) + "} content: {\n"@
        + nodes_text(parts.header@, inner, ComposeFlow::Block, font, default_family, context)
        + overlay_entries_text(parts.entries@, inner, props, context)
        + nodes_text(parts.footer@, inner, ComposeFlow::Block, font, default_family, context) + spaces(indent as nat) + "}\n"@
}

/// The Compose code of a navigation node: an app bar, a footer (its regions
/// boxed), a bottom bar or a sidebar; another node writes nothing.
pub open spec fn navigation_node_text(node: DisplayNode, indent: usize, flow: ComposeFlow, font: Option<ResponsiveValue<FontFamily>>, default_family: FontFamily, context: ComposeReactiveContext) -> Seq<char>
    decreases node, 2int,
{
    match node {
        DisplayNode::AppBar { props, regions } => bar_text(props, 1536, false, regions, indent, flow, font, default_family, context),
        DisplayNode::Footer { props, regions } => bar_text(props, 1536, true, regions, indent, flow, font, default_family, context),
        DisplayNode::BottomBar { props, tabs } => bottom_bar_text(props, tabs@, indent, flow),
        DisplayNode::Sidebar { props, regions } => sidebar_text(props, regions, indent, flow, font, default_family, context),
        _ => Seq::empty(),
    }
}

/// The modifier of a sidebar: that of a container, at most the screen's height
/// without a height of its own, on its container color.
#[verifier::opaque]
pub open spec fn sidebar_modifier_text(props: SidebarProps, flow: ComposeFlow) -> Seq<char> {
    container_modifier_text(props.style.style, flow)
        + text_if(props.style.style.sizing.h is None, ".heightIn(max = LocalConfiguration.current.screenHeightDp.dp)"@)
        + ".background("@ + props.style.container@ + ")"@
}

/// The Compose code of a sidebar: a column in its colors with its header, its
/// scrolling body and its footer, in its own font or else the inherited one.
pub open spec fn sidebar_text(props: SidebarProps, regions: OverlayRegions, indent: usize, flow: ComposeFlow, font: Option<ResponsiveValue<FontFamily>>, default_family: FontFamily, context: ComposeReactiveContext) -> Seq<char>
    decreases regions, 2int,
{
    let current = font_or(props.style.style.font, font);
    let pad = spaces(indent as nat);
    pad + "Column(modifier = "@ + sidebar_modifier_text(props, flow) + ") {\n"@ + pad
        + "    CompositionLocalProvider(LocalContentColor provides "@ + props.style.content@ + ") {\n"@
        + drawer_side_text(regions.header@, indent, current, default_family, context) + pad
        + "        Column(modifier = Modifier.fillMaxWidth().weight(1f).verticalScroll(rememberScrollState())) {\n"@
        + nodes_text(regions.body@, (indent + 12) as usize, ComposeFlow::Block, current, default_family, context) + pad
        + "        }\n"@ + drawer_side_text(regions.footer@, indent, current, default_family, context) + pad + "    }\n"@ + pad
        + "}\n"@
}

/// The nodes above or below a bar, one after the other.
pub open spec fn bar_edge_text(children: Seq<DisplayNode>, indent: usize, font: Option<ResponsiveValue<FontFamily>>, default_family: FontFamily, context: ComposeReactiveContext) -> Seq<char>
    decreases children, 1int,
{
    nodes_text(children, indent, ComposeFlow::Block, font, default_family, context)
}

/// A region of a bar: a row of its nodes in the given arrangement, nothing without nodes.
pub open spec fn bar_region_text(children: Seq<DisplayNode>, indent: usize, arrangement: Seq<char>, modifier: Seq<char>, font: Option<ResponsiveValue<FontFamily>>, default_family: FontFamily, context: ComposeReactiveContext) -> Seq<char>
    decreases children, 1int,
{
    if children.len() == 0 {
        Seq::empty()
    } else {
        spaces(indent as nat) + "Row(modifier = "@ + modifier + ".padding(8.dp), verticalAlignment = Alignment.CenterVertically, horizontalArrangement = "@
            + arrangement + ") {\n"@ + nodes_text(children, (indent + 4) as usize, ComposeFlow::Inline, font, default_family, context)
            + spaces(indent as nat) + "}\n"@
    }
}

/// The start, centre and end regions of a bar.
pub open spec fn bar_regions_text(regions: BarRegions, indent: usize, font: Option<ResponsiveValue<FontFamily>>, default_family: FontFamily, context: ComposeReactiveContext) -> Seq<char>
    decreases regions, 2int,
{
    bar_region_text(regions.start@, indent, "Arrangement.Start"@, "Modifier"@, font, default_family, context)
        + bar_region_text(regions.center@, indent, "Arrangement.Center"@, "Modifier.weight(1f)"@, font, default_family, context)
        + bar_region_text(regions.end@, indent, "Arrangement.End"@, "Modifier"@, font, default_family, context)
}

/// The body of a bar whose regions are boxed: all its regions within the given width.
pub open spec fn bar_boxed_body_text(regions: BarRegions, width: Seq<char>, indent: usize, font: Option<ResponsiveValue<FontFamily>>, default_family: FontFamily, context: ComposeReactiveContext) -> Seq<char>
    decreases regions, 3int,
{
    let pad = spaces(indent as nat);
    pad + "        Box(modifier = Modifier.fillMaxWidth(), contentAlignment = Alignment.Center) {\n"@ + pad
        + "            Column(modifier = Modifier.widthIn(max = "@ + width + ".dp).fillMaxWidth()) {\n"@
        + bar_edge_text(regions.top@, (indent + 16) as usize, font, default_family, context) + pad
        + "                Row(modifier = Modifier.fillMaxWidth(), verticalAlignment = Alignment.CenterVertically, horizontalArrangement = Arrangement.SpaceBetween) {\n"@
        + bar_regions_text(regions, (indent + 20) as usize, font, default_family, context) + pad + "                }\n"@
        + bar_edge_text(regions.bottom@, (indent + 16) as usize, font, default_family, context) + pad + "            }\n"@ + pad
        + "        }\n"@
}

/// The row of regions of a bar, within the given width when it is boxed.
pub open spec fn bar_row_text(boxed: bool, regions: BarRegions, width: Seq<char>, indent: usize, font: Option<ResponsiveValue<FontFamily>>, default_family: FontFamily, context: ComposeReactiveContext) -> Seq<char>
    decreases regions, 3int,
{
    let pad = spaces(indent as nat);
    if boxed {
        pad + "        Box(modifier = Modifier.fillMaxWidth(), contentAlignment = Alignment.Center) {\n"@ + pad
            + "            Row(modifier = Modifier.widthIn(max = "@ + width
            + ".dp).fillMaxWidth(), verticalAlignment = Alignment.CenterVertically, horizontalArrangement = Arrangement.SpaceBetween) {\n"@
            + bar_regions_text(regions, (indent + 16) as usize, font, default_family, context) + pad + "            }\n"@ + pad
            + "        }\n"@
    } else {
        pad + "        Row(modifier = Modifier.fillMaxWidth(), verticalAlignment = Alignment.CenterVertically, horizontalArrangement = Arrangement.SpaceBetween) {\n"@
            + bar_regions_text(regions, (indent + 12) as usize, font, default_family, context) + pad + "        }\n"@
    }
}

/// The body of a bar: the nodes above, its row of regions, and the nodes below.
pub open spec fn bar_plain_body_text(boxed: bool, regions: BarRegions, width: Seq<char>, indent: usize, font: Option<ResponsiveValue<FontFamily>>, default_family: FontFamily, context: ComposeReactiveContext) -> Seq<char>
    decreases regions, 4int,
{
    bar_edge_text(regions.top@, (indent + 8) as usize, font, default_family, context)
        + bar_row_text(boxed, regions, width, indent, font, default_family, context)
        + bar_edge_text(regions.bottom@, (indent + 8) as usize, font, default_family, context)
}

/// The Compose code of an app bar or a footer: a column in its colors with the
/// nodes above, its start, centre and end regions in a row, and the nodes below;
/// a boxed bar keeps its row (and, with boxed regions, all its regions) within
/// the given width.
pub open spec fn bar_text(props: BarProps, boxed_max_width: u16, boxed_regions: bool, regions: BarRegions, indent: usize, flow: ComposeFlow, font: Option<ResponsiveValue<FontFamily>>, default_family: FontFamily, context: ComposeReactiveContext) -> Seq<char>
    decreases regions, 5int,
{
    let current = font_or(props.style.style.font, font);
    let pad = spaces(indent as nat);
    let width = decimal_text(boxed_max_width as nat);
    pad + "Column(modifier = "@ + bar_modifier_text(props, flow) + ") {\n"@ + pad
        + "    CompositionLocalProvider(LocalContentColor provides "@ + props.style.content@ + ") {\n"@
        + (if props.boxed && boxed_regions {
        bar_boxed_body_text(regions, width, indent, current, default_family, context)
    } else {
        bar_plain_body_text(props.boxed, regions, width, indent, current, default_family, context)
    }) + pad + "    }\n"@ + pad + "}\n"@
}

/// The Compose code of a layout node or a button.
pub open spec fn flow_node_text(node: DisplayNode, indent: usize, flow: ComposeFlow, font: Option<ResponsiveValue<FontFamily>>, default_family: FontFamily, context: ComposeReactiveContext) -> Seq<char>
    decreases node, 2int,
{
    if is_structural(node) {
        structural_node_text(node, indent, flow, font, default_family, context)
    } else {
        button_node_text(node, indent, flow, font, default_family, context)
    }
}

/// The Compose code of a button node; another node writes nothing.
pub open spec fn button_node_text(node: DisplayNode, indent: usize, flow: ComposeFlow, font: Option<ResponsiveValue<FontFamily>>, default_family: FontFamily, context: ComposeReactiveContext) -> Seq<char>
    decreases node, 1int,
{
    match node {
        DisplayNode::Button { props, children } => button_text(props, children@, indent, flow, font, default_family, context),
        _ => Seq::empty(),
    }
}

/// What a button shows: its leading icons, its children inline and its end icon.
pub open spec fn button_contents_text(props: ButtonProps, children: Seq<DisplayNode>, indent: usize, font: Option<ResponsiveValue<FontFamily>>, default_family: FontFamily, context: ComposeReactiveContext) -> Seq<char>
    decreases children, 1int,
{
    button_lead_text(props, indent, context) + nodes_text(children, indent, ComposeFlow::Inline, font, default_family, context)
        + button_trail_text(props, indent, context)
}

/// What a button shows, behind an empty loading slot while a signal says it is loading.
pub open spec fn button_body_text(props: ButtonProps, children: Seq<DisplayNode>, indent: usize, font: Option<ResponsiveValue<FontFamily>>, default_family: FontFamily, context: ComposeReactiveContext) -> Seq<char>
    decreases children, 2int,
{
    let pad = spaces(indent as nat);
    match button_loading(context, props) {
        Some(l) => pad + "    Box(contentAlignment = Alignment.Center) {\n"@ + pad
            + "        Row(modifier = Modifier.graphicsLayer { alpha = if ("@ + l + ") 0f else 1f }, verticalAlignment = Alignment.CenterVertically) {\n"@
            + button_contents_text(props, children, (indent + 12) as usize, font, default_family, context) + pad + "        }\n"@
            + pad + "        if ("@ + l + ") {\n"@ + pad + "        }\n"@ + pad + "    }\n"@,
        None => button_contents_text(props, children, (indent + 4) as usize, font, default_family, context),
    }
}

/// The Compose code of a button: its opening, then what it shows, in its own
/// font or else the inherited one.
pub open spec fn button_text(props: ButtonProps, children: Seq<DisplayNode>, indent: usize, flow: ComposeFlow, font: Option<ResponsiveValue<FontFamily>>, default_family: FontFamily, context: ComposeReactiveContext) -> Seq<char>
    decreases children, 3int,
{
    button_open_text(context, props, indent)
        + button_body_text(props, children, indent, font_or(props.style.style.font, font), default_family, context)
        + spaces(indent as nat) + "}\n"@
}

/// The Compose code of a layout node: that of its kind; another node writes nothing.
pub open spec fn structural_node_text(node: DisplayNode, indent: usize, flow: ComposeFlow, font: Option<ResponsiveValue<FontFamily>>, default_family: FontFamily, context: ComposeReactiveContext) -> Seq<char>
    decreases node, 1int,
{
    match node {
        DisplayNode::Splash { binding, parts } => splash_text(binding, parts, indent, flow, font, default_family, context),
        DisplayNode::Flex { props, children } => flex_text(props, children@, indent, flow, font, default_family, context),
        DisplayNode::Grid { props, children } => grid_text(props, children@, indent, flow, font, default_family, context),
        DisplayNode::Brand { props, children } => brand_text(props, children@, indent, flow, font, default_family, context),
        DisplayNode::Banner { props, children } => banner_text(props, children@, indent, flow, font, default_family, context),
        DisplayNode::Card { props, children } => card_text(props, children@, indent, flow, font, default_family, context),
        _ => Seq::empty(),
    }
}

/// The children of a card over its cover picture, inside a column with the card's paddings.
pub open spec fn card_cover_text(spacing: SpacingProps, cover: ResponsiveValue<CoverSource>, overlay: Option<ResponsiveValue<OverlayPaint>>, children: Seq<DisplayNode>, indent: usize, font: Option<ResponsiveValue<FontFamily>>, default_family: FontFamily, context: ComposeReactiveContext) -> Seq<char>
    decreases children, 1int,
{
    let pad = spaces(indent as nat);
    pad + "    DoweCoverBox(modifier = Modifier.fillMaxWidth().fillMaxHeight(), source = "@ + cover_value_text(cover)
        + ", overlay = "@ + optional_overlay_text(overlay) + ") {\n"@ + pad
        + "        Column(modifier = Modifier.fillMaxWidth().fillMaxHeight().padding("@ + content_padding_text(spacing) + ")) {\n"@
        + nodes_text(children, (indent + 12) as usize, ComposeFlow::Block, font, default_family, context) + pad
        + "        }\n"@ + pad + "    }\n"@
}

/// The Compose code of a card with its children: over its cover picture, inside
/// a padded column, where it has one.
pub open spec fn card_text(props: CardProps, children: Seq<DisplayNode>, indent: usize, flow: ComposeFlow, font: Option<ResponsiveValue<FontFamily>>, default_family: FontFamily, context: ComposeReactiveContext) -> Seq<char>
    decreases children, 2int,
{
    let current = font_or(props.style.style.font, font);
    let pad = spaces(indent as nat);
    card_open_text(context, props, indent, flow) + (match props.cover {
        Some(cover) => card_cover_text(props.style.style.spacing, cover, props.overlay, children, indent, current, default_family, context),
        None => nodes_text(children, (indent + 4) as usize, ComposeFlow::Block, current, default_family, context),
    }) + pad + "    }\n"@ + pad + "}\n"@
}

/// The Compose code of a splash: its nodes while its signal holds, else its content.
pub open spec fn splash_text(binding: String, parts: SplashParts, indent: usize, flow: ComposeFlow, font: Option<ResponsiveValue<FontFamily>>, default_family: FontFamily, context: ComposeReactiveContext) -> Seq<char>
    decreases parts, 2int,
{
    spaces(indent as nat) + "if (state.bool(\""@ + kotlin_escaped(signal_path_text(context, binding@)) + "\")) {\n"@
        + nodes_text(parts.children@, (indent + 4) as usize, flow, font, default_family, context) + spaces(indent as nat)
        + "} else {\n"@ + nodes_text(parts.content@, (indent + 4) as usize, flow, font, default_family, context)
        + spaces(indent as nat) + "}\n"@
}

/// The children of a flex layout in one arrangement, inside the provider of its text color when it has one.
pub open spec fn flex_children_text(style: StyleProps, children: Seq<DisplayNode>, indent: usize, child_flow: ComposeFlow, font: Option<ResponsiveValue<FontFamily>>, default_family: FontFamily, context: ComposeReactiveContext) -> Seq<char>
    decreases children, 1int,
{
    let pad = spaces(indent as nat) + "        "@;
    let inner = if content_color_text(style) is Some { (indent + 12) as usize } else { (indent + 8) as usize };
    color_scope_open_text(style, pad) + nodes_text(children, inner, child_flow, font, default_family, context)
        + color_scope_close_text(style, pad)
}

/// The Compose code of a flex layout: a column when its direction says so, else a row.
pub open spec fn flex_text(props: FlexProps, children: Seq<DisplayNode>, indent: usize, flow: ComposeFlow, font: Option<ResponsiveValue<FontFamily>>, default_family: FontFamily, context: ComposeReactiveContext) -> Seq<char>
    decreases children, 2int,
{
    let current = font_or(props.style.font, font);
    flex_column_line(props, indent, flow)
        + flex_children_text(props.style, children, indent, ComposeFlow::Block, current, default_family, context)
        + spaces(indent as nat) + "    }\n"@ + flex_row_line(props, indent, flow)
        + flex_children_text(props.style, children, indent, ComposeFlow::Inline, current, default_family, context)
        + spaces(indent as nat) + "    }\n"@ + spaces(indent as nat) + "}\n"@
}

/// The Compose code of a grid with its cells.
pub open spec fn grid_text(props: GridProps, children: Seq<DisplayNode>, indent: usize, flow: ComposeFlow, font: Option<ResponsiveValue<FontFamily>>, default_family: FontFamily, context: ComposeReactiveContext) -> Seq<char>
    decreases children, 2int,
{
    let current = font_or(props.style.font, font);
    let pad = spaces(indent as nat) + "    "@;
    let inner = if content_color_text(props.style) is Some { (indent + 8) as usize } else { (indent + 4) as usize };
    grid_line(props, indent, flow) + color_scope_open_text(props.style, pad)
        + nodes_text(children, inner, ComposeFlow::Grid, current, default_family, context)
        + color_scope_close_text(props.style, pad) + spaces(indent as nat) + "}\n"@
}

/// The Compose code of a brand mark: a row of its children that follows its link.
pub open spec fn brand_text(props: BrandProps, children: Seq<DisplayNode>, indent: usize, flow: ComposeFlow, font: Option<ResponsiveValue<FontFamily>>, default_family: FontFamily, context: ComposeReactiveContext) -> Seq<char>
    decreases children, 3int,
{
    spaces(indent as nat) + "Row(modifier = "@ + container_modifier_text(props.style, ComposeFlow::Inline)
        + link_modifier_text(props.navigation, props.label) + ", verticalAlignment = Alignment.CenterVertically) {\n"@
        + scoped_children_text(props.style, children, (indent + 4) as usize, ComposeFlow::Inline, font_or(props.style.font, font), default_family, context)
        + spaces(indent as nat) + "}\n"@
}

/// The Compose code of a banner: a column of its children that follows its
/// link, over its cover picture when it has one.
pub open spec fn banner_text(props: BannerProps, children: Seq<DisplayNode>, indent: usize, flow: ComposeFlow, font: Option<ResponsiveValue<FontFamily>>, default_family: FontFamily, context: ComposeReactiveContext) -> Seq<char>
    decreases children, 3int,
{
    let modifier = container_modifier_text(props.style, ComposeFlow::Block) + link_modifier_text(Some(props.navigation), props.label);
    let current = font_or(props.style.font, font);
    match props.cover {
        Some(cover) => spaces(indent as nat) + "DoweCoverBox(modifier = "@ + modifier + ", source = "@ + cover_value_text(cover)
            + ", overlay = "@ + optional_overlay_text(props.overlay) + ") {\n"@ + spaces(indent as nat)
            + "    Column(verticalArrangement = Arrangement.spacedBy(0.dp)) {\n"@
            + scoped_children_text(props.style, children, (indent + 8) as usize, ComposeFlow::Block, current, default_family, context)
            + spaces(indent as nat) + "    }\n"@ + spaces(indent as nat) + "}\n"@,
        None => spaces(indent as nat) + "Column(modifier = "@ + modifier + ", verticalArrangement = Arrangement.spacedBy(0.dp)) {\n"@
            + scoped_children_text(props.style, children, (indent + 4) as usize, ComposeFlow::Block, current, default_family, context)
            + spaces(indent as nat) + "}\n"@,
    }
}

/// The Compose code of a sequence of nodes, one after the other.
pub open spec fn nodes_text(nodes: Seq<DisplayNode>, indent: usize, flow: ComposeFlow, font: Option<ResponsiveValue<FontFamily>>, default_family: FontFamily, context: ComposeReactiveContext) -> Seq<char>
    decreases nodes, 0int,
{
    if nodes.len() == 0 {
        Seq::empty()
    } else {
        nodes_text(nodes.drop_last(), indent, flow, font, default_family, context) + node_in_flow_text(nodes.last(), indent, flow, font, default_family, context)
    }
}

} // verus!

verus! {

/// Writes the children of a container, one after the other.
#[verifier::spinoff_prover]
#[verifier::rlimit(50)]
fn render_compose_children(
    children: &[DisplayNode],
    indent: usize,
    output: &mut String,
    flow: ComposeFlow,
    inherited_font: Option<&ResponsiveValue<FontFamily>>,
    default_family: FontFamily,
    context: &ComposeReactiveContext,
)
    requires
        item_paths_complete(*context),
        indent + 16 * nodes_size(children@) <= usize::MAX,
        nodes_valid(children@),
    ensures
        final(output)@ == old(output)@ + nodes_text(children@, indent, flow, opt_ref(inherited_font), default_family, *context),
    decreases children@, 0int,
{
    let ghost start = output@;
    let mut i: usize = 0;
    while i < children.len()
        invariant
            i <= children@.len(),
            indent + 16 * nodes_size(children@) <= usize::MAX,
            nodes_valid(children@),
            item_paths_complete(*context),
            output@ == start + nodes_text(children@.take(i as int), indent, flow, opt_ref(inherited_font), default_family, *context),
        decreases children@.len() - i,
    {
        proof {
            lemma_nodes_element(children@, i as int);
            assert(children@.take(i + 1).drop_last() =~= children@.take(i as int));
            assert(children@.take(i + 1).last() == children@[i as int]);
        }
        render_compose_node_in_flow(&children[i], indent, output, flow, inherited_font, default_family, context);
        i = i + 1;
    }
    assert(children@.take(children@.len() as int) =~= children@);
}

/// Writes a node in its flow, inside its visibility condition when it has one.
pub fn render_compose_node_in_flow(
    node: &DisplayNode,
    indent: usize,
    output: &mut String,
    flow: ComposeFlow,
    inherited_font: Option<&ResponsiveValue<FontFamily>>,
    default_family: FontFamily,
    context: &ComposeReactiveContext,
)
    requires
        item_paths_complete(*context),
        node_fits(*node, indent),
        node_valid(*node),
    ensures
        final(output)@ == old(output)@ + node_in_flow_text(*node, indent, flow, opt_ref(inherited_font), default_family, *context),
    decreases *node, 4int,
{
    match display_node_show(node) {
        Some(show) => {
            let mut out = pad(indent);
            out.append("if (");
            out.append(compose_show_condition(show, context).as_str());
            out.append(") {\n");
            render_compose_node_body(node, indent + 4, &mut out, flow, inherited_font, default_family, context);
            out.append(pad(indent).as_str());
            out.append("}\n");
            output.append(out.as_str());
        },
        None => {
            render_compose_node_body(node, indent, output, flow, inherited_font, default_family, context);
        },
    }
}

/// Writes a node: an overlay node, or a display node.
pub fn render_compose_node_body(
    node: &DisplayNode,
    indent: usize,
    output: &mut String,
    flow: ComposeFlow,
    inherited_font: Option<&ResponsiveValue<FontFamily>>,
    default_family: FontFamily,
    context: &ComposeReactiveContext,
)
    requires
        item_paths_complete(*context),
        indent + 16 * node_size(*node) <= usize::MAX + 4,
        node_valid(*node),
    ensures
        final(output)@ == old(output)@ + node_body_text(*node, indent, flow, opt_ref(inherited_font), default_family, *context),
    decreases *node, 3int,
{
    match node {
        DisplayNode::Badge { .. } | DisplayNode::Tooltip { .. } | DisplayNode::Avatar { .. } | DisplayNode::Chip { .. }
        | DisplayNode::Skeleton { .. } | DisplayNode::AlertDialog { .. } | DisplayNode::Toast { .. }
        | DisplayNode::Command { .. } | DisplayNode::Drawer { .. } | DisplayNode::Modal { .. }
        | DisplayNode::Dropdown { .. } => {
            render_compose_overlay_node(node, indent, output, flow, inherited_font, default_family, context);
        },
        DisplayNode::Splash { .. } | DisplayNode::Flex { .. } | DisplayNode::Grid { .. } | DisplayNode::Brand { .. }
        | DisplayNode::Banner { .. } | DisplayNode::Button { .. } | DisplayNode::Card { .. } => {
            render_compose_flow_node(node, indent, output, flow, inherited_font, default_family, context);
        },
        DisplayNode::AppBar { .. } | DisplayNode::Footer { .. } | DisplayNode::BottomBar { .. } | DisplayNode::Sidebar { .. } => {
            render_compose_navigation_node(node, indent, output, flow, inherited_font, default_family, context);
        },
        _ => {
            render_compose_display_node(node, indent, output, flow, inherited_font, default_family, context);
        },
    }
}

/// Writes a navigation node: an app bar, a footer, a bottom bar or a sidebar; another node writes nothing.
#[verifier::spinoff_prover]
#[verifier::rlimit(50)]
pub fn render_compose_navigation_node(
    node: &DisplayNode,
    indent: usize,
    output: &mut String,
    flow: ComposeFlow,
    inherited_font: Option<&ResponsiveValue<FontFamily>>,
    default_family: FontFamily,
    context: &ComposeReactiveContext,
)
    requires
        item_paths_complete(*context),
        indent + 16 * node_size(*node) <= usize::MAX + 4,
        node_valid(*node),
    ensures
        final(output)@ == old(output)@ + navigation_node_text(*node, indent, flow, opt_ref(inherited_font), default_family, *context),
    decreases *node, 2int,
{
    match node {
        DisplayNode::AppBar { props, regions } => {
            render_compose_bar(props, 1536, false, regions, indent, output, flow, inherited_font, default_family, context);
        },
        DisplayNode::Footer { props, regions } => {
            render_compose_bar(props, 1536, true, regions, indent, output, flow, inherited_font, default_family, context);
        },
        DisplayNode::BottomBar { props, tabs } => {
            render_compose_bottom_bar(props, tabs.as_slice(), indent, output, flow, context);
        },
        DisplayNode::Sidebar { props, regions } => {
            render_compose_sidebar(props, regions, indent, output, flow, inherited_font, default_family, context);
        },
        _ => {
            assert(output@ =~= output@ + Seq::<char>::empty());
        },
    }
}

fn sidebar_modifier(props: &SidebarProps, flow: ComposeFlow) -> (res: String)
    ensures
        res@ == sidebar_modifier_text(*props, flow),
{
    reveal(sidebar_modifier_text);
    let mut out = modifier_for_container_style(&props.style.style, flow);
    if props.style.style.sizing.h.is_none() {
        out.append(".heightIn(max = LocalConfiguration.current.screenHeightDp.dp)");
    } else {
        assert(out@ =~= out@ + Seq::<char>::empty());
    }
    out.append(".background(");
    out.append(props.style.container.as_str());
    out.append(")");
    out
}

/// Writes a sidebar with its header, body and footer.
#[verifier::spinoff_prover]
#[verifier::rlimit(100)]
pub fn render_compose_sidebar(
    props: &SidebarProps,
    regions: &OverlayRegions,
    indent: usize,
    output: &mut String,
    flow: ComposeFlow,
    inherited_font: Option<&ResponsiveValue<FontFamily>>,
    default_family: FontFamily,
    context: &ComposeReactiveContext,
)
    requires
        item_paths_complete(*context),
        indent + 16 * (nodes_size(regions.header@) + nodes_size(regions.body@) + nodes_size(regions.footer@)) + 12 <= usize::MAX,
        nodes_valid(regions.header@),
        nodes_valid(regions.body@),
        nodes_valid(regions.footer@),
    ensures
        final(output)@ == old(output)@ + sidebar_text(*props, *regions, indent, flow, opt_ref(inherited_font), default_family, *context),
    decreases *regions, 2int,
{
    let font = match &props.style.style.font {
        Some(f) => Some(f),
        None => inherited_font,
    };
    assert(opt_ref(font) == font_or(props.style.style.font, opt_ref(inherited_font)));
    let mut out = pad(indent);
    out.append("Column(modifier = ");
    out.append(sidebar_modifier(props, flow).as_str());
    out.append(") {\n");
    out.append(pad(indent).as_str());
    out.append("    CompositionLocalProvider(LocalContentColor provides ");
    out.append(props.style.content.as_str());
    out.append(") {\n");
    render_drawer_side(regions.header.as_slice(), indent, &mut out, font, default_family, context);
    out.append(pad(indent).as_str());
    out.append("        Column(modifier = Modifier.fillMaxWidth().weight(1f).verticalScroll(rememberScrollState())) {\n");
    render_compose_children(regions.body.as_slice(), indent + 12, &mut out, ComposeFlow::Block, font, default_family, context);
    out.append(pad(indent).as_str());
    out.append("        }\n");
    render_drawer_side(regions.footer.as_slice(), indent, &mut out, font, default_family, context);
    out.append(pad(indent).as_str());
    out.append("    }\n");
    out.append(pad(indent).as_str());
    out.append("}\n");
    output.append(out.as_str());
}

/// Writes the nodes above or below a bar.
pub fn render_compose_bar_edge_region(
    children: &[DisplayNode],
    indent: usize,
    output: &mut String,
    inherited_font: Option<&ResponsiveValue<FontFamily>>,
    default_family: FontFamily,
    context: &ComposeReactiveContext,
)
    requires
        item_paths_complete(*context),
        indent + 16 * nodes_size(children@) <= usize::MAX,
        nodes_valid(children@),
    ensures
        final(output)@ == old(output)@ + bar_edge_text(children@, indent, opt_ref(inherited_font), default_family, *context),
    decreases children@, 1int,
{
    render_compose_children(children, indent, output, ComposeFlow::Block, inherited_font, default_family, context);
}

/// Writes a region of a bar: a row of its nodes, nothing without nodes.
pub fn render_compose_bar_region(
    children: &[DisplayNode],
    indent: usize,
    output: &mut String,
    arrangement: &str,
    modifier: &str,
    inherited_font: Option<&ResponsiveValue<FontFamily>>,
    default_family: FontFamily,
    context: &ComposeReactiveContext,
)
    requires
        item_paths_complete(*context),
        indent + 16 * nodes_size(children@) + 4 <= usize::MAX,
        nodes_valid(children@),
    ensures
        final(output)@ == old(output)@ + bar_region_text(children@, indent, arrangement@, modifier@, opt_ref(inherited_font), default_family, *context),
    decreases children@, 1int,
{
    if children.len() == 0 {
        assert(output@ =~= output@ + Seq::<char>::empty());
        return;
    }
    let mut out = pad(indent);
    out.append("Row(modifier = ");
    out.append(modifier);
    out.append(".padding(8.dp), verticalAlignment = Alignment.CenterVertically, horizontalArrangement = ");
    out.append(arrangement);
    out.append(") {\n");
    render_compose_children(children, indent + 4, &mut out, ComposeFlow::Inline, inherited_font, default_family, context);
    out.append(pad(indent).as_str());
    out.append("}\n");
    output.append(out.as_str());
}

/// Writes the start, centre and end regions of a bar.
#[verifier::spinoff_prover]
#[verifier::rlimit(100)]
pub fn render_compose_bar_regions(
    regions: &BarRegions,
    indent: usize,
    output: &mut String,
    inherited_font: Option<&ResponsiveValue<FontFamily>>,
    default_family: FontFamily,
    context: &ComposeReactiveContext,
)
    requires
        item_paths_complete(*context),
        indent + 16 * bar_regions_size(*regions) + 4 <= usize::MAX,
        bar_regions_valid(*regions),
    ensures
        final(output)@ == old(output)@ + bar_regions_text(*regions, indent, opt_ref(inherited_font), default_family, *context),
    decreases *regions, 2int,
{
    let ghost start = output@;
    let ghost f = opt_ref(inherited_font);
    proof {
        assert(nodes_size(regions.start@) <= bar_regions_size(*regions));
        assert(nodes_size(regions.center@) <= bar_regions_size(*regions));
        assert(nodes_size(regions.end@) <= bar_regions_size(*regions));
    }
    render_compose_bar_region(regions.start.as_slice(), indent, output, "Arrangement.Start", "Modifier", inherited_font, default_family, context);
    let ghost a = output@;
    render_compose_bar_region(regions.center.as_slice(), indent, output, "Arrangement.Center", "Modifier.weight(1f)", inherited_font, default_family, context);
    let ghost b = output@;
    render_compose_bar_region(regions.end.as_slice(), indent, output, "Arrangement.End", "Modifier", inherited_font, default_family, context);
    assert(output@ =~= start + bar_regions_text(*regions, indent, f, default_family, *context));
}

#[verifier::spinoff_prover]
#[verifier::rlimit(50)]
fn render_bar_boxed_body(
    regions: &BarRegions,
    width: &str,
    indent: usize,
    output: &mut String,
    inherited_font: Option<&ResponsiveValue<FontFamily>>,
    default_family: FontFamily,
    context: &ComposeReactiveContext,
)
    requires
        item_paths_complete(*context),
        indent + 16 * bar_regions_size(*regions) + 24 <= usize::MAX,
        bar_regions_valid(*regions),
    ensures
        final(output)@ == old(output)@ + bar_boxed_body_text(*regions, width@, indent, opt_ref(inherited_font), default_family, *context),
    decreases *regions, 3int,
{
    let mut out = pad(indent);
    out.append("        Box(modifier = Modifier.fillMaxWidth(), contentAlignment = Alignment.Center) {\n");
    out.append(pad(indent).as_str());
    out.append("            Column(modifier = Modifier.widthIn(max = ");
    out.append(width);
    out.append(".dp).fillMaxWidth()) {\n");
    render_compose_bar_edge_region(regions.top.as_slice(), indent + 16, &mut out, inherited_font, default_family, context);
    out.append(pad(indent).as_str());
    out.append("                Row(modifier = Modifier.fillMaxWidth(), verticalAlignment = Alignment.CenterVertically, horizontalArrangement = Arrangement.SpaceBetween) {\n");
    render_compose_bar_regions(regions, indent + 20, &mut out, inherited_font, default_family, context);
    out.append(pad(indent).as_str());
    out.append("                }\n");
    render_compose_bar_edge_region(regions.bottom.as_slice(), indent + 16, &mut out, inherited_font, default_family, context);
    out.append(pad(indent).as_str());
    out.append("            }\n");
    out.append(pad(indent).as_str());
    out.append("        }\n");
    output.append(out.as_str());
}

#[verifier::spinoff_prover]
#[verifier::rlimit(50)]
fn render_bar_row(
    boxed: bool,
    regions: &BarRegions,
    width: &str,
    indent: usize,
    output: &mut String,
    inherited_font: Option<&ResponsiveValue<FontFamily>>,
    default_family: FontFamily,
    context: &ComposeReactiveContext,
)
    requires
        item_paths_complete(*context),
        indent + 16 * bar_regions_size(*regions) + 24 <= usize::MAX,
        bar_regions_valid(*regions),
    ensures
        final(output)@ == old(output)@ + bar_row_text(boxed, *regions, width@, indent, opt_ref(inherited_font), default_family, *context),
    decreases *regions, 3int,
{
    let mut out = pad(indent);
    if boxed {
        out.append("        Box(modifier = Modifier.fillMaxWidth(), contentAlignment = Alignment.Center) {\n");
        out.append(pad(indent).as_str());
        out.append("            Row(modifier = Modifier.widthIn(max = ");
        out.append(width);
        out.append(".dp).fillMaxWidth(), verticalAlignment = Alignment.CenterVertically, horizontalArrangement = Arrangement.SpaceBetween) {\n");
        render_compose_bar_regions(regions, indent + 16, &mut out, inherited_font, default_family, context);
        out.append(pad(indent).as_str());
        out.append("            }\n");
        out.append(pad(indent).as_str());
        out.append("        }\n");
    } else {
        out.append("        Row(modifier = Modifier.fillMaxWidth(), verticalAlignment = Alignment.CenterVertically, horizontalArrangement = Arrangement.SpaceBetween) {\n");
        render_compose_bar_regions(regions, indent + 12, &mut out, inherited_font, default_family, context);
        out.append(pad(indent).as_str());
        out.append("        }\n");
    }
    output.append(out.as_str());
}

#[verifier::spinoff_prover]
#[verifier::rlimit(100)]
fn render_bar_plain_body(
    boxed: bool,
    regions: &BarRegions,
    width: &str,
    indent: usize,
    output: &mut String,
    inherited_font: Option<&ResponsiveValue<FontFamily>>,
    default_family: FontFamily,
    context: &ComposeReactiveContext,
)
    requires
        item_paths_complete(*context),
        indent + 16 * bar_regions_size(*regions) + 24 <= usize::MAX,
        bar_regions_valid(*regions),
    ensures
        final(output)@ == old(output)@ + bar_plain_body_text(boxed, *regions, width@, indent, opt_ref(inherited_font), default_family, *context),
    decreases *regions, 4int,
{
    let ghost start = output@;
    proof {
        assert(nodes_size(regions.top@) <= bar_regions_size(*regions));
        assert(nodes_size(regions.bottom@) <= bar_regions_size(*regions));
    }
    render_compose_bar_edge_region(regions.top.as_slice(), indent + 8, output, inherited_font, default_family, context);
    render_bar_row(boxed, regions, width, indent, output, inherited_font, default_family, context);
    render_compose_bar_edge_region(regions.bottom.as_slice(), indent + 8, output, inherited_font, default_family, context);
    assert(output@ =~= start + bar_plain_body_text(boxed, *regions, width@, indent, opt_ref(inherited_font), default_family, *context));
}

/// Writes an app bar or a footer with its regions.
#[verifier::spinoff_prover]
#[verifier::rlimit(50)]
pub fn render_compose_bar(
    props: &BarProps,
    boxed_max_width: u16,
    boxed_regions: bool,
    regions: &BarRegions,
    indent: usize,
    output: &mut String,
    flow: ComposeFlow,
    inherited_font: Option<&ResponsiveValue<FontFamily>>,
    default_family: FontFamily,
    context: &ComposeReactiveContext,
)
    requires
        item_paths_complete(*context),
        indent + 16 * bar_regions_size(*regions) + 24 <= usize::MAX,
        bar_regions_valid(*regions),
    ensures
        final(output)@ == old(output)@ + bar_text(*props, boxed_max_width, boxed_regions, *regions, indent, flow, opt_ref(inherited_font), default_family, *context),
    decreases *regions, 5int,
{
    let font = match &props.style.style.font {
        Some(f) => Some(f),
        None => inherited_font,
    };
    assert(opt_ref(font) == font_or(props.style.style.font, opt_ref(inherited_font)));
    let width = decimal_string(boxed_max_width as u64);
    let mut out = pad(indent);
    out.append("Column(modifier = ");
    out.append(modifier_for_bar(props, flow).as_str());
    out.append(") {\n");
    out.append(pad(indent).as_str());
    out.append("    CompositionLocalProvider(LocalContentColor provides ");
    out.append(props.style.content.as_str());
    out.append(") {\n");
    if props.boxed && boxed_regions {
        render_bar_boxed_body(regions, width.as_str(), indent, &mut out, font, default_family, context);
    } else {
        render_bar_plain_body(props.boxed, regions, width.as_str(), indent, &mut out, font, default_family, context);
    }
    out.append(pad(indent).as_str());
    out.append("    }\n");
    out.append(pad(indent).as_str());
    out.append("}\n");
    output.append(out.as_str());
}

/// Writes a layout node, else a button; another node writes nothing.
pub fn render_compose_flow_node(
    node: &DisplayNode,
    indent: usize,
    output: &mut String,
    flow: ComposeFlow,
    inherited_font: Option<&ResponsiveValue<FontFamily>>,
    default_family: FontFamily,
    context: &ComposeReactiveContext,
)
    requires
        item_paths_complete(*context),
        indent + 16 * node_size(*node) <= usize::MAX + 4,
        node_valid(*node),
    ensures
        final(output)@ == old(output)@ + flow_node_text(*node, indent, flow, opt_ref(inherited_font), default_family, *context),
    decreases *node, 2int,
{
    if render_compose_structural_flow_node(node, indent, output, flow, inherited_font, default_family, context) {
        return;
    }
    render_compose_button_flow_node(node, indent, output, flow, inherited_font, default_family, context);
}

/// Writes a button node and tells whether the node is a button; another node writes nothing.
#[verifier::spinoff_prover]
#[verifier::rlimit(50)]
pub fn render_compose_button_flow_node(
    node: &DisplayNode,
    indent: usize,
    output: &mut String,
    flow: ComposeFlow,
    inherited_font: Option<&ResponsiveValue<FontFamily>>,
    default_family: FontFamily,
    context: &ComposeReactiveContext,
) -> (res: bool)
    requires
        item_paths_complete(*context),
        indent + 16 * node_size(*node) <= usize::MAX + 4,
        node_valid(*node),
    ensures
        res == (*node is Button),
        final(output)@ == old(output)@ + button_node_text(*node, indent, flow, opt_ref(inherited_font), default_family, *context),
    decreases *node, 1int,
{
    match node {
        DisplayNode::Button { props, children } => {
            render_button(props, children.as_slice(), indent, output, flow, inherited_font, default_family, context);
            true
        },
        _ => {
            assert(output@ =~= output@ + Seq::<char>::empty());
            false
        },
    }
}

#[verifier::spinoff_prover]
#[verifier::rlimit(50)]
fn render_button_contents(
    props: &ButtonProps,
    children: &[DisplayNode],
    indent: usize,
    output: &mut String,
    inherited_font: Option<&ResponsiveValue<FontFamily>>,
    default_family: FontFamily,
    context: &ComposeReactiveContext,
)
    requires
        indent + 16 * nodes_size(children@) + 4 <= usize::MAX,
        nodes_valid(children@),
        item_paths_complete(*context),
    ensures
        final(output)@ == old(output)@ + button_contents_text(*props, children@, indent, opt_ref(inherited_font), default_family, *context),
    decreases children@, 1int,
{
    render_button_lead(props, indent, output, context);
    render_compose_children(children, indent, output, ComposeFlow::Inline, inherited_font, default_family, context);
    render_button_trail(props, indent, output, context);
}

#[verifier::spinoff_prover]
#[verifier::rlimit(50)]
fn render_button_body(
    props: &ButtonProps,
    children: &[DisplayNode],
    indent: usize,
    output: &mut String,
    inherited_font: Option<&ResponsiveValue<FontFamily>>,
    default_family: FontFamily,
    context: &ComposeReactiveContext,
)
    requires
        indent + 16 * nodes_size(children@) + 28 <= usize::MAX,
        nodes_valid(children@),
        item_paths_complete(*context),
    ensures
        final(output)@ == old(output)@ + button_body_text(*props, children@, indent, opt_ref(inherited_font), default_family, *context),
    decreases children@, 2int,
{
    proof {
        lemma_button_paths_known(*context, *props);
    }
    match &props.reactive.loading {
        Some(path) => {
            let loading = compose_reactive_bool(context, path.as_str());
            let mut out = pad(indent);
            out.append("    Box(contentAlignment = Alignment.Center) {\n");
            out.append(pad(indent).as_str());
            out.append("        Row(modifier = Modifier.graphicsLayer { alpha = if (");
            out.append(loading.as_str());
            out.append(") 0f else 1f }, verticalAlignment = Alignment.CenterVertically) {\n");
            render_button_contents(props, children, indent + 12, &mut out, inherited_font, default_family, context);
            out.append(pad(indent).as_str());
            out.append("        }\n");
            out.append(pad(indent).as_str());
            out.append("        if (");
            out.append(loading.as_str());
            out.append(") {\n");
            out.append(pad(indent).as_str());
            out.append("        }\n");
            out.append(pad(indent).as_str());
            out.append("    }\n");
            output.append(out.as_str());
        },
        None => {
            render_button_contents(props, children, indent + 4, output, inherited_font, default_family, context);
        },
    }
}

fn render_button(
    props: &ButtonProps,
    children: &[DisplayNode],
    indent: usize,
    output: &mut String,
    flow: ComposeFlow,
    inherited_font: Option<&ResponsiveValue<FontFamily>>,
    default_family: FontFamily,
    context: &ComposeReactiveContext,
)
    requires
        indent + 16 * nodes_size(children@) + 28 <= usize::MAX,
        nodes_valid(children@),
        item_paths_complete(*context),
    ensures
        final(output)@ == old(output)@ + button_text(*props, children@, indent, flow, opt_ref(inherited_font), default_family, *context),
    decreases children@, 3int,
{
    proof {
        lemma_button_paths_known(*context, *props);
    }
    let font = match &props.style.style.font {
        Some(f) => Some(f),
        None => inherited_font,
    };
    assert(opt_ref(font) == font_or(props.style.style.font, opt_ref(inherited_font)));
    let mut out = compose_button_open(props, indent, context);
    render_button_body(props, children, indent, &mut out, font, default_family, context);
    out.append(pad(indent).as_str());
    out.append("}\n");
    output.append(out.as_str());
}

/// Writes a layout node with the code of its kind, and tells whether the node
/// is a layout node; another node writes nothing.
#[verifier::spinoff_prover]
#[verifier::rlimit(100)]
pub fn render_compose_structural_flow_node(
    node: &DisplayNode,
    indent: usize,
    output: &mut String,
    flow: ComposeFlow,
    inherited_font: Option<&ResponsiveValue<FontFamily>>,
    default_family: FontFamily,
    context: &ComposeReactiveContext,
) -> (res: bool)
    requires
        item_paths_complete(*context),
        indent + 16 * node_size(*node) <= usize::MAX + 4,
        node_valid(*node),
    ensures
        res == is_structural(*node),
        final(output)@ == old(output)@ + structural_node_text(*node, indent, flow, opt_ref(inherited_font), default_family, *context),
    decreases *node, 1int,
{
    proof {
        assert(node_size(*node) >= 1);
    }
    match node {
        DisplayNode::Splash { binding, parts } => {
            render_splash(binding, parts, indent, output, flow, inherited_font, default_family, context);
            true
        },
        DisplayNode::Flex { props, children } => {
            render_flex(props, children.as_slice(), indent, output, flow, inherited_font, default_family, context);
            true
        },
        DisplayNode::Grid { props, children } => {
            render_grid(props, children.as_slice(), indent, output, flow, inherited_font, default_family, context);
            true
        },
        DisplayNode::Brand { props, children } => {
            render_brand(props, children.as_slice(), indent, output, flow, inherited_font, default_family, context);
            true
        },
        DisplayNode::Banner { props, children } => {
            render_banner(props, children.as_slice(), indent, output, flow, inherited_font, default_family, context);
            true
        },
        DisplayNode::Card { props, children } => {
            render_card(props, children.as_slice(), indent, output, flow, inherited_font, default_family, context);
            true
        },
        _ => {
            assert(output@ =~= output@ + Seq::<char>::empty());
            false
        },
    }
}

#[verifier::spinoff_prover]
#[verifier::rlimit(60)]
fn render_card_cover(
    props: &CardProps,
    cover: &ResponsiveValue<CoverSource>,
    children: &[DisplayNode],
    indent: usize,
    output: &mut String,
    inherited_font: Option<&ResponsiveValue<FontFamily>>,
    default_family: FontFamily,
    context: &ComposeReactiveContext,
)
    requires
        indent + 16 * nodes_size(children@) + 12 <= usize::MAX,
        nodes_valid(children@),
        item_paths_complete(*context),
    ensures
        final(output)@ == old(output)@ + card_cover_text(props.style.style.spacing, *cover, props.overlay, children@, indent, opt_ref(inherited_font), default_family, *context),
    decreases children@, 1int,
{
    let mut out = pad(indent);
    out.append("    DoweCoverBox(modifier = Modifier.fillMaxWidth().fillMaxHeight(), source = ");
    out.append(compose_cover_value(cover).as_str());
    out.append(", overlay = ");
    out.append(compose_optional_overlay(props.overlay.as_ref()).as_str());
    out.append(") {\n");
    out.append(pad(indent).as_str());
    out.append("        Column(modifier = Modifier.fillMaxWidth().fillMaxHeight().padding(");
    out.append(compose_content_padding(&props.style.style.spacing).as_str());
    out.append(")) {\n");
    render_compose_children(children, indent + 12, &mut out, ComposeFlow::Block, inherited_font, default_family, context);
    out.append(pad(indent).as_str());
    out.append("        }\n");
    out.append(pad(indent).as_str());
    out.append("    }\n");
    output.append(out.as_str());
}

#[verifier::spinoff_prover]
#[verifier::rlimit(60)]
fn render_card(
    props: &CardProps,
    children: &[DisplayNode],
    indent: usize,
    output: &mut String,
    flow: ComposeFlow,
    inherited_font: Option<&ResponsiveValue<FontFamily>>,
    default_family: FontFamily,
    context: &ComposeReactiveContext,
)
    requires
        item_paths_complete(*context),
        indent + 16 * nodes_size(children@) + 12 <= usize::MAX,
        nodes_valid(children@),
    ensures
        final(output)@ == old(output)@ + card_text(*props, children@, indent, flow, opt_ref(inherited_font), default_family, *context),
    decreases children@, 2int,
{
    let font = match &props.style.style.font {
        Some(f) => Some(f),
        None => inherited_font,
    };
    assert(opt_ref(font) == font_or(props.style.style.font, opt_ref(inherited_font)));
    let mut out = card_open(props, indent, flow, context);
    match &props.cover {
        Some(cover) => {
            render_card_cover(props, cover, children, indent, &mut out, font, default_family, context);
        },
        None => {
            render_compose_children(children, indent + 4, &mut out, ComposeFlow::Block, font, default_family, context);
        },
    }
    out.append(pad(indent).as_str());
    out.append("    }\n");
    out.append(pad(indent).as_str());
    out.append("}\n");
    output.append(out.as_str());
}

fn render_splash(
    binding: &String,
    parts: &SplashParts,
    indent: usize,
    output: &mut String,
    flow: ComposeFlow,
    inherited_font: Option<&ResponsiveValue<FontFamily>>,
    default_family: FontFamily,
    context: &ComposeReactiveContext,
)
    requires
        item_paths_complete(*context),
        indent + 16 * (nodes_size(parts.children@) + nodes_size(parts.content@)) + 12 <= usize::MAX,
        nodes_valid(parts.children@),
        nodes_valid(parts.content@),
    ensures
        final(output)@ == old(output)@ + splash_text(*binding, *parts, indent, flow, opt_ref(inherited_font), default_family, *context),
    decreases *parts, 2int,
{
    let mut out = pad(indent);
    out.append("if (state.bool(\"");
    out.append(escape_kotlin(context.signal_path(binding.as_str()).as_str()).as_str());
    out.append("\")) {\n");
    render_compose_children(parts.children.as_slice(), indent + 4, &mut out, flow, inherited_font, default_family, context);
    out.append(pad(indent).as_str());
    out.append("} else {\n");
    render_compose_children(parts.content.as_slice(), indent + 4, &mut out, flow, inherited_font, default_family, context);
    out.append(pad(indent).as_str());
    out.append("}\n");
    output.append(out.as_str());
}

fn render_flex_children(
    style: &StyleProps,
    children: &[DisplayNode],
    indent: usize,
    output: &mut String,
    child_flow: ComposeFlow,
    inherited_font: Option<&ResponsiveValue<FontFamily>>,
    default_family: FontFamily,
    context: &ComposeReactiveContext,
)
    requires
        item_paths_complete(*context),
        indent + 16 * nodes_size(children@) + 12 <= usize::MAX,
        nodes_valid(children@),
    ensures
        final(output)@ == old(output)@ + flex_children_text(*style, children@, indent, child_flow, opt_ref(inherited_font), default_family, *context),
    decreases children@, 1int,
{
    let mut inner_pad = pad(indent);
    inner_pad.append("        ");
    let mut out = String::new();
    match crate::layout::compose_content_color(style) {
        Some(color) => {
            out.append(inner_pad.as_str());
            out.append("CompositionLocalProvider(LocalContentColor provides (");
            out.append(color.as_str());
            out.append(" ?: LocalContentColor.current)) {\n");
            render_compose_children(children, indent + 12, &mut out, child_flow, inherited_font, default_family, context);
            out.append(inner_pad.as_str());
            out.append("}\n");
        },
        None => {
            render_compose_children(children, indent + 8, &mut out, child_flow, inherited_font, default_family, context);
            assert(out@ =~= Seq::<char>::empty() + out@ + Seq::<char>::empty());
        },
    }
    output.append(out.as_str());
}

fn render_flex(
    props: &FlexProps,
    children: &[DisplayNode],
    indent: usize,
    output: &mut String,
    flow: ComposeFlow,
    inherited_font: Option<&ResponsiveValue<FontFamily>>,
    default_family: FontFamily,
    context: &ComposeReactiveContext,
)
    requires
        item_paths_complete(*context),
        indent + 16 * nodes_size(children@) + 12 <= usize::MAX,
        nodes_valid(children@),
    ensures
        final(output)@ == old(output)@ + flex_text(*props, children@, indent, flow, opt_ref(inherited_font), default_family, *context),
    decreases children@, 2int,
{
    let font = match &props.style.font {
        Some(f) => Some(f),
        None => inherited_font,
    };
    assert(opt_ref(font) == font_or(props.style.font, opt_ref(inherited_font)));
    let mut out = flex_column(props, indent, flow);
    render_flex_children(&props.style, children, indent, &mut out, ComposeFlow::Block, font, default_family, context);
    out.append(pad(indent).as_str());
    out.append("    }\n");
    out.append(flex_row(props, indent, flow).as_str());
    render_flex_children(&props.style, children, indent, &mut out, ComposeFlow::Inline, font, default_family, context);
    out.append(pad(indent).as_str());
    out.append("    }\n");
    out.append(pad(indent).as_str());
    out.append("}\n");
    output.append(out.as_str());
}

#[verifier::spinoff_prover]
#[verifier::rlimit(60)]
fn render_grid(
    props: &GridProps,
    children: &[DisplayNode],
    indent: usize,
    output: &mut String,
    flow: ComposeFlow,
    inherited_font: Option<&ResponsiveValue<FontFamily>>,
    default_family: FontFamily,
    context: &ComposeReactiveContext,
)
    requires
        item_paths_complete(*context),
        indent + 16 * nodes_size(children@) + 12 <= usize::MAX,
        nodes_valid(children@),
    ensures
        final(output)@ == old(output)@ + grid_text(*props, children@, indent, flow, opt_ref(inherited_font), default_family, *context),
    decreases children@, 2int,
{
    let font = match &props.style.font {
        Some(f) => Some(f),
        None => inherited_font,
    };
    assert(opt_ref(font) == font_or(props.style.font, opt_ref(inherited_font)));
    let mut inner_pad = pad(indent);
    inner_pad.append("    ");
    let mut out = grid_open(props, indent, flow);
    match crate::layout::compose_content_color(&props.style) {
        Some(color) => {
            out.append(inner_pad.as_str());
            out.append("CompositionLocalProvider(LocalContentColor provides (");
            out.append(color.as_str());
            out.append(" ?: LocalContentColor.current)) {\n");
            render_compose_children(children, indent + 8, &mut out, ComposeFlow::Grid, font, default_family, context);
            out.append(inner_pad.as_str());
            out.append("}\n");
        },
        None => {
            assert(out@ + Seq::<char>::empty() =~= out@);
            render_compose_children(children, indent + 4, &mut out, ComposeFlow::Grid, font, default_family, context);
            assert(out@ + Seq::<char>::empty() =~= out@);
        },
    }
    out.append(pad(indent).as_str());
    out.append("}\n");
    output.append(out.as_str());
}

fn render_brand(
    props: &BrandProps,
    children: &[DisplayNode],
    indent: usize,
    output: &mut String,
    flow: ComposeFlow,
    inherited_font: Option<&ResponsiveValue<FontFamily>>,
    default_family: FontFamily,
    context: &ComposeReactiveContext,
)
    requires
        item_paths_complete(*context),
        indent + 16 * nodes_size(children@) + 12 <= usize::MAX,
        nodes_valid(children@),
    ensures
        final(output)@ == old(output)@ + brand_text(*props, children@, indent, flow, opt_ref(inherited_font), default_family, *context),
    decreases children@, 3int,
{
    let font = match &props.style.font {
        Some(f) => Some(f),
        None => inherited_font,
    };
    assert(opt_ref(font) == font_or(props.style.font, opt_ref(inherited_font)));
    let mut out = pad(indent);
    out.append("Row(modifier = ");
    out.append(modifier_for_container_style(&props.style, ComposeFlow::Inline).as_str());
    out.append(link_modifier(props.navigation.as_ref(), props.label.as_ref()).as_str());
    out.append(", verticalAlignment = Alignment.CenterVertically) {\n");
    render_compose_scoped_children(&props.style, children, indent + 4, &mut out, ComposeFlow::Inline, font, default_family, context);
    out.append(pad(indent).as_str());
    out.append("}\n");
    output.append(out.as_str());
}

fn render_banner(
    props: &BannerProps,
    children: &[DisplayNode],
    indent: usize,
    output: &mut String,
    flow: ComposeFlow,
    inherited_font: Option<&ResponsiveValue<FontFamily>>,
    default_family: FontFamily,
    context: &ComposeReactiveContext,
)
    requires
        item_paths_complete(*context),
        indent + 16 * nodes_size(children@) + 12 <= usize::MAX,
        nodes_valid(children@),
    ensures
        final(output)@ == old(output)@ + banner_text(*props, children@, indent, flow, opt_ref(inherited_font), default_family, *context),
    decreases children@, 3int,
{
    let font = match &props.style.font {
        Some(f) => Some(f),
        None => inherited_font,
    };
    assert(opt_ref(font) == font_or(props.style.font, opt_ref(inherited_font)));
    let mut modifier = modifier_for_container_style(&props.style, ComposeFlow::Block);
    modifier.append(link_modifier(Some(&props.navigation), props.label.as_ref()).as_str());
    let mut out = pad(indent);
    match &props.cover {
        Some(cover) => {
            out.append("DoweCoverBox(modifier = ");
            out.append(modifier.as_str());
            out.append(", source = ");
            out.append(compose_cover_value(cover).as_str());
            out.append(", overlay = ");
            out.append(compose_optional_overlay(props.overlay.as_ref()).as_str());
            out.append(") {\n");
            out.append(pad(indent).as_str());
            out.append("    Column(verticalArrangement = Arrangement.spacedBy(0.dp)) {\n");
            render_compose_scoped_children(&props.style, children, indent + 8, &mut out, ComposeFlow::Block, font, default_family, context);
            out.append(pad(indent).as_str());
            out.append("    }\n");
            out.append(pad(indent).as_str());
            out.append("}\n");
        },
        None => {
            out.append("Column(modifier = ");
            out.append(modifier.as_str());
            out.append(", verticalArrangement = Arrangement.spacedBy(0.dp)) {\n");
            render_compose_scoped_children(&props.style, children, indent + 4, &mut out, ComposeFlow::Block, font, default_family, context);
            out.append(pad(indent).as_str());
            out.append("}\n");
        },
    }
    output.append(out.as_str());
}

/// Writes an overlay node with the renderer of its kind; another node writes nothing.
#[verifier::spinoff_prover]
#[verifier::rlimit(100)]
pub fn render_compose_overlay_node(
    node: &DisplayNode,
    indent: usize,
    output: &mut String,
    flow: ComposeFlow,
    inherited_font: Option<&ResponsiveValue<FontFamily>>,
    default_family: FontFamily,
    context: &ComposeReactiveContext,
)
    requires
        item_paths_complete(*context),
        indent + 16 * node_size(*node) <= usize::MAX + 4,
        node_valid(*node),
    ensures
        final(output)@ == old(output)@ + overlay_node_text(*node, indent, flow, opt_ref(inherited_font), default_family, *context),
    decreases *node, 2int,
{
    proof {
        assert(node_size(*node) >= 1);
    }
    match node {
        DisplayNode::Drawer { props, regions } => {
            render_compose_drawer(props, regions, indent, output, inherited_font, default_family, context);
        },
        DisplayNode::Avatar { props, icon } => {
            render_compose_avatar(props, icon.as_ref(), indent, output, context);
        },
        DisplayNode::Badge { props, children } => {
            render_compose_badge(props, children.as_slice(), indent, output, flow, inherited_font, default_family, context);
        },
        DisplayNode::Chip { props, value, start, end } => {
            render_compose_chip(props, value.as_str(), start.as_ref(), end.as_ref(), indent, output, context);
        },
        DisplayNode::Skeleton { props } => {
            render_compose_skeleton(props, indent, output, flow);
        },
        DisplayNode::Modal { props, regions } => {
            render_compose_modal(props, regions, indent, output, inherited_font, default_family, context);
        },
        DisplayNode::AlertDialog { props } => {
            render_compose_alert_dialog(props, indent, output, context);
        },
        DisplayNode::Tooltip { props, children } => {
            render_compose_tooltip(props, children.as_slice(), indent, output, flow, inherited_font, default_family, context);
        },
        DisplayNode::Toast { props } => {
            render_compose_toast(props, indent, output, context);
        },
        DisplayNode::Dropdown { props, parts } => {
            render_compose_dropdown(props, parts, indent, output, flow, inherited_font, default_family, context);
        },
        DisplayNode::Command { props, entries } => {
            render_compose_command(props, entries.as_slice(), indent, output, context);
        },
        _ => {
            assert(output@ =~= output@ + Seq::<char>::empty());
        },
    }
}

fn drawer_head(props: &DrawerProps, indent: usize, path: &str) -> (res: String)
    ensures
        res@ == drawer_head_text(*props, indent, path@),
{
    reveal(drawer_head_text);
    let mut out = pad(indent);
    out.append("DoweDrawer(open = state.bool(\"");
    out.append(path);
    out.append("\"), onClose = { state.write(\"");
    out.append(path);
    out.append("\", false) }, position = \"");
    out.append(props.position.as_str());
    out.append("\", backgroundColor = ");
    out.append(props.style.card_container.as_str());
    out.append(", contentColor = ");
    out.append(props.style.card_content.as_str());
    out.append(", borderColor = ");
    out.append(compose_drawer_border(&props.style));
    out.append(", radius = ");
    out.append(compose_drawer_radius(&props.style.style).as_str());
    out.append(", disableOverlayClose = ");
    out.append(bool_string(props.disable_overlay_close).as_str());
    out.append(", hideCloseButton = ");
    out.append(bool_string(props.hide_close_button).as_str());
    out.append(") {\n");
    out.append(drawer_navigation(indent, path).as_str());
    out.append(pad(indent).as_str());
    out.append("    Column(modifier = ");
    out.append(modifier_for_style_with_base(&props.style.style, String::from_str("Modifier.fillMaxSize().safeDrawingPadding()")).as_str());
    out.append(") {\n");
    out
}

fn render_drawer_side(
    children: &[DisplayNode],
    indent: usize,
    output: &mut String,
    inherited_font: Option<&ResponsiveValue<FontFamily>>,
    default_family: FontFamily,
    context: &ComposeReactiveContext,
)
    requires
        item_paths_complete(*context),
        indent + 16 * nodes_size(children@) + 12 <= usize::MAX,
        nodes_valid(children@),
    ensures
        final(output)@ == old(output)@ + drawer_side_text(children@, indent, opt_ref(inherited_font), default_family, *context),
    decreases children@, 1int,
{
    if children.len() == 0 {
        assert(output@ =~= output@ + Seq::<char>::empty());
    } else {
        let mut out = pad(indent);
        out.append("        Column(modifier = Modifier.fillMaxWidth()) {\n");
        render_compose_children(children, indent + 12, &mut out, ComposeFlow::Block, inherited_font, default_family, context);
        out.append(pad(indent).as_str());
        out.append("        }\n");
        output.append(out.as_str());
    }
}

/// Writes a drawer with its navigation handlers and its header, body and footer.
#[verifier::spinoff_prover]
#[verifier::rlimit(100)]
pub fn render_compose_drawer(
    props: &DrawerProps,
    regions: &OverlayRegions,
    indent: usize,
    output: &mut String,
    inherited_font: Option<&ResponsiveValue<FontFamily>>,
    default_family: FontFamily,
    context: &ComposeReactiveContext,
)
    requires
        item_paths_complete(*context),
        indent + 16 * (nodes_size(regions.header@) + nodes_size(regions.body@) + nodes_size(regions.footer@)) + 12 <= usize::MAX,
        nodes_valid(regions.header@),
        nodes_valid(regions.body@),
        nodes_valid(regions.footer@),
    ensures
        final(output)@ == old(output)@ + drawer_text(*props, *regions, indent, opt_ref(inherited_font), default_family, *context),
    decreases *regions, 2int,
{
    let path = escape_kotlin(context.signal_path(props.open.as_str()).as_str());
    let font = match &props.style.style.font {
        Some(f) => Some(f),
        None => inherited_font,
    };
    assert(opt_ref(font) == font_or(props.style.style.font, opt_ref(inherited_font)));
    let mut out = drawer_head(props, indent, path.as_str());
    render_drawer_side(regions.header.as_slice(), indent, &mut out, font, default_family, context);
    out.append(pad(indent).as_str());
    out.append("        Column(modifier = Modifier.fillMaxWidth().weight(1f).verticalScroll(rememberScrollState())) {\n");
    render_compose_children(regions.body.as_slice(), indent + 12, &mut out, ComposeFlow::Block, font, default_family, context);
    out.append(pad(indent).as_str());
    out.append("        }\n");
    render_drawer_side(regions.footer.as_slice(), indent, &mut out, font, default_family, context);
    out.append(pad(indent).as_str());
    out.append("    }\n");
    out.append(pad(indent).as_str());
    out.append("}\n");
    output.append(out.as_str());
}

/// Writes the children of a region of a modal as a lambda, `null` when it has none.
pub fn render_compose_optional_region_lambda(
    children: &[DisplayNode],
    indent: usize,
    output: &mut String,
    inherited_font: Option<&ResponsiveValue<FontFamily>>,
    default_family: FontFamily,
    context: &ComposeReactiveContext,
)
    requires
        item_paths_complete(*context),
        indent + 16 * nodes_size(children@) + 4 <= usize::MAX,
        nodes_valid(children@),
    ensures
        final(output)@ == old(output)@ + region_lambda_text(children@, indent, opt_ref(inherited_font), default_family, *context),
    decreases children@, 1int,
{
    if children.len() == 0 {
        output.append("null");
    } else {
        let mut out = String::from_str("{\n");
        render_compose_children(children, indent + 4, &mut out, ComposeFlow::Block, inherited_font, default_family, context);
        out.append(pad(indent).as_str());
        out.append("}");
        output.append(out.as_str());
    }
}

/// Writes a modal with its header and footer as lambdas and its body.
pub fn render_compose_modal(
    props: &ModalProps,
    regions: &OverlayRegions,
    indent: usize,
    output: &mut String,
    inherited_font: Option<&ResponsiveValue<FontFamily>>,
    default_family: FontFamily,
    context: &ComposeReactiveContext,
)
    requires
        item_paths_complete(*context),
        indent + 16 * (nodes_size(regions.header@) + nodes_size(regions.body@) + nodes_size(regions.footer@)) + 12 <= usize::MAX,
        nodes_valid(regions.header@),
        nodes_valid(regions.body@),
        nodes_valid(regions.footer@),
    ensures
        final(output)@ == old(output)@ + modal_text(*props, *regions, indent, opt_ref(inherited_font), default_family, *context),
    decreases *regions, 2int,
{
    let path = escape_kotlin(context.signal_path(props.open.as_str()).as_str());
    let mut out = modal_open(props, indent, path.as_str(), context);
    render_compose_optional_region_lambda(regions.header.as_slice(), indent, &mut out, inherited_font, default_family, context);
    out.append(", footer = ");
    render_compose_optional_region_lambda(regions.footer.as_slice(), indent, &mut out, inherited_font, default_family, context);
    out.append(") {\n");
    render_compose_children(regions.body.as_slice(), indent + 4, &mut out, ComposeFlow::Block, inherited_font, default_family, context);
    out.append(pad(indent).as_str());
    out.append("}\n");
    output.append(out.as_str());
}

fn render_dropdown_entries(entries: &[OverlayEntry], indent: usize, output: &mut String, props: &DropdownProps, context: &ComposeReactiveContext)
    requires
        indent + 8 <= usize::MAX,
    ensures
        final(output)@ == old(output)@ + overlay_entries_text(entries@, indent, *props, *context),
{
    let ghost before = output@;
    let mut k: usize = 0;
    while k < entries.len()
        invariant
            k <= entries@.len(),
            indent + 8 <= usize::MAX,
            output@ == before + overlay_entries_text(entries@.take(k as int), indent, *props, *context),
        decreases entries@.len() - k,
    {
        render_compose_overlay_entry(&entries[k], indent, output, props, context);
        assert(entries@.take(k + 1).drop_last() =~= entries@.take(k as int));
        k = k + 1;
    }
    assert(entries@.take(entries@.len() as int) =~= entries@);
}

/// Writes a dropdown menu: the nodes that open it, then its header, its entries and its footer.
#[verifier::spinoff_prover]
#[verifier::rlimit(100)]
pub fn render_compose_dropdown(
    props: &DropdownProps,
    parts: &DropdownParts,
    indent: usize,
    output: &mut String,
    flow: ComposeFlow,
    inherited_font: Option<&ResponsiveValue<FontFamily>>,
    default_family: FontFamily,
    context: &ComposeReactiveContext,
)
    requires
        item_paths_complete(*context),
        indent + 16 * (nodes_size(parts.trigger@) + nodes_size(parts.header@) + nodes_size(parts.footer@)) + 12 <= usize::MAX,
        nodes_valid(parts.trigger@),
        nodes_valid(parts.header@),
        nodes_valid(parts.footer@),
    ensures
        final(output)@ == old(output)@ + dropdown_text(*props, *parts, indent, flow, opt_ref(inherited_font), default_family, *context),
    decreases *parts, 2int,
{
    let mut out = dropdown_open(props, indent);
    render_compose_children(parts.trigger.as_slice(), indent + 4, &mut out, flow, inherited_font, default_family, context);
    out.append(pad(indent).as_str());
    out.append("} content: {\n");
    render_compose_children(parts.header.as_slice(), indent + 4, &mut out, ComposeFlow::Block, inherited_font, default_family, context);
    render_dropdown_entries(parts.entries.as_slice(), indent + 4, &mut out, props, context);
    render_compose_children(parts.footer.as_slice(), indent + 4, &mut out, ComposeFlow::Block, inherited_font, default_family, context);
    out.append(pad(indent).as_str());
    out.append("}\n");
    output.append(out.as_str());
}

fn badge_open(props: &BadgeProps, indent: usize) -> (res: String)
    ensures
        res@ == badge_open_text(*props, indent),
{
    reveal(badge_open_text);
    let mut out = pad(indent);
    out.append("DoweBadge(text = ");
    out.append(compose_string_literal(props.text.as_str()).as_str());
    out.append(", position = ");
    out.append(compose_string_literal(props.position.as_str()).as_str());
    out.append(", backgroundColor = ");
    out.append(props.style.container.as_str());
    out.append(", contentColor = ");
    out.append(props.style.content.as_str());
    out.append(", modifier = ");
    out.append(modifier_for_style(&props.style.style).as_str());
    out.append(") {\n");
    out
}

fn tooltip_open(props: &TooltipProps, indent: usize) -> (res: String)
    ensures
        res@ == tooltip_open_text(*props, indent),
{
    reveal(tooltip_open_text);
    let mut out = pad(indent);
    out.append("DoweTooltip(label = ");
    out.append(compose_string_literal(props.label.as_str()).as_str());
    out.append(", position = ");
    out.append(compose_string_literal(props.position.as_str()).as_str());
    out.append(", backgroundColor = ");
    out.append(props.style.container.as_str());
    out.append(", contentColor = ");
    out.append(props.style.content.as_str());
    out.append(", modifier = ");
    out.append(modifier_for_style(&props.style.style).as_str());
    out.append(") {\n");
    out
}

fn collapsible_open(props: &CollapsibleProps, indent: usize) -> (res: String)
    ensures
        res@ == collapsible_open_text(*props, indent),
{
    reveal(collapsible_open_text);
    let mut out = pad(indent);
    out.append("DoweCollapsible(label = ");
    out.append(compose_string_literal(props.label.as_str()).as_str());
    out.append(", defaultOpen = ");
    out.append(bool_string(props.default_open).as_str());
    out.append(", disabled = ");
    out.append(bool_string(props.disabled).as_str());
    out.append(", backgroundColor = ");
    out.append(props.style.card_container.as_str());
    out.append(", contentColor = ");
    out.append(props.style.card_content.as_str());
    out.append(", borderColor = ");
    out.append(compose_variant_border(&props.style).as_str());
    out.append(", radius = ");
    out.append(compose_card_radius(&props.style.style).as_str());
    out.append(", modifier = ");
    out.append(modifier_for_style(&props.style.style).as_str());
    out.append(", arrowIcon = {\n");
    out
}

fn marquee_open(props: &MarqueeProps, indent: usize) -> (res: String)
    ensures
        res@ == marquee_open_text(*props, indent),
{
    reveal(marquee_open_text);
    let mut out = pad(indent);
    out.append("DoweMarquee(speed = ");
    out.append(compose_string_literal(props.speed.as_str()).as_str());
    out.append(", pauseOnHover = ");
    out.append(bool_string(props.pause_on_hover).as_str());
    out.append(", reverse = ");
    out.append(bool_string(props.reverse).as_str());
    out.append(", orientation = ");
    out.append(compose_string_literal(props.orientation.as_str()).as_str());
    out.append(", fade = ");
    out.append(bool_string(props.fade).as_str());
    out.append(", fadeColor = ");
    out.append(crate::style_values::color_ref(&props.fade_color));
    out.append(", gap = ");
    out.append(compose_scale_literal(props.gap).as_str());
    out.append(", modifier = ");
    out.append(modifier_for_style(&props.style).as_str());
    out.append(") {\n");
    out
}

fn carousel_tail(props: &CarouselProps, indent: usize) -> (res: String)
    ensures
        res@ == carousel_tail_text(*props, indent),
{
    reveal(carousel_tail_text);
    let mut out = String::new();
    out.append(pad(indent).as_str());
    out.append("), autoplay = ");
    out.append(bool_string(props.autoplay).as_str());
    out.append(", autoplayInterval = ");
    out.append(decimal_string(props.autoplay_interval as u64).as_str());
    out.append(", disableLoop = ");
    out.append(bool_string(props.disable_loop).as_str());
    out.append(", hideControls = ");
    out.append(bool_string(props.hide_controls).as_str());
    out.append(", hideIndicators = ");
    out.append(bool_string(props.hide_indicators).as_str());
    out.append(", showNavigation = ");
    out.append(bool_string(props.show_navigation).as_str());
    out.append(", showCounter = ");
    out.append(bool_string(props.show_counter).as_str());
    out.append(", orientation = ");
    out.append(compose_string_literal(props.orientation.as_str()).as_str());
    out.append(", size = ");
    out.append(compose_string_literal(props.size.as_str()).as_str());
    out.append(", indicatorType = ");
    out.append(compose_string_literal(props.indicator_type.as_str()).as_str());
    out.append(", title = ");
    out.append(compose_optional_field(&props.title).as_str());
    out.append(", slideWidth = ");
    out.append(compose_optional_u16(props.slide_width).as_str());
    out.append(", slideHeight = ");
    out.append(compose_optional_u16(props.slide_height).as_str());
    out.append(", slidesPerView = ");
    out.append(decimal_string(props.slides_per_view as u64).as_str());
    out.append(", gap = ");
    out.append(decimal_string(props.gap as u64).as_str());
    out.append(", modifier = ");
    out.append(modifier_for_style(&props.style.style).as_str());
    out.append(", accentColor = ");
    out.append(crate::forms::compose_scheme_color(&props.style));
    out.append(")\n");
    out
}

fn modal_open(props: &ModalProps, indent: usize, path: &str, context: &ComposeReactiveContext) -> (res: String)
    ensures
        res@ == modal_open_text(*props, indent, path@, *context),
{
    reveal(modal_open_text);
    let mut out = pad(indent);
    out.append("DoweModal(open = state.bool(\"");
    out.append(path);
    out.append("\"), close = ");
    out.append(compose_close_action(path, crate::text::opt_str(&props.on_close), context).as_str());
    out.append(", backgroundColor = ");
    out.append(props.style.container.as_str());
    out.append(", contentColor = ");
    out.append(props.style.content.as_str());
    out.append(", borderColor = ");
    out.append(compose_variant_border(&props.style).as_str());
    out.append(", radius = ");
    out.append(compose_card_radius(&props.style.style).as_str());
    out.append(", disableOverlayClose = ");
    out.append(bool_string(props.disable_overlay_close).as_str());
    out.append(", hideCloseButton = ");
    out.append(bool_string(props.hide_close_button).as_str());
    out.append(", header = ");
    out
}

fn dropdown_open(props: &DropdownProps, indent: usize) -> (res: String)
    ensures
        res@ == dropdown_open_text(*props, indent),
{
    reveal(dropdown_open_text);
    let mut out = pad(indent);
    out.append("DoweDropdown(backgroundColor = ");
    out.append(props.style.container.as_str());
    out.append(", contentColor = ");
    out.append(props.style.content.as_str());
    out.append(", modifier = ");
    out.append(modifier_for_style(&props.style.style).as_str());
    out.append(") {\n");
    out
}

/// Writes a badge around its children.
pub fn render_compose_badge(
    props: &BadgeProps,
    children: &[DisplayNode],
    indent: usize,
    output: &mut String,
    flow: ComposeFlow,
    inherited_font: Option<&ResponsiveValue<FontFamily>>,
    default_family: FontFamily,
    context: &ComposeReactiveContext,
)
    requires
        item_paths_complete(*context),
        indent + 16 * nodes_size(children@) + 12 <= usize::MAX,
        nodes_valid(children@),
    ensures
        final(output)@ == old(output)@ + badge_text(*props, children@, indent, flow, opt_ref(inherited_font), default_family, *context),
    decreases children@, 2int,
{
    let mut out = badge_open(props, indent);
    render_compose_children(children, indent + 4, &mut out, flow, inherited_font, default_family, context);
    out.append(pad(indent).as_str());
    out.append("}\n");
    output.append(out.as_str());
}

/// Writes a tooltip around its children.
pub fn render_compose_tooltip(
    props: &TooltipProps,
    children: &[DisplayNode],
    indent: usize,
    output: &mut String,
    flow: ComposeFlow,
    inherited_font: Option<&ResponsiveValue<FontFamily>>,
    default_family: FontFamily,
    context: &ComposeReactiveContext,
)
    requires
        item_paths_complete(*context),
        indent + 16 * nodes_size(children@) + 12 <= usize::MAX,
        nodes_valid(children@),
    ensures
        final(output)@ == old(output)@ + tooltip_text(*props, children@, indent, flow, opt_ref(inherited_font), default_family, *context),
    decreases children@, 2int,
{
    let mut out = tooltip_open(props, indent);
    render_compose_children(children, indent + 4, &mut out, flow, inherited_font, default_family, context);
    out.append(pad(indent).as_str());
    out.append("}\n");
    output.append(out.as_str());
}

/// Writes a collapsible section with its arrow and its children.
pub fn render_compose_collapsible(
    props: &CollapsibleProps,
    arrow: &SvgIcon,
    children: &[DisplayNode],
    indent: usize,
    output: &mut String,
    flow: ComposeFlow,
    inherited_font: Option<&ResponsiveValue<FontFamily>>,
    default_family: FontFamily,
    context: &ComposeReactiveContext,
)
    requires
        item_paths_complete(*context),
        indent + 16 * nodes_size(children@) + 12 <= usize::MAX,
        nodes_valid(children@),
    ensures
        final(output)@ == old(output)@ + collapsible_text(*props, *arrow, children@, indent, flow, opt_ref(inherited_font), default_family, *context),
    decreases children@, 2int,
{
    let font = match &props.style.style.font {
        Some(f) => Some(f),
        None => inherited_font,
    };
    let mut out = collapsible_open(props, indent);
    render_compose_side_icon(arrow, indent + 4, &mut out);
    out.append(pad(indent).as_str());
    out.append("}) {\n");
    assert(opt_ref(font) == font_or(props.style.style.font, opt_ref(inherited_font)));
    render_compose_children(children, indent + 4, &mut out, flow, font, default_family, context);
    out.append(pad(indent).as_str());
    out.append("}\n");
    output.append(out.as_str());
}

/// Writes the children of a container inside a provider of its text color when it has one.
pub fn render_compose_scoped_children(
    props: &StyleProps,
    children: &[DisplayNode],
    indent: usize,
    output: &mut String,
    flow: ComposeFlow,
    inherited_font: Option<&ResponsiveValue<FontFamily>>,
    default_family: FontFamily,
    context: &ComposeReactiveContext,
)
    requires
        item_paths_complete(*context),
        indent + 16 * nodes_size(children@) + 4 <= usize::MAX,
        nodes_valid(children@),
    ensures
        final(output)@ == old(output)@ + scoped_children_text(*props, children@, indent, flow, opt_ref(inherited_font), default_family, *context),
    decreases children@, 2int,
{
    match crate::layout::compose_content_color(props) {
        Some(color) => {
            let mut out = pad(indent);
            out.append("CompositionLocalProvider(LocalContentColor provides (");
            out.append(color.as_str());
            out.append(" ?: LocalContentColor.current)) {\n");
            render_compose_children(children, indent + 4, &mut out, flow, inherited_font, default_family, context);
            out.append(pad(indent).as_str());
            out.append("}\n");
            output.append(out.as_str());
        },
        None => {
            render_compose_children(children, indent, output, flow, inherited_font, default_family, context);
        },
    }
}

/// Writes a marquee with its children.
pub fn render_compose_marquee(
    props: &MarqueeProps,
    children: &[DisplayNode],
    indent: usize,
    output: &mut String,
    flow: ComposeFlow,
    inherited_font: Option<&ResponsiveValue<FontFamily>>,
    default_family: FontFamily,
    context: &ComposeReactiveContext,
)
    requires
        item_paths_complete(*context),
        indent + 16 * nodes_size(children@) + 12 <= usize::MAX,
        nodes_valid(children@),
    ensures
        final(output)@ == old(output)@ + marquee_text(*props, children@, indent, flow, opt_ref(inherited_font), default_family, *context),
    decreases children@, 3int,
{
    let font = match &props.style.font {
        Some(f) => Some(f),
        None => inherited_font,
    };
    let mut out = marquee_open(props, indent);
    assert(opt_ref(font) == font_or(props.style.font, opt_ref(inherited_font)));
    render_compose_scoped_children(&props.style, children, indent + 4, &mut out, flow, font, default_family, context);
    out.append(pad(indent).as_str());
    out.append("}\n");
    output.append(out.as_str());
}

fn render_carousel_slide(
    slide: &CarouselSlide,
    last: bool,
    indent: usize,
    output: &mut String,
    flow: ComposeFlow,
    inherited_font: Option<&ResponsiveValue<FontFamily>>,
    default_family: FontFamily,
    context: &ComposeReactiveContext,
)
    requires
        item_paths_complete(*context),
        indent + 16 * nodes_size(slide.children@) + 8 <= usize::MAX,
        nodes_valid(slide.children@),
    ensures
        final(output)@ == old(output)@ + slide_text(*slide, last, indent, flow, opt_ref(inherited_font), default_family, *context),
    decreases *slide, 1int,
{
    let mut out = pad(indent);
    out.append("    DoweCarouselSlideSpec(id = ");
    out.append(compose_string_literal(slide.id.as_str()).as_str());
    out.append(", content = {\n");
    render_compose_children(slide.children.as_slice(), indent + 8, &mut out, flow, inherited_font, default_family, context);
    out.append(pad(indent).as_str());
    out.append("    })");
    if last {
        assert(out@ =~= out@ + Seq::<char>::empty());
    } else {
        out.append(",");
    }
    out.append("\n");
    output.append(out.as_str());
}

fn render_carousel_slides(
    slides: &[CarouselSlide],
    indent: usize,
    output: &mut String,
    flow: ComposeFlow,
    inherited_font: Option<&ResponsiveValue<FontFamily>>,
    default_family: FontFamily,
    context: &ComposeReactiveContext,
)
    requires
        item_paths_complete(*context),
        indent + 16 * slides_size(slides@) + 12 <= usize::MAX,
        slides_valid(slides@),
    ensures
        final(output)@ == old(output)@ + slides_text(slides@, slides@.len(), indent, flow, opt_ref(inherited_font), default_family, *context),
    decreases slides@, 2int,
{
    let ghost start = output@;
    let ghost total = slides@.len();
    let mut i: usize = 0;
    while i < slides.len()
        invariant
            i <= slides@.len(),
            total == slides@.len(),
            indent + 16 * slides_size(slides@) + 12 <= usize::MAX,
            slides_valid(slides@),
            item_paths_complete(*context),
            output@ == start + slides_text(slides@.take(i as int), total, indent, flow, opt_ref(inherited_font), default_family, *context),
        decreases slides@.len() - i,
    {
        proof {
            lemma_slides_element(slides@, i as int);
            assert(slides@.take(i + 1).drop_last() =~= slides@.take(i as int));
            assert(slides@.take(i + 1).last() == slides@[i as int]);
        }
        render_carousel_slide(&slides[i], i + 1 == slides.len(), indent, output, flow, inherited_font, default_family, context);
        i = i + 1;
    }
    assert(slides@.take(slides@.len() as int) =~= slides@);
}

/// Writes a carousel with its slides.
pub fn render_compose_carousel(
    props: &CarouselProps,
    slides: &[CarouselSlide],
    indent: usize,
    output: &mut String,
    flow: ComposeFlow,
    inherited_font: Option<&ResponsiveValue<FontFamily>>,
    default_family: FontFamily,
    context: &ComposeReactiveContext,
)
    requires
        item_paths_complete(*context),
        indent + 16 * slides_size(slides@) + 12 <= usize::MAX,
        slides_valid(slides@),
    ensures
        final(output)@ == old(output)@ + carousel_text(*props, slides@, indent, flow, opt_ref(inherited_font), default_family, *context),
    decreases slides@, 3int,
{
    let mut out = pad(indent);
    out.append("DoweCarousel(variant = ");
    out.append(compose_string_literal(props.variant.as_str()).as_str());
    out.append(", slides = listOf(\n");
    render_carousel_slides(slides, indent, &mut out, flow, inherited_font, default_family, context);
    out.append(carousel_tail(props, indent).as_str());
    output.append(out.as_str());
}

/// Writes a tree node; a node of another kind writes nothing.
#[allow(unused_variables)]
pub fn render_compose_display_tree(
    node: &DisplayNode,
    indent: usize,
    output: &mut String,
    flow: ComposeFlow,
    inherited_font: Option<&ResponsiveValue<FontFamily>>,
    default_family: FontFamily,
    context: &ComposeReactiveContext,
)
    requires
        indent + 4 <= usize::MAX,
    ensures
        final(output)@ == old(output)@ + (if *node is Tree { leaf_display_text(*node, indent, flow, opt_ref(inherited_font), default_family, *context) } else { Seq::<char>::empty() }),
{
    reveal(leaf_display_text);
    match node {
        DisplayNode::Tree { props } => {
            render_compose_tree(props, indent, output, context);
        },
        _ => {
            assert(output@ =~= output@ + Seq::<char>::empty());
        },
    }
}

/// Writes an avatar group node; a node of another kind writes nothing.
#[allow(unused_variables)]
pub fn render_compose_display_avatar_group(
    node: &DisplayNode,
    indent: usize,
    output: &mut String,
    flow: ComposeFlow,
    inherited_font: Option<&ResponsiveValue<FontFamily>>,
    default_family: FontFamily,
    context: &ComposeReactiveContext,
)
    requires
        indent + 4 <= usize::MAX,
    ensures
        final(output)@ == old(output)@ + (if *node is AvatarGroup { leaf_display_text(*node, indent, flow, opt_ref(inherited_font), default_family, *context) } else { Seq::<char>::empty() }),
{
    reveal(leaf_display_text);
    match node {
        DisplayNode::AvatarGroup { props, items } => {
            render_compose_avatar_group(props, items.as_slice(), indent, output, context);
        },
        _ => {
            assert(output@ =~= output@ + Seq::<char>::empty());
        },
    }
}

/// Writes a chat box node; a node of another kind writes nothing.
#[allow(unused_variables)]
pub fn render_compose_display_chat_box(
    node: &DisplayNode,
    indent: usize,
    output: &mut String,
    flow: ComposeFlow,
    inherited_font: Option<&ResponsiveValue<FontFamily>>,
    default_family: FontFamily,
    context: &ComposeReactiveContext,
)
    requires
        indent + 4 <= usize::MAX,
    ensures
        final(output)@ == old(output)@ + (if *node is ChatBox { leaf_display_text(*node, indent, flow, opt_ref(inherited_font), default_family, *context) } else { Seq::<char>::empty() }),
{
    reveal(leaf_display_text);
    match node {
        DisplayNode::ChatBox { props } => {
            render_compose_chat_box(props, indent, output, context);
        },
        _ => {
            assert(output@ =~= output@ + Seq::<char>::empty());
        },
    }
}

/// Writes an empty state node; a node of another kind writes nothing.
#[allow(unused_variables)]
pub fn render_compose_display_empty(
    node: &DisplayNode,
    indent: usize,
    output: &mut String,
    flow: ComposeFlow,
    inherited_font: Option<&ResponsiveValue<FontFamily>>,
    default_family: FontFamily,
    context: &ComposeReactiveContext,
)
    requires
        indent + 4 <= usize::MAX,
    ensures
        final(output)@ == old(output)@ + (if *node is Empty { leaf_display_text(*node, indent, flow, opt_ref(inherited_font), default_family, *context) } else { Seq::<char>::empty() }),
{
    reveal(leaf_display_text);
    match node {
        DisplayNode::Empty { props, icon } => {
            render_compose_empty(props, icon, indent, output, context);
        },
        _ => {
            assert(output@ =~= output@ + Seq::<char>::empty());
        },
    }
}

/// Writes a typewriter node; a node of another kind writes nothing.
#[allow(unused_variables)]
pub fn render_compose_display_type_writer(
    node: &DisplayNode,
    indent: usize,
    output: &mut String,
    flow: ComposeFlow,
    inherited_font: Option<&ResponsiveValue<FontFamily>>,
    default_family: FontFamily,
    context: &ComposeReactiveContext,
)
    requires
        indent + 4 <= usize::MAX,
    ensures
        final(output)@ == old(output)@ + (if *node is TypeWriter { leaf_display_text(*node, indent, flow, opt_ref(inherited_font), default_family, *context) } else { Seq::<char>::empty() }),
{
    reveal(leaf_display_text);
    match node {
        DisplayNode::TypeWriter { props, items } => {
            render_compose_type_writer(props, items.as_slice(), indent, output);
        },
        _ => {
            assert(output@ =~= output@ + Seq::<char>::empty());
        },
    }
}

/// Writes a voice recorder node; a node of another kind writes nothing.
#[allow(unused_variables)]
pub fn render_compose_display_record(
    node: &DisplayNode,
    indent: usize,
    output: &mut String,
    flow: ComposeFlow,
    inherited_font: Option<&ResponsiveValue<FontFamily>>,
    default_family: FontFamily,
    context: &ComposeReactiveContext,
)
    requires
        indent + 4 <= usize::MAX,
    ensures
        final(output)@ == old(output)@ + (if *node is Record { leaf_display_text(*node, indent, flow, opt_ref(inherited_font), default_family, *context) } else { Seq::<char>::empty() }),
{
    reveal(leaf_display_text);
    match node {
        DisplayNode::Record { props } => {
            render_compose_record(props, indent, output, context);
        },
        _ => {
            assert(output@ =~= output@ + Seq::<char>::empty());
        },
    }
}

/// Writes a toggle group node; a node of another kind writes nothing.
#[allow(unused_variables)]
pub fn render_compose_display_toggle_group(
    node: &DisplayNode,
    indent: usize,
    output: &mut String,
    flow: ComposeFlow,
    inherited_font: Option<&ResponsiveValue<FontFamily>>,
    default_family: FontFamily,
    context: &ComposeReactiveContext,
)
    requires
        indent + 4 <= usize::MAX,
        match *node { DisplayNode::ToggleGroup { props, .. } => pagination_valid(props), _ => true },
    ensures
        final(output)@ == old(output)@ + (if *node is ToggleGroup { leaf_display_text(*node, indent, flow, opt_ref(inherited_font), default_family, *context) } else { Seq::<char>::empty() }),
{
    reveal(leaf_display_text);
    match node {
        DisplayNode::ToggleGroup { props, items, previous, next } => {
            render_compose_toggle_group(props, items.as_slice(), previous, next, indent, output, context);
        },
        _ => {
            assert(output@ =~= output@ + Seq::<char>::empty());
        },
    }
}

/// Writes a camera node; a node of another kind writes nothing.
#[allow(unused_variables)]
pub fn render_compose_display_camera(
    node: &DisplayNode,
    indent: usize,
    output: &mut String,
    flow: ComposeFlow,
    inherited_font: Option<&ResponsiveValue<FontFamily>>,
    default_family: FontFamily,
    context: &ComposeReactiveContext,
)
    requires
        indent + 4 <= usize::MAX,
    ensures
        final(output)@ == old(output)@ + (if *node is Camera { leaf_display_text(*node, indent, flow, opt_ref(inherited_font), default_family, *context) } else { Seq::<char>::empty() }),
{
    reveal(leaf_display_text);
    match node {
        DisplayNode::Camera { props } => {
            render_compose_camera(props, indent, output, context);
        },
        _ => {
            assert(output@ =~= output@ + Seq::<char>::empty());
        },
    }
}

/// Writes a microphone node; a node of another kind writes nothing.
#[allow(unused_variables)]
pub fn render_compose_display_microphone(
    node: &DisplayNode,
    indent: usize,
    output: &mut String,
    flow: ComposeFlow,
    inherited_font: Option<&ResponsiveValue<FontFamily>>,
    default_family: FontFamily,
    context: &ComposeReactiveContext,
)
    requires
        indent + 4 <= usize::MAX,
    ensures
        final(output)@ == old(output)@ + (if *node is Microphone { leaf_display_text(*node, indent, flow, opt_ref(inherited_font), default_family, *context) } else { Seq::<char>::empty() }),
{
    reveal(leaf_display_text);
    match node {
        DisplayNode::Microphone { props } => {
            render_compose_microphone(props, indent, output, context);
        },
        _ => {
            assert(output@ =~= output@ + Seq::<char>::empty());
        },
    }
}

/// Writes an image node; a node of another kind writes nothing.
#[allow(unused_variables)]
pub fn render_compose_display_image(
    node: &DisplayNode,
    indent: usize,
    output: &mut String,
    flow: ComposeFlow,
    inherited_font: Option<&ResponsiveValue<FontFamily>>,
    default_family: FontFamily,
    context: &ComposeReactiveContext,
)
    requires
        indent + 4 <= usize::MAX,
    ensures
        final(output)@ == old(output)@ + (if *node is Image { leaf_display_text(*node, indent, flow, opt_ref(inherited_font), default_family, *context) } else { Seq::<char>::empty() }),
{
    reveal(leaf_display_text);
    match node {
        DisplayNode::Image { props } => {
            render_compose_image(props, indent, output, context);
        },
        _ => {
            assert(output@ =~= output@ + Seq::<char>::empty());
        },
    }
}

/// Writes a countdown node; a node of another kind writes nothing.
#[allow(unused_variables)]
pub fn render_compose_display_countdown(
    node: &DisplayNode,
    indent: usize,
    output: &mut String,
    flow: ComposeFlow,
    inherited_font: Option<&ResponsiveValue<FontFamily>>,
    default_family: FontFamily,
    context: &ComposeReactiveContext,
)
    requires
        indent + 4 <= usize::MAX,
    ensures
        final(output)@ == old(output)@ + (if *node is Countdown { leaf_display_text(*node, indent, flow, opt_ref(inherited_font), default_family, *context) } else { Seq::<char>::empty() }),
{
    reveal(leaf_display_text);
    match node {
        DisplayNode::Countdown { props } => {
            render_compose_countdown(props, indent, output, context);
        },
        _ => {
            assert(output@ =~= output@ + Seq::<char>::empty());
        },
    }
}

/// Writes a map node; a node of another kind writes nothing.
#[allow(unused_variables)]
pub fn render_compose_display_map(
    node: &DisplayNode,
    indent: usize,
    output: &mut String,
    flow: ComposeFlow,
    inherited_font: Option<&ResponsiveValue<FontFamily>>,
    default_family: FontFamily,
    context: &ComposeReactiveContext,
)
    requires
        indent + 4 <= usize::MAX,
    ensures
        final(output)@ == old(output)@ + (if *node is MapView { leaf_display_text(*node, indent, flow, opt_ref(inherited_font), default_family, *context) } else { Seq::<char>::empty() }),
{
    reveal(leaf_display_text);
    match node {
        DisplayNode::MapView { props, markers, waypoints } => {
            render_compose_map(props, markers.as_slice(), waypoints.as_slice(), indent, output, context);
        },
        _ => {
            assert(output@ =~= output@ + Seq::<char>::empty());
        },
    }
}

/// Writes a divider node; a node of another kind writes nothing.
#[allow(unused_variables)]
pub fn render_compose_display_divider(
    node: &DisplayNode,
    indent: usize,
    output: &mut String,
    flow: ComposeFlow,
    inherited_font: Option<&ResponsiveValue<FontFamily>>,
    default_family: FontFamily,
    context: &ComposeReactiveContext,
)
    requires
        indent + 4 <= usize::MAX,
    ensures
        final(output)@ == old(output)@ + (if *node is Divider { leaf_display_text(*node, indent, flow, opt_ref(inherited_font), default_family, *context) } else { Seq::<char>::empty() }),
{
    reveal(leaf_display_text);
    match node {
        DisplayNode::Divider { props, color } => {
            render_divider(props, color, indent, output, flow);
        },
        _ => {
            assert(output@ =~= output@ + Seq::<char>::empty());
        },
    }
}

/// Writes an alert node; a node of another kind writes nothing.
#[allow(unused_variables)]
pub fn render_compose_display_alert(
    node: &DisplayNode,
    indent: usize,
    output: &mut String,
    flow: ComposeFlow,
    inherited_font: Option<&ResponsiveValue<FontFamily>>,
    default_family: FontFamily,
    context: &ComposeReactiveContext,
)
    requires
        indent + 4 <= usize::MAX,
    ensures
        final(output)@ == old(output)@ + (if *node is Alert { leaf_display_text(*node, indent, flow, opt_ref(inherited_font), default_family, *context) } else { Seq::<char>::empty() }),
{
    reveal(leaf_display_text);
    match node {
        DisplayNode::Alert { props } => {
            render_compose_alert(props, indent, output, inherited_font, default_family, context);
        },
        _ => {
            assert(output@ =~= output@ + Seq::<char>::empty());
        },
    }
}

/// Writes a code block node; a node of another kind writes nothing.
#[allow(unused_variables)]
pub fn render_compose_display_code(
    node: &DisplayNode,
    indent: usize,
    output: &mut String,
    flow: ComposeFlow,
    inherited_font: Option<&ResponsiveValue<FontFamily>>,
    default_family: FontFamily,
    context: &ComposeReactiveContext,
)
    requires
        indent + 4 <= usize::MAX,
    ensures
        final(output)@ == old(output)@ + (if *node is Code { leaf_display_text(*node, indent, flow, opt_ref(inherited_font), default_family, *context) } else { Seq::<char>::empty() }),
{
    reveal(leaf_display_text);
    match node {
        DisplayNode::Code { props } => {
            render_compose_code(props, indent, output, context);
        },
        _ => {
            assert(output@ =~= output@ + Seq::<char>::empty());
        },
    }
}

/// Writes a text node; a node of another kind writes nothing.
#[allow(unused_variables)]
pub fn render_compose_display_text(
    node: &DisplayNode,
    indent: usize,
    output: &mut String,
    flow: ComposeFlow,
    inherited_font: Option<&ResponsiveValue<FontFamily>>,
    default_family: FontFamily,
    context: &ComposeReactiveContext,
)
    requires
        indent + 4 <= usize::MAX,
    ensures
        final(output)@ == old(output)@ + (if *node is Text { leaf_display_text(*node, indent, flow, opt_ref(inherited_font), default_family, *context) } else { Seq::<char>::empty() }),
{
    reveal(leaf_display_text);
    match node {
        DisplayNode::Text { props, value, segments, base } => {
            render_compose_text_node(false, props, value.as_str(), segments.as_slice(), base, inherited_font, indent, output, default_family, context);
        },
        _ => {
            assert(output@ =~= output@ + Seq::<char>::empty());
        },
    }
}

/// Writes a title node; a node of another kind writes nothing.
#[allow(unused_variables)]
pub fn render_compose_display_title(
    node: &DisplayNode,
    indent: usize,
    output: &mut String,
    flow: ComposeFlow,
    inherited_font: Option<&ResponsiveValue<FontFamily>>,
    default_family: FontFamily,
    context: &ComposeReactiveContext,
)
    requires
        indent + 4 <= usize::MAX,
    ensures
        final(output)@ == old(output)@ + (if *node is Title { leaf_display_text(*node, indent, flow, opt_ref(inherited_font), default_family, *context) } else { Seq::<char>::empty() }),
{
    reveal(leaf_display_text);
    match node {
        DisplayNode::Title { props, value, segments, base } => {
            render_compose_text_node(true, props, value.as_str(), segments.as_slice(), base, inherited_font, indent, output, default_family, context);
        },
        _ => {
            assert(output@ =~= output@ + Seq::<char>::empty());
        },
    }
}

/// Writes a marquee node; a node of another kind writes nothing.
#[allow(unused_variables)]
pub fn render_compose_display_marquee(
    node: &DisplayNode,
    indent: usize,
    output: &mut String,
    flow: ComposeFlow,
    inherited_font: Option<&ResponsiveValue<FontFamily>>,
    default_family: FontFamily,
    context: &ComposeReactiveContext,
)
    requires
        item_paths_complete(*context),
        indent + 16 * node_size(*node) <= usize::MAX + 4,
        node_valid(*node),
    ensures
        final(output)@ == old(output)@ + (if *node is Marquee { display_node_text(*node, indent, flow, opt_ref(inherited_font), default_family, *context) } else { Seq::<char>::empty() }),
    decreases *node, 1int,
{
    match node {
        DisplayNode::Marquee { props, children } => {
            render_compose_marquee(props, children.as_slice(), indent, output, flow, inherited_font, default_family, context);
        },
        _ => {
            assert(output@ =~= output@ + Seq::<char>::empty());
        },
    }
}

/// Writes a collapsible section node; a node of another kind writes nothing.
#[allow(unused_variables)]
pub fn render_compose_display_collapsible(
    node: &DisplayNode,
    indent: usize,
    output: &mut String,
    flow: ComposeFlow,
    inherited_font: Option<&ResponsiveValue<FontFamily>>,
    default_family: FontFamily,
    context: &ComposeReactiveContext,
)
    requires
        item_paths_complete(*context),
        indent + 16 * node_size(*node) <= usize::MAX + 4,
        node_valid(*node),
    ensures
        final(output)@ == old(output)@ + (if *node is Collapsible { display_node_text(*node, indent, flow, opt_ref(inherited_font), default_family, *context) } else { Seq::<char>::empty() }),
    decreases *node, 1int,
{
    match node {
        DisplayNode::Collapsible { props, arrow, children } => {
            render_compose_collapsible(props, arrow, children.as_slice(), indent, output, flow, inherited_font, default_family, context);
        },
        _ => {
            assert(output@ =~= output@ + Seq::<char>::empty());
        },
    }
}

/// Writes a carousel node; a node of another kind writes nothing.
#[allow(unused_variables)]
pub fn render_compose_display_carousel(
    node: &DisplayNode,
    indent: usize,
    output: &mut String,
    flow: ComposeFlow,
    inherited_font: Option<&ResponsiveValue<FontFamily>>,
    default_family: FontFamily,
    context: &ComposeReactiveContext,
)
    requires
        item_paths_complete(*context),
        indent + 16 * node_size(*node) <= usize::MAX + 4,
        node_valid(*node),
    ensures
        final(output)@ == old(output)@ + (if *node is Carousel { display_node_text(*node, indent, flow, opt_ref(inherited_font), default_family, *context) } else { Seq::<char>::empty() }),
    decreases *node, 1int,
{
    match node {
        DisplayNode::Carousel { props, slides } => {
            render_compose_carousel(props, slides.as_slice(), indent, output, flow, inherited_font, default_family, context);
        },
        _ => {
            assert(output@ =~= output@ + Seq::<char>::empty());
        },
    }
}

/// A node of no leaf kind has no leaf text.
proof fn lemma_no_leaf_text(node: DisplayNode, indent: usize, flow: ComposeFlow, font: Option<ResponsiveValue<FontFamily>>, default_family: FontFamily, context: ComposeReactiveContext)
    requires
        !(node is Tree),
        !(node is AvatarGroup),
        !(node is ChatBox),
        !(node is Empty),
        !(node is TypeWriter),
        !(node is Record),
        !(node is ToggleGroup),
        !(node is Camera),
        !(node is Microphone),
        !(node is Image),
        !(node is Countdown),
        !(node is MapView),
        !(node is Divider),
        !(node is Alert),
        !(node is Code),
        !(node is Text),
        !(node is Title),
    ensures
        leaf_display_text(node, indent, flow, font, default_family, context) == Seq::<char>::empty(),
{
    reveal(leaf_display_text);
}

/// Writes a display node that has no children with the renderer of its kind;
/// another node writes nothing.
#[verifier::spinoff_prover]
pub fn render_compose_display_leaf(
    node: &DisplayNode,
    indent: usize,
    output: &mut String,
    flow: ComposeFlow,
    inherited_font: Option<&ResponsiveValue<FontFamily>>,
    default_family: FontFamily,
    context: &ComposeReactiveContext,
)
    requires
        indent + 4 <= usize::MAX,
        node_valid(*node),
    ensures
        final(output)@ == old(output)@ + leaf_display_text(*node, indent, flow, opt_ref(inherited_font), default_family, *context),
{
    match node {
        DisplayNode::Tree { .. } => render_compose_display_tree(node, indent, output, flow, inherited_font, default_family, context),
        DisplayNode::AvatarGroup { .. } => render_compose_display_avatar_group(node, indent, output, flow, inherited_font, default_family, context),
        DisplayNode::ChatBox { .. } => render_compose_display_chat_box(node, indent, output, flow, inherited_font, default_family, context),
        DisplayNode::Empty { .. } => render_compose_display_empty(node, indent, output, flow, inherited_font, default_family, context),
        DisplayNode::TypeWriter { .. } => render_compose_display_type_writer(node, indent, output, flow, inherited_font, default_family, context),
        DisplayNode::Record { .. } => render_compose_display_record(node, indent, output, flow, inherited_font, default_family, context),
        DisplayNode::ToggleGroup { .. } => render_compose_display_toggle_group(node, indent, output, flow, inherited_font, default_family, context),
        DisplayNode::Camera { .. } => render_compose_display_camera(node, indent, output, flow, inherited_font, default_family, context),
        DisplayNode::Microphone { .. } => render_compose_display_microphone(node, indent, output, flow, inherited_font, default_family, context),
        _ => render_compose_display_leaf_rest(node, indent, output, flow, inherited_font, default_family, context),
    }
}

/// Writes a display node that has no children with the renderer of its kind;
/// another node writes nothing.
#[verifier::spinoff_prover]
pub fn render_compose_display_leaf_rest(
    node: &DisplayNode,
    indent: usize,
    output: &mut String,
    flow: ComposeFlow,
    inherited_font: Option<&ResponsiveValue<FontFamily>>,
    default_family: FontFamily,
    context: &ComposeReactiveContext,
)
    requires
        indent + 4 <= usize::MAX,
        node_valid(*node),
        !(*node is Tree),
        !(*node is AvatarGroup),
        !(*node is ChatBox),
        !(*node is Empty),
        !(*node is TypeWriter),
        !(*node is Record),
        !(*node is ToggleGroup),
        !(*node is Camera),
        !(*node is Microphone),
    ensures
        final(output)@ == old(output)@ + leaf_display_text(*node, indent, flow, opt_ref(inherited_font), default_family, *context),
{
    match node {
        DisplayNode::Image { .. } => render_compose_display_image(node, indent, output, flow, inherited_font, default_family, context),
        DisplayNode::Countdown { .. } => render_compose_display_countdown(node, indent, output, flow, inherited_font, default_family, context),
        DisplayNode::MapView { .. } => render_compose_display_map(node, indent, output, flow, inherited_font, default_family, context),
        DisplayNode::Divider { .. } => render_compose_display_divider(node, indent, output, flow, inherited_font, default_family, context),
        DisplayNode::Alert { .. } => render_compose_display_alert(node, indent, output, flow, inherited_font, default_family, context),
        DisplayNode::Code { .. } => render_compose_display_code(node, indent, output, flow, inherited_font, default_family, context),
        DisplayNode::Text { .. } => render_compose_display_text(node, indent, output, flow, inherited_font, default_family, context),
        DisplayNode::Title { .. } => render_compose_display_title(node, indent, output, flow, inherited_font, default_family, context),
        _ => {
            proof {
                lemma_no_leaf_text(*node, indent, flow, opt_ref(inherited_font), default_family, *context);
            }
            assert(output@ =~= output@ + Seq::<char>::empty());
        },
    }
}

/// Writes a display node with the renderer of its kind; another node writes nothing.
#[verifier::spinoff_prover]
#[verifier::rlimit(100)]
pub fn render_compose_display_node(
    node: &DisplayNode,
    indent: usize,
    output: &mut String,
    flow: ComposeFlow,
    inherited_font: Option<&ResponsiveValue<FontFamily>>,
    default_family: FontFamily,
    context: &ComposeReactiveContext,
)
    requires
        item_paths_complete(*context),
        indent + 16 * node_size(*node) <= usize::MAX + 4,
        node_valid(*node),
    ensures
        final(output)@ == old(output)@ + display_node_text(*node, indent, flow, opt_ref(inherited_font), default_family, *context),
    decreases *node, 2int,
{
    proof {
        assert(node_size(*node) >= 1);
    }
    match node {
        DisplayNode::Marquee { .. } => render_compose_display_marquee(node, indent, output, flow, inherited_font, default_family, context),
        DisplayNode::Collapsible { .. } => render_compose_display_collapsible(node, indent, output, flow, inherited_font, default_family, context),
        DisplayNode::Carousel { .. } => render_compose_display_carousel(node, indent, output, flow, inherited_font, default_family, context),
        _ => render_compose_display_leaf(node, indent, output, flow, inherited_font, default_family, context),
    }
}

} // verus!
