//! The view properties that the generated code reads: what each kind of view
//! node consumes, what a whole view tree consumes, and the JSON entries of the
//! manifest that lists them.
use vstd::prelude::*;
use crate::artifacts::{ViewNode, ViewNodeKind, ViewRoute};

verus! {

/// A property of a view that the generated code reads: its component, the item
/// kind it belongs to (for a property of an item), its name and the field of the
/// view schema it comes from.
#[derive(Debug, Clone)]
pub struct ConsumedProp {
    pub component: String,
    pub item: Option<String>,
    pub prop: String,
    pub ir_field: String,
}

/// A consumed property as text: its component, its item kind, its name and its field.
pub type ConsumedView = (Seq<char>, Option<Seq<char>>, Seq<char>, Seq<char>);

/// The text of a consumed property.
pub open spec fn consumed_view(entry: ConsumedProp) -> ConsumedView {
    (
        entry.component@,
        match entry.item {
            Some(item) => Some(item@),
            None => None,
        },
        entry.prop@,
        entry.ir_field@,
    )
}

/// The texts of consumed properties, in order.
pub open spec fn views(entries: Seq<ConsumedProp>) -> Seq<ConsumedView> {
    entries.map_values(|entry: ConsumedProp| consumed_view(entry))
}

/// A property of a component itself.
pub open spec fn plain_entry(component: Seq<char>, prop: Seq<char>, field: Seq<char>) -> ConsumedView {
    (component, None, prop, field)
}

/// A property of an item of a component.
pub open spec fn item_entry(component: Seq<char>, item: Seq<char>, prop: Seq<char>, field: Seq<char>) -> ConsumedView {
    (component, Some(item), prop, field)
}

/// The entry when the node sets the property, and nothing otherwise.
pub open spec fn entry_if(set: bool, entry: ConsumedView) -> Seq<ConsumedView> {
    if set {
        seq![entry]
    } else {
        Seq::empty()
    }
}

/// The JSON object of a consumed property; its owner is its item kind, or its component.
pub open spec fn entry_view_text(entry: ConsumedView) -> Seq<char> {
    let owner = match entry.1 {
        Some(item) => "Item:"@ + item,
        None => entry.0,
    };
    "{\"component\":\""@ + entry.0 + "\",\"owner\":\""@ + owner + "\",\"prop\":\""@ + entry.2 + "\",\"irField\":\""@
        + entry.3 + "\"}"@
}

/// The JSON object of a consumed property.
pub open spec fn consumed_entry_text(entry: ConsumedProp) -> Seq<char> {
    entry_view_text(consumed_view(entry))
}

/// The JSON object of a consumed property.
pub fn consumed_entry(entry: &ConsumedProp) -> (res: String)
    ensures
        res@ == consumed_entry_text(*entry),
{
    let mut out = String::from_str("{\"component\":\"");
    out.append(entry.component.as_str());
    out.append("\",\"owner\":\"");
    match &entry.item {
        Some(item) => {
            let mut owner = String::from_str("Item:");
            owner.append(item.as_str());
            out.append(owner.as_str());
        },
        None => {
            out.append(entry.component.as_str());
        },
    }
    out.append("\",\"prop\":\"");
    out.append(entry.prop.as_str());
    out.append("\",\"irField\":\"");
    out.append(entry.ir_field.as_str());
    out.append("\"}");
    out
}

proof fn lemma_views_push(entries: Seq<ConsumedProp>, entry: ConsumedProp)
    ensures
        views(entries.push(entry)) == views(entries).push(consumed_view(entry)),
{
    assert(views(entries.push(entry)) =~= views(entries).push(consumed_view(entry)));
}

/// The texts of two runs of consumed properties, one after the other.
pub proof fn lemma_views_concat(a: Seq<ConsumedProp>, b: Seq<ConsumedProp>)
    ensures
        views(a + b) == views(a) + views(b),
{
    assert(views(a + b) =~= views(a) + views(b));
}

fn add_plain(out: &mut Vec<ConsumedProp>, component: &str, prop: &str, field: &str)
    ensures
        views(final(out)@) == views(old(out)@).push(plain_entry(component@, prop@, field@)),
{
    let entry = ConsumedProp {
        component: String::from_str(component),
        item: None,
        prop: String::from_str(prop),
        ir_field: String::from_str(field),
    };
    proof {
        lemma_views_push(out@, entry);
    }
    out.push(entry);
}

fn add_item(out: &mut Vec<ConsumedProp>, component: &str, item: &str, prop: &str, field: &str)
    ensures
        views(final(out)@) == views(old(out)@).push(item_entry(component@, item@, prop@, field@)),
{
    let entry = ConsumedProp {
        component: String::from_str(component),
        item: Some(String::from_str(item)),
        prop: String::from_str(prop),
        ir_field: String::from_str(field),
    };
    proof {
        lemma_views_push(out@, entry);
    }
    out.push(entry);
}

fn add_plain_if(out: &mut Vec<ConsumedProp>, set: bool, component: &str, prop: &str, field: &str)
    ensures
        views(final(out)@) == views(old(out)@) + entry_if(set, plain_entry(component@, prop@, field@)),
{
    let ghost before = views(out@);
    if set {
        add_plain(out, component, prop, field);
        assert(before.push(plain_entry(component@, prop@, field@)) =~= before + seq![plain_entry(component@, prop@, field@)]);
    } else {
        assert(before =~= before + Seq::<ConsumedView>::empty());
    }
}

/// The properties that the layout, chart, navigation and overlay nodes of a kind consume.
pub open spec fn structure_consumed(kind: ViewNodeKind) -> Seq<ConsumedView> {
    match kind {
        ViewNodeKind::Box { bg, text, rounded, padding } => ((((Seq::empty()
            + entry_if(bg, plain_entry("Box"@, "bg"@, "StyleProps.bg"@)))
            + entry_if(text, plain_entry("Box"@, "color"@, "StyleProps.text"@)))
            + entry_if(rounded, plain_entry("Box"@, "rounded"@, "StyleProps.rounded"@)))
            + entry_if(padding, plain_entry("Box"@, "p"@, "SpacingProps.p"@))),
        ViewNodeKind::Section { bg, text, rounded, padding } => ((((Seq::empty()
            + entry_if(bg, plain_entry("Box"@, "bg"@, "StyleProps.bg"@)))
            + entry_if(text, plain_entry("Box"@, "color"@, "StyleProps.text"@)))
            + entry_if(rounded, plain_entry("Box"@, "rounded"@, "StyleProps.rounded"@)))
            + entry_if(padding, plain_entry("Box"@, "p"@, "SpacingProps.p"@))),
        ViewNodeKind::Candlestick => Seq::empty()
            .push(plain_entry("Candlestick"@, "data"@, "ChartCommonProps.data"@))
            .push(plain_entry("Candlestick"@, "series"@, "ChartCommonProps.series"@))
            .push(plain_entry("Candlestick"@, "size"@, "ChartCommonProps.size"@))
            .push(plain_entry("Candlestick"@, "palette"@, "ChartCommonProps.palette"@))
            .push(plain_entry("Candlestick"@, "loading"@, "ChartCommonProps.loading"@))
            .push(plain_entry("Candlestick"@, "stream"@, "CandlestickProps.stream"@))
            .push(plain_entry("Candlestick"@, "upColor"@, "CandlestickProps.up_color"@))
            .push(plain_entry("Candlestick"@, "downColor"@, "CandlestickProps.down_color"@))
            .push(plain_entry("Candlestick"@, "maxPoints"@, "CandlestickProps.max_points"@)),
        ViewNodeKind::ArcChart => Seq::empty()
            .push(plain_entry("ArcChart"@, "data"@, "ChartCommonProps.data"@))
            .push(plain_entry("ArcChart"@, "series"@, "ChartCommonProps.series"@))
            .push(plain_entry("ArcChart"@, "size"@, "ChartCommonProps.size"@))
            .push(plain_entry("ArcChart"@, "palette"@, "ChartCommonProps.palette"@))
            .push(plain_entry("ArcChart"@, "loading"@, "ChartCommonProps.loading"@))
            .push(plain_entry("ArcChart"@, "centerText"@, "ArcChartProps.center_text"@))
            .push(plain_entry("ArcChart"@, "centerValue"@, "ArcChartProps.center_value"@))
            .push(plain_entry("ArcChart"@, "thickness"@, "ArcChartProps.thickness"@))
            .push(plain_entry("ArcChart"@, "gap"@, "ArcChartProps.gap"@))
            .push(plain_entry("ArcChart"@, "startAngle"@, "ArcChartProps.start_angle"@))
            .push(plain_entry("ArcChart"@, "endAngle"@, "ArcChartProps.end_angle"@))
            .push(plain_entry("ArcChart"@, "showGlow"@, "ArcChartProps.show_glow"@)),
        ViewNodeKind::AreaChart => Seq::empty()
            .push(plain_entry("AreaChart"@, "data"@, "ChartCommonProps.data"@))
            .push(plain_entry("AreaChart"@, "series"@, "ChartCommonProps.series"@))
            .push(plain_entry("AreaChart"@, "size"@, "ChartCommonProps.size"@))
            .push(plain_entry("AreaChart"@, "palette"@, "ChartCommonProps.palette"@))
            .push(plain_entry("AreaChart"@, "loading"@, "ChartCommonProps.loading"@))
            .push(plain_entry("AreaChart"@, "curve"@, "AreaChartProps.curve"@))
            .push(plain_entry("AreaChart"@, "strokeWidth"@, "AreaChartProps.stroke_width"@))
            .push(plain_entry("AreaChart"@, "fillOpacity"@, "AreaChartProps.fill_opacity"@))
            .push(plain_entry("AreaChart"@, "stacked"@, "AreaChartProps.stacked"@))
            .push(plain_entry("AreaChart"@, "showPoints"@, "AreaChartProps.show_points"@))
            .push(plain_entry("AreaChart"@, "showGlow"@, "AreaChartProps.show_glow"@)),
        ViewNodeKind::BarChart => Seq::empty()
            .push(plain_entry("BarChart"@, "data"@, "ChartCommonProps.data"@))
            .push(plain_entry("BarChart"@, "series"@, "ChartCommonProps.series"@))
            .push(plain_entry("BarChart"@, "size"@, "ChartCommonProps.size"@))
            .push(plain_entry("BarChart"@, "palette"@, "ChartCommonProps.palette"@))
            .push(plain_entry("BarChart"@, "loading"@, "ChartCommonProps.loading"@))
            .push(plain_entry("BarChart"@, "grouped"@, "BarChartProps.grouped"@))
            .push(plain_entry("BarChart"@, "stacked"@, "BarChartProps.stacked"@))
            .push(plain_entry("BarChart"@, "showValues"@, "BarChartProps.show_values"@))
            .push(plain_entry("BarChart"@, "barRadius"@, "BarChartProps.bar_radius"@))
            .push(plain_entry("BarChart"@, "showGlow"@, "BarChartProps.show_glow"@)),
        ViewNodeKind::LineChart => Seq::empty()
            .push(plain_entry("LineChart"@, "data"@, "ChartCommonProps.data"@))
            .push(plain_entry("LineChart"@, "series"@, "ChartCommonProps.series"@))
            .push(plain_entry("LineChart"@, "size"@, "ChartCommonProps.size"@))
            .push(plain_entry("LineChart"@, "palette"@, "ChartCommonProps.palette"@))
            .push(plain_entry("LineChart"@, "loading"@, "ChartCommonProps.loading"@))
            .push(plain_entry("LineChart"@, "curve"@, "LineChartProps.curve"@))
            .push(plain_entry("LineChart"@, "strokeWidth"@, "LineChartProps.stroke_width"@))
            .push(plain_entry("LineChart"@, "pointRadius"@, "LineChartProps.point_radius"@))
            .push(plain_entry("LineChart"@, "showGradientFill"@, "LineChartProps.show_gradient_fill"@))
            .push(plain_entry("LineChart"@, "showGlow"@, "LineChartProps.show_glow"@)),
        ViewNodeKind::PieChart => Seq::empty()
            .push(plain_entry("PieChart"@, "data"@, "ChartCommonProps.data"@))
            .push(plain_entry("PieChart"@, "series"@, "ChartCommonProps.series"@))
            .push(plain_entry("PieChart"@, "size"@, "ChartCommonProps.size"@))
            .push(plain_entry("PieChart"@, "palette"@, "ChartCommonProps.palette"@))
            .push(plain_entry("PieChart"@, "loading"@, "ChartCommonProps.loading"@))
            .push(plain_entry("PieChart"@, "donut"@, "PieChartProps.donut"@))
            .push(plain_entry("PieChart"@, "donutWidth"@, "PieChartProps.donut_width"@))
            .push(plain_entry("PieChart"@, "centerLabel"@, "PieChartProps.center_label"@))
            .push(plain_entry("PieChart"@, "centerValue"@, "PieChartProps.center_value"@))
            .push(plain_entry("PieChart"@, "startAngle"@, "PieChartProps.start_angle"@))
            .push(plain_entry("PieChart"@, "padAngle"@, "PieChartProps.pad_angle"@))
            .push(plain_entry("PieChart"@, "hideLabels"@, "PieChartProps.hide_labels"@))
            .push(plain_entry("PieChart"@, "hideValues"@, "PieChartProps.hide_values"@))
            .push(plain_entry("PieChart"@, "hidePercentages"@, "PieChartProps.hide_percentages"@))
            .push(plain_entry("PieChart"@, "showGlow"@, "PieChartProps.show_glow"@)),
        ViewNodeKind::Tabs { stepper, bind } => if stepper { (Seq::empty()
            .push(plain_entry("Stepper"@, "position"@, "TabsProps.position"@))
            + entry_if(bind, plain_entry("Stepper"@, "bind"@, "ElementProps.bind"@)))
            .push(item_entry("Stepper"@, "Tab"@, "id"@, "TabItem.id"@))
            .push(item_entry("Stepper"@, "Tab"@, "label"@, "TabItem.label"@))
            .push(item_entry("Stepper"@, "Tab"@, "i18n"@, "TabItem.i18n"@)) } else { (Seq::empty()
            .push(plain_entry("Tabs"@, "position"@, "TabsProps.position"@))
            + entry_if(bind, plain_entry("Tabs"@, "bind"@, "ElementProps.bind"@)))
            .push(item_entry("Tabs"@, "Tab"@, "id"@, "TabItem.id"@))
            .push(item_entry("Tabs"@, "Tab"@, "label"@, "TabItem.label"@))
            .push(item_entry("Tabs"@, "Tab"@, "i18n"@, "TabItem.i18n"@)) },
        ViewNodeKind::Accordion => Seq::empty()
            .push(item_entry("Accordion"@, "Accordion"@, "id"@, "AccordionItem.id"@))
            .push(item_entry("Accordion"@, "Accordion"@, "label"@, "AccordionItem.label"@))
            .push(item_entry("Accordion"@, "Accordion"@, "disabled"@, "AccordionItem.disabled"@))
            .push(item_entry("Accordion"@, "Accordion"@, "defaultOpen"@, "AccordionItem.default_open"@)),
        ViewNodeKind::Carousel => Seq::empty()
            .push(plain_entry("Carousel"@, "slidesPerView"@, "CarouselProps.slides_per_view"@))
            .push(plain_entry("Carousel"@, "autoplay"@, "CarouselProps.autoplay"@))
            .push(plain_entry("Carousel"@, "orientation"@, "CarouselProps.orientation"@)),
        ViewNodeKind::Table => Seq::empty()
            .push(item_entry("Table"@, "TableColumn"@, "field"@, "TableColumn.field"@))
            .push(item_entry("Table"@, "TableColumn"@, "label"@, "TableColumn.label"@))
            .push(item_entry("Table"@, "TableColumn"@, "align"@, "TableColumn.align"@)),
        ViewNodeKind::Tree => Seq::empty()
            .push(plain_entry("Tree"@, "data"@, "TreeProps.data"@))
            .push(plain_entry("Tree"@, "bind"@, "TreeProps.bind"@))
            .push(plain_entry("Tree"@, "defaultOpen"@, "TreeProps.default_open"@))
            .push(plain_entry("Tree"@, "emptyLabel"@, "TreeProps.empty_label"@))
            .push(plain_entry("Tree"@, "ariaLabel"@, "TreeProps.aria_label"@))
            .push(plain_entry("Tree"@, "onSelect"@, "TreeProps.on_select"@))
            .push(plain_entry("Tree"@, "variant"@, "VariantProps.variant"@))
            .push(plain_entry("Tree"@, "scheme"@, "VariantProps.color"@)),
        ViewNodeKind::NavMenu => Seq::empty()
            .push(plain_entry("NavMenu"@, "variant"@, "NavMenuProps.style.variant"@))
            .push(plain_entry("NavMenu"@, "scheme"@, "NavMenuProps.style.color"@))
            .push(plain_entry("NavMenu"@, "size"@, "NavMenuProps.size"@))
            .push(item_entry("NavMenu"@, "NavMenu"@, "label"@, "NavMenuItemProps.label"@))
            .push(item_entry("NavMenu"@, "NavMenu"@, "i18n"@, "NavMenuItemProps.i18n"@))
            .push(item_entry("NavMenu"@, "NavMenu"@, "description"@, "NavMenuItemProps.description"@))
            .push(item_entry("NavMenu"@, "NavMenu"@, "href"@, "NavMenuItemProps.navigation"@)),
        ViewNodeKind::SideNav => Seq::empty()
            .push(plain_entry("SideNav"@, "variant"@, "SideNavProps.style.variant"@))
            .push(plain_entry("SideNav"@, "scheme"@, "SideNavProps.style.color"@))
            .push(plain_entry("SideNav"@, "size"@, "SideNavProps.size"@))
            .push(plain_entry("SideNav"@, "wide"@, "SideNavProps.wide"@))
            .push(item_entry("SideNav"@, "SideNav"@, "label"@, "SideNavItemProps.label"@))
            .push(item_entry("SideNav"@, "SideNav"@, "i18n"@, "SideNavItemProps.i18n"@))
            .push(item_entry("SideNav"@, "SideNav"@, "description"@, "SideNavItemProps.description"@))
            .push(item_entry("SideNav"@, "SideNav"@, "href"@, "SideNavItemProps.navigation"@)),
        ViewNodeKind::RailNav => Seq::empty()
            .push(plain_entry("RailNav"@, "variant"@, "RailNavProps.style.variant"@))
            .push(plain_entry("RailNav"@, "scheme"@, "RailNavProps.style.color"@))
            .push(plain_entry("RailNav"@, "size"@, "RailNavProps.size"@))
            .push(item_entry("RailNav"@, "RailNav"@, "label"@, "RailNavItemProps.label"@))
            .push(item_entry("RailNav"@, "RailNav"@, "i18n"@, "RailNavItemProps.i18n"@))
            .push(item_entry("RailNav"@, "RailNav"@, "href"@, "RailNavItemProps.navigation"@)),
        ViewNodeKind::BottomBar => Seq::empty()
            .push(plain_entry("BottomBar"@, "floating"@, "BarProps.floating"@))
            .push(plain_entry("BottomBar"@, "bordered"@, "BarProps.bordered"@))
            .push(plain_entry("BottomBar"@, "blurred"@, "BarProps.blurred"@))
            .push(plain_entry("BottomBar"@, "boxed"@, "BarProps.boxed"@))
            .push(item_entry("BottomBar"@, "BottomBar"@, "label"@, "BottomBarTab.label"@))
            .push(item_entry("BottomBar"@, "BottomBar"@, "href"@, "BottomBarTab.navigation"@)),
        ViewNodeKind::Svg => Seq::empty()
            .push(plain_entry("Svg"@, "viewBox"@, "SvgProps.view_box"@))
            .push(plain_entry("Svg"@, "data"@, "SvgProps.data"@)),
        ViewNodeKind::Canvas { draw } => if draw { Seq::empty()
            .push(plain_entry("Draw"@, "scene"@, "CanvasProps.scene"@))
            .push(plain_entry("Draw"@, "bind"@, "CanvasProps.layer_bind"@))
            .push(plain_entry("Draw"@, "selected"@, "CanvasProps.selected_layer"@))
            .push(plain_entry("Draw"@, "draw"@, "CanvasProps.draw"@))
            .push(plain_entry("Draw"@, "drawMode"@, "CanvasProps.draw_mode"@))
            .push(plain_entry("Draw"@, "onPointer"@, "CanvasProps.on_pointer"@))
            .push(plain_entry("Draw"@, "onKey"@, "CanvasProps.on_key"@))
            .push(plain_entry("Draw"@, "onMotion"@, "CanvasProps.on_motion"@))
            .push(plain_entry("Draw"@, "onLayerAdd"@, "CanvasProps.on_layer_add"@))
            .push(plain_entry("Draw"@, "onLayerChange"@, "CanvasProps.on_layer_change"@))
            .push(plain_entry("Draw"@, "onLayerRemove"@, "CanvasProps.on_layer_remove"@))
            .push(plain_entry("Draw"@, "onLayerSelect"@, "CanvasProps.on_layer_select"@)) } else { Seq::empty()
            .push(plain_entry("Canvas"@, "scene"@, "CanvasProps.scene"@))
            .push(plain_entry("Canvas"@, "draw"@, "CanvasProps.draw"@))
            .push(plain_entry("Canvas"@, "drawMode"@, "CanvasProps.draw_mode"@))
            .push(plain_entry("Canvas"@, "onPointer"@, "CanvasProps.on_pointer"@))
            .push(plain_entry("Canvas"@, "onKey"@, "CanvasProps.on_key"@))
            .push(plain_entry("Canvas"@, "onMotion"@, "CanvasProps.on_motion"@)) },
        ViewNodeKind::Modal => Seq::empty()
            .push(plain_entry("Modal"@, "bind"@, "ModalProps.open"@)),
        ViewNodeKind::AlertDialog => Seq::empty()
            .push(plain_entry("AlertDialog"@, "bind"@, "AlertDialogProps.open"@)),
        ViewNodeKind::Command => Seq::empty()
            .push(plain_entry("Command"@, "bind"@, "CommandProps.open"@)),
        ViewNodeKind::Toast => Seq::empty()
            .push(plain_entry("Toast"@, "source"@, "ToastProps.source"@)),
        ViewNodeKind::AppBar => Seq::empty()
            .push(plain_entry("AppBar"@, "position"@, "BarProps.position"@))
            .push(plain_entry("AppBar"@, "floating"@, "BarProps.floating"@))
            .push(plain_entry("AppBar"@, "bordered"@, "BarProps.bordered"@))
            .push(plain_entry("AppBar"@, "blurred"@, "BarProps.blurred"@))
            .push(plain_entry("AppBar"@, "hideOnScroll"@, "BarProps.hide_on_scroll"@))
            .push(plain_entry("AppBar"@, "dockOnScroll"@, "BarProps.dock_on_scroll"@)),
        ViewNodeKind::Footer => Seq::empty()
            .push(plain_entry("Footer"@, "bordered"@, "BarProps.bordered"@))
            .push(plain_entry("Footer"@, "blurred"@, "BarProps.blurred"@))
            .push(plain_entry("Footer"@, "boxed"@, "BarProps.boxed"@)),
        ViewNodeKind::Sidebar => Seq::empty()
            .push(plain_entry("Sidebar"@, "variant"@, "SidebarProps.style.variant"@))
            .push(plain_entry("Sidebar"@, "scheme"@, "SidebarProps.style.color"@))
            .push(plain_entry("Sidebar"@, "size"@, "SidebarProps.style.size"@)),
        ViewNodeKind::Scaffold => Seq::empty()
            .push(plain_entry("Scaffold"@, "safeAreaTop"@, "ScaffoldProps.safe_area_top"@))
            .push(plain_entry("Scaffold"@, "safeAreaBottom"@, "ScaffoldProps.safe_area_bottom"@)),
        ViewNodeKind::Drawer => Seq::empty()
            .push(plain_entry("Drawer"@, "bind"@, "DrawerProps.open"@))
            .push(plain_entry("Drawer"@, "position"@, "DrawerProps.position"@))
            .push(plain_entry("Drawer"@, "disableOverlayClose"@, "DrawerProps.disable_overlay_close"@))
            .push(plain_entry("Drawer"@, "hideCloseButton"@, "DrawerProps.hide_close_button"@)),
        _ => Seq::empty(),
    }
}

/// The properties that the layout, chart, navigation and overlay nodes of a kind consume, in the order they are registered.
pub fn structure_consumed_props(kind: ViewNodeKind) -> (res: Vec<ConsumedProp>)
    ensures
        views(res@) == structure_consumed(kind),
{
    let mut out: Vec<ConsumedProp> = Vec::new();
    proof {
        assert(views(out@) =~= Seq::empty());
    }
    match kind {
        ViewNodeKind::Box { bg, text, rounded, padding } => {
            add_plain_if(&mut out, bg, "Box", "bg", "StyleProps.bg");
            add_plain_if(&mut out, text, "Box", "color", "StyleProps.text");
            add_plain_if(&mut out, rounded, "Box", "rounded", "StyleProps.rounded");
            add_plain_if(&mut out, padding, "Box", "p", "SpacingProps.p");
        },
        ViewNodeKind::Section { bg, text, rounded, padding } => {
            add_plain_if(&mut out, bg, "Box", "bg", "StyleProps.bg");
            add_plain_if(&mut out, text, "Box", "color", "StyleProps.text");
            add_plain_if(&mut out, rounded, "Box", "rounded", "StyleProps.rounded");
            add_plain_if(&mut out, padding, "Box", "p", "SpacingProps.p");
        },
        ViewNodeKind::Candlestick => {
            add_plain(&mut out, "Candlestick", "data", "ChartCommonProps.data");
            add_plain(&mut out, "Candlestick", "series", "ChartCommonProps.series");
            add_plain(&mut out, "Candlestick", "size", "ChartCommonProps.size");
            add_plain(&mut out, "Candlestick", "palette", "ChartCommonProps.palette");
            add_plain(&mut out, "Candlestick", "loading", "ChartCommonProps.loading");
            add_plain(&mut out, "Candlestick", "stream", "CandlestickProps.stream");
            add_plain(&mut out, "Candlestick", "upColor", "CandlestickProps.up_color");
            add_plain(&mut out, "Candlestick", "downColor", "CandlestickProps.down_color");
            add_plain(&mut out, "Candlestick", "maxPoints", "CandlestickProps.max_points");
        },
        ViewNodeKind::ArcChart => {
            add_plain(&mut out, "ArcChart", "data", "ChartCommonProps.data");
            add_plain(&mut out, "ArcChart", "series", "ChartCommonProps.series");
            add_plain(&mut out, "ArcChart", "size", "ChartCommonProps.size");
            add_plain(&mut out, "ArcChart", "palette", "ChartCommonProps.palette");
            add_plain(&mut out, "ArcChart", "loading", "ChartCommonProps.loading");
            add_plain(&mut out, "ArcChart", "centerText", "ArcChartProps.center_text");
            add_plain(&mut out, "ArcChart", "centerValue", "ArcChartProps.center_value");
            add_plain(&mut out, "ArcChart", "thickness", "ArcChartProps.thickness");
            add_plain(&mut out, "ArcChart", "gap", "ArcChartProps.gap");
            add_plain(&mut out, "ArcChart", "startAngle", "ArcChartProps.start_angle");
            add_plain(&mut out, "ArcChart", "endAngle", "ArcChartProps.end_angle");
            add_plain(&mut out, "ArcChart", "showGlow", "ArcChartProps.show_glow");
        },
        ViewNodeKind::AreaChart => {
            add_plain(&mut out, "AreaChart", "data", "ChartCommonProps.data");
            add_plain(&mut out, "AreaChart", "series", "ChartCommonProps.series");
            add_plain(&mut out, "AreaChart", "size", "ChartCommonProps.size");
            add_plain(&mut out, "AreaChart", "palette", "ChartCommonProps.palette");
            add_plain(&mut out, "AreaChart", "loading", "ChartCommonProps.loading");
            add_plain(&mut out, "AreaChart", "curve", "AreaChartProps.curve");
            add_plain(&mut out, "AreaChart", "strokeWidth", "AreaChartProps.stroke_width");
            add_plain(&mut out, "AreaChart", "fillOpacity", "AreaChartProps.fill_opacity");
            add_plain(&mut out, "AreaChart", "stacked", "AreaChartProps.stacked");
            add_plain(&mut out, "AreaChart", "showPoints", "AreaChartProps.show_points");
            add_plain(&mut out, "AreaChart", "showGlow", "AreaChartProps.show_glow");
        },
        ViewNodeKind::BarChart => {
            add_plain(&mut out, "BarChart", "data", "ChartCommonProps.data");
            add_plain(&mut out, "BarChart", "series", "ChartCommonProps.series");
            add_plain(&mut out, "BarChart", "size", "ChartCommonProps.size");
            add_plain(&mut out, "BarChart", "palette", "ChartCommonProps.palette");
            add_plain(&mut out, "BarChart", "loading", "ChartCommonProps.loading");
            add_plain(&mut out, "BarChart", "grouped", "BarChartProps.grouped");
            add_plain(&mut out, "BarChart", "stacked", "BarChartProps.stacked");
            add_plain(&mut out, "BarChart", "showValues", "BarChartProps.show_values");
            add_plain(&mut out, "BarChart", "barRadius", "BarChartProps.bar_radius");
            add_plain(&mut out, "BarChart", "showGlow", "BarChartProps.show_glow");
        },
        ViewNodeKind::LineChart => {
            add_plain(&mut out, "LineChart", "data", "ChartCommonProps.data");
            add_plain(&mut out, "LineChart", "series", "ChartCommonProps.series");
            add_plain(&mut out, "LineChart", "size", "ChartCommonProps.size");
            add_plain(&mut out, "LineChart", "palette", "ChartCommonProps.palette");
            add_plain(&mut out, "LineChart", "loading", "ChartCommonProps.loading");
            add_plain(&mut out, "LineChart", "curve", "LineChartProps.curve");
            add_plain(&mut out, "LineChart", "strokeWidth", "LineChartProps.stroke_width");
            add_plain(&mut out, "LineChart", "pointRadius", "LineChartProps.point_radius");
            add_plain(&mut out, "LineChart", "showGradientFill", "LineChartProps.show_gradient_fill");
            add_plain(&mut out, "LineChart", "showGlow", "LineChartProps.show_glow");
        },
        ViewNodeKind::PieChart => {
            add_plain(&mut out, "PieChart", "data", "ChartCommonProps.data");
            add_plain(&mut out, "PieChart", "series", "ChartCommonProps.series");
            add_plain(&mut out, "PieChart", "size", "ChartCommonProps.size");
            add_plain(&mut out, "PieChart", "palette", "ChartCommonProps.palette");
            add_plain(&mut out, "PieChart", "loading", "ChartCommonProps.loading");
            add_plain(&mut out, "PieChart", "donut", "PieChartProps.donut");
            add_plain(&mut out, "PieChart", "donutWidth", "PieChartProps.donut_width");
            add_plain(&mut out, "PieChart", "centerLabel", "PieChartProps.center_label");
            add_plain(&mut out, "PieChart", "centerValue", "PieChartProps.center_value");
            add_plain(&mut out, "PieChart", "startAngle", "PieChartProps.start_angle");
            add_plain(&mut out, "PieChart", "padAngle", "PieChartProps.pad_angle");
            add_plain(&mut out, "PieChart", "hideLabels", "PieChartProps.hide_labels");
            add_plain(&mut out, "PieChart", "hideValues", "PieChartProps.hide_values");
            add_plain(&mut out, "PieChart", "hidePercentages", "PieChartProps.hide_percentages");
            add_plain(&mut out, "PieChart", "showGlow", "PieChartProps.show_glow");
        },
        ViewNodeKind::Tabs { stepper, bind } => {
            if stepper {
                add_plain(&mut out, "Stepper", "position", "TabsProps.position");
                add_plain_if(&mut out, bind, "Stepper", "bind", "ElementProps.bind");
                add_item(&mut out, "Stepper", "Tab", "id", "TabItem.id");
                add_item(&mut out, "Stepper", "Tab", "label", "TabItem.label");
                add_item(&mut out, "Stepper", "Tab", "i18n", "TabItem.i18n");
            } else {
                add_plain(&mut out, "Tabs", "position", "TabsProps.position");
                add_plain_if(&mut out, bind, "Tabs", "bind", "ElementProps.bind");
                add_item(&mut out, "Tabs", "Tab", "id", "TabItem.id");
                add_item(&mut out, "Tabs", "Tab", "label", "TabItem.label");
                add_item(&mut out, "Tabs", "Tab", "i18n", "TabItem.i18n");
            }
        },
        ViewNodeKind::Accordion => {
            add_item(&mut out, "Accordion", "Accordion", "id", "AccordionItem.id");
            add_item(&mut out, "Accordion", "Accordion", "label", "AccordionItem.label");
            add_item(&mut out, "Accordion", "Accordion", "disabled", "AccordionItem.disabled");
            add_item(&mut out, "Accordion", "Accordion", "defaultOpen", "AccordionItem.default_open");
        },
        ViewNodeKind::Carousel => {
            add_plain(&mut out, "Carousel", "slidesPerView", "CarouselProps.slides_per_view");
            add_plain(&mut out, "Carousel", "autoplay", "CarouselProps.autoplay");
            add_plain(&mut out, "Carousel", "orientation", "CarouselProps.orientation");
        },
        ViewNodeKind::Table => {
            add_item(&mut out, "Table", "TableColumn", "field", "TableColumn.field");
            add_item(&mut out, "Table", "TableColumn", "label", "TableColumn.label");
            add_item(&mut out, "Table", "TableColumn", "align", "TableColumn.align");
        },
        ViewNodeKind::Tree => {
            add_plain(&mut out, "Tree", "data", "TreeProps.data");
            add_plain(&mut out, "Tree", "bind", "TreeProps.bind");
            add_plain(&mut out, "Tree", "defaultOpen", "TreeProps.default_open");
            add_plain(&mut out, "Tree", "emptyLabel", "TreeProps.empty_label");
            add_plain(&mut out, "Tree", "ariaLabel", "TreeProps.aria_label");
            add_plain(&mut out, "Tree", "onSelect", "TreeProps.on_select");
            add_plain(&mut out, "Tree", "variant", "VariantProps.variant");
            add_plain(&mut out, "Tree", "scheme", "VariantProps.color");
        },
        ViewNodeKind::NavMenu => {
            add_plain(&mut out, "NavMenu", "variant", "NavMenuProps.style.variant");
            add_plain(&mut out, "NavMenu", "scheme", "NavMenuProps.style.color");
            add_plain(&mut out, "NavMenu", "size", "NavMenuProps.size");
            add_item(&mut out, "NavMenu", "NavMenu", "label", "NavMenuItemProps.label");
            add_item(&mut out, "NavMenu", "NavMenu", "i18n", "NavMenuItemProps.i18n");
            add_item(&mut out, "NavMenu", "NavMenu", "description", "NavMenuItemProps.description");
            add_item(&mut out, "NavMenu", "NavMenu", "href", "NavMenuItemProps.navigation");
        },
        ViewNodeKind::SideNav => {
            add_plain(&mut out, "SideNav", "variant", "SideNavProps.style.variant");
            add_plain(&mut out, "SideNav", "scheme", "SideNavProps.style.color");
            add_plain(&mut out, "SideNav", "size", "SideNavProps.size");
            add_plain(&mut out, "SideNav", "wide", "SideNavProps.wide");
            add_item(&mut out, "SideNav", "SideNav", "label", "SideNavItemProps.label");
            add_item(&mut out, "SideNav", "SideNav", "i18n", "SideNavItemProps.i18n");
            add_item(&mut out, "SideNav", "SideNav", "description", "SideNavItemProps.description");
            add_item(&mut out, "SideNav", "SideNav", "href", "SideNavItemProps.navigation");
        },
        ViewNodeKind::RailNav => {
            add_plain(&mut out, "RailNav", "variant", "RailNavProps.style.variant");
            add_plain(&mut out, "RailNav", "scheme", "RailNavProps.style.color");
            add_plain(&mut out, "RailNav", "size", "RailNavProps.size");
            add_item(&mut out, "RailNav", "RailNav", "label", "RailNavItemProps.label");
            add_item(&mut out, "RailNav", "RailNav", "i18n", "RailNavItemProps.i18n");
            add_item(&mut out, "RailNav", "RailNav", "href", "RailNavItemProps.navigation");
        },
        ViewNodeKind::BottomBar => {
            add_plain(&mut out, "BottomBar", "floating", "BarProps.floating");
            add_plain(&mut out, "BottomBar", "bordered", "BarProps.bordered");
            add_plain(&mut out, "BottomBar", "blurred", "BarProps.blurred");
            add_plain(&mut out, "BottomBar", "boxed", "BarProps.boxed");
            add_item(&mut out, "BottomBar", "BottomBar", "label", "BottomBarTab.label");
            add_item(&mut out, "BottomBar", "BottomBar", "href", "BottomBarTab.navigation");
        },
        ViewNodeKind::Svg => {
            add_plain(&mut out, "Svg", "viewBox", "SvgProps.view_box");
            add_plain(&mut out, "Svg", "data", "SvgProps.data");
        },
        ViewNodeKind::Canvas { draw } => {
            if draw {
                add_plain(&mut out, "Draw", "scene", "CanvasProps.scene");
                add_plain(&mut out, "Draw", "bind", "CanvasProps.layer_bind");
                add_plain(&mut out, "Draw", "selected", "CanvasProps.selected_layer");
                add_plain(&mut out, "Draw", "draw", "CanvasProps.draw");
                add_plain(&mut out, "Draw", "drawMode", "CanvasProps.draw_mode");
                add_plain(&mut out, "Draw", "onPointer", "CanvasProps.on_pointer");
                add_plain(&mut out, "Draw", "onKey", "CanvasProps.on_key");
                add_plain(&mut out, "Draw", "onMotion", "CanvasProps.on_motion");
                add_plain(&mut out, "Draw", "onLayerAdd", "CanvasProps.on_layer_add");
                add_plain(&mut out, "Draw", "onLayerChange", "CanvasProps.on_layer_change");
                add_plain(&mut out, "Draw", "onLayerRemove", "CanvasProps.on_layer_remove");
                add_plain(&mut out, "Draw", "onLayerSelect", "CanvasProps.on_layer_select");
            } else {
                add_plain(&mut out, "Canvas", "scene", "CanvasProps.scene");
                add_plain(&mut out, "Canvas", "draw", "CanvasProps.draw");
                add_plain(&mut out, "Canvas", "drawMode", "CanvasProps.draw_mode");
                add_plain(&mut out, "Canvas", "onPointer", "CanvasProps.on_pointer");
                add_plain(&mut out, "Canvas", "onKey", "CanvasProps.on_key");
                add_plain(&mut out, "Canvas", "onMotion", "CanvasProps.on_motion");
            }
        },
        ViewNodeKind::Modal => {
            add_plain(&mut out, "Modal", "bind", "ModalProps.open");
        },
        ViewNodeKind::AlertDialog => {
            add_plain(&mut out, "AlertDialog", "bind", "AlertDialogProps.open");
        },
        ViewNodeKind::Command => {
            add_plain(&mut out, "Command", "bind", "CommandProps.open");
        },
        ViewNodeKind::Toast => {
            add_plain(&mut out, "Toast", "source", "ToastProps.source");
        },
        ViewNodeKind::AppBar => {
            add_plain(&mut out, "AppBar", "position", "BarProps.position");
            add_plain(&mut out, "AppBar", "floating", "BarProps.floating");
            add_plain(&mut out, "AppBar", "bordered", "BarProps.bordered");
            add_plain(&mut out, "AppBar", "blurred", "BarProps.blurred");
            add_plain(&mut out, "AppBar", "hideOnScroll", "BarProps.hide_on_scroll");
            add_plain(&mut out, "AppBar", "dockOnScroll", "BarProps.dock_on_scroll");
        },
        ViewNodeKind::Footer => {
            add_plain(&mut out, "Footer", "bordered", "BarProps.bordered");
            add_plain(&mut out, "Footer", "blurred", "BarProps.blurred");
            add_plain(&mut out, "Footer", "boxed", "BarProps.boxed");
        },
        ViewNodeKind::Sidebar => {
            add_plain(&mut out, "Sidebar", "variant", "SidebarProps.style.variant");
            add_plain(&mut out, "Sidebar", "scheme", "SidebarProps.style.color");
            add_plain(&mut out, "Sidebar", "size", "SidebarProps.style.size");
        },
        ViewNodeKind::Scaffold => {
            add_plain(&mut out, "Scaffold", "safeAreaTop", "ScaffoldProps.safe_area_top");
            add_plain(&mut out, "Scaffold", "safeAreaBottom", "ScaffoldProps.safe_area_bottom");
        },
        ViewNodeKind::Drawer => {
            add_plain(&mut out, "Drawer", "bind", "DrawerProps.open");
            add_plain(&mut out, "Drawer", "position", "DrawerProps.position");
            add_plain(&mut out, "Drawer", "disableOverlayClose", "DrawerProps.disable_overlay_close");
            add_plain(&mut out, "Drawer", "hideCloseButton", "DrawerProps.hide_close_button");
        },
        _ => {},
    }
    out
}
/// The properties that the media and form input nodes of a kind consume.
pub open spec fn media_consumed(kind: ViewNodeKind) -> Seq<ConsumedView> {
    match kind {
        ViewNodeKind::Audio => Seq::empty()
            .push(plain_entry("Audio"@, "src"@, "AudioProps.src"@)),
        ViewNodeKind::Video => Seq::empty()
            .push(plain_entry("Video"@, "src"@, "VideoProps.src"@))
            .push(plain_entry("Video"@, "poster"@, "VideoProps.poster"@))
            .push(plain_entry("Video"@, "autoplay"@, "VideoProps.autoplay"@)),
        ViewNodeKind::Iframe => Seq::empty()
            .push(plain_entry("Iframe"@, "src"@, "IframeProps.src"@))
            .push(plain_entry("Iframe"@, "sandbox"@, "IframeProps.sandbox"@))
            .push(plain_entry("Iframe"@, "allow"@, "IframeProps.allow"@)),
        ViewNodeKind::Device => Seq::empty()
            .push(plain_entry("Device"@, "device"@, "DeviceProps.device"@))
            .push(plain_entry("Device"@, "bind"@, "DeviceProps.bind"@))
            .push(plain_entry("Device"@, "hideControls"@, "DeviceProps.hide_controls"@))
            .push(plain_entry("Device"@, "hideButtons"@, "DeviceProps.hide_controls"@))
            .push(plain_entry("Device"@, "zoom"@, "DeviceProps.options"@))
            .push(plain_entry("Device"@, "fit"@, "DeviceProps.options"@)),
        ViewNodeKind::Camera => Seq::empty()
            .push(plain_entry("Camera"@, "facing"@, "CameraProps.facing"@))
            .push(plain_entry("Camera"@, "onCapture"@, "CameraProps.on_capture"@))
            .push(plain_entry("Camera"@, "onError"@, "CameraProps.on_error"@)),
        ViewNodeKind::Microphone => Seq::empty()
            .push(plain_entry("Microphone"@, "onError"@, "MicrophoneProps.on_error"@)),
        ViewNodeKind::Editor { on_save } => (Seq::empty()
            .push(plain_entry("Editor"@, "language"@, "EditorProps.language"@))
            .push(plain_entry("Editor"@, "hideToolbar"@, "EditorProps.hide_toolbar"@))
            + entry_if(on_save, plain_entry("Editor"@, "onSave"@, "EditorProps.on_save"@))),
        ViewNodeKind::DateRange => Seq::empty()
            .push(plain_entry("DateRange"@, "start"@, "DateRangeProps.start"@))
            .push(plain_entry("DateRange"@, "end"@, "DateRangeProps.end"@)),
        ViewNodeKind::Phone => Seq::empty()
            .push(plain_entry("Phone"@, "country"@, "PhoneProps.country"@)),
        ViewNodeKind::Pin => Seq::empty()
            .push(plain_entry("Pin"@, "length"@, "PinProps.length"@)),
        ViewNodeKind::Dropzone => Seq::empty()
            .push(plain_entry("Dropzone"@, "multiple"@, "DropzoneProps.multiple"@))
            .push(plain_entry("Dropzone"@, "accept"@, "DropzoneProps.accept"@)),
        ViewNodeKind::Checkbox => Seq::empty()
            .push(plain_entry("Checkbox"@, "checked"@, "CheckboxProps.checked"@)),
        ViewNodeKind::Toggle => Seq::empty()
            .push(plain_entry("Toggle"@, "checked"@, "ToggleProps.checked"@)),
        ViewNodeKind::RadioGroup { card } => if card { Seq::empty()
            .push(plain_entry("RadioCard"@, "orientation"@, "RadioGroupProps.orientation"@)) } else { Seq::empty()
            .push(plain_entry("RadioGroup"@, "orientation"@, "RadioGroupProps.orientation"@)) },
        ViewNodeKind::Slider => Seq::empty()
            .push(plain_entry("Slider"@, "min"@, "SliderProps.min"@))
            .push(plain_entry("Slider"@, "max"@, "SliderProps.max"@))
            .push(plain_entry("Slider"@, "step"@, "SliderProps.step"@)),
        _ => Seq::empty(),
    }
}

/// The properties that the media and form input nodes of a kind consume, in the order they are registered.
pub fn media_consumed_props(kind: ViewNodeKind) -> (res: Vec<ConsumedProp>)
    ensures
        views(res@) == media_consumed(kind),
{
    let mut out: Vec<ConsumedProp> = Vec::new();
    proof {
        assert(views(out@) =~= Seq::empty());
    }
    match kind {
        ViewNodeKind::Audio => {
            add_plain(&mut out, "Audio", "src", "AudioProps.src");
        },
        ViewNodeKind::Video => {
            add_plain(&mut out, "Video", "src", "VideoProps.src");
            add_plain(&mut out, "Video", "poster", "VideoProps.poster");
            add_plain(&mut out, "Video", "autoplay", "VideoProps.autoplay");
        },
        ViewNodeKind::Iframe => {
            add_plain(&mut out, "Iframe", "src", "IframeProps.src");
            add_plain(&mut out, "Iframe", "sandbox", "IframeProps.sandbox");
            add_plain(&mut out, "Iframe", "allow", "IframeProps.allow");
        },
        ViewNodeKind::Device => {
            add_plain(&mut out, "Device", "device", "DeviceProps.device");
            add_plain(&mut out, "Device", "bind", "DeviceProps.bind");
            add_plain(&mut out, "Device", "hideControls", "DeviceProps.hide_controls");
            add_plain(&mut out, "Device", "hideButtons", "DeviceProps.hide_controls");
            add_plain(&mut out, "Device", "zoom", "DeviceProps.options");
            add_plain(&mut out, "Device", "fit", "DeviceProps.options");
        },
        ViewNodeKind::Camera => {
            add_plain(&mut out, "Camera", "facing", "CameraProps.facing");
            add_plain(&mut out, "Camera", "onCapture", "CameraProps.on_capture");
            add_plain(&mut out, "Camera", "onError", "CameraProps.on_error");
        },
        ViewNodeKind::Microphone => {
            add_plain(&mut out, "Microphone", "onError", "MicrophoneProps.on_error");
        },
        ViewNodeKind::Editor { on_save } => {
            add_plain(&mut out, "Editor", "language", "EditorProps.language");
            add_plain(&mut out, "Editor", "hideToolbar", "EditorProps.hide_toolbar");
            add_plain_if(&mut out, on_save, "Editor", "onSave", "EditorProps.on_save");
        },
        ViewNodeKind::DateRange => {
            add_plain(&mut out, "DateRange", "start", "DateRangeProps.start");
            add_plain(&mut out, "DateRange", "end", "DateRangeProps.end");
        },
        ViewNodeKind::Phone => {
            add_plain(&mut out, "Phone", "country", "PhoneProps.country");
        },
        ViewNodeKind::Pin => {
            add_plain(&mut out, "Pin", "length", "PinProps.length");
        },
        ViewNodeKind::Dropzone => {
            add_plain(&mut out, "Dropzone", "multiple", "DropzoneProps.multiple");
            add_plain(&mut out, "Dropzone", "accept", "DropzoneProps.accept");
        },
        ViewNodeKind::Checkbox => {
            add_plain(&mut out, "Checkbox", "checked", "CheckboxProps.checked");
        },
        ViewNodeKind::Toggle => {
            add_plain(&mut out, "Toggle", "checked", "ToggleProps.checked");
        },
        ViewNodeKind::RadioGroup { card } => {
            if card {
                add_plain(&mut out, "RadioCard", "orientation", "RadioGroupProps.orientation");
            } else {
                add_plain(&mut out, "RadioGroup", "orientation", "RadioGroupProps.orientation");
            }
        },
        ViewNodeKind::Slider => {
            add_plain(&mut out, "Slider", "min", "SliderProps.min");
            add_plain(&mut out, "Slider", "max", "SliderProps.max");
            add_plain(&mut out, "Slider", "step", "SliderProps.step");
        },
        _ => {},
    }
    out
}
/// The properties that the image, text, field and button nodes of a kind consume.
pub open spec fn control_consumed(kind: ViewNodeKind) -> Seq<ConsumedView> {
    match kind {
        ViewNodeKind::Image => Seq::empty()
            .push(plain_entry("Image"@, "src"@, "ImageProps.src"@))
            .push(plain_entry("Image"@, "alt"@, "ImageProps.alt"@))
            .push(plain_entry("Image"@, "objectFit"@, "ImageProps.object_fit"@))
            .push(plain_entry("Image"@, "loading"@, "ImageProps.loading"@)),
        ViewNodeKind::Text { size, weight, spacing } => (((Seq::empty()
            + entry_if(size, plain_entry("Text"@, "size"@, "TextProps.size"@)))
            + entry_if(weight, plain_entry("Text"@, "weight"@, "TextProps.weight"@)))
            + entry_if(spacing, plain_entry("Text"@, "spacing"@, "TextProps.letter_spacing"@))),
        ViewNodeKind::Title { size, weight, spacing } => (((Seq::empty()
            + entry_if(size, plain_entry("Text"@, "size"@, "TextProps.size"@)))
            + entry_if(weight, plain_entry("Text"@, "weight"@, "TextProps.weight"@)))
            + entry_if(spacing, plain_entry("Text"@, "spacing"@, "TextProps.letter_spacing"@))),
        ViewNodeKind::Input { scheme, variant, size, bind, label, placeholder, i18n } => (((((((Seq::empty()
            + entry_if(scheme, plain_entry("Input"@, "scheme"@, "VariantProps.color"@)))
            + entry_if(variant, plain_entry("Input"@, "variant"@, "VariantProps.variant"@)))
            + entry_if(size, plain_entry("Input"@, "size"@, "VariantProps.size"@)))
            + entry_if(bind, plain_entry("Input"@, "bind"@, "ElementProps.bind"@)))
            + entry_if(label, plain_entry("Input"@, "label"@, "VariantProps.label"@)))
            + entry_if(placeholder, plain_entry("Input"@, "placeholder"@, "VariantProps.placeholder"@)))
            + entry_if(i18n, plain_entry("Input"@, "i18n"@, "VariantProps.i18n"@))),
        ViewNodeKind::Select { scheme, variant, size, bind, label, placeholder, i18n } => (((((((Seq::empty()
            + entry_if(scheme, plain_entry("Select"@, "scheme"@, "VariantProps.color"@)))
            + entry_if(variant, plain_entry("Select"@, "variant"@, "VariantProps.variant"@)))
            + entry_if(size, plain_entry("Select"@, "size"@, "VariantProps.size"@)))
            + entry_if(bind, plain_entry("Select"@, "bind"@, "ElementProps.bind"@)))
            + entry_if(label, plain_entry("Select"@, "label"@, "VariantProps.label"@)))
            + entry_if(placeholder, plain_entry("Select"@, "placeholder"@, "VariantProps.placeholder"@)))
            + entry_if(i18n, plain_entry("Select"@, "i18n"@, "VariantProps.i18n"@))),
        ViewNodeKind::Button { scheme, variant, size, rounded, loading, disabled } => ((((((Seq::empty()
            + entry_if(scheme, plain_entry("Button"@, "scheme"@, "VariantProps.color"@)))
            + entry_if(variant, plain_entry("Button"@, "variant"@, "VariantProps.variant"@)))
            + entry_if(size, plain_entry("Button"@, "size"@, "VariantProps.size"@)))
            + entry_if(rounded, plain_entry("Button"@, "rounded"@, "VariantProps.style.rounded"@)))
            + entry_if(loading, plain_entry("Button"@, "loading"@, "VariantProps.reactive.loading"@)))
            + entry_if(disabled, plain_entry("Button"@, "disabled"@, "VariantProps.reactive.disabled"@))),
        _ => Seq::empty(),
    }
}

/// The properties that the image, text, field and button nodes of a kind consume, in the order they are registered.
pub fn control_consumed_props(kind: ViewNodeKind) -> (res: Vec<ConsumedProp>)
    ensures
        views(res@) == control_consumed(kind),
{
    let mut out: Vec<ConsumedProp> = Vec::new();
    proof {
        assert(views(out@) =~= Seq::empty());
    }
    match kind {
        ViewNodeKind::Image => {
            add_plain(&mut out, "Image", "src", "ImageProps.src");
            add_plain(&mut out, "Image", "alt", "ImageProps.alt");
            add_plain(&mut out, "Image", "objectFit", "ImageProps.object_fit");
            add_plain(&mut out, "Image", "loading", "ImageProps.loading");
        },
        ViewNodeKind::Text { size, weight, spacing } => {
            add_plain_if(&mut out, size, "Text", "size", "TextProps.size");
            add_plain_if(&mut out, weight, "Text", "weight", "TextProps.weight");
            add_plain_if(&mut out, spacing, "Text", "spacing", "TextProps.letter_spacing");
        },
        ViewNodeKind::Title { size, weight, spacing } => {
            add_plain_if(&mut out, size, "Text", "size", "TextProps.size");
            add_plain_if(&mut out, weight, "Text", "weight", "TextProps.weight");
            add_plain_if(&mut out, spacing, "Text", "spacing", "TextProps.letter_spacing");
        },
        ViewNodeKind::Input { scheme, variant, size, bind, label, placeholder, i18n } => {
            add_plain_if(&mut out, scheme, "Input", "scheme", "VariantProps.color");
            add_plain_if(&mut out, variant, "Input", "variant", "VariantProps.variant");
            add_plain_if(&mut out, size, "Input", "size", "VariantProps.size");
            add_plain_if(&mut out, bind, "Input", "bind", "ElementProps.bind");
            add_plain_if(&mut out, label, "Input", "label", "VariantProps.label");
            add_plain_if(&mut out, placeholder, "Input", "placeholder", "VariantProps.placeholder");
            add_plain_if(&mut out, i18n, "Input", "i18n", "VariantProps.i18n");
        },
        ViewNodeKind::Select { scheme, variant, size, bind, label, placeholder, i18n } => {
            add_plain_if(&mut out, scheme, "Select", "scheme", "VariantProps.color");
            add_plain_if(&mut out, variant, "Select", "variant", "VariantProps.variant");
            add_plain_if(&mut out, size, "Select", "size", "VariantProps.size");
            add_plain_if(&mut out, bind, "Select", "bind", "ElementProps.bind");
            add_plain_if(&mut out, label, "Select", "label", "VariantProps.label");
            add_plain_if(&mut out, placeholder, "Select", "placeholder", "VariantProps.placeholder");
            add_plain_if(&mut out, i18n, "Select", "i18n", "VariantProps.i18n");
        },
        ViewNodeKind::Button { scheme, variant, size, rounded, loading, disabled } => {
            add_plain_if(&mut out, scheme, "Button", "scheme", "VariantProps.color");
            add_plain_if(&mut out, variant, "Button", "variant", "VariantProps.variant");
            add_plain_if(&mut out, size, "Button", "size", "VariantProps.size");
            add_plain_if(&mut out, rounded, "Button", "rounded", "VariantProps.style.rounded");
            add_plain_if(&mut out, loading, "Button", "loading", "VariantProps.reactive.loading");
            add_plain_if(&mut out, disabled, "Button", "disabled", "VariantProps.reactive.disabled");
        },
        _ => {},
    }
    out
}
/// What a node of the given kind consumes.
pub open spec fn node_consumed(kind: ViewNodeKind) -> Seq<ConsumedView> {
    structure_consumed(kind) + media_consumed(kind) + control_consumed(kind)
}

/// What a view tree consumes: its root, then each of its subtrees in order.
pub open spec fn tree_consumed(node: ViewNode) -> Seq<ConsumedView>
    decreases node,
{
    node_consumed(node.kind) + nodes_consumed(node.children@)
}

/// What the trees rooted at `nodes` consume, one tree after the other.
pub open spec fn nodes_consumed(nodes: Seq<ViewNode>) -> Seq<ConsumedView>
    decreases nodes,
{
    if nodes.len() == 0 {
        Seq::empty()
    } else {
        nodes_consumed(nodes.drop_last()) + tree_consumed(nodes.last())
    }
}

/// What the routes consume: the layout tree and then the page tree of each route, in order.
pub open spec fn routes_consumed(routes: Seq<ViewRoute>) -> Seq<ConsumedView>
    decreases routes.len(),
{
    if routes.len() == 0 {
        Seq::empty()
    } else {
        routes_consumed(routes.drop_last()) + tree_consumed(routes.last().layout_tree) + tree_consumed(
            routes.last().page_tree,
        )
    }
}

/// The JSON objects of consumed properties, in order.
pub open spec fn entry_texts(entries: Seq<ConsumedView>) -> Seq<Seq<char>> {
    entries.map_values(|entry: ConsumedView| entry_view_text(entry))
}

/// The JSON objects of two runs of consumed properties, one after the other.
pub proof fn lemma_entry_texts_concat(a: Seq<ConsumedView>, b: Seq<ConsumedView>)
    ensures
        entry_texts(a + b) == entry_texts(a) + entry_texts(b),
{
    assert(entry_texts(a + b) =~= entry_texts(a) + entry_texts(b));
}

/// The properties that a node of the given kind consumes, in the order they are registered.
pub fn node_consumed_props(kind: ViewNodeKind) -> (res: Vec<ConsumedProp>)
    ensures
        views(res@) == node_consumed(kind),
{
    let mut out = structure_consumed_props(kind);
    let mut media = media_consumed_props(kind);
    let mut controls = control_consumed_props(kind);
    let ghost a = out@;
    let ghost b = media@;
    out.append(&mut media);
    proof {
        lemma_views_concat(a, b);
    }
    let ghost ab = out@;
    let ghost c = controls@;
    out.append(&mut controls);
    proof {
        lemma_views_concat(ab, c);
    }
    out
}

/// The properties that a view tree consumes: those of its root, then those of
/// each of its subtrees in order.
pub fn consumed_props_for_tree(node: &ViewNode) -> (res: Vec<ConsumedProp>)
    ensures
        views(res@) == tree_consumed(*node),
    decreases node,
{
    let mut out = node_consumed_props(node.kind);
    let mut i: usize = 0;
    while i < node.children.len()
        invariant
            i <= node.children@.len(),
            views(out@) == node_consumed(node.kind) + nodes_consumed(node.children@.take(i as int)),
        decreases node.children@.len() - i,
    {
        let mut sub = consumed_props_for_tree(&node.children[i]);
        let ghost a = out@;
        let ghost b = sub@;
        out.append(&mut sub);
        proof {
            lemma_views_concat(a, b);
            assert(node.children@.take(i + 1).drop_last() =~= node.children@.take(i as int));
            assert(node.children@.take(i + 1).last() == node.children@[i as int]);
            assert(views(out@) =~= node_consumed(node.kind) + nodes_consumed(node.children@.take(i + 1)));
        }
        i = i + 1;
    }
    assert(node.children@.take(i as int) =~= node.children@);
    out
}

fn push_entries(out: &mut Vec<String>, props: &Vec<ConsumedProp>)
    ensures
        crate::text::string_views(final(out)@) == crate::text::string_views(old(out)@) + entry_texts(views(props@)),
{
    let ghost start = crate::text::string_views(out@);
    let mut k: usize = 0;
    while k < props.len()
        invariant
            k <= props@.len(),
            crate::text::string_views(out@) == start + Seq::new(
                k as nat,
                |j: int| consumed_entry_text(props@[j]),
            ),
        decreases props@.len() - k,
    {
        let entry = consumed_entry(&props[k]);
        let ghost before = out@;
        out.push(entry);
        assert(crate::text::string_views(out@) =~= start + Seq::new(
            (k + 1) as nat,
            |j: int| consumed_entry_text(props@[j]),
        )) by {
            assert(crate::text::string_views(out@) =~= crate::text::string_views(before).push(entry@));
        }
        k = k + 1;
    }
    assert(entry_texts(views(props@)) =~= Seq::new(props@.len(), |j: int| consumed_entry_text(props@[j])));
}

/// The JSON objects of the properties that the routes' trees consume: for each
/// route in order, those of its layout tree and then those of its page tree.
pub fn routes_consumed_entries(routes: &[ViewRoute]) -> (res: Vec<String>)
    ensures
        crate::text::string_views(res@) == entry_texts(routes_consumed(routes@)),
{
    let mut out: Vec<String> = Vec::new();
    let mut i: usize = 0;
    assert(crate::text::string_views(out@) =~= entry_texts(routes_consumed(routes@.take(0))));
    while i < routes.len()
        invariant
            i <= routes@.len(),
            crate::text::string_views(out@) == entry_texts(routes_consumed(routes@.take(i as int))),
        decreases routes@.len() - i,
    {
        let layout = consumed_props_for_tree(&routes[i].layout_tree);
        push_entries(&mut out, &layout);
        let page = consumed_props_for_tree(&routes[i].page_tree);
        push_entries(&mut out, &page);
        proof {
            let prefix = routes@.take(i as int);
            let route = routes@[i as int];
            assert(routes@.take(i + 1).drop_last() =~= prefix);
            assert(routes@.take(i + 1).last() == route);
            lemma_entry_texts_concat(routes_consumed(prefix), tree_consumed(route.layout_tree));
            lemma_entry_texts_concat(
                routes_consumed(prefix) + tree_consumed(route.layout_tree),
                tree_consumed(route.page_tree),
            );
        }
        i = i + 1;
    }
    assert(routes@.take(i as int) =~= routes@);
    out
}

} // verus!
