//! Navigation shell pieces: bars and their bottom tabs, side navigation and menu
//! click handlers, and floating action buttons.
use vstd::prelude::*;
use crate::context::{lookup, ComposeReactiveContext};
use crate::layout::{
    container_modifier_text, compose_fab_horizontal_alignment, compose_fab_vertical_arrangement,
    fab_horizontal_alignment_text, fab_vertical_arrangement_text, modifier_for_container_style, modifier_for_style,
    modifier_for_style_with_base, style_modifier_text, text_if, ComposeFlow, OverlayCornerPosition,
};
use crate::media::{compose_svg_color, render_compose_side_icon, side_icon_line, svg_color_text, SvgIcon};
use crate::navigation::{
    active_text, component_action_text, compose_component_action, compose_localized_literal, compose_navigation_action, compose_side_nav_active, localized_literal_text, navigation_action_text, NavigationAction,
};
use crate::style_values::{bool_string, bool_text, compose_scale_literal, dp_text, ScaleValue};
use crate::text::{kotlin_escaped, opt_str, opt_string_view, opt_view, pad, push_kotlin_escaped, spaces, string_literal_text, compose_string_literal};
use crate::values::{ComponentVariant, VariantProps};

verus! {

/// An item of a navigation menu: the action it runs and the link it follows.
#[derive(Debug, Clone)]
pub struct NavMenuItemProps {
    pub on_click: Option<String>,
    pub navigation: Option<NavigationAction>,
}

/// The click handler of a menu item: its action where the scope has it, else
/// its link, else `null`.
pub open spec fn nav_menu_action_text(props: NavMenuItemProps, context: ComposeReactiveContext) -> Seq<char> {
    let id = match props.on_click {
        Some(name) => lookup(context.action_ids@, name@),
        None => None,
    };
    match id {
        Some(id) => "{ actionScope.launch { state.run(\""@ + kotlin_escaped(id) + "\") } }"@,
        None => match props.navigation {
            Some(a) => navigation_action_text(Some(a)),
            None => "null"@,
        },
    }
}

/// The click handler of a menu item.
pub fn compose_nav_menu_action(props: &NavMenuItemProps, context: &ComposeReactiveContext) -> (res: String)
    ensures
        res@ == nav_menu_action_text(*props, *context),
{
    let id = match &props.on_click {
        Some(name) => context.action_id(name.as_str()),
        None => None,
    };
    match id {
        Some(id) => {
            let mut out = String::from_str("{ actionScope.launch { state.run(\"");
            push_kotlin_escaped(&mut out, id.as_str());
            out.append("\") } }");
            out
        },
        None => match &props.navigation {
            Some(a) => compose_navigation_action(Some(a)),
            None => String::from_str("null"),
        },
    }
}

/// A side navigation: its style and variant.
#[derive(Debug, Clone)]
pub struct SideNavProps {
    pub style: VariantProps,
}

/// The modifier of a side navigation: that of a container, filling the width
/// while the Kotlin condition `wide` holds.
pub open spec fn side_nav_modifier_text(props: SideNavProps, flow: ComposeFlow, wide: Seq<char>) -> Seq<char> {
    container_modifier_text(props.style.style, flow) + ".then(if ("@ + wide + ") Modifier.fillMaxWidth() else Modifier)"@
}

/// The modifier of a side navigation.
pub fn compose_side_nav_modifier(props: &SideNavProps, flow: ComposeFlow, wide: &str) -> (res: String)
    ensures
        res@ == side_nav_modifier_text(*props, flow, wide@),
{
    let mut out = modifier_for_container_style(&props.style.style, flow);
    out.append(".then(if (");
    out.append(wide);
    out.append(") Modifier.fillMaxWidth() else Modifier)");
    out
}

/// A bar: its style and variant, and whether it floats, has a border, or boxes its content.
#[derive(Debug, Clone)]
pub struct BarProps {
    pub style: VariantProps,
    pub floating: bool,
    pub bordered: bool,
    pub boxed: bool,
}

/// The base of a bar's modifier: full width in a block flow without a width, at
/// least 48dp high, and inset when it floats.
pub open spec fn bar_base_text(props: BarProps, flow: ComposeFlow) -> Seq<char> {
    "Modifier"@ + text_if(flow == ComposeFlow::Block && props.style.style.sizing.w is None, ".fillMaxWidth()"@)
        + ".heightIn(min = 48.dp)"@ + text_if(props.floating, ".padding(horizontal = 16.dp, vertical = 8.dp)"@)
}

/// The modifier of a bar: its base and style, clipped when it floats, its
/// background, and a border when it has one or floats.
#[verifier::opaque]
pub open spec fn bar_modifier_text(props: BarProps, flow: ComposeFlow) -> Seq<char> {
    style_modifier_text(props.style.style, bar_base_text(props, flow))
        + text_if(props.floating, ".clip(RoundedCornerShape(DoweDesign.radiusBox))"@)
        + ".background("@ + props.style.container@ + ")"@
        + text_if(
            props.bordered || props.floating,
            ".border(1.dp, DoweDesign.muted, RoundedCornerShape("@
                + (if props.floating { "DoweDesign.radiusBox"@ } else { "0.dp"@ }) + "))"@,
        )
}

/// The modifier of a bar.
pub fn modifier_for_bar(props: &BarProps, flow: ComposeFlow) -> (res: String)
    ensures
        res@ == bar_modifier_text(*props, flow),
{
    reveal(bar_modifier_text);
    let mut base = String::from_str("Modifier");
    if flow == ComposeFlow::Block && props.style.style.sizing.w.is_none() {
        base.append(".fillMaxWidth()");
    } else {
        assert(base@ =~= base@ + Seq::<char>::empty());
    }
    base.append(".heightIn(min = 48.dp)");
    if props.floating {
        base.append(".padding(horizontal = 16.dp, vertical = 8.dp)");
    } else {
        assert(base@ =~= base@ + Seq::<char>::empty());
    }
    let mut modifier = modifier_for_style_with_base(&props.style.style, base);
    if props.floating {
        modifier.append(".clip(RoundedCornerShape(DoweDesign.radiusBox))");
    } else {
        assert(modifier@ =~= modifier@ + Seq::<char>::empty());
    }
    modifier.append(".background(");
    modifier.append(props.style.container.as_str());
    modifier.append(")");
    if props.bordered || props.floating {
        let radius = if props.floating { "DoweDesign.radiusBox" } else { "0.dp" };
        let mut part = String::from_str(".border(1.dp, DoweDesign.muted, RoundedCornerShape(");
        part.append(radius);
        part.append("))");
        modifier.append(part.as_str());
    } else {
        assert(modifier@ =~= modifier@ + Seq::<char>::empty());
    }
    modifier
}

/// A tab of a bottom bar: its label and translation resource, its link, whether
/// it is featured, its icon and whether the icon is animated.
#[derive(Debug, Clone)]
pub struct BottomBarTab {
    pub label: String,
    pub i18n: Option<String>,
    pub navigation: NavigationAction,
    pub featured: bool,
    pub icon: SvgIcon,
    pub animated: bool,
}

/// The Compose call of a tab of a bottom bar: a featured tab is larger and
/// drawn in the primary colors.
pub open spec fn bottom_tab_text(props: BarProps, tab: BottomBarTab, indent: usize) -> Seq<char> {
    let featured = tab.featured;
    spaces(indent as nat) + "    DoweRailNavItem(label = "@ + localized_literal_text(tab.label@, opt_string_view(tab.i18n))
        + ", showLabel = true, active = "@ + active_text(Some(tab.navigation)) + ", itemSize = "@
        + (if featured { "56"@ } else { "48"@ }) + ".dp, labelSize = 10f, backgroundColor = "@
        + (if featured { "DoweDesign.primary"@ } else { props.style.container@ }) + ", contentColor = "@
        + (if featured { "DoweDesign.primaryText"@ } else { props.style.content@ })
        + ", borderColor = null, featured = "@ + bool_text(featured) + ", onClick = "@
        + navigation_action_text(Some(tab.navigation)) + ") {\n"@
        + spaces(indent as nat) + "        DoweSvg(viewBox = "@ + tab.icon.view_box@
        + ", modifier = Modifier.size(20.dp), color = "@
        + (if featured { "DoweDesign.primaryText"@ } else { svg_color_text(tab.icon.style) }) + ", paths = "@
        + tab.icon.paths@ + ", animated = "@ + bool_text(tab.animated) + ")\n"@
        + spaces(indent as nat) + "    }\n"@
}

/// The Compose calls of the tabs of a bottom bar, one after the other.
pub open spec fn bottom_tabs_text(props: BarProps, tabs: Seq<BottomBarTab>, indent: usize) -> Seq<char>
    decreases tabs.len(),
{
    if tabs.len() == 0 {
        Seq::empty()
    } else {
        bottom_tabs_text(props, tabs.drop_last(), indent) + bottom_tab_text(props, tabs.last(), indent)
    }
}

fn render_bottom_tab(props: &BarProps, tab: &BottomBarTab, indent: usize, output: &mut String)
    ensures
        final(output)@ == old(output)@ + bottom_tab_text(*props, *tab, indent),
{
    let featured = tab.featured;
    let mut line = pad(indent);
    line.append("    DoweRailNavItem(label = ");
    line.append(compose_localized_literal(tab.label.as_str(), opt_str(&tab.i18n)).as_str());
    line.append(", showLabel = true, active = ");
    line.append(compose_side_nav_active(Some(&tab.navigation)).as_str());
    line.append(", itemSize = ");
    line.append(if featured { "56" } else { "48" });
    line.append(".dp, labelSize = 10f, backgroundColor = ");
    line.append(if featured { "DoweDesign.primary" } else { props.style.container.as_str() });
    line.append(", contentColor = ");
    line.append(if featured { "DoweDesign.primaryText" } else { props.style.content.as_str() });
    line.append(", borderColor = null, featured = ");
    line.append(bool_string(featured).as_str());
    line.append(", onClick = ");
    line.append(compose_navigation_action(Some(&tab.navigation)).as_str());
    line.append(") {\n");
    line.append(pad(indent).as_str());
    line.append("        DoweSvg(viewBox = ");
    line.append(tab.icon.view_box.as_str());
    line.append(", modifier = Modifier.size(20.dp), color = ");
    let color = if featured { String::from_str("DoweDesign.primaryText") } else { compose_svg_color(&tab.icon.style) };
    line.append(color.as_str());
    line.append(", paths = ");
    line.append(tab.icon.paths.as_str());
    line.append(", animated = ");
    line.append(bool_string(tab.animated).as_str());
    line.append(")\n");
    line.append(pad(indent).as_str());
    line.append("    }\n");
    output.append(line.as_str());
}

/// The base modifier of the row of a bottom bar: a width-capped row inside a
/// boxed bar, the bar's own modifier otherwise.
pub open spec fn bottom_row_modifier_text(props: BarProps, flow: ComposeFlow) -> Seq<char> {
    if props.boxed {
        "Modifier.widthIn(max = 1536.dp).fillMaxWidth()"@
    } else {
        bar_modifier_text(props, flow)
    }
}

/// The opening of a bottom bar: a box at the bottom center when it is boxed.
pub open spec fn bottom_bar_open_text(props: BarProps, indent: usize, flow: ComposeFlow) -> Seq<char> {
    if props.boxed {
        spaces(indent as nat) + "Box(modifier = "@ + bar_modifier_text(props, flow)
            + ", contentAlignment = Alignment.BottomCenter) {
"@
    } else {
        Seq::empty()
    }
}

/// The opening of the row of tabs of a bottom bar.
pub open spec fn bottom_row_open_text(props: BarProps, indent: usize, flow: ComposeFlow) -> Seq<char> {
    spaces(indent as nat) + "Row(modifier = "@ + bottom_row_modifier_text(props, flow)
        + ", verticalAlignment = Alignment.Bottom, horizontalArrangement = Arrangement.SpaceEvenly) {
"@
}

/// The closing of a bottom bar's box, when it is boxed.
pub open spec fn bottom_bar_close_text(props: BarProps, indent: usize) -> Seq<char> {
    if props.boxed {
        spaces(indent as nat) + "}
"@
    } else {
        Seq::empty()
    }
}

/// The indentation of the row of a bottom bar: one step deeper inside a box.
pub open spec fn bottom_content_indent(props: BarProps, indent: usize) -> usize {
    if props.boxed { (indent + 4) as usize } else { indent }
}

/// The Compose code of a bottom bar: a row of tabs, inside a box at the bottom
/// center when the bar is boxed.
#[verifier::opaque]
pub open spec fn bottom_bar_text(props: BarProps, tabs: Seq<BottomBarTab>, indent: usize, flow: ComposeFlow) -> Seq<char> {
    let content_indent = bottom_content_indent(props, indent);
    bottom_bar_open_text(props, indent, flow) + bottom_row_open_text(props, content_indent, flow)
        + bottom_tabs_text(props, tabs, content_indent) + spaces(content_indent as nat) + "}
"@
        + bottom_bar_close_text(props, indent)
}

fn bottom_bar_open(props: &BarProps, indent: usize, flow: ComposeFlow) -> (res: String)
    ensures
        res@ == bottom_bar_open_text(*props, indent, flow),
{
    if props.boxed {
        let mut out = pad(indent);
        out.append("Box(modifier = ");
        out.append(modifier_for_bar(props, flow).as_str());
        out.append(", contentAlignment = Alignment.BottomCenter) {
");
        out
    } else {
        String::new()
    }
}

fn bottom_row_open(props: &BarProps, indent: usize, flow: ComposeFlow) -> (res: String)
    ensures
        res@ == bottom_row_open_text(*props, indent, flow),
{
    let content_modifier = if props.boxed {
        String::from_str("Modifier.widthIn(max = 1536.dp).fillMaxWidth()")
    } else {
        modifier_for_bar(props, flow)
    };
    let mut row = pad(indent);
    row.append("Row(modifier = ");
    row.append(content_modifier.as_str());
    row.append(", verticalAlignment = Alignment.Bottom, horizontalArrangement = Arrangement.SpaceEvenly) {
");
    row
}

fn render_bottom_tabs(props: &BarProps, tabs: &[BottomBarTab], indent: usize, output: &mut String)
    ensures
        final(output)@ == old(output)@ + bottom_tabs_text(*props, tabs@, indent),
{
    let ghost start = output@;
    let mut i: usize = 0;
    while i < tabs.len()
        invariant
            i <= tabs@.len(),
            output@ == start + bottom_tabs_text(*props, tabs@.take(i as int), indent),
        decreases tabs@.len() - i,
    {
        render_bottom_tab(props, &tabs[i], indent, output);
        assert(tabs@.take(i + 1).drop_last() =~= tabs@.take(i as int));
        i = i + 1;
    }
    assert(tabs@.take(tabs@.len() as int) =~= tabs@);
}

/// Writes the Compose code of a bottom bar and its tabs.
pub fn render_compose_bottom_bar(
    props: &BarProps,
    tabs: &[BottomBarTab],
    indent: usize,
    output: &mut String,
    flow: ComposeFlow,
    context: &ComposeReactiveContext,
)
    requires
        indent + 4 <= usize::MAX,
    ensures
        final(output)@ == old(output)@ + bottom_bar_text(*props, tabs@, indent, flow),
{
    reveal(bottom_bar_text);
    let content_indent: usize = if props.boxed { indent + 4 } else { indent };
    let mut out = bottom_bar_open(props, indent, flow);
    out.append(bottom_row_open(props, content_indent, flow).as_str());
    render_bottom_tabs(props, tabs, content_indent, &mut out);
    out.append(pad(content_indent).as_str());
    out.append("}
");
    if props.boxed {
        let mut outer = pad(indent);
        outer.append("}
");
        out.append(outer.as_str());
    } else {
        assert(out@ =~= out@ + Seq::<char>::empty());
    }
    output.append(out.as_str());
}

/// A floating action button: its style and variant, whether it is pinned to a
/// corner of the screen, its offsets there, its corner, and its icon.
#[derive(Debug, Clone)]
pub struct FabProps {
    pub style: VariantProps,
    pub fixed: bool,
    pub offset_x: ScaleValue,
    pub offset_y: ScaleValue,
    pub position: OverlayCornerPosition,
    pub icon: SvgIcon,
}

/// An action of a floating action button: its label, what a click does, its
/// icon, and the container and content colors of its color in the button's variant.
#[derive(Debug, Clone)]
pub struct FabAction {
    pub label: String,
    pub on_click: Option<String>,
    pub navigation: Option<NavigationAction>,
    pub icon: SvgIcon,
    pub container: String,
    pub content: String,
}

/// A click handler that does nothing where there is no action or link.
pub open spec fn click_text(context: ComposeReactiveContext, action: Option<Seq<char>>, navigation: Option<NavigationAction>) -> Seq<char> {
    let t = component_action_text(context, action, navigation);
    if t == "null"@ {
        "{}"@
    } else {
        t
    }
}

/// The actions of a floating action button show and hide with its open state
/// when it has both actions and an open state.
pub open spec fn fab_toggles(actions: Seq<FabAction>, open_state: Option<Seq<char>>) -> bool {
    open_state is Some && actions.len() > 0
}

/// The border of an action: its content color when the button is outlined.
pub open spec fn fab_action_border(props: FabProps, action: FabAction) -> Seq<char> {
    let variant = match props.style.variant {
        Some(v) => v,
        None => ComponentVariant::Solid,
    };
    if variant == ComponentVariant::Outlined {
        action.content@
    } else {
        "null"@
    }
}

/// The Compose code of an action of a floating action button: a button with its label and icon.
#[verifier::opaque]
pub open spec fn fab_action_text(props: FabProps, action: FabAction, indent: usize, context: ComposeReactiveContext) -> Seq<char> {
    spaces(indent as nat) + "Button(onClick = "@ + click_text(context, opt_string_view(action.on_click), action.navigation)
        + ", colors = ButtonDefaults.buttonColors(containerColor = "@ + action.container@ + ", contentColor = "@
        + action.content@ + "), border = "@ + fab_action_border(props, action)
        + ", contentPadding = PaddingValues(horizontal = 12.dp, vertical = 8.dp)) {
"@ + spaces(indent as nat)
        + "    Row(horizontalArrangement = Arrangement.spacedBy(12.dp), verticalAlignment = Alignment.CenterVertically) {
"@
        + spaces(indent as nat) + "        Text("@ + string_literal_text(action.label@) + ")
"@
        + side_icon_line(action.icon, (indent + 8) as usize) + spaces(indent as nat) + "    }
"@
        + spaces(indent as nat) + "}
"@
}

/// The Compose code of the actions of a floating action button, one after the other.
pub open spec fn fab_action_list_text(props: FabProps, actions: Seq<FabAction>, indent: usize, context: ComposeReactiveContext) -> Seq<char>
    decreases actions.len(),
{
    if actions.len() == 0 {
        Seq::empty()
    } else {
        fab_action_list_text(props, actions.drop_last(), indent, context) + fab_action_text(props, actions.last(), indent, context)
    }
}

/// The Compose code of the actions of a floating action button, shown only
/// while it is open when it has an open state.
pub open spec fn fab_actions_text(
    props: FabProps,
    actions: Seq<FabAction>,
    indent: usize,
    context: ComposeReactiveContext,
    open_state: Option<Seq<char>>,
) -> Seq<char> {
    if fab_toggles(actions, open_state) {
        spaces(indent as nat) + "if ("@ + open_state->0 + ") {
"@
            + fab_action_list_text(props, actions, (indent + 4) as usize, context) + spaces(indent as nat) + "}
"@
    } else {
        fab_action_list_text(props, actions, indent, context)
    }
}

fn render_fab_action(props: &FabProps, action: &FabAction, indent: usize, output: &mut String, context: &ComposeReactiveContext)
    requires
        indent + 8 <= usize::MAX,
    ensures
        final(output)@ == old(output)@ + fab_action_text(*props, *action, indent, *context),
{
    reveal(fab_action_text);
    let variant = match props.style.variant {
        Some(v) => v,
        None => ComponentVariant::Solid,
    };
    let border = if variant == ComponentVariant::Outlined { action.content.as_str() } else { "null" };
    let mut line = pad(indent);
    line.append("Button(onClick = ");
    line.append(compose_component_action(opt_str(&action.on_click), action.navigation.as_ref(), context).as_str());
    line.append(", colors = ButtonDefaults.buttonColors(containerColor = ");
    line.append(action.container.as_str());
    line.append(", contentColor = ");
    line.append(action.content.as_str());
    line.append("), border = ");
    line.append(border);
    line.append(", contentPadding = PaddingValues(horizontal = 12.dp, vertical = 8.dp)) {
");
    line.append(pad(indent).as_str());
    line.append("    Row(horizontalArrangement = Arrangement.spacedBy(12.dp), verticalAlignment = Alignment.CenterVertically) {
");
    line.append(pad(indent).as_str());
    line.append("        Text(");
    line.append(compose_string_literal(action.label.as_str()).as_str());
    line.append(")
");
    render_compose_side_icon(&action.icon, indent + 8, &mut line);
    line.append(pad(indent).as_str());
    line.append("    }
");
    line.append(pad(indent).as_str());
    line.append("}
");
    output.append(line.as_str());
}

fn render_fab_action_list(
    props: &FabProps,
    actions: &[FabAction],
    indent: usize,
    output: &mut String,
    context: &ComposeReactiveContext,
)
    requires
        indent + 8 <= usize::MAX,
    ensures
        final(output)@ == old(output)@ + fab_action_list_text(*props, actions@, indent, *context),
{
    let ghost start = output@;
    let mut i: usize = 0;
    while i < actions.len()
        invariant
            i <= actions@.len(),
            indent + 8 <= usize::MAX,
            output@ == start + fab_action_list_text(*props, actions@.take(i as int), indent, *context),
        decreases actions@.len() - i,
    {
        render_fab_action(props, &actions[i], indent, output, context);
        assert(actions@.take(i + 1).drop_last() =~= actions@.take(i as int));
        i = i + 1;
    }
    assert(actions@.take(actions@.len() as int) =~= actions@);
}

/// Writes the actions of a floating action button, inside a condition on its
/// open state when it has one.
pub fn render_compose_fab_actions(
    props: &FabProps,
    actions: &[FabAction],
    indent: usize,
    output: &mut String,
    context: &ComposeReactiveContext,
    open_state: Option<&str>,
)
    requires
        indent + 12 <= usize::MAX,
    ensures
        final(output)@ == old(output)@ + fab_actions_text(*props, actions@, indent, *context, opt_view(open_state)),
{
    match open_state {
        Some(state) => {
            if actions.len() > 0 {
                let mut out = pad(indent);
                out.append("if (");
                out.append(state);
                out.append(") {
");
                render_fab_action_list(props, actions, indent + 4, &mut out, context);
                out.append(pad(indent).as_str());
                out.append("}
");
                output.append(out.as_str());
                return;
            }
        },
        None => {},
    }
    render_fab_action_list(props, actions, indent, output, context);
}

/// The click handler of the trigger of a floating action button: it flips the
/// open state when it toggles actions, else it runs the button's own action.
pub open spec fn fab_trigger_action_text(
    props: FabProps,
    actions: Seq<FabAction>,
    context: ComposeReactiveContext,
    open_state: Option<Seq<char>>,
) -> Seq<char> {
    if fab_toggles(actions, open_state) {
        "{ "@ + open_state->0 + " = !"@ + open_state->0 + " }"@
    } else {
        click_text(context, opt_string_view(props.style.element.on_click), props.style.navigation)
    }
}

/// The modifier of the trigger: its style, turned by 45 degrees while open when it toggles actions.
pub open spec fn fab_trigger_modifier_text(props: FabProps, actions: Seq<FabAction>, open_state: Option<Seq<char>>) -> Seq<char> {
    let base = style_modifier_text(props.style.style, "Modifier"@);
    if fab_toggles(actions, open_state) {
        base + ".rotate(if ("@ + open_state->0 + ") 45f else 0f)"@
    } else {
        base
    }
}

/// The Compose code of the trigger of a floating action button.
pub open spec fn fab_trigger_text(
    props: FabProps,
    actions: Seq<FabAction>,
    indent: usize,
    context: ComposeReactiveContext,
    open_state: Option<Seq<char>>,
) -> Seq<char> {
    spaces(indent as nat) + "Button(onClick = "@ + fab_trigger_action_text(props, actions, context, open_state)
        + ", colors = ButtonDefaults.buttonColors(containerColor = "@ + props.style.container@ + ", contentColor = "@
        + props.style.content@ + "), border = "@ + crate::values::variant_border_text(props.style)
        + ", contentPadding = PaddingValues(0.dp), modifier = "@ + fab_trigger_modifier_text(props, actions, open_state)
        + ") {
"@ + side_icon_line(props.icon, (indent + 4) as usize) + spaces(indent as nat) + "}
"@
}

fn fab_trigger_action(
    props: &FabProps,
    actions: &[FabAction],
    context: &ComposeReactiveContext,
    open_state: Option<&str>,
) -> (res: String)
    ensures
        res@ == fab_trigger_action_text(*props, actions@, *context, opt_view(open_state)),
{
    match open_state {
        Some(state) => {
            if actions.len() > 0 {
                let mut out = String::from_str("{ ");
                out.append(state);
                out.append(" = !");
                out.append(state);
                out.append(" }");
                return out;
            }
        },
        None => {},
    }
    compose_component_action(opt_str(&props.style.element.on_click), props.style.navigation.as_ref(), context)
}

fn fab_trigger_modifier(props: &FabProps, actions: &[FabAction], open_state: Option<&str>) -> (res: String)
    ensures
        res@ == fab_trigger_modifier_text(*props, actions@, opt_view(open_state)),
{
    let mut modifier = modifier_for_style(&props.style.style);
    match open_state {
        Some(state) => {
            if actions.len() > 0 {
                modifier.append(".rotate(if (");
                modifier.append(state);
                modifier.append(") 45f else 0f)");
            }
        },
        None => {},
    }
    modifier
}

/// Writes the trigger of a floating action button.
pub fn render_compose_fab_trigger(
    props: &FabProps,
    actions: &[FabAction],
    indent: usize,
    output: &mut String,
    context: &ComposeReactiveContext,
    open_state: Option<&str>,
)
    requires
        indent + 4 <= usize::MAX,
    ensures
        final(output)@ == old(output)@ + fab_trigger_text(*props, actions@, indent, *context, opt_view(open_state)),
{
    let mut line = pad(indent);
    line.append("Button(onClick = ");
    line.append(fab_trigger_action(props, actions, context, open_state).as_str());
    line.append(", colors = ButtonDefaults.buttonColors(containerColor = ");
    line.append(props.style.container.as_str());
    line.append(", contentColor = ");
    line.append(props.style.content.as_str());
    line.append("), border = ");
    line.append(crate::values::compose_variant_border(&props.style).as_str());
    line.append(", contentPadding = PaddingValues(0.dp), modifier = ");
    line.append(fab_trigger_modifier(props, actions, open_state).as_str());
    line.append(") {
");
    render_compose_side_icon(&props.icon, indent + 4, &mut line);
    line.append(pad(indent).as_str());
    line.append("}
");
    output.append(line.as_str());
}

/// The modifier of a floating action button: a pinned one fills the screen
/// inset by its offsets, another carries its style.
pub open spec fn fab_modifier_text(props: FabProps) -> Seq<char> {
    if props.fixed {
        "Modifier.fillMaxSize().padding(horizontal = "@ + dp_text(props.offset_x.native_units as nat) + ", vertical = "@
            + dp_text(props.offset_y.native_units as nat) + ")"@
    } else {
        style_modifier_text(props.style.style, "Modifier"@)
    }
}

/// The trigger of a button in a top corner comes before its actions.
pub open spec fn fab_on_top(position: OverlayCornerPosition) -> bool {
    position == OverlayCornerPosition::TopLeft || position == OverlayCornerPosition::TopRight
}

/// The Compose code of a floating action button: a column of its actions and its
/// trigger (the trigger nearest its corner). A pinned button without an open
/// state is drawn elsewhere and writes nothing here.
pub open spec fn fab_text(
    props: FabProps,
    actions: Seq<FabAction>,
    indent: usize,
    context: ComposeReactiveContext,
    open_state: Option<Seq<char>>,
) -> Seq<char> {
    if props.fixed && open_state is None {
        Seq::empty()
    } else {
        let inner = (indent + 4) as usize;
        spaces(indent as nat) + "Column(modifier = "@ + fab_modifier_text(props) + ", horizontalAlignment = "@
            + fab_horizontal_alignment_text(props.position)
            + ", verticalArrangement = Arrangement.spacedBy(12.dp, alignment = "@
            + fab_vertical_arrangement_text(props.position) + ")) {
"@
            + (if fab_on_top(props.position) { fab_trigger_text(props, actions, inner, context, open_state) } else { Seq::empty() })
            + fab_actions_text(props, actions, inner, context, open_state)
            + (if fab_on_top(props.position) { Seq::empty() } else { fab_trigger_text(props, actions, inner, context, open_state) })
            + spaces(indent as nat) + "}
"@
    }
}

fn fab_modifier(props: &FabProps) -> (res: String)
    ensures
        res@ == fab_modifier_text(*props),
{
    if props.fixed {
        let mut out = String::from_str("Modifier.fillMaxSize().padding(horizontal = ");
        out.append(compose_scale_literal(props.offset_x).as_str());
        out.append(", vertical = ");
        out.append(compose_scale_literal(props.offset_y).as_str());
        out.append(")");
        out
    } else {
        modifier_for_style(&props.style.style)
    }
}

/// Writes a floating action button with its actions and trigger.
pub fn render_compose_fab(
    props: &FabProps,
    actions: &[FabAction],
    indent: usize,
    output: &mut String,
    context: &ComposeReactiveContext,
    open_state: Option<&str>,
)
    requires
        indent + 16 <= usize::MAX,
    ensures
        final(output)@ == old(output)@ + fab_text(*props, actions@, indent, *context, opt_view(open_state)),
{
    if props.fixed && open_state.is_none() {
        assert(output@ =~= output@ + Seq::<char>::empty());
        return;
    }
    let top = props.position == OverlayCornerPosition::TopLeft || props.position == OverlayCornerPosition::TopRight;
    let mut out = pad(indent);
    out.append("Column(modifier = ");
    out.append(fab_modifier(props).as_str());
    out.append(", horizontalAlignment = ");
    out.append(compose_fab_horizontal_alignment(props.position));
    out.append(", verticalArrangement = Arrangement.spacedBy(12.dp, alignment = ");
    out.append(compose_fab_vertical_arrangement(props.position));
    out.append(")) {
");
    if top {
        render_compose_fab_trigger(props, actions, indent + 4, &mut out, context, open_state);
    } else {
        assert(out@ =~= out@ + Seq::<char>::empty());
    }
    render_compose_fab_actions(props, actions, indent + 4, &mut out, context, open_state);
    if !top {
        render_compose_fab_trigger(props, actions, indent + 4, &mut out, context, open_state);
    } else {
        assert(out@ =~= out@ + Seq::<char>::empty());
    }
    out.append(pad(indent).as_str());
    out.append("}
");
    output.append(out.as_str());
}

} // verus!
