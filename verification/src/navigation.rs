//! Navigation: the Kotlin actions of links and buttons, and the entries of side
//! navigations and navigation menus.
use vstd::prelude::*;
use crate::context::{lookup, signal_path_text, ComposeReactiveContext};
use crate::style_values::{bool_string, bool_text};
use crate::text::{
    decimal_text, kotlin_escaped, optional_string_text, pad, push_decimal, push_kotlin_escaped,
    spaces, opt_string_view, compose_side_nav_optional_string,
};

verus! {

/// Where a link leads: a route of the application (with an optional section), a
/// section of the current route, an outside address, or back. Operations and
/// external modes are held by the names they are written with.
#[derive(Debug, Clone)]
pub enum NavigationAction {
    Internal { path: String, fragment: Option<String>, operation: String },
    Section { fragment: String, operation: String },
    External { url: String, native_external_mode: String },
    Back,
}

/// The Kotlin lambda that follows a link, `{}` without one.
pub open spec fn navigation_action_text(action: Option<NavigationAction>) -> Seq<char> {
    match action {
        Some(NavigationAction::Internal { path, fragment, operation }) => "{ navigate(\""@ + operation@
            + "\", \""@ + kotlin_escaped(path@) + "\", "@ + (match fragment {
            Some(f) => "\""@ + kotlin_escaped(f@) + "\""@,
            None => "null"@,
        }) + ") }"@,
        Some(NavigationAction::Section { fragment, operation }) => "{ navigate(\""@ + operation@
            + "\", \"\", \""@ + kotlin_escaped(fragment@) + "\") }"@,
        Some(NavigationAction::External { url, native_external_mode }) => "{ openExternal(\""@
            + native_external_mode@ + "\", \""@ + kotlin_escaped(url@) + "\") }"@,
        Some(NavigationAction::Back) => "{ goBack() }"@,
        None => "{}"@,
    }
}

/// The view of an optional reference.
pub open spec fn opt_nav(action: Option<&NavigationAction>) -> Option<NavigationAction> {
    match action {
        Some(a) => Some(*a),
        None => None,
    }
}

/// The Kotlin lambda that follows a link.
pub fn compose_navigation_action(action: Option<&NavigationAction>) -> (res: String)
    ensures
        res@ == navigation_action_text(opt_nav(action)),
{
    match action {
        Some(NavigationAction::Internal { path, fragment, operation }) => {
            let mut out = String::from_str("{ navigate(\"");
            out.append(operation.as_str());
            out.append("\", \"");
            push_kotlin_escaped(&mut out, path.as_str());
            out.append("\", ");
            let tail = match fragment {
                Some(f) => {
                    let mut t = String::from_str("\"");
                    push_kotlin_escaped(&mut t, f.as_str());
                    t.append("\"");
                    t
                },
                None => String::from_str("null"),
            };
            out.append(tail.as_str());
            out.append(") }");
            out
        },
        Some(NavigationAction::Section { fragment, operation }) => {
            let mut out = String::from_str("{ navigate(\"");
            out.append(operation.as_str());
            out.append("\", \"\", \"");
            push_kotlin_escaped(&mut out, fragment.as_str());
            out.append("\") }");
            out
        },
        Some(NavigationAction::External { url, native_external_mode }) => {
            let mut out = String::from_str("{ openExternal(\"");
            out.append(native_external_mode.as_str());
            out.append("\", \"");
            push_kotlin_escaped(&mut out, url.as_str());
            out.append("\") }");
            out
        },
        Some(NavigationAction::Back) => String::from_str("{ goBack() }"),
        None => String::from_str("{}"),
    }
}

/// The Kotlin lambda that runs an action of the scope.
pub open spec fn run_action_text(id: Seq<char>) -> Seq<char> {
    "{ actionScope.launch { state.run(\""@ + kotlin_escaped(id) + "\") } }"@
}

/// The click handler of an item: its action where the scope has it, else its
/// link, else `null`.
pub open spec fn click_action_text(
    ctx: ComposeReactiveContext,
    on_click: Option<String>,
    navigation: Option<NavigationAction>,
) -> Seq<char> {
    let id = match on_click {
        Some(name) => lookup(ctx.action_ids@, name@),
        None => None,
    };
    match id {
        Some(id) => run_action_text(id),
        None => match navigation {
            Some(a) => navigation_action_text(Some(a)),
            None => "null"@,
        },
    }
}

fn click_action(
    ctx: &ComposeReactiveContext,
    on_click: &Option<String>,
    navigation: &Option<NavigationAction>,
) -> (res: String)
    ensures
        res@ == click_action_text(*ctx, *on_click, *navigation),
{
    let id = match on_click {
        Some(name) => ctx.action_id(name.as_str()),
        None => None,
    };
    match id {
        Some(id) => {
            let mut out = String::from_str("{ actionScope.launch { state.run(\"");
            push_kotlin_escaped(&mut out, id.as_str());
            out.append("\") } }");
            out
        },
        None => match navigation {
            Some(a) => compose_navigation_action(Some(a)),
            None => String::from_str("null"),
        },
    }
}

/// Whether a link is to the path the application shows: `activePath == "<path>"`
/// for a route of the application, `false` otherwise.
pub open spec fn active_text(action: Option<NavigationAction>) -> Seq<char> {
    match action {
        Some(NavigationAction::Internal { path, .. }) => "activePath == \""@ + kotlin_escaped(path@)
            + "\""@,
        _ => "false"@,
    }
}

fn active_expr(action: Option<&NavigationAction>) -> (res: String)
    ensures
        res@ == active_text(opt_nav(action)),
{
    match action {
        Some(NavigationAction::Internal { path, .. }) => {
            let mut out = String::from_str("activePath == \"");
            push_kotlin_escaped(&mut out, path.as_str());
            out.append("\"");
            out
        },
        _ => String::from_str("false"),
    }
}

/// Whether a side navigation link is to the path the application shows.
pub fn compose_side_nav_active(action: Option<&NavigationAction>) -> (res: String)
    ensures
        res@ == active_text(opt_nav(action)),
{
    active_expr(action)
}

/// Whether a navigation menu link is to the path the application shows.
pub fn compose_nav_menu_active(action: Option<&NavigationAction>) -> (res: String)
    ensures
        res@ == active_text(opt_nav(action)),
{
    active_expr(action)
}

/// The click handler of a component: its action (with the current row, inside a
/// repeated view) where the scope has it, else its link, else `null`.
pub open spec fn component_action_text(
    ctx: ComposeReactiveContext,
    action: Option<Seq<char>>,
    navigation: Option<NavigationAction>,
) -> Seq<char> {
    let id = match action {
        Some(name) => lookup(ctx.action_ids@, name),
        None => None,
    };
    match id {
        Some(id) => "{ actionScope.launch { state.run(\""@ + kotlin_escaped(id) + "\""@ + (match ctx.active_item {
            Some(item) => ", "@ + item@,
            None => Seq::empty(),
        }) + ") } }"@,
        None => match navigation {
            Some(a) => navigation_action_text(Some(a)),
            None => "null"@,
        },
    }
}

/// The click handler of a component, `null` without action or link.
pub fn compose_optional_component_action(
    action: Option<&str>,
    navigation: Option<&NavigationAction>,
    context: &ComposeReactiveContext,
) -> (res: String)
    ensures
        res@ == component_action_text(*context, crate::text::opt_view(action), opt_nav(navigation)),
{
    let id = match action {
        Some(name) => context.action_id(name),
        None => None,
    };
    match id {
        Some(id) => {
            let mut out = String::from_str("{ actionScope.launch { state.run(\"");
            push_kotlin_escaped(&mut out, id.as_str());
            out.append("\"");
            let ghost before = out@;
            match &context.active_item {
                Some(item) => {
                    let mut part = String::from_str(", ");
                    part.append(item.as_str());
                    out.append(part.as_str());
                },
                None => {
                    assert(out@ =~= before + Seq::<char>::empty());
                },
            }
            out.append(") } }");
            assert(out@ =~= component_action_text(*context, crate::text::opt_view(action), opt_nav(navigation)));
            out
        },
        None => match navigation {
            Some(a) => compose_navigation_action(Some(a)),
            None => String::from_str("null"),
        },
    }
}

/// The click handler of a component, `{}` without action or link.
pub fn compose_component_action(
    action: Option<&str>,
    navigation: Option<&NavigationAction>,
    context: &ComposeReactiveContext,
) -> (res: String)
    ensures
        res@ == (if component_action_text(*context, crate::text::opt_view(action), opt_nav(navigation)) == "null"@ {
            "{}"@
        } else {
            component_action_text(*context, crate::text::opt_view(action), opt_nav(navigation))
        }),
{
    let value = compose_optional_component_action(action, navigation, context);
    if crate::text::str_eq(value.as_str(), "null") {
        String::from_str("{}")
    } else {
        value
    }
}

/// The handler that closes an overlay: it clears the overlay's signal, then runs
/// the given action where the scope has it.
pub open spec fn close_action_text(ctx: ComposeReactiveContext, path: Seq<char>, action: Option<Seq<char>>) -> Seq<char> {
    let id = match action {
        Some(name) => lookup(ctx.action_ids@, name),
        None => None,
    };
    "{ state.write(\""@ + path + "\", false)"@ + (match id {
        Some(id) => "; actionScope.launch { state.run(\""@ + kotlin_escaped(id) + "\") }"@,
        None => Seq::empty(),
    }) + " }"@
}

/// The handler that closes an overlay bound to the signal at `path`.
pub fn compose_close_action(path: &str, action: Option<&str>, context: &ComposeReactiveContext) -> (res: String)
    ensures
        res@ == close_action_text(*context, path@, crate::text::opt_view(action)),
{
    let id = match action {
        Some(name) => context.action_id(name),
        None => None,
    };
    let mut out = String::from_str("{ state.write(\"");
    out.append(path);
    out.append("\", false)");
    let ghost before = out@;
    match id {
        Some(id) => {
            let mut part = String::from_str("; actionScope.launch { state.run(\"");
            push_kotlin_escaped(&mut part, id.as_str());
            part.append("\") }");
            out.append(part.as_str());
        },
        None => {
            assert(out@ =~= before + Seq::<char>::empty());
        },
    }
    out.append(" }");
    out
}

/// The sizes of a side navigation.
#[derive(Debug, Clone, Copy, PartialEq, Eq, Structural)]
pub enum SideNavSize {
    Sm,
    Md,
    Lg,
}

/// Horizontal padding, vertical padding, gap, label size and description size of
/// the rows of a side navigation.
pub open spec fn side_nav_metrics(size: SideNavSize) -> (u16, u16, u16, u16, u16) {
    match size {
        SideNavSize::Sm => (8, 6, 8, 12, 10),
        SideNavSize::Md => (12, 8, 10, 14, 12),
        SideNavSize::Lg => (16, 12, 12, 16, 14),
    }
}

/// Horizontal padding, vertical padding, gap, label size and description size of
/// the rows of a side navigation.
pub fn compose_side_nav_metrics(size: SideNavSize) -> (res: (u16, u16, u16, u16, u16))
    ensures
        res == side_nav_metrics(size),
{
    match size {
        SideNavSize::Sm => (8, 6, 8, 12, 10),
        SideNavSize::Md => (12, 8, 10, 14, 12),
        SideNavSize::Lg => (16, 12, 12, 16, 14),
    }
}

/// Rail width, item size, icon size and label size of a navigation rail.
pub open spec fn rail_nav_metrics(size: SideNavSize) -> (u16, u16, u16, u16) {
    match size {
        SideNavSize::Sm => (56, 40, 20, 10),
        SideNavSize::Md => (64, 48, 24, 11),
        SideNavSize::Lg => (72, 56, 28, 12),
    }
}

/// Rail width, item size, icon size and label size of a navigation rail.
pub fn compose_rail_nav_metrics(size: SideNavSize) -> (res: (u16, u16, u16, u16))
    ensures
        res == rail_nav_metrics(size),
{
    match size {
        SideNavSize::Sm => (56, 40, 20, 10),
        SideNavSize::Md => (64, 48, 24, 11),
        SideNavSize::Lg => (72, 56, 28, 12),
    }
}

/// An entry of a side navigation or navigation menu: its label, description and
/// status, each with the resource name of its translation where it has one, its
/// link, its action and whether it shows an icon.
#[derive(Debug, Clone)]
pub struct SideNavItemProps {
    pub label: String,
    pub i18n: Option<String>,
    pub description: Option<String>,
    pub description_i18n: Option<String>,
    pub status: Option<String>,
    pub status_i18n: Option<String>,
    pub navigation: Option<NavigationAction>,
    pub on_click: Option<String>,
    pub has_icon: bool,
}

/// An item of a side navigation.
#[derive(Debug, Clone)]
pub enum SideNavItem {
    Header(SideNavItemProps),
    Item(SideNavItemProps),
    Divider,
    Submenu { props: SideNavItemProps, open: bool, bordered: bool, items: Vec<SideNavItemProps> },
}

/// The click handler of a side navigation entry.
pub fn compose_side_nav_action(props: &SideNavItemProps, context: &ComposeReactiveContext) -> (res: String)
    ensures
        res@ == click_action_text(*context, props.on_click, props.navigation),
{
    click_action(context, &props.on_click, &props.navigation)
}

/// Whether a link can be followed by the data-driven side navigation: routes of
/// the application and sections can.
pub open spec fn navigation_supported(action: NavigationAction) -> bool {
    action is Internal || action is Section
}

/// Whether the data-driven side navigation can follow a link.
pub fn compose_side_nav_navigation_supported(action: &NavigationAction) -> (res: bool)
    ensures
        res == navigation_supported(*action),
{
    match action {
        NavigationAction::Internal { .. } | NavigationAction::Section { .. } => true,
        _ => false,
    }
}

/// Whether an entry can be drawn by the data-driven side navigation: it has no
/// icon and no action, and a link only where links are allowed and only one the
/// data-driven navigation can follow.
pub open spec fn item_data_ready(props: SideNavItemProps, allow_navigation: bool) -> bool {
    &&& !props.has_icon
    &&& props.on_click is None
    &&& (allow_navigation || props.navigation is None)
    &&& match props.navigation {
        Some(a) => navigation_supported(a),
        None => true,
    }
}

/// Whether an entry can be drawn by the data-driven side navigation.
pub fn compose_side_nav_item_can_use_data_renderer(props: &SideNavItemProps, allow_navigation: bool) -> (res: bool)
    ensures
        res == item_data_ready(*props, allow_navigation),
{
    !props.has_icon && props.on_click.is_none() && (allow_navigation || props.navigation.is_none())
        && match &props.navigation {
        Some(a) => compose_side_nav_navigation_supported(a),
        None => true,
    }
}

/// Whether an item can be drawn by the data-driven side navigation: headers,
/// items and dividers as such, submenus when their trigger has no link and each
/// of their entries can be drawn.
pub open spec fn side_nav_item_data_ready(item: SideNavItem) -> bool {
    match item {
        SideNavItem::Header(p) => item_data_ready(p, true),
        SideNavItem::Item(p) => item_data_ready(p, true),
        SideNavItem::Divider => true,
        SideNavItem::Submenu { props, items, .. } => item_data_ready(props, false) && forall|i: int|
            0 <= i < items@.len() ==> item_data_ready(#[trigger] items@[i], true),
    }
}

#[verifier::loop_isolation(false)]
fn side_nav_item_ready(item: &SideNavItem) -> (res: bool)
    ensures
        res == side_nav_item_data_ready(*item),
{
    match item {
        SideNavItem::Header(p) => compose_side_nav_item_can_use_data_renderer(p, true),
        SideNavItem::Item(p) => compose_side_nav_item_can_use_data_renderer(p, true),
        SideNavItem::Divider => true,
        SideNavItem::Submenu { props, items, .. } => {
            if !compose_side_nav_item_can_use_data_renderer(props, false) {
                return false;
            }
            let mut i: usize = 0;
            while i < items.len()
                invariant
                    i <= items@.len(),
                    forall|j: int| 0 <= j < i ==> item_data_ready(#[trigger] items@[j], true),
                decreases items@.len() - i,
            {
                if !compose_side_nav_item_can_use_data_renderer(&items[i], true) {
                    return false;
                }
                i = i + 1;
            }
            true
        },
    }
}

/// Whether the whole side navigation can be drawn by the data-driven renderer.
pub fn compose_side_nav_can_use_data_renderer(items: &[SideNavItem]) -> (res: bool)
    ensures
        res == forall|i: int| 0 <= i < items@.len() ==> side_nav_item_data_ready(#[trigger] items@[i]),
{
    let mut i: usize = 0;
    while i < items.len()
        invariant
            i <= items@.len(),
            forall|j: int| 0 <= j < i ==> side_nav_item_data_ready(#[trigger] items@[j]),
        decreases items@.len() - i,
    {
        if !side_nav_item_ready(&items[i]) {
            return false;
        }
        i = i + 1;
    }
    true
}

/// The operation, path and fragment of a link, as the data-driven side navigation
/// reads them: all three for a route, an empty path for a section, none otherwise.
pub open spec fn navigation_values(action: Option<NavigationAction>) -> (Option<Seq<char>>, Option<Seq<char>>, Option<Seq<char>>) {
    match action {
        Some(NavigationAction::Internal { path, fragment, operation }) => (Some(operation@), Some(path@), match fragment {
            Some(f) => Some(f@),
            None => None,
        }),
        Some(NavigationAction::Section { fragment, operation }) => (Some(operation@), Some(Seq::empty()), Some(fragment@)),
        _ => (None, None, None),
    }
}

/// The operation, path and fragment of a link.
pub fn compose_side_nav_navigation_values(action: Option<&NavigationAction>) -> (res: (Option<&str>, Option<&str>, Option<&str>))
    ensures
        navigation_values(opt_nav(action)) == (crate::text::opt_view(res.0), crate::text::opt_view(res.1), crate::text::opt_view(res.2)),
{
    match action {
        Some(NavigationAction::Internal { path, fragment, operation }) => {
            let f = match fragment {
                Some(f) => Some(f.as_str()),
                None => None,
            };
            (Some(operation.as_str()), Some(path.as_str()), f)
        },
        Some(NavigationAction::Section { fragment, operation }) => {
            let empty = "";
            proof {
                reveal_strlit("");
            }
            (Some(operation.as_str()), Some(empty), Some(fragment.as_str()))
        },
        _ => (None, None, None),
    }
}

/// Where the navigation shows its labels wide: from the bound signal where one is
/// given, else the fixed setting.
#[derive(Debug, Clone)]
pub struct SideNavWide {
    pub wide: bool,
    pub reactive_wide: Option<String>,
}

/// The Kotlin expression of whether a side navigation is wide.
pub open spec fn side_nav_wide_text(ctx: ComposeReactiveContext, props: SideNavWide) -> Seq<char> {
    match props.reactive_wide {
        Some(path) => "state.bool(\""@ + kotlin_escaped(signal_path_text(ctx, path@)) + "\", false)"@,
        None => bool_text(props.wide),
    }
}

/// The Kotlin expression of whether a side navigation is wide.
pub fn compose_side_nav_wide(props: &SideNavWide, context: &ComposeReactiveContext) -> (res: String)
    ensures
        res@ == side_nav_wide_text(*context, *props),
{
    match &props.reactive_wide {
        Some(path) => {
            let mut out = String::from_str("state.bool(\"");
            let resolved = context.signal_path(path.as_str());
            push_kotlin_escaped(&mut out, resolved.as_str());
            out.append("\", false)");
            out
        },
        None => bool_string(props.wide),
    }
}

/// A label that may be translated: the string resource where the label has a
/// translation, else the quoted label.
pub open spec fn localized_literal_text(value: Seq<char>, i18n: Option<Seq<char>>) -> Seq<char> {
    match i18n {
        Some(name) => "stringResource(R.string."@ + name + ")"@,
        None => "\""@ + kotlin_escaped(value) + "\""@,
    }
}

/// A label that may be translated; `i18n` is the resource name of its translation.
pub fn compose_localized_literal(value: &str, i18n: Option<&str>) -> (res: String)
    ensures
        res@ == localized_literal_text(value@, crate::text::opt_view(i18n)),
{
    match i18n {
        Some(name) => {
            let mut out = String::from_str("stringResource(R.string.");
            out.append(name);
            out.append(")");
            out
        },
        None => {
            let mut out = String::from_str("\"");
            push_kotlin_escaped(&mut out, value);
            out.append("\"");
            out
        },
    }
}

} // verus!

verus! {

/// A label that may be missing: the label, translated where it can be, or `null`.
pub open spec fn optional_localized_text(value: Option<String>, i18n: Option<String>) -> Seq<char> {
    match value {
        Some(v) => localized_literal_text(v@, opt_string_view(i18n)),
        None => "null"@,
    }
}

fn optional_localized(value: &Option<String>, i18n: &Option<String>) -> (res: String)
    ensures
        res@ == optional_localized_text(*value, *i18n),
{
    match value {
        Some(v) => {
            let key = match i18n {
                Some(k) => Some(k.as_str()),
                None => None,
            };
            compose_localized_literal(v.as_str(), key)
        },
        None => String::from_str("null"),
    }
}

/// The data of a side navigation entry.
pub open spec fn entry_props_text(
    kind: Seq<char>,
    props: SideNavItemProps,
    open: bool,
    bordered: bool,
    children: Seq<char>,
    id: Seq<char>,
) -> Seq<char> {
    let values = navigation_values(props.navigation);
    "DoweSideNavEntry(id = \""@ + kotlin_escaped(id) + "\", kind = \""@ + kind + "\", label = "@
        + localized_literal_text(props.label@, opt_string_view(props.i18n)) + ", description = "@
        + optional_localized_text(props.description, props.description_i18n) + ", status = "@
        + optional_localized_text(props.status, props.status_i18n) + ", operation = "@
        + optional_string_text(values.0) + ", path = "@ + optional_string_text(values.1)
        + ", fragment = "@ + optional_string_text(values.2) + ", open = "@ + bool_text(open)
        + ", bordered = "@ + bool_text(bordered) + ", children = "@ + (if children.len() == 0 {
        "emptyList()"@
    } else {
        children
    }) + ")"@
}

/// The data of a side navigation entry of the given kind, with its children.
pub fn compose_side_nav_entry_props(
    kind: &str,
    props: &SideNavItemProps,
    open: bool,
    bordered: bool,
    children: &str,
    id: &str,
) -> (res: String)
    ensures
        res@ == entry_props_text(kind@, *props, open, bordered, children@, id@),
{
    let (operation, path, fragment) = compose_side_nav_navigation_values(props.navigation.as_ref());
    let mut out = String::from_str("DoweSideNavEntry(id = \"");
    push_kotlin_escaped(&mut out, id);
    out.append("\", kind = \"");
    out.append(kind);
    out.append("\", label = ");
    let key = match &props.i18n {
        Some(k) => Some(k.as_str()),
        None => None,
    };
    out.append(compose_localized_literal(props.label.as_str(), key).as_str());
    out.append(", description = ");
    out.append(optional_localized(&props.description, &props.description_i18n).as_str());
    out.append(", status = ");
    out.append(optional_localized(&props.status, &props.status_i18n).as_str());
    out.append(", operation = ");
    out.append(compose_side_nav_optional_string(operation).as_str());
    out.append(", path = ");
    out.append(compose_side_nav_optional_string(path).as_str());
    out.append(", fragment = ");
    out.append(compose_side_nav_optional_string(fragment).as_str());
    out.append(", open = ");
    out.append(bool_string(open).as_str());
    out.append(", bordered = ");
    out.append(bool_string(bordered).as_str());
    out.append(", children = ");
    if children.unicode_len() == 0 {
        out.append("emptyList()");
    } else {
        out.append(children);
    }
    out.append(")");
    out
}

/// `<prefix>-<index>`, the id of the entry at `index`.
pub open spec fn entry_id_text(prefix: Seq<char>, index: nat) -> Seq<char> {
    prefix + seq!['-'] + decimal_text(index)
}

fn entry_id(prefix: &str, index: usize) -> (res: String)
    ensures
        res@ == entry_id_text(prefix@, index as nat),
{
    let mut out = String::from_str(prefix);
    crate::text::push_char(&mut out, '-');
    push_decimal(&mut out, index as u64);
    out
}

/// The lines of a Kotlin list of entries: `listOf(` then one entry per line,
/// indented one step further, then the closing bracket; `emptyList()` without entries.
pub open spec fn entry_list_text(entries: Seq<Seq<char>>, indent: nat) -> Seq<char> {
    if entries.len() == 0 {
        "emptyList()"@
    } else {
        "listOf(\n"@ + crate::text::concat(
            Seq::new(entries.len(), |i: int| spaces(indent + 4) + entries[i] + ",\n"@),
        ) + spaces(indent) + ")"@
    }
}

fn entry_list(entries: &Vec<String>, indent: usize) -> (res: String)
    requires
        indent + 4 <= usize::MAX,
    ensures
        res@ == entry_list_text(string_views_of(entries@), indent as nat),
{
    if entries.len() == 0 {
        return String::from_str("emptyList()");
    }
    let item_pad = pad(indent + 4);
    let ghost lines = Seq::new(entries@.len(), |i: int| spaces(indent as nat + 4) + entries@[i]@ + ",\n"@);
    let mut out = String::from_str("listOf(\n");
    let ghost head = out@;
    let mut i: usize = 0;
    while i < entries.len()
        invariant
            i <= entries@.len(),
            item_pad@ == spaces(indent as nat + 4),
            lines == Seq::new(entries@.len(), |i: int| spaces(indent as nat + 4) + entries@[i]@ + ",\n"@),
            out@ == head + crate::text::concat(lines.take(i as int)),
        decreases entries@.len() - i,
    {
        assert(lines.take(i + 1).drop_last() =~= lines.take(i as int));
        let mut line = item_pad.clone();
        line.append(entries[i].as_str());
        line.append(",\n");
        out.append(line.as_str());
        i = i + 1;
    }
    assert(lines.take(entries@.len() as int) =~= lines);
    let closing = pad(indent);
    out.append(closing.as_str());
    out.append(")");
    assert(string_views_of(entries@) =~= entries@.map_values(|s: String| s@));
    assert(Seq::new(entries@.len(), |i: int| spaces(indent as nat + 4) + string_views_of(entries@)[i] + ",\n"@) =~= lines);
    out
}

/// The views of a vector of strings.
pub open spec fn string_views_of(v: Seq<String>) -> Seq<Seq<char>> {
    v.map_values(|s: String| s@)
}

/// The entries of the children of a submenu, with ids `<prefix>-<index>`.
pub open spec fn child_entries_text(items: Seq<SideNavItemProps>, indent: nat, prefix: Seq<char>) -> Seq<char> {
    entry_list_text(
        Seq::new(
            items.len(),
            |i: int| entry_props_text("item"@, items[i], false, false, Seq::empty(), entry_id_text(prefix, i as nat)),
        ),
        indent,
    )
}

/// The entries of the children of a submenu.
pub fn compose_side_nav_child_entries(items: &[SideNavItemProps], indent: usize, prefix: &str) -> (res: String)
    requires
        indent + 4 <= usize::MAX,
    ensures
        res@ == child_entries_text(items@, indent as nat, prefix@),
{
    let ghost expected = Seq::new(
        items@.len(),
        |i: int| entry_props_text("item"@, items@[i], false, false, Seq::empty(), entry_id_text(prefix@, i as nat)),
    );
    let mut entries: Vec<String> = Vec::new();
    let mut i: usize = 0;
    while i < items.len()
        invariant
            i <= items@.len(),
            entries@.len() == i,
            expected == Seq::new(
                items@.len(),
                |i: int| entry_props_text("item"@, items@[i], false, false, Seq::empty(), entry_id_text(prefix@, i as nat)),
            ),
            forall|j: int| 0 <= j < i ==> #[trigger] entries@[j]@ == expected[j],
        decreases items@.len() - i,
    {
        let id = entry_id(prefix, i);
        let empty = String::new();
        entries.push(compose_side_nav_entry_props("item", &items[i], false, false, empty.as_str(), id.as_str()));
        i = i + 1;
    }
    assert(string_views_of(entries@) =~= expected);
    entry_list(&entries, indent)
}

/// The data of one side navigation item.
pub open spec fn entry_text(item: SideNavItem, indent: nat, id: Seq<char>) -> Seq<char> {
    match item {
        SideNavItem::Header(p) => entry_props_text("header"@, p, false, false, Seq::empty(), id),
        SideNavItem::Item(p) => entry_props_text("item"@, p, false, false, Seq::empty(), id),
        SideNavItem::Divider => "DoweSideNavEntry(id = \""@ + kotlin_escaped(id)
            + "\", kind = \"divider\", label = \"\", description = null, status = null, operation = null, path = null, fragment = null, bordered = false)"@,
        SideNavItem::Submenu { props, open, bordered, items } => entry_props_text(
            "submenu"@,
            props,
            open,
            bordered,
            child_entries_text(items@, indent + 4, id),
            id,
        ),
    }
}

/// The data of one side navigation item; a submenu carries its children.
pub fn compose_side_nav_entry(item: &SideNavItem, indent: usize, id: &str) -> (res: String)
    requires
        indent + 8 <= usize::MAX,
    ensures
        res@ == entry_text(*item, indent as nat, id@),
{
    let empty = String::new();
    match item {
        SideNavItem::Header(p) => compose_side_nav_entry_props("header", p, false, false, empty.as_str(), id),
        SideNavItem::Item(p) => compose_side_nav_entry_props("item", p, false, false, empty.as_str(), id),
        SideNavItem::Divider => {
            let mut out = String::from_str("DoweSideNavEntry(id = \"");
            push_kotlin_escaped(&mut out, id);
            out.append("\", kind = \"divider\", label = \"\", description = null, status = null, operation = null, path = null, fragment = null, bordered = false)");
            out
        },
        SideNavItem::Submenu { props, open, bordered, items } => {
            let children = compose_side_nav_child_entries(items.as_slice(), indent + 4, id);
            compose_side_nav_entry_props("submenu", props, *open, *bordered, children.as_str(), id)
        },
    }
}

/// The data of the items of a side navigation, with ids `<prefix>-<index>`.
pub open spec fn entries_text(items: Seq<SideNavItem>, indent: nat, prefix: Seq<char>) -> Seq<char> {
    entry_list_text(
        Seq::new(items.len(), |i: int| entry_text(items[i], indent + 4, entry_id_text(prefix, i as nat))),
        indent,
    )
}

/// The data of the items of a side navigation, with ids `<prefix>-<index>`.
pub fn compose_side_nav_entries_with_prefix(items: &[SideNavItem], indent: usize, prefix: &str) -> (res: String)
    requires
        indent + 12 <= usize::MAX,
    ensures
        res@ == entries_text(items@, indent as nat, prefix@),
{
    let ghost expected = Seq::new(
        items@.len(),
        |i: int| entry_text(items@[i], indent as nat + 4, entry_id_text(prefix@, i as nat)),
    );
    let mut entries: Vec<String> = Vec::new();
    let mut i: usize = 0;
    while i < items.len()
        invariant
            indent + 12 <= usize::MAX,
            i <= items@.len(),
            entries@.len() == i,
            expected == Seq::new(
                items@.len(),
                |i: int| entry_text(items@[i], indent as nat + 4, entry_id_text(prefix@, i as nat)),
            ),
            forall|j: int| 0 <= j < i ==> #[trigger] entries@[j]@ == expected[j],
        decreases items@.len() - i,
    {
        let id = entry_id(prefix, i);
        entries.push(compose_side_nav_entry(&items[i], indent + 4, id.as_str()));
        i = i + 1;
    }
    assert(string_views_of(entries@) =~= expected);
    entry_list(&entries, indent)
}

/// The data of the items of a side navigation, with ids `item-<index>`.
pub fn compose_side_nav_entries(items: &[SideNavItem], indent: usize) -> (res: String)
    requires
        indent + 12 <= usize::MAX,
    ensures
        res@ == entries_text(items@, indent as nat, "item"@),
{
    compose_side_nav_entries_with_prefix(items, indent, "item")
}

} // verus!
