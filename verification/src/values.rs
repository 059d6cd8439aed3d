//! Kotlin values of form controls and data components: option lists, table
//! columns, bound text and boolean values, visibility conditions and sources.
use vstd::prelude::*;
use crate::context::{lookup, signal_path_text, ComposeReactiveContext};
use crate::layout::{ElementProps, StyleProps};
use crate::navigation::NavigationAction;
use crate::style_values::{bool_string, bool_text, bool_value_text, compose_bool_value, ColorToken, ResponsiveValue};
use crate::text::{
    compose_optional_string, compose_string_literal, kotlin_escaped, list_of, list_of_text, opt_string_view, opt_view, optional_string_text, push_kotlin_escaped, string_literal_text, string_views,
};

verus! {

/// The visual variants of components.
#[derive(Debug, Clone, Copy, PartialEq, Eq, Structural)]
pub enum ComponentVariant {
    Solid,
    Outlined,
    Quiet,
    Soft,
    Line,
}

/// The properties of a component with a variant: its element and style, its
/// variant, its label, placeholder and link, the Kotlin container and content
/// colors of its variant and color (as a control and as a card), and the design
/// color of its color family.
#[derive(Debug, Clone)]
pub struct VariantProps {
    pub element: ElementProps,
    pub style: StyleProps,
    pub variant: Option<ComponentVariant>,
    pub label: Option<String>,
    pub placeholder: Option<String>,
    pub label_floating: bool,
    pub navigation: Option<NavigationAction>,
    pub container: String,
    pub content: String,
    pub card_container: String,
    pub card_content: String,
    pub scheme: ColorToken,
}

/// The border color of a component: its content color when it is outlined, `null` otherwise.
pub open spec fn variant_border_text(props: VariantProps) -> Seq<char> {
    let variant = match props.variant {
        Some(v) => v,
        None => ComponentVariant::Solid,
    };
    if variant == ComponentVariant::Outlined {
        props.content@
    } else {
        "null"@
    }
}

/// The border color of a component, solid when no variant is set.
pub fn compose_variant_border(props: &VariantProps) -> (res: String)
    ensures
        res@ == variant_border_text(*props),
{
    let variant = match props.variant {
        Some(v) => v,
        None => ComponentVariant::Solid,
    };
    if variant == ComponentVariant::Outlined {
        props.content.clone()
    } else {
        String::from_str("null")
    }
}

/// An option of a radio group.
#[derive(Debug, Clone)]
pub struct RadioOption {
    pub value: String,
    pub label: String,
    pub disabled: bool,
}

/// The Kotlin value of a radio option.
pub open spec fn radio_option_text(option: RadioOption) -> Seq<char> {
    "DoweRadioOption(value = "@ + string_literal_text(option.value@) + ", label = "@ + string_literal_text(
        option.label@,
    ) + ", disabled = "@ + bool_text(option.disabled) + ")"@
}

/// The Kotlin list of the options of a radio group.
pub fn compose_radio_options(options: &[RadioOption]) -> (res: String)
    ensures
        res@ == list_of_text(Seq::new(options@.len(), |i: int| radio_option_text(options@[i]))),
{
    let mut values: Vec<String> = Vec::new();
    let mut i: usize = 0;
    while i < options.len()
        invariant
            i <= options@.len(),
            values@.len() == i,
            forall|j: int| 0 <= j < i ==> #[trigger] values@[j]@ == radio_option_text(options@[j]),
        decreases options@.len() - i,
    {
        let option = &options[i];
        let mut v = String::from_str("DoweRadioOption(value = ");
        v.append(compose_string_literal(option.value.as_str()).as_str());
        v.append(", label = ");
        v.append(compose_string_literal(option.label.as_str()).as_str());
        v.append(", disabled = ");
        v.append(bool_string(option.disabled).as_str());
        v.append(")");
        values.push(v);
        i = i + 1;
    }
    assert(string_views(values@) =~= Seq::new(options@.len(), |j: int| radio_option_text(options@[j])));
    list_of(&values)
}

/// An option of a select.
#[derive(Debug, Clone)]
pub struct SelectOption {
    pub value: String,
    pub label: String,
    pub description: Option<String>,
}

/// The Kotlin value of a select option.
pub open spec fn select_option_text(option: SelectOption) -> Seq<char> {
    "DoweSelectOption(value = "@ + string_literal_text(option.value@) + ", label = "@
        + string_literal_text(option.label@) + ", description = "@ + optional_string_text(
        opt_string_view(option.description),
    ) + ")"@
}

/// The Kotlin list of the options of a select.
pub fn compose_select_options(options: &[SelectOption]) -> (res: String)
    ensures
        res@ == list_of_text(Seq::new(options@.len(), |i: int| select_option_text(options@[i]))),
{
    let mut values: Vec<String> = Vec::new();
    let mut i: usize = 0;
    while i < options.len()
        invariant
            i <= options@.len(),
            values@.len() == i,
            forall|j: int| 0 <= j < i ==> #[trigger] values@[j]@ == select_option_text(options@[j]),
        decreases options@.len() - i,
    {
        let option = &options[i];
        let description = match &option.description {
            Some(d) => Some(d.as_str()),
            None => None,
        };
        let mut v = String::from_str("DoweSelectOption(value = ");
        v.append(compose_string_literal(option.value.as_str()).as_str());
        v.append(", label = ");
        v.append(compose_string_literal(option.label.as_str()).as_str());
        v.append(", description = ");
        v.append(compose_optional_string(description).as_str());
        v.append(")");
        values.push(v);
        i = i + 1;
    }
    assert(string_views(values@) =~= Seq::new(options@.len(), |j: int| select_option_text(options@[j])));
    list_of(&values)
}

/// A tab of a tab list.
#[derive(Debug, Clone)]
pub struct TabItem {
    pub id: String,
    pub label: String,
}

/// The Kotlin value of a tab.
pub open spec fn tab_item_text(tab: TabItem) -> Seq<char> {
    "DoweTabItem(id = "@ + string_literal_text(tab.id@) + ", label = "@ + string_literal_text(tab.label@)
        + ")"@
}

/// The Kotlin list of the tabs of a tab list.
pub fn compose_tabs_items(tabs: &[TabItem]) -> (res: String)
    ensures
        res@ == list_of_text(Seq::new(tabs@.len(), |i: int| tab_item_text(tabs@[i]))),
{
    let mut values: Vec<String> = Vec::new();
    let mut i: usize = 0;
    while i < tabs.len()
        invariant
            i <= tabs@.len(),
            values@.len() == i,
            forall|j: int| 0 <= j < i ==> #[trigger] values@[j]@ == tab_item_text(tabs@[j]),
        decreases tabs@.len() - i,
    {
        let mut v = String::from_str("DoweTabItem(id = ");
        v.append(compose_string_literal(tabs[i].id.as_str()).as_str());
        v.append(", label = ");
        v.append(compose_string_literal(tabs[i].label.as_str()).as_str());
        v.append(")");
        values.push(v);
        i = i + 1;
    }
    assert(string_views(values@) =~= Seq::new(tabs@.len(), |j: int| tab_item_text(tabs@[j])));
    list_of(&values)
}

/// The alignment of a table column.
#[derive(Debug, Clone, Copy, PartialEq, Eq, Structural)]
pub enum TableColumnAlign {
    Start,
    Center,
    End,
}

/// The Kotlin alignment of a table column.
pub open spec fn table_align_text(value: TableColumnAlign) -> Seq<char> {
    match value {
        TableColumnAlign::Start => "DoweTableColumnAlign.Start"@,
        TableColumnAlign::Center => "DoweTableColumnAlign.Center"@,
        TableColumnAlign::End => "DoweTableColumnAlign.End"@,
    }
}

/// The Kotlin alignment of a table column.
pub fn compose_table_align(value: TableColumnAlign) -> (res: &'static str)
    ensures
        res@ == table_align_text(value),
{
    match value {
        TableColumnAlign::Start => "DoweTableColumnAlign.Start",
        TableColumnAlign::Center => "DoweTableColumnAlign.Center",
        TableColumnAlign::End => "DoweTableColumnAlign.End",
    }
}

/// The density of a table.
#[derive(Debug, Clone, Copy, PartialEq, Eq, Structural)]
pub enum TableSize {
    Sm,
    Md,
    Lg,
}

/// The Kotlin density of a table.
pub open spec fn table_size_text(value: TableSize) -> Seq<char> {
    match value {
        TableSize::Sm => "DoweTableSize.Sm"@,
        TableSize::Md => "DoweTableSize.Md"@,
        TableSize::Lg => "DoweTableSize.Lg"@,
    }
}

/// The Kotlin density of a table.
pub fn compose_table_size(value: TableSize) -> (res: &'static str)
    ensures
        res@ == table_size_text(value),
{
    match value {
        TableSize::Sm => "DoweTableSize.Sm",
        TableSize::Md => "DoweTableSize.Md",
        TableSize::Lg => "DoweTableSize.Lg",
    }
}

/// A column of a table.
#[derive(Debug, Clone)]
pub struct TableColumn {
    pub field: String,
    pub label: String,
    pub align: TableColumnAlign,
    pub width: Option<String>,
}

/// The Kotlin value of a table column.
pub open spec fn table_column_text(column: TableColumn) -> Seq<char> {
    "DoweTableColumn(field = "@ + string_literal_text(column.field@) + ", label = "@
        + string_literal_text(column.label@) + ", align = "@ + table_align_text(column.align)
        + ", width = "@ + optional_string_text(opt_string_view(column.width)) + ")"@
}

/// The Kotlin list of the columns of a table.
pub fn compose_table_columns(columns: &[TableColumn]) -> (res: String)
    ensures
        res@ == list_of_text(Seq::new(columns@.len(), |i: int| table_column_text(columns@[i]))),
{
    let mut values: Vec<String> = Vec::new();
    let mut i: usize = 0;
    while i < columns.len()
        invariant
            i <= columns@.len(),
            values@.len() == i,
            forall|j: int| 0 <= j < i ==> #[trigger] values@[j]@ == table_column_text(columns@[j]),
        decreases columns@.len() - i,
    {
        let column = &columns[i];
        let width = match &column.width {
            Some(w) => Some(w.as_str()),
            None => None,
        };
        let mut v = String::from_str("DoweTableColumn(field = ");
        v.append(compose_string_literal(column.field.as_str()).as_str());
        v.append(", label = ");
        v.append(compose_string_literal(column.label.as_str()).as_str());
        v.append(", align = ");
        v.append(compose_table_align(column.align));
        v.append(", width = ");
        v.append(compose_optional_string(width).as_str());
        v.append(")");
        values.push(v);
        i = i + 1;
    }
    assert(string_views(values@) =~= Seq::new(columns@.len(), |j: int| table_column_text(columns@[j])));
    list_of(&values)
}

/// A Kotlin list, or `emptyList()` without values.
pub open spec fn list_or_empty_text(values: Seq<Seq<char>>) -> Seq<char> {
    if values.len() == 0 {
        "emptyList()"@
    } else {
        list_of_text(values)
    }
}

/// A text of a typewriter.
#[derive(Debug, Clone)]
pub struct TypeWriterItem {
    pub text: String,
}

/// The Kotlin list of the texts of a typewriter, `emptyList()` without texts.
pub fn compose_type_writer_items(items: &[TypeWriterItem]) -> (res: String)
    ensures
        res@ == list_or_empty_text(Seq::new(items@.len(), |i: int| string_literal_text(items@[i].text@))),
{
    if items.len() == 0 {
        return String::from_str("emptyList()");
    }
    let mut values: Vec<String> = Vec::new();
    let mut i: usize = 0;
    while i < items.len()
        invariant
            i <= items@.len(),
            values@.len() == i,
            forall|j: int| 0 <= j < i ==> #[trigger] values@[j]@ == string_literal_text(items@[j].text@),
        decreases items@.len() - i,
    {
        values.push(compose_string_literal(items[i].text.as_str()));
        i = i + 1;
    }
    assert(string_views(values@) =~= Seq::new(items@.len(), |j: int| string_literal_text(items@[j].text@)));
    list_of(&values)
}

/// A waypoint of a map route.
#[derive(Debug, Clone)]
pub struct MapWaypoint {
    pub lat: String,
    pub lng: String,
}

/// The Kotlin value of a waypoint.
pub open spec fn waypoint_text(waypoint: MapWaypoint) -> Seq<char> {
    "DoweMapWaypoint(lat = "@ + string_literal_text(waypoint.lat@) + ", lng = "@ + string_literal_text(
        waypoint.lng@,
    ) + ")"@
}

/// The Kotlin list of the waypoints of a map route, `emptyList()` without waypoints.
pub fn compose_map_waypoints(waypoints: &[MapWaypoint]) -> (res: String)
    ensures
        res@ == list_or_empty_text(Seq::new(waypoints@.len(), |i: int| waypoint_text(waypoints@[i]))),
{
    if waypoints.len() == 0 {
        return String::from_str("emptyList()");
    }
    let mut values: Vec<String> = Vec::new();
    let mut i: usize = 0;
    while i < waypoints.len()
        invariant
            i <= waypoints@.len(),
            values@.len() == i,
            forall|j: int| 0 <= j < i ==> #[trigger] values@[j]@ == waypoint_text(waypoints@[j]),
        decreases waypoints@.len() - i,
    {
        let mut v = String::from_str("DoweMapWaypoint(lat = ");
        v.append(compose_string_literal(waypoints[i].lat.as_str()).as_str());
        v.append(", lng = ");
        v.append(compose_string_literal(waypoints[i].lng.as_str()).as_str());
        v.append(")");
        values.push(v);
        i = i + 1;
    }
    assert(string_views(values@) =~= Seq::new(waypoints@.len(), |j: int| waypoint_text(waypoints@[j])));
    list_of(&values)
}

/// A value bound to a text signal and the handler that writes it, or the quoted
/// fallback with a handler that does nothing.
pub open spec fn text_path_and_change_text(
    ctx: ComposeReactiveContext,
    path: Option<Seq<char>>,
    fallback: Seq<char>,
) -> (Seq<char>, Seq<char>) {
    match path {
        Some(p) => {
            let escaped = kotlin_escaped(signal_path_text(ctx, p));
            (
                "state.text(\""@ + escaped + "\")"@,
                "{ state.write(\""@ + escaped + "\", it) }"@,
            )
        },
        None => (string_literal_text(fallback), "{}"@),
    }
}

/// The value and change handler of a text control bound to `path`, or of a fixed
/// text when it is not bound.
pub fn compose_optional_text_path_and_change(
    path: Option<&str>,
    fallback: &str,
    context: &ComposeReactiveContext,
) -> (res: (String, String))
    ensures
        (res.0@, res.1@) == text_path_and_change_text(*context, opt_view(path), fallback@),
{
    match path {
        Some(p) => {
            let resolved = context.signal_path(p);
            let escaped = crate::text::escape_kotlin(resolved.as_str());
            let mut value = String::from_str("state.text(\"");
            value.append(escaped.as_str());
            value.append("\")");
            let mut change = String::from_str("{ state.write(\"");
            change.append(escaped.as_str());
            change.append("\", it) }");
            (value, change)
        },
        None => (compose_string_literal(fallback), String::from_str("{}")),
    }
}

/// The value and change handler of a text control, bound to its element's signal.
pub fn compose_text_value_and_change(
    props: &VariantProps,
    fallback: &str,
    context: &ComposeReactiveContext,
) -> (res: (String, String))
    ensures
        (res.0@, res.1@) == text_path_and_change_text(*context, opt_string_view(props.element.bind), fallback@),
{
    let bind = match &props.element.bind {
        Some(b) => Some(b.as_str()),
        None => None,
    };
    compose_optional_text_path_and_change(bind, fallback, context)
}

/// A value bound to a boolean signal and the handler that writes it, or the fixed
/// fallback with a handler that does nothing.
pub open spec fn bool_value_and_change_text(
    ctx: ComposeReactiveContext,
    path: Option<Seq<char>>,
    fallback: bool,
) -> (Seq<char>, Seq<char>) {
    match path {
        Some(p) => {
            let escaped = kotlin_escaped(signal_path_text(ctx, p));
            (
                "state.bool(\""@ + escaped + "\")"@,
                "{ state.write(\""@ + escaped + "\", it) }"@,
            )
        },
        None => (bool_text(fallback), "{}"@),
    }
}

/// The value and change handler of a boolean control, bound to its element's signal.
pub fn compose_bool_value_and_change(
    props: &VariantProps,
    fallback: bool,
    context: &ComposeReactiveContext,
) -> (res: (String, String))
    ensures
        (res.0@, res.1@) == bool_value_and_change_text(*context, opt_string_view(props.element.bind), fallback),
{
    match &props.element.bind {
        Some(p) => {
            let resolved = context.signal_path(p.as_str());
            let escaped = crate::text::escape_kotlin(resolved.as_str());
            let mut value = String::from_str("state.bool(\"");
            value.append(escaped.as_str());
            value.append("\")");
            let mut change = String::from_str("{ state.write(\"");
            change.append(escaped.as_str());
            change.append("\", it) }");
            (value, change)
        },
        None => (bool_string(fallback), String::from_str("{}")),
    }
}

/// When a view is shown: by a responsive flag, or by a boolean signal.
#[derive(Debug, Clone)]
pub enum VisibilityCondition {
    Static(ResponsiveValue<bool>),
    Signal(String),
}

/// The Kotlin condition of a view's visibility: the flag (shown where no breakpoint
/// applies), the signal read from the current row inside a repeated view, or the
/// signal of the state.
pub open spec fn show_condition_text(ctx: ComposeReactiveContext, show: VisibilityCondition) -> Seq<char> {
    match show {
        VisibilityCondition::Static(v) => bool_value_text(v) + " ?: true"@,
        VisibilityCondition::Signal(path) => match lookup(ctx.item_values@, path@) {
            Some(item) => {
                let p = match lookup(ctx.item_paths@, path@) {
                    Some(p) => p,
                    None => path@,
                };
                "state.bool(\""@ + kotlin_escaped(p) + "\", "@ + item + ")"@
            },
            None => "state.bool(\""@ + kotlin_escaped(signal_path_text(ctx, path@)) + "\")"@,
        },
    }
}

/// The Kotlin condition of a view's visibility.
pub fn compose_show_condition(show: &VisibilityCondition, context: &ComposeReactiveContext) -> (res: String)
    ensures
        res@ == show_condition_text(*context, *show),
{
    match show {
        VisibilityCondition::Static(v) => {
            let mut out = compose_bool_value(v);
            out.append(" ?: true");
            out
        },
        VisibilityCondition::Signal(path) => match context.item_value(path.as_str()) {
            Some(item) => {
                let p = match context.item_path(path.as_str()) {
                    Some(p) => p.clone(),
                    None => path.clone(),
                };
                let mut out = String::from_str("state.bool(\"");
                push_kotlin_escaped(&mut out, p.as_str());
                out.append("\", ");
                out.append(item.as_str());
                out.append(")");
                out
            },
            None => {
                let resolved = context.signal_path(path.as_str());
                let mut out = String::from_str("state.bool(\"");
                push_kotlin_escaped(&mut out, resolved.as_str());
                out.append("\")");
                out
            },
        },
    }
}

/// The source properties of an image: its fixed address and the binding it may read.
#[derive(Debug, Clone)]
pub struct ImageSource {
    pub src: String,
    pub reactive_src: Option<String>,
}

/// The Kotlin source of an image: the state text its binding reads (from the
/// current row inside a repeated view), else its fixed address.
pub open spec fn image_source_text(ctx: ComposeReactiveContext, props: ImageSource) -> Seq<char> {
    match props.reactive_src {
        Some(binding) => match lookup(ctx.dynamic_paths@, binding@) {
            Some(path) => match lookup(ctx.item_values@, binding@) {
                Some(item) => "state.text(\""@ + kotlin_escaped(path) + "\", "@ + item + ")"@,
                None => "state.text(\""@ + kotlin_escaped(path) + "\")"@,
            },
            None => string_literal_text(props.src@),
        },
        None => string_literal_text(props.src@),
    }
}

/// The Kotlin source of an image.
pub fn compose_image_source(props: &ImageSource, context: &ComposeReactiveContext) -> (res: String)
    ensures
        res@ == image_source_text(*context, *props),
{
    let binding = match &props.reactive_src {
        Some(b) => b,
        None => {
            return compose_string_literal(props.src.as_str());
        },
    };
    let path = match context.dynamic_path(binding.as_str()) {
        Some(p) => p,
        None => {
            return compose_string_literal(props.src.as_str());
        },
    };
    match context.item_value(binding.as_str()) {
        Some(item) => {
            let mut out = String::from_str("state.text(\"");
            push_kotlin_escaped(&mut out, path.as_str());
            out.append("\", ");
            out.append(item.as_str());
            out.append(")");
            out
        },
        None => {
            let mut out = String::from_str("state.text(\"");
            push_kotlin_escaped(&mut out, path.as_str());
            out.append("\")");
            out
        },
    }
}

/// The Kotlin value of an optional boolean signal, `false` without one.
pub open spec fn optional_bool_signal_text(ctx: ComposeReactiveContext, path: Option<Seq<char>>) -> Seq<char> {
    match path {
        Some(p) => "state.bool(\""@ + kotlin_escaped(signal_path_text(ctx, p)) + "\")"@,
        None => "false"@,
    }
}

/// The Kotlin value of an optional boolean signal.
pub fn compose_optional_bool_signal(path: Option<&str>, context: &ComposeReactiveContext) -> (res: String)
    ensures
        res@ == optional_bool_signal_text(*context, opt_view(path)),
{
    match path {
        Some(p) => {
            let resolved = context.signal_path(p);
            let mut out = String::from_str("state.bool(\"");
            push_kotlin_escaped(&mut out, resolved.as_str());
            out.append("\")");
            out
        },
        None => String::from_str("false"),
    }
}

/// The send handler of a chat box: it runs the action where the scope has it.
pub open spec fn chat_send_action_text(ctx: ComposeReactiveContext, action: Option<Seq<char>>) -> Seq<char> {
    let id = match action {
        Some(name) => lookup(ctx.action_ids@, name),
        None => None,
    };
    match id {
        Some(id) => "{ _: String -> actionScope.launch { state.run(\""@ + kotlin_escaped(id) + "\") } }"@,
        None => "null"@,
    }
}

/// The send handler of a chat box, `null` without an action.
pub fn compose_chat_send_action(action: Option<&str>, context: &ComposeReactiveContext) -> (res: String)
    ensures
        res@ == chat_send_action_text(*context, opt_view(action)),
{
    let id = match action {
        Some(name) => context.action_id(name),
        None => None,
    };
    match id {
        Some(id) => {
            let mut out = String::from_str("{ _: String -> actionScope.launch { state.run(\"");
            push_kotlin_escaped(&mut out, id.as_str());
            out.append("\") } }");
            out
        },
        None => String::from_str("null"),
    }
}

} // verus!
