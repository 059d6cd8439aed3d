//! Selection and people components: toggle groups, pagination, avatar groups
//! and rich text marks.
use vstd::prelude::*;
use crate::context::{signal_path_text, ComposeReactiveContext};
use crate::layout::{modifier_for_style, style_modifier_text};
use crate::media::{render_compose_side_icon, side_icon_line, SvgIcon};
use crate::navigation::{
    component_action_text, compose_optional_component_action, NavigationAction,
};
use crate::style_values::{bool_string, bool_text, ColorToken};
use crate::text::{
    compose_optional_field, compose_string_literal, decimal_string, decimal_text, kotlin_escaped, list_of, opt_str,
    opt_string_view, optional_string_text, pad, push_kotlin_escaped, spaces, string_literal_text, string_views,
};
use crate::values::{compose_variant_border, list_or_empty_text, variant_border_text, VariantProps};

verus! {

/// An item of a toggle group: its id, its label and the name of its icon.
#[derive(Debug, Clone)]
pub struct ToggleGroupItem {
    pub id: String,
    pub label: String,
    pub icon: Option<String>,
}

/// The Kotlin value of a toggle group item.
pub open spec fn toggle_group_item_text(item: ToggleGroupItem) -> Seq<char> {
    "DoweToggleGroupItem(id = "@ + string_literal_text(item.id@) + ", label = "@ + string_literal_text(item.label@)
        + ", icon = "@ + optional_string_text(opt_string_view(item.icon)) + ")"@
}

/// The Kotlin value of the items of a toggle group.
pub open spec fn toggle_group_items_text(items: Seq<ToggleGroupItem>) -> Seq<char> {
    list_or_empty_text(Seq::new(items.len(), |i: int| toggle_group_item_text(items[i])))
}

/// The Kotlin list of the items of a toggle group, `emptyList()` without items.
pub fn compose_toggle_group_items(items: &[ToggleGroupItem]) -> (res: String)
    ensures
        res@ == toggle_group_items_text(items@),
{
    if items.len() == 0 {
        return String::from_str("emptyList()");
    }
    let mut values: Vec<String> = Vec::new();
    let mut i: usize = 0;
    while i < items.len()
        invariant
            i <= items@.len(),
            values@.len() == i,
            forall|j: int| 0 <= j < i ==> #[trigger] values@[j]@ == toggle_group_item_text(items@[j]),
        decreases items@.len() - i,
    {
        let item = &items[i];
        let mut v = String::from_str("DoweToggleGroupItem(id = ");
        v.append(compose_string_literal(item.id.as_str()).as_str());
        v.append(", label = ");
        v.append(compose_string_literal(item.label.as_str()).as_str());
        v.append(", icon = ");
        v.append(compose_optional_field(&item.icon).as_str());
        v.append(")");
        values.push(v);
        i = i + 1;
    }
    assert(string_views(values@) =~= Seq::new(items@.len(), |j: int| toggle_group_item_text(items@[j])));
    list_of(&values)
}

/// The total of a pagination: a fixed number of items, or the signal that holds it.
#[derive(Debug, Clone)]
pub enum PaginationTotal {
    Static(u64),
    Signal(String),
}

/// A pagination: its total and the number of items on a page.
#[derive(Debug, Clone)]
pub struct Pagination {
    pub total: PaginationTotal,
    pub page_size: u64,
}

/// A toggle group: its style and variant, whether it is a pagination and how it
/// pages, the signal of its value and the value selected without one, the name of
/// its size, its layout, whether it is disabled, its accessible label and the
/// action run on change.
#[derive(Debug, Clone)]
pub struct ToggleGroupProps {
    pub style: VariantProps,
    pub is_pagination: bool,
    pub pagination: Option<Pagination>,
    pub value: Option<String>,
    pub selected: String,
    pub size: String,
    pub wide: bool,
    pub vertical: bool,
    pub disabled: bool,
    pub aria_label: Option<String>,
    pub on_change: Option<String>,
}

/// The current value of a toggle group: its signal's text, or the selected value.
pub open spec fn toggle_value_text(props: ToggleGroupProps, context: ComposeReactiveContext) -> Seq<char> {
    match props.value {
        Some(path) => "state.text(\""@ + kotlin_escaped(signal_path_text(context, path@)) + "\")"@,
        None => string_literal_text(props.selected@),
    }
}

/// The change handler of a toggle group: it writes its signal, or does nothing.
pub open spec fn toggle_change_text(props: ToggleGroupProps, context: ComposeReactiveContext) -> Seq<char> {
    match props.value {
        Some(path) => "{ value -> state.write(\""@ + kotlin_escaped(signal_path_text(context, path@)) + "\", value) }"@,
        None => "{ _ -> }"@,
    }
}

fn compose_toggle_value(props: &ToggleGroupProps, context: &ComposeReactiveContext) -> (res: String)
    ensures
        res@ == toggle_value_text(*props, *context),
{
    match &props.value {
        Some(path) => {
            let mut out = String::from_str("state.text(\"");
            push_kotlin_escaped(&mut out, context.signal_path(path.as_str()).as_str());
            out.append("\")");
            out
        },
        None => compose_string_literal(props.selected.as_str()),
    }
}

fn compose_toggle_change(props: &ToggleGroupProps, context: &ComposeReactiveContext) -> (res: String)
    ensures
        res@ == toggle_change_text(*props, *context),
{
    match &props.value {
        Some(path) => {
            let mut out = String::from_str("{ value -> state.write(\"");
            push_kotlin_escaped(&mut out, context.signal_path(path.as_str()).as_str());
            out.append("\", value) }");
            out
        },
        None => String::from_str("{ _ -> }"),
    }
}

/// The number of pages of a fixed total: the total divided by the page size,
/// rounded up, and at least one.
pub open spec fn static_page_count(total: u64, page_size: u64) -> nat {
    let pages: int = if total % page_size == 0 { (total / page_size) as int } else { total / page_size + 1 };
    if pages < 1 { 1 } else { pages as nat }
}

/// The Kotlin number of pages of a pagination: the rounded-up quotient of a fixed
/// total, or an expression over its total's signal capped at 25 pages, or the
/// number of items; at least one in each case.
pub open spec fn page_count_text(props: ToggleGroupProps, item_count: nat, context: ComposeReactiveContext) -> Seq<char> {
    match props.pagination {
        Some(p) => match p.total {
            PaginationTotal::Static(total) => decimal_text(static_page_count(total, p.page_size)),
            PaginationTotal::Signal(path) => "maxOf(1, minOf(25, ((state.text(\""@
                + kotlin_escaped(signal_path_text(context, path@)) + "\").toIntOrNull() ?: 0).coerceAtLeast(0) + "@
                + decimal_text((p.page_size - 1) as nat) + ") / "@ + decimal_text(p.page_size as nat) + "))"@,
        },
        None => decimal_text(if item_count < 1 { 1 } else { item_count }),
    }
}

/// The page size of a pagination is positive.
pub open spec fn pagination_valid(props: ToggleGroupProps) -> bool {
    match props.pagination {
        Some(p) => p.page_size > 0,
        None => true,
    }
}

fn compose_page_count(props: &ToggleGroupProps, item_count: usize, context: &ComposeReactiveContext) -> (res: String)
    requires
        pagination_valid(*props),
    ensures
        res@ == page_count_text(*props, item_count as nat, *context),
{
    match &props.pagination {
        Some(p) => match &p.total {
            PaginationTotal::Static(total) => {
                let q = *total / p.page_size;
                let pages = if *total % p.page_size == 0 {
                    q
                } else {
                    assert(q < u64::MAX) by (nonlinear_arith)
                        requires
                            q == *total / p.page_size,
                            *total % p.page_size != 0,
                            p.page_size > 0,
                    {
                        if p.page_size == 1 {
                            assert(*total % 1 == 0);
                        }
                        assert(q * p.page_size <= *total);
                    }
                    q + 1
                };
                let pages = if pages < 1 { 1 } else { pages };
                decimal_string(pages)
            },
            PaginationTotal::Signal(path) => {
                let mut out = String::from_str("maxOf(1, minOf(25, ((state.text(\"");
                push_kotlin_escaped(&mut out, context.signal_path(path.as_str()).as_str());
                out.append("\").toIntOrNull() ?: 0).coerceAtLeast(0) + ");
                out.append(decimal_string(p.page_size - 1).as_str());
                out.append(") / ");
                out.append(decimal_string(p.page_size).as_str());
                out.append("))");
                out
            },
        },
        None => {
            let count: u64 = if item_count < 1 { 1 } else { item_count as u64 };
            decimal_string(count)
        },
    }
}

/// The Compose call of a pagination, with its previous and next icons.
pub open spec fn pagination_text(
    props: ToggleGroupProps,
    items: Seq<ToggleGroupItem>,
    previous: SvgIcon,
    next: SvgIcon,
    indent: usize,
    context: ComposeReactiveContext,
) -> Seq<char> {
    spaces(indent as nat) + "DowePagination(value = "@ + (toggle_value_text(props, context))
        + ", onValueChange = "@ + (toggle_change_text(props, context)) + ", pageCount = "@
        + (page_count_text(props, items.len(), context)) + ", size = "@ + (string_literal_text(props.size@))
        + ", disabled = "@ + (bool_text(props.disabled)) + ", ariaLabel = "@
        + (optional_string_text(opt_string_view(props.aria_label))) + ", backgroundColor = "@
        + (props.style.card_container@) + ", contentColor = "@ + (props.style.card_content@)
        + ", borderColor = "@ + (variant_border_text(props.style)) + ", onChange = "@
        + (component_action_text(context, opt_string_view(props.on_change), None)) + ", previousIcon = "@
        + "{\n"@ + side_icon_line(previous, (indent + 4) as usize) + spaces(indent as nat) + "}, nextIcon = {\n"@
        + side_icon_line(next, (indent + 4) as usize) + spaces(indent as nat) + "}, modifier = "@
        + style_modifier_text(props.style.style, "Modifier"@) + ")\n"@
}

/// Writes the Compose call of a pagination, with its previous and next icons.
pub fn render_compose_pagination(
    props: &ToggleGroupProps,
    items: &[ToggleGroupItem],
    previous: &SvgIcon,
    next: &SvgIcon,
    indent: usize,
    output: &mut String,
    context: &ComposeReactiveContext,
)
    requires
        indent + 4 <= usize::MAX,
        pagination_valid(*props),
    ensures
        final(output)@ == old(output)@ + pagination_text(*props, items@, *previous, *next, indent, *context),
{
    let mut line = pad(indent);
    line.append("DowePagination(value = ");
    line.append(compose_toggle_value(props, context).as_str());
    line.append(", onValueChange = ");
    line.append(compose_toggle_change(props, context).as_str());
    line.append(", pageCount = ");
    line.append(compose_page_count(props, items.len(), context).as_str());
    line.append(", size = ");
    line.append(compose_string_literal(props.size.as_str()).as_str());
    line.append(", disabled = ");
    line.append(bool_string(props.disabled).as_str());
    line.append(", ariaLabel = ");
    line.append(compose_optional_field(&props.aria_label).as_str());
    line.append(", backgroundColor = ");
    line.append(props.style.card_container.as_str());
    line.append(", contentColor = ");
    line.append(props.style.card_content.as_str());
    line.append(", borderColor = ");
    line.append(compose_variant_border(&props.style).as_str());
    line.append(", onChange = ");
    line.append(compose_optional_component_action(opt_str(&props.on_change), None, context).as_str());
    line.append(", previousIcon = ");
    line.append("{\n");
    render_compose_side_icon(previous, indent + 4, &mut line);
    line.append(pad(indent).as_str());
    line.append("}, nextIcon = {\n");
    render_compose_side_icon(next, indent + 4, &mut line);
    line.append(pad(indent).as_str());
    line.append("}, modifier = ");
    line.append(modifier_for_style(&props.style.style).as_str());
    line.append(")\n");
    output.append(line.as_str());
}

/// The Compose call of a toggle group; a pagination has its own call.
pub open spec fn toggle_group_text(
    props: ToggleGroupProps,
    items: Seq<ToggleGroupItem>,
    previous: SvgIcon,
    next: SvgIcon,
    indent: usize,
    context: ComposeReactiveContext,
) -> Seq<char> {
    if props.is_pagination {
        pagination_text(props, items, previous, next, indent, context)
    } else {
        spaces(indent as nat) + "DoweToggleGroup(value = "@ + (toggle_value_text(props, context))
            + ", onValueChange = "@ + (toggle_change_text(props, context)) + ", items = "@
            + (toggle_group_items_text(items)) + ", size = "@ + (string_literal_text(props.size@)) + ", wide = "@
            + (bool_text(props.wide)) + ", vertical = "@ + (bool_text(props.vertical)) + ", disabled = "@
            + (bool_text(props.disabled)) + ", ariaLabel = "@
            + (optional_string_text(opt_string_view(props.aria_label))) + ", backgroundColor = "@
            + (props.style.card_container@) + ", contentColor = "@ + (props.style.card_content@)
            + ", borderColor = "@ + (variant_border_text(props.style)) + ", onChange = "@
            + (component_action_text(context, opt_string_view(props.on_change), None)) + ", modifier = "@
            + (style_modifier_text(props.style.style, "Modifier"@)) + ")\n"@
    }
}

/// Writes the Compose call of a toggle group, or of a pagination with the given icons.
pub fn render_compose_toggle_group(
    props: &ToggleGroupProps,
    items: &[ToggleGroupItem],
    previous: &SvgIcon,
    next: &SvgIcon,
    indent: usize,
    output: &mut String,
    context: &ComposeReactiveContext,
)
    requires
        indent + 4 <= usize::MAX,
        pagination_valid(*props),
    ensures
        final(output)@ == old(output)@ + toggle_group_text(*props, items@, *previous, *next, indent, *context),
{
    if props.is_pagination {
        render_compose_pagination(props, items, previous, next, indent, output, context);
        return;
    }
    let mut line = pad(indent);
    line.append("DoweToggleGroup(value = ");
    line.append(compose_toggle_value(props, context).as_str());
    line.append(", onValueChange = ");
    line.append(compose_toggle_change(props, context).as_str());
    line.append(", items = ");
    line.append(compose_toggle_group_items(items).as_str());
    line.append(", size = ");
    line.append(compose_string_literal(props.size.as_str()).as_str());
    line.append(", wide = ");
    line.append(bool_string(props.wide).as_str());
    line.append(", vertical = ");
    line.append(bool_string(props.vertical).as_str());
    line.append(", disabled = ");
    line.append(bool_string(props.disabled).as_str());
    line.append(", ariaLabel = ");
    line.append(compose_optional_field(&props.aria_label).as_str());
    line.append(", backgroundColor = ");
    line.append(props.style.card_container.as_str());
    line.append(", contentColor = ");
    line.append(props.style.card_content.as_str());
    line.append(", borderColor = ");
    line.append(compose_variant_border(&props.style).as_str());
    line.append(", onChange = ");
    line.append(compose_optional_component_action(opt_str(&props.on_change), None, context).as_str());
    line.append(", modifier = ");
    line.append(modifier_for_style(&props.style.style).as_str());
    line.append(")\n");
    output.append(line.as_str());
}

/// A person of an avatar group: the address of the picture, the name, the
/// alternative text, and what a click does.
#[derive(Debug, Clone)]
pub struct AvatarGroupItem {
    pub src: Option<String>,
    pub name: Option<String>,
    pub alt: Option<String>,
    pub on_click: Option<String>,
    pub navigation: Option<NavigationAction>,
}

/// The Kotlin value of a person of an avatar group.
pub open spec fn avatar_item_text(context: ComposeReactiveContext, item: AvatarGroupItem) -> Seq<char> {
    "DoweAvatarGroupItem(source = "@ + optional_string_text(opt_string_view(item.src)) + ", name = "@
        + optional_string_text(opt_string_view(item.name)) + ", alt = "@ + optional_string_text(opt_string_view(item.alt))
        + ", onClick = "@ + component_action_text(context, opt_string_view(item.on_click), item.navigation) + ")"@
}

/// The Kotlin list of the people of an avatar group.
pub open spec fn avatar_items_text(context: ComposeReactiveContext, items: Seq<AvatarGroupItem>) -> Seq<char> {
    list_or_empty_text(Seq::new(items.len(), |i: int| avatar_item_text(context, items[i])))
}

/// The Kotlin list of the people of an avatar group, `emptyList()` without any.
pub fn compose_avatar_group_items(items: &[AvatarGroupItem], context: &ComposeReactiveContext) -> (res: String)
    ensures
        res@ == avatar_items_text(*context, items@),
{
    if items.len() == 0 {
        return String::from_str("emptyList()");
    }
    let mut values: Vec<String> = Vec::new();
    let mut i: usize = 0;
    while i < items.len()
        invariant
            i <= items@.len(),
            values@.len() == i,
            forall|j: int| 0 <= j < i ==> #[trigger] values@[j]@ == avatar_item_text(*context, items@[j]),
        decreases items@.len() - i,
    {
        let item = &items[i];
        let mut v = String::from_str("DoweAvatarGroupItem(source = ");
        v.append(compose_optional_field(&item.src).as_str());
        v.append(", name = ");
        v.append(compose_optional_field(&item.name).as_str());
        v.append(", alt = ");
        v.append(compose_optional_field(&item.alt).as_str());
        v.append(", onClick = ");
        v.append(compose_optional_component_action(opt_str(&item.on_click), item.navigation.as_ref(), context).as_str());
        v.append(")");
        values.push(v);
        i = i + 1;
    }
    assert(string_views(values@) =~= Seq::new(items@.len(), |j: int| avatar_item_text(*context, items@[j])));
    list_of(&values)
}

/// An avatar group: its style and variant, the signal of its rows, the name of
/// its size, the most avatars it shows, and its layout.
#[derive(Debug, Clone)]
pub struct AvatarGroupProps {
    pub style: VariantProps,
    pub items: Option<String>,
    pub size: String,
    pub max: Option<u64>,
    pub inline: bool,
    pub bordered: bool,
}

/// The people of an avatar group: read from its rows' signal with the fixed
/// people as fallback, or the fixed people.
pub open spec fn avatar_items_value_text(
    context: ComposeReactiveContext,
    props: AvatarGroupProps,
    items: Seq<AvatarGroupItem>,
) -> Seq<char> {
    match props.items {
        Some(path) => "doweAvatarGroupItems(state.rows(\""@ + kotlin_escaped(signal_path_text(context, path@))
            + "\").map { it.value }, "@ + avatar_items_text(context, items) + ")"@,
        None => avatar_items_text(context, items),
    }
}

/// The people of an avatar group as a Kotlin value.
pub fn compose_avatar_group_items_value(
    props: &AvatarGroupProps,
    items: &[AvatarGroupItem],
    context: &ComposeReactiveContext,
) -> (res: String)
    ensures
        res@ == avatar_items_value_text(*context, *props, items@),
{
    let fallback = compose_avatar_group_items(items, context);
    match &props.items {
        Some(path) => {
            let mut out = String::from_str("doweAvatarGroupItems(state.rows(\"");
            push_kotlin_escaped(&mut out, context.signal_path(path.as_str()).as_str());
            out.append("\").map { it.value }, ");
            out.append(fallback.as_str());
            out.append(")");
            out
        },
        None => fallback,
    }
}

/// The Compose call of an avatar group.
pub open spec fn avatar_group_line(props: AvatarGroupProps, items: Seq<AvatarGroupItem>, indent: usize, context: ComposeReactiveContext) -> Seq<char> {
    spaces(indent as nat) + "DoweAvatarGroup(items = "@
        + (avatar_items_value_text(context, props, items)) + ", size = "@ + (string_literal_text(props.size@))
        + ", maxCount = "@ + (crate::text::optional_decimal_text(props.max)) + ", inline = "@
        + (bool_text(props.inline)) + ", bordered = "@ + (bool_text(props.bordered)) + ", backgroundColor = "@
        + (props.style.container@) + ", contentColor = "@ + (props.style.content@) + ", borderColor = "@
        + (props.style.content@) + ", modifier = "@ + (style_modifier_text(props.style.style, "Modifier"@))
        + ")\n"@
}

/// The Compose call of an avatar group.
pub fn render_compose_avatar_group(props: &AvatarGroupProps, items: &[AvatarGroupItem], indent: usize, output: &mut String, context: &ComposeReactiveContext)
    ensures
        final(output)@ == old(output)@ + avatar_group_line(*props, items@, indent, *context),
{
    let mut line = pad(indent);
    line.append("DoweAvatarGroup(items = ");
    line.append(compose_avatar_group_items_value(props, items, context).as_str());
    line.append(", size = ");
    line.append(compose_string_literal(props.size.as_str()).as_str());
    line.append(", maxCount = ");
    line.append(crate::text::compose_optional_decimal(props.max).as_str());
    line.append(", inline = ");
    line.append(bool_string(props.inline).as_str());
    line.append(", bordered = ");
    line.append(bool_string(props.bordered).as_str());
    line.append(", backgroundColor = ");
    line.append(props.style.container.as_str());
    line.append(", contentColor = ");
    line.append(props.style.content.as_str());
    line.append(", borderColor = ");
    line.append(props.style.content.as_str());
    line.append(", modifier = ");
    line.append(modifier_for_style(&props.style.style).as_str());
    line.append(")\n");
    output.append(line.as_str());
}

/// A styled run of rich text: its text, the name of its style and its color.
#[derive(Debug, Clone)]
pub struct RichTextMark {
    pub text: String,
    pub style: String,
    pub color: ColorToken,
}

/// The Kotlin value of a run of rich text.
pub open spec fn rich_text_mark_text(mark: RichTextMark) -> Seq<char> {
    "DoweRichTextMark(text = "@ + string_literal_text(mark.text@) + ", style = "@ + string_literal_text(mark.style@)
        + ", color = "@ + mark.color.reference@ + ")"@
}

/// The Kotlin list of the runs of a rich text, `emptyList()` without runs.
pub fn compose_rich_text_marks(marks: &[RichTextMark]) -> (res: String)
    ensures
        res@ == list_or_empty_text(Seq::new(marks@.len(), |i: int| rich_text_mark_text(marks@[i]))),
{
    if marks.len() == 0 {
        return String::from_str("emptyList()");
    }
    let mut values: Vec<String> = Vec::new();
    let mut i: usize = 0;
    while i < marks.len()
        invariant
            i <= marks@.len(),
            values@.len() == i,
            forall|j: int| 0 <= j < i ==> #[trigger] values@[j]@ == rich_text_mark_text(marks@[j]),
        decreases marks@.len() - i,
    {
        let mark = &marks[i];
        let mut v = String::from_str("DoweRichTextMark(text = ");
        v.append(compose_string_literal(mark.text.as_str()).as_str());
        v.append(", style = ");
        v.append(compose_string_literal(mark.style.as_str()).as_str());
        v.append(", color = ");
        v.append(crate::style_values::color_ref(&mark.color));
        v.append(")");
        values.push(v);
        i = i + 1;
    }
    assert(string_views(values@) =~= Seq::new(marks@.len(), |j: int| rich_text_mark_text(marks@[j])));
    list_of(&values)
}

} // verus!
