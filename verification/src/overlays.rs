//! Overlays: alert dialogs, toasts, menu items and the command palette.
use vstd::prelude::*;
use crate::context::{signal_path_text, ComposeReactiveContext};
use crate::layout::{compose_card_radius, radius_text};
use crate::media::{render_compose_side_icon, side_icon_line, SvgIcon};
use crate::navigation::{
    close_action_text, component_action_text, compose_close_action, compose_optional_component_action, NavigationAction,
};
use crate::style_values::{bool_string, bool_text, ColorToken};
use crate::text::{
    compose_optional_field, compose_string_literal, escape_kotlin, kotlin_escaped, opt_str, opt_string_view, optional_string_text, pad, spaces, string_literal_text,
};
use crate::values::VariantProps;

verus! {

/// An alert dialog: its style and variant, the signal that opens it, its texts,
/// whether it is loading, the actions run on confirm and cancel, and the design
/// color of its color family (danger by default).
#[derive(Debug, Clone)]
pub struct AlertDialogProps {
    pub style: VariantProps,
    pub open: String,
    pub title: String,
    pub description: String,
    pub confirm_text: String,
    pub cancel_text: String,
    pub loading: bool,
    pub on_confirm: Option<String>,
    pub on_cancel: Option<String>,
    pub accent: ColorToken,
}

/// The Compose call of an alert dialog, open while its signal holds.
#[verifier::opaque]
pub open spec fn alert_dialog_line(props: AlertDialogProps, indent: usize, context: ComposeReactiveContext) -> Seq<char> {
    spaces(indent as nat) + "DoweAlertDialog(open = state.bool(\""@
        + (kotlin_escaped(signal_path_text(context, props.open@))) + "\"), close = "@
        + (close_action_text(context, kotlin_escaped(signal_path_text(context, props.open@)), opt_string_view(props.on_cancel)))
        + ", title = "@ + (string_literal_text(props.title@)) + ", description = "@
        + (string_literal_text(props.description@)) + ", confirmText = "@
        + (string_literal_text(props.confirm_text@)) + ", cancelText = "@
        + (string_literal_text(props.cancel_text@)) + ", backgroundColor = "@ + (props.style.container@)
        + ", contentColor = "@ + (props.style.content@) + ", dangerColor = "@ + (props.accent.reference@)
        + ", radius = "@ + (radius_text(props.style.style, "DoweDesign.radius"@)) + ", loading = "@
        + (bool_text(props.loading)) + ", onConfirm = "@
        + (component_action_text(context, opt_string_view(props.on_confirm), None)) + ", onCancel = "@
        + (component_action_text(context, opt_string_view(props.on_cancel), None)) + ")\n"@
}

/// The Compose call of an alert dialog, open while its signal holds.
pub fn render_compose_alert_dialog(props: &AlertDialogProps, indent: usize, output: &mut String, context: &ComposeReactiveContext)
    ensures
        final(output)@ == old(output)@ + alert_dialog_line(*props, indent, *context),
{
    reveal(alert_dialog_line);
    let path = escape_kotlin(context.signal_path(props.open.as_str()).as_str());
    let mut line = pad(indent);
    line.append("DoweAlertDialog(open = state.bool(\"");
    line.append(path.as_str());
    line.append("\"), close = ");
    line.append(compose_close_action(path.as_str(), opt_str(&props.on_cancel), context).as_str());
    line.append(", title = ");
    line.append(compose_string_literal(props.title.as_str()).as_str());
    line.append(", description = ");
    line.append(compose_string_literal(props.description.as_str()).as_str());
    line.append(", confirmText = ");
    line.append(compose_string_literal(props.confirm_text.as_str()).as_str());
    line.append(", cancelText = ");
    line.append(compose_string_literal(props.cancel_text.as_str()).as_str());
    line.append(", backgroundColor = ");
    line.append(props.style.container.as_str());
    line.append(", contentColor = ");
    line.append(props.style.content.as_str());
    line.append(", dangerColor = ");
    line.append(props.accent.reference.as_str());
    line.append(", radius = ");
    line.append(compose_card_radius(&props.style.style).as_str());
    line.append(", loading = ");
    line.append(bool_string(props.loading).as_str());
    line.append(", onConfirm = ");
    line.append(compose_optional_component_action(opt_str(&props.on_confirm), None, context).as_str());
    line.append(", onCancel = ");
    line.append(compose_optional_component_action(opt_str(&props.on_cancel), None, context).as_str());
    line.append(")\n");
    output.append(line.as_str());
}

/// A toast: its style and variant, the signal whose fields it shows, its own
/// title and description, the name of its position, whether it shows an icon,
/// and the name of its kind.
#[derive(Debug, Clone)]
pub struct ToastProps {
    pub style: VariantProps,
    pub source: Option<String>,
    pub title: Option<String>,
    pub description: String,
    pub position: String,
    pub show_icon: bool,
    pub kind: String,
}

/// The visibility, title, description and close handler of a toast: read from
/// and written to the fields of its signal, or its own texts, always visible and
/// without a close handler.
pub open spec fn toast_parts(props: ToastProps, context: ComposeReactiveContext) -> (Seq<char>, Seq<char>, Seq<char>, Seq<char>) {
    match props.source {
        Some(source) => {
            let path = kotlin_escaped(signal_path_text(context, source@));
            (
                "state.bool(\""@ + path + ".visible\")"@,
                "state.text(\""@ + path + ".title\")"@,
                "state.text(\""@ + path + ".message\")"@,
                "{ state.write(\""@ + path + ".visible\", false) }"@,
            )
        },
        None => (
            "true"@,
            match props.title {
                Some(t) => string_literal_text(t@),
                None => "\"\""@,
            },
            string_literal_text(props.description@),
            "null"@,
        ),
    }
}

fn toast_values(props: &ToastProps, context: &ComposeReactiveContext) -> (res: (String, String, String, String))
    ensures
        (res.0@, res.1@, res.2@, res.3@) == toast_parts(*props, *context),
{
    match &props.source {
        Some(source) => {
            let path = escape_kotlin(context.signal_path(source.as_str()).as_str());
            let mut visible = String::from_str("state.bool(\"");
            visible.append(path.as_str());
            visible.append(".visible\")");
            let mut title = String::from_str("state.text(\"");
            title.append(path.as_str());
            title.append(".title\")");
            let mut description = String::from_str("state.text(\"");
            description.append(path.as_str());
            description.append(".message\")");
            let mut close = String::from_str("{ state.write(\"");
            close.append(path.as_str());
            close.append(".visible\", false) }");
            (visible, title, description, close)
        },
        None => {
            let title = match &props.title {
                Some(t) => compose_string_literal(t.as_str()),
                None => String::from_str("\"\""),
            };
            (String::from_str("true"), title, compose_string_literal(props.description.as_str()), String::from_str("null"))
        },
    }
}

/// The Compose call of a toast.
#[verifier::opaque]
pub open spec fn toast_line(props: ToastProps, indent: usize, context: ComposeReactiveContext) -> Seq<char> {
    spaces(indent as nat) + "DoweToast(visible = "@ + (toast_parts(props, context).0) + ", title = "@
        + (toast_parts(props, context).1) + ", description = "@ + (toast_parts(props, context).2)
        + ", position = "@ + (string_literal_text(props.position@)) + ", backgroundColor = "@
        + (props.style.container@) + ", contentColor = "@ + (props.style.content@) + ", showIcon = "@
        + (bool_text(props.show_icon)) + ", kind = "@ + (string_literal_text(props.kind@)) + ", close = "@
        + (toast_parts(props, context).3) + ")\n"@
}

/// The Compose call of a toast.
pub fn render_compose_toast(props: &ToastProps, indent: usize, output: &mut String, context: &ComposeReactiveContext)
    ensures
        final(output)@ == old(output)@ + toast_line(*props, indent, *context),
{
    reveal(toast_line);
    let (visible, title, description, close) = toast_values(props, context);
    let mut line = pad(indent);
    line.append("DoweToast(visible = ");
    line.append(visible.as_str());
    line.append(", title = ");
    line.append(title.as_str());
    line.append(", description = ");
    line.append(description.as_str());
    line.append(", position = ");
    line.append(compose_string_literal(props.position.as_str()).as_str());
    line.append(", backgroundColor = ");
    line.append(props.style.container.as_str());
    line.append(", contentColor = ");
    line.append(props.style.content.as_str());
    line.append(", showIcon = ");
    line.append(bool_string(props.show_icon).as_str());
    line.append(", kind = ");
    line.append(compose_string_literal(props.kind.as_str()).as_str());
    line.append(", close = ");
    line.append(close.as_str());
    line.append(")\n");
    output.append(line.as_str());
}

/// An item of a menu or of the command palette: its label and description,
/// whether it is disabled, what a click does, and its icon.
#[derive(Debug, Clone)]
pub struct OverlayItemProps {
    pub label: String,
    pub description: Option<String>,
    pub disabled: bool,
    pub on_click: Option<String>,
    pub navigation: Option<NavigationAction>,
    pub icon: Option<SvgIcon>,
}

/// The Compose code of an item of a menu, in the given colors, with its icon.
pub open spec fn overlay_item_text(
    item: OverlayItemProps,
    indent: usize,
    background_color: Seq<char>,
    content_color: Seq<char>,
    context: ComposeReactiveContext,
) -> Seq<char> {
    spaces(indent as nat) + "DoweOverlayItem(label = "@ + string_literal_text(item.label@) + ", description = "@
        + optional_string_text(opt_string_view(item.description)) + ", disabled = "@ + bool_text(item.disabled)
        + ", backgroundColor = "@ + background_color + ", contentColor = "@ + content_color + ", onClick = "@
        + component_action_text(context, opt_string_view(item.on_click), item.navigation) + ") {\n"@
        + (match item.icon {
        Some(icon) => side_icon_line(icon, (indent + 4) as usize),
        None => Seq::empty(),
    }) + spaces(indent as nat) + "}\n"@
}

/// Writes an item of a menu in the given colors, with its icon.
pub fn render_compose_overlay_item(
    item: &OverlayItemProps,
    indent: usize,
    output: &mut String,
    background_color: &str,
    content_color: &str,
    context: &ComposeReactiveContext,
)
    requires
        indent + 4 <= usize::MAX,
    ensures
        final(output)@ == old(output)@ + overlay_item_text(*item, indent, background_color@, content_color@, *context),
{
    let mut out = pad(indent);
    out.append("DoweOverlayItem(label = ");
    out.append(compose_string_literal(item.label.as_str()).as_str());
    out.append(", description = ");
    out.append(compose_optional_field(&item.description).as_str());
    out.append(", disabled = ");
    out.append(bool_string(item.disabled).as_str());
    out.append(", backgroundColor = ");
    out.append(background_color);
    out.append(", contentColor = ");
    out.append(content_color);
    out.append(", onClick = ");
    out.append(compose_optional_component_action(opt_str(&item.on_click), item.navigation.as_ref(), context).as_str());
    out.append(") {\n");
    match &item.icon {
        Some(icon) => {
            render_compose_side_icon(icon, indent + 4, &mut out);
        },
        None => {
            assert(out@ =~= out@ + Seq::<char>::empty());
        },
    }
    out.append(pad(indent).as_str());
    out.append("}\n");
    output.append(out.as_str());
}

/// An entry of a dropdown menu: an item or a divider.
#[derive(Debug, Clone)]
pub enum OverlayEntry {
    Item(OverlayItemProps),
    Divider,
}

/// A dropdown menu: its style and variant.
#[derive(Debug, Clone)]
pub struct DropdownProps {
    pub style: VariantProps,
}

/// The Compose code of an entry of a dropdown: an item in the menu's colors, or a line.
pub open spec fn overlay_entry_text(entry: OverlayEntry, indent: usize, props: DropdownProps, context: ComposeReactiveContext) -> Seq<char> {
    match entry {
        OverlayEntry::Item(item) => overlay_item_text(item, indent, props.style.container@, props.style.content@, context),
        OverlayEntry::Divider => spaces(indent as nat)
            + "Box(modifier = Modifier.fillMaxWidth().height(1.dp).background(DoweDesign.muted))\n"@,
    }
}

/// Writes an entry of a dropdown menu.
pub fn render_compose_overlay_entry(
    entry: &OverlayEntry,
    indent: usize,
    output: &mut String,
    props: &DropdownProps,
    context: &ComposeReactiveContext,
)
    requires
        indent + 4 <= usize::MAX,
    ensures
        final(output)@ == old(output)@ + overlay_entry_text(*entry, indent, *props, *context),
{
    match entry {
        OverlayEntry::Item(item) => {
            render_compose_overlay_item(
                item,
                indent,
                output,
                props.style.container.as_str(),
                props.style.content.as_str(),
                context,
            );
        },
        OverlayEntry::Divider => {
            let mut line = pad(indent);
            line.append("Box(modifier = Modifier.fillMaxWidth().height(1.dp).background(DoweDesign.muted))\n");
            output.append(line.as_str());
        },
    }
}

/// An entry of the command palette: an item, or a labelled group of items with an icon.
#[derive(Debug, Clone)]
pub enum CommandEntry {
    Item(OverlayItemProps),
    Group { label: String, icon: Option<SvgIcon>, items: Vec<OverlayItemProps> },
}

/// The Compose code of the items of a group of the command palette, one after the other.
pub open spec fn command_items_text(items: Seq<OverlayItemProps>, indent: usize, context: ComposeReactiveContext) -> Seq<char>
    decreases items.len(),
{
    if items.len() == 0 {
        Seq::empty()
    } else {
        command_items_text(items.drop_last(), indent, context) + overlay_item_text(
            items.last(),
            indent,
            "Color.Transparent"@,
            "DoweDesign.onBackground"@,
            context,
        )
    }
}

/// The Compose code of an entry of the command palette.
pub open spec fn command_entry_text(entry: CommandEntry, indent: usize, context: ComposeReactiveContext) -> Seq<char> {
    match entry {
        CommandEntry::Item(item) => overlay_item_text(item, indent, "Color.Transparent"@, "DoweDesign.onBackground"@, context),
        CommandEntry::Group { label, icon, items } => spaces(indent as nat)
            + "Column(verticalArrangement = Arrangement.spacedBy(2.dp)) {\n"@ + spaces(indent as nat)
            + "    Row(verticalAlignment = Alignment.CenterVertically, horizontalArrangement = Arrangement.spacedBy(6.dp)) {\n"@
            + (match icon {
            Some(i) => side_icon_line(i, (indent + 8) as usize),
            None => Seq::empty(),
        }) + spaces(indent as nat) + "        Text(text = "@ + string_literal_text(label@)
            + ", color = DoweDesign.onMuted, fontSize = 12.sp, fontWeight = FontWeight.SemiBold)\n"@ + spaces(indent as nat)
            + "    }\n"@ + command_items_text(items@, (indent + 4) as usize, context) + spaces(indent as nat) + "}\n"@,
    }
}

/// Writes an entry of the command palette.
pub fn render_compose_command_entry(entry: &CommandEntry, indent: usize, output: &mut String, context: &ComposeReactiveContext)
    requires
        indent + 8 <= usize::MAX,
    ensures
        final(output)@ == old(output)@ + command_entry_text(*entry, indent, *context),
{
    match entry {
        CommandEntry::Item(item) => {
            render_compose_overlay_item(item, indent, output, "Color.Transparent", "DoweDesign.onBackground", context);
        },
        CommandEntry::Group { label, icon, items } => {
            let mut out = pad(indent);
            out.append("Column(verticalArrangement = Arrangement.spacedBy(2.dp)) {\n");
            out.append(pad(indent).as_str());
            out.append("    Row(verticalAlignment = Alignment.CenterVertically, horizontalArrangement = Arrangement.spacedBy(6.dp)) {\n");
            match icon {
                Some(i) => {
                    render_compose_side_icon(i, indent + 8, &mut out);
                },
                None => {
                    assert(out@ =~= out@ + Seq::<char>::empty());
                },
            }
            out.append(pad(indent).as_str());
            out.append("        Text(text = ");
            out.append(compose_string_literal(label.as_str()).as_str());
            out.append(", color = DoweDesign.onMuted, fontSize = 12.sp, fontWeight = FontWeight.SemiBold)\n");
            out.append(pad(indent).as_str());
            out.append("    }\n");
            let ghost before = out@;
            let mut k: usize = 0;
            while k < items.len()
                invariant
                    k <= items@.len(),
                    indent + 8 <= usize::MAX,
                    out@ == before + command_items_text(items@.take(k as int), (indent + 4) as usize, *context),
                decreases items@.len() - k,
            {
                render_compose_overlay_item(&items[k], indent + 4, &mut out, "Color.Transparent", "DoweDesign.onBackground", context);
                assert(items@.take(k + 1).drop_last() =~= items@.take(k as int));
                k = k + 1;
            }
            assert(items@.take(items@.len() as int) =~= items@);
            out.append(pad(indent).as_str());
            out.append("}\n");
            output.append(out.as_str());
        },
    }
}

/// The command palette: its style and variant, the signal that opens it, its
/// texts and shortcut, whether it shows its footer, and the design color of its
/// color family (muted by default).
#[derive(Debug, Clone)]
pub struct CommandProps {
    pub style: VariantProps,
    pub open: Option<String>,
    pub placeholder: String,
    pub empty_text: String,
    pub close_text: String,
    pub navigate_text: String,
    pub select_text: String,
    pub toggle_text: String,
    pub shortcut: String,
    pub show_footer: bool,
    pub accent: ColorToken,
}

/// Whether the command palette is open, and the handler that closes it: read
/// from and written to its signal, or closed with a handler that does nothing.
pub open spec fn command_open_close(props: CommandProps, context: ComposeReactiveContext) -> (Seq<char>, Seq<char>) {
    match props.open {
        Some(path) => {
            let p = kotlin_escaped(signal_path_text(context, path@));
            ("state.bool(\""@ + p + "\")"@, "{ state.write(\""@ + p + "\", false) }"@)
        },
        None => ("false"@, "{}"@),
    }
}

fn command_open_values(props: &CommandProps, context: &ComposeReactiveContext) -> (res: (String, String))
    ensures
        (res.0@, res.1@) == command_open_close(*props, *context),
{
    match &props.open {
        Some(path) => {
            let p = escape_kotlin(context.signal_path(path.as_str()).as_str());
            let mut open = String::from_str("state.bool(\"");
            open.append(p.as_str());
            open.append("\")");
            let mut close = String::from_str("{ state.write(\"");
            close.append(p.as_str());
            close.append("\", false) }");
            (open, close)
        },
        None => (String::from_str("false"), String::from_str("{}")),
    }
}

/// The Compose code of the entries of the command palette, one after the other.
pub open spec fn command_entries_text(entries: Seq<CommandEntry>, indent: usize, context: ComposeReactiveContext) -> Seq<char>
    decreases entries.len(),
{
    if entries.len() == 0 {
        Seq::empty()
    } else {
        command_entries_text(entries.drop_last(), indent, context) + command_entry_text(entries.last(), indent, context)
    }
}

/// The Compose code of the command palette with its entries.
#[verifier::opaque]
pub open spec fn command_text(props: CommandProps, entries: Seq<CommandEntry>, indent: usize, context: ComposeReactiveContext) -> Seq<char> {
    spaces(indent as nat) + "DoweCommand(open = "@ + (command_open_close(props, context).0)
        + ", close = "@ + (command_open_close(props, context).1) + ", placeholder = "@
        + (string_literal_text(props.placeholder@)) + ", emptyText = "@
        + (string_literal_text(props.empty_text@)) + ", closeText = "@
        + (string_literal_text(props.close_text@)) + ", navigateText = "@
        + (string_literal_text(props.navigate_text@)) + ", selectText = "@
        + (string_literal_text(props.select_text@)) + ", toggleText = "@
        + (string_literal_text(props.toggle_text@)) + ", shortcut = "@
        + (string_literal_text(props.shortcut@)) + ", showFooter = "@ + (bool_text(props.show_footer))
        + ", backgroundColor = "@ + (props.style.container@) + ", contentColor = "@ + (props.style.content@)
        + ", accentColor = "@ + (props.accent.reference@) + ") {\n"@
        + command_entries_text(entries, (indent + 4) as usize, context) + spaces(indent as nat) + "}\n"@
}

/// Writes the command palette with its entries.
pub fn render_compose_command(props: &CommandProps, entries: &[CommandEntry], indent: usize, output: &mut String, context: &ComposeReactiveContext)
    requires
        indent + 12 <= usize::MAX,
    ensures
        final(output)@ == old(output)@ + command_text(*props, entries@, indent, *context),
{
    reveal(command_text);
    let (open, close) = command_open_values(props, context);
    let mut line = pad(indent);
    line.append("DoweCommand(open = ");
    line.append(open.as_str());
    line.append(", close = ");
    line.append(close.as_str());
    line.append(", placeholder = ");
    line.append(compose_string_literal(props.placeholder.as_str()).as_str());
    line.append(", emptyText = ");
    line.append(compose_string_literal(props.empty_text.as_str()).as_str());
    line.append(", closeText = ");
    line.append(compose_string_literal(props.close_text.as_str()).as_str());
    line.append(", navigateText = ");
    line.append(compose_string_literal(props.navigate_text.as_str()).as_str());
    line.append(", selectText = ");
    line.append(compose_string_literal(props.select_text.as_str()).as_str());
    line.append(", toggleText = ");
    line.append(compose_string_literal(props.toggle_text.as_str()).as_str());
    line.append(", shortcut = ");
    line.append(compose_string_literal(props.shortcut.as_str()).as_str());
    line.append(", showFooter = ");
    line.append(bool_string(props.show_footer).as_str());
    line.append(", backgroundColor = ");
    line.append(props.style.container.as_str());
    line.append(", contentColor = ");
    line.append(props.style.content.as_str());
    line.append(", accentColor = ");
    line.append(props.accent.reference.as_str());
    line.append(") {\n");
    let ghost before = line@;
    let mut k: usize = 0;
    while k < entries.len()
        invariant
            k <= entries@.len(),
            indent + 12 <= usize::MAX,
            line@ == before + command_entries_text(entries@.take(k as int), (indent + 4) as usize, *context),
        decreases entries@.len() - k,
    {
        render_compose_command_entry(&entries[k], indent + 4, &mut line, context);
        assert(entries@.take(k + 1).drop_last() =~= entries@.take(k as int));
        k = k + 1;
    }
    assert(entries@.take(entries@.len() as int) =~= entries@);
    line.append(pad(indent).as_str());
    line.append("}\n");
    output.append(line.as_str());
}

} // verus!
