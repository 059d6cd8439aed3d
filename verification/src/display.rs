//! Display nodes: text expressions, code, alerts, trees and dividers, and the
//! per-kind renderers that write a node when it is of their kind.
use vstd::prelude::*;
use crate::context::{lookup, signal_path_text, ComposeReactiveContext};

use crate::layout::{
    compose_card_radius, compose_control_radius, modifier_for_style, radius_text, style_modifier_text,
};
use crate::media::{
    action_id_of, card_border_color_text, compose_card_border_color, compose_optional_action_id,
};
use crate::style_values::{
    bool_string, bool_text, code_token_color_text, compose_code_token_color, compose_font_value, font_value_text, opt_ref, CodeTokenKind, FontFamily, ResponsiveValue,
};
use crate::text::{
    compose_string_literal, join, kotlin_escaped, list_of, list_of_text, opt_view, optional_string_text, pad,
    push_joined, push_kotlin_escaped, spaces, string_literal_text, string_views,
};
use crate::values::{
    ComponentVariant, VariantProps,
};

verus! {

/// The Kotlin expression of a text: its translation where it has one (by the
/// resource name of its key), else the state text its binding reads (from the
/// current row inside a repeated view), else the text itself.
pub open spec fn text_expression_text(context: ComposeReactiveContext, value: Seq<char>, i18n: Option<Seq<char>>) -> Seq<char> {
    match i18n {
        Some(resource) => "stringResource(R.string."@ + resource + ")"@,
        None => match lookup(context.dynamic_paths@, value) {
            Some(path) => match lookup(context.item_values@, value) {
                Some(item) => "state.text(\""@ + kotlin_escaped(path) + "\", "@ + item + ")"@,
                None => "state.text(\""@ + kotlin_escaped(path) + "\")"@,
            },
            None => "\""@ + kotlin_escaped(value) + "\""@,
        },
    }
}

/// The Kotlin expression of a text.
pub fn compose_text_expression(value: &str, i18n: Option<&str>, context: &ComposeReactiveContext) -> (res: String)
    ensures
        res@ == text_expression_text(*context, value@, opt_view(i18n)),
{
    match i18n {
        Some(resource) => {
            let mut out = String::from_str("stringResource(R.string.");
            out.append(resource);
            out.append(")");
            return out;
        },
        None => {},
    }
    match context.dynamic_path(value) {
        Some(path) => match context.item_value(value) {
            Some(item) => {
                let mut out = String::from_str("state.text(\"");
                push_kotlin_escaped(&mut out, path.as_str());
                out.append("\", ");
                out.append(item.as_str());
                out.append(")");
                out
            },
            None => {
                let mut out = String::from_str("state.text(\"");
                push_kotlin_escaped(&mut out, path.as_str());
                out.append("\")");
                out
            },
        },
        None => {
            let mut out = String::from_str("\"");
            push_kotlin_escaped(&mut out, value);
            out.append("\"");
            out
        },
    }
}

/// A highlighted token of source code: its text and kind.
#[derive(Debug, Clone)]
pub struct CodeToken {
    pub text: String,
    pub kind: CodeTokenKind,
}

/// The Kotlin value of a highlighted token; plain tokens take the color `plain`.
pub open spec fn code_token_text(token: CodeToken, plain: Seq<char>) -> Seq<char> {
    "DoweCodeToken(text = \""@ + kotlin_escaped(token.text@) + "\", color = "@ + code_token_color_text(token.kind, plain)
        + ")"@
}

/// The Kotlin list of highlighted tokens.
pub open spec fn code_tokens_text(tokens: Seq<CodeToken>, plain: Seq<char>) -> Seq<char> {
    list_of_text(Seq::new(tokens.len(), |i: int| code_token_text(tokens[i], plain)))
}

/// The Kotlin list of highlighted tokens; plain tokens take the color `plain`.
pub fn compose_code_tokens(tokens: &[CodeToken], plain: &str) -> (res: String)
    ensures
        res@ == code_tokens_text(tokens@, plain@),
{
    let mut values: Vec<String> = Vec::new();
    let mut i: usize = 0;
    while i < tokens.len()
        invariant
            i <= tokens@.len(),
            values@.len() == i,
            forall|j: int| 0 <= j < i ==> #[trigger] values@[j]@ == code_token_text(tokens@[j], plain@),
        decreases tokens@.len() - i,
    {
        let token = &tokens[i];
        let mut v = String::from_str("DoweCodeToken(text = \"");
        push_kotlin_escaped(&mut v, token.text.as_str());
        v.append("\", color = ");
        v.append(compose_code_token_color(token.kind, plain).as_str());
        v.append(")");
        values.push(v);
        i = i + 1;
    }
    assert(string_views(values@) =~= Seq::new(tokens@.len(), |j: int| code_token_text(tokens@[j], plain@)));
    list_of(&values)
}

/// A piece of a code template: fixed source with its tokens, or the signal whose text is shown.
#[derive(Debug, Clone)]
pub enum CodeTemplateSegment {
    Static { text: String, tokens: Vec<CodeToken> },
    Binding(String),
}

/// A code block: its style and variant, its source and language, its tokens,
/// its template pieces, and the labels of its copy button.
#[derive(Debug, Clone)]
pub struct CodeProps {
    pub style: VariantProps,
    pub source: String,
    pub language: String,
    pub tokens: Vec<CodeToken>,
    pub template_segments: Vec<CodeTemplateSegment>,
    pub copy_label: String,
    pub copied_label: String,
}

/// The Kotlin source of a template piece.
pub open spec fn segment_source_text(context: ComposeReactiveContext, segment: CodeTemplateSegment) -> Seq<char> {
    match segment {
        CodeTemplateSegment::Static { text, .. } => string_literal_text(text@),
        CodeTemplateSegment::Binding(path) => "state.text(\""@ + kotlin_escaped(signal_path_text(context, path@)) + "\", \"\")"@,
    }
}

/// The Kotlin tokens of a template piece.
pub open spec fn segment_tokens_text(context: ComposeReactiveContext, segment: CodeTemplateSegment, plain: Seq<char>) -> Seq<char> {
    match segment {
        CodeTemplateSegment::Static { tokens, .. } => code_tokens_text(tokens@, plain),
        CodeTemplateSegment::Binding(path) => "listOf(DoweCodeToken(text = state.text(\""@
            + kotlin_escaped(signal_path_text(context, path@)) + "\", \"\"), color = "@ + plain + "))"@,
    }
}

/// The Kotlin source of a code block: its source, or its template pieces joined.
pub open spec fn code_source_text(context: ComposeReactiveContext, props: CodeProps) -> Seq<char> {
    let segments = props.template_segments@;
    if segments.len() == 0 {
        string_literal_text(props.source@)
    } else {
        join(Seq::new(segments.len(), |i: int| segment_source_text(context, segments[i])), " + "@)
    }
}

/// The Kotlin tokens of a code block: its tokens, or those of its template pieces joined.
pub open spec fn code_block_tokens_text(context: ComposeReactiveContext, props: CodeProps) -> Seq<char> {
    let segments = props.template_segments@;
    if segments.len() == 0 {
        code_tokens_text(props.tokens@, props.style.card_content@)
    } else {
        join(
            Seq::new(segments.len(), |i: int| segment_tokens_text(context, segments[i], props.style.card_content@)),
            " + "@,
        )
    }
}

fn code_source(props: &CodeProps, context: &ComposeReactiveContext) -> (res: String)
    ensures
        res@ == code_source_text(*context, *props),
{
    let segments = &props.template_segments;
    if segments.len() == 0 {
        return compose_string_literal(props.source.as_str());
    }
    let mut values: Vec<String> = Vec::new();
    let mut i: usize = 0;
    while i < segments.len()
        invariant
            i <= segments@.len(),
            values@.len() == i,
            forall|j: int| 0 <= j < i ==> #[trigger] values@[j]@ == segment_source_text(*context, segments@[j]),
        decreases segments@.len() - i,
    {
        let v = match &segments[i] {
            CodeTemplateSegment::Static { text, .. } => compose_string_literal(text.as_str()),
            CodeTemplateSegment::Binding(path) => {
                let mut v = String::from_str("state.text(\"");
                push_kotlin_escaped(&mut v, context.signal_path(path.as_str()).as_str());
                v.append("\", \"\")");
                v
            },
        };
        values.push(v);
        i = i + 1;
    }
    assert(string_views(values@) =~= Seq::new(segments@.len(), |j: int| segment_source_text(*context, segments@[j])));
    let mut out = String::new();
    push_joined(&mut out, &values, " + ");
    assert(out@ =~= code_source_text(*context, *props));
    out
}

fn code_block_tokens(props: &CodeProps, context: &ComposeReactiveContext) -> (res: String)
    ensures
        res@ == code_block_tokens_text(*context, *props),
{
    let segments = &props.template_segments;
    let plain = props.style.card_content.as_str();
    if segments.len() == 0 {
        return compose_code_tokens(props.tokens.as_slice(), plain);
    }
    let mut values: Vec<String> = Vec::new();
    let mut i: usize = 0;
    while i < segments.len()
        invariant
            i <= segments@.len(),
            values@.len() == i,
            plain@ == props.style.card_content@,
            forall|j: int| 0 <= j < i ==> #[trigger] values@[j]@ == segment_tokens_text(*context, segments@[j], plain@),
        decreases segments@.len() - i,
    {
        let v = match &segments[i] {
            CodeTemplateSegment::Static { tokens, .. } => compose_code_tokens(tokens.as_slice(), plain),
            CodeTemplateSegment::Binding(path) => {
                let mut v = String::from_str("listOf(DoweCodeToken(text = state.text(\"");
                push_kotlin_escaped(&mut v, context.signal_path(path.as_str()).as_str());
                v.append("\", \"\"), color = ");
                v.append(plain);
                v.append("))");
                v
            },
        };
        values.push(v);
        i = i + 1;
    }
    assert(string_views(values@) =~= Seq::new(segments@.len(), |j: int| segment_tokens_text(*context, segments@[j], plain@)));
    let mut out = String::new();
    push_joined(&mut out, &values, " + ");
    assert(out@ =~= code_block_tokens_text(*context, *props));
    out
}

/// The Compose call of a code block.
pub open spec fn code_line(props: CodeProps, indent: usize, context: ComposeReactiveContext) -> Seq<char> {
    spaces(indent as nat) + "DoweCode(source = "@ + (code_source_text(context, props))
        + ", language = "@ + (string_literal_text(props.language@)) + ", tokens = "@
        + (code_block_tokens_text(context, props)) + ", copyLabel = "@
        + (string_literal_text(props.copy_label@)) + ", copiedLabel = "@
        + (string_literal_text(props.copied_label@)) + ", modifier = "@
        + (style_modifier_text(props.style.style, "Modifier"@)) + ", shape = RoundedCornerShape("@
        + (radius_text(props.style.style, "DoweDesign.radius"@)) + "), backgroundColor = "@
        + (props.style.card_container@) + ", contentColor = "@ + (props.style.card_content@)
        + ", borderColor = "@ + (card_border_color_text(props.style)) + ")\n"@
}

/// The Compose call of a code block.
pub(crate) fn render_compose_code(props: &CodeProps, indent: usize, output: &mut String, context: &ComposeReactiveContext)
    ensures
        final(output)@ == old(output)@ + code_line(*props, indent, *context),
{
    let mut line = pad(indent);
    line.append("DoweCode(source = ");
    line.append(code_source(props, context).as_str());
    line.append(", language = ");
    line.append(compose_string_literal(props.language.as_str()).as_str());
    line.append(", tokens = ");
    line.append(code_block_tokens(props, context).as_str());
    line.append(", copyLabel = ");
    line.append(compose_string_literal(props.copy_label.as_str()).as_str());
    line.append(", copiedLabel = ");
    line.append(compose_string_literal(props.copied_label.as_str()).as_str());
    line.append(", modifier = ");
    line.append(modifier_for_style(&props.style.style).as_str());
    line.append(", shape = RoundedCornerShape(");
    line.append(compose_card_radius(&props.style.style).as_str());
    line.append("), backgroundColor = ");
    line.append(props.style.card_container.as_str());
    line.append(", contentColor = ");
    line.append(props.style.card_content.as_str());
    line.append(", borderColor = ");
    line.append(compose_card_border_color(&props.style));
    line.append(")\n");
    output.append(line.as_str());
}

/// A tree of rows: its style and variant, the container and content colors of
/// its variant as a table, the signal of its data, the signal of its selection,
/// whether it starts open, its labels, and the action run on selection.
#[derive(Debug, Clone)]
pub struct TreeProps {
    pub style: VariantProps,
    pub table_container: String,
    pub table_content: String,
    pub data: String,
    pub bind: Option<String>,
    pub default_open: bool,
    pub empty_label: String,
    pub aria_label: String,
    pub on_select: Option<String>,
}

/// The quoted state path of a tree's selection, `null` without one.
pub open spec fn tree_bind_text(context: ComposeReactiveContext, props: TreeProps) -> Seq<char> {
    match props.bind {
        Some(path) => string_literal_text(signal_path_text(context, path@)),
        None => "null"@,
    }
}

fn tree_bind(props: &TreeProps, context: &ComposeReactiveContext) -> (res: String)
    ensures
        res@ == tree_bind_text(*context, *props),
{
    match &props.bind {
        Some(path) => compose_string_literal(context.signal_path(path.as_str()).as_str()),
        None => String::from_str("null"),
    }
}

/// The border of a tree: its table content color when it is outlined.
pub open spec fn tree_border_text(props: TreeProps) -> Seq<char> {
    let variant = match props.style.variant {
        Some(v) => v,
        None => ComponentVariant::Solid,
    };
    if variant == ComponentVariant::Outlined {
        props.table_content@
    } else {
        "null"@
    }
}

fn tree_border(props: &TreeProps) -> (res: &str)
    ensures
        res@ == tree_border_text(*props),
{
    let variant = match props.style.variant {
        Some(v) => v,
        None => ComponentVariant::Solid,
    };
    if variant == ComponentVariant::Outlined {
        props.table_content.as_str()
    } else {
        "null"
    }
}

/// The Compose call of a tree.
pub open spec fn tree_line(props: TreeProps, indent: usize, context: ComposeReactiveContext) -> Seq<char> {
    spaces(indent as nat) + "DoweTree(state = state, dataPath = "@
        + (string_literal_text(signal_path_text(context, props.data@))) + ", bindPath = "@
        + (tree_bind_text(context, props)) + ", defaultOpen = "@ + (bool_text(props.default_open))
        + ", emptyLabel = "@ + (string_literal_text(props.empty_label@)) + ", ariaLabel = "@
        + (string_literal_text(props.aria_label@)) + ", onSelect = "@
        + (optional_string_text(action_id_of(context, crate::text::opt_string_view(props.on_select))))
        + ", modifier = "@ + (style_modifier_text(props.style.style, "Modifier"@)) + ", backgroundColor = "@
        + (props.table_container@) + ", contentColor = "@ + (props.table_content@) + ", borderColor = "@
        + (tree_border_text(props)) + ", radius = "@ + (radius_text(props.style.style, "DoweDesign.radius"@))
        + ")\n"@
}

/// The Compose call of a tree.
pub(crate) fn render_compose_tree(props: &TreeProps, indent: usize, output: &mut String, context: &ComposeReactiveContext)
    ensures
        final(output)@ == old(output)@ + tree_line(*props, indent, *context),
{
    let mut line = pad(indent);
    line.append("DoweTree(state = state, dataPath = ");
    line.append(compose_string_literal(context.signal_path(props.data.as_str()).as_str()).as_str());
    line.append(", bindPath = ");
    line.append(tree_bind(props, context).as_str());
    line.append(", defaultOpen = ");
    line.append(bool_string(props.default_open).as_str());
    line.append(", emptyLabel = ");
    line.append(compose_string_literal(props.empty_label.as_str()).as_str());
    line.append(", ariaLabel = ");
    line.append(compose_string_literal(props.aria_label.as_str()).as_str());
    line.append(", onSelect = ");
    line.append(compose_optional_action_id(&props.on_select, context).as_str());
    line.append(", modifier = ");
    line.append(modifier_for_style(&props.style.style).as_str());
    line.append(", backgroundColor = ");
    line.append(props.table_container.as_str());
    line.append(", contentColor = ");
    line.append(props.table_content.as_str());
    line.append(", borderColor = ");
    line.append(tree_border(props));
    line.append(", radius = ");
    line.append(compose_card_radius(&props.style.style).as_str());
    line.append(")\n");
    output.append(line.as_str());
}

/// An alert: its style and variant, the signal that shows it, its message, and
/// the action that closes it.
#[derive(Debug, Clone)]
pub struct AlertProps {
    pub style: VariantProps,
    pub visible: Option<String>,
    pub message: String,
    pub on_close: Option<String>,
}

/// The indentation of an alert's row: one step deeper inside its visibility condition.
pub open spec fn alert_indent(props: AlertProps, indent: usize) -> usize {
    if props.visible is Some { (indent + 4) as usize } else { indent }
}

/// The border of an alert: a line of its content color around its shape when it is outlined.
pub open spec fn alert_border_text(props: AlertProps) -> Seq<char> {
    let variant = match props.style.variant {
        Some(v) => v,
        None => ComponentVariant::Solid,
    };
    if variant == ComponentVariant::Outlined {
        ".border(1.dp, "@ + props.style.content@ + ", RoundedCornerShape("@
            + radius_text(props.style.style, "DoweDesign.radius"@) + "))"@
    } else {
        Seq::empty()
    }
}

/// The font of an alert: its own, else the inherited one.
pub open spec fn alert_font(props: AlertProps, inherited_font: Option<ResponsiveValue<FontFamily>>) -> Option<ResponsiveValue<FontFamily>> {
    match props.style.style.font {
        Some(f) => Some(f),
        None => inherited_font,
    }
}

/// The Compose code of an alert: a row with its message and, where the scope has
/// its close action, a close button; inside a condition on its signal when it has one.
pub open spec fn alert_text(
    props: AlertProps,
    indent: usize,
    inherited_font: Option<ResponsiveValue<FontFamily>>,
    default_family: FontFamily,
    context: ComposeReactiveContext,
) -> Seq<char> {
    let row = alert_indent(props, indent);
    let shape = radius_text(props.style.style, "DoweDesign.radius"@);
    (match props.visible {
        Some(v) => spaces(indent as nat) + "if (state.bool(\""@ + kotlin_escaped(signal_path_text(context, v@)) + "\")) {\n"@,
        None => Seq::empty(),
    }) + spaces(row as nat) + "Row(modifier = "@ + style_modifier_text(props.style.style, "Modifier"@) + ".clip(RoundedCornerShape("@
        + shape + ")).background("@ + props.style.container@ + ")"@ + alert_border_text(props)
        + ".padding(horizontal = 14.dp, vertical = 10.dp), horizontalArrangement = Arrangement.spacedBy(12.dp), verticalAlignment = Alignment.CenterVertically) {\n"@
        + spaces(row as nat) + "    Text("@ + text_expression_text(context, props.message@, None)
        + ", modifier = Modifier.weight(1f), color = "@ + props.style.content@ + ", fontFamily = "@
        + font_value_text(alert_font(props, inherited_font), default_family) + ")\n"@
        + (match action_id_of(context, crate::text::opt_string_view(props.on_close)) {
        Some(id) => spaces(row as nat) + "    Button(onClick = { actionScope.launch { state.run(\""@ + kotlin_escaped(id)
            + "\") } }, contentPadding = PaddingValues(horizontal = 8.dp, vertical = 0.dp)) { Text(\"x\") }\n"@,
        None => Seq::empty(),
    }) + spaces(row as nat) + "}\n"@ + (if props.visible is Some { spaces(indent as nat) + "}\n"@ } else { Seq::empty() })
}

fn alert_open(props: &AlertProps, indent: usize, context: &ComposeReactiveContext) -> (res: String)
    ensures
        res@ == (match props.visible {
            Some(v) => spaces(indent as nat) + "if (state.bool(\""@ + kotlin_escaped(signal_path_text(*context, v@)) + "\")) {\n"@,
            None => Seq::<char>::empty(),
        }),
{
    match &props.visible {
        Some(v) => {
            let mut out = pad(indent);
            out.append("if (state.bool(\"");
            push_kotlin_escaped(&mut out, context.signal_path(v.as_str()).as_str());
            out.append("\")) {\n");
            out
        },
        None => String::new(),
    }
}

fn alert_border(props: &AlertProps) -> (res: String)
    ensures
        res@ == alert_border_text(*props),
{
    let variant = match props.style.variant {
        Some(v) => v,
        None => ComponentVariant::Solid,
    };
    if variant == ComponentVariant::Outlined {
        let mut out = String::from_str(".border(1.dp, ");
        out.append(props.style.content.as_str());
        out.append(", RoundedCornerShape(");
        out.append(compose_control_radius(&props.style.style).as_str());
        out.append("))");
        out
    } else {
        String::new()
    }
}

fn alert_close(props: &AlertProps, row: usize, context: &ComposeReactiveContext) -> (res: String)
    ensures
        res@ == (match action_id_of(*context, crate::text::opt_string_view(props.on_close)) {
            Some(id) => spaces(row as nat) + "    Button(onClick = { actionScope.launch { state.run(\""@ + kotlin_escaped(id)
                + "\") } }, contentPadding = PaddingValues(horizontal = 8.dp, vertical = 0.dp)) { Text(\"x\") }\n"@,
            None => Seq::<char>::empty(),
        }),
{
    let id = match &props.on_close {
        Some(name) => context.action_id(name.as_str()),
        None => None,
    };
    match id {
        Some(id) => {
            let mut out = pad(row);
            out.append("    Button(onClick = { actionScope.launch { state.run(\"");
            push_kotlin_escaped(&mut out, id.as_str());
            out.append("\") } }, contentPadding = PaddingValues(horizontal = 8.dp, vertical = 0.dp)) { Text(\"x\") }\n");
            out
        },
        None => String::new(),
    }
}

pub(crate) fn render_compose_alert(
    props: &AlertProps,
    indent: usize,
    output: &mut String,
    inherited_font: Option<&ResponsiveValue<FontFamily>>,
    default_family: FontFamily,
    context: &ComposeReactiveContext,
)
    requires
        indent + 4 <= usize::MAX,
    ensures
        final(output)@ == old(output)@ + alert_text(*props, indent, opt_ref(inherited_font), default_family, *context),
{
    let row: usize = if props.visible.is_some() { indent + 4 } else { indent };
    let font = match &props.style.style.font {
        Some(f) => Some(f),
        None => inherited_font,
    };
    let mut out = alert_open(props, indent, context);
    out.append(pad(row).as_str());
    out.append("Row(modifier = ");
    out.append(modifier_for_style(&props.style.style).as_str());
    out.append(".clip(RoundedCornerShape(");
    out.append(compose_control_radius(&props.style.style).as_str());
    out.append(")).background(");
    out.append(props.style.container.as_str());
    out.append(")");
    out.append(alert_border(props).as_str());
    out.append(".padding(horizontal = 14.dp, vertical = 10.dp), horizontalArrangement = Arrangement.spacedBy(12.dp), verticalAlignment = Alignment.CenterVertically) {\n");
    out.append(pad(row).as_str());
    out.append("    Text(");
    out.append(compose_text_expression(props.message.as_str(), None, context).as_str());
    out.append(", modifier = Modifier.weight(1f), color = ");
    out.append(props.style.content.as_str());
    out.append(", fontFamily = ");
    out.append(compose_font_value(font, default_family).as_str());
    out.append(")\n");
    out.append(alert_close(props, row, context).as_str());
    out.append(pad(row).as_str());
    out.append("}\n");
    if props.visible.is_some() {
        let mut close = pad(indent);
        close.append("}\n");
        out.append(close.as_str());
    } else {
        assert(out@ =~= out@ + Seq::<char>::empty());
    }
    assert(opt_ref(font) == alert_font(*props, opt_ref(inherited_font)));
    output.append(out.as_str());
}

} // verus!
