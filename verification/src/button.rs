//! Buttons: their click handler, the signals that drive their state and look,
//! and the opening and icons of their Compose call.
use vstd::prelude::*;
use crate::context::{lookup, signal_path_text, ComposeReactiveContext};
use crate::layout::{
    append_style_suffix_with, compose_content_padding, compose_control_radius, content_padding_text, no_spacing,
    radius_text, shadow_chain_text, style_suffix_with, NumberText, SpacingProps, StyleProps,
};
use crate::media::{
    SvgIcon,
};
use crate::navigation::{compose_navigation_action, navigation_action_text};
use crate::style_values::{
    opt_ref,
};
use crate::text::{escape_kotlin, kotlin_escaped, pad, push_char, push_kotlin_escaped, spaces};
use crate::values::{ComponentVariant, VariantProps};

verus! {

/// A comparison of a reactive number: its operator and the number it is compared with.
#[derive(Debug, Clone)]
pub struct NumberComparison {
    pub operator: String,
    pub value: NumberText,
}

/// The signals that drive a button: whether it is loading or disabled, its
/// variant, color family, size and radius, and when its icons show.
#[derive(Debug, Clone)]
pub struct ButtonBindings {
    pub loading: Option<String>,
    pub disabled: Option<String>,
    pub variant: Option<String>,
    pub scheme: Option<String>,
    pub size: Option<String>,
    pub rounded: Option<String>,
    pub icon_start_when: Option<String>,
    pub icon_start_comparison: Option<NumberComparison>,
    pub icon_end_when: Option<String>,
    pub icon_end_comparison: Option<NumberComparison>,
}

/// A button: its style and variant, the name of its color family and of its
/// size, the signals that drive it, the signal it toggles, whether it shows an
/// icon only, and its icons (the one shown while the toggled signal is off too).
#[derive(Debug, Clone)]
pub struct ButtonProps {
    pub style: VariantProps,
    pub color: Option<String>,
    pub size: Option<String>,
    pub reactive: ButtonBindings,
    pub swap_bind: Option<String>,
    pub icon_only: bool,
    pub icon_start: Option<SvgIcon>,
    pub icon_end: Option<SvgIcon>,
    pub swap_icon_off: Option<SvgIcon>,
}

/// The name of a variant.
pub open spec fn variant_name(value: ComponentVariant) -> Seq<char> {
    match value {
        ComponentVariant::Solid => "solid"@,
        ComponentVariant::Outlined => "outlined"@,
        ComponentVariant::Quiet => "ghost"@,
        ComponentVariant::Soft => "soft"@,
        ComponentVariant::Line => "line"@,
    }
}

/// The name of a variant.
pub fn compose_variant_name(value: ComponentVariant) -> (res: &'static str)
    ensures
        res@ == variant_name(value),
{
    match value {
        ComponentVariant::Solid => "solid",
        ComponentVariant::Outlined => "outlined",
        ComponentVariant::Quiet => "ghost",
        ComponentVariant::Soft => "soft",
        ComponentVariant::Line => "line",
    }
}

/// Inside a repeated view, a binding that reads the current row has a path in that row.
pub open spec fn item_path_known(ctx: ComposeReactiveContext, path: Seq<char>) -> bool {
    lookup(ctx.item_values@, path) is Some ==> lookup(ctx.item_paths@, path) is Some
}

/// Every binding that reads the current row of a repeated view has a path in that row.
#[verifier::opaque]
pub open spec fn item_paths_complete(ctx: ComposeReactiveContext) -> bool {
    forall|path: Seq<char>| #[trigger] lookup(ctx.item_values@, path) is Some ==> lookup(ctx.item_paths@, path) is Some
}

/// Where every binding of the current row has a path in it, so do the signals of a button.
pub proof fn lemma_button_paths_known(ctx: ComposeReactiveContext, props: ButtonProps)
    requires
        item_paths_complete(ctx),
    ensures
        button_paths_known(ctx, props),
{
    reveal(item_paths_complete);
}

/// An optional binding has a path in the current row where it reads that row.
pub open spec fn opt_item_path_known(ctx: ComposeReactiveContext, path: Option<String>) -> bool {
    match path {
        Some(p) => item_path_known(ctx, p@),
        None => true,
    }
}

/// Every signal that drives a button has a path in the current row where it reads that row.
pub open spec fn button_paths_known(ctx: ComposeReactiveContext, props: ButtonProps) -> bool {
    &&& opt_item_path_known(ctx, props.reactive.loading)
    &&& opt_item_path_known(ctx, props.reactive.disabled)
    &&& opt_item_path_known(ctx, props.reactive.variant)
    &&& opt_item_path_known(ctx, props.reactive.scheme)
    &&& opt_item_path_known(ctx, props.reactive.size)
    &&& opt_item_path_known(ctx, props.reactive.rounded)
    &&& opt_item_path_known(ctx, props.reactive.icon_start_when)
    &&& opt_item_path_known(ctx, props.reactive.icon_end_when)
}

/// The state text a binding reads: from the current row inside a repeated view,
/// else from its signal with the given fallback.
pub open spec fn reactive_text(ctx: ComposeReactiveContext, path: Seq<char>, fallback: Seq<char>) -> Seq<char> {
    match lookup(ctx.item_values@, path) {
        Some(item) => "state.text(\""@ + kotlin_escaped(lookup(ctx.item_paths@, path).unwrap()) + "\", "@ + item + ")"@,
        None => "state.text(\""@ + kotlin_escaped(signal_path_text(ctx, path)) + "\", \""@ + fallback + "\")"@,
    }
}

/// The state flag a binding reads: from the current row inside a repeated view,
/// else from its signal, true by default.
pub open spec fn reactive_bool(ctx: ComposeReactiveContext, path: Seq<char>) -> Seq<char> {
    match lookup(ctx.item_values@, path) {
        Some(item) => "state.bool(\""@ + kotlin_escaped(lookup(ctx.item_paths@, path).unwrap()) + "\", "@ + item + ")"@,
        None => "state.bool(\""@ + kotlin_escaped(signal_path_text(ctx, path)) + "\", true)"@,
    }
}

/// The state text a binding reads.
pub fn compose_reactive_text(context: &ComposeReactiveContext, path: &str, fallback: &str) -> (res: String)
    requires
        item_path_known(*context, path@),
    ensures
        res@ == reactive_text(*context, path@, fallback@),
{
    let mut out = String::from_str("state.text(\"");
    match context.item_value(path) {
        Some(item) => {
            match context.item_path(path) {
                Some(p) => push_kotlin_escaped(&mut out, p.as_str()),
                None => {},
            }
            out.append("\", ");
            out.append(item.as_str());
            out.append(")");
        },
        None => {
            push_kotlin_escaped(&mut out, context.signal_path(path).as_str());
            out.append("\", \"");
            out.append(fallback);
            out.append("\")");
        },
    }
    out
}

/// The state flag a binding reads.
pub fn compose_reactive_bool(context: &ComposeReactiveContext, path: &str) -> (res: String)
    requires
        item_path_known(*context, path@),
    ensures
        res@ == reactive_bool(*context, path@),
{
    let mut out = String::from_str("state.bool(\"");
    match context.item_value(path) {
        Some(item) => {
            match context.item_path(path) {
                Some(p) => push_kotlin_escaped(&mut out, p.as_str()),
                None => {},
            }
            out.append("\", ");
            out.append(item.as_str());
            out.append(")");
        },
        None => {
            push_kotlin_escaped(&mut out, context.signal_path(path).as_str());
            out.append("\", true)");
        },
    }
    out
}

/// The condition under which an icon of a button shows: a comparison of the
/// number its binding reads, else the flag it reads.
pub open spec fn icon_condition_text(ctx: ComposeReactiveContext, path: Seq<char>, comparison: Option<NumberComparison>) -> Seq<char> {
    match comparison {
        Some(c) => "(("@ + reactive_text(ctx, path, "0"@) + ").toDoubleOrNull() ?: 0.0) "@ + c.operator@ + " "@ + c.value.digits@,
        None => reactive_bool(ctx, path),
    }
}

/// The condition under which an icon of a button shows.
pub fn compose_icon_condition(context: &ComposeReactiveContext, path: &str, comparison: Option<&NumberComparison>) -> (res: String)
    requires
        item_path_known(*context, path@),
    ensures
        res@ == icon_condition_text(*context, path@, opt_ref(comparison)),
{
    match comparison {
        Some(c) => {
            let mut out = String::from_str("((");
            out.append(compose_reactive_text(context, path, "0").as_str());
            out.append(").toDoubleOrNull() ?: 0.0) ");
            out.append(c.operator.as_str());
            out.append(" ");
            out.append(c.value.digits.as_str());
            out
        },
        None => compose_reactive_bool(context, path),
    }
}

/// The click handler of a button: the action it runs (with the current row
/// inside a repeated view), else the link it follows, else nothing.
pub open spec fn button_base_action_text(ctx: ComposeReactiveContext, props: ButtonProps) -> Seq<char> {
    let id = match props.style.element.on_click {
        Some(name) => lookup(ctx.action_ids@, name@),
        None => None,
    };
    match id {
        Some(id) => "{ actionScope.launch { state.run(\""@ + kotlin_escaped(id) + "\""@ + (match ctx.active_item {
            Some(item) => ", "@ + item@,
            None => Seq::empty(),
        }) + ") } }"@,
        None => navigation_action_text(props.style.navigation),
    }
}

/// The statements inside a Kotlin lambda written `{ <body> }`, nothing for another text.
pub open spec fn lambda_body(action: Seq<char>) -> Seq<char> {
    if action.len() >= 4 && action.subrange(0, 2) == "{ "@ && action.subrange(action.len() - 2, action.len() as int) == " }"@ {
        action.subrange(2, action.len() - 2)
    } else {
        Seq::empty()
    }
}

/// The click handler of a button: the toggled signal flips first where it has one.
pub open spec fn button_action_text(ctx: ComposeReactiveContext, props: ButtonProps) -> Seq<char> {
    let action = button_base_action_text(ctx, props);
    match props.swap_bind {
        Some(path) => {
            let bind = kotlin_escaped(signal_path_text(ctx, path@));
            "{ state.write(\""@ + bind + "\", !state.bool(\""@ + bind + "\")); "@ + lambda_body(action) + " }"@
        },
        None => action,
    }
}

fn base_action(props: &ButtonProps, context: &ComposeReactiveContext) -> (res: String)
    ensures
        res@ == button_base_action_text(*context, *props),
{
    let id = match &props.style.element.on_click {
        Some(name) => context.action_id(name.as_str()),
        None => None,
    };
    match id {
        Some(id) => {
            let mut out = String::from_str("{ actionScope.launch { state.run(\"");
            push_kotlin_escaped(&mut out, id.as_str());
            out.append("\"");
            match &context.active_item {
                Some(item) => {
                    let mut part = String::from_str(", ");
                    part.append(item.as_str());
                    out.append(part.as_str());
                },
                None => {},
            }
            out.append(") } }");
            out
        },
        None => compose_navigation_action(props.style.navigation.as_ref()),
    }
}

fn compose_lambda_body(action: &str) -> (res: String)
    ensures
        res@ == lambda_body(action@),
{
    let n = action.unicode_len();
    let mut out = String::new();
    proof {
        reveal_strlit("{ ");
        reveal_strlit(" }");
    }
    if n < 4 {
        return out;
    }
    let opens = action.get_char(0) == '{' && action.get_char(1) == ' ';
    let closes = action.get_char(n - 2) == ' ' && action.get_char(n - 1) == '}';
    if !opens || !closes {
        proof {
            if action@.subrange(0, 2) == "{ "@ {
                assert(action@.subrange(0, 2)[0] == '{');
                assert(action@.subrange(0, 2)[1] == ' ');
            }
            if action@.subrange(n - 2, n as int) == " }"@ {
                assert(action@.subrange(n - 2, n as int)[0] == ' ');
                assert(action@.subrange(n - 2, n as int)[1] == '}');
            }
        }
        return out;
    }
    assert(action@.subrange(0, 2) =~= "{ "@);
    assert(action@.subrange(n - 2, n as int) =~= " }"@);
    let mut i: usize = 2;
    while i < n - 2
        invariant
            n == action@.len(),
            4 <= n,
            2 <= i <= n - 2,
            out@ == action@.subrange(2, i as int),
        decreases n - 2 - i,
    {
        let c = action.get_char(i);
        push_char(&mut out, c);
        assert(action@.subrange(2, i + 1) =~= action@.subrange(2, i as int).push(c));
        i = i + 1;
    }
    out
}

/// The click handler of a button.
pub fn compose_button_action(props: &ButtonProps, context: &ComposeReactiveContext) -> (res: String)
    ensures
        res@ == button_action_text(*context, *props),
{
    let action = base_action(props, context);
    match &props.swap_bind {
        Some(path) => {
            let bind = escape_kotlin(context.signal_path(path.as_str()).as_str());
            let mut out = String::from_str("{ state.write(\"");
            out.append(bind.as_str());
            out.append("\", !state.bool(\"");
            out.append(bind.as_str());
            out.append("\")); ");
            out.append(compose_lambda_body(action.as_str()).as_str());
            out.append(" }");
            out
        },
        None => action,
    }
}

} // verus!

verus! {

/// The state flag of an optional binding.
pub open spec fn opt_reactive_bool(ctx: ComposeReactiveContext, path: Option<String>) -> Option<Seq<char>> {
    match path {
        Some(p) => Some(reactive_bool(ctx, p@)),
        None => None,
    }
}

/// The state text of an optional binding, with its fallback.
pub open spec fn opt_reactive_text(ctx: ComposeReactiveContext, path: Option<String>, fallback: Seq<char>) -> Option<Seq<char>> {
    match path {
        Some(p) => Some(reactive_text(ctx, p@, fallback)),
        None => None,
    }
}

fn compose_opt_reactive_bool(context: &ComposeReactiveContext, path: &Option<String>) -> (res: Option<String>)
    requires
        opt_item_path_known(*context, *path),
    ensures
        opt_string_of(res) == opt_reactive_bool(*context, *path),
{
    match path {
        Some(p) => Some(compose_reactive_bool(context, p.as_str())),
        None => None,
    }
}

fn compose_opt_reactive_text(context: &ComposeReactiveContext, path: &Option<String>, fallback: &str) -> (res: Option<String>)
    requires
        opt_item_path_known(*context, *path),
    ensures
        opt_string_of(res) == opt_reactive_text(*context, *path, fallback@),
{
    match path {
        Some(p) => Some(compose_reactive_text(context, p.as_str(), fallback)),
        None => None,
    }
}

/// The view of an optional string.
pub open spec fn opt_string_of(value: Option<String>) -> Option<Seq<char>> {
    match value {
        Some(s) => Some(s@),
        None => None,
    }
}

/// A value, or its fallback.
pub open spec fn or_text(value: Option<Seq<char>>, fallback: Seq<char>) -> Seq<char> {
    match value {
        Some(v) => v,
        None => fallback,
    }
}

/// The loading flag of a button, where a signal drives it.
pub open spec fn button_loading(ctx: ComposeReactiveContext, props: ButtonProps) -> Option<Seq<char>> {
    opt_reactive_bool(ctx, props.reactive.loading)
}

/// The disabled flag of a button, where a signal drives it.
pub open spec fn button_disabled(ctx: ComposeReactiveContext, props: ButtonProps) -> Option<Seq<char>> {
    opt_reactive_bool(ctx, props.reactive.disabled)
}

/// The size of a button, where a signal drives it.
pub open spec fn button_size(ctx: ComposeReactiveContext, props: ButtonProps) -> Option<Seq<char>> {
    opt_reactive_text(ctx, props.reactive.size, "md"@)
}

/// Whether a signal drives the variant or the color family of a button.
pub open spec fn button_reactive_visual(ctx: ComposeReactiveContext, props: ButtonProps) -> bool {
    props.reactive.variant is Some || props.reactive.scheme is Some
}

/// The variant of a button: read from its signal, else its name.
pub open spec fn button_variant_value(ctx: ComposeReactiveContext, props: ButtonProps) -> Seq<char> {
    or_text(opt_reactive_text(ctx, props.reactive.variant, "solid"@), "\""@ + variant_name(match props.style.variant {
        Some(v) => v,
        None => ComponentVariant::Solid,
    }) + "\""@)
}

/// The color family of a button: read from its signal, else its name (primary by default).
pub open spec fn button_scheme_value(ctx: ComposeReactiveContext, props: ButtonProps) -> Seq<char> {
    or_text(opt_reactive_text(ctx, props.reactive.scheme, "primary"@), "\""@ + or_text(opt_string_of(props.color), "primary"@) + "\""@)
}

/// The radius of a button: read from its signal, else its own.
pub open spec fn button_radius(ctx: ComposeReactiveContext, props: ButtonProps) -> Seq<char> {
    match props.reactive.rounded {
        Some(p) => "doweButtonRadius("@ + reactive_text(ctx, p@, "md"@) + ")"@,
        None => radius_text(props.style.style, "DoweDesign.radius"@),
    }
}

/// The container color of a button.
pub open spec fn button_container_text(ctx: ComposeReactiveContext, props: ButtonProps) -> Seq<char> {
    if button_reactive_visual(ctx, props) {
        "doweButtonContainer("@ + button_variant_value(ctx, props) + ", "@ + button_scheme_value(ctx, props) + ")"@
    } else {
        props.style.container@
    }
}

/// The content color of a button.
pub open spec fn button_content_text(ctx: ComposeReactiveContext, props: ButtonProps) -> Seq<char> {
    if button_reactive_visual(ctx, props) {
        "doweButtonContent("@ + button_variant_value(ctx, props) + ", "@ + button_scheme_value(ctx, props) + ")"@
    } else {
        props.style.content@
    }
}

/// The border of a button: a line in its content color when it is outlined.
pub open spec fn button_border_text(ctx: ComposeReactiveContext, props: ButtonProps) -> Seq<char> {
    if button_reactive_visual(ctx, props) {
        "if ("@ + button_variant_value(ctx, props) + " == \"outlined\") BorderStroke(1.dp, "@ + button_content_text(ctx, props)
            + ") else null"@
    } else if props.style.variant == Some(ComponentVariant::Outlined) {
        "BorderStroke(1.dp, "@ + props.style.content@ + ")"@
    } else {
        "null"@
    }
}

/// The style a button draws itself with: without paddings, and without its own
/// radius where a signal sets the radius.
pub open spec fn button_style(props: ButtonProps) -> StyleProps {
    StyleProps {
        spacing: no_spacing(),
        rounded: if props.reactive.rounded is Some { None } else { props.style.style.rounded },
        ..props.style.style
    }
}

/// Whether a button can be clicked: neither loading nor disabled.
pub open spec fn button_enabled_text(ctx: ComposeReactiveContext, props: ButtonProps) -> Seq<char> {
    match (button_loading(ctx, props), button_disabled(ctx, props)) {
        (Some(l), Some(d)) => "!(("@ + l + ") || ("@ + d + "))"@,
        (Some(l), None) => "!("@ + l + ")"@,
        (None, Some(d)) => "!("@ + d + ")"@,
        (None, None) => "true"@,
    }
}

/// The smallest height of a button: by its size signal, else by its size name, else none.
pub open spec fn button_min_height_text(ctx: ComposeReactiveContext, props: ButtonProps) -> Seq<char> {
    match button_size(ctx, props) {
        Some(s) => "doweButtonMinHeight("@ + s + ")"@,
        None => match props.size {
            Some(n) => "doweButtonMinHeight(\""@ + n@ + "\")"@,
            None => "0.dp"@,
        },
    }
}

/// The modifier chain of a button.
pub open spec fn button_modifier_text(ctx: ComposeReactiveContext, props: ButtonProps) -> Seq<char> {
    shadow_chain_text(button_style(props), "Modifier"@, Some("RoundedCornerShape("@ + button_radius(ctx, props) + ")"@))
        + ".doweGridCompactWidth()"@ + (if props.icon_only {
        ".semantics { contentDescription = \""@ + kotlin_escaped(or_text(opt_string_of(props.style.label), Seq::empty()))
            + "\" }"@
    } else {
        Seq::empty()
    }) + (if props.icon_only && (button_size(ctx, props) is Some || props.size is Some) {
        ".width("@ + button_min_height_text(ctx, props) + ")"@
    } else {
        Seq::empty()
    }) + (if button_loading(ctx, props) is Some || button_disabled(ctx, props) is Some {
        ".graphicsLayer { alpha = if ("@ + button_enabled_text(ctx, props) + ") 1f else 0.5f }"@
    } else {
        Seq::empty()
    })
}

/// The padding inside a button: by its size signal, else by its own paddings.
pub open spec fn button_padding_text(ctx: ComposeReactiveContext, props: ButtonProps) -> Seq<char> {
    match button_size(ctx, props) {
        Some(s) => "PaddingValues(horizontal = doweButtonHorizontalPadding("@ + s + "), vertical = doweButtonVerticalPadding("@ + s
            + "))"@,
        None => content_padding_text(props.style.style.spacing),
    }
}

/// The colors of a button, the same when it is disabled where it can be.
pub open spec fn button_colors_text(ctx: ComposeReactiveContext, props: ButtonProps) -> Seq<char> {
    let c = button_container_text(ctx, props);
    let t = button_content_text(ctx, props);
    if button_loading(ctx, props) is Some || button_disabled(ctx, props) is Some {
        "ButtonDefaults.buttonColors(containerColor = "@ + c + ", contentColor = "@ + t + ", disabledContainerColor = "@ + c
            + ", disabledContentColor = "@ + t + ")"@
    } else {
        "ButtonDefaults.buttonColors(containerColor = "@ + c + ", contentColor = "@ + t + ")"@
    }
}

/// The opening line of a button.
#[verifier::opaque]
pub open spec fn button_open_text(ctx: ComposeReactiveContext, props: ButtonProps, indent: usize) -> Seq<char> {
    spaces(indent as nat) + "Button(modifier = "@ + button_modifier_text(ctx, props) + ".height("@
        + button_min_height_text(ctx, props) + "), shape = RoundedCornerShape("@ + button_radius(ctx, props) + "), colors = "@
        + button_colors_text(ctx, props) + ", border = "@ + button_border_text(ctx, props) + ", contentPadding = "@
        + button_padding_text(ctx, props) + ", enabled = "@ + button_enabled_text(ctx, props) + ", onClick = "@
        + button_action_text(ctx, props) + ") {\n"@
}

fn compose_variant_value(props: &ButtonProps, context: &ComposeReactiveContext) -> (res: String)
    requires
        button_paths_known(*context, *props),
    ensures
        res@ == button_variant_value(*context, *props),
{
    match compose_opt_reactive_text(context, &props.reactive.variant, "solid") {
        Some(v) => v,
        None => {
            let variant = match props.style.variant {
                Some(v) => v,
                None => ComponentVariant::Solid,
            };
            let mut out = String::from_str("\"");
            out.append(compose_variant_name(variant));
            out.append("\"");
            out
        },
    }
}

fn compose_scheme_value(props: &ButtonProps, context: &ComposeReactiveContext) -> (res: String)
    requires
        button_paths_known(*context, *props),
    ensures
        res@ == button_scheme_value(*context, *props),
{
    match compose_opt_reactive_text(context, &props.reactive.scheme, "primary") {
        Some(v) => v,
        None => {
            let mut out = String::from_str("\"");
            match &props.color {
                Some(c) => out.append(c.as_str()),
                None => out.append("primary"),
            }
            out.append("\"");
            out
        },
    }
}

fn compose_button_radius(props: &ButtonProps, context: &ComposeReactiveContext) -> (res: String)
    requires
        button_paths_known(*context, *props),
    ensures
        res@ == button_radius(*context, *props),
{
    match &props.reactive.rounded {
        Some(p) => {
            let mut out = String::from_str("doweButtonRadius(");
            out.append(compose_reactive_text(context, p.as_str(), "md").as_str());
            out.append(")");
            out
        },
        None => compose_control_radius(&props.style.style),
    }
}

fn compose_button_content(props: &ButtonProps, context: &ComposeReactiveContext) -> (res: String)
    requires
        button_paths_known(*context, *props),
    ensures
        res@ == button_content_text(*context, *props),
{
    if props.reactive.variant.is_some() || props.reactive.scheme.is_some() {
        let mut out = String::from_str("doweButtonContent(");
        out.append(compose_variant_value(props, context).as_str());
        out.append(", ");
        out.append(compose_scheme_value(props, context).as_str());
        out.append(")");
        out
    } else {
        props.style.content.clone()
    }
}

fn compose_button_container(props: &ButtonProps, context: &ComposeReactiveContext) -> (res: String)
    requires
        button_paths_known(*context, *props),
    ensures
        res@ == button_container_text(*context, *props),
{
    if props.reactive.variant.is_some() || props.reactive.scheme.is_some() {
        let mut out = String::from_str("doweButtonContainer(");
        out.append(compose_variant_value(props, context).as_str());
        out.append(", ");
        out.append(compose_scheme_value(props, context).as_str());
        out.append(")");
        out
    } else {
        props.style.container.clone()
    }
}

fn compose_button_border_expr(props: &ButtonProps, context: &ComposeReactiveContext) -> (res: String)
    requires
        button_paths_known(*context, *props),
    ensures
        res@ == button_border_text(*context, *props),
{
    if props.reactive.variant.is_some() || props.reactive.scheme.is_some() {
        let mut out = String::from_str("if (");
        out.append(compose_variant_value(props, context).as_str());
        out.append(" == \"outlined\") BorderStroke(1.dp, ");
        out.append(compose_button_content(props, context).as_str());
        out.append(") else null");
        out
    } else if props.style.variant == Some(ComponentVariant::Outlined) {
        let mut out = String::from_str("BorderStroke(1.dp, ");
        out.append(props.style.content.as_str());
        out.append(")");
        out
    } else {
        String::from_str("null")
    }
}

fn compose_button_enabled(props: &ButtonProps, context: &ComposeReactiveContext) -> (res: String)
    requires
        button_paths_known(*context, *props),
    ensures
        res@ == button_enabled_text(*context, *props),
{
    let loading = compose_opt_reactive_bool(context, &props.reactive.loading);
    let disabled = compose_opt_reactive_bool(context, &props.reactive.disabled);
    match (loading, disabled) {
        (Some(l), Some(d)) => {
            let mut out = String::from_str("!((");
            out.append(l.as_str());
            out.append(") || (");
            out.append(d.as_str());
            out.append("))");
            out
        },
        (Some(l), None) => {
            let mut out = String::from_str("!(");
            out.append(l.as_str());
            out.append(")");
            out
        },
        (None, Some(d)) => {
            let mut out = String::from_str("!(");
            out.append(d.as_str());
            out.append(")");
            out
        },
        (None, None) => String::from_str("true"),
    }
}

fn compose_button_min_height(props: &ButtonProps, context: &ComposeReactiveContext) -> (res: String)
    requires
        button_paths_known(*context, *props),
    ensures
        res@ == button_min_height_text(*context, *props),
{
    match compose_opt_reactive_text(context, &props.reactive.size, "md") {
        Some(s) => {
            let mut out = String::from_str("doweButtonMinHeight(");
            out.append(s.as_str());
            out.append(")");
            out
        },
        None => match &props.size {
            Some(n) => {
                let mut out = String::from_str("doweButtonMinHeight(\"");
                out.append(n.as_str());
                out.append("\")");
                out
            },
            None => String::from_str("0.dp"),
        },
    }
}

#[verifier::spinoff_prover]
#[verifier::rlimit(50)]
fn compose_button_modifier(props: &ButtonProps, context: &ComposeReactiveContext) -> (res: String)
    requires
        button_paths_known(*context, *props),
    ensures
        res@ == button_modifier_text(*context, *props),
{
    let mut shape = String::from_str("RoundedCornerShape(");
    shape.append(compose_button_radius(props, context).as_str());
    shape.append(")");
    let spacing = SpacingProps { p: None, px: None, py: None, pl: None, pr: None, pt: None, pb: None };
    let rounded = if props.reactive.rounded.is_some() { None } else { props.style.style.rounded.as_ref() };
    let mut out = String::from_str("Modifier");
    append_style_suffix_with(&mut out, &props.style.style, &spacing, rounded, Some(shape.as_str()));
    proof {
        reveal(style_suffix_with);
    }
    assert(out@ == shadow_chain_text(button_style(*props), "Modifier"@, Some(shape@)));
    out.append(".doweGridCompactWidth()");
    let ghost s1 = out@;
    if props.icon_only {
        out.append(".semantics { contentDescription = \"");
        match &props.style.label {
            Some(l) => push_kotlin_escaped(&mut out, l.as_str()),
            None => {
                assert(kotlin_escaped(Seq::<char>::empty()) =~= Seq::<char>::empty());
            },
        }
        out.append("\" }");
    }
    let ghost s2 = out@;
    let has_size = props.reactive.size.is_some() || props.size.is_some();
    if props.icon_only && has_size {
        out.append(".width(");
        out.append(compose_button_min_height(props, context).as_str());
        out.append(")");
    }
    let ghost s3 = out@;
    if props.reactive.loading.is_some() || props.reactive.disabled.is_some() {
        out.append(".graphicsLayer { alpha = if (");
        out.append(compose_button_enabled(props, context).as_str());
        out.append(") 1f else 0.5f }");
    }
    out
}

fn compose_button_padding(props: &ButtonProps, context: &ComposeReactiveContext) -> (res: String)
    requires
        button_paths_known(*context, *props),
    ensures
        res@ == button_padding_text(*context, *props),
{
    match compose_opt_reactive_text(context, &props.reactive.size, "md") {
        Some(s) => {
            let mut out = String::from_str("PaddingValues(horizontal = doweButtonHorizontalPadding(");
            out.append(s.as_str());
            out.append("), vertical = doweButtonVerticalPadding(");
            out.append(s.as_str());
            out.append("))");
            out
        },
        None => compose_content_padding(&props.style.style.spacing),
    }
}

fn compose_button_colors(props: &ButtonProps, context: &ComposeReactiveContext) -> (res: String)
    requires
        button_paths_known(*context, *props),
    ensures
        res@ == button_colors_text(*context, *props),
{
    let c = compose_button_container(props, context);
    let t = compose_button_content(props, context);
    let mut out = String::from_str("ButtonDefaults.buttonColors(containerColor = ");
    out.append(c.as_str());
    out.append(", contentColor = ");
    out.append(t.as_str());
    if props.reactive.loading.is_some() || props.reactive.disabled.is_some() {
        out.append(", disabledContainerColor = ");
        out.append(c.as_str());
        out.append(", disabledContentColor = ");
        out.append(t.as_str());
        out.append(")");
    } else {
        out.append(")");
    }
    out
}

/// The opening line of a button.
#[verifier::spinoff_prover]
#[verifier::rlimit(50)]
pub fn compose_button_open(props: &ButtonProps, indent: usize, context: &ComposeReactiveContext) -> (res: String)
    requires
        button_paths_known(*context, *props),
    ensures
        res@ == button_open_text(*context, *props, indent),
{
    reveal(button_open_text);
    let mut out = pad(indent);
    out.append("Button(modifier = ");
    out.append(compose_button_modifier(props, context).as_str());
    out.append(".height(");
    out.append(compose_button_min_height(props, context).as_str());
    out.append("), shape = RoundedCornerShape(");
    out.append(compose_button_radius(props, context).as_str());
    out.append("), colors = ");
    out.append(compose_button_colors(props, context).as_str());
    out.append(", border = ");
    out.append(compose_button_border_expr(props, context).as_str());
    out.append(", contentPadding = ");
    out.append(compose_button_padding(props, context).as_str());
    out.append(", enabled = ");
    out.append(compose_button_enabled(props, context).as_str());
    out.append(", onClick = ");
    out.append(compose_button_action(props, context).as_str());
    out.append(") {\n");
    out
}

} // verus!
