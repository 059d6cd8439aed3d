//! Form controls: validation texts and rules, and the Compose calls of
//! checkboxes, toggles, file drop zones and theme pickers.
use vstd::prelude::*;
use crate::context::{signal_path_text, ComposeReactiveContext};
use crate::layout::{container_modifier_text, modifier_for_style, style_modifier_text, ComposeFlow, ElementProps, FormValidation, ValidationRule};

use crate::style_values::{bool_string, bool_text};
use crate::text::{
    compose_optional_field, decimal_text, compose_string_literal, kotlin_escaped, list_of, list_of_text, opt_string_view, optional_string_text, pad, push_kotlin_escaped, spaces, string_literal_text, string_views,
};
use crate::values::{
    bool_value_and_change_text, compose_bool_value_and_change, compose_variant_border, variant_border_text, VariantProps,
};

verus! {

/// The accent color of a control: the design color of its color family.
pub fn compose_scheme_color(props: &VariantProps) -> (res: &str)
    ensures
        res@ == props.scheme.reference@,
{
    crate::style_values::color_ref(&props.scheme)
}

/// The help text of a validated field, `null` without one.
pub open spec fn validation_help_text(element: ElementProps) -> Seq<char> {
    match element.validation {
        Some(v) => optional_string_text(opt_string_view(v.help_text)),
        None => "null"@,
    }
}

/// The help text of a validated field as a Kotlin value.
pub fn compose_validation_help(element: &ElementProps) -> (res: String)
    ensures
        res@ == validation_help_text(*element),
{
    match &element.validation {
        Some(v) => compose_optional_field(&v.help_text),
        None => String::from_str("null"),
    }
}

/// The error text of a validated field, `null` without one.
pub open spec fn validation_error_text(element: ElementProps) -> Seq<char> {
    match element.validation {
        Some(v) => optional_string_text(opt_string_view(v.error_text)),
        None => "null"@,
    }
}

/// The error text of a validated field as a Kotlin value.
pub fn compose_validation_error(element: &ElementProps) -> (res: String)
    ensures
        res@ == validation_error_text(*element),
{
    match &element.validation {
        Some(v) => compose_optional_field(&v.error_text),
        None => String::from_str("null"),
    }
}

/// The argument of a rule: the current value of the field it must match (read
/// as text, or as a boolean turned to text), else its own argument or `null`.
pub open spec fn rule_argument_text(context: ComposeReactiveContext, rule: ValidationRule, boolean: bool) -> Seq<char> {
    match rule.matches {
        Some(path) => {
            let escaped = kotlin_escaped(signal_path_text(context, path@));
            if boolean {
                "state.bool(\""@ + escaped + "\").toString()"@
            } else {
                "state.text(\""@ + escaped + "\")"@
            }
        },
        None => optional_string_text(opt_string_view(rule.argument)),
    }
}

/// The Kotlin value of a validation rule.
pub open spec fn rule_text(context: ComposeReactiveContext, rule: ValidationRule, boolean: bool) -> Seq<char> {
    "DoweValidationRule(kind = "@ + string_literal_text(rule.kind@) + ", argument = "@
        + rule_argument_text(context, rule, boolean) + ", message = "@ + string_literal_text(rule.message@)
        + ")"@
}

/// The Kotlin list of the rules of a validated field, `emptyList()` for a field
/// without validation.
pub open spec fn validation_rules_text(context: ComposeReactiveContext, element: ElementProps, boolean: bool) -> Seq<char> {
    match element.validation {
        Some(v) => list_of_text(Seq::new(v.rules@.len(), |i: int| rule_text(context, v.rules@[i], boolean))),
        None => "emptyList()"@,
    }
}

fn rule_argument(context: &ComposeReactiveContext, rule: &ValidationRule, boolean: bool) -> (res: String)
    ensures
        res@ == rule_argument_text(*context, *rule, boolean),
{
    match &rule.matches {
        Some(path) => {
            let resolved = context.signal_path(path.as_str());
            let mut out = if boolean {
                String::from_str("state.bool(\"")
            } else {
                String::from_str("state.text(\"")
            };
            push_kotlin_escaped(&mut out, resolved.as_str());
            if boolean {
                out.append("\").toString()");
            } else {
                out.append("\")");
            }
            out
        },
        None => compose_optional_field(&rule.argument),
    }
}

fn validation_rules(element: &ElementProps, context: &ComposeReactiveContext, boolean: bool) -> (res: String)
    ensures
        res@ == validation_rules_text(*context, *element, boolean),
{
    let validation: &FormValidation = match &element.validation {
        Some(v) => v,
        None => {
            return String::from_str("emptyList()");
        },
    };
    let rules = &validation.rules;
    let mut values: Vec<String> = Vec::new();
    let mut i: usize = 0;
    while i < rules.len()
        invariant
            i <= rules@.len(),
            values@.len() == i,
            forall|j: int| 0 <= j < i ==> #[trigger] values@[j]@ == rule_text(*context, rules@[j], boolean),
        decreases rules@.len() - i,
    {
        let rule = &rules[i];
        let mut v = String::from_str("DoweValidationRule(kind = ");
        v.append(compose_string_literal(rule.kind.as_str()).as_str());
        v.append(", argument = ");
        v.append(rule_argument(context, rule, boolean).as_str());
        v.append(", message = ");
        v.append(compose_string_literal(rule.message.as_str()).as_str());
        v.append(")");
        values.push(v);
        i = i + 1;
    }
    assert(string_views(values@) =~= Seq::new(rules@.len(), |j: int| rule_text(*context, rules@[j], boolean)));
    list_of(&values)
}

/// The Kotlin list of the rules of a text field; a rule that matches another
/// field compares with that field's text.
pub fn compose_validation_rules(element: &ElementProps, context: &ComposeReactiveContext) -> (res: String)
    ensures
        res@ == validation_rules_text(*context, *element, false),
{
    validation_rules(element, context, false)
}

/// The Kotlin list of the rules of a boolean field; a rule that matches another
/// field compares with that field's boolean value, as text.
pub fn compose_boolean_validation_rules(element: &ElementProps, context: &ComposeReactiveContext) -> (res: String)
    ensures
        res@ == validation_rules_text(*context, *element, true),
{
    validation_rules(element, context, true)
}

/// A checkbox: its style and variant, whether it starts checked, whether it is
/// disabled, and its form field name.
#[derive(Debug, Clone)]
pub struct CheckboxProps {
    pub style: VariantProps,
    pub checked: bool,
    pub disabled: bool,
    pub name: Option<String>,
}

/// The Compose call of a checkbox, bound to its signal where it has one.
pub open spec fn checkbox_line(props: CheckboxProps, indent: usize, context: ComposeReactiveContext) -> Seq<char> {
    spaces(indent as nat) + "DoweCheckbox(checked = "@
        + (bool_value_and_change_text(context, opt_string_view(props.style.element.bind), props.checked).0)
        + ", onCheckedChange = "@
        + (bool_value_and_change_text(context, opt_string_view(props.style.element.bind), props.checked).1)
        + ", enabled = "@ + (bool_text(!props.disabled)) + ", label = "@
        + (optional_string_text(opt_string_view(props.style.label))) + ", name = "@
        + (optional_string_text(opt_string_view(props.name))) + ", modifier = "@
        + (style_modifier_text(props.style.style, "Modifier"@)) + ", accentColor = "@
        + (props.style.scheme.reference@) + ", helpText = "@ + (validation_help_text(props.style.element))
        + ", errorText = "@ + (validation_error_text(props.style.element)) + ", validationRules = "@
        + (validation_rules_text(context, props.style.element, true)) + ")\n"@
}

/// The Compose call of a checkbox, bound to its signal where it has one.
pub fn render_compose_checkbox(props: &CheckboxProps, indent: usize, output: &mut String, context: &ComposeReactiveContext)
    ensures
        final(output)@ == old(output)@ + checkbox_line(*props, indent, *context),
{
    let (checked, change) = compose_bool_value_and_change(&props.style, props.checked, context);
    let mut line = pad(indent);
    line.append("DoweCheckbox(checked = ");
    line.append(checked.as_str());
    line.append(", onCheckedChange = ");
    line.append(change.as_str());
    line.append(", enabled = ");
    line.append(bool_string(!props.disabled).as_str());
    line.append(", label = ");
    line.append(compose_optional_field(&props.style.label).as_str());
    line.append(", name = ");
    line.append(compose_optional_field(&props.name).as_str());
    line.append(", modifier = ");
    line.append(modifier_for_style(&props.style.style).as_str());
    line.append(", accentColor = ");
    line.append(compose_scheme_color(&props.style));
    line.append(", helpText = ");
    line.append(compose_validation_help(&props.style.element).as_str());
    line.append(", errorText = ");
    line.append(compose_validation_error(&props.style.element).as_str());
    line.append(", validationRules = ");
    line.append(compose_boolean_validation_rules(&props.style.element, context).as_str());
    line.append(")\n");
    output.append(line.as_str());
}

/// A toggle switch: its style and variant, whether it starts on, whether it is
/// disabled, the labels on each side, and its form field name.
#[derive(Debug, Clone)]
pub struct ToggleProps {
    pub style: VariantProps,
    pub checked: bool,
    pub disabled: bool,
    pub label_left: Option<String>,
    pub label_right: Option<String>,
    pub name: Option<String>,
}

/// The Compose call of a toggle switch, bound to its signal where it has one.
pub open spec fn toggle_line(props: ToggleProps, indent: usize, context: ComposeReactiveContext) -> Seq<char> {
    spaces(indent as nat) + "DoweToggle(checked = "@
        + (bool_value_and_change_text(context, opt_string_view(props.style.element.bind), props.checked).0)
        + ", onCheckedChange = "@
        + (bool_value_and_change_text(context, opt_string_view(props.style.element.bind), props.checked).1)
        + ", enabled = "@ + (bool_text(!props.disabled)) + ", label = "@
        + (optional_string_text(opt_string_view(props.style.label))) + ", labelLeft = "@
        + (optional_string_text(opt_string_view(props.label_left))) + ", labelRight = "@
        + (optional_string_text(opt_string_view(props.label_right))) + ", name = "@
        + (optional_string_text(opt_string_view(props.name))) + ", modifier = "@
        + (style_modifier_text(props.style.style, "Modifier"@)) + ", accentColor = "@
        + (props.style.scheme.reference@) + ")\n"@
}

/// The Compose call of a toggle switch, bound to its signal where it has one.
pub fn render_compose_toggle(props: &ToggleProps, indent: usize, output: &mut String, context: &ComposeReactiveContext)
    ensures
        final(output)@ == old(output)@ + toggle_line(*props, indent, *context),
{
    let (checked, change) = compose_bool_value_and_change(&props.style, props.checked, context);
    let mut line = pad(indent);
    line.append("DoweToggle(checked = ");
    line.append(checked.as_str());
    line.append(", onCheckedChange = ");
    line.append(change.as_str());
    line.append(", enabled = ");
    line.append(bool_string(!props.disabled).as_str());
    line.append(", label = ");
    line.append(compose_optional_field(&props.style.label).as_str());
    line.append(", labelLeft = ");
    line.append(compose_optional_field(&props.label_left).as_str());
    line.append(", labelRight = ");
    line.append(compose_optional_field(&props.label_right).as_str());
    line.append(", name = ");
    line.append(compose_optional_field(&props.name).as_str());
    line.append(", modifier = ");
    line.append(modifier_for_style(&props.style.style).as_str());
    line.append(", accentColor = ");
    line.append(compose_scheme_color(&props.style));
    line.append(")\n");
    output.append(line.as_str());
}

/// A file drop zone: its style and variant, the accepted types, whether several
/// files may be dropped, the largest size in bytes, whether it is disabled, its
/// help and error texts, and the name of its size.
#[derive(Debug, Clone)]
pub struct DropzoneProps {
    pub style: VariantProps,
    pub accept: Option<String>,
    pub multiple: bool,
    pub max_size: Option<u64>,
    pub disabled: bool,
    pub help_text: Option<String>,
    pub error_text: Option<String>,
    pub size: String,
}

/// The placeholder of a drop zone, with the default one where none is set.
pub open spec fn dropzone_placeholder(props: DropzoneProps) -> Seq<char> {
    match props.style.placeholder {
        Some(p) => p@,
        None => "Drag & drop files here or click to select"@,
    }
}

/// The largest size of a drop zone as a Kotlin long, `null` without one.
pub open spec fn max_size_text(value: Option<u64>) -> Seq<char> {
    match value {
        Some(v) => decimal_text(v as nat) + "L"@,
        None => "null"@,
    }
}

fn compose_max_size(value: Option<u64>) -> (res: String)
    ensures
        res@ == max_size_text(value),
{
    match value {
        Some(v) => {
            let mut out = crate::text::decimal_string(v);
            out.append("L");
            out
        },
        None => String::from_str("null"),
    }
}

fn dropzone_placeholder_str(props: &DropzoneProps) -> (res: &str)
    ensures
        res@ == dropzone_placeholder(*props),
{
    match &props.style.placeholder {
        Some(p) => p.as_str(),
        None => "Drag & drop files here or click to select",
    }
}

/// The Compose call of a file drop zone.
pub open spec fn dropzone_line(props: DropzoneProps, indent: usize) -> Seq<char> {
    spaces(indent as nat) + "DoweDropzone(label = "@
        + (optional_string_text(opt_string_view(props.style.label))) + ", placeholder = "@
        + (string_literal_text(dropzone_placeholder(props))) + ", accept = "@
        + (optional_string_text(opt_string_view(props.accept))) + ", multiple = "@
        + (bool_text(props.multiple)) + ", maxSize = "@ + (max_size_text(props.max_size)) + ", disabled = "@
        + (bool_text(props.disabled)) + ", helpText = "@
        + (optional_string_text(opt_string_view(props.help_text))) + ", errorText = "@
        + (optional_string_text(opt_string_view(props.error_text))) + ", size = "@
        + (string_literal_text(props.size@)) + ", modifier = "@
        + (style_modifier_text(props.style.style, "Modifier"@)) + ", backgroundColor = "@
        + (props.style.container@) + ", contentColor = "@ + (props.style.content@) + ", borderColor = "@
        + (variant_border_text(props.style)) + ")\n"@
}

/// The Compose call of a file drop zone.
pub fn render_compose_dropzone(props: &DropzoneProps, indent: usize, output: &mut String)
    ensures
        final(output)@ == old(output)@ + dropzone_line(*props, indent),
{
    let mut line = pad(indent);
    line.append("DoweDropzone(label = ");
    line.append(compose_optional_field(&props.style.label).as_str());
    line.append(", placeholder = ");
    line.append(compose_string_literal(dropzone_placeholder_str(props)).as_str());
    line.append(", accept = ");
    line.append(compose_optional_field(&props.accept).as_str());
    line.append(", multiple = ");
    line.append(bool_string(props.multiple).as_str());
    line.append(", maxSize = ");
    line.append(compose_max_size(props.max_size).as_str());
    line.append(", disabled = ");
    line.append(bool_string(props.disabled).as_str());
    line.append(", helpText = ");
    line.append(compose_optional_field(&props.help_text).as_str());
    line.append(", errorText = ");
    line.append(compose_optional_field(&props.error_text).as_str());
    line.append(", size = ");
    line.append(compose_string_literal(props.size.as_str()).as_str());
    line.append(", modifier = ");
    line.append(modifier_for_style(&props.style.style).as_str());
    line.append(", backgroundColor = ");
    line.append(props.style.container.as_str());
    line.append(", contentColor = ");
    line.append(props.style.content.as_str());
    line.append(", borderColor = ");
    line.append(compose_variant_border(&props.style).as_str());
    line.append(")\n");
    output.append(line.as_str());
}

/// A theme picker: its style and variant, its label and its placeholder.
#[derive(Debug, Clone)]
pub struct ThemeSelectProps {
    pub style: VariantProps,
    pub label: String,
    pub placeholder: String,
}

/// The border of a theme picker: its card content color when it is outlined
/// (the default), `null` otherwise.
pub open spec fn theme_select_border(props: ThemeSelectProps) -> Seq<char> {
    let variant = match props.style.variant {
        Some(v) => v,
        None => crate::values::ComponentVariant::Outlined,
    };
    if variant == crate::values::ComponentVariant::Outlined {
        props.style.card_content@
    } else {
        "null"@
    }
}

/// The modifier of a theme picker: inside a row without a width it takes the
/// remaining space.
pub open spec fn theme_select_modifier(props: ThemeSelectProps, flow: ComposeFlow) -> Seq<char> {
    let base = style_modifier_text(props.style.style, "Modifier"@);
    if flow == ComposeFlow::Inline && props.style.style.sizing.w is None {
        base + ".weight(1f)"@
    } else {
        base
    }
}

fn theme_select_border_str(props: &ThemeSelectProps) -> (res: &str)
    ensures
        res@ == theme_select_border(*props),
{
    let variant = match props.style.variant {
        Some(v) => v,
        None => crate::values::ComponentVariant::Outlined,
    };
    if variant == crate::values::ComponentVariant::Outlined {
        props.style.card_content.as_str()
    } else {
        "null"
    }
}

fn compose_theme_select_modifier(props: &ThemeSelectProps, flow: ComposeFlow) -> (res: String)
    ensures
        res@ == theme_select_modifier(*props, flow),
{
    let mut modifier = modifier_for_style(&props.style.style);
    if flow == ComposeFlow::Inline && props.style.style.sizing.w.is_none() {
        modifier.append(".weight(1f)");
    }
    modifier
}

/// The Compose call of a theme picker.
pub open spec fn theme_select_line(props: ThemeSelectProps, indent: usize, flow: ComposeFlow) -> Seq<char> {
    spaces(indent as nat) + "DoweThemeSelect(modifier = "@ + (theme_select_modifier(props, flow))
        + ", label = "@ + (string_literal_text(props.label@)) + ", placeholder = "@
        + (string_literal_text(props.placeholder@)) + ", backgroundColor = "@ + (props.style.card_container@)
        + ", contentColor = "@ + (props.style.card_content@) + ", borderColor = "@
        + (theme_select_border(props)) + ")\n"@
}

/// The Compose call of a theme picker.
pub fn render_compose_theme_select(props: &ThemeSelectProps, indent: usize, output: &mut String, flow: ComposeFlow)
    ensures
        final(output)@ == old(output)@ + theme_select_line(*props, indent, flow),
{
    let mut line = pad(indent);
    line.append("DoweThemeSelect(modifier = ");
    line.append(compose_theme_select_modifier(props, flow).as_str());
    line.append(", label = ");
    line.append(compose_string_literal(props.label.as_str()).as_str());
    line.append(", placeholder = ");
    line.append(compose_string_literal(props.placeholder.as_str()).as_str());
    line.append(", backgroundColor = ");
    line.append(props.style.card_container.as_str());
    line.append(", contentColor = ");
    line.append(props.style.card_content.as_str());
    line.append(", borderColor = ");
    line.append(theme_select_border_str(props));
    line.append(")\n");
    output.append(line.as_str());
}

/// A loading placeholder: the names of its shape and animation, and its style.
#[derive(Debug, Clone)]
pub struct SkeletonProps {
    pub variant: String,
    pub animation: String,
    pub style: crate::layout::StyleProps,
}

/// The Compose call of a loading placeholder, laid out as a container.
#[verifier::opaque]
pub open spec fn skeleton_line(props: SkeletonProps, indent: usize, flow: ComposeFlow) -> Seq<char> {
    spaces(indent as nat) + "DoweSkeleton(variant = "@ + (string_literal_text(props.variant@))
        + ", animation = "@ + (string_literal_text(props.animation@)) + ", modifier = "@
        + (container_modifier_text(props.style, flow)) + ")\n"@
}

/// The Compose call of a loading placeholder, laid out as a container.
pub fn render_compose_skeleton(props: &SkeletonProps, indent: usize, output: &mut String, flow: ComposeFlow)
    ensures
        final(output)@ == old(output)@ + skeleton_line(*props, indent, flow),
{
    reveal(skeleton_line);
    let mut line = pad(indent);
    line.append("DoweSkeleton(variant = ");
    line.append(compose_string_literal(props.variant.as_str()).as_str());
    line.append(", animation = ");
    line.append(compose_string_literal(props.animation.as_str()).as_str());
    line.append(", modifier = ");
    line.append(crate::layout::modifier_for_container_style(&props.style, flow).as_str());
    line.append(")\n");
    output.append(line.as_str());
}

} // verus!
