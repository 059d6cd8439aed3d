//! Text and title nodes: their Kotlin text expression, size, line height,
//! weight, letter spacing and color, and the Compose `Text` call that draws them.
use vstd::prelude::*;
use crate::context::{lookup, ComposeReactiveContext};
use crate::layout::{modifier_for_style, modifier_for_style_with_base, style_modifier_text, NumberText, StyleProps};
use crate::style_values::{
    color_value_text, compose_color_value, compose_font_value, compose_responsive_value, compose_text_align,
    compose_text_weight, font_value_text, opt_ref, responsive_text, text_align_value_text, text_weight_text, FontFamily,
    ResponsiveValue, TextAlign, TextWeight,
};
use crate::text::{join, kotlin_escaped, pad, push_joined, push_kotlin_escaped, spaces, string_views};

verus! {

/// The fluid font size of a text size: its least size, its size at the base
/// viewport and the viewport share it grows with, and its greatest size.
#[derive(Debug, Clone)]
pub struct FontSizeRange {
    pub min: NumberText,
    pub preferred_base: NumberText,
    pub preferred_viewport: NumberText,
    pub max: NumberText,
}

/// The typography of a text size for a text or a title: its font size, its
/// line height, its weight and its default letter spacing in em.
#[derive(Debug, Clone)]
pub struct TextTypography {
    pub font_size: FontSizeRange,
    pub line_height: NumberText,
    pub weight: TextWeight,
    pub letter_spacing_em: String,
}

/// A letter spacing in em, as written in the design system (such as `0.02` or `-0.01`).
#[derive(Debug, Clone)]
pub struct EmValue(pub String);

/// The properties of a text or title: its style, the typography of its size
/// where one is set (per breakpoint), the signals that drive its size, weight
/// and letter spacing, its weight and letter spacing where set, its alignment,
/// and the resource name of its translation.
#[derive(Debug, Clone)]
pub struct TextProps {
    pub style: StyleProps,
    pub size: Option<ResponsiveValue<TextTypography>>,
    pub size_binding: Option<String>,
    pub weight: Option<ResponsiveValue<TextWeight>>,
    pub weight_binding: Option<String>,
    pub letter_spacing: Option<ResponsiveValue<EmValue>>,
    pub letter_spacing_binding: Option<String>,
    pub align: Option<ResponsiveValue<TextAlign>>,
    pub i18n: Option<String>,
}

/// A piece of a text template: literal text, or the binding a `{binding}` names.
#[derive(Debug, Clone)]
pub struct TextSegment {
    pub literal: String,
    pub binding: Option<String>,
}

/// The fluid font size expression of a typography.
pub open spec fn size_expr_text(t: TextTypography) -> Seq<char> {
    "doweTextSize(viewportWidth, min = "@ + t.font_size.min.digits@ + "f, preferredBase = "@
        + t.font_size.preferred_base.digits@ + "f, preferredViewport = "@ + t.font_size.preferred_viewport.digits@
        + "f, max = "@ + t.font_size.max.digits@ + "f)"@
}

/// The line height of a typography as a Kotlin float.
pub open spec fn line_height_expr_text(t: TextTypography) -> Seq<char> {
    t.line_height.digits@ + "f"@
}

/// A letter spacing in em as a Kotlin `em` value; a negative one is parenthesized.
pub open spec fn em_text(value: Seq<char>) -> Seq<char> {
    if value.len() > 0 && value[0] == '-' {
        "("@ + value + "f).em"@
    } else {
        value + "f.em"@
    }
}

/// A call of a dynamic text function on the state text of a signal.
pub open spec fn dynamic_call_text(name: Seq<char>, binding: Seq<char>) -> Seq<char> {
    name + "(state.text(\""@ + kotlin_escaped(binding) + "\"))"@
}

/// The font size of a text: the size its signal picks, else its responsive
/// size with the base size as fallback, else the base size.
pub open spec fn text_size_text(props: TextProps, base: TextTypography) -> Seq<char> {
    match props.size_binding {
        Some(b) => dynamic_call_text("doweDynamicTextSize"@, b@),
        None => match props.size {
            Some(v) => responsive_text(v, |t: TextTypography| size_expr_text(t)) + " ?: "@ + size_expr_text(base),
            None => size_expr_text(base),
        },
    }
}

/// The line height of a text for the font size expression `size`.
pub open spec fn text_line_height_text(props: TextProps, base: TextTypography, size: Seq<char>) -> Seq<char> {
    let fallback = line_height_expr_text(base);
    let line = match props.size {
        Some(v) => responsive_text(v, |t: TextTypography| line_height_expr_text(t)) + " ?: "@ + fallback,
        None => fallback,
    };
    "doweTextLineHeight("@ + size + ", "@ + line + ")"@
}

/// The font weight of a text: the weight its signal picks, else its weight
/// with regular as fallback; a title otherwise takes the weight of its size.
pub open spec fn text_weight_expr_text(title: bool, props: TextProps, base: TextTypography) -> Seq<char> {
    match props.weight_binding {
        Some(b) => dynamic_call_text("doweDynamicTextWeight"@, b@),
        None => match props.weight {
            Some(v) => responsive_text(v, |w: TextWeight| text_weight_text(w)) + " ?: "@ + text_weight_text(
                TextWeight::Regular,
            ),
            None => if title {
                match props.size {
                    Some(v) => responsive_text(v, |t: TextTypography| text_weight_text(t.weight)) + " ?: "@
                        + text_weight_text(base.weight),
                    None => text_weight_text(base.weight),
                }
            } else {
                text_weight_text(TextWeight::Regular)
            },
        },
    }
}

/// The letter spacing of a text: the spacing its signal picks, else its
/// spacing with none as fallback; a title otherwise takes the spacing of its size.
pub open spec fn text_spacing_text(title: bool, props: TextProps, base: TextTypography) -> Seq<char> {
    match props.letter_spacing_binding {
        Some(b) => dynamic_call_text("doweDynamicTextSpacing"@, b@),
        None => match props.letter_spacing {
            Some(v) => responsive_text(v, |e: EmValue| em_text(e.0@)) + " ?: 0f.em"@,
            None => if title {
                match props.size {
                    Some(v) => responsive_text(v, |t: TextTypography| em_text(t.letter_spacing_em@)) + " ?: "@
                        + em_text(base.letter_spacing_em@),
                    None => em_text(base.letter_spacing_em@),
                }
            } else {
                "0f.em"@
            },
        },
    }
}

/// The color of a text: its color with the inherited title or content color as
/// fallback; without one, the title color for a title and none for a text.
pub open spec fn text_color_text(title: bool, props: TextProps) -> Seq<char> {
    match props.style.text {
        Some(v) => color_value_text(v) + " ?: "@ + (if title {
            "LocalDoweTitleColor.current"@
        } else {
            "LocalContentColor.current"@
        }),
        None => if title {
            "LocalDoweTitleColor.current"@
        } else {
            "Color.Unspecified"@
        },
    }
}

/// Whether no piece of a template is a binding.
pub open spec fn all_literal(segments: Seq<TextSegment>) -> bool {
    forall|i: int| 0 <= i < segments.len() ==> (#[trigger] segments[i]).binding is None
}

/// The Kotlin expression of a template piece: the state text of a binding with
/// a signal (from the current row inside a repeated view), the binding in
/// braces where it has none, or the literal text.
pub open spec fn segment_text(context: ComposeReactiveContext, segment: TextSegment) -> Seq<char> {
    match segment.binding {
        Some(b) => match lookup(context.dynamic_paths@, b@) {
            Some(path) => match lookup(context.item_values@, b@) {
                Some(item) => "state.text(\""@ + kotlin_escaped(path) + "\", "@ + item + ")"@,
                None => "state.text(\""@ + kotlin_escaped(path) + "\")"@,
            },
            None => "\"{"@ + kotlin_escaped(b@) + "}\""@,
        },
        None => "\""@ + kotlin_escaped(segment.literal@) + "\""@,
    }
}

/// The Kotlin expression of a shown text: its translation where it has one,
/// else the text itself where its template has no binding, else its pieces
/// joined with `+`.
pub open spec fn visible_text_text(
    context: ComposeReactiveContext,
    value: Seq<char>,
    i18n: Option<Seq<char>>,
    segments: Seq<TextSegment>,
) -> Seq<char> {
    match i18n {
        Some(resource) => "stringResource(R.string."@ + resource + ")"@,
        None => if all_literal(segments) {
            "\""@ + kotlin_escaped(value) + "\""@
        } else {
            join(Seq::new(segments.len(), |i: int| segment_text(context, segments[i])), " + "@)
        },
    }
}

/// The modifier of a text: an aligned text without a width fills the width.
pub open spec fn text_modifier_text(props: TextProps) -> Seq<char> {
    if props.align is Some && props.style.sizing.w is None {
        style_modifier_text(props.style, "Modifier.fillMaxWidth()"@)
    } else {
        style_modifier_text(props.style, "Modifier"@)
    }
}

/// The Compose `Text` call of a text or title at `indent`, with `base` the
/// typography of the default size for its level and `font` the font it uses.
pub open spec fn text_line(
    title: bool,
    props: TextProps,
    value: Seq<char>,
    segments: Seq<TextSegment>,
    base: TextTypography,
    font: Option<ResponsiveValue<FontFamily>>,
    default_family: FontFamily,
    indent: usize,
    context: ComposeReactiveContext,
) -> Seq<char> {
    let i18n = match props.i18n {
        Some(r) => Some(r@),
        None => None,
    };
    let size = text_size_text(props, base);
    let spacing = if title || props.letter_spacing is Some {
        ", letterSpacing = "@ + text_spacing_text(title, props, base)
    } else {
        Seq::empty()
    };
    let align = match props.align {
        Some(v) => ", textAlign = "@ + text_align_value_text(v),
        None => Seq::empty(),
    };
    spaces(indent as nat) + "Text("@ + visible_text_text(context, value, i18n, segments) + ", modifier = "@
        + text_modifier_text(props) + ", color = "@ + text_color_text(title, props) + ", fontSize = "@ + size
        + ", lineHeight = "@ + text_line_height_text(props, base, size) + ", fontFamily = "@ + font_value_text(
        font,
        default_family,
    ) + ", fontWeight = "@ + text_weight_expr_text(title, props, base) + spacing + align + ")\n"@
}

fn size_expr(t: &TextTypography) -> (res: String)
    ensures
        res@ == size_expr_text(*t),
{
    let mut out = String::from_str("doweTextSize(viewportWidth, min = ");
    out.append(t.font_size.min.digits.as_str());
    out.append("f, preferredBase = ");
    out.append(t.font_size.preferred_base.digits.as_str());
    out.append("f, preferredViewport = ");
    out.append(t.font_size.preferred_viewport.digits.as_str());
    out.append("f, max = ");
    out.append(t.font_size.max.digits.as_str());
    out.append("f)");
    out
}

fn line_height_expr(t: &TextTypography) -> (res: String)
    ensures
        res@ == line_height_expr_text(*t),
{
    let mut out = t.line_height.digits.clone();
    out.append("f");
    out
}

fn weight_of_typography(t: &TextTypography) -> (res: String)
    ensures
        res@ == text_weight_text(t.weight),
{
    String::from_str(compose_text_weight(t.weight))
}

fn weight_expr(w: &TextWeight) -> (res: String)
    ensures
        res@ == text_weight_text(*w),
{
    String::from_str(compose_text_weight(*w))
}

/// A letter spacing in em as a Kotlin `em` value.
pub fn compose_em(value: &str) -> (res: String)
    ensures
        res@ == em_text(value@),
{
    let negative = value.unicode_len() > 0 && value.get_char(0) == '-';
    if negative {
        let mut out = String::from_str("(");
        out.append(value);
        out.append("f).em");
        out
    } else {
        let mut out = String::from_str(value);
        out.append("f.em");
        out
    }
}

fn em_value_expr(e: &EmValue) -> (res: String)
    ensures
        res@ == em_text(e.0@),
{
    compose_em(e.0.as_str())
}

fn typography_spacing(t: &TextTypography) -> (res: String)
    ensures
        res@ == em_text(t.letter_spacing_em@),
{
    compose_em(t.letter_spacing_em.as_str())
}

fn dynamic_call(name: &str, binding: &str) -> (res: String)
    ensures
        res@ == dynamic_call_text(name@, binding@),
{
    let mut out = String::from_str(name);
    out.append("(state.text(\"");
    push_kotlin_escaped(&mut out, binding);
    out.append("\"))");
    out
}

/// The font size expression of a text.
pub fn text_size(props: &TextProps, base: &TextTypography) -> (res: String)
    ensures
        res@ == text_size_text(*props, *base),
{
    match &props.size_binding {
        Some(b) => dynamic_call("doweDynamicTextSize", b.as_str()),
        None => match &props.size {
            Some(v) => {
                let mut out = compose_responsive_value(v, size_expr, Ghost(|t: TextTypography| size_expr_text(t)));
                out.append(" ?: ");
                out.append(size_expr(base).as_str());
                out
            },
            None => size_expr(base),
        },
    }
}

/// The line height expression of a text for the font size expression `size`.
pub fn text_line_height(props: &TextProps, base: &TextTypography, size: &str) -> (res: String)
    ensures
        res@ == text_line_height_text(*props, *base, size@),
{
    let fallback = line_height_expr(base);
    let line = match &props.size {
        Some(v) => {
            let mut out = compose_responsive_value(
                v,
                line_height_expr,
                Ghost(|t: TextTypography| line_height_expr_text(t)),
            );
            out.append(" ?: ");
            out.append(fallback.as_str());
            out
        },
        None => fallback,
    };
    let mut out = String::from_str("doweTextLineHeight(");
    out.append(size);
    out.append(", ");
    out.append(line.as_str());
    out.append(")");
    out
}

/// The font weight expression of a text.
pub fn text_weight(title: bool, props: &TextProps, base: &TextTypography) -> (res: String)
    ensures
        res@ == text_weight_expr_text(title, *props, *base),
{
    match &props.weight_binding {
        Some(b) => dynamic_call("doweDynamicTextWeight", b.as_str()),
        None => match &props.weight {
            Some(v) => {
                let mut out = compose_responsive_value(v, weight_expr, Ghost(|w: TextWeight| text_weight_text(w)));
                out.append(" ?: ");
                out.append(compose_text_weight(TextWeight::Regular));
                out
            },
            None => if title {
                match &props.size {
                    Some(v) => {
                        let mut out = compose_responsive_value(
                            v,
                            weight_of_typography,
                            Ghost(|t: TextTypography| text_weight_text(t.weight)),
                        );
                        out.append(" ?: ");
                        out.append(compose_text_weight(base.weight));
                        out
                    },
                    None => String::from_str(compose_text_weight(base.weight)),
                }
            } else {
                String::from_str(compose_text_weight(TextWeight::Regular))
            },
        },
    }
}

/// The letter spacing expression of a text.
pub fn text_spacing(title: bool, props: &TextProps, base: &TextTypography) -> (res: String)
    ensures
        res@ == text_spacing_text(title, *props, *base),
{
    match &props.letter_spacing_binding {
        Some(b) => dynamic_call("doweDynamicTextSpacing", b.as_str()),
        None => match &props.letter_spacing {
            Some(v) => {
                let mut out = compose_responsive_value(v, em_value_expr, Ghost(|e: EmValue| em_text(e.0@)));
                out.append(" ?: 0f.em");
                out
            },
            None => if title {
                match &props.size {
                    Some(v) => {
                        let mut out = compose_responsive_value(
                            v,
                            typography_spacing,
                            Ghost(|t: TextTypography| em_text(t.letter_spacing_em@)),
                        );
                        out.append(" ?: ");
                        out.append(typography_spacing(base).as_str());
                        out
                    },
                    None => typography_spacing(base),
                }
            } else {
                String::from_str("0f.em")
            },
        },
    }
}

/// The color expression of a text.
pub fn text_color(title: bool, props: &TextProps) -> (res: String)
    ensures
        res@ == text_color_text(title, *props),
{
    match &props.style.text {
        Some(v) => {
            let mut out = compose_color_value(v);
            out.append(" ?: ");
            if title {
                out.append("LocalDoweTitleColor.current");
            } else {
                out.append("LocalContentColor.current");
            }
            out
        },
        None => if title {
            String::from_str("LocalDoweTitleColor.current")
        } else {
            String::from_str("Color.Unspecified")
        },
    }
}

fn compose_segment(segment: &TextSegment, context: &ComposeReactiveContext) -> (res: String)
    ensures
        res@ == segment_text(*context, *segment),
{
    match &segment.binding {
        Some(b) => match context.dynamic_path(b.as_str()) {
            Some(path) => {
                let mut out = String::from_str("state.text(\"");
                push_kotlin_escaped(&mut out, path.as_str());
                match context.item_value(b.as_str()) {
                    Some(item) => {
                        out.append("\", ");
                        out.append(item.as_str());
                        out.append(")");
                    },
                    None => {
                        out.append("\")");
                    },
                }
                out
            },
            None => {
                let mut out = String::from_str("\"{");
                push_kotlin_escaped(&mut out, b.as_str());
                out.append("}\"");
                out
            },
        },
        None => {
            let mut out = String::from_str("\"");
            push_kotlin_escaped(&mut out, segment.literal.as_str());
            out.append("\"");
            out
        },
    }
}

/// The Kotlin expression of a shown text, with `segments` the pieces of its template.
pub fn compose_visible_text_expression(
    value: &str,
    i18n: Option<&str>,
    segments: &[TextSegment],
    context: &ComposeReactiveContext,
) -> (res: String)
    ensures
        res@ == visible_text_text(*context, value@, crate::text::opt_view(i18n), segments@),
{
    match i18n {
        Some(resource) => {
            let mut out = String::from_str("stringResource(R.string.");
            out.append(resource);
            out.append(")");
            return out;
        },
        None => {},
    }
    let mut literal = true;
    let mut k: usize = 0;
    while k < segments.len()
        invariant
            k <= segments@.len(),
            literal == (forall|i: int| 0 <= i < k ==> (#[trigger] segments@[i]).binding is None),
        decreases segments@.len() - k,
    {
        if segments[k].binding.is_some() {
            literal = false;
        }
        k = k + 1;
    }
    if literal {
        let mut out = String::from_str("\"");
        push_kotlin_escaped(&mut out, value);
        out.append("\"");
        return out;
    }
    let mut parts: Vec<String> = Vec::new();
    let mut i: usize = 0;
    while i < segments.len()
        invariant
            i <= segments@.len(),
            parts@.len() == i,
            forall|j: int| 0 <= j < i ==> #[trigger] parts@[j]@ == segment_text(*context, segments@[j]),
        decreases segments@.len() - i,
    {
        parts.push(compose_segment(&segments[i], context));
        i = i + 1;
    }
    assert(string_views(parts@) =~= Seq::new(segments@.len(), |j: int| segment_text(*context, segments@[j])));
    let mut out = String::new();
    push_joined(&mut out, &parts, " + ");
    assert(out@ =~= join(string_views(parts@), " + "@));
    out
}

/// Writes the Compose `Text` call of a text or title at `indent`; `base` is the
/// typography of the default size for its level and `font` the font it uses.
pub fn render_compose_text(
    title: bool,
    props: &TextProps,
    value: &str,
    segments: &[TextSegment],
    base: &TextTypography,
    font: Option<&ResponsiveValue<FontFamily>>,
    indent: usize,
    output: &mut String,
    default_family: FontFamily,
    context: &ComposeReactiveContext,
)
    ensures
        final(output)@ == old(output)@ + text_line(
            title,
            *props,
            value@,
            segments@,
            *base,
            opt_ref(font),
            default_family,
            indent,
            *context,
        ),
{
    let i18n: Option<&str> = match &props.i18n {
        Some(r) => Some(r.as_str()),
        None => None,
    };
    let size = text_size(props, base);
    let mut line = pad(indent);
    line.append("Text(");
    line.append(compose_visible_text_expression(value, i18n, segments, context).as_str());
    line.append(", modifier = ");
    if props.align.is_some() && props.style.sizing.w.is_none() {
        line.append(modifier_for_style_with_base(&props.style, String::from_str("Modifier.fillMaxWidth()")).as_str());
    } else {
        line.append(modifier_for_style(&props.style).as_str());
    }
    line.append(", color = ");
    line.append(text_color(title, props).as_str());
    line.append(", fontSize = ");
    line.append(size.as_str());
    line.append(", lineHeight = ");
    line.append(text_line_height(props, base, size.as_str()).as_str());
    line.append(", fontFamily = ");
    line.append(compose_font_value(font, default_family).as_str());
    line.append(", fontWeight = ");
    line.append(text_weight(title, props, base).as_str());
    if title || props.letter_spacing.is_some() {
        line.append(", letterSpacing = ");
        line.append(text_spacing(title, props, base).as_str());
    }
    match &props.align {
        Some(v) => {
            line.append(", textAlign = ");
            line.append(compose_text_align(v).as_str());
        },
        None => {},
    }
    line.append(")\n");
    output.append(line.as_str());
}

/// The font of a text: its own where set, else the one it inherits.
pub open spec fn text_font_of(props: TextProps, inherited: Option<ResponsiveValue<FontFamily>>) -> Option<ResponsiveValue<FontFamily>> {
    if props.style.font is Some {
        props.style.font
    } else {
        inherited
    }
}

/// The Compose `Text` call of a text or title node that inherits `inherited` as its font.
pub open spec fn text_node_text(
    title: bool,
    props: TextProps,
    value: Seq<char>,
    segments: Seq<TextSegment>,
    base: TextTypography,
    inherited: Option<ResponsiveValue<FontFamily>>,
    default_family: FontFamily,
    indent: usize,
    context: ComposeReactiveContext,
) -> Seq<char> {
    text_line(title, props, value, segments, base, text_font_of(props, inherited), default_family, indent, context)
}

/// Writes a text or title node at `indent`: its own font where set, else the inherited one.
pub fn render_compose_text_node(
    title: bool,
    props: &TextProps,
    value: &str,
    segments: &[TextSegment],
    base: &TextTypography,
    inherited_font: Option<&ResponsiveValue<FontFamily>>,
    indent: usize,
    output: &mut String,
    default_family: FontFamily,
    context: &ComposeReactiveContext,
)
    ensures
        final(output)@ == old(output)@ + text_node_text(
            title,
            *props,
            value@,
            segments@,
            *base,
            opt_ref(inherited_font),
            default_family,
            indent,
            *context,
        ),
{
    let font = match &props.style.font {
        Some(f) => Some(f),
        None => inherited_font,
    };
    render_compose_text(title, props, value, segments, base, font, indent, output, default_family, context);
}

} // verus!
