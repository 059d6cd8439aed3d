//! Modifier chains, arrangements, alignments, radii and paddings of Compose
//! layouts, built from the style properties of a view.
use vstd::prelude::*;
use crate::text::{push_char, decimal_text, digit_char, join, kotlin_escaped, push_decimal, push_joined, push_kotlin_escaped, string_views};
use crate::style_values::{
    align_expr, animation_preset_text, bool_value_text, border_value_text, color_value_text, compose_animation_preset, compose_bool_value, compose_border_value, compose_color_value, compose_gap_value, compose_optional_align, compose_optional_gap, compose_optional_grid_alignment, compose_optional_justify, compose_optional_rounded, compose_optional_scale, compose_rounded_value, compose_responsive_value, compose_scale_value, dp_string, dp_text, gap_value_text, grid_alignment_expr, justify_expr, opt_ref, optional_text, responsive_text, rounded_value_text, scale_value_text, Align, BorderWidth, ColorToken, FontFamily, GapValue, GridAlignment, Justify, ResponsiveValue, RoundedSize, ScaleValue, ShadowSize, SizeValue, ViewAnimation, compose_shadow_value, shadow_size_dp,
};

verus! {

/// How a view is laid out by its parent.
#[derive(Debug, Clone, Copy, PartialEq, Eq, Structural)]
pub enum ComposeFlow {
    Block,
    Grid,
    Inline,
}

/// Properties common to every element: its section id, the signal it is bound
/// to, the action it runs when clicked, when it is shown, and the validation of
/// the form field it is.
#[derive(Debug, Clone)]
pub struct ElementProps {
    pub id: Option<String>,
    pub bind: Option<String>,
    pub on_click: Option<String>,
    pub show: Option<crate::values::VisibilityCondition>,
    pub validation: Option<FormValidation>,
}

/// The validation of a form field: its help and error texts and its rules.
#[derive(Debug, Clone)]
pub struct FormValidation {
    pub help_text: Option<String>,
    pub error_text: Option<String>,
    pub rules: Vec<ValidationRule>,
}

/// A validation rule: the name of its kind, the signal it must match (for a
/// rule that compares with another field), its argument, and its message.
#[derive(Debug, Clone)]
pub struct ValidationRule {
    pub kind: String,
    pub matches: Option<String>,
    pub argument: Option<String>,
    pub message: String,
}

/// Paddings: all sides, horizontal, vertical, and each side.
#[derive(Debug, Clone)]
pub struct SpacingProps {
    pub p: Option<ResponsiveValue<ScaleValue>>,
    pub px: Option<ResponsiveValue<ScaleValue>>,
    pub py: Option<ResponsiveValue<ScaleValue>>,
    pub pl: Option<ResponsiveValue<ScaleValue>>,
    pub pr: Option<ResponsiveValue<ScaleValue>>,
    pub pt: Option<ResponsiveValue<ScaleValue>>,
    pub pb: Option<ResponsiveValue<ScaleValue>>,
}

/// Widths and heights, and the signal a width may be bound to.
#[derive(Debug, Clone)]
pub struct SizingProps {
    pub w: Option<ResponsiveValue<SizeValue>>,
    pub w_binding: Option<String>,
    pub h: Option<ResponsiveValue<SizeValue>>,
    pub min_w: Option<ResponsiveValue<SizeValue>>,
    pub min_h: Option<ResponsiveValue<SizeValue>>,
    pub max_w: Option<ResponsiveValue<SizeValue>>,
    pub max_h: Option<ResponsiveValue<SizeValue>>,
}

/// A number as it is written in Kotlin source, such as `45` or `1.05`.
#[derive(Debug, Clone)]
pub struct NumberText {
    pub digits: String,
}

/// How a view is turned, scaled, moved and handled: its rotation in degrees,
/// its scale factor, its offsets, the name of its gesture (one other than none)
/// and the name of the transition of that gesture.
#[derive(Debug, Clone)]
pub struct MotionProps {
    pub rotate: Option<ResponsiveValue<NumberText>>,
    pub scale: Option<ResponsiveValue<NumberText>>,
    pub translate_x: Option<ResponsiveValue<ScaleValue>>,
    pub translate_y: Option<ResponsiveValue<ScaleValue>>,
    pub gesture: Option<String>,
    pub transition: Option<String>,
}

/// A style property bound to a signal: the name of the property and the path of the signal.
#[derive(Debug, Clone)]
pub struct StyleBinding {
    pub property: String,
    pub path: String,
}

/// The style properties of a view.
#[derive(Debug, Clone)]
pub struct StyleProps {
    pub element: ElementProps,
    pub bg: Option<ResponsiveValue<ColorToken>>,
    pub text: Option<ResponsiveValue<ColorToken>>,
    pub spacing: SpacingProps,
    pub sizing: SizingProps,
    pub rounded: Option<ResponsiveValue<RoundedSize>>,
    pub border: Option<ResponsiveValue<BorderWidth>>,
    pub border_color: Option<ColorToken>,
    pub shadow: Option<ResponsiveValue<ShadowSize>>,
    pub shadow_color: Option<ColorToken>,
    pub motion: MotionProps,
    pub bindings: Vec<StyleBinding>,
    pub animation: Option<ViewAnimation>,
    pub center_y: Option<ResponsiveValue<bool>>,
    pub font: Option<ResponsiveValue<FontFamily>>,
}

/// The decimal text of `v / 100` as a Kotlin float literal is written: the whole
/// part, then the hundredths without trailing zeros.
pub open spec fn hundredths_text(v: nat) -> Seq<char> {
    let frac = v % 100;
    if frac == 0 {
        decimal_text(v / 100)
    } else if frac % 10 == 0 {
        decimal_text(v / 100) + seq!['.', digit_char(frac / 10)]
    } else {
        decimal_text(v / 100) + seq!['.', digit_char(frac / 10), digit_char(frac % 10)]
    }
}

fn push_hundredths(out: &mut String, v: u16)
    ensures
        final(out)@ == old(out)@ + hundredths_text(v as nat),
{
    push_decimal(out, (v / 100) as u64);
    let frac = v % 100;
    if frac != 0 {
        let mut tail = String::new();
        push_char(&mut tail, '.');
        push_decimal(&mut tail, (frac / 10) as u64);
        if frac % 10 != 0 {
            push_decimal(&mut tail, (frac % 10) as u64);
        }
        assert(decimal_text((frac / 10) as nat) == seq![digit_char((frac / 10) as nat)]);
        assert(decimal_text((frac % 10) as nat) == seq![digit_char((frac % 10) as nat)]);
        out.append(tail.as_str());
    }
}

/// The Kotlin size of a width or height value.
pub open spec fn size_expr_text(value: SizeValue) -> Seq<char> {
    match value {
        SizeValue::Scale(s) => "DoweSize.Fixed("@ + dp_text(s.native_units as nat) + ")"@,
        SizeValue::Container(s) => "DoweSize.Fixed("@ + dp_text(s.native_units as nat) + ")"@,
        SizeValue::Percent(p) => "DoweSize.Percent("@ + hundredths_text(p as nat) + "f)"@,
        SizeValue::Full => "DoweSize.Full"@,
        SizeValue::Auto => "DoweSize.Auto"@,
        SizeValue::ViewportMinus(s) => "DoweSize.ViewportMinus("@ + dp_text(s.native_units as nat) + ")"@,
    }
}

fn size_expr_string(value: &SizeValue) -> (res: String)
    ensures
        res@ == size_expr_text(*value),
{
    match value {
        SizeValue::Scale(s) => {
            let mut out = String::from_str("DoweSize.Fixed(");
            out.append(dp_string(s.native_units).as_str());
            out.append(")");
            out
        },
        SizeValue::Container(s) => {
            let mut out = String::from_str("DoweSize.Fixed(");
            out.append(dp_string(s.native_units).as_str());
            out.append(")");
            out
        },
        SizeValue::Percent(p) => {
            let mut out = String::from_str("DoweSize.Percent(");
            push_hundredths(&mut out, *p);
            out.append("f)");
            out
        },
        SizeValue::Full => String::from_str("DoweSize.Full"),
        SizeValue::Auto => String::from_str("DoweSize.Auto"),
        SizeValue::ViewportMinus(s) => {
            let mut out = String::from_str("DoweSize.ViewportMinus(");
            out.append(dp_string(s.native_units).as_str());
            out.append(")");
            out
        },
    }
}

/// The Kotlin expression of a responsive width or height.
pub open spec fn size_value_text(value: ResponsiveValue<SizeValue>) -> Seq<char> {
    responsive_text(value, |v: SizeValue| size_expr_text(v))
}

/// The Kotlin expression of a responsive width or height.
pub fn compose_size_value(value: &ResponsiveValue<SizeValue>) -> (res: String)
    ensures
        res@ == size_value_text(*value),
{
    compose_responsive_value(value, size_expr_string, Ghost(|v: SizeValue| size_expr_text(v)))
}

} // verus!

verus! {

/// A piece of text that is there only when `cond` holds.
pub open spec fn text_if(cond: bool, text: Seq<char>) -> Seq<char> {
    if cond {
        text
    } else {
        Seq::empty()
    }
}

/// Whether any padding is set.
pub open spec fn has_padding(s: SpacingProps) -> bool {
    s.p is Some || s.px is Some || s.py is Some || s.pl is Some || s.pr is Some || s.pt is Some
        || s.pb is Some
}

/// The optional scale text of a padding value.
pub open spec fn opt_scale_text(value: Option<ResponsiveValue<ScaleValue>>) -> Seq<char> {
    optional_text(value, |v: ResponsiveValue<ScaleValue>| scale_value_text(v))
}

/// The padding modifier of the spacing properties.
pub open spec fn padding_modifier_text(s: SpacingProps) -> Seq<char> {
    ".dowePadding(all = "@ + opt_scale_text(s.p) + ", horizontal = "@ + opt_scale_text(s.px)
        + ", vertical = "@ + opt_scale_text(s.py) + ", start = "@ + opt_scale_text(s.pl)
        + ", end = "@ + opt_scale_text(s.pr) + ", top = "@ + opt_scale_text(s.pt) + ", bottom = "@
        + opt_scale_text(s.pb) + ")"@
}

/// A size modifier `<name>(<size>)` where the size is set.
#[verifier::opaque]
pub open spec fn size_modifier_text(name: Seq<char>, value: Option<ResponsiveValue<SizeValue>>) -> Seq<char> {
    match value {
        Some(v) => name + size_value_text(v) + ")"@,
        None => Seq::empty(),
    }
}

/// The section modifier of an element id.
pub open spec fn section_modifier_text(id: Option<String>) -> Seq<char> {
    match id {
        Some(id) => ".doweSection(sectionRegistry, \""@ + kotlin_escaped(id@) + "\")"@,
        None => Seq::empty(),
    }
}

/// The background modifier of a background color.
pub open spec fn background_modifier_text(bg: Option<ResponsiveValue<ColorToken>>) -> Seq<char> {
    match bg {
        Some(v) => ".doweBackground("@ + color_value_text(v) + ")"@,
        None => Seq::empty(),
    }
}

/// The corner modifier of a corner radius.
pub open spec fn rounded_modifier_text(rounded: Option<ResponsiveValue<RoundedSize>>) -> Seq<char> {
    match rounded {
        Some(v) => ".doweRounded("@ + rounded_value_text(v) + ")"@,
        None => Seq::empty(),
    }
}

/// The radius of a view as an optional Kotlin expression, `null` without one.
pub open spec fn opt_rounded_text(rounded: Option<ResponsiveValue<RoundedSize>>) -> Seq<char> {
    optional_text(rounded, |r: ResponsiveValue<RoundedSize>| rounded_value_text(r))
}

/// The border modifier of a border width, in its color (the background text
/// color by default) and with the corner radius of the view.
#[verifier::opaque]
pub open spec fn border_modifier_text(
    border: Option<ResponsiveValue<BorderWidth>>,
    color: Option<ColorToken>,
    rounded: Option<ResponsiveValue<RoundedSize>>,
) -> Seq<char> {
    match border {
        Some(v) => ".border("@ + border_value_text(v) + " ?: 0.dp, "@ + (match color {
            Some(c) => c.reference@,
            None => "DoweDesign.backgroundText"@,
        }) + ", RoundedCornerShape("@ + opt_rounded_text(rounded) + " ?: DoweDesign.radius))"@,
        None => Seq::empty(),
    }
}

/// The shadow modifier of a shadow size: its radius, the given shape or else the
/// view's rounded corners, and its color (black by default, at a fixed alpha
/// when a color is set).
#[verifier::opaque]
pub open spec fn shadow_modifier_text(
    shadow: Option<ResponsiveValue<ShadowSize>>,
    color: Option<ColorToken>,
    rounded: Option<ResponsiveValue<RoundedSize>>,
    shape: Option<Seq<char>>,
) -> Seq<char> {
    match shadow {
        Some(v) => ".doweShadow(radius = "@ + responsive_text(v, |x: ShadowSize| dp_text(shadow_size_dp(x) as nat))
            + " ?: 0.dp, shape = "@ + (match shape {
            Some(sh) => sh,
            None => "RoundedCornerShape("@ + opt_rounded_text(rounded) + " ?: DoweDesign.radius)"@,
        }) + ", color = "@ + (match color {
            Some(c) => c.reference@,
            None => "Color.Black"@,
        }) + ", alpha = "@ + (match color {
            Some(_) => "0.28f"@,
            None => "null"@,
        }) + ")"@,
        None => Seq::empty(),
    }
}

/// A number as a Kotlin float literal.
pub open spec fn float_literal_text(n: NumberText) -> Seq<char> {
    n.digits@ + "f"@
}

/// A responsive number with its fallback, or the fallback alone.
pub open spec fn motion_number_text(value: Option<ResponsiveValue<NumberText>>, fallback: Seq<char>) -> Seq<char> {
    match value {
        Some(v) => responsive_text(v, |n: NumberText| float_literal_text(n)) + " ?: "@ + fallback,
        None => fallback,
    }
}

/// A responsive offset in pixels, or `0f`.
pub open spec fn motion_offset_text(value: Option<ResponsiveValue<ScaleValue>>) -> Seq<char> {
    match value {
        Some(v) => "("@ + scale_value_text(v) + " ?: 0.dp).toPx()"@,
        None => "0f"@,
    }
}

/// The transform modifier of a view that is turned, scaled or moved.
#[verifier::opaque]
pub open spec fn motion_modifier_text(m: MotionProps) -> Seq<char> {
    text_if(
        m.rotate is Some || m.scale is Some || m.translate_x is Some || m.translate_y is Some,
        ".graphicsLayer { rotationZ = "@ + motion_number_text(m.rotate, "0f"@) + "; scaleX = "@
            + motion_number_text(m.scale, "1f"@) + "; scaleY = "@ + motion_number_text(m.scale, "1f"@)
            + "; translationX = "@ + motion_offset_text(m.translate_x) + "; translationY = "@
            + motion_offset_text(m.translate_y) + " }"@,
    )
}

/// A letter in upper case when it is a lower-case ASCII letter.
pub open spec fn ascii_upper(c: char) -> char {
    if 'a' <= c && c <= 'z' {
        ((c as int) - 32) as char
    } else {
        c
    }
}

/// A name with its first letter in upper case.
pub open spec fn title_case_text(value: Seq<char>) -> Seq<char> {
    if value.len() == 0 {
        Seq::empty()
    } else {
        seq![ascii_upper(value[0])] + value.subrange(1, value.len() as int)
    }
}

/// The gesture modifier of a view with a gesture, with its transition (smooth by default).
#[verifier::opaque]
pub open spec fn gesture_modifier_text(m: MotionProps) -> Seq<char> {
    match m.gesture {
        Some(g) => ".doweGesture(DoweGesturePreset."@ + title_case_text(g@) + ", DoweTransitionPreset."@
            + title_case_text(match m.transition {
            Some(t) => t@,
            None => "smooth"@,
        }) + ")"@,
        None => Seq::empty(),
    }
}

/// The modifier of a style property bound to a signal.
pub open spec fn binding_modifier_text(b: StyleBinding) -> Seq<char> {
    ".doweReactiveStyle(\""@ + b.property@ + "\", state.text(\""@ + kotlin_escaped(b.path@) + "\"))"@
}

/// The modifiers of the bound style properties, one after the other.
pub open spec fn bindings_text(bindings: Seq<StyleBinding>) -> Seq<char>
    decreases bindings.len(),
{
    if bindings.len() == 0 {
        Seq::empty()
    } else {
        bindings_text(bindings.drop_last()) + binding_modifier_text(bindings.last())
    }
}

/// The animation modifier of an entrance animation.
pub open spec fn animation_modifier_text(animation: Option<ViewAnimation>) -> Seq<char> {
    match animation {
        Some(a) => ".doweAnimation("@ + animation_preset_text(a) + ")"@,
        None => Seq::empty(),
    }
}

/// The first modifiers a view's style adds, with the given paddings, corner
/// radius and shadow shape: section, shadow, corners, background and padding, in this order.
pub open spec fn style_head_text(props: StyleProps, spacing: SpacingProps, rounded: Option<ResponsiveValue<RoundedSize>>, shadow_shape: Option<Seq<char>>) -> Seq<char> {
    section_modifier_text(props.element.id) + shadow_modifier_text(props.shadow, props.shadow_color, rounded, shadow_shape)
        + rounded_modifier_text(rounded) + background_modifier_text(props.bg)
        + text_if(has_padding(spacing), padding_modifier_text(spacing))
}

/// The size modifiers of a view: its largest, set, and smallest width and height.
pub open spec fn sizes_modifier_text(sizing: SizingProps) -> Seq<char> {
    size_modifier_text(".doweMaxWidth("@, sizing.max_w) + size_modifier_text(".doweMaxHeight("@, sizing.max_h)
        + size_modifier_text(".doweWidth("@, sizing.w) + size_modifier_text(".doweHeight("@, sizing.h)
        + size_modifier_text(".doweMinWidth("@, sizing.min_w) + size_modifier_text(".doweMinHeight("@, sizing.min_h)
}

/// The last modifiers a view's style adds, with the given corner radius: sizes,
/// border, transform, gesture and animation, in this order.
pub open spec fn style_tail_text(props: StyleProps, rounded: Option<ResponsiveValue<RoundedSize>>) -> Seq<char> {
    sizes_modifier_text(props.sizing) + border_modifier_text(props.border, props.border_color, rounded) + motion_modifier_text(props.motion)
        + gesture_modifier_text(props.motion) + animation_modifier_text(props.animation)
}

/// The modifiers a view's style adds, with the given paddings, corner radius and shadow shape.
#[verifier::opaque]
pub open spec fn style_suffix_with(props: StyleProps, spacing: SpacingProps, rounded: Option<ResponsiveValue<RoundedSize>>, shadow_shape: Option<Seq<char>>) -> Seq<char> {
    style_head_text(props, spacing, rounded, shadow_shape) + style_tail_text(props, rounded)
}

/// The modifiers a view's style adds, with the given paddings and shadow shape.
pub open spec fn style_suffix_text(props: StyleProps, spacing: SpacingProps, shadow_shape: Option<Seq<char>>) -> Seq<char> {
    style_suffix_with(props, spacing, props.rounded, shadow_shape)
}

/// The modifier chain of a view's style after the given base, with the given
/// shadow shape (else its rounded corners).
pub open spec fn shadow_chain_text(props: StyleProps, base: Seq<char>, shadow_shape: Option<Seq<char>>) -> Seq<char> {
    base + style_suffix_text(props, props.spacing, shadow_shape)
}

/// The modifier chain of a view's style after the given base, with the given
/// paddings, followed by the modifiers of its bound properties.
#[verifier::opaque]
pub open spec fn style_chain_text(props: StyleProps, spacing: SpacingProps, base: Seq<char>) -> Seq<char> {
    base + style_suffix_text(props, spacing, None) + bindings_text(props.bindings@)
}

/// The modifier chain of a view's style after the given base.
pub open spec fn style_modifier_text(props: StyleProps, base: Seq<char>) -> Seq<char> {
    style_chain_text(props, props.spacing, base)
}

fn padding_modifier(s: &SpacingProps) -> (res: String)
    ensures
        res@ == padding_modifier_text(*s),
{
    let mut out = String::from_str(".dowePadding(all = ");
    out.append(compose_optional_scale(s.p.as_ref()).as_str());
    out.append(", horizontal = ");
    out.append(compose_optional_scale(s.px.as_ref()).as_str());
    out.append(", vertical = ");
    out.append(compose_optional_scale(s.py.as_ref()).as_str());
    out.append(", start = ");
    out.append(compose_optional_scale(s.pl.as_ref()).as_str());
    out.append(", end = ");
    out.append(compose_optional_scale(s.pr.as_ref()).as_str());
    out.append(", top = ");
    out.append(compose_optional_scale(s.pt.as_ref()).as_str());
    out.append(", bottom = ");
    out.append(compose_optional_scale(s.pb.as_ref()).as_str());
    out.append(")");
    out
}

fn append_size_modifier(out: &mut String, name: &str, value: Option<&ResponsiveValue<SizeValue>>)
    ensures
        final(out)@ == old(out)@ + size_modifier_text(name@, opt_ref(value)),
{
    reveal(size_modifier_text);
    match value {
        Some(v) => {
            let mut part = String::from_str(name);
            part.append(compose_size_value(v).as_str());
            part.append(")");
            out.append(part.as_str());
        },
        None => {
            assert(old(out)@ + Seq::<char>::empty() =~= old(out)@);
        },
    }
}

fn number_expr_string(n: &NumberText) -> (res: String)
    ensures
        res@ == float_literal_text(*n),
{
    let mut out = n.digits.clone();
    out.append("f");
    out
}

fn motion_number(value: Option<&ResponsiveValue<NumberText>>, fallback: &str) -> (res: String)
    ensures
        res@ == motion_number_text(opt_ref(value), fallback@),
{
    match value {
        Some(v) => {
            let mut out = compose_responsive_value(v, number_expr_string, Ghost(|n: NumberText| float_literal_text(n)));
            out.append(" ?: ");
            out.append(fallback);
            out
        },
        None => String::from_str(fallback),
    }
}

fn motion_offset(value: Option<&ResponsiveValue<ScaleValue>>) -> (res: String)
    ensures
        res@ == motion_offset_text(opt_ref(value)),
{
    match value {
        Some(v) => {
            let mut out = String::from_str("(");
            out.append(compose_scale_value(v).as_str());
            out.append(" ?: 0.dp).toPx()");
            out
        },
        None => String::from_str("0f"),
    }
}

fn upper_ascii(c: char) -> (res: char)
    ensures
        res == ascii_upper(c),
{
    match c {
        'a' => 'A', 'b' => 'B', 'c' => 'C', 'd' => 'D', 'e' => 'E', 'f' => 'F', 'g' => 'G', 'h' => 'H', 'i' => 'I',
        'j' => 'J', 'k' => 'K', 'l' => 'L', 'm' => 'M', 'n' => 'N', 'o' => 'O', 'p' => 'P', 'q' => 'Q', 'r' => 'R',
        's' => 'S', 't' => 'T', 'u' => 'U', 'v' => 'V', 'w' => 'W', 'x' => 'X', 'y' => 'Y', 'z' => 'Z',
        _ => c,
    }
}

/// The name with its first letter in upper case when it is a lower-case ASCII letter.
pub fn title_case(value: &str) -> (res: String)
    ensures
        res@ == title_case_text(value@),
{
    let n = value.unicode_len();
    let mut out = String::new();
    if n == 0 {
        return out;
    }
    push_char(&mut out, upper_ascii(value.get_char(0)));
    let mut i: usize = 1;
    while i < n
        invariant
            n == value@.len(),
            1 <= i <= n,
            out@ == seq![ascii_upper(value@[0])] + value@.subrange(1, i as int),
        decreases n - i,
    {
        let c = value.get_char(i);
        push_char(&mut out, c);
        assert(value@.subrange(1, i + 1) =~= value@.subrange(1, i as int).push(c));
        i = i + 1;
    }
    out
}

fn append_motion(out: &mut String, m: &MotionProps)
    ensures
        final(out)@ == old(out)@ + motion_modifier_text(*m) + gesture_modifier_text(*m),
{
    reveal(motion_modifier_text);
    reveal(gesture_modifier_text);
    let ghost start = out@;
    if m.rotate.is_some() || m.scale.is_some() || m.translate_x.is_some() || m.translate_y.is_some() {
        let scale = motion_number(m.scale.as_ref(), "1f");
        let mut part = String::from_str(".graphicsLayer { rotationZ = ");
        part.append(motion_number(m.rotate.as_ref(), "0f").as_str());
        part.append("; scaleX = ");
        part.append(scale.as_str());
        part.append("; scaleY = ");
        part.append(scale.as_str());
        part.append("; translationX = ");
        part.append(motion_offset(m.translate_x.as_ref()).as_str());
        part.append("; translationY = ");
        part.append(motion_offset(m.translate_y.as_ref()).as_str());
        part.append(" }");
        out.append(part.as_str());
    }
    assert(out@ =~= start + motion_modifier_text(*m));
    let ghost s1 = out@;
    if let Some(g) = m.gesture.as_ref() {
        let mut part = String::from_str(".doweGesture(DoweGesturePreset.");
        part.append(title_case(g.as_str()).as_str());
        part.append(", DoweTransitionPreset.");
        let transition = match m.transition.as_ref() {
            Some(t) => title_case(t.as_str()),
            None => title_case("smooth"),
        };
        part.append(transition.as_str());
        part.append(")");
        out.append(part.as_str());
    }
    assert(out@ =~= s1 + gesture_modifier_text(*m));
}

fn append_shadow(out: &mut String, props: &StyleProps, rounded: Option<&ResponsiveValue<RoundedSize>>, shadow_shape: Option<&str>)
    ensures
        final(out)@ == old(out)@ + shadow_modifier_text(props.shadow, props.shadow_color, opt_ref(rounded), crate::text::opt_view(shadow_shape)),
{
    reveal(shadow_modifier_text);
    match props.shadow.as_ref() {
        Some(v) => {
            let mut part = String::from_str(".doweShadow(radius = ");
            part.append(compose_shadow_value(v).as_str());
            part.append(" ?: 0.dp, shape = ");
            match shadow_shape {
                Some(sh) => part.append(sh),
                None => {
                    part.append("RoundedCornerShape(");
                    part.append(compose_optional_rounded(rounded).as_str());
                    part.append(" ?: DoweDesign.radius)");
                },
            }
            part.append(", color = ");
            match props.shadow_color.as_ref() {
                Some(c) => {
                    part.append(c.reference.as_str());
                    part.append(", alpha = ");
                    part.append("0.28f");
                },
                None => {
                    part.append("Color.Black");
                    part.append(", alpha = ");
                    part.append("null");
                },
            }
            part.append(")");
            out.append(part.as_str());
        },
        None => {
            assert(old(out)@ + Seq::<char>::empty() =~= old(out)@);
        },
    }
}

fn append_border(out: &mut String, props: &StyleProps, rounded: Option<&ResponsiveValue<RoundedSize>>)
    ensures
        final(out)@ == old(out)@ + border_modifier_text(props.border, props.border_color, opt_ref(rounded)),
{
    reveal(border_modifier_text);
    match props.border.as_ref() {
        Some(v) => {
            let mut part = String::from_str(".border(");
            part.append(compose_border_value(v).as_str());
            part.append(" ?: 0.dp, ");
            match props.border_color.as_ref() {
                Some(c) => part.append(c.reference.as_str()),
                None => part.append("DoweDesign.backgroundText"),
            }
            part.append(", RoundedCornerShape(");
            part.append(compose_optional_rounded(rounded).as_str());
            part.append(" ?: DoweDesign.radius))");
            out.append(part.as_str());
        },
        None => {
            assert(old(out)@ + Seq::<char>::empty() =~= old(out)@);
        },
    }
}

fn append_bindings(out: &mut String, bindings: &Vec<StyleBinding>)
    ensures
        final(out)@ == old(out)@ + bindings_text(bindings@),
{
    let ghost start = out@;
    let mut i: usize = 0;
    while i < bindings.len()
        invariant
            i <= bindings@.len(),
            out@ == start + bindings_text(bindings@.take(i as int)),
        decreases bindings@.len() - i,
    {
        let b = &bindings[i];
        let mut part = String::from_str(".doweReactiveStyle(\"");
        part.append(b.property.as_str());
        part.append("\", state.text(\"");
        push_kotlin_escaped(&mut part, b.path.as_str());
        part.append("\"))");
        out.append(part.as_str());
        assert(bindings@.take(i + 1).drop_last() =~= bindings@.take(i as int));
        i = i + 1;
    }
    assert(bindings@.take(bindings@.len() as int) =~= bindings@);
}

#[verifier::spinoff_prover]
#[verifier::rlimit(30)]
fn append_style_head(out: &mut String, props: &StyleProps, spacing: &SpacingProps, rounded: Option<&ResponsiveValue<RoundedSize>>, shadow_shape: Option<&str>)
    ensures
        final(out)@ == old(out)@ + style_head_text(*props, *spacing, opt_ref(rounded), crate::text::opt_view(shadow_shape)),
{
    let ghost start = out@;
    if let Some(id) = props.element.id.as_ref() {
        let mut part = String::from_str(".doweSection(sectionRegistry, \"");
        push_kotlin_escaped(&mut part, id.as_str());
        part.append("\")");
        out.append(part.as_str());
    }
    assert(out@ =~= start + section_modifier_text(props.element.id));
    append_shadow(out, props, rounded, shadow_shape);
    let ghost s1 = out@;
    if let Some(value) = rounded {
        let mut part = String::from_str(".doweRounded(");
        part.append(compose_rounded_value(value).as_str());
        part.append(")");
        out.append(part.as_str());
    }
    assert(out@ =~= s1 + rounded_modifier_text(opt_ref(rounded)));
    let ghost s2 = out@;
    if let Some(value) = props.bg.as_ref() {
        let mut part = String::from_str(".doweBackground(");
        part.append(compose_color_value(value).as_str());
        part.append(")");
        out.append(part.as_str());
    }
    assert(out@ =~= s2 + background_modifier_text(props.bg));
    let ghost s3 = out@;
    if spacing.p.is_some() || spacing.px.is_some() || spacing.py.is_some() || spacing.pl.is_some()
        || spacing.pr.is_some() || spacing.pt.is_some() || spacing.pb.is_some() {
        out.append(padding_modifier(spacing).as_str());
    }
    assert(out@ =~= s3 + text_if(has_padding(*spacing), padding_modifier_text(*spacing)));
    assert(out@ =~= start + style_head_text(*props, *spacing, opt_ref(rounded), crate::text::opt_view(shadow_shape)));
}

fn append_sizes(out: &mut String, sizing: &SizingProps)
    ensures
        final(out)@ == old(out)@ + sizes_modifier_text(*sizing),
{
    let ghost start = out@;
    append_size_modifier(out, ".doweMaxWidth(", sizing.max_w.as_ref());
    append_size_modifier(out, ".doweMaxHeight(", sizing.max_h.as_ref());
    append_size_modifier(out, ".doweWidth(", sizing.w.as_ref());
    append_size_modifier(out, ".doweHeight(", sizing.h.as_ref());
    append_size_modifier(out, ".doweMinWidth(", sizing.min_w.as_ref());
    append_size_modifier(out, ".doweMinHeight(", sizing.min_h.as_ref());
    assert(out@ =~= start + sizes_modifier_text(*sizing));
}

#[verifier::spinoff_prover]
#[verifier::rlimit(30)]
fn append_style_tail(out: &mut String, props: &StyleProps, rounded: Option<&ResponsiveValue<RoundedSize>>)
    ensures
        final(out)@ == old(out)@ + style_tail_text(*props, opt_ref(rounded)),
{
    let ghost start = out@;
    append_sizes(out, &props.sizing);
    append_border(out, props, rounded);
    append_motion(out, &props.motion);
    let ghost s7 = out@;
    if let Some(animation) = props.animation {
        let mut part = String::from_str(".doweAnimation(");
        part.append(compose_animation_preset(animation));
        part.append(")");
        out.append(part.as_str());
    }
    assert(out@ =~= s7 + animation_modifier_text(props.animation));
    assert(out@ =~= start + style_tail_text(*props, opt_ref(rounded)));
}

/// Appends the modifiers a view's style adds, with the given paddings, corner
/// radius and shadow shape.
pub fn append_style_suffix_with(
    out: &mut String,
    props: &StyleProps,
    spacing: &SpacingProps,
    rounded: Option<&ResponsiveValue<RoundedSize>>,
    shadow_shape: Option<&str>,
)
    ensures
        final(out)@ == old(out)@ + style_suffix_with(*props, *spacing, opt_ref(rounded), crate::text::opt_view(shadow_shape)),
{
    reveal(style_suffix_with);
    let ghost start = out@;
    append_style_head(out, props, spacing, rounded, shadow_shape);
    append_style_tail(out, props, rounded);
    assert(out@ =~= start + style_suffix_with(*props, *spacing, opt_ref(rounded), crate::text::opt_view(shadow_shape)));
}

fn append_style_suffix(out: &mut String, props: &StyleProps, spacing: &SpacingProps, shadow_shape: Option<&str>)
    ensures
        final(out)@ == old(out)@ + style_suffix_text(*props, *spacing, crate::text::opt_view(shadow_shape)),
{
    append_style_suffix_with(out, props, spacing, props.rounded.as_ref(), shadow_shape);
}

fn append_style_chain(out: &mut String, props: &StyleProps, spacing: &SpacingProps)
    ensures
        final(out)@ == style_chain_text(*props, *spacing, old(out)@),
{
    reveal(style_chain_text);
    append_style_suffix(out, props, spacing, None);
    append_bindings(out, &props.bindings);
}

/// The modifier chain of a view's style appended to `modifier`, with the given
/// shadow shape (else its rounded corners); without its bound properties.
pub fn modifier_for_style_with_base_and_shadow_shape(props: &StyleProps, modifier: String, shadow_shape: Option<&str>) -> (res: String)
    ensures
        res@ == shadow_chain_text(*props, modifier@, crate::text::opt_view(shadow_shape)),
{
    let mut out = modifier;
    append_style_suffix(&mut out, props, &props.spacing, shadow_shape);
    out
}

/// The modifier chain of a view's style from `Modifier`, its shadow in the given shape.
pub fn modifier_for_style_with_shadow_shape(props: &StyleProps, shadow_shape: &str) -> (res: String)
    ensures
        res@ == shadow_chain_text(*props, "Modifier"@, Some(shadow_shape@)),
{
    modifier_for_style_with_base_and_shadow_shape(props, String::from_str("Modifier"), Some(shadow_shape))
}

/// The modifier chain of an avatar: its style, its shadow round.
pub fn modifier_for_avatar_style(props: &StyleProps) -> (res: String)
    ensures
        res@ == shadow_chain_text(*props, "Modifier"@, Some("RoundedCornerShape(999.dp)"@)),
{
    modifier_for_style_with_base_and_shadow_shape(props, String::from_str("Modifier"), Some("RoundedCornerShape(999.dp)"))
}

/// The modifier chain of a view's style appended to `modifier`, followed by the
/// modifiers of its bound properties.
pub fn modifier_for_style_with_base(props: &StyleProps, modifier: String) -> (res: String)
    ensures
        res@ == style_modifier_text(*props, modifier@),
{
    let mut out = modifier;
    append_style_chain(&mut out, props, &props.spacing);
    out
}

/// The modifier chain of a view's style, starting from `Modifier`.
pub fn modifier_for_style(props: &StyleProps) -> (res: String)
    ensures
        res@ == style_modifier_text(*props, "Modifier"@),
{
    modifier_for_style_with_base(props, String::from_str("Modifier"))
}

/// The base modifier of a container: it fills the width in a block flow
/// unless a width is set.
pub open spec fn container_base_text(props: StyleProps, flow: ComposeFlow) -> Seq<char> {
    "Modifier"@ + text_if(flow == ComposeFlow::Block && props.sizing.w is None, ".fillMaxWidth()"@)
}

fn container_base(props: &StyleProps, flow: ComposeFlow) -> (res: String)
    ensures
        res@ == container_base_text(*props, flow),
{
    let mut out = String::from_str("Modifier");
    if flow == ComposeFlow::Block && props.sizing.w.is_none() {
        out.append(".fillMaxWidth()");
    } else {
        assert(out@ =~= out@ + Seq::<char>::empty());
    }
    out
}

/// The modifier chain of a container view.
#[verifier::opaque]
pub open spec fn container_modifier_text(props: StyleProps, flow: ComposeFlow) -> Seq<char> {
    style_modifier_text(props, container_base_text(props, flow))
}

/// The modifier chain of a container view: it fills the width in a block flow
/// unless a width is set, then carries the view's style.
pub fn modifier_for_container_style(props: &StyleProps, flow: ComposeFlow) -> (res: String)
    ensures
        res@ == container_modifier_text(*props, flow),
{
    reveal(container_modifier_text);
    modifier_for_style_with_base(props, container_base(props, flow))
}

/// Spacing without any padding.
pub open spec fn no_spacing() -> SpacingProps {
    SpacingProps { p: None, px: None, py: None, pl: None, pr: None, pt: None, pb: None }
}

/// The modifier chain of the outer container of a section: that of a container
/// whose paddings are dropped (the section content carries them).
pub open spec fn section_container_text(props: StyleProps, flow: ComposeFlow) -> Seq<char> {
    style_chain_text(props, no_spacing(), container_base_text(props, flow))
}

/// The modifier chain of the outer container of a section: a container without paddings.
pub fn modifier_for_section_container(props: &StyleProps, flow: ComposeFlow) -> (res: String)
    ensures
        res@ == section_container_text(*props, flow),
{
    let spacing = SpacingProps { p: None, px: None, py: None, pl: None, pr: None, pt: None, pb: None };
    let mut out = container_base(props, flow);
    append_style_chain(&mut out, props, &spacing);
    out
}

/// The orientation of a divider.
#[derive(Debug, Clone, Copy, PartialEq, Eq, Structural)]
pub enum DividerOrientation {
    Horizontal,
    Vertical,
}

/// The properties of a divider.
#[derive(Debug, Clone)]
pub struct DividerProps {
    pub orientation: DividerOrientation,
    pub style: StyleProps,
}

/// The base modifier of a divider: a line one pixel thick that spans its parent
/// along its orientation, unless the style sets that size.
pub open spec fn divider_base_text(props: DividerProps, flow: ComposeFlow) -> Seq<char> {
    match props.orientation {
        DividerOrientation::Horizontal => "Modifier"@ + text_if(
            flow == ComposeFlow::Block && props.style.sizing.w is None,
            ".fillMaxWidth()"@,
        ) + text_if(props.style.sizing.h is None, ".height(1.dp)"@),
        DividerOrientation::Vertical => "Modifier"@ + text_if(
            props.style.sizing.w is None,
            ".width(1.dp)"@,
        ) + text_if(props.style.sizing.h is None, ".fillMaxHeight()"@),
    }
}

/// The modifier chain of a divider.
pub fn modifier_for_divider(props: &DividerProps, flow: ComposeFlow) -> (res: String)
    ensures
        res@ == style_modifier_text(props.style, divider_base_text(*props, flow)),
{
    let mut out = String::from_str("Modifier");
    let ghost s0 = out@;
    match props.orientation {
        DividerOrientation::Horizontal => {
            if flow == ComposeFlow::Block && props.style.sizing.w.is_none() {
                out.append(".fillMaxWidth()");
            }
            assert(out@ =~= s0 + text_if(
                flow == ComposeFlow::Block && props.style.sizing.w is None,
                ".fillMaxWidth()"@,
            ));
            let ghost s1 = out@;
            if props.style.sizing.h.is_none() {
                out.append(".height(1.dp)");
            }
            assert(out@ =~= s1 + text_if(props.style.sizing.h is None, ".height(1.dp)"@));
        },
        DividerOrientation::Vertical => {
            if props.style.sizing.w.is_none() {
                out.append(".width(1.dp)");
            }
            assert(out@ =~= s0 + text_if(props.style.sizing.w is None, ".width(1.dp)"@));
            let ghost s1 = out@;
            if props.style.sizing.h.is_none() {
                out.append(".fillMaxHeight()");
            }
            assert(out@ =~= s1 + text_if(props.style.sizing.h is None, ".fillMaxHeight()"@));
        },
    }
    modifier_for_style_with_base(&props.style, out)
}

/// The content color of a view: its text color where one is set.
pub open spec fn content_color_text(props: StyleProps) -> Option<Seq<char>> {
    match props.text {
        Some(v) => Some(color_value_text(v)),
        None => None,
    }
}

/// The content color of a view, where its style sets a text color.
pub fn compose_content_color(props: &StyleProps) -> (res: Option<String>)
    ensures
        match res {
            Some(s) => content_color_text(*props) == Some(s@),
            None => content_color_text(*props) is None,
        },
{
    match props.text.as_ref() {
        Some(v) => Some(compose_color_value(v)),
        None => None,
    }
}

/// A corner radius with a fallback: the view's radius where set, else the fallback.
pub open spec fn radius_text(props: StyleProps, fallback: Seq<char>) -> Seq<char> {
    match props.rounded {
        Some(v) => rounded_value_text(v) + " ?: "@ + fallback,
        None => fallback,
    }
}

/// The corner radius of a card, the design radius as fallback.
pub fn compose_card_radius(props: &StyleProps) -> (res: String)
    ensures
        res@ == radius_text(*props, "DoweDesign.radius"@),
{
    match props.rounded.as_ref() {
        Some(v) => {
            let mut out = compose_rounded_value(v);
            out.append(" ?: ");
            out.append("DoweDesign.radius");
            out
        },
        None => String::from_str("DoweDesign.radius"),
    }
}

/// The corner radius of a drawer, square as fallback.
pub fn compose_drawer_radius(props: &StyleProps) -> (res: String)
    ensures
        res@ == radius_text(*props, "0.dp"@),
{
    match props.rounded.as_ref() {
        Some(v) => {
            let mut out = compose_rounded_value(v);
            out.append(" ?: ");
            out.append("0.dp");
            out
        },
        None => String::from_str("0.dp"),
    }
}

/// The corner radius of a form control, the design radius as fallback.
pub fn compose_control_radius(props: &StyleProps) -> (res: String)
    ensures
        res@ == radius_text(*props, "DoweDesign.radius"@),
{
    match props.rounded.as_ref() {
        Some(v) => {
            let mut out = compose_rounded_value(v);
            out.append(" ?: ");
            out.append("DoweDesign.radius");
            out
        },
        None => String::from_str("DoweDesign.radius"),
    }
}

} // verus!

verus! {

/// The optional Kotlin expression of a responsive main axis alignment.
pub open spec fn opt_justify_text(value: Option<ResponsiveValue<Justify>>) -> Seq<char> {
    optional_text(value, |v: ResponsiveValue<Justify>| responsive_text(v, |j: Justify| justify_expr(j)))
}

/// The optional Kotlin expression of a responsive cross axis alignment.
pub open spec fn opt_align_text(value: Option<ResponsiveValue<Align>>) -> Seq<char> {
    optional_text(value, |v: ResponsiveValue<Align>| responsive_text(v, |a: Align| align_expr(a)))
}

/// The optional Kotlin expression of a responsive grid alignment.
pub open spec fn opt_grid_alignment_text(value: Option<ResponsiveValue<GridAlignment>>) -> Seq<char> {
    optional_text(
        value,
        |v: ResponsiveValue<GridAlignment>| responsive_text(v, |g: GridAlignment| grid_alignment_expr(g)),
    )
}

/// The optional Kotlin expression of a responsive gap.
pub open spec fn opt_gap_text(value: Option<ResponsiveValue<GapValue>>) -> Seq<char> {
    optional_text(value, |v: ResponsiveValue<GapValue>| gap_value_text(v))
}

/// `<name>(<justify>, <gap>)`.
pub open spec fn arrangement_text(
    name: Seq<char>,
    justify: Option<ResponsiveValue<Justify>>,
    gap: Option<ResponsiveValue<GapValue>>,
) -> Seq<char> {
    name + opt_justify_text(justify) + ", "@ + opt_gap_text(gap) + ")"@
}

/// The horizontal arrangement of a row.
pub fn compose_horizontal_arrangement(
    justify: Option<&ResponsiveValue<Justify>>,
    gap: Option<&ResponsiveValue<GapValue>>,
) -> (res: String)
    ensures
        res@ == arrangement_text("doweHorizontalArrangement("@, opt_ref(justify), opt_ref(gap)),
{
    let mut out = String::from_str("doweHorizontalArrangement(");
    out.append(compose_optional_justify(justify).as_str());
    out.append(", ");
    out.append(compose_optional_gap(gap).as_str());
    out.append(")");
    out
}

/// The vertical arrangement of a column.
pub fn compose_vertical_arrangement(
    justify: Option<&ResponsiveValue<Justify>>,
    gap: Option<&ResponsiveValue<GapValue>>,
) -> (res: String)
    ensures
        res@ == arrangement_text("doweVerticalArrangement("@, opt_ref(justify), opt_ref(gap)),
{
    let mut out = String::from_str("doweVerticalArrangement(");
    out.append(compose_optional_justify(justify).as_str());
    out.append(", ");
    out.append(compose_optional_gap(gap).as_str());
    out.append(")");
    out
}

/// The horizontal alignment of a column's children.
pub fn compose_horizontal_alignment(value: Option<&ResponsiveValue<Align>>) -> (res: String)
    ensures
        res@ == "doweHorizontalAlignment("@ + opt_align_text(opt_ref(value)) + ")"@,
{
    let mut out = String::from_str("doweHorizontalAlignment(");
    out.append(compose_optional_align(value).as_str());
    out.append(")");
    out
}

/// The vertical alignment of a row's children.
pub fn compose_vertical_alignment(value: Option<&ResponsiveValue<Align>>) -> (res: String)
    ensures
        res@ == "doweVerticalAlignment("@ + opt_align_text(opt_ref(value)) + ")"@,
{
    let mut out = String::from_str("doweVerticalAlignment(");
    out.append(compose_optional_align(value).as_str());
    out.append(")");
    out
}

/// The horizontal alignment of grid cells.
pub fn compose_grid_horizontal_alignment(value: Option<&ResponsiveValue<GridAlignment>>) -> (res: String)
    ensures
        res@ == "doweGridHorizontalAlignment("@ + opt_grid_alignment_text(opt_ref(value)) + ")"@,
{
    let mut out = String::from_str("doweGridHorizontalAlignment(");
    out.append(compose_optional_grid_alignment(value).as_str());
    out.append(")");
    out
}

/// The vertical alignment of grid cells.
pub fn compose_grid_vertical_alignment(value: Option<&ResponsiveValue<GridAlignment>>) -> (res: String)
    ensures
        res@ == "doweGridVerticalAlignment("@ + opt_grid_alignment_text(opt_ref(value)) + ")"@,
{
    let mut out = String::from_str("doweGridVerticalAlignment(");
    out.append(compose_optional_grid_alignment(value).as_str());
    out.append(")");
    out
}

/// Whether grid cells stretch horizontally.
pub fn compose_grid_horizontal_stretch(value: Option<&ResponsiveValue<GridAlignment>>) -> (res: String)
    ensures
        res@ == "doweGridHorizontalStretch("@ + opt_grid_alignment_text(opt_ref(value)) + ")"@,
{
    let mut out = String::from_str("doweGridHorizontalStretch(");
    out.append(compose_optional_grid_alignment(value).as_str());
    out.append(")");
    out
}

/// The padding of one edge: the first of the side padding, the axis padding and the
/// overall padding that is set, each written as a fallback of the one before, and
/// zero last.
pub open spec fn edge_parts(
    side: Option<ResponsiveValue<ScaleValue>>,
    axis: Option<ResponsiveValue<ScaleValue>>,
    all: Option<ResponsiveValue<ScaleValue>>,
) -> Seq<Seq<char>> {
    let a = match side {
        Some(v) => seq![scale_value_text(v)],
        None => Seq::empty(),
    };
    let b = match axis {
        Some(v) => seq![scale_value_text(v)],
        None => Seq::empty(),
    };
    let c = match all {
        Some(v) => seq![scale_value_text(v)],
        None => Seq::empty(),
    };
    a + b + c + seq!["0.dp"@]
}

/// The Kotlin padding of one edge.
pub open spec fn edge_text(
    side: Option<ResponsiveValue<ScaleValue>>,
    axis: Option<ResponsiveValue<ScaleValue>>,
    all: Option<ResponsiveValue<ScaleValue>>,
) -> Seq<char> {
    join(edge_parts(side, axis, all), " ?: "@)
}

fn compose_edge(
    side: Option<&ResponsiveValue<ScaleValue>>,
    axis: Option<&ResponsiveValue<ScaleValue>>,
    all: Option<&ResponsiveValue<ScaleValue>>,
) -> (res: String)
    ensures
        res@ == edge_text(opt_ref(side), opt_ref(axis), opt_ref(all)),
{
    let mut parts: Vec<String> = Vec::new();
    if let Some(v) = side {
        parts.push(compose_scale_value(v));
    }
    if let Some(v) = axis {
        parts.push(compose_scale_value(v));
    }
    if let Some(v) = all {
        parts.push(compose_scale_value(v));
    }
    parts.push(String::from_str("0.dp"));
    assert(string_views(parts@) =~= edge_parts(opt_ref(side), opt_ref(axis), opt_ref(all)));
    let mut out = String::new();
    push_joined(&mut out, &parts, " ?: ");
    assert(out@ =~= edge_text(opt_ref(side), opt_ref(axis), opt_ref(all)));
    out
}

/// The content padding of a scrolling container.
pub open spec fn content_padding_text(s: SpacingProps) -> Seq<char> {
    if !has_padding(s) {
        "PaddingValues(0.dp)"@
    } else {
        "PaddingValues(start = "@ + edge_text(s.pl, s.px, s.p) + ", top = "@ + edge_text(s.pt, s.py, s.p)
            + ", end = "@ + edge_text(s.pr, s.px, s.p) + ", bottom = "@ + edge_text(s.pb, s.py, s.p)
            + ")"@
    }
}

/// The content padding of a scrolling container: each edge takes its own padding,
/// else its axis padding, else the overall padding, else zero.
pub fn compose_content_padding(spacing: &SpacingProps) -> (res: String)
    ensures
        res@ == content_padding_text(*spacing),
{
    if spacing.p.is_none() && spacing.px.is_none() && spacing.py.is_none() && spacing.pl.is_none()
        && spacing.pr.is_none() && spacing.pt.is_none() && spacing.pb.is_none() {
        return String::from_str("PaddingValues(0.dp)");
    }
    let mut out = String::from_str("PaddingValues(start = ");
    out.append(compose_edge(spacing.pl.as_ref(), spacing.px.as_ref(), spacing.p.as_ref()).as_str());
    out.append(", top = ");
    out.append(compose_edge(spacing.pt.as_ref(), spacing.py.as_ref(), spacing.p.as_ref()).as_str());
    out.append(", end = ");
    out.append(compose_edge(spacing.pr.as_ref(), spacing.px.as_ref(), spacing.p.as_ref()).as_str());
    out.append(", bottom = ");
    out.append(compose_edge(spacing.pb.as_ref(), spacing.py.as_ref(), spacing.p.as_ref()).as_str());
    out.append(")");
    out
}

/// The offsets of a positioned box.
#[derive(Debug, Clone)]
pub struct PositionProps {
    pub top: Option<ResponsiveValue<ScaleValue>>,
    pub right: Option<ResponsiveValue<ScaleValue>>,
    pub bottom: Option<ResponsiveValue<ScaleValue>>,
    pub left: Option<ResponsiveValue<ScaleValue>>,
}

/// One offset of a positioned box, `<name> = <value> ?: 0.dp`.
pub open spec fn offset_parts(name: Seq<char>, value: Option<ResponsiveValue<ScaleValue>>) -> Seq<Seq<char>> {
    match value {
        Some(v) => seq![name + scale_value_text(v) + " ?: 0.dp"@],
        None => Seq::empty(),
    }
}

/// The offsets of a positioned box, in the order top, end, bottom, start.
pub open spec fn position_offsets(props: PositionProps) -> Seq<Seq<char>> {
    offset_parts("top = "@, props.top) + offset_parts("end = "@, props.right) + offset_parts(
        "bottom = "@,
        props.bottom,
    ) + offset_parts("start = "@, props.left)
}

/// The alignment and padding modifier of a positioned box: it is aligned to the
/// bottom when a bottom offset is set and to the end when a right offset is set,
/// and padded by the offsets that are set.
pub open spec fn position_modifier_text(props: PositionProps) -> Seq<char> {
    ".align(Alignment."@ + (if props.bottom is Some {
        "Bottom"@
    } else {
        "Top"@
    }) + (if props.right is Some {
        "End"@
    } else {
        "Start"@
    }) + ")"@ + text_if(
        position_offsets(props).len() > 0,
        ".padding("@ + join(position_offsets(props), ", "@) + ")"@,
    )
}

fn push_offset(parts: &mut Vec<String>, name: &str, value: Option<&ResponsiveValue<ScaleValue>>)
    ensures
        string_views(final(parts)@) == string_views(old(parts)@) + offset_parts(name@, opt_ref(value)),
{
    if let Some(v) = value {
        let mut part = String::from_str(name);
        part.append(compose_scale_value(v).as_str());
        part.append(" ?: 0.dp");
        parts.push(part);
        assert(string_views(parts@) =~= string_views(old(parts)@) + offset_parts(name@, opt_ref(value)));
    } else {
        assert(string_views(parts@) =~= string_views(old(parts)@) + offset_parts(name@, opt_ref(value)));
    }
}

/// The alignment and offset modifier of a positioned box.
pub fn compose_position_modifier(props: &PositionProps) -> (res: String)
    ensures
        res@ == position_modifier_text(*props),
{
    let vertical = if props.bottom.is_some() {
        "Bottom"
    } else {
        "Top"
    };
    let horizontal = if props.right.is_some() {
        "End"
    } else {
        "Start"
    };
    let mut out = String::from_str(".align(Alignment.");
    out.append(vertical);
    out.append(horizontal);
    out.append(")");
    let ghost s0 = out@;
    let mut values: Vec<String> = Vec::new();
    assert(string_views(values@) =~= Seq::<Seq<char>>::empty());
    push_offset(&mut values, "top = ", props.top.as_ref());
    push_offset(&mut values, "end = ", props.right.as_ref());
    push_offset(&mut values, "bottom = ", props.bottom.as_ref());
    push_offset(&mut values, "start = ", props.left.as_ref());
    assert(string_views(values@) =~= position_offsets(*props));
    if values.len() > 0 {
        let mut part = String::from_str(".padding(");
        push_joined(&mut part, &values, ", ");
        part.append(")");
        out.append(part.as_str());
    } else {
        assert(out@ =~= s0 + Seq::<char>::empty());
    }
    out
}

/// The vertical arrangement argument of a section, spaced by its gap where one is set.
pub open spec fn section_vertical_arrangement_text(value: Option<ResponsiveValue<GapValue>>) -> Seq<char> {
    match value {
        Some(v) => ", verticalArrangement = Arrangement.spacedBy("@ + gap_value_text(v) + " ?: 0.dp)"@,
        None => Seq::empty(),
    }
}

/// The vertical arrangement argument of a section, empty without a gap.
pub fn compose_section_vertical_arrangement(value: Option<&ResponsiveValue<GapValue>>) -> (res: String)
    ensures
        res@ == section_vertical_arrangement_text(opt_ref(value)),
{
    match value {
        Some(v) => {
            let mut out = String::from_str(", verticalArrangement = Arrangement.spacedBy(");
            out.append(compose_gap_value(v).as_str());
            out.append(" ?: 0.dp)");
            out
        },
        None => String::new(),
    }
}

/// The vertical arrangement argument of a section that may center its content.
pub fn compose_section_vertical_arrangement_centered(value: &ResponsiveValue<bool>) -> (res: String)
    ensures
        res@ == ", verticalArrangement = if ("@ + bool_value_text(*value)
            + " ?: false) Arrangement.Center else Arrangement.Top"@,
{
    let mut out = String::from_str(", verticalArrangement = if (");
    out.append(compose_bool_value(value).as_str());
    out.append(" ?: false) Arrangement.Center else Arrangement.Top");
    out
}

/// The horizontal alignment of a section that may center its content.
pub fn compose_section_horizontal_alignment(value: &ResponsiveValue<bool>) -> (res: String)
    ensures
        res@ == "("@ + bool_value_text(*value)
            + " ?: false) ? Alignment.CenterHorizontally : Alignment.Start"@,
{
    let mut out = String::from_str("(");
    out.append(compose_bool_value(value).as_str());
    out.append(" ?: false) ? Alignment.CenterHorizontally : Alignment.Start");
    out
}

/// The column gap of a gap value.
pub open spec fn column_gap_text(value: GapValue) -> Seq<char> {
    match value {
        GapValue::Single(v) => crate::style_values::gap_size_text(v),
        GapValue::Pair(_, column) => crate::style_values::gap_size_text(column),
    }
}

fn column_gap_string(value: &GapValue) -> (res: String)
    ensures
        res@ == column_gap_text(*value),
{
    match value {
        GapValue::Single(v) => crate::style_values::compose_gap_size(v),
        GapValue::Pair(_, column) => crate::style_values::compose_gap_size(column),
    }
}

/// The horizontal gap of a grid: the column gap where a gap is set, zero otherwise.
pub open spec fn grid_horizontal_gap_text(value: Option<ResponsiveValue<GapValue>>) -> Seq<char> {
    match value {
        Some(v) => responsive_text(v, |g: GapValue| column_gap_text(g)) + " ?: 0.dp"@,
        None => "0.dp"@,
    }
}

/// The horizontal gap of a grid.
pub fn compose_grid_horizontal_gap(value: Option<&ResponsiveValue<GapValue>>) -> (res: String)
    ensures
        res@ == grid_horizontal_gap_text(opt_ref(value)),
{
    match value {
        Some(v) => {
            let mut out = compose_responsive_value(v, column_gap_string, Ghost(|g: GapValue| column_gap_text(g)));
            out.append(" ?: 0.dp");
            out
        },
        None => String::from_str("0.dp"),
    }
}

/// The vertical gap of a grid: the row gap where a gap is set, zero otherwise.
pub open spec fn grid_vertical_gap_text(value: Option<ResponsiveValue<GapValue>>) -> Seq<char> {
    match value {
        Some(v) => gap_value_text(v) + " ?: 0.dp"@,
        None => "0.dp"@,
    }
}

/// The vertical gap of a grid.
pub fn compose_grid_vertical_gap(value: Option<&ResponsiveValue<GapValue>>) -> (res: String)
    ensures
        res@ == grid_vertical_gap_text(opt_ref(value)),
{
    match value {
        Some(v) => {
            let mut out = compose_gap_value(v);
            out.append(" ?: 0.dp");
            out
        },
        None => String::from_str("0.dp"),
    }
}

/// Whether a grid alignment stretches.
pub open spec fn stretch_text(value: GridAlignment) -> Seq<char> {
    crate::style_values::bool_text(value == GridAlignment::Stretch)
}

fn stretch_string(value: &GridAlignment) -> (res: String)
    ensures
        res@ == stretch_text(*value),
{
    crate::style_values::bool_string(*value == GridAlignment::Stretch)
}

/// Whether grid cells stretch vertically: they do unless an alignment other than
/// stretching applies.
pub open spec fn grid_vertical_stretch_text(value: Option<ResponsiveValue<GridAlignment>>) -> Seq<char> {
    match value {
        Some(v) => responsive_text(v, |g: GridAlignment| stretch_text(g)) + " ?: true"@,
        None => "true"@,
    }
}

/// Whether grid cells stretch vertically.
pub fn compose_grid_vertical_stretch(value: Option<&ResponsiveValue<GridAlignment>>) -> (res: String)
    ensures
        res@ == grid_vertical_stretch_text(opt_ref(value)),
{
    match value {
        Some(v) => {
            let mut out = compose_responsive_value(v, stretch_string, Ghost(|g: GridAlignment| stretch_text(g)));
            out.append(" ?: true");
            out
        },
        None => String::from_str("true"),
    }
}

/// Whether some breakpoint of a height fills the parent.
pub open spec fn has_full_height(h: Option<ResponsiveValue<SizeValue>>) -> bool {
    match h {
        Some(v) => exists|i: int| 0 <= i < v.entries@.len() && v.entries@[i].value == SizeValue::Full,
        None => false,
    }
}

/// Whether a style's height fills its parent at some breakpoint.
pub fn compose_grid_has_full_height(props: &StyleProps) -> (res: bool)
    ensures
        res == has_full_height(props.sizing.h),
{
    match props.sizing.h.as_ref() {
        Some(v) => {
            assert(props.sizing.h == Some(*v));
            let mut i: usize = 0;
            while i < v.entries.len()
                invariant
                    props.sizing.h == Some(*v),
                    i <= v.entries@.len(),
                    forall|j: int| 0 <= j < i ==> v.entries@[j].value != SizeValue::Full,
                decreases v.entries@.len() - i,
            {
                if v.entries[i].value == SizeValue::Full {
                    assert(v.entries@[i as int].value == SizeValue::Full);
                    return true;
                }
                i = i + 1;
            }
            false
        },
        None => false,
    }
}

/// Whether a height value fills its parent.
pub open spec fn fills_text(value: SizeValue) -> Seq<char> {
    crate::style_values::bool_text(value == SizeValue::Full)
}

fn fills_string(value: &SizeValue) -> (res: String)
    ensures
        res@ == fills_text(*value),
{
    crate::style_values::bool_string(*value == SizeValue::Full)
}

/// Whether a grid fills the height, per breakpoint.
pub open spec fn grid_fills_height_text(props: StyleProps) -> Seq<char> {
    match props.sizing.h {
        Some(v) => "("@ + responsive_text(v, |s: SizeValue| fills_text(s)) + " ?: false)"@,
        None => "false"@,
    }
}

/// Whether a grid fills the height, per breakpoint; `false` without a height.
pub fn compose_grid_fills_height(props: &StyleProps) -> (res: String)
    ensures
        res@ == grid_fills_height_text(*props),
{
    match props.sizing.h.as_ref() {
        Some(v) => {
            let mut out = String::from_str("(");
            out.append(compose_responsive_value(v, fills_string, Ghost(|s: SizeValue| fills_text(s))).as_str());
            out.append(" ?: false)");
            out
        },
        None => String::from_str("false"),
    }
}

/// A corner of the screen where floating actions stand.
#[derive(Debug, Clone, Copy, PartialEq, Eq, Structural)]
pub enum OverlayCornerPosition {
    TopLeft,
    TopRight,
    BottomLeft,
    BottomRight,
}

/// The horizontal alignment of floating actions in a corner.
pub open spec fn fab_horizontal_alignment_text(position: OverlayCornerPosition) -> Seq<char> {
    match position {
        OverlayCornerPosition::TopLeft | OverlayCornerPosition::BottomLeft => "Alignment.Start"@,
        OverlayCornerPosition::TopRight | OverlayCornerPosition::BottomRight => "Alignment.End"@,
    }
}

/// The horizontal alignment of floating actions in a corner.
pub fn compose_fab_horizontal_alignment(position: OverlayCornerPosition) -> (res: &'static str)
    ensures
        res@ == fab_horizontal_alignment_text(position),
{
    match position {
        OverlayCornerPosition::TopLeft | OverlayCornerPosition::BottomLeft => "Alignment.Start",
        OverlayCornerPosition::TopRight | OverlayCornerPosition::BottomRight => "Alignment.End",
    }
}

/// The vertical arrangement of floating actions in a corner.
pub open spec fn fab_vertical_arrangement_text(position: OverlayCornerPosition) -> Seq<char> {
    match position {
        OverlayCornerPosition::TopLeft | OverlayCornerPosition::TopRight => "Arrangement.Top"@,
        OverlayCornerPosition::BottomLeft | OverlayCornerPosition::BottomRight => "Arrangement.Bottom"@,
    }
}

/// The vertical arrangement of floating actions in a corner.
pub fn compose_fab_vertical_arrangement(position: OverlayCornerPosition) -> (res: &'static str)
    ensures
        res@ == fab_vertical_arrangement_text(position),
{
    match position {
        OverlayCornerPosition::TopLeft | OverlayCornerPosition::TopRight => "Arrangement.Top",
        OverlayCornerPosition::BottomLeft | OverlayCornerPosition::BottomRight => "Arrangement.Bottom",
    }
}

} // verus!

verus! {

/// The columns of a grid: a number of equal columns, columns in the given
/// proportions, or one automatic column.
#[derive(Debug, Clone)]
pub enum GridTracks {
    Count(u32),
    Fractions(Vec<NumberText>),
    Auto,
}

/// The Kotlin list of the column weights of grid tracks.
pub open spec fn grid_tracks_expr_text(value: GridTracks) -> Seq<char> {
    match value {
        GridTracks::Count(n) => "listOf("@ + join(Seq::new(n as nat, |i: int| "1f"@), ", "@) + ")"@,
        GridTracks::Fractions(ws) => "listOf("@ + join(Seq::new(ws@.len(), |i: int| float_literal_text(ws@[i])), ", "@) + ")"@,
        GridTracks::Auto => "listOf(1f)"@,
    }
}

fn grid_tracks_expr(value: &GridTracks) -> (res: String)
    ensures
        res@ == grid_tracks_expr_text(*value),
{
    match value {
        GridTracks::Count(n) => {
            let mut parts: Vec<String> = Vec::new();
            let mut i: u32 = 0;
            while i < *n
                invariant
                    i <= *n,
                    parts@.len() == i,
                    forall|j: int| 0 <= j < i ==> #[trigger] parts@[j]@ == "1f"@,
                decreases *n - i,
            {
                parts.push(String::from_str("1f"));
                i = i + 1;
            }
            assert(string_views(parts@) =~= Seq::new(*n as nat, |i: int| "1f"@));
            let mut out = String::from_str("listOf(");
            push_joined(&mut out, &parts, ", ");
            out.append(")");
            out
        },
        GridTracks::Fractions(ws) => {
            let mut parts: Vec<String> = Vec::new();
            let mut i: usize = 0;
            while i < ws.len()
                invariant
                    i <= ws@.len(),
                    parts@.len() == i,
                    forall|j: int| 0 <= j < i ==> #[trigger] parts@[j]@ == float_literal_text(ws@[j]),
                decreases ws@.len() - i,
            {
                parts.push(number_expr_string(&ws[i]));
                i = i + 1;
            }
            assert(string_views(parts@) =~= Seq::new(ws@.len(), |i: int| float_literal_text(ws@[i])));
            let mut out = String::from_str("listOf(");
            push_joined(&mut out, &parts, ", ");
            out.append(")");
            out
        },
        GridTracks::Auto => String::from_str("listOf(1f)"),
    }
}

/// The column weights of a grid, one column by default.
pub open spec fn grid_tracks_text(value: Option<ResponsiveValue<GridTracks>>) -> Seq<char> {
    match value {
        Some(v) => responsive_text(v, |t: GridTracks| grid_tracks_expr_text(t)) + " ?: listOf(1f)"@,
        None => "listOf(1f)"@,
    }
}

/// The column weights of a grid, one column by default.
pub fn compose_grid_tracks(value: Option<&ResponsiveValue<GridTracks>>) -> (res: String)
    ensures
        res@ == grid_tracks_text(opt_ref(value)),
{
    match value {
        Some(v) => {
            let mut out = compose_responsive_value(v, grid_tracks_expr, Ghost(|t: GridTracks| grid_tracks_expr_text(t)));
            out.append(" ?: listOf(1f)");
            out
        },
        None => String::from_str("listOf(1f)"),
    }
}

} // verus!
