//! Kotlin expressions of style values: responsive values, alignment names,
//! sizes in density-independent pixels, fonts and colors.
use vstd::prelude::*;
use crate::text::{decimal_text, join, push_decimal, push_joined, string_views};

verus! {

/// One breakpoint of a responsive value: the name of the breakpoint and the
/// value that holds from it on.
#[derive(Debug, Clone)]
pub struct ResponsiveEntry<T> {
    pub breakpoint: String,
    pub value: T,
}

/// A value that may change with the width of the viewport.
#[derive(Debug, Clone)]
pub struct ResponsiveValue<T> {
    pub entries: Vec<ResponsiveEntry<T>>,
}

/// The text of one entry: `<breakpoint> = <value>`.
pub open spec fn responsive_entry_text<T>(entry: ResponsiveEntry<T>, f: spec_fn(T) -> Seq<char>) -> Seq<char> {
    entry.breakpoint@ + " = "@ + f(entry.value)
}

/// `doweResponsive(viewportWidth, ..)` over the entries, each value written by `f`.
pub open spec fn responsive_text<T>(value: ResponsiveValue<T>, f: spec_fn(T) -> Seq<char>) -> Seq<char> {
    "doweResponsive(viewportWidth, "@ + join(
        Seq::new(value.entries@.len(), |i: int| responsive_entry_text(value.entries@[i], f)),
        ", "@,
    ) + ")"@
}

/// The Kotlin expression of a responsive value whose entries are written by `map`.
pub(crate) fn compose_responsive_value<T, F: Fn(&T) -> String>(
    value: &ResponsiveValue<T>,
    map: F,
    Ghost(f): Ghost<spec_fn(T) -> Seq<char>>,
) -> (res: String)
    requires
        forall|x: &T| #[trigger] map.requires((x,)),
        forall|x: &T, r: String| map.ensures((x,), r) ==> r@ == f(*x),
    ensures
        res@ == responsive_text(*value, f),
{
    let mut parts: Vec<String> = Vec::new();
    let mut i: usize = 0;
    while i < value.entries.len()
        invariant
            i <= value.entries@.len(),
            parts@.len() == i,
            forall|x: &T| #[trigger] map.requires((x,)),
            forall|x: &T, r: String| map.ensures((x,), r) ==> r@ == f(*x),
            forall|j: int|
                0 <= j < i ==> #[trigger] parts@[j]@ == responsive_entry_text(value.entries@[j], f),
        decreases value.entries@.len() - i,
    {
        let entry = &value.entries[i];
        let mut part = entry.breakpoint.clone();
        part.append(" = ");
        let mapped = map(&entry.value);
        part.append(mapped.as_str());
        parts.push(part);
        i = i + 1;
    }
    assert(string_views(parts@) =~= Seq::new(
        value.entries@.len(),
        |j: int| responsive_entry_text(value.entries@[j], f),
    ));
    let mut out = String::from_str("doweResponsive(viewportWidth, ");
    push_joined(&mut out, &parts, ", ");
    out.append(")");
    out
}

/// Alignment along the main axis.
#[derive(Debug, Clone, Copy, PartialEq, Eq, Structural)]
pub enum Justify {
    Start,
    Center,
    End,
    Between,
    Around,
    Evenly,
    Stretch,
    Normal,
    EndSafe,
    CenterSafe,
}

/// The Kotlin name of a main axis alignment.
pub open spec fn justify_name(value: Justify) -> Seq<char> {
    match value {
        Justify::Start => "Start"@,
        Justify::Center => "Center"@,
        Justify::End => "End"@,
        Justify::Between => "Between"@,
        Justify::Around => "Around"@,
        Justify::Evenly => "Evenly"@,
        Justify::Stretch => "Stretch"@,
        Justify::Normal => "Normal"@,
        Justify::EndSafe => "EndSafe"@,
        Justify::CenterSafe => "CenterSafe"@,
    }
}

/// The Kotlin name of a main axis alignment.
pub fn compose_justify_name(value: Justify) -> (res: &'static str)
    ensures
        res@ == justify_name(value),
{
    match value {
        Justify::Start => "Start",
        Justify::Center => "Center",
        Justify::End => "End",
        Justify::Between => "Between",
        Justify::Around => "Around",
        Justify::Evenly => "Evenly",
        Justify::Stretch => "Stretch",
        Justify::Normal => "Normal",
        Justify::EndSafe => "EndSafe",
        Justify::CenterSafe => "CenterSafe",
    }
}

/// Alignment along the cross axis.
#[derive(Debug, Clone, Copy, PartialEq, Eq, Structural)]
pub enum Align {
    Start,
    Center,
    End,
    Stretch,
    Baseline,
    BaselineLast,
    EndSafe,
    CenterSafe,
}

/// The Kotlin name of a cross axis alignment.
pub open spec fn align_name(value: Align) -> Seq<char> {
    match value {
        Align::Start => "Start"@,
        Align::Center => "Center"@,
        Align::End => "End"@,
        Align::Stretch => "Stretch"@,
        Align::Baseline => "Baseline"@,
        Align::BaselineLast => "BaselineLast"@,
        Align::EndSafe => "EndSafe"@,
        Align::CenterSafe => "CenterSafe"@,
    }
}

/// The Kotlin name of a cross axis alignment.
pub fn compose_align_name(value: Align) -> (res: &'static str)
    ensures
        res@ == align_name(value),
{
    match value {
        Align::Start => "Start",
        Align::Center => "Center",
        Align::End => "End",
        Align::Stretch => "Stretch",
        Align::Baseline => "Baseline",
        Align::BaselineLast => "BaselineLast",
        Align::EndSafe => "EndSafe",
        Align::CenterSafe => "CenterSafe",
    }
}

/// Alignment of grid cells.
#[derive(Debug, Clone, Copy, PartialEq, Eq, Structural)]
pub enum GridAlignment {
    Start,
    End,
    EndSafe,
    Center,
    CenterSafe,
    Between,
    Around,
    Evenly,
    Stretch,
    Baseline,
    BaselineLast,
    Normal,
}

/// The Kotlin name of a grid alignment.
pub open spec fn grid_alignment_name(value: GridAlignment) -> Seq<char> {
    match value {
        GridAlignment::Start => "Start"@,
        GridAlignment::End => "End"@,
        GridAlignment::EndSafe => "EndSafe"@,
        GridAlignment::Center => "Center"@,
        GridAlignment::CenterSafe => "CenterSafe"@,
        GridAlignment::Between => "Between"@,
        GridAlignment::Around => "Around"@,
        GridAlignment::Evenly => "Evenly"@,
        GridAlignment::Stretch => "Stretch"@,
        GridAlignment::Baseline => "Baseline"@,
        GridAlignment::BaselineLast => "BaselineLast"@,
        GridAlignment::Normal => "Normal"@,
    }
}

/// The Kotlin name of a grid alignment.
pub fn compose_grid_alignment_name(value: GridAlignment) -> (res: &'static str)
    ensures
        res@ == grid_alignment_name(value),
{
    match value {
        GridAlignment::Start => "Start",
        GridAlignment::End => "End",
        GridAlignment::EndSafe => "EndSafe",
        GridAlignment::Center => "Center",
        GridAlignment::CenterSafe => "CenterSafe",
        GridAlignment::Between => "Between",
        GridAlignment::Around => "Around",
        GridAlignment::Evenly => "Evenly",
        GridAlignment::Stretch => "Stretch",
        GridAlignment::Baseline => "Baseline",
        GridAlignment::BaselineLast => "BaselineLast",
        GridAlignment::Normal => "Normal",
    }
}

/// Horizontal alignment of text.
#[derive(Debug, Clone, Copy, PartialEq, Eq, Structural)]
pub enum TextAlign {
    Start,
    Center,
    End,
    Justify,
}

/// The Kotlin name of a text alignment.
pub open spec fn text_align_name(value: TextAlign) -> Seq<char> {
    match value {
        TextAlign::Start => "Start"@,
        TextAlign::Center => "Center"@,
        TextAlign::End => "End"@,
        TextAlign::Justify => "Justify"@,
    }
}

/// The Kotlin name of a text alignment.
pub fn compose_text_align_name(value: TextAlign) -> (res: &'static str)
    ensures
        res@ == text_align_name(value),
{
    match value {
        TextAlign::Start => "Start",
        TextAlign::Center => "Center",
        TextAlign::End => "End",
        TextAlign::Justify => "Justify",
    }
}

/// Corner radius steps.
#[derive(Debug, Clone, Copy, PartialEq, Eq, Structural)]
pub enum RoundedSize {
    Xs,
    Sm,
    Md,
    Lg,
    Xl,
    Full,
}

/// The corner radius of a step, in density-independent pixels.
pub open spec fn rounded_size_dp(value: RoundedSize) -> u16 {
    match value {
        RoundedSize::Xs => 4,
        RoundedSize::Sm => 6,
        RoundedSize::Md => 8,
        RoundedSize::Lg => 12,
        RoundedSize::Xl => 18,
        RoundedSize::Full => 999,
    }
}

/// The corner radius of a step, in density-independent pixels.
pub fn rounded_dp(value: RoundedSize) -> (res: u16)
    ensures
        res == rounded_size_dp(value),
{
    match value {
        RoundedSize::Xs => 4,
        RoundedSize::Sm => 6,
        RoundedSize::Md => 8,
        RoundedSize::Lg => 12,
        RoundedSize::Xl => 18,
        RoundedSize::Full => 999,
    }
}

/// Shadow steps.
#[derive(Debug, Clone, Copy, PartialEq, Eq, Structural)]
pub enum ShadowSize {
    Xs,
    Sm,
    Md,
    Lg,
    Xl,
}

/// The elevation of a shadow step, in density-independent pixels.
pub open spec fn shadow_size_dp(value: ShadowSize) -> u16 {
    match value {
        ShadowSize::Xs => 2,
        ShadowSize::Sm => 12,
        ShadowSize::Md => 24,
        ShadowSize::Lg => 44,
        ShadowSize::Xl => 70,
    }
}

/// The elevation of a shadow step, in density-independent pixels.
pub fn shadow_dp(value: ShadowSize) -> (res: u16)
    ensures
        res == shadow_size_dp(value),
{
    match value {
        ShadowSize::Xs => 2,
        ShadowSize::Sm => 12,
        ShadowSize::Md => 24,
        ShadowSize::Lg => 44,
        ShadowSize::Xl => 70,
    }
}

/// Font families of the design system.
#[derive(Debug, Clone, Copy, PartialEq, Eq, Structural)]
pub enum FontFamily {
    System,
    Inter,
    Roboto,
    Montserrat,
    Lato,
    Poppins,
    Manrope,
    Quicksand,
    Lora,
    Syne,
    Jost,
    Puritan,
}

/// The Kotlin name of a font family.
pub open spec fn font_family_name(value: FontFamily) -> Seq<char> {
    match value {
        FontFamily::System => "System"@,
        FontFamily::Inter => "Inter"@,
        FontFamily::Roboto => "Roboto"@,
        FontFamily::Montserrat => "Montserrat"@,
        FontFamily::Lato => "Lato"@,
        FontFamily::Poppins => "Poppins"@,
        FontFamily::Manrope => "Manrope"@,
        FontFamily::Quicksand => "Quicksand"@,
        FontFamily::Lora => "Lora"@,
        FontFamily::Syne => "Syne"@,
        FontFamily::Jost => "Jost"@,
        FontFamily::Puritan => "Puritan"@,
    }
}

/// The Kotlin name of a font family.
pub fn font_name(value: FontFamily) -> (res: &'static str)
    ensures
        res@ == font_family_name(value),
{
    match value {
        FontFamily::System => "System",
        FontFamily::Inter => "Inter",
        FontFamily::Roboto => "Roboto",
        FontFamily::Montserrat => "Montserrat",
        FontFamily::Lato => "Lato",
        FontFamily::Poppins => "Poppins",
        FontFamily::Manrope => "Manrope",
        FontFamily::Quicksand => "Quicksand",
        FontFamily::Lora => "Lora",
        FontFamily::Syne => "Syne",
        FontFamily::Jost => "Jost",
        FontFamily::Puritan => "Puritan",
    }
}

/// Decorative section backgrounds.
#[derive(Debug, Clone, Copy, PartialEq, Eq, Structural)]
pub enum SectionBackground {
    Aurora,
    Sunrise,
    Ocean,
    Meadow,
    Slate,
}

/// The Kotlin expression of a section background.
pub open spec fn section_background_text(value: SectionBackground) -> Seq<char> {
    match value {
        SectionBackground::Aurora => "DoweSectionBackground.Aurora"@,
        SectionBackground::Sunrise => "DoweSectionBackground.Sunrise"@,
        SectionBackground::Ocean => "DoweSectionBackground.Ocean"@,
        SectionBackground::Meadow => "DoweSectionBackground.Meadow"@,
        SectionBackground::Slate => "DoweSectionBackground.Slate"@,
    }
}

/// The Kotlin expression of a section background.
pub fn compose_section_background_expr(value: SectionBackground) -> (res: String)
    ensures
        res@ == section_background_text(value),
{
    match value {
        SectionBackground::Aurora => String::from_str("DoweSectionBackground.Aurora"),
        SectionBackground::Sunrise => String::from_str("DoweSectionBackground.Sunrise"),
        SectionBackground::Ocean => String::from_str("DoweSectionBackground.Ocean"),
        SectionBackground::Meadow => String::from_str("DoweSectionBackground.Meadow"),
        SectionBackground::Slate => String::from_str("DoweSectionBackground.Slate"),
    }
}

/// Direction of a flex layout.
#[derive(Debug, Clone, Copy, PartialEq, Eq, Structural)]
pub enum FlexDirection {
    Row,
    Column,
}

/// The Kotlin expression of a flex direction.
pub open spec fn flex_direction_text(value: FlexDirection) -> Seq<char> {
    match value {
        FlexDirection::Row => "DoweFlexDirection.Row"@,
        FlexDirection::Column => "DoweFlexDirection.Column"@,
    }
}

/// The Kotlin expression of a flex direction.
pub fn flex_direction_expr(value: FlexDirection) -> (res: String)
    ensures
        res@ == flex_direction_text(value),
{
    match value {
        FlexDirection::Row => String::from_str("DoweFlexDirection.Row"),
        FlexDirection::Column => String::from_str("DoweFlexDirection.Column"),
    }
}

/// Text weights of the design system.
#[derive(Debug, Clone, Copy, PartialEq, Eq, Structural)]
pub enum TextWeight {
    Thin,
    Extralight,
    Light,
    Regular,
    Medium,
    Semibold,
    Bold,
    Extrabold,
    Black,
}

/// The Kotlin font weight of a text weight.
pub open spec fn text_weight_text(value: TextWeight) -> Seq<char> {
    match value {
        TextWeight::Thin => "FontWeight.Thin"@,
        TextWeight::Extralight => "FontWeight.ExtraLight"@,
        TextWeight::Light => "FontWeight.Light"@,
        TextWeight::Regular => "FontWeight.Normal"@,
        TextWeight::Medium => "FontWeight.Medium"@,
        TextWeight::Semibold => "FontWeight.SemiBold"@,
        TextWeight::Bold => "FontWeight.Bold"@,
        TextWeight::Extrabold => "FontWeight.ExtraBold"@,
        TextWeight::Black => "FontWeight.Black"@,
    }
}

/// The Kotlin font weight of a text weight.
pub fn compose_text_weight(value: TextWeight) -> (res: &'static str)
    ensures
        res@ == text_weight_text(value),
{
    match value {
        TextWeight::Thin => "FontWeight.Thin",
        TextWeight::Extralight => "FontWeight.ExtraLight",
        TextWeight::Light => "FontWeight.Light",
        TextWeight::Regular => "FontWeight.Normal",
        TextWeight::Medium => "FontWeight.Medium",
        TextWeight::Semibold => "FontWeight.SemiBold",
        TextWeight::Bold => "FontWeight.Bold",
        TextWeight::Extrabold => "FontWeight.ExtraBold",
        TextWeight::Black => "FontWeight.Black",
    }
}

/// Entrance animations of a view.
#[derive(Debug, Clone, Copy, PartialEq, Eq, Structural)]
pub enum ViewAnimation {
    NoAnimation,
    FadeIn,
    SlideUp,
    SlideDown,
    SlideLeft,
    SlideRight,
    ScaleIn,
}

/// The Kotlin animation preset of an entrance animation.
pub open spec fn animation_preset_text(value: ViewAnimation) -> Seq<char> {
    match value {
        ViewAnimation::NoAnimation => "DoweAnimationPreset.None"@,
        ViewAnimation::FadeIn => "DoweAnimationPreset.FadeIn"@,
        ViewAnimation::SlideUp => "DoweAnimationPreset.SlideUp"@,
        ViewAnimation::SlideDown => "DoweAnimationPreset.SlideDown"@,
        ViewAnimation::SlideLeft => "DoweAnimationPreset.SlideLeft"@,
        ViewAnimation::SlideRight => "DoweAnimationPreset.SlideRight"@,
        ViewAnimation::ScaleIn => "DoweAnimationPreset.ScaleIn"@,
    }
}

/// The Kotlin animation preset of an entrance animation.
pub fn compose_animation_preset(value: ViewAnimation) -> (res: &'static str)
    ensures
        res@ == animation_preset_text(value),
{
    match value {
        ViewAnimation::NoAnimation => "DoweAnimationPreset.None",
        ViewAnimation::FadeIn => "DoweAnimationPreset.FadeIn",
        ViewAnimation::SlideUp => "DoweAnimationPreset.SlideUp",
        ViewAnimation::SlideDown => "DoweAnimationPreset.SlideDown",
        ViewAnimation::SlideLeft => "DoweAnimationPreset.SlideLeft",
        ViewAnimation::SlideRight => "DoweAnimationPreset.SlideRight",
        ViewAnimation::ScaleIn => "DoweAnimationPreset.ScaleIn",
    }
}

/// How an item grows inside a flex layout.
#[derive(Debug, Clone, Copy, PartialEq, Eq, Structural)]
pub enum FlexItem {
    Initial,
    NoFlex,
    Auto,
    Fill,
}

/// The Kotlin modifier of a flex item behaviour.
pub open spec fn flex_item_text(value: FlexItem) -> Seq<char> {
    match value {
        FlexItem::Initial => "Modifier"@,
        FlexItem::NoFlex => "Modifier"@,
        FlexItem::Auto => "Modifier.weight(1f, fill = false)"@,
        FlexItem::Fill => "Modifier.weight(1f, fill = true)"@,
    }
}

/// The Kotlin modifier of a flex item behaviour.
pub fn flex_item_modifier(value: FlexItem) -> (res: String)
    ensures
        res@ == flex_item_text(value),
{
    match value {
        FlexItem::Initial => String::from_str("Modifier"),
        FlexItem::NoFlex => String::from_str("Modifier"),
        FlexItem::Auto => String::from_str("Modifier.weight(1f, fill = false)"),
        FlexItem::Fill => String::from_str("Modifier.weight(1f, fill = true)"),
    }
}

/// Kinds of highlighted source code tokens.
#[derive(Debug, Clone, Copy, PartialEq, Eq, Structural)]
pub enum CodeTokenKind {
    Plain,
    Keyword,
    Type,
    String,
    Number,
    Attribute,
    Comment,
    Punctuation,
}

/// The color of a source code token: `plain` for plain text, a design color otherwise.
pub open spec fn code_token_color_text(kind: CodeTokenKind, plain: Seq<char>) -> Seq<char> {
    match kind {
        CodeTokenKind::Plain => plain,
        CodeTokenKind::Keyword => "DoweDesign.primary"@,
        CodeTokenKind::Type => "DoweDesign.info"@,
        CodeTokenKind::String => "DoweDesign.success"@,
        CodeTokenKind::Number => "DoweDesign.warning"@,
        CodeTokenKind::Attribute => "DoweDesign.accent"@,
        CodeTokenKind::Comment => "DoweDesign.muted"@,
        CodeTokenKind::Punctuation => "DoweDesign.danger"@,
    }
}

/// The Kotlin color of a source code token; plain tokens take `plain`.
pub fn compose_code_token_color(kind: CodeTokenKind, plain: &str) -> (res: String)
    ensures
        res@ == code_token_color_text(kind, plain@),
{
    match kind {
        CodeTokenKind::Plain => String::from_str(plain),
        CodeTokenKind::Keyword => String::from_str("DoweDesign.primary"),
        CodeTokenKind::Type => String::from_str("DoweDesign.info"),
        CodeTokenKind::String => String::from_str("DoweDesign.success"),
        CodeTokenKind::Number => String::from_str("DoweDesign.warning"),
        CodeTokenKind::Attribute => String::from_str("DoweDesign.accent"),
        CodeTokenKind::Comment => String::from_str("DoweDesign.muted"),
        CodeTokenKind::Punctuation => String::from_str("DoweDesign.danger"),
    }
}

/// A step of the spacing scale, by the number of density-independent pixels it stands for.
#[derive(Debug, Clone, Copy, PartialEq, Eq, Structural)]
pub struct ScaleValue {
    pub native_units: u32,
}

/// A gap: a step of the scale or a number of pixels.
#[derive(Debug, Clone, Copy, PartialEq, Eq, Structural)]
pub enum GapSize {
    Scale(ScaleValue),
    Px(u32),
}

/// A gap between rows and columns: one for both, or a row gap and a column gap.
#[derive(Debug, Clone, Copy, PartialEq, Eq, Structural)]
pub enum GapValue {
    Single(GapSize),
    Pair(GapSize, GapSize),
}

/// A border width in density-independent pixels.
#[derive(Debug, Clone, Copy, PartialEq, Eq, Structural)]
pub struct BorderWidth(pub u32);

/// A color of the design system, by the Kotlin reference it is written with.
#[derive(Debug, Clone)]
pub struct ColorToken {
    pub reference: String,
}

/// A width or height.
#[derive(Debug, Clone, Copy, PartialEq, Eq, Structural)]
pub enum SizeValue {
    Scale(ScaleValue),
    Container(ScaleValue),
    Percent(u16),
    Full,
    Auto,
    ViewportMinus(ScaleValue),
}

/// `<n>.dp`.
pub open spec fn dp_text(n: nat) -> Seq<char> {
    decimal_text(n) + ".dp"@
}

pub(crate) fn dp_string(n: u32) -> (res: String)
    ensures
        res@ == dp_text(n as nat),
{
    let mut out = String::new();
    push_decimal(&mut out, n as u64);
    out.append(".dp");
    out
}

/// The size of a scale step in density-independent pixels, as a Kotlin literal.
pub fn compose_scale_literal(value: ScaleValue) -> (res: String)
    ensures
        res@ == dp_text(value.native_units as nat),
{
    dp_string(value.native_units)
}

fn scale_expr_string(value: &ScaleValue) -> (res: String)
    ensures
        res@ == dp_text(value.native_units as nat),
{
    dp_string(value.native_units)
}

/// The Kotlin expression of a responsive scale step.
pub open spec fn scale_value_text(value: ResponsiveValue<ScaleValue>) -> Seq<char> {
    responsive_text(value, |v: ScaleValue| dp_text(v.native_units as nat))
}

/// The Kotlin expression of a responsive scale step.
pub fn compose_scale_value(value: &ResponsiveValue<ScaleValue>) -> (res: String)
    ensures
        res@ == scale_value_text(*value),
{
    compose_responsive_value(value, scale_expr_string, Ghost(|v: ScaleValue| dp_text(v.native_units as nat)))
}

/// `DoweJustify.<name>`.
pub open spec fn justify_expr(value: Justify) -> Seq<char> {
    "DoweJustify."@ + justify_name(value)
}

fn justify_expr_string(value: &Justify) -> (res: String)
    ensures
        res@ == justify_expr(*value),
{
    let mut out = String::from_str("DoweJustify.");
    out.append(compose_justify_name(*value));
    out
}

/// The Kotlin expression of a responsive main axis alignment.
pub fn compose_justify_value(value: &ResponsiveValue<Justify>) -> (res: String)
    ensures
        res@ == responsive_text(*value, |v: Justify| justify_expr(v)),
{
    compose_responsive_value(value, justify_expr_string, Ghost(|v: Justify| justify_expr(v)))
}

/// `DoweAlign.<name>`.
pub open spec fn align_expr(value: Align) -> Seq<char> {
    "DoweAlign."@ + align_name(value)
}

fn align_expr_string(value: &Align) -> (res: String)
    ensures
        res@ == align_expr(*value),
{
    let mut out = String::from_str("DoweAlign.");
    out.append(compose_align_name(*value));
    out
}

/// The Kotlin expression of a responsive cross axis alignment.
pub fn compose_align_value(value: &ResponsiveValue<Align>) -> (res: String)
    ensures
        res@ == responsive_text(*value, |v: Align| align_expr(v)),
{
    compose_responsive_value(value, align_expr_string, Ghost(|v: Align| align_expr(v)))
}

/// `DoweAlign.<name>` of a grid alignment.
pub open spec fn grid_alignment_expr(value: GridAlignment) -> Seq<char> {
    "DoweAlign."@ + grid_alignment_name(value)
}

fn grid_alignment_expr_string(value: &GridAlignment) -> (res: String)
    ensures
        res@ == grid_alignment_expr(*value),
{
    let mut out = String::from_str("DoweAlign.");
    out.append(compose_grid_alignment_name(*value));
    out
}

/// The Kotlin expression of a responsive grid alignment.
pub fn compose_grid_alignment_value(value: &ResponsiveValue<GridAlignment>) -> (res: String)
    ensures
        res@ == responsive_text(*value, |v: GridAlignment| grid_alignment_expr(v)),
{
    compose_responsive_value(
        value,
        grid_alignment_expr_string,
        Ghost(|v: GridAlignment| grid_alignment_expr(v)),
    )
}

/// `TextAlign.<name>`.
pub open spec fn text_align_expr(value: TextAlign) -> Seq<char> {
    "TextAlign."@ + text_align_name(value)
}

fn text_align_expr_string(value: &TextAlign) -> (res: String)
    ensures
        res@ == text_align_expr(*value),
{
    let mut out = String::from_str("TextAlign.");
    out.append(compose_text_align_name(*value));
    out
}

/// The Kotlin text alignment of a responsive value, starting aligned where no
/// breakpoint applies.
pub open spec fn text_align_value_text(value: ResponsiveValue<TextAlign>) -> Seq<char> {
    responsive_text(value, |v: TextAlign| text_align_expr(v)) + " ?: TextAlign.Start"@
}

/// The Kotlin text alignment of a responsive value, `TextAlign.Start` as fallback.
pub fn compose_text_align(value: &ResponsiveValue<TextAlign>) -> (res: String)
    ensures
        res@ == text_align_value_text(*value),
{
    let mut out = compose_responsive_value(
        value,
        text_align_expr_string,
        Ghost(|v: TextAlign| text_align_expr(v)),
    );
    out.append(" ?: TextAlign.Start");
    out
}

fn rounded_expr_string(value: &RoundedSize) -> (res: String)
    ensures
        res@ == dp_text(rounded_size_dp(*value) as nat),
{
    dp_string(rounded_dp(*value) as u32)
}

/// The Kotlin expression of a responsive corner radius.
pub open spec fn rounded_value_text(value: ResponsiveValue<RoundedSize>) -> Seq<char> {
    responsive_text(value, |v: RoundedSize| dp_text(rounded_size_dp(v) as nat))
}

/// The Kotlin expression of a responsive corner radius.
pub fn compose_rounded_value(value: &ResponsiveValue<RoundedSize>) -> (res: String)
    ensures
        res@ == rounded_value_text(*value),
{
    compose_responsive_value(
        value,
        rounded_expr_string,
        Ghost(|v: RoundedSize| dp_text(rounded_size_dp(v) as nat)),
    )
}

fn shadow_expr_string(value: &ShadowSize) -> (res: String)
    ensures
        res@ == dp_text(shadow_size_dp(*value) as nat),
{
    dp_string(shadow_dp(*value) as u32)
}

/// The Kotlin expression of a responsive shadow.
pub fn compose_shadow_value(value: &ResponsiveValue<ShadowSize>) -> (res: String)
    ensures
        res@ == responsive_text(*value, |v: ShadowSize| dp_text(shadow_size_dp(v) as nat)),
{
    compose_responsive_value(
        value,
        shadow_expr_string,
        Ghost(|v: ShadowSize| dp_text(shadow_size_dp(v) as nat)),
    )
}

fn border_expr_string(value: &BorderWidth) -> (res: String)
    ensures
        res@ == dp_text(value.0 as nat),
{
    dp_string(value.0)
}

/// The Kotlin expression of a responsive border width.
pub open spec fn border_value_text(value: ResponsiveValue<BorderWidth>) -> Seq<char> {
    responsive_text(value, |v: BorderWidth| dp_text(v.0 as nat))
}

/// The Kotlin expression of a responsive border width.
pub fn compose_border_value(value: &ResponsiveValue<BorderWidth>) -> (res: String)
    ensures
        res@ == border_value_text(*value),
{
    compose_responsive_value(value, border_expr_string, Ghost(|v: BorderWidth| dp_text(v.0 as nat)))
}

/// `DoweFont.<name>`.
pub open spec fn font_expr_text(value: FontFamily) -> Seq<char> {
    "DoweFont."@ + font_family_name(value)
}

/// The Kotlin reference of a font family.
pub fn compose_font_expr(value: &FontFamily) -> (res: String)
    ensures
        res@ == font_expr_text(*value),
{
    let mut out = String::from_str("DoweFont.");
    out.append(font_name(*value));
    out
}

/// The font family of a text: the responsive font where one is set, with the
/// default family as fallback.
pub open spec fn font_value_text(value: Option<ResponsiveValue<FontFamily>>, default_family: FontFamily) -> Seq<char> {
    match value {
        Some(v) => "doweFontFamily("@ + responsive_text(v, |f: FontFamily| font_expr_text(f)) + " ?: "@
            + font_expr_text(default_family) + ")"@,
        None => "doweFontFamily("@ + font_expr_text(default_family) + ")"@,
    }
}

/// The view of an optional reference.
pub open spec fn opt_ref<T>(value: Option<&T>) -> Option<T> {
    match value {
        Some(v) => Some(*v),
        None => None,
    }
}

/// The Kotlin font family of a text, falling back to `default_family`.
pub fn compose_font_value(value: Option<&ResponsiveValue<FontFamily>>, default_family: FontFamily) -> (res: String)
    ensures
        res@ == font_value_text(opt_ref(value), default_family),
{
    let default = compose_font_expr(&default_family);
    let mut out = String::from_str("doweFontFamily(");
    match value {
        Some(v) => {
            let responsive = compose_responsive_value(
                v,
                compose_font_expr,
                Ghost(|f: FontFamily| font_expr_text(f)),
            );
            out.append(responsive.as_str());
            out.append(" ?: ");
            out.append(default.as_str());
        },
        None => {
            out.append(default.as_str());
        },
    }
    out.append(")");
    out
}

fn section_background_expr_ref(value: &SectionBackground) -> (res: String)
    ensures
        res@ == section_background_text(*value),
{
    compose_section_background_expr(*value)
}

/// The Kotlin expression of a responsive section background.
pub fn compose_section_background_value(value: &ResponsiveValue<SectionBackground>) -> (res: String)
    ensures
        res@ == responsive_text(*value, |v: SectionBackground| section_background_text(v)),
{
    compose_responsive_value(
        value,
        section_background_expr_ref,
        Ghost(|v: SectionBackground| section_background_text(v)),
    )
}

fn flex_direction_expr_ref(value: &FlexDirection) -> (res: String)
    ensures
        res@ == flex_direction_text(*value),
{
    flex_direction_expr(*value)
}

/// The Kotlin flex direction of a responsive value, a row where no breakpoint applies.
pub open spec fn flex_direction_value_text(value: ResponsiveValue<FlexDirection>) -> Seq<char> {
    "("@ + responsive_text(value, |v: FlexDirection| flex_direction_text(v))
        + " ?: DoweFlexDirection.Row)"@
}

/// The Kotlin flex direction of a responsive value, `Row` as fallback.
pub fn compose_flex_direction_value(value: &ResponsiveValue<FlexDirection>) -> (res: String)
    ensures
        res@ == flex_direction_value_text(*value),
{
    let inner = compose_responsive_value(
        value,
        flex_direction_expr_ref,
        Ghost(|v: FlexDirection| flex_direction_text(v)),
    );
    let mut out = String::from_str("(");
    out.append(inner.as_str());
    out.append(" ?: DoweFlexDirection.Row)");
    out
}

/// The Kotlin text of a gap size.
pub open spec fn gap_size_text(value: GapSize) -> Seq<char> {
    match value {
        GapSize::Scale(s) => dp_text(s.native_units as nat),
        GapSize::Px(px) => dp_text(px as nat),
    }
}

/// The Kotlin text of a gap size in density-independent pixels.
pub fn compose_gap_size(value: &GapSize) -> (res: String)
    ensures
        res@ == gap_size_text(*value),
{
    match value {
        GapSize::Scale(s) => dp_string(s.native_units),
        GapSize::Px(px) => dp_string(*px),
    }
}

/// The gap between rows of a gap value.
pub open spec fn gap_expr_text(value: GapValue) -> Seq<char> {
    match value {
        GapValue::Single(v) => gap_size_text(v),
        GapValue::Pair(row, _) => gap_size_text(row),
    }
}

/// The Kotlin text of a gap value: the gap between rows.
pub fn compose_gap_expr(value: &GapValue) -> (res: String)
    ensures
        res@ == gap_expr_text(*value),
{
    match value {
        GapValue::Single(v) => compose_gap_size(v),
        GapValue::Pair(row, _) => compose_gap_size(row),
    }
}

/// The Kotlin expression of a responsive gap.
pub open spec fn gap_value_text(value: ResponsiveValue<GapValue>) -> Seq<char> {
    responsive_text(value, |v: GapValue| gap_expr_text(v))
}

/// The Kotlin expression of a responsive gap.
pub fn compose_gap_value(value: &ResponsiveValue<GapValue>) -> (res: String)
    ensures
        res@ == gap_value_text(*value),
{
    compose_responsive_value(value, compose_gap_expr, Ghost(|v: GapValue| gap_expr_text(v)))
}

/// The Kotlin reference of a design color.
pub fn color_ref(token: &ColorToken) -> (res: &str)
    ensures
        res@ == token.reference@,
{
    token.reference.as_str()
}

fn color_expr_string(value: &ColorToken) -> (res: String)
    ensures
        res@ == value.reference@,
{
    String::from_str(color_ref(value))
}

/// The Kotlin expression of a responsive color.
pub open spec fn color_value_text(value: ResponsiveValue<ColorToken>) -> Seq<char> {
    responsive_text(value, |v: ColorToken| v.reference@)
}

/// The Kotlin expression of a responsive color.
pub fn compose_color_value(value: &ResponsiveValue<ColorToken>) -> (res: String)
    ensures
        res@ == color_value_text(*value),
{
    compose_responsive_value(value, color_expr_string, Ghost(|v: ColorToken| v.reference@))
}

/// `true` or `false`.
pub open spec fn bool_text(value: bool) -> Seq<char> {
    if value {
        "true"@
    } else {
        "false"@
    }
}

/// The Kotlin literal of a boolean.
pub fn bool_string(value: bool) -> (res: String)
    ensures
        res@ == bool_text(value),
{
    if value {
        String::from_str("true")
    } else {
        String::from_str("false")
    }
}

fn bool_expr_string(value: &bool) -> (res: String)
    ensures
        res@ == bool_text(*value),
{
    bool_string(*value)
}

/// The Kotlin expression of a responsive boolean.
pub open spec fn bool_value_text(value: ResponsiveValue<bool>) -> Seq<char> {
    responsive_text(value, |v: bool| bool_text(v))
}

/// The Kotlin expression of a responsive boolean.
pub fn compose_bool_value(value: &ResponsiveValue<bool>) -> (res: String)
    ensures
        res@ == bool_value_text(*value),
{
    compose_responsive_value(value, bool_expr_string, Ghost(|v: bool| bool_text(v)))
}

/// The Kotlin expression of a responsive value, or `null` where there is none.
pub open spec fn optional_text<T>(value: Option<ResponsiveValue<T>>, f: spec_fn(ResponsiveValue<T>) -> Seq<char>) -> Seq<char> {
    match value {
        Some(v) => f(v),
        None => "null"@,
    }
}

/// The Kotlin expression of an optional responsive scale step, or `null`.
pub fn compose_optional_scale(value: Option<&ResponsiveValue<ScaleValue>>) -> (res: String)
    ensures
        res@ == optional_text(opt_ref(value), |v: ResponsiveValue<ScaleValue>| scale_value_text(v)),
{
    match value {
        Some(v) => compose_scale_value(v),
        None => String::from_str("null"),
    }
}

/// The Kotlin expression of an optional responsive corner radius, or `null`.
pub fn compose_optional_rounded(value: Option<&ResponsiveValue<RoundedSize>>) -> (res: String)
    ensures
        res@ == optional_text(opt_ref(value), |v: ResponsiveValue<RoundedSize>| rounded_value_text(v)),
{
    match value {
        Some(v) => compose_rounded_value(v),
        None => String::from_str("null"),
    }
}

/// The Kotlin expression of an optional responsive main axis alignment, or `null`.
pub fn compose_optional_justify(value: Option<&ResponsiveValue<Justify>>) -> (res: String)
    ensures
        res@ == optional_text(
            opt_ref(value),
            |v: ResponsiveValue<Justify>| responsive_text(v, |j: Justify| justify_expr(j)),
        ),
{
    match value {
        Some(v) => compose_justify_value(v),
        None => String::from_str("null"),
    }
}

/// The Kotlin expression of an optional responsive cross axis alignment, or `null`.
pub fn compose_optional_align(value: Option<&ResponsiveValue<Align>>) -> (res: String)
    ensures
        res@ == optional_text(
            opt_ref(value),
            |v: ResponsiveValue<Align>| responsive_text(v, |a: Align| align_expr(a)),
        ),
{
    match value {
        Some(v) => compose_align_value(v),
        None => String::from_str("null"),
    }
}

/// The Kotlin expression of an optional responsive grid alignment, or `null`.
pub fn compose_optional_grid_alignment(value: Option<&ResponsiveValue<GridAlignment>>) -> (res: String)
    ensures
        res@ == optional_text(
            opt_ref(value),
            |v: ResponsiveValue<GridAlignment>| responsive_text(v, |g: GridAlignment| grid_alignment_expr(g)),
        ),
{
    match value {
        Some(v) => compose_grid_alignment_value(v),
        None => String::from_str("null"),
    }
}

/// The Kotlin expression of an optional responsive gap, or `null`.
pub fn compose_optional_gap(value: Option<&ResponsiveValue<GapValue>>) -> (res: String)
    ensures
        res@ == optional_text(opt_ref(value), |v: ResponsiveValue<GapValue>| gap_value_text(v)),
{
    match value {
        Some(v) => compose_gap_value(v),
        None => String::from_str("null"),
    }
}

} // verus!
