//! Media, data and display components: their Compose calls and the Kotlin lists
//! of their items.
use vstd::prelude::*;
use crate::context::{lookup, signal_path_text, ComposeReactiveContext};
use crate::forms::compose_scheme_color;
use crate::layout::{compose_card_radius, modifier_for_style, radius_text, style_modifier_text, StyleProps};
use crate::navigation::{
    component_action_text, compose_component_action, compose_optional_component_action,
};
use crate::style_values::{bool_string, bool_text, color_value_text, compose_color_value};
use crate::text::{
    compose_optional_decimal, compose_optional_field, compose_string_literal, decimal_string, decimal_text, list_of, opt_str, opt_string_view, optional_decimal_text, optional_string_text, pad, spaces, string_literal_text, string_views,
};
use crate::values::{
    chat_send_action_text, compose_chat_send_action, compose_image_source, compose_map_waypoints,
    compose_optional_bool_signal, compose_type_writer_items, compose_variant_border, image_source_text, list_or_empty_text,
    optional_bool_signal_text, variant_border_text, waypoint_text, ComponentVariant, ImageSource, MapWaypoint, TypeWriterItem,
    VariantProps,
};

verus! {

/// The id of the action that a name stands for in the scope, if there is a name and the scope has it.
pub open spec fn action_id_of(context: ComposeReactiveContext, name: Option<Seq<char>>) -> Option<Seq<char>> {
    match name {
        Some(n) => lookup(context.action_ids@, n),
        None => None,
    }
}

/// The quoted id of the action a name stands for, `null` where there is none.
pub fn compose_optional_action_id(name: &Option<String>, context: &ComposeReactiveContext) -> (res: String)
    ensures
        res@ == optional_string_text(action_id_of(*context, opt_string_view(*name))),
{
    let id = match name {
        Some(n) => context.action_id(n.as_str()),
        None => None,
    };
    match id {
        Some(id) => compose_string_literal(id.as_str()),
        None => String::from_str("null"),
    }
}

/// The border of a card-like component: its card content color when it is
/// outlined, `null` otherwise (solid by default).
pub open spec fn card_border_color_text(props: VariantProps) -> Seq<char> {
    let variant = match props.variant {
        Some(v) => v,
        None => ComponentVariant::Solid,
    };
    if variant == ComponentVariant::Outlined {
        props.card_content@
    } else {
        "null"@
    }
}

/// The border of a card-like component.
pub fn compose_card_border_color(props: &VariantProps) -> (res: &str)
    ensures
        res@ == card_border_color_text(*props),
{
    let variant = match props.variant {
        Some(v) => v,
        None => ComponentVariant::Solid,
    };
    if variant == ComponentVariant::Outlined {
        props.card_content.as_str()
    } else {
        "null"
    }
}

/// The color of a vector icon: the view's text color over the surrounding
/// content color, or the surrounding content color.
pub open spec fn svg_color_text(props: StyleProps) -> Seq<char> {
    match props.text {
        Some(v) => color_value_text(v) + " ?: LocalContentColor.current"@,
        None => "LocalContentColor.current"@,
    }
}

/// The color of a vector icon.
pub fn compose_svg_color(props: &StyleProps) -> (res: String)
    ensures
        res@ == svg_color_text(*props),
{
    match &props.text {
        Some(v) => {
            let mut out = compose_color_value(v);
            out.append(" ?: LocalContentColor.current");
            out
        },
        None => String::from_str("LocalContentColor.current"),
    }
}

/// A vector icon: the Kotlin values of its view box and of its paths, and its style.
#[derive(Debug, Clone)]
pub struct SvgIcon {
    pub view_box: String,
    pub paths: String,
    pub style: StyleProps,
}

/// The Compose call of a vector icon.
pub open spec fn side_icon_line(icon: SvgIcon, indent: usize) -> Seq<char> {
    spaces(indent as nat) + "DoweSvg(viewBox = "@ + (icon.view_box@) + ", modifier = "@
        + (style_modifier_text(icon.style, "Modifier"@)) + ", color = "@ + (svg_color_text(icon.style))
        + ", paths = "@ + (icon.paths@) + ")\n"@
}

/// The Compose call of a vector icon.
pub fn render_compose_side_icon(icon: &SvgIcon, indent: usize, output: &mut String)
    ensures
        final(output)@ == old(output)@ + side_icon_line(*icon, indent),
{
    let mut line = pad(indent);
    line.append("DoweSvg(viewBox = ");
    line.append(icon.view_box.as_str());
    line.append(", modifier = ");
    line.append(modifier_for_style(&icon.style).as_str());
    line.append(", color = ");
    line.append(compose_svg_color(&icon.style).as_str());
    line.append(", paths = ");
    line.append(icon.paths.as_str());
    line.append(")\n");
    output.append(line.as_str());
}

/// A Kotlin lambda that draws an icon, or `null` without one.
pub open spec fn optional_icon_lambda_text(icon: Option<SvgIcon>, indent: usize) -> Seq<char> {
    match icon {
        Some(i) => "{\n"@ + side_icon_line(i, (indent + 4) as usize) + spaces(indent as nat) + "}"@,
        None => "null"@,
    }
}

/// Writes a Kotlin lambda that draws an icon, or `null` without one.
pub fn render_compose_optional_icon_lambda(icon: Option<&SvgIcon>, indent: usize, output: &mut String)
    requires
        indent + 4 <= usize::MAX,
    ensures
        final(output)@ == old(output)@ + optional_icon_lambda_text(crate::style_values::opt_ref(icon), indent),
{
    match icon {
        Some(i) => {
            let mut part = String::from_str("{\n");
            render_compose_side_icon(i, indent + 4, &mut part);
            part.append(pad(indent).as_str());
            part.append("}");
            output.append(part.as_str());
        },
        None => {
            output.append("null");
        },
    }
}

/// A chip: its style and variant, the name of its size, and the action that closes it.
#[derive(Debug, Clone)]
pub struct ChipProps {
    pub style: VariantProps,
    pub size: String,
    pub on_close: Option<String>,
}

/// The modifier of a chip: its style, clickable where it has a click action.
pub open spec fn chip_modifier_text(props: ChipProps, context: ComposeReactiveContext) -> Seq<char> {
    let base = style_modifier_text(props.style.style, "Modifier"@);
    match props.style.element.on_click {
        Some(_) => {
            let action = component_action_text(context, opt_string_view(props.style.element.on_click), None);
            base + ".clickable(onClick = "@ + (if action == "null"@ { "{}"@ } else { action }) + ")"@
        },
        None => base,
    }
}

fn compose_chip_modifier(props: &ChipProps, context: &ComposeReactiveContext) -> (res: String)
    ensures
        res@ == chip_modifier_text(*props, *context),
{
    let mut modifier = modifier_for_style(&props.style.style);
    if props.style.element.on_click.is_some() {
        let mut part = String::from_str(".clickable(onClick = ");
        part.append(compose_component_action(opt_str(&props.style.element.on_click), None, context).as_str());
        part.append(")");
        modifier.append(part.as_str());
    }
    modifier
}

/// A chip is compact unless a width is set or bound.
pub open spec fn chip_compact(props: ChipProps) -> bool {
    props.style.style.sizing.w is None && props.style.style.sizing.w_binding is None
}

/// The Compose call of a chip with its text and its optional start and end icons.
#[verifier::opaque]
pub open spec fn chip_text(
    props: ChipProps,
    value: Seq<char>,
    start: Option<SvgIcon>,
    end: Option<SvgIcon>,
    indent: usize,
    context: ComposeReactiveContext,
) -> Seq<char> {
    spaces(indent as nat) + "DoweChip(text = "@ + (string_literal_text(value)) + ", size = "@
        + (string_literal_text(props.size@)) + ", backgroundColor = "@ + (props.style.container@)
        + ", contentColor = "@ + (props.style.content@) + ", borderColor = "@
        + (variant_border_text(props.style)) + ", modifier = "@ + (chip_modifier_text(props, context))
        + ", compact = "@ + (bool_text(chip_compact(props))) + ", onClose = "@
        + (component_action_text(context, opt_string_view(props.on_close), None)) + ", start = "@
        + optional_icon_lambda_text(start, indent) + ", end = "@ + optional_icon_lambda_text(end, indent) + ")\n"@
}

/// Writes the Compose call of a chip with its text and its optional start and end icons.
pub fn render_compose_chip(
    props: &ChipProps,
    value: &str,
    start: Option<&SvgIcon>,
    end: Option<&SvgIcon>,
    indent: usize,
    output: &mut String,
    context: &ComposeReactiveContext,
)
    requires
        indent + 4 <= usize::MAX,
    ensures
        final(output)@ == old(output)@ + chip_text(
            *props,
            value@,
            crate::style_values::opt_ref(start),
            crate::style_values::opt_ref(end),
            indent,
            *context,
        ),
{
    reveal(chip_text);
    let compact = props.style.style.sizing.w.is_none() && props.style.style.sizing.w_binding.is_none();
    let mut line = pad(indent);
    line.append("DoweChip(text = ");
    line.append(compose_string_literal(value).as_str());
    line.append(", size = ");
    line.append(compose_string_literal(props.size.as_str()).as_str());
    line.append(", backgroundColor = ");
    line.append(props.style.container.as_str());
    line.append(", contentColor = ");
    line.append(props.style.content.as_str());
    line.append(", borderColor = ");
    line.append(compose_variant_border(&props.style).as_str());
    line.append(", modifier = ");
    line.append(compose_chip_modifier(props, context).as_str());
    line.append(", compact = ");
    line.append(bool_string(compact).as_str());
    line.append(", onClose = ");
    line.append(compose_optional_component_action(opt_str(&props.on_close), None, context).as_str());
    line.append(", start = ");
    render_compose_optional_icon_lambda(start, indent, &mut line);
    line.append(", end = ");
    render_compose_optional_icon_lambda(end, indent, &mut line);
    line.append(")\n");
    output.append(line.as_str());
}

/// A camera: its style and variant, the name of the lens it faces, its label,
/// whether it is disabled, and the actions run when it starts, captures or fails.
#[derive(Debug, Clone)]
pub struct CameraProps {
    pub style: VariantProps,
    pub facing: String,
    pub label: String,
    pub disabled: bool,
    pub on_start: Option<String>,
    pub on_capture: Option<String>,
    pub on_error: Option<String>,
}

/// The Compose call of a camera.
pub open spec fn camera_line(props: CameraProps, indent: usize, context: ComposeReactiveContext) -> Seq<char> {
    spaces(indent as nat) + "DoweCamera(state = state, facing = "@
        + (string_literal_text(props.facing@)) + ", label = "@ + (string_literal_text(props.label@))
        + ", disabled = "@ + (bool_text(props.disabled)) + ", onStart = "@
        + (optional_string_text(action_id_of(context, opt_string_view(props.on_start)))) + ", onCapture = "@
        + (optional_string_text(action_id_of(context, opt_string_view(props.on_capture)))) + ", onError = "@
        + (optional_string_text(action_id_of(context, opt_string_view(props.on_error)))) + ", modifier = "@
        + (style_modifier_text(props.style.style, "Modifier"@)) + ", shape = RoundedCornerShape("@
        + (radius_text(props.style.style, "DoweDesign.radius"@)) + "), backgroundColor = "@
        + (props.style.card_container@) + ", contentColor = "@ + (props.style.card_content@) + ")\n"@
}

/// The Compose call of a camera.
pub fn render_compose_camera(props: &CameraProps, indent: usize, output: &mut String, context: &ComposeReactiveContext)
    ensures
        final(output)@ == old(output)@ + camera_line(*props, indent, *context),
{
    let mut line = pad(indent);
    line.append("DoweCamera(state = state, facing = ");
    line.append(compose_string_literal(props.facing.as_str()).as_str());
    line.append(", label = ");
    line.append(compose_string_literal(props.label.as_str()).as_str());
    line.append(", disabled = ");
    line.append(bool_string(props.disabled).as_str());
    line.append(", onStart = ");
    line.append(compose_optional_action_id(&props.on_start, context).as_str());
    line.append(", onCapture = ");
    line.append(compose_optional_action_id(&props.on_capture, context).as_str());
    line.append(", onError = ");
    line.append(compose_optional_action_id(&props.on_error, context).as_str());
    line.append(", modifier = ");
    line.append(modifier_for_style(&props.style.style).as_str());
    line.append(", shape = RoundedCornerShape(");
    line.append(compose_card_radius(&props.style.style).as_str());
    line.append("), backgroundColor = ");
    line.append(props.style.card_container.as_str());
    line.append(", contentColor = ");
    line.append(props.style.card_content.as_str());
    line.append(")\n");
    output.append(line.as_str());
}

/// A microphone: its style and variant, its label, the longest recording in
/// seconds, whether it is disabled, and the actions run when it starts, stops or fails.
#[derive(Debug, Clone)]
pub struct MicrophoneProps {
    pub style: VariantProps,
    pub label: String,
    pub max_duration: Option<u64>,
    pub disabled: bool,
    pub on_start: Option<String>,
    pub on_stop: Option<String>,
    pub on_error: Option<String>,
}

/// The Compose call of a microphone.
pub open spec fn microphone_line(props: MicrophoneProps, indent: usize, context: ComposeReactiveContext) -> Seq<char> {
    spaces(indent as nat) + "DoweMicrophone(state = state, label = "@
        + (string_literal_text(props.label@)) + ", maxDuration = "@
        + (optional_decimal_text(props.max_duration)) + ", disabled = "@ + (bool_text(props.disabled))
        + ", onStart = "@ + (optional_string_text(action_id_of(context, opt_string_view(props.on_start))))
        + ", onStop = "@ + (optional_string_text(action_id_of(context, opt_string_view(props.on_stop))))
        + ", onError = "@ + (optional_string_text(action_id_of(context, opt_string_view(props.on_error))))
        + ", modifier = "@ + (style_modifier_text(props.style.style, "Modifier"@))
        + ", shape = RoundedCornerShape("@ + (radius_text(props.style.style, "DoweDesign.radius"@))
        + "), backgroundColor = "@ + (props.style.card_container@) + ", contentColor = "@
        + (props.style.card_content@) + ")\n"@
}

/// The Compose call of a microphone.
pub fn render_compose_microphone(props: &MicrophoneProps, indent: usize, output: &mut String, context: &ComposeReactiveContext)
    ensures
        final(output)@ == old(output)@ + microphone_line(*props, indent, *context),
{
    let mut line = pad(indent);
    line.append("DoweMicrophone(state = state, label = ");
    line.append(compose_string_literal(props.label.as_str()).as_str());
    line.append(", maxDuration = ");
    line.append(compose_optional_decimal(props.max_duration).as_str());
    line.append(", disabled = ");
    line.append(bool_string(props.disabled).as_str());
    line.append(", onStart = ");
    line.append(compose_optional_action_id(&props.on_start, context).as_str());
    line.append(", onStop = ");
    line.append(compose_optional_action_id(&props.on_stop, context).as_str());
    line.append(", onError = ");
    line.append(compose_optional_action_id(&props.on_error, context).as_str());
    line.append(", modifier = ");
    line.append(modifier_for_style(&props.style.style).as_str());
    line.append(", shape = RoundedCornerShape(");
    line.append(compose_card_radius(&props.style.style).as_str());
    line.append("), backgroundColor = ");
    line.append(props.style.card_container.as_str());
    line.append(", contentColor = ");
    line.append(props.style.card_content.as_str());
    line.append(")\n");
    output.append(line.as_str());
}

/// An image: its style and variant, its source, its alternative text, and the
/// names of its aspect, fit and loading mode.
#[derive(Debug, Clone)]
pub struct ImageProps {
    pub style: VariantProps,
    pub source: ImageSource,
    pub alt: String,
    pub aspect: String,
    pub object_fit: String,
    pub loading: String,
}

/// The Compose call of an image.
pub open spec fn image_line(props: ImageProps, indent: usize, context: ComposeReactiveContext) -> Seq<char> {
    spaces(indent as nat) + "DoweImage(source = "@ + (image_source_text(context, props.source))
        + ", alt = "@ + (string_literal_text(props.alt@)) + ", aspect = "@
        + (string_literal_text(props.aspect@)) + ", objectFit = "@ + (string_literal_text(props.object_fit@))
        + ", loading = "@ + (string_literal_text(props.loading@)) + ", modifier = "@
        + (style_modifier_text(props.style.style, "Modifier"@)) + ", shape = RoundedCornerShape("@
        + (radius_text(props.style.style, "DoweDesign.radius"@)) + "), backgroundColor = "@
        + (props.style.card_container@) + ", borderColor = "@ + (card_border_color_text(props.style)) + ")\n"@
}

/// The Compose call of an image.
pub fn render_compose_image(props: &ImageProps, indent: usize, output: &mut String, context: &ComposeReactiveContext)
    ensures
        final(output)@ == old(output)@ + image_line(*props, indent, *context),
{
    let mut line = pad(indent);
    line.append("DoweImage(source = ");
    line.append(compose_image_source(&props.source, context).as_str());
    line.append(", alt = ");
    line.append(compose_string_literal(props.alt.as_str()).as_str());
    line.append(", aspect = ");
    line.append(compose_string_literal(props.aspect.as_str()).as_str());
    line.append(", objectFit = ");
    line.append(compose_string_literal(props.object_fit.as_str()).as_str());
    line.append(", loading = ");
    line.append(compose_string_literal(props.loading.as_str()).as_str());
    line.append(", modifier = ");
    line.append(modifier_for_style(&props.style.style).as_str());
    line.append(", shape = RoundedCornerShape(");
    line.append(compose_card_radius(&props.style.style).as_str());
    line.append("), backgroundColor = ");
    line.append(props.style.card_container.as_str());
    line.append(", borderColor = ");
    line.append(compose_card_border_color(&props.style));
    line.append(")\n");
    output.append(line.as_str());
}

/// A countdown: its style and variant, its target time, which units it shows,
/// the name of its size, the labels of its units, and the action run when it ends.
#[derive(Debug, Clone)]
pub struct CountdownProps {
    pub style: VariantProps,
    pub target: String,
    pub show_days: bool,
    pub show_hours: bool,
    pub show_minutes: bool,
    pub show_seconds: bool,
    pub size: String,
    pub days_label: String,
    pub hours_label: String,
    pub minutes_label: String,
    pub seconds_label: String,
    pub on_complete: Option<String>,
}

/// The Compose call of a countdown.
pub open spec fn countdown_line(props: CountdownProps, indent: usize, context: ComposeReactiveContext) -> Seq<char> {
    spaces(indent as nat) + "DoweCountdown(target = "@ + (string_literal_text(props.target@))
        + ", showDays = "@ + (bool_text(props.show_days)) + ", showHours = "@ + (bool_text(props.show_hours))
        + ", showMinutes = "@ + (bool_text(props.show_minutes)) + ", showSeconds = "@
        + (bool_text(props.show_seconds)) + ", size = "@ + (string_literal_text(props.size@))
        + ", daysLabel = "@ + (string_literal_text(props.days_label@)) + ", hoursLabel = "@
        + (string_literal_text(props.hours_label@)) + ", minutesLabel = "@
        + (string_literal_text(props.minutes_label@)) + ", secondsLabel = "@
        + (string_literal_text(props.seconds_label@)) + ", backgroundColor = "@
        + (props.style.card_container@) + ", contentColor = "@ + (props.style.card_content@)
        + ", borderColor = "@ + (variant_border_text(props.style)) + ", onComplete = "@
        + (component_action_text(context, opt_string_view(props.on_complete), None)) + ", modifier = "@
        + (style_modifier_text(props.style.style, "Modifier"@)) + ")\n"@
}

/// The Compose call of a countdown.
pub fn render_compose_countdown(props: &CountdownProps, indent: usize, output: &mut String, context: &ComposeReactiveContext)
    ensures
        final(output)@ == old(output)@ + countdown_line(*props, indent, *context),
{
    let mut line = pad(indent);
    line.append("DoweCountdown(target = ");
    line.append(compose_string_literal(props.target.as_str()).as_str());
    line.append(", showDays = ");
    line.append(bool_string(props.show_days).as_str());
    line.append(", showHours = ");
    line.append(bool_string(props.show_hours).as_str());
    line.append(", showMinutes = ");
    line.append(bool_string(props.show_minutes).as_str());
    line.append(", showSeconds = ");
    line.append(bool_string(props.show_seconds).as_str());
    line.append(", size = ");
    line.append(compose_string_literal(props.size.as_str()).as_str());
    line.append(", daysLabel = ");
    line.append(compose_string_literal(props.days_label.as_str()).as_str());
    line.append(", hoursLabel = ");
    line.append(compose_string_literal(props.hours_label.as_str()).as_str());
    line.append(", minutesLabel = ");
    line.append(compose_string_literal(props.minutes_label.as_str()).as_str());
    line.append(", secondsLabel = ");
    line.append(compose_string_literal(props.seconds_label.as_str()).as_str());
    line.append(", backgroundColor = ");
    line.append(props.style.card_container.as_str());
    line.append(", contentColor = ");
    line.append(props.style.card_content.as_str());
    line.append(", borderColor = ");
    line.append(compose_variant_border(&props.style).as_str());
    line.append(", onComplete = ");
    line.append(compose_optional_component_action(opt_str(&props.on_complete), None, context).as_str());
    line.append(", modifier = ");
    line.append(modifier_for_style(&props.style.style).as_str());
    line.append(")\n");
    output.append(line.as_str());
}

/// A marker on a map: its id, position, label, popup text, the name of its
/// icon, and the action run when it is clicked.
#[derive(Debug, Clone)]
pub struct MapMarker {
    pub id: String,
    pub lat: String,
    pub lng: String,
    pub label: Option<String>,
    pub popup: Option<String>,
    pub icon: String,
    pub on_click: Option<String>,
}

/// The Kotlin value of a map marker.
pub open spec fn marker_text(context: ComposeReactiveContext, marker: MapMarker) -> Seq<char> {
    "DoweMapMarker(id = "@ + string_literal_text(marker.id@) + ", lat = "@ + string_literal_text(marker.lat@)
        + ", lng = "@ + string_literal_text(marker.lng@) + ", label = "@
        + optional_string_text(opt_string_view(marker.label)) + ", popup = "@
        + optional_string_text(opt_string_view(marker.popup)) + ", icon = "@ + string_literal_text(marker.icon@)
        + ", onClick = "@ + component_action_text(context, opt_string_view(marker.on_click), None) + ")"@
}

/// The Kotlin list of the markers of a map, `emptyList()` without markers.
pub fn compose_map_markers(markers: &[MapMarker], context: &ComposeReactiveContext) -> (res: String)
    ensures
        res@ == list_or_empty_text(Seq::new(markers@.len(), |i: int| marker_text(*context, markers@[i]))),
{
    if markers.len() == 0 {
        return String::from_str("emptyList()");
    }
    let mut values: Vec<String> = Vec::new();
    let mut i: usize = 0;
    while i < markers.len()
        invariant
            i <= markers@.len(),
            values@.len() == i,
            forall|j: int| 0 <= j < i ==> #[trigger] values@[j]@ == marker_text(*context, markers@[j]),
        decreases markers@.len() - i,
    {
        let marker = &markers[i];
        let mut v = String::from_str("DoweMapMarker(id = ");
        v.append(compose_string_literal(marker.id.as_str()).as_str());
        v.append(", lat = ");
        v.append(compose_string_literal(marker.lat.as_str()).as_str());
        v.append(", lng = ");
        v.append(compose_string_literal(marker.lng.as_str()).as_str());
        v.append(", label = ");
        v.append(compose_optional_field(&marker.label).as_str());
        v.append(", popup = ");
        v.append(compose_optional_field(&marker.popup).as_str());
        v.append(", icon = ");
        v.append(compose_string_literal(marker.icon.as_str()).as_str());
        v.append(", onClick = ");
        v.append(compose_optional_component_action(opt_str(&marker.on_click), None, context).as_str());
        v.append(")");
        values.push(v);
        i = i + 1;
    }
    assert(string_views(values@) =~= Seq::new(markers@.len(), |j: int| marker_text(*context, markers@[j])));
    list_of(&values)
}

/// A map: its style and variant, its center, zoom and size, which controls it
/// shows, whether it reacts to gestures, and the actions run on location,
/// location failure and route.
#[derive(Debug, Clone)]
pub struct MapProps {
    pub style: VariantProps,
    pub center_lat: String,
    pub center_lng: String,
    pub zoom: u32,
    pub height: String,
    pub width: String,
    pub show_controls: bool,
    pub show_scale: bool,
    pub show_location_control: bool,
    pub interactive: bool,
    pub on_location: Option<String>,
    pub on_location_error: Option<String>,
    pub on_route: Option<String>,
}

/// The Compose call of a map with its markers and route.
pub open spec fn map_line(props: MapProps, markers: Seq<MapMarker>, waypoints: Seq<MapWaypoint>, indent: usize, context: ComposeReactiveContext) -> Seq<char> {
    spaces(indent as nat) + "DoweMap(centerLat = "@ + (string_literal_text(props.center_lat@))
        + ", centerLng = "@ + (string_literal_text(props.center_lng@)) + ", zoom = "@
        + (decimal_text(props.zoom as nat)) + ", height = "@ + (string_literal_text(props.height@))
        + ", width = "@ + (string_literal_text(props.width@)) + ", showControls = "@
        + (bool_text(props.show_controls)) + ", showScale = "@ + (bool_text(props.show_scale))
        + ", showLocationControl = "@ + (bool_text(props.show_location_control)) + ", interactive = "@
        + (bool_text(props.interactive)) + ", markers = "@
        + (list_or_empty_text(Seq::new(markers.len(), |i: int| marker_text(context, markers[i]))))
        + ", waypoints = "@
        + (list_or_empty_text(Seq::new(waypoints.len(), |i: int| waypoint_text(waypoints[i]))))
        + ", backgroundColor = "@ + (props.style.card_container@) + ", contentColor = "@
        + (props.style.card_content@) + ", onLocation = "@
        + (component_action_text(context, opt_string_view(props.on_location), None)) + ", onLocationError = "@
        + (component_action_text(context, opt_string_view(props.on_location_error), None)) + ", onRoute = "@
        + (component_action_text(context, opt_string_view(props.on_route), None)) + ", modifier = "@
        + (style_modifier_text(props.style.style, "Modifier"@)) + ")\n"@
}

/// The Compose call of a map with its markers and route.
pub fn render_compose_map(props: &MapProps, markers: &[MapMarker], waypoints: &[MapWaypoint], indent: usize, output: &mut String, context: &ComposeReactiveContext)
    ensures
        final(output)@ == old(output)@ + map_line(*props, markers@, waypoints@, indent, *context),
{
    let mut line = pad(indent);
    line.append("DoweMap(centerLat = ");
    line.append(compose_string_literal(props.center_lat.as_str()).as_str());
    line.append(", centerLng = ");
    line.append(compose_string_literal(props.center_lng.as_str()).as_str());
    line.append(", zoom = ");
    line.append(decimal_string(props.zoom as u64).as_str());
    line.append(", height = ");
    line.append(compose_string_literal(props.height.as_str()).as_str());
    line.append(", width = ");
    line.append(compose_string_literal(props.width.as_str()).as_str());
    line.append(", showControls = ");
    line.append(bool_string(props.show_controls).as_str());
    line.append(", showScale = ");
    line.append(bool_string(props.show_scale).as_str());
    line.append(", showLocationControl = ");
    line.append(bool_string(props.show_location_control).as_str());
    line.append(", interactive = ");
    line.append(bool_string(props.interactive).as_str());
    line.append(", markers = ");
    line.append(compose_map_markers(markers, context).as_str());
    line.append(", waypoints = ");
    line.append(compose_map_waypoints(waypoints).as_str());
    line.append(", backgroundColor = ");
    line.append(props.style.card_container.as_str());
    line.append(", contentColor = ");
    line.append(props.style.card_content.as_str());
    line.append(", onLocation = ");
    line.append(compose_optional_component_action(opt_str(&props.on_location), None, context).as_str());
    line.append(", onLocationError = ");
    line.append(compose_optional_component_action(opt_str(&props.on_location_error), None, context).as_str());
    line.append(", onRoute = ");
    line.append(compose_optional_component_action(opt_str(&props.on_route), None, context).as_str());
    line.append(", modifier = ");
    line.append(modifier_for_style(&props.style.style).as_str());
    line.append(")\n");
    output.append(line.as_str());
}

/// A voice recorder: its style and variant, its field name, the address of an
/// earlier recording, whether it is disabled, the longest recording in seconds,
/// and the actions run at each step.
#[derive(Debug, Clone)]
pub struct RecordProps {
    pub style: VariantProps,
    pub name: String,
    pub url: Option<String>,
    pub disabled: bool,
    pub max_duration: Option<u64>,
    pub on_start: Option<String>,
    pub on_pause: Option<String>,
    pub on_resume: Option<String>,
    pub on_stop: Option<String>,
    pub on_discard: Option<String>,
    pub on_confirm: Option<String>,
}

/// The Compose call of a voice recorder.
pub open spec fn record_line(props: RecordProps, indent: usize, context: ComposeReactiveContext) -> Seq<char> {
    spaces(indent as nat) + "DoweRecord(name = "@ + (string_literal_text(props.name@)) + ", url = "@
        + (optional_string_text(opt_string_view(props.url))) + ", disabled = "@ + (bool_text(props.disabled))
        + ", maxDuration = "@ + (optional_decimal_text(props.max_duration)) + ", backgroundColor = "@
        + (props.style.card_container@) + ", contentColor = "@ + (props.style.card_content@)
        + ", borderColor = "@ + (variant_border_text(props.style)) + ", onStart = "@
        + (component_action_text(context, opt_string_view(props.on_start), None)) + ", onPause = "@
        + (component_action_text(context, opt_string_view(props.on_pause), None)) + ", onResume = "@
        + (component_action_text(context, opt_string_view(props.on_resume), None)) + ", onStop = "@
        + (component_action_text(context, opt_string_view(props.on_stop), None)) + ", onDiscard = "@
        + (component_action_text(context, opt_string_view(props.on_discard), None)) + ", onConfirm = "@
        + (component_action_text(context, opt_string_view(props.on_confirm), None)) + ", modifier = "@
        + (style_modifier_text(props.style.style, "Modifier"@)) + ")\n"@
}

/// The Compose call of a voice recorder.
pub fn render_compose_record(props: &RecordProps, indent: usize, output: &mut String, context: &ComposeReactiveContext)
    ensures
        final(output)@ == old(output)@ + record_line(*props, indent, *context),
{
    let mut line = pad(indent);
    line.append("DoweRecord(name = ");
    line.append(compose_string_literal(props.name.as_str()).as_str());
    line.append(", url = ");
    line.append(compose_optional_field(&props.url).as_str());
    line.append(", disabled = ");
    line.append(bool_string(props.disabled).as_str());
    line.append(", maxDuration = ");
    line.append(compose_optional_decimal(props.max_duration).as_str());
    line.append(", backgroundColor = ");
    line.append(props.style.card_container.as_str());
    line.append(", contentColor = ");
    line.append(props.style.card_content.as_str());
    line.append(", borderColor = ");
    line.append(compose_variant_border(&props.style).as_str());
    line.append(", onStart = ");
    line.append(compose_optional_component_action(opt_str(&props.on_start), None, context).as_str());
    line.append(", onPause = ");
    line.append(compose_optional_component_action(opt_str(&props.on_pause), None, context).as_str());
    line.append(", onResume = ");
    line.append(compose_optional_component_action(opt_str(&props.on_resume), None, context).as_str());
    line.append(", onStop = ");
    line.append(compose_optional_component_action(opt_str(&props.on_stop), None, context).as_str());
    line.append(", onDiscard = ");
    line.append(compose_optional_component_action(opt_str(&props.on_discard), None, context).as_str());
    line.append(", onConfirm = ");
    line.append(compose_optional_component_action(opt_str(&props.on_confirm), None, context).as_str());
    line.append(", modifier = ");
    line.append(modifier_for_style(&props.style.style).as_str());
    line.append(")\n");
    output.append(line.as_str());
}

/// A chat box: its style and variant, the signal of its messages, its mode, the
/// current user and the assistant, what it shows, the signals of its loading
/// states, its action label, and the actions it runs.
#[derive(Debug, Clone)]
pub struct ChatBoxProps {
    pub style: VariantProps,
    pub messages: String,
    pub mode: String,
    pub current_user_id: String,
    pub user_name: String,
    pub user_avatar: Option<String>,
    pub user_status: String,
    pub assistant_name: String,
    pub assistant_avatar: Option<String>,
    pub show_header: bool,
    pub placeholder: String,
    pub show_attachments: bool,
    pub show_voice_note: bool,
    pub show_camera: bool,
    pub loading: Option<String>,
    pub sending: Option<String>,
    pub streaming: Option<String>,
    pub has_more: Option<String>,
    pub action_label: String,
    pub action_visible: Option<String>,
    pub on_action: Option<String>,
    pub on_send: Option<String>,
    pub on_load_more: Option<String>,
    pub on_stop: Option<String>,
    pub on_voice_note: Option<String>,
    pub on_file_attach: Option<String>,
    pub on_camera_capture: Option<String>,
}

/// The Compose call of a chat box.
pub open spec fn chat_box_line(props: ChatBoxProps, indent: usize, context: ComposeReactiveContext) -> Seq<char> {
    spaces(indent as nat) + "DoweChatBox(state = state, messagesPath = "@
        + (string_literal_text(signal_path_text(context, props.messages@))) + ", mode = "@
        + (string_literal_text(props.mode@)) + ", currentUserId = "@
        + (string_literal_text(props.current_user_id@)) + ", userName = "@
        + (string_literal_text(props.user_name@)) + ", userAvatar = "@
        + (optional_string_text(opt_string_view(props.user_avatar))) + ", userStatus = "@
        + (string_literal_text(props.user_status@)) + ", assistantName = "@
        + (string_literal_text(props.assistant_name@)) + ", assistantAvatar = "@
        + (optional_string_text(opt_string_view(props.assistant_avatar))) + ", showHeader = "@
        + (bool_text(props.show_header)) + ", placeholder = "@ + (string_literal_text(props.placeholder@))
        + ", showAttachments = "@ + (bool_text(props.show_attachments)) + ", showVoiceNote = "@
        + (bool_text(props.show_voice_note)) + ", showCamera = "@ + (bool_text(props.show_camera))
        + ", loading = "@ + (optional_bool_signal_text(context, opt_string_view(props.loading)))
        + ", sending = "@ + (optional_bool_signal_text(context, opt_string_view(props.sending)))
        + ", streaming = "@ + (optional_bool_signal_text(context, opt_string_view(props.streaming)))
        + ", hasMore = "@ + (optional_bool_signal_text(context, opt_string_view(props.has_more)))
        + ", actionLabel = "@ + (string_literal_text(props.action_label@)) + ", actionVisible = "@
        + (optional_bool_signal_text(context, opt_string_view(props.action_visible))) + ", onAction = "@
        + (component_action_text(context, opt_string_view(props.on_action), None)) + ", onSend = "@
        + (chat_send_action_text(context, opt_string_view(props.on_send))) + ", onLoadMore = "@
        + (component_action_text(context, opt_string_view(props.on_load_more), None)) + ", onStop = "@
        + (component_action_text(context, opt_string_view(props.on_stop), None)) + ", onVoiceNote = "@
        + (component_action_text(context, opt_string_view(props.on_voice_note), None)) + ", onFileAttach = "@
        + (component_action_text(context, opt_string_view(props.on_file_attach), None))
        + ", onCameraCapture = "@
        + (component_action_text(context, opt_string_view(props.on_camera_capture), None))
        + ", backgroundColor = "@ + (props.style.card_container@) + ", contentColor = "@
        + (props.style.card_content@) + ", borderColor = "@ + (variant_border_text(props.style))
        + ", modifier = "@ + (style_modifier_text(props.style.style, "Modifier"@)) + ")\n"@
}

/// The Compose call of a chat box.
pub fn render_compose_chat_box(props: &ChatBoxProps, indent: usize, output: &mut String, context: &ComposeReactiveContext)
    ensures
        final(output)@ == old(output)@ + chat_box_line(*props, indent, *context),
{
    let mut line = pad(indent);
    line.append("DoweChatBox(state = state, messagesPath = ");
    line.append(compose_string_literal(context.signal_path(props.messages.as_str()).as_str()).as_str());
    line.append(", mode = ");
    line.append(compose_string_literal(props.mode.as_str()).as_str());
    line.append(", currentUserId = ");
    line.append(compose_string_literal(props.current_user_id.as_str()).as_str());
    line.append(", userName = ");
    line.append(compose_string_literal(props.user_name.as_str()).as_str());
    line.append(", userAvatar = ");
    line.append(compose_optional_field(&props.user_avatar).as_str());
    line.append(", userStatus = ");
    line.append(compose_string_literal(props.user_status.as_str()).as_str());
    line.append(", assistantName = ");
    line.append(compose_string_literal(props.assistant_name.as_str()).as_str());
    line.append(", assistantAvatar = ");
    line.append(compose_optional_field(&props.assistant_avatar).as_str());
    line.append(", showHeader = ");
    line.append(bool_string(props.show_header).as_str());
    line.append(", placeholder = ");
    line.append(compose_string_literal(props.placeholder.as_str()).as_str());
    line.append(", showAttachments = ");
    line.append(bool_string(props.show_attachments).as_str());
    line.append(", showVoiceNote = ");
    line.append(bool_string(props.show_voice_note).as_str());
    line.append(", showCamera = ");
    line.append(bool_string(props.show_camera).as_str());
    line.append(", loading = ");
    line.append(compose_optional_bool_signal(opt_str(&props.loading), context).as_str());
    line.append(", sending = ");
    line.append(compose_optional_bool_signal(opt_str(&props.sending), context).as_str());
    line.append(", streaming = ");
    line.append(compose_optional_bool_signal(opt_str(&props.streaming), context).as_str());
    line.append(", hasMore = ");
    line.append(compose_optional_bool_signal(opt_str(&props.has_more), context).as_str());
    line.append(", actionLabel = ");
    line.append(compose_string_literal(props.action_label.as_str()).as_str());
    line.append(", actionVisible = ");
    line.append(compose_optional_bool_signal(opt_str(&props.action_visible), context).as_str());
    line.append(", onAction = ");
    line.append(compose_optional_component_action(opt_str(&props.on_action), None, context).as_str());
    line.append(", onSend = ");
    line.append(compose_chat_send_action(opt_str(&props.on_send), context).as_str());
    line.append(", onLoadMore = ");
    line.append(compose_optional_component_action(opt_str(&props.on_load_more), None, context).as_str());
    line.append(", onStop = ");
    line.append(compose_optional_component_action(opt_str(&props.on_stop), None, context).as_str());
    line.append(", onVoiceNote = ");
    line.append(compose_optional_component_action(opt_str(&props.on_voice_note), None, context).as_str());
    line.append(", onFileAttach = ");
    line.append(compose_optional_component_action(opt_str(&props.on_file_attach), None, context).as_str());
    line.append(", onCameraCapture = ");
    line.append(compose_optional_component_action(opt_str(&props.on_camera_capture), None, context).as_str());
    line.append(", backgroundColor = ");
    line.append(props.style.card_container.as_str());
    line.append(", contentColor = ");
    line.append(props.style.card_content.as_str());
    line.append(", borderColor = ");
    line.append(compose_variant_border(&props.style).as_str());
    line.append(", modifier = ");
    line.append(modifier_for_style(&props.style.style).as_str());
    line.append(")\n");
    output.append(line.as_str());
}

/// A typewriter: the delays of typing, deleting and pausing, how often it
/// repeats, and its style.
#[derive(Debug, Clone)]
pub struct TypeWriterProps {
    pub type_speed: u32,
    pub delete_speed: u32,
    pub after_typed: u32,
    pub after_deleted: u32,
    pub repeat: u32,
    pub style: StyleProps,
}

/// The Compose call of a typewriter with its texts.
pub open spec fn type_writer_line(props: TypeWriterProps, items: Seq<TypeWriterItem>, indent: usize) -> Seq<char> {
    spaces(indent as nat) + "DoweTypeWriter(texts = "@
        + (list_or_empty_text(Seq::new(items.len(), |i: int| string_literal_text(items[i].text@))))
        + ", typeSpeed = "@ + (decimal_text(props.type_speed as nat)) + ", deleteSpeed = "@
        + (decimal_text(props.delete_speed as nat)) + ", afterTyped = "@
        + (decimal_text(props.after_typed as nat)) + ", afterDeleted = "@
        + (decimal_text(props.after_deleted as nat)) + ", repeat = "@ + (decimal_text(props.repeat as nat))
        + ", contentColor = "@ + (svg_color_text(props.style)) + ", modifier = "@
        + (style_modifier_text(props.style, "Modifier"@)) + ")\n"@
}

/// The Compose call of a typewriter with its texts.
pub fn render_compose_type_writer(props: &TypeWriterProps, items: &[TypeWriterItem], indent: usize, output: &mut String)
    ensures
        final(output)@ == old(output)@ + type_writer_line(*props, items@, indent),
{
    let mut line = pad(indent);
    line.append("DoweTypeWriter(texts = ");
    line.append(compose_type_writer_items(items).as_str());
    line.append(", typeSpeed = ");
    line.append(decimal_string(props.type_speed as u64).as_str());
    line.append(", deleteSpeed = ");
    line.append(decimal_string(props.delete_speed as u64).as_str());
    line.append(", afterTyped = ");
    line.append(decimal_string(props.after_typed as u64).as_str());
    line.append(", afterDeleted = ");
    line.append(decimal_string(props.after_deleted as u64).as_str());
    line.append(", repeat = ");
    line.append(decimal_string(props.repeat as u64).as_str());
    line.append(", contentColor = ");
    line.append(compose_svg_color(&props.style).as_str());
    line.append(", modifier = ");
    line.append(modifier_for_style(&props.style).as_str());
    line.append(")\n");
    output.append(line.as_str());
}

/// An empty state: its style and variant, the name of its kind, its title and
/// description, and the label of its action.
#[derive(Debug, Clone)]
pub struct EmptyProps {
    pub style: VariantProps,
    pub kind: String,
    pub title: Option<String>,
    pub description: Option<String>,
    pub action_label: String,
}

/// The Compose call of an empty state with the icon of its kind.
pub open spec fn empty_line(props: EmptyProps, icon: SvgIcon, indent: usize, context: ComposeReactiveContext) -> Seq<char> {
    spaces(indent as nat) + "DoweEmpty(kind = "@ + (string_literal_text(props.kind@)) + ", title = "@
        + (optional_string_text(opt_string_view(props.title))) + ", description = "@
        + (optional_string_text(opt_string_view(props.description))) + ", actionLabel = "@
        + (string_literal_text(props.action_label@)) + ", action = "@
        + (component_action_text(context, opt_string_view(props.style.element.on_click), props.style.navigation))
        + ", iconViewBox = "@ + (icon.view_box@) + ", iconPaths = "@ + (icon.paths@) + ", backgroundColor = "@
        + (props.style.card_container@) + ", contentColor = "@ + (props.style.card_content@)
        + ", accentColor = "@ + (props.style.scheme.reference@) + ", modifier = "@
        + (style_modifier_text(props.style.style, "Modifier"@)) + ")\n"@
}

/// The Compose call of an empty state with the icon of its kind.
pub fn render_compose_empty(props: &EmptyProps, icon: &SvgIcon, indent: usize, output: &mut String, context: &ComposeReactiveContext)
    ensures
        final(output)@ == old(output)@ + empty_line(*props, *icon, indent, *context),
{
    let mut line = pad(indent);
    line.append("DoweEmpty(kind = ");
    line.append(compose_string_literal(props.kind.as_str()).as_str());
    line.append(", title = ");
    line.append(compose_optional_field(&props.title).as_str());
    line.append(", description = ");
    line.append(compose_optional_field(&props.description).as_str());
    line.append(", actionLabel = ");
    line.append(compose_string_literal(props.action_label.as_str()).as_str());
    line.append(", action = ");
    line.append(compose_optional_component_action(opt_str(&props.style.element.on_click), props.style.navigation.as_ref(), context).as_str());
    line.append(", iconViewBox = ");
    line.append(icon.view_box.as_str());
    line.append(", iconPaths = ");
    line.append(icon.paths.as_str());
    line.append(", backgroundColor = ");
    line.append(props.style.card_container.as_str());
    line.append(", contentColor = ");
    line.append(props.style.card_content.as_str());
    line.append(", accentColor = ");
    line.append(compose_scheme_color(&props.style));
    line.append(", modifier = ");
    line.append(modifier_for_style(&props.style.style).as_str());
    line.append(")\n");
    output.append(line.as_str());
}

/// An avatar: its style and variant, the address of its picture, the name and
/// alternative text of the person, the name of its size, the name of its status,
/// and whether it has a border.
#[derive(Debug, Clone)]
pub struct AvatarProps {
    pub style: VariantProps,
    pub src: Option<String>,
    pub name: Option<String>,
    pub alt: String,
    pub size: String,
    pub status: Option<String>,
    pub bordered: bool,
}

/// The Compose code of an avatar, with its icon inside where it has one.
#[verifier::opaque]
pub open spec fn avatar_text(props: AvatarProps, icon: Option<SvgIcon>, indent: usize, context: ComposeReactiveContext) -> Seq<char> {
    spaces(indent as nat) + "DoweAvatar(source = "@ + (optional_string_text(opt_string_view(props.src)))
        + ", name = "@ + (optional_string_text(opt_string_view(props.name))) + ", alt = "@
        + (string_literal_text(props.alt@)) + ", size = "@ + (string_literal_text(props.size@))
        + ", status = "@ + (optional_string_text(opt_string_view(props.status))) + ", bordered = "@
        + (bool_text(props.bordered)) + ", backgroundColor = "@ + (props.style.container@)
        + ", contentColor = "@ + (props.style.content@) + ", borderColor = "@ + (props.style.content@)
        + ", onClick = "@
        + (component_action_text(context, opt_string_view(props.style.element.on_click), props.style.navigation))
        + ", hasIcon = "@ + (bool_text(icon is Some)) + ") {\n"@
        + (match icon {
        Some(i) => side_icon_line(i, (indent + 4) as usize),
        None => Seq::empty(),
    }) + spaces(indent as nat) + "}\n"@
}

/// Writes an avatar, with its icon inside where it has one.
pub fn render_compose_avatar(props: &AvatarProps, icon: Option<&SvgIcon>, indent: usize, output: &mut String, context: &ComposeReactiveContext)
    requires
        indent + 4 <= usize::MAX,
    ensures
        final(output)@ == old(output)@ + avatar_text(*props, crate::style_values::opt_ref(icon), indent, *context),
{
    reveal(avatar_text);
    let mut line = pad(indent);
    line.append("DoweAvatar(source = ");
    line.append(compose_optional_field(&props.src).as_str());
    line.append(", name = ");
    line.append(compose_optional_field(&props.name).as_str());
    line.append(", alt = ");
    line.append(compose_string_literal(props.alt.as_str()).as_str());
    line.append(", size = ");
    line.append(compose_string_literal(props.size.as_str()).as_str());
    line.append(", status = ");
    line.append(compose_optional_field(&props.status).as_str());
    line.append(", bordered = ");
    line.append(bool_string(props.bordered).as_str());
    line.append(", backgroundColor = ");
    line.append(props.style.container.as_str());
    line.append(", contentColor = ");
    line.append(props.style.content.as_str());
    line.append(", borderColor = ");
    line.append(props.style.content.as_str());
    line.append(", onClick = ");
    line.append(compose_optional_component_action(opt_str(&props.style.element.on_click), props.style.navigation.as_ref(), context).as_str());
    line.append(", hasIcon = ");
    line.append(bool_string(icon.is_some()).as_str());
    line.append(") {\n");
    match icon {
        Some(i) => {
            render_compose_side_icon(i, indent + 4, &mut line);
        },
        None => {
            assert(line@ =~= line@ + Seq::<char>::empty());
        },
    }
    line.append(pad(indent).as_str());
    line.append("}\n");
    output.append(line.as_str());
}

} // verus!
