use generator_android::layout::{
    modifier_for_avatar_style, modifier_for_style, modifier_for_style_with_base, modifier_for_style_with_base_and_shadow_shape,
    modifier_for_style_with_shadow_shape, title_case, ElementProps, MotionProps, NumberText, SizingProps, SpacingProps,
    StyleBinding, StyleProps,
};
use generator_android::style_values::{
    BorderWidth, ColorToken, ResponsiveEntry, ResponsiveValue, RoundedSize, ScaleValue, ShadowSize, SizeValue,
    ViewAnimation,
};

fn base<T>(value: T) -> ResponsiveValue<T> {
    ResponsiveValue { entries: vec![ResponsiveEntry { breakpoint: "base".to_string(), value }] }
}

fn no_motion() -> MotionProps {
    MotionProps { rotate: None, scale: None, translate_x: None, translate_y: None, gesture: None, transition: None }
}

fn plain() -> StyleProps {
    StyleProps {
        element: ElementProps { id: None, bind: None, on_click: None, show: None, validation: None },
        bg: None,
        text: None,
        spacing: SpacingProps { p: None, px: None, py: None, pl: None, pr: None, pt: None, pb: None },
        sizing: SizingProps { w: None, w_binding: None, h: None, min_w: None, min_h: None, max_w: None, max_h: None },
        rounded: None,
        border: None,
        border_color: None,
        shadow: None,
        shadow_color: None,
        motion: no_motion(),
        bindings: Vec::new(),
        animation: None,
        center_y: None,
        font: None,
    }
}

#[test]
fn plain_style_adds_nothing() {
    assert_eq!(modifier_for_style(&plain()), "Modifier");
    assert_eq!(modifier_for_style_with_base(&plain(), "Modifier.fillMaxWidth()".to_string()), "Modifier.fillMaxWidth()");
}

#[test]
fn shadow_follows_the_rounded_corners_or_the_given_shape() {
    let mut props = plain();
    props.shadow = Some(base(ShadowSize::Md));
    props.rounded = Some(base(RoundedSize::Lg));
    assert_eq!(
        modifier_for_style(&props),
        "Modifier.doweShadow(radius = doweResponsive(viewportWidth, base = 24.dp) ?: 0.dp, shape = RoundedCornerShape(doweResponsive(viewportWidth, base = 12.dp) ?: DoweDesign.radius), color = Color.Black, alpha = null).doweRounded(doweResponsive(viewportWidth, base = 12.dp))"
    );
    props.rounded = None;
    props.shadow_color = Some(ColorToken { reference: "DoweDesign.primary".to_string() });
    assert_eq!(
        modifier_for_style_with_shadow_shape(&props, "CircleShape"),
        "Modifier.doweShadow(radius = doweResponsive(viewportWidth, base = 24.dp) ?: 0.dp, shape = CircleShape, color = DoweDesign.primary, alpha = 0.28f)"
    );
    assert_eq!(
        modifier_for_avatar_style(&props),
        "Modifier.doweShadow(radius = doweResponsive(viewportWidth, base = 24.dp) ?: 0.dp, shape = RoundedCornerShape(999.dp), color = DoweDesign.primary, alpha = 0.28f)"
    );
}

#[test]
fn border_takes_its_color_and_the_view_radius() {
    let mut props = plain();
    props.border = Some(base(BorderWidth(2)));
    assert_eq!(
        modifier_for_style(&props),
        "Modifier.border(doweResponsive(viewportWidth, base = 2.dp) ?: 0.dp, DoweDesign.backgroundText, RoundedCornerShape(null ?: DoweDesign.radius))"
    );
    props.border_color = Some(ColorToken { reference: "DoweDesign.danger".to_string() });
    props.rounded = Some(base(RoundedSize::Xs));
    assert!(modifier_for_style(&props).ends_with(
        ".border(doweResponsive(viewportWidth, base = 2.dp) ?: 0.dp, DoweDesign.danger, RoundedCornerShape(doweResponsive(viewportWidth, base = 4.dp) ?: DoweDesign.radius))"
    ));
}

#[test]
fn sizes_come_largest_first() {
    let mut props = plain();
    props.sizing.max_w = Some(base(SizeValue::Full));
    props.sizing.min_h = Some(base(SizeValue::Scale(ScaleValue { native_units: 40 })));
    let chain = modifier_for_style(&props);
    assert!(chain.starts_with("Modifier.doweMaxWidth("));
    assert!(chain.contains(").doweMinHeight("));
}

#[test]
fn transforms_and_gestures_follow_the_border() {
    let mut props = plain();
    props.motion.rotate = Some(base(NumberText { digits: "45".to_string() }));
    props.motion.translate_y = Some(base(ScaleValue { native_units: 4 }));
    props.motion.gesture = Some("press".to_string());
    props.animation = Some(ViewAnimation::FadeIn);
    assert_eq!(
        modifier_for_style(&props),
        "Modifier.graphicsLayer { rotationZ = doweResponsive(viewportWidth, base = 45f) ?: 0f; scaleX = 1f; scaleY = 1f; translationX = 0f; translationY = (doweResponsive(viewportWidth, base = 4.dp) ?: 0.dp).toPx() }.doweGesture(DoweGesturePreset.Press, DoweTransitionPreset.Smooth).doweAnimation(DoweAnimationPreset.FadeIn)"
    );
    props.motion.scale = Some(base(NumberText { digits: "1.05".to_string() }));
    props.motion.transition = Some("bouncy".to_string());
    let chain = modifier_for_style(&props);
    assert!(chain.contains("scaleX = doweResponsive(viewportWidth, base = 1.05f) ?: 1f; scaleY = doweResponsive(viewportWidth, base = 1.05f) ?: 1f"));
    assert!(chain.contains("DoweTransitionPreset.Bouncy"));
}

#[test]
fn bound_properties_close_the_chain_but_not_the_shadow_variant() {
    let mut props = plain();
    props.animation = Some(ViewAnimation::SlideUp);
    props.bindings = vec![StyleBinding { property: "bg".to_string(), path: "theme.\"bg\"".to_string() }];
    assert_eq!(
        modifier_for_style(&props),
        "Modifier.doweAnimation(DoweAnimationPreset.SlideUp).doweReactiveStyle(\"bg\", state.text(\"theme.\\\"bg\\\"\"))"
    );
    assert_eq!(
        modifier_for_style_with_base_and_shadow_shape(&props, "Modifier".to_string(), None),
        "Modifier.doweAnimation(DoweAnimationPreset.SlideUp)"
    );
}

#[test]
fn title_case_raises_only_a_leading_ascii_letter() {
    assert_eq!(title_case("press"), "Press");
    assert_eq!(title_case("Smooth"), "Smooth");
    assert_eq!(title_case("élan"), "élan");
    assert_eq!(title_case(""), "");
}
