use generator_android::artifacts::{ViewNode, ViewNodeKind};
use generator_android::consumption::{
    consumed_entry, consumed_props_for_tree, control_consumed_props, media_consumed_props, node_consumed_props,
    structure_consumed_props, ConsumedProp,
};

fn describe(props: &[ConsumedProp]) -> Vec<String> {
    props
        .iter()
        .map(|p| match &p.item {
            Some(item) => format!("{}/{}:{}={}", p.component, item, p.prop, p.ir_field),
            None => format!("{}:{}={}", p.component, p.prop, p.ir_field),
        })
        .collect()
}

#[test]
fn carousel_consumes_its_playback_props() {
    assert_eq!(
        describe(&structure_consumed_props(ViewNodeKind::Carousel)),
        vec![
            "Carousel:slidesPerView=CarouselProps.slides_per_view",
            "Carousel:autoplay=CarouselProps.autoplay",
            "Carousel:orientation=CarouselProps.orientation",
        ]
    );
}

#[test]
fn bound_stepper_consumes_position_bind_and_tab_items() {
    assert_eq!(
        describe(&structure_consumed_props(ViewNodeKind::Tabs { stepper: true, bind: true })),
        vec![
            "Stepper:position=TabsProps.position",
            "Stepper:bind=ElementProps.bind",
            "Stepper/Tab:id=TabItem.id",
            "Stepper/Tab:label=TabItem.label",
            "Stepper/Tab:i18n=TabItem.i18n",
        ]
    );
    assert_eq!(describe(&structure_consumed_props(ViewNodeKind::Tabs { stepper: false, bind: false }))[0], "Tabs:position=TabsProps.position");
    assert_eq!(structure_consumed_props(ViewNodeKind::Tabs { stepper: false, bind: false }).len(), 4);
}

#[test]
fn box_consumes_only_the_style_it_sets() {
    assert_eq!(
        describe(&structure_consumed_props(ViewNodeKind::Section { bg: false, text: true, rounded: false, padding: true })),
        vec!["Box:color=StyleProps.text", "Box:p=SpacingProps.p"]
    );
    assert!(structure_consumed_props(ViewNodeKind::Box { bg: false, text: false, rounded: false, padding: false }).is_empty());
}

#[test]
fn charts_consume_common_and_own_props() {
    let pie = describe(&structure_consumed_props(ViewNodeKind::PieChart));
    assert_eq!(pie.len(), 15);
    assert_eq!(pie[0], "PieChart:data=ChartCommonProps.data");
    assert_eq!(pie[14], "PieChart:showGlow=PieChartProps.show_glow");
}

#[test]
fn drawing_canvas_consumes_layer_props() {
    assert_eq!(structure_consumed_props(ViewNodeKind::Canvas { draw: true }).len(), 12);
    let plain = describe(&structure_consumed_props(ViewNodeKind::Canvas { draw: false }));
    assert_eq!(plain.len(), 6);
    assert_eq!(plain[0], "Canvas:scene=CanvasProps.scene");
}

#[test]
fn media_and_controls_registrars() {
    assert_eq!(
        describe(&media_consumed_props(ViewNodeKind::Editor { on_save: true })),
        vec!["Editor:language=EditorProps.language", "Editor:hideToolbar=EditorProps.hide_toolbar", "Editor:onSave=EditorProps.on_save"]
    );
    assert_eq!(media_consumed_props(ViewNodeKind::Editor { on_save: false }).len(), 2);
    assert_eq!(describe(&media_consumed_props(ViewNodeKind::RadioGroup { card: true })), vec!["RadioCard:orientation=RadioGroupProps.orientation"]);
    assert!(media_consumed_props(ViewNodeKind::Password).is_empty());
    assert_eq!(
        describe(&control_consumed_props(ViewNodeKind::Button {
            scheme: false,
            variant: true,
            size: false,
            rounded: false,
            loading: true,
            disabled: false
        })),
        vec!["Button:variant=VariantProps.variant", "Button:loading=VariantProps.reactive.loading"]
    );
    assert_eq!(
        describe(&node_consumed_props(ViewNodeKind::Select {
            scheme: false,
            variant: false,
            size: false,
            bind: true,
            label: false,
            placeholder: true,
            i18n: false
        })),
        vec!["Select:bind=ElementProps.bind", "Select:placeholder=VariantProps.placeholder"]
    );
}

#[test]
fn tree_consumption_walks_root_then_children() {
    let tree = ViewNode {
        kind: ViewNodeKind::Toast,
        children: vec![
            ViewNode { kind: ViewNodeKind::Other, children: vec![ViewNode { kind: ViewNodeKind::Pin, children: Vec::new() }] },
            ViewNode { kind: ViewNodeKind::Microphone, children: Vec::new() },
        ],
    };
    assert_eq!(
        describe(&consumed_props_for_tree(&tree)),
        vec!["Toast:source=ToastProps.source", "Pin:length=PinProps.length", "Microphone:onError=MicrophoneProps.on_error"]
    );
}

#[test]
fn consumed_entry_names_its_owner() {
    let item = &structure_consumed_props(ViewNodeKind::Table)[0];
    assert_eq!(
        consumed_entry(item),
        "{\"component\":\"Table\",\"owner\":\"Item:TableColumn\",\"prop\":\"field\",\"irField\":\"TableColumn.field\"}"
    );
}
