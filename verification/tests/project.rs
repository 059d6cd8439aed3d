use generator_android::artifacts::{
    android_capture_permissions, android_environment, android_manifest, android_translation_artifacts,
    android_tree_has_camera, android_tree_has_microphone, routes_first_path, AndroidArtifactKind, TranslationCatalog,
    TranslationLocale, TranslationValue, ViewNode, ViewNodeKind, ViewRoute, ViewSection,
};
use generator_android::generate::{
    android_view_consumption_manifest, generate_android, generate_android_with_app_translations_and_icons,
    generate_android_with_translations, DevSource, GeneratedSources,
};

fn leaf(kind: ViewNodeKind) -> ViewNode {
    ViewNode { kind, children: Vec::new() }
}

fn route(path: &str, page: ViewNode) -> ViewRoute {
    ViewRoute {
        route_path: path.to_string(),
        sections: vec![ViewSection { id: "top".to_string() }],
        layout_tree: leaf(ViewNodeKind::Other),
        page_tree: page,
    }
}

fn sources() -> GeneratedSources {
    GeneratedSources {
        pages: "// pages".to_string(),
        theme: "// theme".to_string(),
        dev_core: "// dev".to_string(),
        dev_host: "// host".to_string(),
        dev_shards: vec![
            DevSource { file_name: "DoweDevShard0.java".to_string(), content: "// shard".to_string() },
            DevSource { file_name: "/abs/Shard.java".to_string(), content: "// abs".to_string() },
        ],
    }
}

#[test]
fn camera_and_microphone_are_found_anywhere_in_a_tree() {
    let tree = ViewNode {
        kind: ViewNodeKind::Other,
        children: vec![leaf(ViewNodeKind::Other), ViewNode { kind: ViewNodeKind::Other, children: vec![leaf(ViewNodeKind::Camera)] }],
    };
    assert!(android_tree_has_camera(&tree));
    assert!(!android_tree_has_microphone(&tree));
    assert!(android_tree_has_microphone(&leaf(ViewNodeKind::Microphone)));
}

#[test]
fn capture_permissions() {
    let camera = "    <uses-permission android:name=\"android.permission.CAMERA\" />";
    let microphone = "    <uses-permission android:name=\"android.permission.RECORD_AUDIO\" />";
    assert_eq!(android_capture_permissions(false, false), "");
    assert_eq!(android_capture_permissions(true, false), camera);
    assert_eq!(android_capture_permissions(false, true), microphone);
    assert_eq!(android_capture_permissions(true, true), format!("{camera}\n{microphone}"));
}

#[test]
fn manifest_escapes_the_application_name() {
    let manifest = android_manifest("Tom & Jerry", false, true, false, 3);
    assert!(manifest.contains("android:label=\"Tom &amp; Jerry\""));
    assert!(manifest.contains("android.permission.CAMERA"));
    assert!(!manifest.contains("RECORD_AUDIO"));
    assert!(manifest.contains("<meta-data android:name=\"dev.dowe.ir.schema\" android:value=\"3\" />"));
}

#[test]
fn environment_adds_an_empty_backend_url() {
    let env = vec![("API_KEY".to_string(), "a\"b".to_string())];
    let source = android_environment(&env);
    assert!(source.contains("    const val API_KEY = \"a\\\"b\"\n    const val BACKEND_URL = \"\""));
    let with_backend = vec![("BACKEND_URL".to_string(), "https://x".to_string())];
    let source = android_environment(&with_backend);
    assert!(source.contains("    const val BACKEND_URL = \"https://x\""));
    assert_eq!(source.matches("BACKEND_URL").count(), 1);
}

#[test]
fn first_route_is_the_initial_path() {
    assert_eq!(routes_first_path(&[]), "/");
    assert_eq!(routes_first_path(&[route("/home", leaf(ViewNodeKind::Other)), route("/b", leaf(ViewNodeKind::Other))]), "/home");
}

#[test]
fn translations_go_to_the_default_and_locale_directories() {
    let catalog = TranslationCatalog {
        default_locale: Some("en".to_string()),
        locales: vec![
            TranslationLocale {
                locale: "en".to_string(),
                values: vec![TranslationValue { resource_name: "hello".to_string(), value: "Hello".to_string() }],
            },
            TranslationLocale { locale: "es".to_string(), values: Vec::new() },
        ],
    };
    let files = android_translation_artifacts(&catalog);
    assert_eq!(files.len(), 2);
    assert_eq!(files[0].relative_path, "apps/android/app/src/main/res/values/strings.xml");
    assert_eq!(files[1].relative_path, "apps/android/app/src/main/res/values-es/strings.xml");
    assert_eq!(files[0].kind, AndroidArtifactKind::Localization);
    assert!(files[0].content.contains("<string name=\"hello\">Hello</string>"));
}

#[test]
fn consumption_manifest_sorts_and_deduplicates() {
    let boxed = ViewNode {
        kind: ViewNodeKind::Box { bg: true, text: false, rounded: false, padding: false },
        children: vec![leaf(ViewNodeKind::Text { size: true, weight: false, spacing: false })],
    };
    let about = ViewNode {
        kind: ViewNodeKind::Section { bg: true, text: false, rounded: false, padding: false },
        children: vec![leaf(ViewNodeKind::Modal)],
    };
    let routes = vec![route("/", boxed), route("/about", about)];
    let manifest = android_view_consumption_manifest(&routes, 2);
    assert_eq!(
        manifest,
        "{\"schemaVersion\":2,\"target\":\"android-dev\",\"routes\":[\"/\",\"/about\"],\"consumedProps\":[{\"component\":\"Box\",\"owner\":\"Box\",\"prop\":\"bg\",\"irField\":\"StyleProps.bg\"},{\"component\":\"Modal\",\"owner\":\"Modal\",\"prop\":\"bind\",\"irField\":\"ModalProps.open\"},{\"component\":\"Text\",\"owner\":\"Text\",\"prop\":\"size\",\"irField\":\"TextProps.size\"}]}\n"
    );
}

#[test]
fn consumption_manifest_of_routes_without_consumers_is_empty() {
    let routes = vec![route("/", leaf(ViewNodeKind::Other))];
    assert_eq!(
        android_view_consumption_manifest(&routes, 3),
        "{\"schemaVersion\":3,\"target\":\"android-dev\",\"routes\":[\"/\"],\"consumedProps\":[]}\n"
    );
}

#[test]
fn generated_project_has_every_file_in_order() {
    let routes = vec![route("/", leaf(ViewNodeKind::Camera))];
    let output = generate_android(&routes, &[], 1, &sources());
    let paths: Vec<&str> = output.files.iter().map(|f| f.relative_path.as_str()).collect();
    assert_eq!(
        paths,
        vec![
            "apps/android/settings.gradle.kts",
            "apps/android/build.gradle.kts",
            "apps/android/gradle.properties",
            "apps/android/app/build.gradle.kts",
            "apps/android/app/src/main/AndroidManifest.xml",
            "apps/android/app/src/main/res/values/styles.xml",
            "apps/android/app/src/main/java/dev/dowe/generated/MainActivity.kt",
            "apps/android/app/src/main/java/dev/dowe/generated/DoweNotifications.kt",
            "apps/android/app/src/main/java/dev/dowe/generated/GeneratedViews.kt",
            "apps/android/app/src/main/java/dev/dowe/generated/DoweRouting.kt",
            "apps/android/app/src/main/java/dev/dowe/generated/DoweLayouts.kt",
            "apps/android/app/src/main/java/dev/dowe/generated/DowePages.kt",
            "apps/android/app/src/main/java/dev/dowe/generated/DoweEnvironment.kt",
            "apps/android/app/src/main/java/dev/dowe/generated/DoweTheme.kt",
            "apps/android/app/src/main/java/dev/dowe/generated/DoweResponsive.kt",
            "apps/android/dev/AndroidManifest.xml",
            "apps/android/dev/src/dev/dowe/generated/DoweDevActivity.java",
            "apps/android/dev/src/dev/dowe/generated/DoweDevHostActivity.java",
            "apps/android/dev/src/dev/dowe/generated/DoweDevShard0.java",
            "/abs/Shard.java",
            "apps/android/view-consumption.json",
            "apps/android/dev/view-consumption.json",
        ]
    );
    assert!(output.files.iter().all(|f| f.target == "android"));
    assert_eq!(output.files[4].kind, AndroidArtifactKind::Manifest);
    assert!(output.files[4].content.contains("android.permission.CAMERA"));
    assert!(!output.files[4].content.contains("RECORD_AUDIO"));
    assert!(output.files[4].content.contains("android:label=\"Dowe Dev\""));
    assert!(output.files[15].content.contains("package=\"dev.dowe.generated\""));
    assert_eq!(output.files[11].content, "// pages");
    assert_eq!(output.files[11].kind, AndroidArtifactKind::Pages);
    assert_eq!(output.files[13].kind, AndroidArtifactKind::Theme);
    assert_eq!(output.files[18].kind, AndroidArtifactKind::DevEntrypoint);
    assert_eq!(output.files[20].content, output.files[21].content);
    assert_eq!(output.files[8].content, "package dev.dowe.generated\n");
}

#[test]
fn generated_project_with_translations_and_icon() {
    let routes = vec![route("/", leaf(ViewNodeKind::Microphone))];
    let catalog = TranslationCatalog {
        default_locale: None,
        locales: vec![TranslationLocale { locale: "fr".to_string(), values: Vec::new() }],
    };
    let output = generate_android_with_app_translations_and_icons(
        &routes,
        &[],
        &catalog,
        "Shop",
        "com.example.shop",
        true,
        1,
        &sources(),
    );
    assert_eq!(output.files.len(), 18 + 2 + 1 + 2);
    assert_eq!(output.files[20].relative_path, "apps/android/app/src/main/res/values-fr/strings.xml");
    assert!(output.files[4].content.contains("RECORD_AUDIO"));
    assert!(!output.files[4].content.contains("android.permission.CAMERA"));
    assert!(output.files[3].content.contains("com.example.shop"));
    let plain = generate_android_with_translations(&routes, &[], &catalog, 1, &sources());
    assert_eq!(plain.files.len(), output.files.len());
}
