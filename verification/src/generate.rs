//! The whole Android project of an application: every generated file with its
//! path, content, purpose and platform, and the manifest of the view properties
//! the generated code reads.
use vstd::prelude::*;
use crate::artifacts::{
    android_environment, android_environment_text, android_layouts, android_manifest, android_manifest_text,
    android_notifications, android_responsive, android_routing, android_routing_text, android_strings_xml_text,
    android_translation_artifacts, android_tree_has_camera, android_tree_has_microphone, app_gradle, app_gradle_text,
    dev_manifest, dev_manifest_text, generated_views_index, gradle_properties, is_translation_artifact, main_activity,
    root_gradle, settings_gradle, strings_path_text, styles_xml, tree_has_kind, AndroidArtifact, AndroidArtifactKind,
    TranslationCatalog, ViewNodeKind, ViewRoute, ANDROID_LAYOUTS_TEXT, ANDROID_NOTIFICATIONS_TEXT, ANDROID_RESPONSIVE_TEXT,
    GRADLE_PROPERTIES_TEXT, MAIN_ACTIVITY_TEXT, ROOT_GRADLE_TEXT, SETTINGS_GRADLE_TEXT, STYLES_XML_TEXT,
};
use crate::consumption::{entry_texts, routes_consumed, routes_consumed_entries};
use crate::sorted::{sorted_unique, sorted_unique_strings};
use crate::text::{decimal_string, decimal_text, join, push_joined, string_views};

verus! {

/// The quoted path of a route.
pub open spec fn quoted_route_text(route: ViewRoute) -> Seq<char> {
    "\""@ + route.route_path@ + "\""@
}

/// The manifest of consumed view properties: the schema version, the target, the
/// route paths in order, and the properties that the routes' trees consume,
/// sorted and without repeats.
pub open spec fn view_consumption_text(routes: Seq<ViewRoute>, schema_version: u32) -> Seq<char> {
    "{\"schemaVersion\":"@ + decimal_text(schema_version as nat) + ",\"target\":\"android-dev\",\"routes\":["@
        + join(Seq::new(routes.len(), |i: int| quoted_route_text(routes[i])), ","@) + "],\"consumedProps\":["@
        + join(sorted_unique(entry_texts(routes_consumed(routes))), ","@) + "]}\n"@
}

/// The manifest of the view properties that the generated code reads, for the
/// given routes and the properties their layout and page trees consume.
pub fn android_view_consumption_manifest(routes: &[ViewRoute], schema_version: u32) -> (res: String)
    ensures
        res@ == view_consumption_text(routes@, schema_version),
{
    let mut paths: Vec<String> = Vec::new();
    let mut i: usize = 0;
    while i < routes.len()
        invariant
            i <= routes@.len(),
            paths@.len() == i,
            forall|j: int| 0 <= j < i ==> #[trigger] paths@[j]@ == quoted_route_text(routes@[j]),
        decreases routes@.len() - i,
    {
        let mut p = String::from_str("\"");
        p.append(routes[i].route_path.as_str());
        p.append("\"");
        paths.push(p);
        i = i + 1;
    }
    assert(string_views(paths@) =~= Seq::new(routes@.len(), |j: int| quoted_route_text(routes@[j])));
    let entries = routes_consumed_entries(routes);
    let sorted = sorted_unique_strings(entries);
    let mut out = String::from_str("{\"schemaVersion\":");
    out.append(decimal_string(schema_version as u64).as_str());
    out.append(",\"target\":\"android-dev\",\"routes\":[");
    push_joined(&mut out, &paths, ",");
    out.append("],\"consumedProps\":[");
    push_joined(&mut out, &sorted, ",");
    out.append("]}\n");
    out
}

/// A source file of the development host: its file name and its content.
#[derive(Debug, Clone)]
pub struct DevSource {
    pub file_name: String,
    pub content: String,
}

/// What the view, theme and development host generators produce for an
/// application: its pages, its theme, the development activity and host, the
/// further sources of the development host.
#[derive(Debug, Clone)]
pub struct GeneratedSources {
    pub pages: String,
    pub theme: String,
    pub dev_core: String,
    pub dev_host: String,
    pub dev_shards: Vec<DevSource>,
}

/// The generated files of an Android project.
#[derive(Debug, Clone)]
pub struct AndroidOutput {
    pub files: Vec<AndroidArtifact>,
}

/// What an artifact is: its path, its content, its purpose and its platform.
pub open spec fn artifact_view(a: AndroidArtifact) -> (Seq<char>, Seq<char>, AndroidArtifactKind, Seq<char>) {
    (a.relative_path@, a.content@, a.kind, a.target@)
}

/// Whether the views of some route, in its layout or its page, hold a node of the given kind.
pub open spec fn routes_use(routes: Seq<ViewRoute>, kind: ViewNodeKind) -> bool {
    exists|i: int|
        0 <= i < routes.len() && (tree_has_kind(#[trigger] routes[i].layout_tree, kind) || tree_has_kind(
            routes[i].page_tree,
            kind,
        ))
}

fn routes_have(routes: &[ViewRoute], camera: bool) -> (res: bool)
    ensures
        res == routes_use(routes@, if camera { ViewNodeKind::Camera } else { ViewNodeKind::Microphone }),
{
    let ghost kind = if camera { ViewNodeKind::Camera } else { ViewNodeKind::Microphone };
    let mut i: usize = 0;
    while i < routes.len()
        invariant
            i <= routes@.len(),
            kind == (if camera { ViewNodeKind::Camera } else { ViewNodeKind::Microphone }),
            forall|j: int|
                0 <= j < i ==> !tree_has_kind(#[trigger] routes@[j].layout_tree, kind) && !tree_has_kind(
                    routes@[j].page_tree,
                    kind,
                ),
        decreases routes@.len() - i,
    {
        let found = if camera {
            android_tree_has_camera(&routes[i].layout_tree) || android_tree_has_camera(&routes[i].page_tree)
        } else {
            android_tree_has_microphone(&routes[i].layout_tree) || android_tree_has_microphone(&routes[i].page_tree)
        };
        if found {
            assert(tree_has_kind(routes@[i as int].layout_tree, kind) || tree_has_kind(routes@[i as int].page_tree, kind));
            return true;
        }
        i = i + 1;
    }
    false
}

/// The directory of the development host sources.
pub open spec fn dev_source_dir() -> Seq<char> {
    "apps/android/dev/src/dev/dowe/generated"@
}

/// The path of a development host source: its file name under the sources
/// directory, or the file name itself when it is an absolute path.
pub open spec fn dev_source_path(file_name: Seq<char>) -> Seq<char> {
    if file_name.len() > 0 && file_name[0] == '/' {
        file_name
    } else {
        dev_source_dir() + "/"@ + file_name
    }
}

/// The artifact of a development host source.
pub open spec fn dev_source_view(source: DevSource) -> (Seq<char>, Seq<char>, AndroidArtifactKind, Seq<char>) {
    (dev_source_path(source.file_name@), source.content@, AndroidArtifactKind::DevEntrypoint, "android"@)
}

/// The artifact of the strings of a locale.
pub open spec fn translation_view(catalog: TranslationCatalog, i: int) -> (Seq<char>, Seq<char>, AndroidArtifactKind, Seq<char>) {
    (
        strings_path_text(catalog, catalog.locales@[i]),
        android_strings_xml_text(catalog.locales@[i]),
        AndroidArtifactKind::Localization,
        "android"@,
    )
}

/// The strings resource files of the locales of a catalog, in order.
pub open spec fn translation_views(catalog: TranslationCatalog) -> Seq<(Seq<char>, Seq<char>, AndroidArtifactKind, Seq<char>)> {
    Seq::new(catalog.locales@.len(), |i: int| translation_view(catalog, i))
}

/// The project files that every application has, in order.
pub open spec fn fixed_artifacts(
    routes: Seq<ViewRoute>,
    environment: Seq<(String, String)>,
    app_name: Seq<char>,
    app_bundle: Seq<char>,
    has_app_icon: bool,
    schema_version: u32,
    sources: GeneratedSources,
) -> Seq<(Seq<char>, Seq<char>, AndroidArtifactKind, Seq<char>)> {
    let uses_camera = routes_use(routes, ViewNodeKind::Camera);
    let uses_microphone = routes_use(routes, ViewNodeKind::Microphone);
    seq![
        ("apps/android/settings.gradle.kts"@, SETTINGS_GRADLE_TEXT@, AndroidArtifactKind::ProjectFile, "android"@),
        ("apps/android/build.gradle.kts"@, ROOT_GRADLE_TEXT@, AndroidArtifactKind::ProjectFile, "android"@),
        ("apps/android/gradle.properties"@, GRADLE_PROPERTIES_TEXT@, AndroidArtifactKind::ProjectFile, "android"@),
        ("apps/android/app/build.gradle.kts"@, app_gradle_text(app_bundle), AndroidArtifactKind::ProjectFile, "android"@),
        ("apps/android/app/src/main/AndroidManifest.xml"@, android_manifest_text(app_name, has_app_icon, uses_camera, uses_microphone, schema_version), AndroidArtifactKind::Manifest, "android"@),
        ("apps/android/app/src/main/res/values/styles.xml"@, STYLES_XML_TEXT@, AndroidArtifactKind::ProjectFile, "android"@),
        ("apps/android/app/src/main/java/dev/dowe/generated/MainActivity.kt"@, MAIN_ACTIVITY_TEXT@, AndroidArtifactKind::Entrypoint, "android"@),
        ("apps/android/app/src/main/java/dev/dowe/generated/DoweNotifications.kt"@, ANDROID_NOTIFICATIONS_TEXT@, AndroidArtifactKind::ProjectFile, "android"@),
        ("apps/android/app/src/main/java/dev/dowe/generated/GeneratedViews.kt"@, "package dev.dowe.generated\n"@, AndroidArtifactKind::GeneratedView, "android"@),
        ("apps/android/app/src/main/java/dev/dowe/generated/DoweRouting.kt"@, android_routing_text(routes), AndroidArtifactKind::Routing, "android"@),
        ("apps/android/app/src/main/java/dev/dowe/generated/DoweLayouts.kt"@, ANDROID_LAYOUTS_TEXT@, AndroidArtifactKind::Layouts, "android"@),
        ("apps/android/app/src/main/java/dev/dowe/generated/DowePages.kt"@, sources.pages@, AndroidArtifactKind::Pages, "android"@),
        ("apps/android/app/src/main/java/dev/dowe/generated/DoweEnvironment.kt"@, android_environment_text(environment), AndroidArtifactKind::ProjectFile, "android"@),
        ("apps/android/app/src/main/java/dev/dowe/generated/DoweTheme.kt"@, sources.theme@, AndroidArtifactKind::Theme, "android"@),
        ("apps/android/app/src/main/java/dev/dowe/generated/DoweResponsive.kt"@, ANDROID_RESPONSIVE_TEXT@, AndroidArtifactKind::Responsive, "android"@),
        ("apps/android/dev/AndroidManifest.xml"@, dev_manifest_text(app_name, app_bundle, has_app_icon, uses_camera, uses_microphone, schema_version), AndroidArtifactKind::Manifest, "android"@),
        ("apps/android/dev/src/dev/dowe/generated/DoweDevActivity.java"@, sources.dev_core@, AndroidArtifactKind::DevEntrypoint, "android"@),
        ("apps/android/dev/src/dev/dowe/generated/DoweDevHostActivity.java"@, sources.dev_host@, AndroidArtifactKind::DevEntrypoint, "android"@),
    ]
}

/// Every file of the Android project, in order: the project files, the further
/// development host sources, the strings of each locale, and the manifest of
/// consumed view properties for the application and for the development host.
pub open spec fn android_files(
    routes: Seq<ViewRoute>,
    environment: Seq<(String, String)>,
    localized: Seq<(Seq<char>, Seq<char>, AndroidArtifactKind, Seq<char>)>,
    app_name: Seq<char>,
    app_bundle: Seq<char>,
    has_app_icon: bool,
    schema_version: u32,
    sources: GeneratedSources,
) -> Seq<(Seq<char>, Seq<char>, AndroidArtifactKind, Seq<char>)> {
    let consumption = view_consumption_text(routes, schema_version);
    fixed_artifacts(routes, environment, app_name, app_bundle, has_app_icon, schema_version, sources)
        + Seq::new(sources.dev_shards@.len(), |i: int| dev_source_view(sources.dev_shards@[i]))
        + localized + seq![
        ("apps/android/view-consumption.json"@, consumption, AndroidArtifactKind::Manifest, "android"@),
        ("apps/android/dev/view-consumption.json"@, consumption, AndroidArtifactKind::Manifest, "android"@),
    ]
}

fn artifact(path: &str, content: String, kind: AndroidArtifactKind) -> (res: AndroidArtifact)
    ensures
        artifact_view(res) == (path@, content@, kind, "android"@),
{
    AndroidArtifact { relative_path: String::from_str(path), content, kind, target: "android" }
}

fn dev_source_artifact(source: &DevSource) -> (res: AndroidArtifact)
    ensures
        artifact_view(res) == dev_source_view(*source),
{
    let name = source.file_name.as_str();
    let absolute = name.unicode_len() > 0 && name.get_char(0) == '/';
    let path = if absolute {
        String::from_str(name)
    } else {
        let mut p = String::from_str("apps/android/dev/src/dev/dowe/generated");
        p.append("/");
        p.append(name);
        p
    };
    AndroidArtifact {
        relative_path: path,
        content: source.content.clone(),
        kind: AndroidArtifactKind::DevEntrypoint,
        target: "android",
    }
}

fn push_fixed_artifacts(
    files: &mut Vec<AndroidArtifact>,
    routes: &[ViewRoute],
    environment: &[(String, String)],
    app_name: &str,
    app_bundle: &str,
    has_app_icon: bool,
    schema_version: u32,
    sources: &GeneratedSources,
)
    requires
        old(files)@.len() == 0,
    ensures
        final(files)@.map_values(|a: AndroidArtifact| artifact_view(a)) == fixed_artifacts(
            routes@,
            environment@,
            app_name@,
            app_bundle@,
            has_app_icon,
            schema_version,
            *sources,
        ),
{
    let uses_camera = routes_have(routes, true);
    let uses_microphone = routes_have(routes, false);
    files.push(artifact("apps/android/settings.gradle.kts", settings_gradle(), AndroidArtifactKind::ProjectFile));
    files.push(artifact("apps/android/build.gradle.kts", root_gradle(), AndroidArtifactKind::ProjectFile));
    files.push(artifact("apps/android/gradle.properties", gradle_properties(), AndroidArtifactKind::ProjectFile));
    files.push(artifact("apps/android/app/build.gradle.kts", app_gradle(app_bundle), AndroidArtifactKind::ProjectFile));
    files.push(artifact("apps/android/app/src/main/AndroidManifest.xml", android_manifest(app_name, has_app_icon, uses_camera, uses_microphone, schema_version), AndroidArtifactKind::Manifest));
    files.push(artifact("apps/android/app/src/main/res/values/styles.xml", styles_xml(), AndroidArtifactKind::ProjectFile));
    files.push(artifact("apps/android/app/src/main/java/dev/dowe/generated/MainActivity.kt", main_activity(), AndroidArtifactKind::Entrypoint));
    files.push(artifact("apps/android/app/src/main/java/dev/dowe/generated/DoweNotifications.kt", android_notifications(), AndroidArtifactKind::ProjectFile));
    files.push(artifact("apps/android/app/src/main/java/dev/dowe/generated/GeneratedViews.kt", generated_views_index(), AndroidArtifactKind::GeneratedView));
    files.push(artifact("apps/android/app/src/main/java/dev/dowe/generated/DoweRouting.kt", android_routing(routes), AndroidArtifactKind::Routing));
    files.push(artifact("apps/android/app/src/main/java/dev/dowe/generated/DoweLayouts.kt", android_layouts(), AndroidArtifactKind::Layouts));
    files.push(artifact("apps/android/app/src/main/java/dev/dowe/generated/DowePages.kt", sources.pages.clone(), AndroidArtifactKind::Pages));
    files.push(artifact("apps/android/app/src/main/java/dev/dowe/generated/DoweEnvironment.kt", android_environment(environment), AndroidArtifactKind::ProjectFile));
    files.push(artifact("apps/android/app/src/main/java/dev/dowe/generated/DoweTheme.kt", sources.theme.clone(), AndroidArtifactKind::Theme));
    files.push(artifact("apps/android/app/src/main/java/dev/dowe/generated/DoweResponsive.kt", android_responsive(), AndroidArtifactKind::Responsive));
    files.push(artifact("apps/android/dev/AndroidManifest.xml", dev_manifest(app_name, app_bundle, has_app_icon, uses_camera, uses_microphone, schema_version), AndroidArtifactKind::Manifest));
    files.push(artifact("apps/android/dev/src/dev/dowe/generated/DoweDevActivity.java", sources.dev_core.clone(), AndroidArtifactKind::DevEntrypoint));
    files.push(artifact("apps/android/dev/src/dev/dowe/generated/DoweDevHostActivity.java", sources.dev_host.clone(), AndroidArtifactKind::DevEntrypoint));
    assert(files@.map_values(|a: AndroidArtifact| artifact_view(a)) =~= fixed_artifacts(
        routes@,
        environment@,
        app_name@,
        app_bundle@,
        has_app_icon,
        schema_version,
        *sources,
    ));
}

/// Generates every file of the Android project of an application: its project
/// files (with the capture permissions that its views need), the development
/// host sources, the strings of each locale and the manifests of consumed view
/// properties; `sources` holds what the view, theme and development host
/// generators produced for it.
pub fn generate_android_with_app_translations_and_icons(
    routes: &[ViewRoute],
    environment: &[(String, String)],
    translations: &TranslationCatalog,
    app_name: &str,
    app_bundle: &str,
    has_app_icon: bool,
    schema_version: u32,
    sources: &GeneratedSources,
) -> (res: AndroidOutput)
    ensures
        res.files@.map_values(|a: AndroidArtifact| artifact_view(a)) == android_files(
            routes@,
            environment@,
            translation_views(*translations),
            app_name@,
            app_bundle@,
            has_app_icon,
            schema_version,
            *sources,
        ),
{
    let mut files: Vec<AndroidArtifact> = Vec::new();
    push_fixed_artifacts(&mut files, routes, environment, app_name, app_bundle, has_app_icon, schema_version, sources);
    let ghost fixed = files@.map_values(|a: AndroidArtifact| artifact_view(a));
    let shards = &sources.dev_shards;
    let mut i: usize = 0;
    while i < shards.len()
        invariant
            i <= shards@.len(),
            files@.map_values(|a: AndroidArtifact| artifact_view(a)) == fixed + Seq::new(
                i as nat,
                |j: int| dev_source_view(shards@[j]),
            ),
        decreases shards@.len() - i,
    {
        let ghost before = files@;
        let art = dev_source_artifact(&shards[i]);
        let ghost av = artifact_view(art);
        files.push(art);
        assert(files@.map_values(|a: AndroidArtifact| artifact_view(a)) =~= before.map_values(
            |a: AndroidArtifact| artifact_view(a),
        ).push(av));
        assert(files@.map_values(|a: AndroidArtifact| artifact_view(a)) =~= fixed + Seq::new(
            (i + 1) as nat,
            |j: int| dev_source_view(shards@[j]),
        ));
        i = i + 1;
    }
    let ghost with_shards = files@.map_values(|a: AndroidArtifact| artifact_view(a));
    let mut localized = android_translation_artifacts(translations);
    let ghost localized_views = localized@.map_values(|a: AndroidArtifact| artifact_view(a));
    assert(localized_views =~= Seq::new(translations.locales@.len(), |j: int| translation_view(*translations, j))) by {
        assert forall|j: int| 0 <= j < localized@.len() implies #[trigger] localized_views[j] == translation_view(*translations, j) by {
            assert(is_translation_artifact(localized@[j], *translations, translations.locales@[j]));
        }
    }
    files.append(&mut localized);
    assert(files@.map_values(|a: AndroidArtifact| artifact_view(a)) =~= with_shards + localized_views);
    let consumption = android_view_consumption_manifest(routes, schema_version);
    files.push(artifact("apps/android/view-consumption.json", consumption.clone(), AndroidArtifactKind::Manifest));
    files.push(artifact("apps/android/dev/view-consumption.json", consumption, AndroidArtifactKind::Manifest));
    assert(files@.map_values(|a: AndroidArtifact| artifact_view(a)) =~= android_files(
        routes@,
        environment@,
        translation_views(*translations),
        app_name@,
        app_bundle@,
        has_app_icon,
        schema_version,
        *sources,
    ));
    AndroidOutput { files }
}

/// Generates the Android project of an application without an application icon.
pub fn generate_android_with_app_and_translations(
    routes: &[ViewRoute],
    environment: &[(String, String)],
    translations: &TranslationCatalog,
    app_name: &str,
    app_bundle: &str,
    schema_version: u32,
    sources: &GeneratedSources,
) -> (res: AndroidOutput)
    ensures
        res.files@.map_values(|a: AndroidArtifact| artifact_view(a)) == android_files(
            routes@,
            environment@,
            translation_views(*translations),
            app_name@,
            app_bundle@,
            false,
            schema_version,
            *sources,
        ),
{
    generate_android_with_app_translations_and_icons(
        routes,
        environment,
        translations,
        app_name,
        app_bundle,
        false,
        schema_version,
        sources,
    )
}

/// Generates the Android project of the development application (`Dowe Dev`,
/// `dev.dowe.generated`) with the given translations.
pub fn generate_android_with_translations(
    routes: &[ViewRoute],
    environment: &[(String, String)],
    translations: &TranslationCatalog,
    schema_version: u32,
    sources: &GeneratedSources,
) -> (res: AndroidOutput)
    ensures
        res.files@.map_values(|a: AndroidArtifact| artifact_view(a)) == android_files(
            routes@,
            environment@,
            translation_views(*translations),
            "Dowe Dev"@,
            "dev.dowe.generated"@,
            false,
            schema_version,
            *sources,
        ),
{
    generate_android_with_app_and_translations(
        routes,
        environment,
        translations,
        "Dowe Dev",
        "dev.dowe.generated",
        schema_version,
        sources,
    )
}

/// Generates the Android project of the development application without translations.
pub fn generate_android(
    routes: &[ViewRoute],
    environment: &[(String, String)],
    schema_version: u32,
    sources: &GeneratedSources,
) -> (res: AndroidOutput)
    ensures
        res.files@.map_values(|a: AndroidArtifact| artifact_view(a)) == android_files(
            routes@,
            environment@,
            Seq::empty(),
            "Dowe Dev"@,
            "dev.dowe.generated"@,
            false,
            schema_version,
            *sources,
        ),
{
    let translations = TranslationCatalog { default_locale: None, locales: Vec::new() };
    let res = generate_android_with_translations(routes, environment, &translations, schema_version, sources);
    assert(translation_views(translations) =~= Seq::empty());
    res
}

} // verus!
