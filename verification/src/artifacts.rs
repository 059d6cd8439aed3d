//! The project files of the generated Android application: Gradle scripts,
//! manifests, fixed Kotlin sources, routing, environment and translations.
use vstd::prelude::*;
use crate::text::{
    decimal_text, escape_android_xml, join, kotlin_escaped, push_decimal, push_joined, push_kotlin_escaped,
    str_eq, string_views, xml_escaped,
};

verus! {

/// What a generated file is for.
#[derive(Debug, Clone, Copy, PartialEq, Eq, Structural)]
pub enum AndroidArtifactKind {
    ProjectFile,
    Manifest,
    Entrypoint,
    GeneratedView,
    Routing,
    Layouts,
    Pages,
    Theme,
    Responsive,
    DevEntrypoint,
    Localization,
}

/// One generated file: where it goes, what it holds, what it is for and the
/// platform it belongs to.
#[derive(Debug, Clone)]
pub struct AndroidArtifact {
    pub relative_path: String,
    pub content: String,
    pub kind: AndroidArtifactKind,
    pub target: &'static str,
}

/// A node of a view tree, reduced to what the Android project files and the
/// manifest of consumed properties read of it: its kind and its children, in order.
#[derive(Debug)]
pub struct ViewNode {
    pub kind: ViewNodeKind,
    pub children: Vec<ViewNode>,
}

/// The kinds of view nodes the project files and the manifest of consumed
/// properties tell apart, with what they read of a node: for a box or section,
/// a text, a field or a button, which of its properties it sets (directly or
/// through a binding); for tabs whether they are a stepper and are bound; for a
/// canvas whether it is a drawing surface; for an editor whether it has a save
/// action; for a radio group whether it shows cards.
#[derive(Debug, Clone, Copy, PartialEq, Eq, Structural)]
pub enum ViewNodeKind {
    Camera,
    Microphone,
    Box { bg: bool, text: bool, rounded: bool, padding: bool },
    Section { bg: bool, text: bool, rounded: bool, padding: bool },
    Candlestick,
    ArcChart,
    AreaChart,
    BarChart,
    LineChart,
    PieChart,
    Tabs { stepper: bool, bind: bool },
    Accordion,
    Carousel,
    Table,
    Tree,
    NavMenu,
    SideNav,
    RailNav,
    BottomBar,
    Svg,
    Canvas { draw: bool },
    Modal,
    AlertDialog,
    Command,
    Toast,
    AppBar,
    Footer,
    Sidebar,
    Scaffold,
    Drawer,
    Audio,
    Video,
    Iframe,
    Device,
    Editor { on_save: bool },
    Date,
    DateRange,
    Password,
    Phone,
    Pin,
    Textarea,
    Color,
    Dropzone,
    Checkbox,
    Toggle,
    RadioGroup { card: bool },
    Slider,
    Image,
    Text { size: bool, weight: bool, spacing: bool },
    Title { size: bool, weight: bool, spacing: bool },
    Input { scheme: bool, variant: bool, size: bool, bind: bool, label: bool, placeholder: bool, i18n: bool },
    Select { scheme: bool, variant: bool, size: bool, bind: bool, label: bool, placeholder: bool, i18n: bool },
    Button { scheme: bool, variant: bool, size: bool, rounded: bool, loading: bool, disabled: bool },
    Other,
}

/// A section of a route, addressed by a fragment.
#[derive(Debug, Clone)]
pub struct ViewSection {
    pub id: String,
}

/// A route of the application: its path, its sections and its two view trees.
#[derive(Debug)]
pub struct ViewRoute {
    pub route_path: String,
    pub sections: Vec<ViewSection>,
    pub layout_tree: ViewNode,
    pub page_tree: ViewNode,
}

/// One translated string: the Android resource name of its key and its text.
#[derive(Debug, Clone)]
pub struct TranslationValue {
    pub resource_name: String,
    pub value: String,
}

/// The translations of one locale.
#[derive(Debug, Clone)]
pub struct TranslationLocale {
    pub locale: String,
    pub values: Vec<TranslationValue>,
}

/// All translations of the application and the locale that is the default.
#[derive(Debug, Clone)]
pub struct TranslationCatalog {
    pub default_locale: Option<String>,
    pub locales: Vec<TranslationLocale>,
}

pub const ANDROID_RESPONSIVE_TEXT: &'static str = "package dev.dowe.generated\n\nobject DoweResponsiveModule {\n    const val generated = true\n}\n";
pub const SETTINGS_GRADLE_TEXT: &'static str = "pluginManagement { repositories { google(); mavenCentral(); gradlePluginPortal() } }\ndependencyResolutionManagement { repositoriesMode.set(RepositoriesMode.FAIL_ON_PROJECT_REPOS); repositories { google(); mavenCentral() } }\nrootProject.name = \"DoweGeneratedAndroid\"\ninclude(\":app\")\n";
pub const ROOT_GRADLE_TEXT: &'static str = "plugins {\n    id(\"com.android.application\") version \"8.13.1\" apply false\n    id(\"org.jetbrains.kotlin.android\") version \"2.2.21\" apply false\n    id(\"org.jetbrains.kotlin.plugin.compose\") version \"2.2.21\" apply false\n}\n";
pub const GRADLE_PROPERTIES_TEXT: &'static str = "android.useAndroidX=true\nkotlin.jvm.target.validation.mode=warning\norg.gradle.jvmargs=-Xmx2048m -XX:MaxMetaspaceSize=1024m -Dfile.encoding=UTF-8\nkotlin.daemon.jvmargs=-Xmx8192m\norg.gradle.workers.max=2\n";
pub const STYLES_XML_TEXT: &'static str = "<resources>\n    <style name=\"AppTheme\" parent=\"android:style/Theme.Material.Light.NoActionBar\" />\n</resources>\n";
pub const MAIN_ACTIVITY_TEXT: &'static str = "package dev.dowe.generated\n\nimport android.content.Intent\nimport android.content.res.Configuration\nimport android.os.Bundle\nimport androidx.activity.enableEdgeToEdge\nimport androidx.activity.ComponentActivity\nimport androidx.activity.compose.setContent\nimport androidx.compose.runtime.SideEffect\nimport androidx.compose.runtime.getValue\nimport androidx.compose.runtime.mutableStateOf\nimport androidx.compose.runtime.setValue\nimport androidx.compose.ui.graphics.luminance\nimport androidx.core.view.WindowCompat\n\nclass MainActivity : ComponentActivity() {\n    private var incomingPath by mutableStateOf(DoweRoutes.initialPath)\n    private var incomingFragment by mutableStateOf<String?>(null)\n    private var incomingRequest by mutableStateOf(0)\n\n    override fun onCreate(savedInstanceState: Bundle?) {\n        super.onCreate(savedInstanceState)\n        enableEdgeToEdge()\n        restoreThemePreference()\n        applyIntentRoute(intent)\n        setContent {\n            val useDarkStatusBarIcons = doweSafeAreaTopColor(incomingPath).luminance() > 0.179f\n            val useDarkNavigationBarIcons = doweSafeAreaBottomColor(incomingPath).luminance() > 0.179f\n            SideEffect {\n                WindowCompat.getInsetsController(window, window.decorView).apply {\n                    isAppearanceLightStatusBars = useDarkStatusBarIcons\n                    isAppearanceLightNavigationBars = useDarkNavigationBarIcons\n                }\n            }\n            DoweApp(incomingPath, incomingFragment, incomingRequest)\n        }\n    }\n\n    override fun onNewIntent(intent: Intent) {\n        super.onNewIntent(intent)\n        setIntent(intent)\n        applyIntentRoute(intent)\n    }\n\n    override fun onPictureInPictureModeChanged(isInPictureInPictureMode: Boolean, newConfig: Configuration) {\n        super.onPictureInPictureModeChanged(isInPictureInPictureMode, newConfig)\n        doweHandleVideoPictureInPictureMode(isInPictureInPictureMode)\n    }\n\n    private fun restoreThemePreference() {\n        val storedTheme = getSharedPreferences(\"dowe\", MODE_PRIVATE)\n            .getString(\"theme-preference\", DoweThemeModule.defaultTheme)\n            ?: DoweThemeModule.defaultTheme\n        DoweDesign.applyTheme(storedTheme)\n    }\n\n    private fun applyIntentRoute(intent: Intent?) {\n        val path = intent?.data?.path?.takeIf { DoweRoutes.paths.contains(it) } ?: DoweRoutes.initialPath\n        incomingPath = path\n        incomingFragment = intent?.data?.fragment?.takeIf { DoweRoutes.sections[path]?.contains(it) == true }\n        incomingRequest += 1\n    }\n}\n";
pub const ANDROID_NOTIFICATIONS_TEXT: &'static str = "package dev.dowe.generated\n\nimport android.Manifest\nimport android.app.Activity\nimport android.app.NotificationChannel\nimport android.app.NotificationManager\nimport android.app.PendingIntent\nimport android.content.Context\nimport android.content.Intent\nimport android.content.pm.PackageManager\nimport android.net.Uri\nimport android.os.Build\nimport androidx.core.app.ActivityCompat\n\nobject DoweNotifications {\n    private const val CHANNEL_ID = \"dowe-default\"\n    private const val PERMISSION_REQUEST_CODE = 4101\n\n    fun requestPermission(activity: Activity) {\n        if (Build.VERSION.SDK_INT >= 33 &&\n            ActivityCompat.checkSelfPermission(activity, Manifest.permission.POST_NOTIFICATIONS) != PackageManager.PERMISSION_GRANTED\n        ) {\n            ActivityCompat.requestPermissions(\n                activity,\n                arrayOf(Manifest.permission.POST_NOTIFICATIONS),\n                PERMISSION_REQUEST_CODE\n            )\n        }\n    }\n\n    fun show(context: Context, id: String, title: String, body: String, route: String? = null) {\n        require(id.isNotBlank() && title.isNotBlank() && body.isNotBlank())\n        require(route == null || (route.startsWith(\"/\") && !route.contains(\"//\")))\n        val manager = context.getSystemService(NotificationManager::class.java)\n        if (Build.VERSION.SDK_INT >= 26) {\n            manager.createNotificationChannel(\n                NotificationChannel(CHANNEL_ID, \"Dowe\", NotificationManager.IMPORTANCE_DEFAULT)\n            )\n        }\n        if (Build.VERSION.SDK_INT >= 33 &&\n            ActivityCompat.checkSelfPermission(context, Manifest.permission.POST_NOTIFICATIONS) != PackageManager.PERMISSION_GRANTED\n        ) return\n        val intent = Intent(context, MainActivity::class.java).apply {\n            route?.let { data = Uri.parse(\"dowe-dev://generated$it\") }\n            flags = Intent.FLAG_ACTIVITY_SINGLE_TOP or Intent.FLAG_ACTIVITY_CLEAR_TOP\n        }\n        val pendingIntent = PendingIntent.getActivity(\n            context,\n            id.hashCode(),\n            intent,\n            PendingIntent.FLAG_UPDATE_CURRENT or PendingIntent.FLAG_IMMUTABLE\n        )\n        val notification = android.app.Notification.Builder(context, CHANNEL_ID)\n            .setSmallIcon(android.R.drawable.ic_dialog_info)\n            .setContentTitle(title)\n            .setContentText(body)\n            .setAutoCancel(true)\n            .setContentIntent(pendingIntent)\n            .build()\n        manager.notify(id, id.hashCode(), notification)\n    }\n}\n";
pub const ANDROID_LAYOUTS_TEXT: &'static str = "package dev.dowe.generated\n\nimport androidx.compose.runtime.Composable\n\n@Composable\nfun DoweLayoutBoundary(content: @Composable () -> Unit) {\n    content()\n}\n";
pub const APP_GRADLE_0: &'static str = "plugins {\n    id(\"com.android.application\")\n    id(\"org.jetbrains.kotlin.android\")\n    id(\"org.jetbrains.kotlin.plugin.compose\")\n}\n\nandroid {\n    namespace = \"dev.dowe.generated\"\n    compileSdk = 36\n\n    signingConfigs {\n        create(\"release\") {\n            storeFile = file(System.getenv(\"DOWE_ANDROID_KEYSTORE\") ?: \"\")\n            storePassword = System.getenv(\"DOWE_ANDROID_KEYSTORE_PASSWORD\")\n            keyAlias = System.getenv(\"DOWE_ANDROID_KEY_ALIAS\")\n            keyPassword = System.getenv(\"DOWE_ANDROID_KEY_PASSWORD\")\n        }\n    }\n\n    defaultConfig {\n        applicationId = \"";
pub const APP_GRADLE_1: &'static str = "\"\n        minSdk = 26\n        targetSdk = 36\n        versionCode = (System.getenv(\"DOWE_APP_BUILD_NUMBER\") ?: \"1\").toInt()\n        versionName = System.getenv(\"DOWE_APP_VERSION\") ?: \"0.1.0\"\n    }\n\n    buildTypes {\n        getByName(\"release\") {\n            signingConfig = signingConfigs.getByName(\"release\")\n            isMinifyEnabled = false\n        }\n    }\n\n    compileOptions {\n        sourceCompatibility = JavaVersion.VERSION_17\n        targetCompatibility = JavaVersion.VERSION_17\n    }\n}\n\nkotlin {\n    compilerOptions {\n        jvmTarget.set(org.jetbrains.kotlin.gradle.dsl.JvmTarget.JVM_17)\n    }\n}\n\ndependencies {\n    implementation(\"androidx.activity:activity-compose:1.11.0\")\n    implementation(platform(\"androidx.compose:compose-bom:2026.06.01\"))\n    implementation(\"androidx.compose.material3:material3\")\n    implementation(\"androidx.compose.ui:ui\")\n}\n";
pub const ANDROID_MANIFEST_0: &'static str = "<manifest xmlns:android=\"http://schemas.android.com/apk/res/android\">\n    <uses-permission android:name=\"android.permission.INTERNET\" />\n    <uses-permission android:name=\"android.permission.POST_NOTIFICATIONS\" />\n";
pub const ANDROID_MANIFEST_1: &'static str = "\n    <application android:theme=\"@style/AppTheme\" android:label=\"";
pub const ANDROID_MANIFEST_2: &'static str = "\" android:usesCleartextTraffic=\"true\"";
pub const ANDROID_MANIFEST_3: &'static str = ">\n        <meta-data android:name=\"dev.dowe.ir.schema\" android:value=\"";
pub const ANDROID_MANIFEST_4: &'static str = "\" />\n        <activity android:name=\".MainActivity\" android:exported=\"true\" android:windowSoftInputMode=\"adjustResize\" android:supportsPictureInPicture=\"true\" android:configChanges=\"screenSize|smallestScreenSize|screenLayout|orientation\">\n            <intent-filter>\n                <action android:name=\"android.intent.action.MAIN\" />\n                <category android:name=\"android.intent.category.LAUNCHER\" />\n            </intent-filter>\n            <intent-filter>\n                <action android:name=\"android.intent.action.VIEW\" />\n                <category android:name=\"android.intent.category.DEFAULT\" />\n                <category android:name=\"android.intent.category.BROWSABLE\" />\n                <data android:scheme=\"dowe-dev\" android:host=\"generated\" />\n            </intent-filter>\n        </activity>\n    </application>\n</manifest>\n";
pub const DEV_MANIFEST_0: &'static str = "<manifest xmlns:android=\"http://schemas.android.com/apk/res/android\" package=\"";
pub const DEV_MANIFEST_1: &'static str = "\">\n    <uses-sdk android:minSdkVersion=\"26\" android:targetSdkVersion=\"36\" />\n    <uses-permission android:name=\"android.permission.INTERNET\" />\n    <uses-permission android:name=\"android.permission.POST_NOTIFICATIONS\" />\n";
pub const DEV_MANIFEST_2: &'static str = "\n    <application android:theme=\"@android:style/Theme.Material.Light.NoActionBar\" android:label=\"";
pub const DEV_MANIFEST_3: &'static str = "\" android:usesCleartextTraffic=\"true\"";
pub const DEV_MANIFEST_4: &'static str = ">\n        <meta-data android:name=\"dev.dowe.ir.schema\" android:value=\"";
pub const DEV_MANIFEST_5: &'static str = "\" />\n        <activity android:name=\"dev.dowe.generated.DoweDevHostActivity\" android:exported=\"true\" android:windowSoftInputMode=\"adjustResize\" android:supportsPictureInPicture=\"true\" android:configChanges=\"screenSize|smallestScreenSize|screenLayout|orientation\">\n            <intent-filter>\n                <action android:name=\"android.intent.action.MAIN\" />\n                <category android:name=\"android.intent.category.LAUNCHER\" />\n            </intent-filter>\n            <intent-filter>\n                <action android:name=\"android.intent.action.VIEW\" />\n                <category android:name=\"android.intent.category.DEFAULT\" />\n                <category android:name=\"android.intent.category.BROWSABLE\" />\n                <data android:scheme=\"dowe-dev\" android:host=\"generated\" />\n            </intent-filter>\n        </activity>\n    </application>\n</manifest>\n";
pub const ANDROID_ENVIRONMENT_0: &'static str = "package dev.dowe.generated\n\nobject DoweEnvironment {\n";
pub const ANDROID_ENVIRONMENT_1: &'static str = "\n}\n";
pub const ANDROID_ROUTING_0: &'static str = "package dev.dowe.generated\n\nobject DoweRoutes {\n    const val initialPath = \"";
pub const ANDROID_ROUTING_1: &'static str = "\"\n    val paths = listOf(\n";
pub const ANDROID_ROUTING_2: &'static str = "\n    )\n    val sections: Map<String, List<String>> = mapOf(\n";
pub const ANDROID_ROUTING_3: &'static str = "\n    )\n    val deepLinks = listOf(\n";
pub const ANDROID_ROUTING_4: &'static str = "\n    )\n}\n";


/// The responsive module source.
pub fn android_responsive() -> (res: String)
    ensures
        res@ == ANDROID_RESPONSIVE_TEXT@,
{
    String::from_str(ANDROID_RESPONSIVE_TEXT)
}

/// The Gradle settings script.
pub fn settings_gradle() -> (res: String)
    ensures
        res@ == SETTINGS_GRADLE_TEXT@,
{
    String::from_str(SETTINGS_GRADLE_TEXT)
}

/// The root Gradle build script.
pub fn root_gradle() -> (res: String)
    ensures
        res@ == ROOT_GRADLE_TEXT@,
{
    String::from_str(ROOT_GRADLE_TEXT)
}

/// The Gradle properties file.
pub fn gradle_properties() -> (res: String)
    ensures
        res@ == GRADLE_PROPERTIES_TEXT@,
{
    String::from_str(GRADLE_PROPERTIES_TEXT)
}

/// The resource file that declares the application theme.
pub fn styles_xml() -> (res: String)
    ensures
        res@ == STYLES_XML_TEXT@,
{
    String::from_str(STYLES_XML_TEXT)
}

/// The source of the main activity.
pub fn main_activity() -> (res: String)
    ensures
        res@ == MAIN_ACTIVITY_TEXT@,
{
    String::from_str(MAIN_ACTIVITY_TEXT)
}

/// The source of the notification helper.
pub fn android_notifications() -> (res: String)
    ensures
        res@ == ANDROID_NOTIFICATIONS_TEXT@,
{
    String::from_str(ANDROID_NOTIFICATIONS_TEXT)
}

/// The source of the layout boundary.
pub fn android_layouts() -> (res: String)
    ensures
        res@ == ANDROID_LAYOUTS_TEXT@,
{
    String::from_str(ANDROID_LAYOUTS_TEXT)
}

/// The generated views index: the package declaration alone.
pub fn generated_views_index() -> (res: String)
    ensures
        res@ == "package dev.dowe.generated\n"@,
{
    String::from_str("package dev.dowe.generated\n")
}

/// The application Gradle build script.
pub open spec fn app_gradle_text(app_bundle: Seq<char>) -> Seq<char> {
    APP_GRADLE_0@ + kotlin_escaped(app_bundle) + APP_GRADLE_1@
}

/// The application Gradle build script, with `app_bundle` as the application id.
pub fn app_gradle(app_bundle: &str) -> (res: String)
    ensures
        res@ == app_gradle_text(app_bundle@),
{
    let mut out = String::from_str(APP_GRADLE_0);
    push_kotlin_escaped(&mut out, app_bundle);
    out.append(APP_GRADLE_1);
    out
}

/// The manifest attributes of the launcher icon.
pub open spec fn icon_attributes_text(has_app_icon: bool) -> Seq<char> {
    if has_app_icon {
        " android:icon=\"@mipmap/ic_launcher\" android:roundIcon=\"@mipmap/ic_launcher_round\""@
    } else {
        ""@
    }
}

/// The manifest attributes of the launcher icon, empty without an icon.
pub fn android_icon_attributes(has_app_icon: bool) -> (res: &'static str)
    ensures
        res@ == icon_attributes_text(has_app_icon),
{
    if has_app_icon {
        " android:icon=\"@mipmap/ic_launcher\" android:roundIcon=\"@mipmap/ic_launcher_round\""
    } else {
        ""
    }
}

/// The permission line of the camera.
pub open spec fn camera_permission_text() -> Seq<char> {
    "    <uses-permission android:name=\"android.permission.CAMERA\" />"@
}

/// The permission line of the microphone.
pub open spec fn microphone_permission_text() -> Seq<char> {
    "    <uses-permission android:name=\"android.permission.RECORD_AUDIO\" />"@
}

/// The capture permission lines, one per capture in use, joined by line breaks.
pub open spec fn capture_permissions_text(uses_camera: bool, uses_microphone: bool) -> Seq<char> {
    if uses_camera && uses_microphone {
        camera_permission_text() + "\n"@ + microphone_permission_text()
    } else if uses_camera {
        camera_permission_text()
    } else if uses_microphone {
        microphone_permission_text()
    } else {
        Seq::empty()
    }
}

/// The manifest lines that ask for the camera and the microphone where the views use them.
pub fn android_capture_permissions(uses_camera: bool, uses_microphone: bool) -> (res: String)
    ensures
        res@ == capture_permissions_text(uses_camera, uses_microphone),
{
    if uses_camera && uses_microphone {
        let mut out = String::from_str(
            "    <uses-permission android:name=\"android.permission.CAMERA\" />",
        );
        out.append("\n");
        out.append("    <uses-permission android:name=\"android.permission.RECORD_AUDIO\" />");
        out
    } else if uses_camera {
        String::from_str("    <uses-permission android:name=\"android.permission.CAMERA\" />")
    } else if uses_microphone {
        String::from_str("    <uses-permission android:name=\"android.permission.RECORD_AUDIO\" />")
    } else {
        String::new()
    }
}

/// The application manifest.
pub open spec fn android_manifest_text(
    app_name: Seq<char>,
    has_app_icon: bool,
    uses_camera: bool,
    uses_microphone: bool,
    schema_version: u32,
) -> Seq<char> {
    ANDROID_MANIFEST_0@ + capture_permissions_text(uses_camera, uses_microphone)
        + ANDROID_MANIFEST_1@ + xml_escaped(app_name) + ANDROID_MANIFEST_2@
        + icon_attributes_text(has_app_icon) + ANDROID_MANIFEST_3@ + decimal_text(
        schema_version as nat,
    ) + ANDROID_MANIFEST_4@
}

/// The application manifest; `schema_version` is the version of the view schema
/// that the views were written for.
pub fn android_manifest(
    app_name: &str,
    has_app_icon: bool,
    uses_camera: bool,
    uses_microphone: bool,
    schema_version: u32,
) -> (res: String)
    ensures
        res@ == android_manifest_text(
            app_name@,
            has_app_icon,
            uses_camera,
            uses_microphone,
            schema_version,
        ),
{
    let icon_attributes = android_icon_attributes(has_app_icon);
    let capture_permissions = android_capture_permissions(uses_camera, uses_microphone);
    let name = escape_android_xml(app_name);
    let mut out = String::from_str(ANDROID_MANIFEST_0);
    out.append(capture_permissions.as_str());
    out.append(ANDROID_MANIFEST_1);
    out.append(name.as_str());
    out.append(ANDROID_MANIFEST_2);
    out.append(icon_attributes);
    out.append(ANDROID_MANIFEST_3);
    push_decimal(&mut out, schema_version as u64);
    out.append(ANDROID_MANIFEST_4);
    out
}

/// The manifest of the development host.
pub open spec fn dev_manifest_text(
    app_name: Seq<char>,
    app_bundle: Seq<char>,
    has_app_icon: bool,
    uses_camera: bool,
    uses_microphone: bool,
    schema_version: u32,
) -> Seq<char> {
    DEV_MANIFEST_0@ + app_bundle + DEV_MANIFEST_1@ + capture_permissions_text(
        uses_camera,
        uses_microphone,
    ) + DEV_MANIFEST_2@ + xml_escaped(app_name) + DEV_MANIFEST_3@ + icon_attributes_text(
        has_app_icon,
    ) + DEV_MANIFEST_4@ + decimal_text(schema_version as nat) + DEV_MANIFEST_5@
}

/// The manifest of the development host, for the package `app_bundle`.
pub fn dev_manifest(
    app_name: &str,
    app_bundle: &str,
    has_app_icon: bool,
    uses_camera: bool,
    uses_microphone: bool,
    schema_version: u32,
) -> (res: String)
    ensures
        res@ == dev_manifest_text(
            app_name@,
            app_bundle@,
            has_app_icon,
            uses_camera,
            uses_microphone,
            schema_version,
        ),
{
    let icon_attributes = android_icon_attributes(has_app_icon);
    let capture_permissions = android_capture_permissions(uses_camera, uses_microphone);
    let name = escape_android_xml(app_name);
    let mut out = String::from_str(DEV_MANIFEST_0);
    out.append(app_bundle);
    out.append(DEV_MANIFEST_1);
    out.append(capture_permissions.as_str());
    out.append(DEV_MANIFEST_2);
    out.append(name.as_str());
    out.append(DEV_MANIFEST_3);
    out.append(icon_attributes);
    out.append(DEV_MANIFEST_4);
    push_decimal(&mut out, schema_version as u64);
    out.append(DEV_MANIFEST_5);
    out
}

} // verus!

verus! {

/// Whether a node, or any node below it, is of the given kind.
pub open spec fn tree_has_kind(node: ViewNode, kind: ViewNodeKind) -> bool
    decreases node,
{
    node.kind == kind || nodes_have_kind(node.children@, kind)
}

/// Whether any of the trees rooted at `nodes` holds a node of the given kind.
pub open spec fn nodes_have_kind(nodes: Seq<ViewNode>, kind: ViewNodeKind) -> bool
    decreases nodes,
{
    if nodes.len() == 0 {
        false
    } else {
        nodes_have_kind(nodes.drop_last(), kind) || tree_has_kind(nodes.last(), kind)
    }
}

fn tree_has(node: &ViewNode, kind: ViewNodeKind) -> (res: bool)
    ensures
        res == tree_has_kind(*node, kind),
    decreases node,
{
    if node.kind == kind {
        return true;
    }
    let mut i: usize = 0;
    while i < node.children.len()
        invariant
            i <= node.children@.len(),
            !nodes_have_kind(node.children@.take(i as int), kind),
        decreases node.children@.len() - i,
    {
        assert(node.children@.take(i + 1).drop_last() =~= node.children@.take(i as int));
        if tree_has(&node.children[i], kind) {
            assert(node.children@.take(i + 1).last() == node.children@[i as int]);
            proof {
                lemma_prefix_has_kind(node.children@, i as int + 1, kind);
            }
            return true;
        }
        i = i + 1;
    }
    assert(node.children@.take(i as int) =~= node.children@);
    false
}

/// A prefix holding a node of some kind makes the whole sequence hold one.
proof fn lemma_prefix_has_kind(nodes: Seq<ViewNode>, k: int, kind: ViewNodeKind)
    requires
        0 <= k <= nodes.len(),
        nodes_have_kind(nodes.take(k), kind),
    ensures
        nodes_have_kind(nodes, kind),
    decreases nodes.len() - k,
{
    if k < nodes.len() {
        assert(nodes.take(k + 1).drop_last() =~= nodes.take(k));
        lemma_prefix_has_kind(nodes, k + 1, kind);
    } else {
        assert(nodes.take(k) =~= nodes);
    }
}

/// Whether the view tree holds a camera capture.
pub fn android_tree_has_camera(node: &ViewNode) -> (res: bool)
    ensures
        res == tree_has_kind(*node, ViewNodeKind::Camera),
{
    tree_has(node, ViewNodeKind::Camera)
}

/// Whether the view tree holds a microphone capture.
pub fn android_tree_has_microphone(node: &ViewNode) -> (res: bool)
    ensures
        res == tree_has_kind(*node, ViewNodeKind::Microphone),
{
    tree_has(node, ViewNodeKind::Microphone)
}

/// The path the application opens on: that of the first route, or `/`.
pub open spec fn first_path_text(routes: Seq<ViewRoute>) -> Seq<char> {
    if routes.len() == 0 {
        "/"@
    } else {
        routes[0].route_path@
    }
}

/// The path the application opens on: that of the first route, or `/` without routes.
pub fn routes_first_path(routes: &[ViewRoute]) -> (res: &str)
    ensures
        res@ == first_path_text(routes@),
{
    if routes.len() == 0 {
        "/"
    } else {
        routes[0].route_path.as_str()
    }
}

/// The line of one environment value.
pub open spec fn environment_line_text(entry: (String, String)) -> Seq<char> {
    "    const val "@ + entry.0@ + " = \""@ + kotlin_escaped(entry.1@) + "\""@
}

/// Whether some environment entry is named `BACKEND_URL`.
pub open spec fn has_backend_url(environment: Seq<(String, String)>) -> bool {
    exists|i: int| 0 <= i < environment.len() && environment[i].0@ == "BACKEND_URL"@
}

/// The lines of the environment object: one per entry, in order, and an empty
/// `BACKEND_URL` after them when no entry has that name.
pub open spec fn environment_lines(environment: Seq<(String, String)>) -> Seq<Seq<char>> {
    let lines = Seq::new(environment.len(), |i: int| environment_line_text(environment[i]));
    if has_backend_url(environment) {
        lines
    } else {
        lines.push("    const val BACKEND_URL = \"\""@)
    }
}

/// The environment object source.
pub open spec fn android_environment_text(environment: Seq<(String, String)>) -> Seq<char> {
    ANDROID_ENVIRONMENT_0@ + join(environment_lines(environment), "\n"@) + ANDROID_ENVIRONMENT_1@
}

/// The Kotlin object that holds the environment values as constants.
pub fn android_environment(environment: &[(String, String)]) -> (res: String)
    ensures
        res@ == android_environment_text(environment@),
{
    let mut lines: Vec<String> = Vec::new();
    let mut found = false;
    let mut i: usize = 0;
    while i < environment.len()
        invariant
            i <= environment@.len(),
            lines@.len() == i,
            forall|j: int| 0 <= j < i ==> #[trigger] lines@[j]@ == environment_line_text(environment@[j]),
            found == exists|j: int| 0 <= j < i && environment@[j].0@ == "BACKEND_URL"@,
        decreases environment@.len() - i,
    {
        let mut line = String::from_str("    const val ");
        line.append(environment[i].0.as_str());
        line.append(" = \"");
        push_kotlin_escaped(&mut line, environment[i].1.as_str());
        line.append("\"");
        lines.push(line);
        if str_eq(environment[i].0.as_str(), "BACKEND_URL") {
            found = true;
        }
        i = i + 1;
    }
    assert(string_views(lines@) =~= Seq::new(environment@.len(), |j: int| environment_line_text(environment@[j])));
    if !found {
        lines.push(String::from_str("    const val BACKEND_URL = \"\""));
        assert(string_views(lines@) =~= environment_lines(environment@));
    }
    let mut out = String::from_str(ANDROID_ENVIRONMENT_0);
    push_joined(&mut out, &lines, "\n");
    out.append(ANDROID_ENVIRONMENT_1);
    out
}

/// The route path line of the routing object.
pub open spec fn route_path_line(route: ViewRoute) -> Seq<char> {
    "    \""@ + route.route_path@ + "\","@
}

/// The deep link line of the routing object.
pub open spec fn deep_link_line(route: ViewRoute) -> Seq<char> {
    "    \"dowe-dev://generated"@ + route.route_path@ + "\","@
}

/// The quoted, escaped id of a section.
pub open spec fn section_id_text(section: ViewSection) -> Seq<char> {
    "\""@ + kotlin_escaped(section.id@) + "\""@
}

/// The sections line of the routing object.
pub open spec fn sections_line(route: ViewRoute) -> Seq<char> {
    "    \""@ + route.route_path@ + "\" to listOf("@ + join(
        Seq::new(route.sections@.len(), |i: int| section_id_text(route.sections@[i])),
        ", "@,
    ) + "),"@
}

/// The routing object source: the initial path, the route paths, the sections of
/// each route and the deep links.
pub open spec fn android_routing_text(routes: Seq<ViewRoute>) -> Seq<char> {
    ANDROID_ROUTING_0@ + first_path_text(routes) + ANDROID_ROUTING_1@ + join(
        Seq::new(routes.len(), |i: int| route_path_line(routes[i])),
        "\n"@,
    ) + ANDROID_ROUTING_2@ + join(Seq::new(routes.len(), |i: int| sections_line(routes[i])), "\n"@)
        + ANDROID_ROUTING_3@ + join(
        Seq::new(routes.len(), |i: int| deep_link_line(routes[i])),
        "\n"@,
    ) + ANDROID_ROUTING_4@
}

fn route_sections_line(route: &ViewRoute) -> (res: String)
    ensures
        res@ == sections_line(*route),
{
    let mut ids: Vec<String> = Vec::new();
    let mut i: usize = 0;
    while i < route.sections.len()
        invariant
            i <= route.sections@.len(),
            ids@.len() == i,
            forall|j: int| 0 <= j < i ==> #[trigger] ids@[j]@ == section_id_text(route.sections@[j]),
        decreases route.sections@.len() - i,
    {
        let mut id = String::from_str("\"");
        push_kotlin_escaped(&mut id, route.sections[i].id.as_str());
        id.append("\"");
        ids.push(id);
        i = i + 1;
    }
    assert(string_views(ids@) =~= Seq::new(route.sections@.len(), |j: int| section_id_text(route.sections@[j])));
    let mut out = String::from_str("    \"");
    out.append(route.route_path.as_str());
    out.append("\" to listOf(");
    push_joined(&mut out, &ids, ", ");
    out.append("),");
    out
}

/// The routing object: the initial path, every route path, the section ids of each
/// route and the deep link of each route.
pub fn android_routing(routes: &[ViewRoute]) -> (res: String)
    ensures
        res@ == android_routing_text(routes@),
{
    let mut paths: Vec<String> = Vec::new();
    let mut sections: Vec<String> = Vec::new();
    let mut links: Vec<String> = Vec::new();
    let mut i: usize = 0;
    while i < routes.len()
        invariant
            i <= routes@.len(),
            paths@.len() == i,
            sections@.len() == i,
            links@.len() == i,
            forall|j: int| 0 <= j < i ==> #[trigger] paths@[j]@ == route_path_line(routes@[j]),
            forall|j: int| 0 <= j < i ==> #[trigger] sections@[j]@ == sections_line(routes@[j]),
            forall|j: int| 0 <= j < i ==> #[trigger] links@[j]@ == deep_link_line(routes@[j]),
        decreases routes@.len() - i,
    {
        let route = &routes[i];
        let mut path = String::from_str("    \"");
        path.append(route.route_path.as_str());
        path.append("\",");
        paths.push(path);
        let mut link = String::from_str("    \"dowe-dev://generated");
        link.append(route.route_path.as_str());
        link.append("\",");
        links.push(link);
        sections.push(route_sections_line(route));
        i = i + 1;
    }
    assert(string_views(paths@) =~= Seq::new(routes@.len(), |j: int| route_path_line(routes@[j])));
    assert(string_views(sections@) =~= Seq::new(routes@.len(), |j: int| sections_line(routes@[j])));
    assert(string_views(links@) =~= Seq::new(routes@.len(), |j: int| deep_link_line(routes@[j])));
    let initial = routes_first_path(routes);
    let mut out = String::from_str(ANDROID_ROUTING_0);
    out.append(initial);
    out.append(ANDROID_ROUTING_1);
    push_joined(&mut out, &paths, "\n");
    out.append(ANDROID_ROUTING_2);
    push_joined(&mut out, &sections, "\n");
    out.append(ANDROID_ROUTING_3);
    push_joined(&mut out, &links, "\n");
    out.append(ANDROID_ROUTING_4);
    out
}

/// The line of one translated string.
pub open spec fn string_resource_line(value: TranslationValue) -> Seq<char> {
    "    <string name=\""@ + value.resource_name@ + "\">"@ + xml_escaped(value.value@) + "</string>"@
}

/// The strings resource file of a locale.
pub open spec fn android_strings_xml_text(locale: TranslationLocale) -> Seq<char> {
    "<resources>\n"@ + join(
        Seq::new(locale.values@.len(), |i: int| string_resource_line(locale.values@[i])),
        "\n"@,
    ) + "\n</resources>\n"@
}

/// The strings resource file of a locale: one escaped string per translated value.
pub fn android_strings_xml(locale: &TranslationLocale) -> (res: String)
    ensures
        res@ == android_strings_xml_text(*locale),
{
    let mut lines: Vec<String> = Vec::new();
    let mut i: usize = 0;
    while i < locale.values.len()
        invariant
            i <= locale.values@.len(),
            lines@.len() == i,
            forall|j: int| 0 <= j < i ==> #[trigger] lines@[j]@ == string_resource_line(locale.values@[j]),
        decreases locale.values@.len() - i,
    {
        let value = &locale.values[i];
        let mut line = String::from_str("    <string name=\"");
        line.append(value.resource_name.as_str());
        line.append("\">");
        let escaped = escape_android_xml(value.value.as_str());
        line.append(escaped.as_str());
        line.append("</string>");
        lines.push(line);
        i = i + 1;
    }
    assert(string_views(lines@) =~= Seq::new(locale.values@.len(), |j: int| string_resource_line(locale.values@[j])));
    let mut out = String::from_str("<resources>\n");
    push_joined(&mut out, &lines, "\n");
    out.append("\n</resources>\n");
    out
}

/// The resource directory of a locale: `values` for the default locale,
/// `values-<locale>` for the others.
pub open spec fn locale_directory(catalog: TranslationCatalog, locale: TranslationLocale) -> Seq<char> {
    if catalog.default_locale is Some && catalog.default_locale->0@ == locale.locale@ {
        "values"@
    } else {
        "values-"@ + locale.locale@
    }
}

/// The path of the strings resource file of a locale.
pub open spec fn strings_path_text(catalog: TranslationCatalog, locale: TranslationLocale) -> Seq<char> {
    "apps/android/app/src/main/res/"@ + locale_directory(catalog, locale) + "/strings.xml"@
}

/// The artifact of one locale.
pub open spec fn is_translation_artifact(
    artifact: AndroidArtifact,
    catalog: TranslationCatalog,
    locale: TranslationLocale,
) -> bool {
    &&& artifact.relative_path@ == strings_path_text(catalog, locale)
    &&& artifact.content@ == android_strings_xml_text(locale)
    &&& artifact.kind == AndroidArtifactKind::Localization
    &&& artifact.target@ == "android"@
}

/// One strings resource file per locale of the catalog, in the catalog's order.
pub fn android_translation_artifacts(catalog: &TranslationCatalog) -> (res: Vec<AndroidArtifact>)
    ensures
        res@.len() == catalog.locales@.len(),
        forall|i: int|
            0 <= i < res@.len() ==> is_translation_artifact(
                #[trigger] res@[i],
                *catalog,
                catalog.locales@[i],
            ),
{
    let mut out: Vec<AndroidArtifact> = Vec::new();
    let mut i: usize = 0;
    while i < catalog.locales.len()
        invariant
            i <= catalog.locales@.len(),
            out@.len() == i,
            forall|j: int|
                0 <= j < i ==> is_translation_artifact(
                    #[trigger] out@[j],
                    *catalog,
                    catalog.locales@[j],
                ),
        decreases catalog.locales@.len() - i,
    {
        let locale = &catalog.locales[i];
        let is_default = match &catalog.default_locale {
            Some(default) => str_eq(locale.locale.as_str(), default.as_str()),
            None => false,
        };
        let mut path = String::from_str("apps/android/app/src/main/res/");
        if is_default {
            path.append("values");
        } else {
            path.append("values-");
            path.append(locale.locale.as_str());
        }
        path.append("/strings.xml");
        assert(path@ == strings_path_text(*catalog, *locale));
        out.push(
            AndroidArtifact {
                relative_path: path,
                content: android_strings_xml(locale),
                kind: AndroidArtifactKind::Localization,
                target: "android",
            },
        );
        i = i + 1;
    }
    out
}

} // verus!
