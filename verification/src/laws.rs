//! Properties that hold of the generated code as a whole: escaped text keeps to
//! one line and never ends its literal early, modifier chains keep their base,
//! pagination covers every item, click handlers are never `null`, and the
//! project files declare what the views need.
use vstd::prelude::*;
use crate::artifacts::{
    android_routing_text, android_strings_xml_text, deep_link_line, first_path_text, route_path_line, sections_line, string_resource_line,
    TranslationLocale, ViewRoute, ANDROID_ROUTING_0, ANDROID_ROUTING_1, ANDROID_ROUTING_2, ANDROID_ROUTING_3, ANDROID_ROUTING_4,
    android_manifest_text, camera_permission_text, capture_permissions_text, environment_line_text, environment_lines, has_backend_url, microphone_permission_text, nodes_have_kind, tree_has_kind, ViewNode, ViewNodeKind,
};
use crate::context::{lookup, ComposeReactiveContext};
use crate::display::{alert_indent, alert_text, AlertProps};
use crate::media::{action_id_of, countdown_line, CountdownProps};
use crate::navigation::component_action_text;
use crate::values::variant_border_text;
use crate::style_values::{bool_text, FontFamily, ResponsiveValue};
use crate::data::static_page_count;
use crate::consumption::{entry_texts, node_consumed, routes_consumed, tree_consumed};
use crate::generate::{android_files, fixed_artifacts, routes_use, view_consumption_text, GeneratedSources};
use crate::sorted::{law_sorted_unique, sorted_unique, strictly_sorted};
use crate::layout::{style_modifier_text, StyleProps};
use crate::navigation::NavigationAction;
use crate::shell::click_text;
use crate::text::{join, opt_string_view, spaces, string_literal_text, decimal_text, digit_char, kotlin_char_text, kotlin_escaped, xml_char_text, xml_escaped};

verus! {

/// Whether `c` is written as itself inside a Kotlin string literal.
pub open spec fn kotlin_plain_char(c: char) -> bool {
    c != '\\' && c != '"' && c != '$' && c != '\n' && c != '\r' && c != '\t'
}

/// Text made only of characters that a Kotlin string literal holds as they are
/// is written unchanged.
pub proof fn law_kotlin_escape_keeps_plain_text(s: Seq<char>)
    requires
        forall|i: int| 0 <= i < s.len() ==> kotlin_plain_char(#[trigger] s[i]),
    ensures
        kotlin_escaped(s) == s,
    decreases s.len(),
{
    if s.len() > 0 {
        law_kotlin_escape_keeps_plain_text(s.drop_last());
        assert(kotlin_char_text(s.last()) =~= seq![s.last()]);
        assert(s.drop_last().push(s.last()) =~= s);
        assert(s.drop_last() + seq![s.last()] =~= s);
    }
}

/// Escaping text piece by piece gives the escaped whole.
pub proof fn law_kotlin_escape_concat(a: Seq<char>, b: Seq<char>)
    ensures
        kotlin_escaped(a + b) == kotlin_escaped(a) + kotlin_escaped(b),
    decreases b.len(),
{
    if b.len() == 0 {
        assert(a + b =~= a);
        assert(kotlin_escaped(a) + kotlin_escaped(b) =~= kotlin_escaped(a));
    } else {
        law_kotlin_escape_concat(a, b.drop_last());
        assert((a + b).drop_last() =~= a + b.drop_last());
        assert((a + b).last() == b.last());
        assert(kotlin_escaped(a) + kotlin_escaped(b) =~= kotlin_escaped(a) + kotlin_escaped(b.drop_last())
            + kotlin_char_text(b.last()));
    }
}

proof fn lemma_kotlin_char_one_line(c: char)
    ensures
        forall|i: int|
            0 <= i < kotlin_char_text(c).len() ==> #[trigger] kotlin_char_text(c)[i] != '\n'
                && kotlin_char_text(c)[i] != '\r' && (kotlin_char_text(c)[i] == '"' ==> i >= 1
                && kotlin_char_text(c)[i - 1] == '\\'),
{
    reveal_strlit("\\\\");
    reveal_strlit("\\\"");
    reveal_strlit("\\$");
    reveal_strlit("\\n");
    reveal_strlit("\\r");
    reveal_strlit("\\t");
}

/// Escaped text holds no line break, and each quote in it follows a backslash:
/// a Kotlin string literal built from it stays on one line and ends only at its
/// closing quote.
pub proof fn law_kotlin_escape_single_line_literal(s: Seq<char>)
    ensures
        forall|i: int|
            0 <= i < kotlin_escaped(s).len() ==> #[trigger] kotlin_escaped(s)[i] != '\n'
                && kotlin_escaped(s)[i] != '\r' && (kotlin_escaped(s)[i] == '"' ==> i >= 1
                && kotlin_escaped(s)[i - 1] == '\\'),
    decreases s.len(),
{
    if s.len() > 0 {
        law_kotlin_escape_single_line_literal(s.drop_last());
        lemma_kotlin_char_one_line(s.last());
        let head = kotlin_escaped(s.drop_last());
        let tail = kotlin_char_text(s.last());
        assert forall|i: int| 0 <= i < kotlin_escaped(s).len() implies #[trigger] kotlin_escaped(s)[i] != '\n'
            && kotlin_escaped(s)[i] != '\r' && (kotlin_escaped(s)[i] == '"' ==> i >= 1 && kotlin_escaped(s)[i
            - 1] == '\\') by {
            if i < head.len() {
                assert(kotlin_escaped(s)[i] == head[i]);
                if i >= 1 {
                    assert(kotlin_escaped(s)[i - 1] == head[i - 1]);
                }
            } else {
                let k = i - head.len();
                assert(kotlin_escaped(s)[i] == tail[k]);
                if k >= 1 {
                    assert(kotlin_escaped(s)[i - 1] == tail[k - 1]);
                }
            }
        }
    }
}

/// Whether `c` is written as itself in Android resource XML text.
pub open spec fn xml_plain_char(c: char) -> bool {
    c != '&' && c != '<' && c != '>' && c != '"' && c != '\''
}

/// Text without markup characters is written unchanged in a resource file.
pub proof fn law_xml_escape_keeps_plain_text(s: Seq<char>)
    requires
        forall|i: int| 0 <= i < s.len() ==> xml_plain_char(#[trigger] s[i]),
    ensures
        xml_escaped(s) == s,
    decreases s.len(),
{
    if s.len() > 0 {
        law_xml_escape_keeps_plain_text(s.drop_last());
        assert(xml_char_text(s.last()) =~= seq![s.last()]);
        assert(s.drop_last() + seq![s.last()] =~= s);
    }
}

proof fn lemma_xml_char_no_markup(c: char)
    ensures
        forall|i: int|
            0 <= i < xml_char_text(c).len() ==> #[trigger] xml_char_text(c)[i] != '<' && xml_char_text(c)[i]
                != '>' && xml_char_text(c)[i] != '"',
{
    reveal_strlit("&amp;");
    reveal_strlit("&lt;");
    reveal_strlit("&gt;");
    reveal_strlit("&quot;");
    reveal_strlit("\\'");
}

/// Escaped resource text holds no angle bracket and no double quote: it can
/// neither open a tag nor close an attribute.
pub proof fn law_xml_escape_no_markup(s: Seq<char>)
    ensures
        forall|i: int|
            0 <= i < xml_escaped(s).len() ==> #[trigger] xml_escaped(s)[i] != '<' && xml_escaped(s)[i] != '>'
                && xml_escaped(s)[i] != '"',
    decreases s.len(),
{
    if s.len() > 0 {
        law_xml_escape_no_markup(s.drop_last());
        lemma_xml_char_no_markup(s.last());
        let head = xml_escaped(s.drop_last());
        let tail = xml_char_text(s.last());
        assert forall|i: int| 0 <= i < xml_escaped(s).len() implies #[trigger] xml_escaped(s)[i] != '<'
            && xml_escaped(s)[i] != '>' && xml_escaped(s)[i] != '"' by {
            if i < head.len() {
                assert(xml_escaped(s)[i] == head[i]);
            } else {
                assert(xml_escaped(s)[i] == tail[i - head.len()]);
            }
        }
    }
}

/// Whether `c` is a decimal digit.
pub open spec fn is_digit(c: char) -> bool {
    '0' <= c && c <= '9'
}

proof fn lemma_digit_char(d: nat)
    ensures
        is_digit(digit_char(d)),
        d < 10 ==> (digit_char(d) == '0' <==> d == 0),
{
}

/// A number is written with digits only, and starts with `0` only when it is zero.
pub proof fn law_decimal_text_digits(n: nat)
    ensures
        decimal_text(n).len() >= 1,
        forall|i: int| 0 <= i < decimal_text(n).len() ==> is_digit(#[trigger] decimal_text(n)[i]),
        decimal_text(n)[0] == '0' <==> n == 0,
    decreases n,
{
    lemma_digit_char(n % 10);
    if n < 10 {
        lemma_digit_char(n);
    } else {
        law_decimal_text_digits(n / 10);
        assert(decimal_text(n)[0] == decimal_text(n / 10)[0]);
    }
}


/// Whether `needle` occurs in `text`.
pub open spec fn contains_text(text: Seq<char>, needle: Seq<char>) -> bool {
    exists|i: int| 0 <= i && i + needle.len() <= text.len() && #[trigger] text.subrange(i, i + needle.len()) == needle
}

proof fn lemma_contains_whole(t: Seq<char>)
    ensures
        contains_text(t, t),
{
    let i: int = 0;
    assert(t.subrange(i, i + t.len()) =~= t);
}

proof fn lemma_contains_after(a: Seq<char>, t: Seq<char>, needle: Seq<char>)
    requires
        contains_text(t, needle),
    ensures
        contains_text(a + t, needle),
{
    let i = choose|i: int| 0 <= i && i + needle.len() <= t.len() && #[trigger] t.subrange(i, i + needle.len()) == needle;
    let j: int = a.len() + i;
    assert((a + t).subrange(j, j + needle.len()) =~= t.subrange(i, i + needle.len()));
}

proof fn lemma_contains_before(t: Seq<char>, c: Seq<char>, needle: Seq<char>)
    requires
        contains_text(t, needle),
    ensures
        contains_text(t + c, needle),
{
    let i = choose|i: int| 0 <= i && i + needle.len() <= t.len() && #[trigger] t.subrange(i, i + needle.len()) == needle;
    assert((t + c).subrange(i, i + needle.len()) =~= t.subrange(i, i + needle.len()));
}

proof fn lemma_microphone_line_lacks_camera()
    ensures
        !contains_text(microphone_permission_text(), camera_permission_text()),
{
    let cam = camera_permission_text();
    let mic = microphone_permission_text();
    reveal_strlit("    <uses-permission android:name=\"android.permission.CAMERA\" />");
    reveal_strlit("    <uses-permission android:name=\"android.permission.RECORD_AUDIO\" />");
    assert forall|i: int| 0 <= i && i + cam.len() <= mic.len() implies #[trigger] mic.subrange(i, i + cam.len())
        != cam by {
        if i == 0 {
            assert(mic.subrange(i, i + cam.len())[54] != cam[54]);
        } else {
            assert(mic.subrange(i, i + cam.len())[4] != cam[4]);
        }
    }
}

/// The capture permissions ask for the camera exactly when the views use one,
/// ask for the microphone when they use one, and are empty when the views use
/// neither.
pub proof fn law_capture_permissions_follow_use(uses_camera: bool, uses_microphone: bool)
    ensures
        uses_camera <==> contains_text(capture_permissions_text(uses_camera, uses_microphone), camera_permission_text()),
        uses_microphone ==> contains_text(
            capture_permissions_text(uses_camera, uses_microphone),
            microphone_permission_text(),
        ),
        !uses_camera && !uses_microphone ==> capture_permissions_text(uses_camera, uses_microphone).len() == 0,
{
    let cam = camera_permission_text();
    let mic = microphone_permission_text();
    lemma_contains_whole(cam);
    lemma_contains_whole(mic);
    if uses_camera && uses_microphone {
        lemma_contains_before(cam, "\n"@, cam);
        lemma_contains_before(cam + "\n"@, mic, cam);
        lemma_contains_after(cam + "\n"@, mic, mic);
    } else if uses_microphone {
        lemma_microphone_line_lacks_camera();
    } else if !uses_camera {
        let e = capture_permissions_text(uses_camera, uses_microphone);
        assert(e.len() == 0);
        reveal_strlit("    <uses-permission android:name=\"android.permission.CAMERA\" />");
        assert(cam.len() > 0);
    }
}

/// The application manifest asks for the camera when the views use one, and for
/// the microphone when they use one.
pub proof fn law_manifest_declares_captures(
    app_name: Seq<char>,
    has_app_icon: bool,
    uses_camera: bool,
    uses_microphone: bool,
    schema_version: u32,
)
    ensures
        uses_camera ==> contains_text(
            android_manifest_text(app_name, has_app_icon, uses_camera, uses_microphone, schema_version),
            camera_permission_text(),
        ),
        uses_microphone ==> contains_text(
            android_manifest_text(app_name, has_app_icon, uses_camera, uses_microphone, schema_version),
            microphone_permission_text(),
        ),
{
    law_capture_permissions_follow_use(uses_camera, uses_microphone);
    let p = capture_permissions_text(uses_camera, uses_microphone);
    assert forall|needle: Seq<char>| contains_text(p, needle) implies contains_text(
        android_manifest_text(app_name, has_app_icon, uses_camera, uses_microphone, schema_version),
        needle,
    ) by {
        let t0 = crate::artifacts::ANDROID_MANIFEST_0@ + p;
        lemma_contains_after(crate::artifacts::ANDROID_MANIFEST_0@, p, needle);
        let t1 = t0 + crate::artifacts::ANDROID_MANIFEST_1@;
        lemma_contains_before(t0, crate::artifacts::ANDROID_MANIFEST_1@, needle);
        let t2 = t1 + xml_escaped(app_name);
        lemma_contains_before(t1, xml_escaped(app_name), needle);
        let t3 = t2 + crate::artifacts::ANDROID_MANIFEST_2@;
        lemma_contains_before(t2, crate::artifacts::ANDROID_MANIFEST_2@, needle);
        let t4 = t3 + crate::artifacts::icon_attributes_text(has_app_icon);
        lemma_contains_before(t3, crate::artifacts::icon_attributes_text(has_app_icon), needle);
        let t5 = t4 + crate::artifacts::ANDROID_MANIFEST_3@;
        lemma_contains_before(t4, crate::artifacts::ANDROID_MANIFEST_3@, needle);
        let t6 = t5 + decimal_text(schema_version as nat);
        lemma_contains_before(t5, decimal_text(schema_version as nat), needle);
        lemma_contains_before(t6, crate::artifacts::ANDROID_MANIFEST_4@, needle);
    }
}

/// A fixed total is split into pages that hold every item: at least one page,
/// enough pages for all items, and no page left empty.
pub proof fn law_page_count_covers_items(total: u64, page_size: u64)
    requires
        page_size > 0,
    ensures
        static_page_count(total, page_size) >= 1,
        static_page_count(total, page_size) * page_size >= total,
        total > 0 ==> (static_page_count(total, page_size) - 1) * page_size < total,
{
    let q = total / page_size;
    let r = total % page_size;
    assert(q * page_size + r == total) by (nonlinear_arith)
        requires
            q == total / page_size,
            r == total % page_size,
            page_size > 0,
    ;
    if r == 0 {
        if q == 0 {
            assert(total == 0) by (nonlinear_arith)
                requires
                    q * page_size + r == total,
                    q == 0,
                    r == 0,
            ;
        } else {
            assert((q - 1) * page_size < total) by (nonlinear_arith)
                requires
                    q * page_size + r == total,
                    q >= 1,
                    r == 0,
                    page_size > 0,
            ;
        }
    } else {
        assert((q + 1) * page_size >= total) by (nonlinear_arith)
            requires
                q * page_size + r == total,
                r < page_size,
        ;
        assert(q * page_size < total) by (nonlinear_arith)
            requires
                q * page_size + r == total,
                r > 0,
        ;
    }
}

/// A click handler is never `null`: without an action or a link it does nothing.
pub proof fn law_click_handler_never_null(
    context: ComposeReactiveContext,
    action: Option<Seq<char>>,
    navigation: Option<NavigationAction>,
)
    ensures
        click_text(context, action, navigation) != "null"@,
{
    reveal_strlit("{}");
    reveal_strlit("null");
    assert("{}"@[0] != "null"@[0]);
}

/// A view tree holds a node of a kind when one of its subtrees does, and when its root is of that kind.
pub proof fn law_tree_kind_from_subtree(node: ViewNode, i: int, kind: ViewNodeKind)
    requires
        0 <= i < node.children@.len(),
        tree_has_kind(node.children@[i], kind) || node.kind == kind,
    ensures
        tree_has_kind(node, kind),
{
    if node.kind != kind {
        lemma_nodes_have_kind_at(node.children@, i, kind);
    }
}

proof fn lemma_nodes_have_kind_at(nodes: Seq<ViewNode>, i: int, kind: ViewNodeKind)
    requires
        0 <= i < nodes.len(),
        tree_has_kind(nodes[i], kind),
    ensures
        nodes_have_kind(nodes, kind),
    decreases nodes.len(),
{
    if i < nodes.len() - 1 {
        assert(nodes.drop_last()[i] == nodes[i]);
        lemma_nodes_have_kind_at(nodes.drop_last(), i, kind);
    }
}

/// Whether a line of the environment object defines `BACKEND_URL` as a text constant.
pub open spec fn defines_backend_url(line: Seq<char>) -> bool {
    let head = "    const val BACKEND_URL = \""@;
    line.len() > head.len() && line.subrange(0, head.len() as int) == head && line.last() == '"'
}

/// The environment object always defines `BACKEND_URL`: from the entry of that
/// name where there is one, else as an empty text after the given entries.
pub proof fn law_environment_defines_backend_url(environment: Seq<(String, String)>)
    ensures
        exists|i: int| 0 <= i < environment_lines(environment).len() && #[trigger] defines_backend_url(environment_lines(environment)[i]),
        environment_lines(environment).len() == environment.len() + (if has_backend_url(environment) { 0int } else { 1int }),
{
    reveal_strlit("    const val ");
    reveal_strlit(" = \"");
    reveal_strlit("BACKEND_URL");
    reveal_strlit("    const val BACKEND_URL = \"");
    reveal_strlit("    const val BACKEND_URL = \"\"");
    reveal_strlit("\"");
    let head = "    const val BACKEND_URL = \""@;
    let lines = environment_lines(environment);
    if has_backend_url(environment) {
        let i = choose|i: int| 0 <= i < environment.len() && environment[i].0@ == "BACKEND_URL"@;
        let value = kotlin_escaped(environment[i].1@);
        assert(lines[i] == environment_line_text(environment[i]));
        assert(lines[i] =~= head + value + "\""@);
        assert(lines[i].subrange(0, head.len() as int) =~= head);
        assert(defines_backend_url(lines[i]));
    } else {
        let i = environment.len() as int;
        assert(lines[i] =~= head + "\""@);
        assert(lines[i].subrange(0, head.len() as int) =~= head);
        assert(defines_backend_url(lines[i]));
    }
}

/// A style's modifier chain is its base followed by the same calls, whatever the base.
pub proof fn law_modifier_chain_keeps_base(props: StyleProps, base: Seq<char>)
    ensures
        style_modifier_text(props, base) == base + style_modifier_text(props, Seq::empty()),
{
    reveal(crate::layout::style_chain_text);
    let suffix = crate::layout::style_suffix_text(props, props.spacing, None);
    let bound = crate::layout::bindings_text(props.bindings@);
    assert(base + suffix + bound =~= base + (Seq::<char>::empty() + suffix + bound));
}

/// The consumed properties of the manifest are listed in order and without
/// repeats, and they are exactly the properties that the routes' trees consume.
pub proof fn law_consumed_props_sorted_and_complete(routes: Seq<crate::artifacts::ViewRoute>)
    ensures
        strictly_sorted(sorted_unique(entry_texts(routes_consumed(routes)))),
        sorted_unique(entry_texts(routes_consumed(routes))).to_set() == entry_texts(routes_consumed(routes)).to_set(),
{
    law_sorted_unique(entry_texts(routes_consumed(routes)));
}

/// Every property that the root of a view tree consumes is among what the tree
/// consumes, and so is every property that one of its subtrees consumes.
pub proof fn law_tree_consumes_root_and_subtrees(node: ViewNode, i: int)
    requires
        0 <= i < node.children@.len(),
    ensures
        forall|e| node_consumed(node.kind).contains(e) ==> #[trigger] tree_consumed(node).contains(e),
        forall|e| tree_consumed(node.children@[i]).contains(e) ==> #[trigger] tree_consumed(node).contains(e),
{
    let root = node_consumed(node.kind);
    let below = crate::consumption::nodes_consumed(node.children@);
    assert forall|e| root.contains(e) implies #[trigger] tree_consumed(node).contains(e) by {
        let k = choose|k: int| 0 <= k < root.len() && root[k] == e;
        assert(tree_consumed(node)[k] == e);
    }
    lemma_subtree_consumed_in(node.children@, i);
    assert forall|e| tree_consumed(node.children@[i]).contains(e) implies #[trigger] tree_consumed(node).contains(e) by {
        assert(below.contains(e));
        let k = choose|k: int| 0 <= k < below.len() && below[k] == e;
        assert(tree_consumed(node) == root + below);
        assert(tree_consumed(node)[root.len() + k] == e);
    }
}

proof fn lemma_subtree_consumed_in(nodes: Seq<ViewNode>, i: int)
    requires
        0 <= i < nodes.len(),
    ensures
        forall|e| tree_consumed(nodes[i]).contains(e) ==> #[trigger] crate::consumption::nodes_consumed(nodes).contains(e),
    decreases nodes.len(),
{
    let rest = crate::consumption::nodes_consumed(nodes.drop_last());
    let last = tree_consumed(nodes.last());
    if i == nodes.len() - 1 {
        assert forall|e| tree_consumed(nodes[i]).contains(e) implies #[trigger] crate::consumption::nodes_consumed(nodes).contains(e) by {
            let k = choose|k: int| 0 <= k < last.len() && last[k] == e;
            assert(crate::consumption::nodes_consumed(nodes)[rest.len() + k] == e);
        }
    } else {
        lemma_subtree_consumed_in(nodes.drop_last(), i);
        assert(nodes.drop_last()[i] == nodes[i]);
        assert forall|e| tree_consumed(nodes[i]).contains(e) implies #[trigger] crate::consumption::nodes_consumed(nodes).contains(e) by {
            assert(rest.contains(e));
            let k = choose|k: int| 0 <= k < rest.len() && rest[k] == e;
            assert(crate::consumption::nodes_consumed(nodes)[k] == e);
        }
    }
}

/// A generated project has its fixed files, one file per development host
/// source and per locale, and two manifests of consumed properties with the
/// same content; its application and development manifests ask for the camera
/// and the microphone when some route's views use them.
pub proof fn law_generated_project_shape(
    routes: Seq<crate::artifacts::ViewRoute>,
    environment: Seq<(String, String)>,
    localized: Seq<(Seq<char>, Seq<char>, crate::artifacts::AndroidArtifactKind, Seq<char>)>,
    app_name: Seq<char>,
    app_bundle: Seq<char>,
    has_app_icon: bool,
    schema_version: u32,
    sources: GeneratedSources,
)
    ensures
        ({
            let files = android_files(routes, environment, localized, app_name, app_bundle, has_app_icon, schema_version, sources);
            let n = files.len();
            &&& n == 18 + sources.dev_shards@.len() + localized.len() + 2
            &&& files[n - 2].1 == files[n - 1].1
            &&& files[n - 1].1 == view_consumption_text(routes, schema_version)
            &&& routes_use(routes, ViewNodeKind::Camera) ==> contains_text(files[4].1, camera_permission_text())
            &&& routes_use(routes, ViewNodeKind::Microphone) ==> contains_text(files[4].1, microphone_permission_text())
        }),
{
    let files = android_files(routes, environment, localized, app_name, app_bundle, has_app_icon, schema_version, sources);
    let fixed = fixed_artifacts(routes, environment, app_name, app_bundle, has_app_icon, schema_version, sources);
    assert(fixed.len() == 18);
    assert(files[4] == fixed[4]);
    law_manifest_declares_captures(
        app_name,
        has_app_icon,
        routes_use(routes, ViewNodeKind::Camera),
        routes_use(routes, ViewNodeKind::Microphone),
        schema_version,
    );
}

/// A text holds `needle` at position `i`.
proof fn lemma_contains_at(text: Seq<char>, needle: Seq<char>, i: int)
    requires
        0 <= i,
        i + needle.len() <= text.len(),
        text.subrange(i, i + needle.len()) == needle,
    ensures
        contains_text(text, needle),
{
}

/// Each part of a joined text occurs in it.
proof fn lemma_join_contains_part(parts: Seq<Seq<char>>, sep: Seq<char>, i: int)
    requires
        0 <= i < parts.len(),
    ensures
        contains_text(join(parts, sep), parts[i]),
    decreases parts.len(),
{
    if parts.len() == 1 {
        lemma_contains_whole(parts[0]);
    } else if i == parts.len() - 1 {
        lemma_contains_whole(parts.last());
        lemma_contains_after(join(parts.drop_last(), sep) + sep, parts.last(), parts.last());
    } else {
        lemma_join_contains_part(parts.drop_last(), sep, i);
        assert(parts.drop_last()[i] == parts[i]);
        lemma_contains_before(join(parts.drop_last(), sep), sep, parts[i]);
        lemma_contains_before(join(parts.drop_last(), sep) + sep, parts.last(), parts[i]);
    }
}

/// The strings resource file of a locale opens and closes its `resources`
/// element, and holds, for each translated value, a `string` element named by
/// its resource name whose text is the value escaped for Android resource XML.
pub proof fn law_strings_xml_escapes_every_value(locale: TranslationLocale, i: int)
    requires
        0 <= i < locale.values@.len(),
    ensures
        contains_text(
            android_strings_xml_text(locale),
            "    <string name=\""@ + locale.values@[i].resource_name@ + "\">"@ + xml_escaped(locale.values@[i].value@)
                + "</string>"@,
        ),
        "<resources>\n"@.is_prefix_of(android_strings_xml_text(locale)),
        "\n</resources>\n"@.is_suffix_of(android_strings_xml_text(locale)),
{
    let text = android_strings_xml_text(locale);
    let parts = Seq::new(locale.values@.len(), |j: int| string_resource_line(locale.values@[j]));
    let body = join(parts, "\n"@);
    lemma_join_contains_part(parts, "\n"@, i);
    lemma_contains_after("<resources>\n"@, body, parts[i]);
    lemma_contains_before("<resources>\n"@ + body, "\n</resources>\n"@, parts[i]);
    assert(text.subrange(0, "<resources>\n"@.len() as int) =~= "<resources>\n"@);
    let tail = "\n</resources>\n"@;
    assert(text.subrange(text.len() - tail.len(), text.len() as int) =~= tail);
}

/// The strings resource file of a locale is the `resources` element holding,
/// one per line and in order, a `string` element per translated value: named by
/// its resource name, with the value escaped for Android resource XML.
pub proof fn law_strings_xml_structure(locale: TranslationLocale)
    ensures
        android_strings_xml_text(locale) == "<resources>\n"@ + join(
            Seq::new(
                locale.values@.len(),
                |i: int|
                    "    <string name=\""@ + locale.values@[i].resource_name@ + "\">"@ + xml_escaped(
                        locale.values@[i].value@,
                    ) + "</string>"@,
            ),
            "\n"@,
        ) + "\n</resources>\n"@,
{
    assert(Seq::new(locale.values@.len(), |i: int| string_resource_line(locale.values@[i])) =~= Seq::new(
        locale.values@.len(),
        |i: int|
            "    <string name=\""@ + locale.values@[i].resource_name@ + "\">"@ + xml_escaped(locale.values@[i].value@)
                + "</string>"@,
    ));
}

/// The generated routing lists every route: its path among the paths, and its
/// deep link under the development scheme.
pub proof fn law_routing_lists_every_route(routes: Seq<ViewRoute>, i: int)
    requires
        0 <= i < routes.len(),
    ensures
        contains_text(android_routing_text(routes), "    \""@ + routes[i].route_path@ + "\","@),
        contains_text(android_routing_text(routes), "    \"dowe-dev://generated"@ + routes[i].route_path@ + "\","@),
{
    let paths = Seq::new(routes.len(), |k: int| route_path_line(routes[k]));
    let sections = Seq::new(routes.len(), |k: int| sections_line(routes[k]));
    let links = Seq::new(routes.len(), |k: int| deep_link_line(routes[k]));
    let a = ANDROID_ROUTING_0@ + first_path_text(routes) + ANDROID_ROUTING_1@;
    let jp = join(paths, "\n"@);
    let js = join(sections, "\n"@);
    let jl = join(links, "\n"@);
    let text = android_routing_text(routes);
    let p = paths[i];
    lemma_join_contains_part(paths, "\n"@, i);
    lemma_contains_after(a, jp, p);
    lemma_contains_before(a + jp, ANDROID_ROUTING_2@, p);
    lemma_contains_before(a + jp + ANDROID_ROUTING_2@, js, p);
    lemma_contains_before(a + jp + ANDROID_ROUTING_2@ + js, ANDROID_ROUTING_3@, p);
    lemma_contains_before(a + jp + ANDROID_ROUTING_2@ + js + ANDROID_ROUTING_3@, jl, p);
    lemma_contains_before(a + jp + ANDROID_ROUTING_2@ + js + ANDROID_ROUTING_3@ + jl, ANDROID_ROUTING_4@, p);
    let l = links[i];
    let before = a + jp + ANDROID_ROUTING_2@ + js + ANDROID_ROUTING_3@;
    lemma_join_contains_part(links, "\n"@, i);
    lemma_contains_after(before, jl, l);
    lemma_contains_before(before + jl, ANDROID_ROUTING_4@, l);
}

/// The generated routing opens the application on the path of its first
/// route, or on `/` when there is none.
pub proof fn law_routing_opens_on_first_route(routes: Seq<ViewRoute>)
    ensures
        (ANDROID_ROUTING_0@ + (if routes.len() == 0 {
            "/"@
        } else {
            routes[0].route_path@
        }) + ANDROID_ROUTING_1@).is_prefix_of(android_routing_text(routes)),
{
    let head = ANDROID_ROUTING_0@ + (if routes.len() == 0 {
        "/"@
    } else {
        routes[0].route_path@
    }) + ANDROID_ROUTING_1@;
    let text = android_routing_text(routes);
    assert(text.subrange(0, head.len() as int) =~= head);
}

/// A countdown passes its target, each of its four visibility switches, its
/// size and each of its four unit labels to the argument of the same name, in
/// the order days, hours, minutes, seconds.
pub proof fn law_countdown_passes_each_switch(props: CountdownProps, indent: usize, context: ComposeReactiveContext)
    ensures
        contains_text(
            countdown_line(props, indent, context),
            "DoweCountdown(target = "@ + string_literal_text(props.target@) + ", showDays = "@ + bool_text(props.show_days)
                + ", showHours = "@ + bool_text(props.show_hours) + ", showMinutes = "@ + bool_text(props.show_minutes)
                + ", showSeconds = "@ + bool_text(props.show_seconds) + ", size = "@ + string_literal_text(props.size@)
                + ", daysLabel = "@ + string_literal_text(props.days_label@) + ", hoursLabel = "@ + string_literal_text(
                props.hours_label@,
            ) + ", minutesLabel = "@ + string_literal_text(props.minutes_label@) + ", secondsLabel = "@
                + string_literal_text(props.seconds_label@),
        ),
{
    let head = spaces(indent as nat);
    let n0 = "DoweCountdown(target = "@;
    let u0 = head + n0;
    let n1 = n0 + string_literal_text(props.target@);
    let u1 = u0 + string_literal_text(props.target@);
    lemma_assoc(head, n0, string_literal_text(props.target@));
    let n2 = n1 + ", showDays = "@;
    let u2 = u1 + ", showDays = "@;
    lemma_assoc(head, n1, ", showDays = "@);
    let n3 = n2 + bool_text(props.show_days);
    let u3 = u2 + bool_text(props.show_days);
    lemma_assoc(head, n2, bool_text(props.show_days));
    let n4 = n3 + ", showHours = "@;
    let u4 = u3 + ", showHours = "@;
    lemma_assoc(head, n3, ", showHours = "@);
    let n5 = n4 + bool_text(props.show_hours);
    let u5 = u4 + bool_text(props.show_hours);
    lemma_assoc(head, n4, bool_text(props.show_hours));
    let n6 = n5 + ", showMinutes = "@;
    let u6 = u5 + ", showMinutes = "@;
    lemma_assoc(head, n5, ", showMinutes = "@);
    let n7 = n6 + bool_text(props.show_minutes);
    let u7 = u6 + bool_text(props.show_minutes);
    lemma_assoc(head, n6, bool_text(props.show_minutes));
    let n8 = n7 + ", showSeconds = "@;
    let u8 = u7 + ", showSeconds = "@;
    lemma_assoc(head, n7, ", showSeconds = "@);
    let n9 = n8 + bool_text(props.show_seconds);
    let u9 = u8 + bool_text(props.show_seconds);
    lemma_assoc(head, n8, bool_text(props.show_seconds));
    let n10 = n9 + ", size = "@;
    let u10 = u9 + ", size = "@;
    lemma_assoc(head, n9, ", size = "@);
    let n11 = n10 + string_literal_text(props.size@);
    let u11 = u10 + string_literal_text(props.size@);
    lemma_assoc(head, n10, string_literal_text(props.size@));
    let n12 = n11 + ", daysLabel = "@;
    let u12 = u11 + ", daysLabel = "@;
    lemma_assoc(head, n11, ", daysLabel = "@);
    let n13 = n12 + string_literal_text(props.days_label@);
    let u13 = u12 + string_literal_text(props.days_label@);
    lemma_assoc(head, n12, string_literal_text(props.days_label@));
    let n14 = n13 + ", hoursLabel = "@;
    let u14 = u13 + ", hoursLabel = "@;
    lemma_assoc(head, n13, ", hoursLabel = "@);
    let n15 = n14 + string_literal_text(props.hours_label@);
    let u15 = u14 + string_literal_text(props.hours_label@);
    lemma_assoc(head, n14, string_literal_text(props.hours_label@));
    let n16 = n15 + ", minutesLabel = "@;
    let u16 = u15 + ", minutesLabel = "@;
    lemma_assoc(head, n15, ", minutesLabel = "@);
    let n17 = n16 + string_literal_text(props.minutes_label@);
    let u17 = u16 + string_literal_text(props.minutes_label@);
    lemma_assoc(head, n16, string_literal_text(props.minutes_label@));
    let n18 = n17 + ", secondsLabel = "@;
    let u18 = u17 + ", secondsLabel = "@;
    lemma_assoc(head, n17, ", secondsLabel = "@);
    let n19 = n18 + string_literal_text(props.seconds_label@);
    let u19 = u18 + string_literal_text(props.seconds_label@);
    lemma_assoc(head, n18, string_literal_text(props.seconds_label@));
    let needle = n19;
    assert(u19 == head + needle);
    lemma_contains_whole(needle);
    lemma_contains_after(head, needle, needle);
    let t0 = u19;
    assert(t0.subrange(0, t0.len() as int) =~= t0);
    let t1 = t0 + ", backgroundColor = "@;
    lemma_prefix_step(t0, t0, ", backgroundColor = "@);
    let t2 = t1 + (props.style.card_container@);
    lemma_prefix_step(t0, t1, (props.style.card_container@));
    let t3 = t2 + ", contentColor = "@;
    lemma_prefix_step(t0, t2, ", contentColor = "@);
    let t4 = t3 + (props.style.card_content@);
    lemma_prefix_step(t0, t3, (props.style.card_content@));
    let t5 = t4 + ", borderColor = "@;
    lemma_prefix_step(t0, t4, ", borderColor = "@);
    let t6 = t5 + (variant_border_text(props.style));
    lemma_prefix_step(t0, t5, (variant_border_text(props.style)));
    let t7 = t6 + ", onComplete = "@;
    lemma_prefix_step(t0, t6, ", onComplete = "@);
    let t8 = t7 + (component_action_text(context, opt_string_view(props.on_complete), None));
    lemma_prefix_step(t0, t7, (component_action_text(context, opt_string_view(props.on_complete), None)));
    let t9 = t8 + ", modifier = "@;
    lemma_prefix_step(t0, t8, ", modifier = "@);
    let t10 = t9 + (style_modifier_text(props.style.style, "Modifier"@));
    lemma_prefix_step(t0, t9, (style_modifier_text(props.style.style, "Modifier"@)));
    let t11 = t10 + ")\n"@;
    lemma_prefix_step(t0, t10, ")\n"@);
    let line = countdown_line(props, indent, context);
    assert(line == t11);
    lemma_contains_in_prefix(line, t0, needle);
}

proof fn lemma_assoc(x: Seq<char>, y: Seq<char>, z: Seq<char>)
    ensures
        (x + y) + z == x + (y + z),
{
    assert((x + y) + z =~= x + (y + z));
}

proof fn lemma_prefix_step(p: Seq<char>, t: Seq<char>, x: Seq<char>)
    requires
        p.len() <= t.len(),
        t.subrange(0, p.len() as int) == p,
    ensures
        p.len() <= (t + x).len(),
        (t + x).subrange(0, p.len() as int) == p,
{
    assert((t + x).subrange(0, p.len() as int) =~= t.subrange(0, p.len() as int));
}

/// What a prefix of a text holds, the text holds.
proof fn lemma_contains_in_prefix(text: Seq<char>, prefix: Seq<char>, needle: Seq<char>)
    requires
        prefix.len() <= text.len(),
        text.subrange(0, prefix.len() as int) == prefix,
        contains_text(prefix, needle),
    ensures
        contains_text(text, needle),
{
    let j = choose|j: int| 0 <= j && j + needle.len() <= prefix.len() && #[trigger] prefix.subrange(j, j + needle.len()) == needle;
    assert(text.subrange(j, j + needle.len()) =~= prefix.subrange(j, j + needle.len()));
    lemma_contains_at(text, needle, j);
}

/// An alert whose close action stands for an action id draws a close button
/// that runs that action.
pub proof fn law_alert_close_button_runs_its_action(
    props: AlertProps,
    indent: usize,
    inherited_font: Option<ResponsiveValue<FontFamily>>,
    default_family: FontFamily,
    context: ComposeReactiveContext,
    id: Seq<char>,
)
    requires
        props.on_close matches Some(name) && lookup(context.action_ids@, name@) == Some(id),
    ensures
        contains_text(
            alert_text(props, indent, inherited_font, default_family, context),
            "    Button(onClick = { actionScope.launch { state.run(\""@ + kotlin_escaped(id)
                + "\") } }, contentPadding = PaddingValues(horizontal = 8.dp, vertical = 0.dp)) { Text(\"x\") }\n"@,
        ),
{
    let needle = "    Button(onClick = { actionScope.launch { state.run(\""@ + kotlin_escaped(id)
        + "\") } }, contentPadding = PaddingValues(horizontal = 8.dp, vertical = 0.dp)) { Text(\"x\") }\n"@;
    let row = alert_indent(props, indent);
    let text = alert_text(props, indent, inherited_font, default_family, context);
    let close = spaces(row as nat) + needle;
    let end = spaces(row as nat) + "}\n"@ + (if props.visible is Some {
        spaces(indent as nat) + "}\n"@
    } else {
        Seq::empty()
    });
    assert(action_id_of(context, crate::text::opt_string_view(props.on_close)) == Some(id));
    let before = text.len() - close.len() - end.len();
    let i = before + row;
    assert(text.subrange(i, i + needle.len()) =~= needle);
    lemma_contains_at(text, needle, i);
}

} // verus!
