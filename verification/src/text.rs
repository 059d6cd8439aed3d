//! Text building blocks shared by every generated file: decimal numbers,
//! indentation, joined lists and the escaping of Kotlin and Android XML text.
use vstd::prelude::*;

verus! {

/// Appends one character to a string.
#[verifier::external_body]
pub(crate) fn push_char(out: &mut String, c: char)
    ensures
        final(out)@ == old(out)@.push(c),
{
    out.push(c);
}

/// The decimal digit of `d` (`d < 10`).
pub open spec fn digit_char(d: nat) -> char {
    if d == 0 {
        '0'
    } else if d == 1 {
        '1'
    } else if d == 2 {
        '2'
    } else if d == 3 {
        '3'
    } else if d == 4 {
        '4'
    } else if d == 5 {
        '5'
    } else if d == 6 {
        '6'
    } else if d == 7 {
        '7'
    } else if d == 8 {
        '8'
    } else {
        '9'
    }
}

/// The decimal text of a natural number, most significant digit first,
/// without leading zeros.
pub open spec fn decimal_text(n: nat) -> Seq<char>
    decreases n,
{
    if n < 10 {
        seq![digit_char(n)]
    } else {
        decimal_text(n / 10).push(digit_char(n % 10))
    }
}

fn digit(d: u64) -> (c: char)
    requires
        d < 10,
    ensures
        c == digit_char(d as nat),
{
    if d == 0 {
        '0'
    } else if d == 1 {
        '1'
    } else if d == 2 {
        '2'
    } else if d == 3 {
        '3'
    } else if d == 4 {
        '4'
    } else if d == 5 {
        '5'
    } else if d == 6 {
        '6'
    } else if d == 7 {
        '7'
    } else if d == 8 {
        '8'
    } else {
        '9'
    }
}

/// Appends the decimal text of `n`.
pub fn push_decimal(out: &mut String, n: u64)
    ensures
        final(out)@ == old(out)@ + decimal_text(n as nat),
    decreases n,
{
    if n < 10 {
        push_char(out, digit(n));
    } else {
        push_decimal(out, n / 10);
        push_char(out, digit(n % 10));
    }
}

/// The decimal text of `n`.
pub fn decimal_string(n: u64) -> (res: String)
    ensures
        res@ == decimal_text(n as nat),
{
    let mut out = String::new();
    push_decimal(&mut out, n);
    out
}

/// `n` spaces.
pub open spec fn spaces(n: nat) -> Seq<char> {
    Seq::new(n, |i: int| ' ')
}

/// A string of `n` spaces, the indentation of generated code.
pub fn pad(n: usize) -> (res: String)
    ensures
        res@ == spaces(n as nat),
{
    let mut out = String::new();
    let mut i: usize = 0;
    while i < n
        invariant
            i <= n,
            out@ == spaces(i as nat),
        decreases n - i,
    {
        push_char(&mut out, ' ');
        i = i + 1;
        assert(out@ =~= spaces(i as nat));
    }
    out
}

/// The parts joined with `sep` between each two neighbours.
pub open spec fn join(parts: Seq<Seq<char>>, sep: Seq<char>) -> Seq<char>
    decreases parts.len(),
{
    if parts.len() == 0 {
        Seq::empty()
    } else if parts.len() == 1 {
        parts[0]
    } else {
        join(parts.drop_last(), sep) + sep + parts.last()
    }
}

/// The views of a vector of strings.
pub open spec fn string_views(v: Seq<String>) -> Seq<Seq<char>> {
    v.map_values(|s: String| s@)
}

/// Appends the strings of `parts` joined with `sep`.
pub fn push_joined(out: &mut String, parts: &Vec<String>, sep: &str)
    ensures
        final(out)@ == old(out)@ + join(string_views(parts@), sep@),
{
    let ghost start = out@;
    let mut i: usize = 0;
    while i < parts.len()
        invariant
            i <= parts.len(),
            out@ == start + join(string_views(parts@.take(i as int)), sep@),
        decreases parts.len() - i,
    {
        let ghost before = string_views(parts@.take(i as int));
        assert(string_views(parts@.take(i + 1)).drop_last() =~= before);
        if i > 0 {
            out.append(sep);
        }
        out.append(parts[i].as_str());
        i = i + 1;
    }
    assert(parts@.take(parts.len() as int) =~= parts@);
}

/// `listOf(..)` of the parts, joined with `", "`.
pub open spec fn list_of_text(parts: Seq<Seq<char>>) -> Seq<char> {
    "listOf("@ + join(parts, ", "@) + ")"@
}

/// A Kotlin `listOf(..)` expression of the given values.
pub fn list_of(parts: &Vec<String>) -> (res: String)
    ensures
        res@ == list_of_text(string_views(parts@)),
{
    let mut out = String::from_str("listOf(");
    push_joined(&mut out, parts, ", ");
    out.append(")");
    out
}

/// How one character is written inside a Kotlin string literal.
pub open spec fn kotlin_char_text(c: char) -> Seq<char> {
    if c == '\\' {
        "\\\\"@
    } else if c == '"' {
        "\\\""@
    } else if c == '$' {
        "\\$"@
    } else if c == '\n' {
        "\\n"@
    } else if c == '\r' {
        "\\r"@
    } else if c == '\t' {
        "\\t"@
    } else {
        seq![c]
    }
}

/// The text of `s` as it is written between the quotes of a Kotlin string literal.
pub open spec fn kotlin_escaped(s: Seq<char>) -> Seq<char>
    decreases s.len(),
{
    if s.len() == 0 {
        Seq::empty()
    } else {
        kotlin_escaped(s.drop_last()) + kotlin_char_text(s.last())
    }
}

fn push_kotlin_char(out: &mut String, c: char)
    ensures
        final(out)@ == old(out)@ + kotlin_char_text(c),
{
    if c == '\\' {
        out.append("\\\\");
    } else if c == '"' {
        out.append("\\\"");
    } else if c == '$' {
        out.append("\\$");
    } else if c == '\n' {
        out.append("\\n");
    } else if c == '\r' {
        out.append("\\r");
    } else if c == '\t' {
        out.append("\\t");
    } else {
        push_char(out, c);
        assert(old(out)@.push(c) =~= old(out)@ + seq![c]);
    }
}

/// Appends `value` escaped for a Kotlin string literal.
pub fn push_kotlin_escaped(out: &mut String, value: &str)
    ensures
        final(out)@ == old(out)@ + kotlin_escaped(value@),
{
    let ghost start = out@;
    let n = value.unicode_len();
    let mut i: usize = 0;
    while i < n
        invariant
            n == value@.len(),
            i <= n,
            out@ == start + kotlin_escaped(value@.take(i as int)),
        decreases n - i,
    {
        let c = value.get_char(i);
        assert(value@.take(i + 1).drop_last() =~= value@.take(i as int));
        push_kotlin_char(out, c);
        i = i + 1;
    }
    assert(value@.take(n as int) =~= value@);
}

/// `value` escaped for a Kotlin string literal: backslash, quote, dollar sign and
/// the line break, carriage return and tab characters are written with a backslash.
pub fn escape_kotlin(value: &str) -> (res: String)
    ensures
        res@ == kotlin_escaped(value@),
{
    let mut out = String::new();
    push_kotlin_escaped(&mut out, value);
    out
}

/// A quoted Kotlin string literal of `value`.
pub open spec fn string_literal_text(value: Seq<char>) -> Seq<char> {
    "\""@ + kotlin_escaped(value) + "\""@
}

/// A Kotlin string literal holding `value`.
pub fn compose_string_literal(value: &str) -> (res: String)
    ensures
        res@ == string_literal_text(value@),
{
    let mut out = String::from_str("\"");
    push_kotlin_escaped(&mut out, value);
    out.append("\"");
    out
}

/// A Kotlin string literal of the value, or `null` when there is none.
pub open spec fn optional_string_text(value: Option<Seq<char>>) -> Seq<char> {
    match value {
        Some(v) => string_literal_text(v),
        None => "null"@,
    }
}

/// The view of an optional string slice.
pub open spec fn opt_view(value: Option<&str>) -> Option<Seq<char>> {
    match value {
        Some(v) => Some(v@),
        None => None,
    }
}

/// The view of an optional string.
pub open spec fn opt_string_view(value: Option<String>) -> Option<Seq<char>> {
    match value {
        Some(v) => Some(v@),
        None => None,
    }
}

/// The string slice of an optional string.
pub fn opt_str(value: &Option<String>) -> (res: Option<&str>)
    ensures
        opt_view(res) == opt_string_view(*value),
{
    match value {
        Some(v) => Some(v.as_str()),
        None => None,
    }
}

/// A Kotlin string literal of an optional string, or `null`.
pub fn compose_optional_field(value: &Option<String>) -> (res: String)
    ensures
        res@ == optional_string_text(opt_string_view(*value)),
{
    compose_optional_string(opt_str(value))
}

/// A number, or `null` when there is none.
pub open spec fn optional_decimal_text(value: Option<u64>) -> Seq<char> {
    match value {
        Some(v) => decimal_text(v as nat),
        None => "null"@,
    }
}

/// The decimal text of a number, or `null`.
pub fn compose_optional_decimal(value: Option<u64>) -> (res: String)
    ensures
        res@ == optional_decimal_text(value),
{
    match value {
        Some(v) => decimal_string(v),
        None => String::from_str("null"),
    }
}

/// A Kotlin string literal of `value`, or `null`.
pub fn compose_optional_string(value: Option<&str>) -> (res: String)
    ensures
        res@ == optional_string_text(opt_view(value)),
{
    match value {
        Some(v) => compose_string_literal(v),
        None => String::from_str("null"),
    }
}

/// An optional navigation value of a side navigation entry: a Kotlin string
/// literal, or `null`.
pub fn compose_side_nav_optional_string(value: Option<&str>) -> (res: String)
    ensures
        res@ == optional_string_text(opt_view(value)),
{
    match value {
        Some(v) => compose_string_literal(v),
        None => String::from_str("null"),
    }
}

/// The decimal text of an optional number, or `null`.
pub open spec fn optional_u16_text(value: Option<u16>) -> Seq<char> {
    match value {
        Some(v) => decimal_text(v as nat),
        None => "null"@,
    }
}

/// A Kotlin number literal of `value`, or `null`.
pub fn compose_optional_u16(value: Option<u16>) -> (res: String)
    ensures
        res@ == optional_u16_text(value),
{
    match value {
        Some(v) => decimal_string(v as u64),
        None => String::from_str("null"),
    }
}

/// How one character is written in Android resource XML text.
pub open spec fn xml_char_text(c: char) -> Seq<char> {
    if c == '&' {
        "&amp;"@
    } else if c == '<' {
        "&lt;"@
    } else if c == '>' {
        "&gt;"@
    } else if c == '"' {
        "&quot;"@
    } else if c == '\'' {
        "\\'"@
    } else {
        seq![c]
    }
}

/// The text of `s` escaped for an Android resource XML value.
pub open spec fn xml_escaped(s: Seq<char>) -> Seq<char>
    decreases s.len(),
{
    if s.len() == 0 {
        Seq::empty()
    } else {
        xml_escaped(s.drop_last()) + xml_char_text(s.last())
    }
}

fn push_xml_char(out: &mut String, c: char)
    ensures
        final(out)@ == old(out)@ + xml_char_text(c),
{
    if c == '&' {
        out.append("&amp;");
    } else if c == '<' {
        out.append("&lt;");
    } else if c == '>' {
        out.append("&gt;");
    } else if c == '"' {
        out.append("&quot;");
    } else if c == '\'' {
        out.append("\\'");
    } else {
        push_char(out, c);
        assert(old(out)@.push(c) =~= old(out)@ + seq![c]);
    }
}

/// `value` escaped for Android resource XML: `&`, `<`, `>` and `"` become entities
/// and the apostrophe is written with a backslash.
pub fn escape_android_xml(value: &str) -> (res: String)
    ensures
        res@ == xml_escaped(value@),
{
    let mut out = String::new();
    let n = value.unicode_len();
    let mut i: usize = 0;
    while i < n
        invariant
            n == value@.len(),
            i <= n,
            out@ == xml_escaped(value@.take(i as int)),
        decreases n - i,
    {
        let c = value.get_char(i);
        assert(value@.take(i + 1).drop_last() =~= value@.take(i as int));
        push_xml_char(&mut out, c);
        i = i + 1;
    }
    assert(value@.take(n as int) =~= value@);
    out
}

} // verus!

verus! {

/// Whether two strings hold the same characters.
pub fn str_eq(a: &str, b: &str) -> (res: bool)
    ensures
        res == (a@ == b@),
{
    let n = a.unicode_len();
    let m = b.unicode_len();
    if n != m {
        return false;
    }
    let mut i: usize = 0;
    while i < n
        invariant
            n == a@.len(),
            m == b@.len(),
            n == m,
            i <= n,
            a@.take(i as int) == b@.take(i as int),
        decreases n - i,
    {
        if a.get_char(i) != b.get_char(i) {
            assert(a@[i as int] != b@[i as int]);
            return false;
        }
        assert(a@.take(i + 1) =~= a@.take(i as int).push(a@[i as int]));
        assert(b@.take(i + 1) =~= b@.take(i as int).push(b@[i as int]));
        i = i + 1;
    }
    assert(a@ =~= a@.take(n as int));
    assert(b@ =~= b@.take(n as int));
    true
}

} // verus!

verus! {

/// The parts one after the other.
pub open spec fn concat(parts: Seq<Seq<char>>) -> Seq<char>
    decreases parts.len(),
{
    if parts.len() == 0 {
        Seq::empty()
    } else {
        concat(parts.drop_last()) + parts.last()
    }
}

} // verus!
