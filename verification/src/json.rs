//! JSON documents as validated text.
//!
//! The library carries JSON payloads as strings and leans on serde_json in
//! three places, each behind a trusted item: validating a document, reading
//! a string field out of a document, and printing a `serde_json::Value` as
//! a document. Parsing and field lookup are functions of the text alone, so
//! their results are named and the wrappers state exactly those names;
//! printing promises nothing, and verified callers validate the printed
//! text before trusting it.
//!
//! Quoting a string as a JSON string literal is ordinary text work and is
//! done by verified code here (`quote_string`).
use vstd::prelude::*;

verus! {

/// True when the text is one well-formed JSON document: exactly when
/// `serde_json::from_str::<Value>` accepts it.
pub uninterp spec fn is_json_text(doc: Seq<char>) -> bool;

/// The string value of field `key` of the JSON document `doc`: the result of
/// parsing `doc`, indexing the top-level object by `key`, and reading the
/// field as a string. `None` when `doc` does not parse, is not an object,
/// lacks the key, or holds a non-string there.
pub uninterp spec fn json_string_field_of(doc: Seq<char>, key: Seq<char>) -> Option<Seq<char>>;

/// Relies on `serde_json::from_str::<serde_json::Value>`: it accepts exactly
/// the well-formed JSON documents, a function of the text alone.
#[verifier::external_body]
pub(crate) fn json_is_valid(doc: &str) -> (r: bool)
    ensures
        r == is_json_text(doc@),
{
    serde_json::from_str::<serde_json::Value>(doc).is_ok()
}

/// Relies on serde_json: `from_str::<Value>`, `Value::get` and
/// `Value::as_str` together read the string field `key` of `doc`, a function
/// of the two texts alone.
#[verifier::external_body]
pub(crate) fn json_string_field(doc: &str, key: &str) -> (r: Option<String>)
    ensures
        r matches Some(s) ==> json_string_field_of(doc@, key@) == Some(s@),
        r is None ==> json_string_field_of(doc@, key@) is None,
{
    let value: serde_json::Value = serde_json::from_str(doc).ok()?;
    let field = value.get(key)?;
    let s = field.as_str()?;
    Some(s.to_string())
}

/// The declared shape of `serde_json::Value`, so that signatures may carry it.
#[verifier::external_type_specification]
#[verifier::external_body]
pub struct ExValue(serde_json::Value);

/// Relies on `serde_json::from_str::<serde_json::Value>`: parsing succeeds
/// exactly on well-formed JSON documents.
#[verifier::external_body]
pub(crate) fn json_parse(doc: &str) -> (r: Result<serde_json::Value, String>)
    ensures
        r is Ok ==> is_json_text(doc@),
        r is Err ==> !is_json_text(doc@),
{
    match serde_json::from_str(doc) {
        Ok(v) => Ok(v),
        Err(e) => Err(e.to_string()),
    }
}

/// Relies on `serde_json::to_string` on a `serde_json::Value`: the printed
/// text, with nothing promised of it — the serializer tracks no depth, so a
/// value nested beyond the parser's recursion limit prints to a document the
/// parser would refuse. Callers validate the text before trusting it.
#[verifier::external_body]
pub(crate) fn json_value_to_string(value: &serde_json::Value) -> (r: Result<String, String>) {
    match serde_json::to_string(value) {
        Ok(s) => Ok(s),
        Err(e) => Err(e.to_string()),
    }
}

/// The characters of the string, in order.
pub(crate) fn chars_of(s: &str) -> (r: Vec<char>)
    ensures
        r@ == s@,
{
    broadcast use vstd::string::group_string_axioms;

    let mut it = s.chars();
    let mut out: Vec<char> = Vec::new();
    loop
        invariant
            out@ + vstd::std_specs::iter::IteratorSpec::remaining(&it) == s@,
            vstd::std_specs::iter::IteratorSpec::obeys_prophetic_iter_laws(&it),
        ensures
            out@ == s@,
        decreases s@.len() - out@.len(),
    {
        match it.next() {
            Some(c) => {
                out.push(c);
                proof {
                    assert(out@ + vstd::std_specs::iter::IteratorSpec::remaining(&it) =~= s@);
                }
            },
            None => {
                proof {
                    assert(vstd::std_specs::iter::IteratorSpec::remaining(&it).len() == 0);
                    assert(out@ =~= s@);
                }
                break ;
            },
        }
    }
    out
}

/// Relies on `String::push`: appends one character.
#[verifier::external_body]
pub(crate) fn push_char(s: &mut String, c: char)
    ensures
        final(s)@ == old(s)@ + seq![c],
{
    s.push(c);
}

/// The hex digit for a value below 16.
pub open spec fn spec_hex_digit(v: int) -> char {
    if v == 0 {
        '0'
    } else if v == 1 {
        '1'
    } else if v == 2 {
        '2'
    } else if v == 3 {
        '3'
    } else if v == 4 {
        '4'
    } else if v == 5 {
        '5'
    } else if v == 6 {
        '6'
    } else if v == 7 {
        '7'
    } else if v == 8 {
        '8'
    } else if v == 9 {
        '9'
    } else if v == 10 {
        'a'
    } else if v == 11 {
        'b'
    } else if v == 12 {
        'c'
    } else if v == 13 {
        'd'
    } else if v == 14 {
        'e'
    } else {
        'f'
    }
}

/// How one character is written inside a JSON string literal: quotes and
/// backslashes are escaped, control characters become `\u00XX`, everything
/// else stands as itself.
pub open spec fn spec_json_escaped_char(c: char) -> Seq<char> {
    if c == '"' {
        seq!['\\', '"']
    } else if c == '\\' {
        seq!['\\', '\\']
    } else if c == '\n' {
        seq!['\\', 'n']
    } else if c == '\r' {
        seq!['\\', 'r']
    } else if c == '\t' {
        seq!['\\', 't']
    } else if (c as int) < 0x20 {
        seq!['\\', 'u', '0', '0', spec_hex_digit(c as int / 16), spec_hex_digit(c as int % 16)]
    } else {
        seq![c]
    }
}

/// The body of the JSON string literal for `s`: each character escaped.
pub open spec fn spec_json_escaped(s: Seq<char>) -> Seq<char>
    decreases s.len(),
{
    if s.len() == 0 {
        Seq::empty()
    } else {
        spec_json_escaped_char(s[0]) + spec_json_escaped(s.skip(1))
    }
}

/// The JSON string literal for `s`: the escaped body in double quotes.
pub open spec fn spec_json_quoted(s: Seq<char>) -> Seq<char> {
    seq!['"'] + spec_json_escaped(s) + seq!['"']
}

/// Escaping distributes over appending one character.
proof fn lemma_json_escaped_push(s: Seq<char>, c: char)
    ensures
        spec_json_escaped(s.push(c)) == spec_json_escaped(s) + spec_json_escaped_char(c),
    decreases s.len(),
{
    if s.len() == 0 {
        assert(s.push(c)[0] == c);
        assert(s.push(c).skip(1) =~= Seq::<char>::empty());
        assert(spec_json_escaped(s.push(c)) == spec_json_escaped_char(c) + spec_json_escaped(
            Seq::<char>::empty(),
        ));
        assert(spec_json_escaped(s.push(c)) =~= spec_json_escaped(s) + spec_json_escaped_char(c));
    } else {
        lemma_json_escaped_push(s.skip(1), c);
        assert(s.push(c).skip(1) =~= s.skip(1).push(c));
        assert(spec_json_escaped(s.push(c)) =~= spec_json_escaped(s) + spec_json_escaped_char(c));
    }
}

/// Appends the escaped form of one character.
fn push_escaped(out: &mut String, c: char)
    ensures
        final(out)@ == old(out)@ + spec_json_escaped_char(c),
{
    if c == '"' {
        push_char(out, '\\');
        push_char(out, '"');
    } else if c == '\\' {
        push_char(out, '\\');
        push_char(out, '\\');
    } else if c == '\n' {
        push_char(out, '\\');
        push_char(out, 'n');
    } else if c == '\r' {
        push_char(out, '\\');
        push_char(out, 'r');
    } else if c == '\t' {
        push_char(out, '\\');
        push_char(out, 't');
    } else if (c as u32) < 0x20 {
        push_char(out, '\\');
        push_char(out, 'u');
        push_char(out, '0');
        push_char(out, '0');
        push_char(out, hex_digit((c as u32 / 16) as u8));
        push_char(out, hex_digit((c as u32 % 16) as u8));
    } else {
        push_char(out, c);
    }
    assert(out@ =~= old(out)@ + spec_json_escaped_char(c));
}

/// The hex digit for a value below 16.
fn hex_digit(v: u8) -> (r: char)
    requires
        v < 16,
    ensures
        r == spec_hex_digit(v as int),
{
    if v == 0 {
        '0'
    } else if v == 1 {
        '1'
    } else if v == 2 {
        '2'
    } else if v == 3 {
        '3'
    } else if v == 4 {
        '4'
    } else if v == 5 {
        '5'
    } else if v == 6 {
        '6'
    } else if v == 7 {
        '7'
    } else if v == 8 {
        '8'
    } else if v == 9 {
        '9'
    } else if v == 10 {
        'a'
    } else if v == 11 {
        'b'
    } else if v == 12 {
        'c'
    } else if v == 13 {
        'd'
    } else if v == 14 {
        'e'
    } else {
        'f'
    }
}

/// Writes `s` as a JSON string literal.
pub fn quote_string(s: &str) -> (r: String)
    ensures
        r@ == spec_json_quoted(s@),
{
    let cs = chars_of(s);
    let mut out: String = String::new();
    push_char(&mut out, '"');
    let mut i: usize = 0;
    while i < cs.len()
        invariant
            i <= cs.len(),
            cs@ == s@,
            out@ == seq!['"'] + spec_json_escaped(s@.take(i as int)),
        decreases cs.len() - i,
    {
        proof {
            lemma_json_escaped_push(s@.take(i as int), s@[i as int]);
            assert(s@.take(i as int + 1) =~= s@.take(i as int).push(s@[i as int]));
        }
        push_escaped(&mut out, cs[i]);
        i = i + 1;
    }
    push_char(&mut out, '"');
    proof {
        assert(s@.take(cs@.len() as int) =~= s@);
        assert(out@ =~= spec_json_quoted(s@));
    }
    out
}

} // verus!
