//! JSON: the literals that pages receive and the replies that the backend sends.
use crate::text::{lemma_middle_occurs, lemma_occurs_in_larger, occurs_in};
use vstd::prelude::*;

verus! {

/// The lower-case hexadecimal digit for a value below sixteen.
pub open spec fn hex_char(value: int) -> char {
    if value < 10 {
        ('0' as u32 + value) as char
    } else {
        ('a' as u32 + value - 10) as char
    }
}

/// The value of a hexadecimal digit as `hex_char` writes it.
pub open spec fn hex_value(c: char) -> int {
    if c <= '9' {
        c as u32 - '0' as u32
    } else {
        c as u32 - 'a' as u32 + 10
    }
}

/// How one character is written inside a JSON string.
pub open spec fn json_char(c: char) -> Seq<char> {
    if c == '"' {
        seq!['\\', '"']
    } else if c == '\\' {
        seq!['\\', '\\']
    } else if c == '\u{8}' {
        seq!['\\', 'b']
    } else if c == '\t' {
        seq!['\\', 't']
    } else if c == '\n' {
        seq!['\\', 'n']
    } else if c == '\u{c}' {
        seq!['\\', 'f']
    } else if c == '\r' {
        seq!['\\', 'r']
    } else if ' ' > c {
        seq!['\\', 'u', '0', '0', hex_char(c as int / 16), hex_char(c as int % 16)]
    } else {
        seq![c]
    }
}

/// What stands between the quotes of a JSON string.
pub open spec fn json_body(text: Seq<char>) -> Seq<char>
    decreases text.len(),
{
    if text.len() == 0 {
        text
    } else {
        json_char(text[0]) + json_body(text.skip(1))
    }
}

/// A text as a JSON string, quotes included.
pub open spec fn json_string(text: Seq<char>) -> Seq<char> {
    seq!['"'] + json_body(text) + seq!['"']
}

/// The members of a JSON object, separated by commas.
pub open spec fn json_members(members: Seq<(Seq<char>, Seq<char>)>) -> Seq<char>
    decreases members.len(),
{
    if members.len() == 0 {
        seq![]
    } else {
        let first = json_string(members[0].0) + seq![':'] + json_string(members[0].1);
        if members.len() == 1 {
            first
        } else {
            first + seq![','] + json_members(members.skip(1))
        }
    }
}

/// A JSON object whose members are strings, in the given order.
pub open spec fn json_object(members: Seq<(Seq<char>, Seq<char>)>) -> Seq<char> {
    seq!['{'] + json_members(members) + seq!['}']
}

/// Pairs of texts, as sequences of characters.
pub open spec fn pairs_view(pairs: Seq<(String, String)>) -> Seq<(Seq<char>, Seq<char>)> {
    pairs.map_values(|pair: (String, String)| (pair.0@, pair.1@))
}

/// `a` comes before `b` in dictionary order of the characters, and differs from
/// it; `at` is the position where they part.
pub open spec fn parts_before(a: Seq<char>, b: Seq<char>, at: int) -> bool {
    &&& 0 <= at <= a.len()
    &&& at < b.len()
    &&& a.take(at) == b.take(at)
    &&& at == a.len() || a[at] < b[at]
}

/// Each key comes before the next one in dictionary order.
pub open spec fn keys_ascend(members: Seq<(Seq<char>, Seq<char>)>) -> bool {
    forall|i: int|
        0 <= i < members.len() - 1 ==> exists|at: int| #[trigger]
            parts_before((#[trigger] members[i]).0, members[i + 1].0, at)
}

/// `serde_json::to_string` of a text writes it as a JSON string: the quote, the
/// backslash and the control characters are escaped, everything else stands as
/// it is. Writing a text into memory does not fail.
#[verifier::external_body]
pub(crate) fn json_string_text(text: &str) -> (literal: String)
    ensures
        literal@ == json_string(text@),
{
    serde_json::to_string(text).unwrap()
}

/// `serde_json::to_string` of a `serde_json::Map` with string values writes a
/// compact object with its members in ascending order of the keys. The keys are
/// handed over in that order, so the members keep it.
#[verifier::external_body]
pub(crate) fn json_object_text(members: &Vec<(String, String)>) -> (object: String)
    requires
        keys_ascend(pairs_view(members@)),
    ensures
        object@ == json_object(pairs_view(members@)),
{
    let mut map = serde_json::Map::new();
    for (key, value) in members {
        map.insert(key.clone(), serde_json::Value::String(value.clone()));
    }
    serde_json::to_string(&map).unwrap()
}

/// The string that a JSON text holds under a key: `None` where the text is not
/// JSON, is no object, has no such key or holds no string there.
pub uninterp spec fn json_string_member(text: Seq<char>, key: Seq<char>) -> Option<Seq<char>>;

/// `serde_json::from_str` parses the text, `Value::get` finds the member and
/// `Value::as_str` tells whether it is a string. All three depend on their
/// arguments alone, so what they give is named by `json_string_member`.
#[verifier::external_body]
pub(crate) fn find_json_string(text: &str, key: &str) -> (member: Option<String>)
    ensures
        member is Some <==> json_string_member(text@, key@) is Some,
        member matches Some(value) ==> json_string_member(text@, key@) == Some(value@),
{
    let value: serde_json::Value = serde_json::from_str(text).ok()?;
    value.get(key)?.as_str().map(str::to_owned)
}

/// The first character that a reader of JSON sees in the body of a string, and
/// the number of characters that spell it.
pub open spec fn json_first(body: Seq<char>) -> (char, nat) {
    if body[0] != '\\' {
        (body[0], 1)
    } else if body[1] == 'b' {
        ('\u{8}', 2)
    } else if body[1] == 't' {
        ('\t', 2)
    } else if body[1] == 'n' {
        ('\n', 2)
    } else if body[1] == 'f' {
        ('\u{c}', 2)
    } else if body[1] == 'r' {
        ('\r', 2)
    } else if body[1] == 'u' {
        (
            (hex_value(body[2]) * 4096 + hex_value(body[3]) * 256 + hex_value(body[4]) * 16
                + hex_value(body[5])) as char,
            6,
        )
    } else {
        (body[1], 2)
    }
}

/// The text that a reader of JSON sees in the body of a string.
pub open spec fn json_body_value(body: Seq<char>) -> Seq<char>
    decreases body.len(),
{
    if body.len() == 0 {
        body
    } else {
        let (c, n) = json_first(body);
        if n >= body.len() {
            seq![c]
        } else {
            seq![c] + json_body_value(body.skip(n as int))
        }
    }
}

/// The text that a reader of JSON sees in a string literal.
pub open spec fn json_string_value(literal: Seq<char>) -> Seq<char> {
    json_body_value(literal.subrange(1, literal.len() - 1))
}

proof fn lemma_json_first(c: char, rest: Seq<char>)
    ensures
        json_char(c).len() > 0,
        json_first(json_char(c) + rest) == (c, json_char(c).len()),
        forall|i: int| 0 <= i < json_char(c).len() ==> ' ' <= #[trigger] json_char(c)[i],
{
    let body = json_char(c) + rest;
    assert(body[0] == json_char(c)[0]);
    if json_char(c).len() > 1 {
        assert(body[1] == json_char(c)[1]);
    }
    if json_char(c).len() == 6 {
        assert(body[2] == '0' && body[3] == '0');
        assert(body[4] == hex_char(c as int / 16));
        assert(body[5] == hex_char(c as int % 16));
        assert(hex_value(body[4]) * 16 + hex_value(body[5]) == c as int);
    }
}

proof fn lemma_json_body_value(text: Seq<char>)
    ensures
        json_body_value(json_body(text)) == text,
        forall|i: int| 0 <= i < json_body(text).len() ==> ' ' <= #[trigger] json_body(text)[i],
    decreases text.len(),
{
    if text.len() > 0 {
        let c = text[0];
        let rest = json_body(text.skip(1));
        let body = json_body(text);
        lemma_json_first(c, rest);
        lemma_json_body_value(text.skip(1));
        assert(body.skip(json_char(c).len() as int) =~= rest);
        if rest.len() == 0 {
            assert(text.skip(1) =~= json_body_value(rest));
            assert(json_body_value(rest) =~= rest);
        }
        assert(text =~= seq![c] + text.skip(1));
        assert forall|i: int| 0 <= i < body.len() implies ' ' <= #[trigger] body[i] by {
            if i < json_char(c).len() {
                assert(body[i] == json_char(c)[i]);
            } else {
                assert(body[i] == rest[i - json_char(c).len()]);
            }
        }
    }
}

/// A script that receives a text as a JSON literal reads exactly that text, and
/// the literal stays on one line: it holds no control character.
pub proof fn law_json_literal_reads_back(text: Seq<char>)
    ensures
        json_string_value(json_string(text)) == text,
        forall|i: int| 0 <= i < json_string(text).len() ==> ' ' <= #[trigger] json_string(text)[i],
{
    lemma_json_body_value(text);
    let literal = json_string(text);
    assert(literal.subrange(1, literal.len() - 1) =~= json_body(text));
    assert forall|i: int| 0 <= i < literal.len() implies ' ' <= #[trigger] literal[i] by {
        if 0 < i < literal.len() - 1 {
            assert(literal[i] == json_body(text)[i - 1]);
        }
    }
}

/// Every member of an object stands in it: its name, a colon and its value, both as JSON
/// strings.
pub proof fn law_object_holds_its_members(members: Seq<(Seq<char>, Seq<char>)>, i: int)
    requires
        0 <= i < members.len(),
    ensures
        occurs_in(
            json_object(members),
            json_string(members[i].0) + seq![':'] + json_string(members[i].1),
        ),
{
    lemma_members_hold(members, i);
    lemma_occurs_in_larger(
        seq!['{'],
        json_members(members),
        seq!['}'],
        json_string(members[i].0) + seq![':'] + json_string(members[i].1),
    );
}

proof fn lemma_members_hold(members: Seq<(Seq<char>, Seq<char>)>, i: int)
    requires
        0 <= i < members.len(),
    ensures
        occurs_in(
            json_members(members),
            json_string(members[i].0) + seq![':'] + json_string(members[i].1),
        ),
    decreases members.len(),
{
    let first = json_string(members[0].0) + seq![':'] + json_string(members[0].1);
    let member = json_string(members[i].0) + seq![':'] + json_string(members[i].1);
    let none = Seq::<char>::empty();
    if members.len() == 1 {
        lemma_middle_occurs(none, first, none);
        assert(none + first + none =~= json_members(members));
    } else {
        let rest = json_members(members.skip(1));
        if i == 0 {
            lemma_middle_occurs(none, first, seq![','] + rest);
            assert(none + first + (seq![','] + rest) =~= json_members(members));
        } else {
            lemma_members_hold(members.skip(1), i - 1);
            assert(members.skip(1)[i - 1] == members[i]);
            lemma_occurs_in_larger(first + seq![','], rest, none, member);
            assert(first + seq![','] + rest + none =~= json_members(members));
        }
    }
}

} // verus!
