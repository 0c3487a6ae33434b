//! Base64, in which files and embedded assets travel between the launcher and
//! its pages.
use base64::prelude::BASE64_STANDARD;
use base64::Engine;
use vstd::prelude::*;

verus! {

/// The character of the standard Base64 alphabet for a value below 64.
pub open spec fn sextet_char(value: int) -> char {
    if value < 26 {
        ('A' as u32 + value) as char
    } else if value < 52 {
        ('a' as u32 + value - 26) as char
    } else if value < 62 {
        ('0' as u32 + value - 52) as char
    } else if value == 62 {
        '+'
    } else {
        '/'
    }
}

/// The Base64 form of some bytes, padded with `=` to groups of four characters.
pub open spec fn base64_text(bytes: Seq<u8>) -> Seq<char>
    decreases bytes.len(),
{
    if bytes.len() == 0 {
        seq![]
    } else if bytes.len() == 1 {
        seq![sextet_char(bytes[0] as int / 4), sextet_char(bytes[0] as int % 4 * 16), '=', '=']
    } else if bytes.len() == 2 {
        seq![
            sextet_char(bytes[0] as int / 4),
            sextet_char(bytes[0] as int % 4 * 16 + bytes[1] as int / 16),
            sextet_char(bytes[1] as int % 16 * 4),
            '=',
        ]
    } else {
        seq![
            sextet_char(bytes[0] as int / 4),
            sextet_char(bytes[0] as int % 4 * 16 + bytes[1] as int / 16),
            sextet_char(bytes[1] as int % 16 * 4 + bytes[2] as int / 64),
            sextet_char(bytes[2] as int % 64),
        ] + base64_text(bytes.skip(3))
    }
}

/// The number of characters in the Base64 form of `len` bytes.
pub open spec fn base64_len(len: nat) -> nat {
    (len + 2) / 3 * 4
}

/// A letter, digit or sign that Base64 uses.
pub open spec fn is_base64_char(c: char) -> bool {
    'A' <= c <= 'Z' || 'a' <= c <= 'z' || '0' <= c <= '9' || c == '+' || c == '/' || c == '='
}

/// `base64::DecodeError`: why a text is not Base64.
#[verifier::external_type_specification]
#[verifier::external_body]
pub struct ExDecodeError(base64::DecodeError);

/// `encode` of `base64`'s standard engine writes the padded form with the
/// standard alphabet. It panics when that form is longer than a `String` can
/// be, so such inputs are left out.
#[verifier::external_body]
pub(crate) fn base64_encode(bytes: &[u8]) -> (text: String)
    requires
        base64_len(bytes@.len()) <= isize::MAX,
    ensures
        text@ == base64_text(bytes@),
{
    BASE64_STANDARD.encode(bytes)
}

/// `decode` of `base64`'s standard engine is strict: it takes canonical padding
/// and zero trailing bits only. So it accepts a text exactly when some bytes
/// have that text as their padded form, and then returns those bytes.
#[verifier::external_body]
fn base64_decode(text: &str) -> (bytes: Result<Vec<u8>, base64::DecodeError>)
    ensures
        match bytes {
            Ok(bytes) => base64_text(bytes@) == text@,
            Err(_) => forall|other: Seq<u8>| #[trigger] base64_text(other) != text@,
        },
{
    BASE64_STANDARD.decode(text)
}

/// Why the contents of a file cannot be saved.
#[derive(Debug, Clone, Copy, PartialEq, Eq)]
pub enum SaveError {
    /// The contents that the page handed over are not Base64.
    NotBase64,
}

/// The bytes of a file that a page handed over as Base64: whatever bytes were
/// encoded come back, and a text that encodes nothing is refused.
pub fn decode_saved_file(data: &str) -> (contents: Result<Vec<u8>, SaveError>)
    ensures
        contents is Ok <==> exists|bytes: Seq<u8>| #[trigger] base64_text(bytes) == data@,
        forall|bytes: Seq<u8>| #[trigger]
            base64_text(bytes) == data@ ==> contents is Ok && contents->Ok_0@ == bytes,
        contents matches Err(e) ==> e == SaveError::NotBase64,
{
    match base64_decode(data) {
        Ok(bytes) => {
            proof {
                assert forall|other: Seq<u8>| #[trigger] base64_text(other) == data@ implies bytes@
                    == other by {
                    law_base64_is_injective(bytes@, other);
                }
                assert(base64_text(bytes@) == data@);
            }
            Ok(bytes)
        },
        Err(_) => Err(SaveError::NotBase64),
    }
}

/// Encoded bytes are a whole number of groups and hold Base64 characters only.
pub proof fn law_base64_alphabet(bytes: Seq<u8>)
    ensures
        base64_text(bytes).len() == base64_len(bytes.len()),
        forall|i: int|
            0 <= i < base64_text(bytes).len() ==> is_base64_char(#[trigger] base64_text(bytes)[i]),
    decreases bytes.len(),
{
    if bytes.len() >= 3 {
        law_base64_alphabet(bytes.skip(3));
        let rest = base64_text(bytes.skip(3));
        let text = base64_text(bytes);
        assert forall|i: int| 0 <= i < text.len() implies is_base64_char(#[trigger] text[i]) by {
            if i >= 4 {
                assert(text[i] == rest[i - 4]);
            }
        }
    }
}

proof fn lemma_sextet_char(a: int, b: int)
    requires
        0 <= a < 64,
        0 <= b < 64,
    ensures
        sextet_char(a) != '=',
        sextet_char(a) == sextet_char(b) ==> a == b,
{
}

/// Different bytes have different Base64 forms.
pub proof fn law_base64_is_injective(a: Seq<u8>, b: Seq<u8>)
    requires
        base64_text(a) == base64_text(b),
    ensures
        a == b,
    decreases a.len(),
{
    let text = base64_text(a);
    law_base64_alphabet(a);
    law_base64_alphabet(b);
    if a.len() == 0 || b.len() == 0 {
        assert(a =~= b);
    } else {
        assert(sextet_char(a[0] as int / 4) == text[0] && sextet_char(b[0] as int / 4) == text[0]);
        lemma_sextet_char(a[0] as int / 4, b[0] as int / 4);
        let a1: int = if a.len() > 1 { a[1] as int / 16 } else { 0 };
        let b1: int = if b.len() > 1 { b[1] as int / 16 } else { 0 };
        assert(sextet_char(a[0] as int % 4 * 16 + a1) == text[1]);
        assert(sextet_char(b[0] as int % 4 * 16 + b1) == text[1]);
        lemma_sextet_char(a[0] as int % 4 * 16 + a1, b[0] as int % 4 * 16 + b1);
        assert(a[0] == b[0]);
        if a.len() > 1 {
            let a2: int = if a.len() > 2 { a[2] as int / 64 } else { 0 };
            assert(sextet_char(a[1] as int % 16 * 4 + a2) == text[2]);
            lemma_sextet_char(a[1] as int % 16 * 4 + a2, 0);
        }
        if b.len() > 1 {
            let b2: int = if b.len() > 2 { b[2] as int / 64 } else { 0 };
            assert(sextet_char(b[1] as int % 16 * 4 + b2) == text[2]);
            lemma_sextet_char(b[1] as int % 16 * 4 + b2, 0);
        }
        assert(a.len() > 1 <==> b.len() > 1);
        if a.len() > 1 {
            let a2: int = if a.len() > 2 { a[2] as int / 64 } else { 0 };
            let b2: int = if b.len() > 2 { b[2] as int / 64 } else { 0 };
            lemma_sextet_char(a[1] as int % 16 * 4 + a2, b[1] as int % 16 * 4 + b2);
            assert(a[1] == b[1]);
            if a.len() > 2 {
                lemma_sextet_char(a[2] as int % 64, 0);
                assert(text[3] == sextet_char(a[2] as int % 64));
            }
            if b.len() > 2 {
                lemma_sextet_char(b[2] as int % 64, 0);
                assert(text[3] == sextet_char(b[2] as int % 64));
            }
            assert(a.len() > 2 <==> b.len() > 2);
            if a.len() > 2 {
                lemma_sextet_char(a[2] as int % 64, b[2] as int % 64);
                assert(a[2] == b[2]);
                assert(text.skip(4) =~= base64_text(a.skip(3)));
                assert(text.skip(4) =~= base64_text(b.skip(3)));
                law_base64_is_injective(a.skip(3), b.skip(3));
                assert(a =~= a.take(3) + a.skip(3));
                assert(b =~= b.take(3) + b.skip(3));
                assert(a.take(3) =~= b.take(3));
            }
        }
        assert(a =~= b);
    }
}

/// Saving undoes encoding: whatever bytes a page encoded are what is saved, all of them,
/// and a text that no bytes encode to is refused. So two texts that save the same bytes
/// are the same.
pub proof fn law_saving_undoes_encoding(
    bytes: Seq<u8>,
    data: &str,
    contents: Result<Vec<u8>, SaveError>,
    other_data: &str,
    other_contents: Result<Vec<u8>, SaveError>,
)
    requires
        call_ensures(decode_saved_file, (data,), contents),
        call_ensures(decode_saved_file, (other_data,), other_contents),
    ensures
        data@ == base64_text(bytes) ==> contents is Ok && contents->Ok_0@ == bytes,
        contents is Ok ==> base64_text(contents->Ok_0@) == data@,
        contents is Err ==> base64_text(bytes) != data@ && contents->Err_0 == SaveError::NotBase64,
        contents is Ok && other_contents is Ok && contents->Ok_0@ == other_contents->Ok_0@ ==> data@
            == other_data@,
{
    if contents is Ok {
        let encoded = choose|encoded: Seq<u8>| #[trigger] base64_text(encoded) == data@;
        assert(base64_text(encoded) == data@);
    }
    if other_contents is Ok {
        let encoded = choose|encoded: Seq<u8>| #[trigger] base64_text(encoded) == other_data@;
        assert(base64_text(encoded) == other_data@);
    }
}

} // verus!
