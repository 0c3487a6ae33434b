//! Text helpers: comparison, decimal numbers and substring replacement.
use vstd::prelude::*;

verus! {

/// `String::push` appends one character, as its documentation says.
pub assume_specification[ String::push ](s: &mut String, c: char)
    ensures
        final(s)@ == old(s)@.push(c),
;

/// The lower-case form of an ASCII letter; every other character is itself.
pub open spec fn ascii_lower(c: char) -> char {
    if 'A' <= c <= 'Z' {
        (c as u32 + 32) as char
    } else {
        c
    }
}

/// `str::to_ascii_lowercase` maps `A` to `Z` to `a` to `z` and keeps every
/// other character, as its documentation says.
pub assume_specification[ str::to_ascii_lowercase ](s: &str) -> (lower: String)
    ensures
        lower@ == s@.map_values(|c: char| ascii_lower(c)),
;

/// Whether two texts hold the same characters.
pub fn same_text(a: &str, b: &str) -> (same: bool)
    ensures
        same == (a@ == b@),
{
    a.to_owned() == b.to_owned()
}

/// The characters of a text, in order.
pub fn chars_of(s: &str) -> (chars: Vec<char>)
    ensures
        chars@ == s@,
{
    let mut chars: Vec<char> = Vec::new();
    for c in it: s.chars()
        invariant
            it.seq() == s@,
            chars@ == s@.take(it.index() as int),
    {
        chars.push(c);
    }
    proof {
        assert(s@.take(s@.len() as int) =~= s@);
    }
    chars
}

/// The decimal digit for a value below ten.
pub open spec fn digit_char(value: nat) -> char {
    ('0' as u32 + value) as char
}

pub open spec fn is_digit(c: char) -> bool {
    '0' <= c <= '9'
}

/// A number in decimal, without sign or leading zeros.
pub open spec fn decimal(n: nat) -> Seq<char>
    decreases n,
{
    if n < 10 {
        seq![digit_char(n)]
    } else {
        decimal(n / 10).push(digit_char(n % 10))
    }
}

/// The number that a row of decimal digits stands for.
pub open spec fn digits_value(digits: Seq<char>) -> nat
    decreases digits.len(),
{
    if digits.len() == 0 {
        0
    } else {
        digits_value(digits.drop_last()) * 10 + (digits.last() as u32 - '0' as u32) as nat
    }
}

/// The digits of a number text: what follows an optional plus sign.
pub open spec fn unsigned_digits(text: Seq<char>) -> Seq<char> {
    if text.len() > 0 && text[0] == '+' {
        text.skip(1)
    } else {
        text
    }
}

/// The 16-bit number that a text spells: an optional plus sign followed by
/// one or more decimal digits whose value fits.
pub open spec fn parsed_u16(text: Seq<char>) -> Option<u16> {
    let digits = unsigned_digits(text);
    if digits.len() > 0 && (forall|i: int| 0 <= i < digits.len() ==> is_digit(#[trigger] digits[i]))
        && digits_value(digits) <= u16::MAX {
        Some(digits_value(digits) as u16)
    } else {
        None
    }
}

/// Writes a number in decimal.
pub fn decimal_text(n: u16) -> (text: String)
    ensures
        text@ == decimal(n as nat),
    decreases n,
{
    let last: u8 = 48 + (n % 10) as u8;
    if n < 10 {
        let mut text = String::new();
        text.push(last as char);
        proof {
            assert(text@ =~= decimal(n as nat));
        }
        text
    } else {
        let mut text = decimal_text(n / 10);
        text.push(last as char);
        text
    }
}

/// A longer row of digits is worth at least as much as its beginning.
proof fn lemma_digits_value_grows(digits: Seq<char>, n: int)
    requires
        0 <= n <= digits.len(),
        forall|i: int| 0 <= i < digits.len() ==> is_digit(#[trigger] digits[i]),
    ensures
        digits_value(digits.take(n)) <= digits_value(digits),
    decreases digits.len(),
{
    if n == digits.len() {
        assert(digits.take(n) =~= digits);
    } else {
        let shorter = digits.drop_last();
        lemma_digits_value_grows(shorter, n);
        assert(shorter.take(n) =~= digits.take(n));
    }
}

/// Reads a 16-bit number in decimal; see `parsed_u16`.
pub fn parse_u16(text: &str) -> (number: Option<u16>)
    ensures
        number == parsed_u16(text@),
{
    let chars = chars_of(text);
    let start: usize = if chars.len() > 0 && chars[0] == '+' {
        1
    } else {
        0
    };
    let ghost digits = unsigned_digits(text@);
    assert(digits =~= text@.skip(start as int));
    if start == chars.len() {
        return None;
    }
    let mut value: u32 = 0;
    let mut i: usize = start;
    while i < chars.len()
        invariant
            start <= i <= chars.len(),
            start <= 1,
            chars@ == text@,
            digits == unsigned_digits(text@),
            digits == text@.skip(start as int),
            digits.len() > 0,
            forall|k: int| 0 <= k < i - start ==> is_digit(#[trigger] digits[k]),
            value == digits_value(digits.take(i - start)),
            value <= u16::MAX,
        decreases chars.len() - i,
    {
        let c = chars[i];
        assert(c == digits[i - start]);
        if c < '0' || '9' < c {
            return None;
        }
        let ghost next = digits.take(i - start + 1);
        assert(next.drop_last() =~= digits.take(i - start));
        assert(next.last() == c);
        value = value * 10 + (c as u32 - '0' as u32);
        assert(value == digits_value(next));
        if value > u16::MAX as u32 {
            proof {
                if forall|k: int| 0 <= k < digits.len() ==> is_digit(#[trigger] digits[k]) {
                    lemma_digits_value_grows(digits, i - start + 1);
                }
            }
            return None;
        }
        i += 1;
    }
    proof {
        assert(digits.take(digits.len() as int) =~= digits);
    }
    Some(value as u16)
}

/// Every number is written with digits only, at least one.
proof fn lemma_decimal_digits(n: nat)
    ensures
        decimal(n).len() > 0,
        forall|i: int| 0 <= i < decimal(n).len() ==> is_digit(#[trigger] decimal(n)[i]),
        digits_value(decimal(n)) == n,
    decreases n,
{
    if n < 10 {
        assert(decimal(n).drop_last() =~= Seq::<char>::empty());
        assert(digits_value(decimal(n).drop_last()) == 0);
    } else {
        lemma_decimal_digits(n / 10);
        assert(decimal(n).drop_last() =~= decimal(n / 10));
    }
}

/// A 16-bit number has at most five digits.
pub proof fn lemma_decimal_len(n: u16)
    ensures
        1 <= decimal(n as nat).len() <= 5,
{
    reveal_with_fuel(decimal, 5);
}

/// Reading back a number that was written in decimal gives that number.
pub proof fn law_decimal_round_trip(n: u16)
    ensures
        parsed_u16(decimal(n as nat)) == Some(n),
{
    lemma_decimal_digits(n as nat);
    assert(is_digit(decimal(n as nat)[0]));
}

/// `text` with every occurrence of `pattern`, found from the left and without
/// overlap, replaced by `value`. Inserted text is not searched again.
pub open spec fn replaced(text: Seq<char>, pattern: Seq<char>, value: Seq<char>) -> Seq<char>
    decreases text.len(),
{
    if pattern.len() == 0 || text.len() < pattern.len() {
        text
    } else if text.take(pattern.len() as int) == pattern {
        value + replaced(text.skip(pattern.len() as int), pattern, value)
    } else {
        seq![text[0]] + replaced(text.skip(1), pattern, value)
    }
}

/// Whether `pattern` occurs in `text` at position `at`.
pub open spec fn occurs_at(text: Seq<char>, pattern: Seq<char>, at: int) -> bool {
    &&& 0 <= at
    &&& at + pattern.len() <= text.len()
    &&& text.subrange(at, at + pattern.len()) == pattern
}

/// Whether `pattern` occurs anywhere in `text`.
pub open spec fn occurs_in(text: Seq<char>, pattern: Seq<char>) -> bool {
    exists|at: int| #[trigger] occurs_at(text, pattern, at)
}

/// Tells whether `pattern` occurs in `text` at position `at`.
pub fn found_at(text: &Vec<char>, pattern: &Vec<char>, at: usize) -> (found: bool)
    requires
        at <= text.len(),
    ensures
        found == occurs_at(text@, pattern@, at as int),
{
    if text.len() - at < pattern.len() {
        return false;
    }
    let mut k: usize = 0;
    while k < pattern.len()
        invariant
            k <= pattern.len(),
            at + pattern.len() <= text.len(),
            forall|j: int| 0 <= j < k ==> #[trigger] text@[at + j] == pattern@[j],
        decreases pattern.len() - k,
    {
        if text[at + k] != pattern[k] {
            proof {
                assert(text@.subrange(at as int, at + pattern@.len())[k as int] != pattern@[k as int]);
            }
            return false;
        }
        k += 1;
    }
    proof {
        let part = text@.subrange(at as int, at + pattern@.len());
        assert forall|j: int| 0 <= j < pattern@.len() implies part[j] == pattern@[j] by {
            assert(text@[at + j] == pattern@[j]);
        }
        assert(part =~= pattern@);
    }
    true
}

/// Replaces every occurrence of a pattern; see `replaced`.
pub fn replace(text: &str, pattern: &str, value: &str) -> (result: String)
    requires
        pattern@.len() > 0,
    ensures
        result@ == replaced(text@, pattern@, value@),
{
    let chars = chars_of(text);
    let wanted = chars_of(pattern);
    let mut result = String::new();
    let mut i: usize = 0;
    proof {
        assert(text@.skip(0) =~= text@);
        assert(result@ + replaced(text@, pattern@, value@) =~= replaced(text@, pattern@, value@));
    }
    while i < chars.len()
        invariant
            i <= chars.len(),
            chars@ == text@,
            wanted@ == pattern@,
            pattern@.len() > 0,
            result@ + replaced(text@.skip(i as int), pattern@, value@) == replaced(
                text@,
                pattern@,
                value@,
            ),
        decreases chars.len() - i,
    {
        let ghost rest = text@.skip(i as int);
        let ghost before = result@;
        let found = found_at(&chars, &wanted, i);
        if found {
            result.append(value);
            proof {
                assert(rest.take(pattern@.len() as int) =~= text@.subrange(
                    i as int,
                    i + pattern@.len(),
                ));
                assert(rest.skip(pattern@.len() as int) =~= text@.skip(i + pattern@.len()));
                assert(result@ + replaced(text@.skip(i + pattern@.len()), pattern@, value@)
                    =~= before + replaced(rest, pattern@, value@));
            }
            i += wanted.len();
        } else {
            result.push(chars[i]);
            proof {
                assert(rest.skip(1) =~= text@.skip(i + 1));
                if rest.len() >= pattern@.len() {
                    assert(rest.take(pattern@.len() as int) =~= text@.subrange(
                        i as int,
                        i + pattern@.len(),
                    ));
                } else {
                    assert(replaced(rest.skip(1), pattern@, value@) =~= rest.skip(1));
                    assert(rest =~= seq![rest[0]] + rest.skip(1));
                }
                assert(result@ + replaced(text@.skip(i + 1), pattern@, value@) =~= before
                    + replaced(rest, pattern@, value@));
            }
            i += 1;
        }
    }
    proof {
        assert(text@.skip(i as int) =~= Seq::<char>::empty());
        assert(result@ =~= replaced(text@, pattern@, value@));
    }
    result
}

/// Texts one after another.
pub open spec fn joined(parts: Seq<Seq<char>>) -> Seq<char>
    decreases parts.len(),
{
    if parts.len() == 0 {
        seq![]
    } else {
        joined(parts.drop_last()) + parts.last()
    }
}

/// The texts that some string slices hold.
pub open spec fn slices_view(parts: Seq<&str>) -> Seq<Seq<char>> {
    parts.map_values(|part: &str| part@)
}

/// Writes texts one after another.
pub fn join(parts: &Vec<&str>) -> (text: String)
    ensures
        text@ == joined(slices_view(parts@)),
{
    let ghost all = slices_view(parts@);
    let mut text = String::new();
    let mut i: usize = 0;
    assert(all.take(0) =~= Seq::<Seq<char>>::empty());
    while i < parts.len()
        invariant
            i <= parts.len(),
            all == slices_view(parts@),
            text@ == joined(all.take(i as int)),
        decreases parts.len() - i,
    {
        text.append(parts[i]);
        proof {
            let next = all.take(i + 1);
            assert(next.drop_last() =~= all.take(i as int));
            assert(next.last() == parts@[i as int]@);
        }
        i += 1;
    }
    assert(all.take(parts@.len() as int) =~= all);
    text
}

/// What stands in the middle of a text occurs in it.
pub proof fn lemma_middle_occurs(front: Seq<char>, middle: Seq<char>, back: Seq<char>)
    ensures
        occurs_in(front + middle + back, middle),
{
    let text = front + middle + back;
    assert(text.subrange(front.len() as int, (front.len() + middle.len()) as int) =~= middle);
    assert(occurs_at(text, middle, front.len() as int));
}

/// What occurs in a part of a text occurs in the text.
pub proof fn lemma_occurs_in_larger(
    front: Seq<char>,
    middle: Seq<char>,
    back: Seq<char>,
    pattern: Seq<char>,
)
    requires
        occurs_in(middle, pattern),
    ensures
        occurs_in(front + middle + back, pattern),
{
    let at = choose|at: int| #[trigger] occurs_at(middle, pattern, at);
    let text = front + middle + back;
    assert(text.subrange(front.len() + at, front.len() + at + pattern.len()) =~= middle.subrange(
        at,
        at + pattern.len(),
    ));
    assert(occurs_at(text, pattern, front.len() + at));
}

/// What occurs in something that occurs in a text occurs in the text.
pub proof fn lemma_occurs_through(text: Seq<char>, middle: Seq<char>, pattern: Seq<char>)
    requires
        occurs_in(text, middle),
        occurs_in(middle, pattern),
    ensures
        occurs_in(text, pattern),
{
    let at = choose|at: int| #[trigger] occurs_at(text, middle, at);
    let front = text.take(at);
    let back = text.skip(at + middle.len());
    lemma_occurs_in_larger(front, middle, back, pattern);
    assert(text =~= front + middle + back);
}

proof fn lemma_joined_split(parts: Seq<Seq<char>>, n: int)
    requires
        0 <= n <= parts.len(),
    ensures
        joined(parts) == joined(parts.take(n)) + joined(parts.skip(n)),
    decreases parts.len(),
{
    if n == parts.len() {
        assert(parts.take(n) =~= parts);
        assert(parts.skip(n) =~= Seq::<Seq<char>>::empty());
        assert(joined(parts) =~= joined(parts.take(n)) + joined(parts.skip(n)));
    } else {
        lemma_joined_split(parts.drop_last(), n);
        assert(parts.drop_last().take(n) =~= parts.take(n));
        assert(parts.drop_last().skip(n) =~= parts.skip(n).drop_last());
        assert(parts.skip(n).last() == parts.last());
        assert(joined(parts) =~= joined(parts.take(n)) + joined(parts.skip(n)));
    }
}

/// One of several texts occurs where they stand one after another.
pub proof fn lemma_part_occurs(parts: Seq<Seq<char>>, i: int, a: Seq<char>)
    requires
        0 <= i < parts.len(),
        parts[i] == a,
    ensures
        occurs_in(joined(parts), a),
{
    lemma_joined_split(parts, i);
    let rest = parts.skip(i);
    lemma_joined_split(rest, 1);
    assert(rest.take(1).drop_last() =~= Seq::<Seq<char>>::empty());
    assert(joined(rest.take(1).drop_last()) =~= Seq::<char>::empty());
    assert(joined(rest.take(1)) =~= a);
    lemma_middle_occurs(joined(parts.take(i)), a, joined(rest.skip(1)));
    assert(joined(parts) =~= joined(parts.take(i)) + a + joined(rest.skip(1)));
}

/// What occurs in one of several texts occurs where they stand one after another.
pub proof fn lemma_occurs_within_part(parts: Seq<Seq<char>>, i: int, pattern: Seq<char>)
    requires
        0 <= i < parts.len(),
        occurs_in(parts[i], pattern),
    ensures
        occurs_in(joined(parts), pattern),
{
    lemma_joined_split(parts, i);
    let rest = parts.skip(i);
    lemma_joined_split(rest, 1);
    assert(rest.take(1).drop_last() =~= Seq::<Seq<char>>::empty());
    assert(joined(rest.take(1).drop_last()) =~= Seq::<char>::empty());
    assert(joined(rest.take(1)) =~= parts[i]);
    lemma_occurs_in_larger(joined(parts.take(i)), parts[i], joined(rest.skip(1)), pattern);
    assert(joined(parts) =~= joined(parts.take(i)) + parts[i] + joined(rest.skip(1)));
}

/// Three neighbours among several texts occur next to each other where all of
/// them stand one after another.
pub proof fn lemma_neighbours_occur(
    parts: Seq<Seq<char>>,
    i: int,
    a: Seq<char>,
    b: Seq<char>,
    c: Seq<char>,
)
    requires
        0 <= i,
        i + 2 < parts.len(),
        parts[i] == a,
        parts[i + 1] == b,
        parts[i + 2] == c,
    ensures
        occurs_in(joined(parts), a + b + c),
{
    lemma_joined_split(parts, i);
    let rest = parts.skip(i);
    lemma_joined_split(rest, 3);
    let three = rest.take(3);
    let two = three.drop_last();
    let one = two.drop_last();
    assert(one.drop_last() =~= Seq::<Seq<char>>::empty());
    assert(joined(one.drop_last()) =~= Seq::<char>::empty());
    assert(joined(one) =~= a);
    assert(joined(two) =~= a + b);
    assert(joined(three) =~= a + b + c);
    lemma_middle_occurs(joined(parts.take(i)), a + b + c, joined(rest.skip(3)));
    assert(joined(parts) =~= joined(parts.take(i)) + (a + b + c) + joined(rest.skip(3)));
}

/// Whether `a` occurs in `text` and `b` occurs behind it.
pub open spec fn stands_before(text: Seq<char>, a: Seq<char>, b: Seq<char>) -> bool {
    exists|i: int, j: int| #[trigger]
        occurs_at(text, a, i) && #[trigger] occurs_at(text, b, j) && i + a.len() <= j
}

/// Texts that stand one after another stand in that order.
pub proof fn lemma_parts_stand_in_order(
    parts: Seq<Seq<char>>,
    i: int,
    j: int,
    a: Seq<char>,
    b: Seq<char>,
)
    requires
        0 <= i < j < parts.len(),
        parts[i] == a,
        parts[j] == b,
    ensures
        stands_before(joined(parts), a, b),
{
    let text = joined(parts);
    lemma_joined_split(parts, j);
    let front = joined(parts.take(j));
    assert(parts.take(j)[i] == a);
    lemma_part_occurs(parts.take(j), i, a);
    let at = choose|at: int| #[trigger] occurs_at(front, a, at);
    assert(text.subrange(at, at + a.len()) =~= front.subrange(at, at + a.len()));
    assert(occurs_at(text, a, at));
    let rest = parts.skip(j);
    lemma_joined_split(rest, 1);
    assert(rest.take(1).drop_last() =~= Seq::<Seq<char>>::empty());
    assert(joined(rest.take(1).drop_last()) =~= Seq::<char>::empty());
    assert(joined(rest.take(1)) =~= b);
    assert(text.subrange(front.len() as int, (front.len() + b.len()) as int) =~= b);
    assert(occurs_at(text, b, front.len() as int));
}

/// Where a pattern occurs in a text, and nowhere before, replacing puts the value
/// there, keeps what stands before, and goes on behind. A text without the
/// pattern stays as it is.
pub proof fn law_replacing_goes_from_left_to_right(
    text: Seq<char>,
    pattern: Seq<char>,
    value: Seq<char>,
    at: int,
)
    requires
        pattern.len() > 0,
    ensures
        !occurs_in(text, pattern) ==> replaced(text, pattern, value) == text,
        occurs_at(text, pattern, at) && (forall|k: int|
            0 <= k < at ==> !#[trigger] occurs_at(text, pattern, k)) ==> replaced(
            text,
            pattern,
            value,
        ) == text.take(at) + value + replaced(text.skip(at + pattern.len()), pattern, value),
    decreases text.len(),
{
    let n = pattern.len() as int;
    if text.len() < n {
    } else {
        assert(text.subrange(0, n) =~= text.take(n));
        if text.take(n) == pattern {
            assert(occurs_at(text, pattern, 0));
            if occurs_at(text, pattern, at) && (forall|k: int|
                0 <= k < at ==> !#[trigger] occurs_at(text, pattern, k)) {
                assert(at == 0);
                assert(text.take(0) + value =~= value);
            }
        } else {
            assert(!occurs_at(text, pattern, 0));
            let rest = text.skip(1);
            law_replacing_goes_from_left_to_right(rest, pattern, value, at - 1);
            assert forall|k: int| #[trigger] occurs_at(rest, pattern, k) implies occurs_at(
                text,
                pattern,
                k + 1,
            ) by {
                assert(rest.subrange(k, k + n) =~= text.subrange(k + 1, k + 1 + n));
            }
            if !occurs_in(text, pattern) {
                assert(!occurs_in(rest, pattern));
                assert(seq![text[0]] + rest =~= text);
            }
            if occurs_at(text, pattern, at) && (forall|k: int|
                0 <= k < at ==> !#[trigger] occurs_at(text, pattern, k)) {
                assert(rest.subrange(at - 1, at - 1 + n) =~= text.subrange(at, at + n));
                assert(occurs_at(rest, pattern, at - 1));
                assert(rest.skip(at - 1 + n) =~= text.skip(at + n));
                assert(seq![text[0]] + (rest.take(at - 1) + value + replaced(
                    rest.skip(at - 1 + n),
                    pattern,
                    value,
                )) =~= text.take(at) + value + replaced(text.skip(at + n), pattern, value));
            }
        }
    }
}

/// Decimal is positional: a further digit stands behind the digits of the rest.
pub proof fn law_decimal_is_positional(n: nat, digit: nat)
    requires
        digit < 10,
    ensures
        decimal(digit) == seq![('0' as u32 + digit) as char],
        n > 0 ==> decimal(n * 10 + digit) == decimal(n).push(('0' as u32 + digit) as char),
{
    if n > 0 {
        assert((n * 10 + digit) / 10 == n && (n * 10 + digit) % 10 == digit);
    }
}

/// A plus sign and leading zeros make no difference to a number, a further digit
/// is worth ten times what stands before it, and anything but digits is refused.
pub proof fn law_numbers_are_read_digit_by_digit(text: Seq<char>, c: char)
    requires
        text.len() > 0,
    ensures
        text[0] != '+' ==> parsed_u16(seq!['+'] + text) == parsed_u16(text),
        text[0] != '+' ==> parsed_u16(seq!['0'] + text) == parsed_u16(text),
        !is_digit(c) ==> parsed_u16(text.push(c)) is None,
        is_digit(c) && parsed_u16(text) is Some ==> {
            let value = parsed_u16(text)->0 * 10 + (c as u32 - '0' as u32);
            if value <= 0xffff {
                parsed_u16(text.push(c)) == Some(value as u16)
            } else {
                parsed_u16(text.push(c)) is None
            }
        },
        parsed_u16(text) is None && text != seq!['+'] ==> parsed_u16(text.push(c)) is None,
{
    let digits = unsigned_digits(text);
    let pushed = text.push(c);
    if text.len() > 1 || text[0] != '+' {
        assert(unsigned_digits(pushed) =~= digits.push(c));
        let longer = digits.push(c);
        assert(longer.drop_last() =~= digits);
        assert(longer.last() == c);
        assert forall|i: int| 0 <= i < digits.len() implies digits[i] == #[trigger] longer[i] by {}
        assert(longer[digits.len() as int] == c);
        if parsed_u16(pushed) is Some {
            assert forall|i: int| 0 <= i < digits.len() implies is_digit(#[trigger] digits[i]) by {
                assert(is_digit(longer[i]));
            }
            assert(is_digit(c));
        }
        if is_digit(c) && parsed_u16(text) is Some {
            assert forall|i: int| 0 <= i < longer.len() implies is_digit(#[trigger] longer[i]) by {
                if i < digits.len() {
                    assert(is_digit(digits[i]));
                }
            }
        }
    } else {
        assert(text =~= seq!['+']);
        assert(unsigned_digits(pushed) =~= seq![c]);
        assert(unsigned_digits(pushed)[0] == c);
    }
    if text[0] != '+' {
        assert((seq!['+'] + text).skip(1) =~= text);
        let padded = seq!['0'] + text;
        lemma_leading_zero(text);
        assert forall|i: int| 0 <= i < text.len() implies #[trigger] text[i] == padded[i + 1] by {}
        if parsed_u16(text) is Some {
            assert forall|i: int| 0 <= i < padded.len() implies is_digit(#[trigger] padded[i]) by {
                if i > 0 {
                    assert(is_digit(text[i - 1]));
                }
            }
        }
        if parsed_u16(padded) is Some {
            assert forall|i: int| 0 <= i < text.len() implies is_digit(#[trigger] text[i]) by {
                assert(is_digit(padded[i + 1]));
            }
        }
    }
}

proof fn lemma_leading_zero(digits: Seq<char>)
    ensures
        digits_value(seq!['0'] + digits) == digits_value(digits),
    decreases digits.len(),
{
    let padded = seq!['0'] + digits;
    if digits.len() == 0 {
        assert(padded.drop_last() =~= Seq::<char>::empty());
        assert(digits_value(padded.drop_last()) == 0);
    } else {
        lemma_leading_zero(digits.drop_last());
        assert(padded.drop_last() =~= seq!['0'] + digits.drop_last());
    }
}

} // verus!
