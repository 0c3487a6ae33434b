//! Templates: fixed text with named slots, which are filled one after another.
use crate::text::{lemma_middle_occurs, occurs_at, occurs_in, replace, replaced};
use vstd::prelude::*;

verus! {

/// A part of a template.
pub enum Piece {
    /// Fixed text.
    Text(Seq<char>),
    /// The slot with this number.
    Slot(int),
}

/// A part of a template in memory.
#[derive(Debug, Clone, Copy)]
pub enum TemplatePiece {
    Text(&'static str),
    Slot(usize),
}

impl View for TemplatePiece {
    type V = Piece;

    open spec fn view(&self) -> Piece {
        match *self {
            TemplatePiece::Text(text) => Piece::Text(text@),
            TemplatePiece::Slot(slot) => Piece::Slot(slot as int),
        }
    }
}

/// The parts that some parts in memory stand for.
pub open spec fn pieces_view(pieces: Seq<TemplatePiece>) -> Seq<Piece> {
    pieces.map_values(|piece: TemplatePiece| piece@)
}

/// The texts that some strings hold.
pub open spec fn texts_view(texts: Seq<String>) -> Seq<Seq<char>> {
    texts.map_values(|text: String| text@)
}

/// The texts that some string slices hold.
pub open spec fn names_view(names: Seq<&'static str>) -> Seq<Seq<char>> {
    names.map_values(|name: &'static str| name@)
}

/// The text of one part, where slot `k` holds `contents[k]`.
pub open spec fn piece_text(piece: Piece, contents: Seq<Seq<char>>) -> Seq<char> {
    match piece {
        Piece::Text(text) => text,
        Piece::Slot(slot) => contents[slot],
    }
}

/// The parts one after another, where slot `k` holds `contents[k]`. With the
/// names of the slots as contents this is the template itself, with their
/// values it is the filled page.
pub open spec fn rendered(pieces: Seq<Piece>, contents: Seq<Seq<char>>) -> Seq<char>
    decreases pieces.len(),
{
    if pieces.len() == 0 {
        seq![]
    } else {
        piece_text(pieces[0], contents) + rendered(pieces.skip(1), contents)
    }
}

/// Every slot has a number below `slots`.
pub open spec fn slots_below(pieces: Seq<Piece>, slots: nat) -> bool {
    forall|i: int| 0 <= i < pieces.len() ==> match #[trigger] pieces[i] {
        Piece::Text(_) => true,
        Piece::Slot(slot) => 0 <= slot < slots,
    }
}

/// `text` after the first `n` names were replaced by their values, in order.
pub open spec fn filled_in_turn(
    text: Seq<char>,
    names: Seq<Seq<char>>,
    values: Seq<Seq<char>>,
    n: nat,
) -> Seq<char>
    decreases n,
{
    if n == 0 {
        text
    } else {
        replaced(
            filled_in_turn(text, names, values, (n - 1) as nat),
            names[n - 1],
            values[n - 1],
        )
    }
}

/// Writes the parts one after another, with the names in the slots.
pub fn template_text(pieces: &Vec<TemplatePiece>, names: &Vec<&'static str>) -> (text: String)
    requires
        slots_below(pieces_view(pieces@), names@.len()),
    ensures
        text@ == rendered(pieces_view(pieces@), names_view(names@)),
{
    let ghost all = pieces_view(pieces@);
    let ghost contents = names_view(names@);
    let mut text = String::new();
    let mut i: usize = 0;
    proof {
        assert(all.skip(0) =~= all);
        assert(text@ + rendered(all, contents) =~= rendered(all, contents));
    }
    while i < pieces.len()
        invariant
            i <= pieces.len(),
            all == pieces_view(pieces@),
            contents == names_view(names@),
            slots_below(all, names@.len()),
            text@ + rendered(all.skip(i as int), contents) == rendered(all, contents),
        decreases pieces.len() - i,
    {
        let ghost before = text@;
        let ghost rest = all.skip(i as int);
        assert(rest[0] == all[i as int]);
        assert(all[i as int] == pieces@[i as int]@);
        match pieces[i] {
            TemplatePiece::Text(part) => text.append(part),
            TemplatePiece::Slot(slot) => text.append(names[slot]),
        }
        proof {
            assert(rest.skip(1) =~= all.skip(i + 1));
            assert(text@ =~= before + piece_text(rest[0], contents));
            assert(text@ + rendered(all.skip(i + 1), contents) =~= before + rendered(
                rest,
                contents,
            ));
        }
        i += 1;
    }
    proof {
        assert(all.skip(i as int) =~= Seq::<Piece>::empty());
        assert(text@ =~= rendered(all, contents));
    }
    text
}

/// Replaces each name by its value, one name after another.
pub fn fill_in_turn(text: String, names: &Vec<&'static str>, values: &Vec<String>) -> (filled:
    String)
    requires
        names@.len() == values@.len(),
        forall|k: int| 0 <= k < names@.len() ==> (#[trigger] names@[k])@.len() > 0,
    ensures
        filled@ == filled_in_turn(
            text@,
            names_view(names@),
            texts_view(values@),
            names@.len(),
        ),
{
    let ghost start = text@;
    let mut filled = text;
    let mut i: usize = 0;
    while i < names.len()
        invariant
            i <= names.len(),
            names@.len() == values@.len(),
            forall|k: int| 0 <= k < names@.len() ==> (#[trigger] names@[k])@.len() > 0,
            filled@ == filled_in_turn(start, names_view(names@), texts_view(values@), i as nat),
        decreases names.len() - i,
    {
        assert(names_view(names@)[i as int] == names@[i as int]@);
        assert(texts_view(values@)[i as int] == values@[i as int]@);
        filled = replace(filled.as_str(), names[i], values[i].as_str());
        i += 1;
    }
    filled
}

pub open spec fn is_upper(c: char) -> bool {
    'A' <= c <= 'Z'
}

/// Holds no `$`, which begins the name of a slot.
pub open spec fn plain(text: Seq<char>) -> bool {
    forall|i: int| 0 <= i < text.len() ==> #[trigger] text[i] != '$'
}

/// No name of a slot can begin in this text: a `$` is followed by something
/// that is neither a capital letter nor another `$`.
pub open spec fn inert(text: Seq<char>) -> bool {
    forall|i: int|
        0 <= i < text.len() && #[trigger] text[i] == '$' ==> i + 1 < text.len() && !is_upper(
            text[i + 1],
        ) && text[i + 1] != '$'
}

/// A name of a slot: a `$`, a capital letter, and no further `$`.
pub open spec fn is_name(name: Seq<char>) -> bool {
    &&& name.len() >= 2
    &&& name[0] == '$'
    &&& is_upper(name[1])
    &&& plain(name.skip(1))
}

/// Every name is the name of a slot, and no name begins with another.
pub open spec fn are_names(names: Seq<Seq<char>>) -> bool {
    &&& forall|k: int| 0 <= k < names.len() ==> is_name(#[trigger] names[k])
    &&& forall|j: int, k: int|
        0 <= j < names.len() && 0 <= k < names.len() && j != k
            ==> !(#[trigger] names[j]).is_prefix_of(#[trigger] names[k])
}

/// No name of a slot can begin in any of the fixed texts.
pub open spec fn texts_inert(pieces: Seq<Piece>) -> bool {
    forall|i: int| 0 <= i < pieces.len() ==> match #[trigger] pieces[i] {
        Piece::Text(text) => inert(text),
        Piece::Slot(_) => true,
    }
}

/// Text in which no name can begin is passed over.
proof fn lemma_inert_passed_over(a: Seq<char>, b: Seq<char>, name: Seq<char>, value: Seq<char>)
    requires
        inert(a),
        is_name(name),
    ensures
        replaced(a + b, name, value) == a + replaced(b, name, value),
    decreases a.len(),
{
    if a.len() == 0 {
        assert(a + b =~= b);
        assert(a + replaced(b, name, value) =~= replaced(b, name, value));
    } else {
        let text = a + b;
        let rest = a.skip(1);
        assert forall|i: int| 0 <= i < rest.len() && #[trigger] rest[i] == '$' implies i + 1
            < rest.len() && !is_upper(rest[i + 1]) && rest[i + 1] != '$' by {
            assert(a[i + 1] == '$');
        }
        lemma_inert_passed_over(rest, b, name, value);
        assert(text.skip(1) =~= rest + b);
        assert(text[0] == a[0]);
        if text.len() >= name.len() {
            let front = text.take(name.len() as int);
            if front == name {
                assert(front[0] == text[0] && front[1] == text[1]);
                assert(a[0] == '$');
                assert(text[1] == a[1]);
                assert(false);
            }
            assert(replaced(text, name, value) == seq![text[0]] + replaced(
                text.skip(1),
                name,
                value,
            ));
        } else {
            assert(replaced(text.skip(1), name, value) =~= text.skip(1));
            assert(replaced(text, name, value) =~= seq![text[0]] + text.skip(1));
        }
        assert(seq![text[0]] + (rest + replaced(b, name, value)) =~= a + replaced(b, name, value));
    }
}

/// In a text without a `$` no name of a slot can begin.
pub proof fn lemma_plain_is_inert(text: Seq<char>)
    requires
        plain(text),
    ensures
        inert(text),
{
}

/// Where no name of a slot can begin in two texts, none can in both together.
pub proof fn lemma_inert_concat(a: Seq<char>, b: Seq<char>)
    requires
        inert(a),
        inert(b),
    ensures
        inert(a + b),
{
    let text = a + b;
    assert forall|i: int| 0 <= i < text.len() && #[trigger] text[i] == '$' implies i + 1
        < text.len() && !is_upper(text[i + 1]) && text[i + 1] != '$' by {
        if i < a.len() {
            assert(a[i] == '$');
            assert(text[i + 1] == a[i + 1]);
        } else {
            assert(b[i - a.len()] == '$');
            assert(text[i + 1] == b[i + 1 - a.len()]);
        }
    }
}

/// Where no name of a slot can begin in a text, none can behind its first character.
pub proof fn lemma_inert_skip(text: Seq<char>)
    requires
        inert(text),
        text.len() > 0,
    ensures
        inert(text.skip(1)),
{
    let rest = text.skip(1);
    assert forall|i: int| 0 <= i < rest.len() && #[trigger] rest[i] == '$' implies i + 1
        < rest.len() && !is_upper(rest[i + 1]) && rest[i + 1] != '$' by {
        assert(text[i + 1] == '$');
        assert(rest[i + 1] == text[i + 2]);
    }
}

/// A `$` and what follows it: no name of a slot can begin in both together unless what
/// follows begins with a capital letter or a `$`.
pub proof fn lemma_inert_dollar(rest: Seq<char>)
    requires
        inert(rest),
        rest.len() > 0,
        !is_upper(rest[0]),
        rest[0] != '$',
    ensures
        inert(seq!['$'] + rest),
{
    let text = seq!['$'] + rest;
    assert forall|i: int| 0 <= i < text.len() && #[trigger] text[i] == '$' implies i + 1
        < text.len() && !is_upper(text[i + 1]) && text[i + 1] != '$' by {
        assert(text[i + 1] == rest[i]);
        if i > 0 {
            assert(rest[i - 1] == '$');
        }
    }
}

/// Another name is passed over.
proof fn lemma_other_name_passed_over(
    other: Seq<char>,
    b: Seq<char>,
    name: Seq<char>,
    value: Seq<char>,
)
    requires
        is_name(name),
        is_name(other),
        !name.is_prefix_of(other),
        !other.is_prefix_of(name),
    ensures
        replaced(other + b, name, value) == other + replaced(b, name, value),
{
    let text = other + b;
    let rest = other.skip(1);
    lemma_plain_is_inert(rest);
    lemma_inert_passed_over(rest, b, name, value);
    assert(text.skip(1) =~= rest + b);
    assert(text[0] == other[0]);
    if text.len() >= name.len() {
        let front = text.take(name.len() as int);
        if front == name {
            if name.len() <= other.len() {
                assert(other.take(name.len() as int) =~= front);
                assert(name.is_prefix_of(other));
            } else {
                assert(name.take(other.len() as int) =~= other);
                assert(other.is_prefix_of(name));
            }
            assert(false);
        }
    } else {
        assert(replaced(text.skip(1), name, value) =~= text.skip(1));
        assert(replaced(text, name, value) =~= seq![text[0]] + text.skip(1));
    }
    assert(seq![text[0]] + (rest + replaced(b, name, value)) =~= other + replaced(b, name, value));
}

/// The values of the first `n` slots and the names of the others.
pub open spec fn partly(names: Seq<Seq<char>>, values: Seq<Seq<char>>, n: nat) -> Seq<Seq<char>> {
    Seq::new(
        names.len(),
        |k: int|
            if k < n {
                values[k]
            } else {
                names[k]
            },
    )
}

/// Replacing one name fills the slots that bear it and touches nothing else.
proof fn lemma_one_slot_filled(
    pieces: Seq<Piece>,
    names: Seq<Seq<char>>,
    values: Seq<Seq<char>>,
    n: nat,
)
    requires
        n < names.len(),
        names.len() == values.len(),
        are_names(names),
        forall|k: int| 0 <= k < values.len() ==> inert(#[trigger] values[k]),
        texts_inert(pieces),
        slots_below(pieces, names.len()),
    ensures
        replaced(rendered(pieces, partly(names, values, n)), names[n as int], values[n as int])
            == rendered(pieces, partly(names, values, n + 1)),
    decreases pieces.len(),
{
    let name = names[n as int];
    let value = values[n as int];
    let before = partly(names, values, n);
    let after = partly(names, values, n + 1);
    assert(is_name(name));
    if pieces.len() == 0 {
    } else {
        let first = pieces[0];
        let rest = pieces.skip(1);
        assert forall|i: int| 0 <= i < rest.len() implies match #[trigger] rest[i] {
            Piece::Text(text) => inert(text),
            Piece::Slot(_) => true,
        } by {
            assert(rest[i] == pieces[i + 1]);
        }
        assert forall|i: int| 0 <= i < rest.len() implies match #[trigger] rest[i] {
            Piece::Text(_) => true,
            Piece::Slot(slot) => 0 <= slot < names.len(),
        } by {
            assert(rest[i] == pieces[i + 1]);
        }
        lemma_one_slot_filled(rest, names, values, n);
        let tail = rendered(rest, before);
        match first {
            Piece::Text(text) => {
                lemma_inert_passed_over(text, tail, name, value);
            },
            Piece::Slot(slot) => {
                if slot < n {
                    assert(inert(values[slot]));
                    lemma_inert_passed_over(values[slot], tail, name, value);
                } else if slot == n {
                    let text = name + tail;
                    assert(text.take(name.len() as int) =~= name);
                    assert(text.skip(name.len() as int) =~= tail);
                } else {
                    assert(is_name(names[slot]));
                    lemma_other_name_passed_over(names[slot], tail, name, value);
                }
            },
        }
    }
}

/// Filling the slots of a template one after another puts each value into the
/// slots that bear its name and leaves everything else as it was, provided that
/// no name can begin in a value. The order of the names does not matter.
pub proof fn law_slots_are_filled(
    pieces: Seq<Piece>,
    names: Seq<Seq<char>>,
    values: Seq<Seq<char>>,
    n: nat,
)
    requires
        n <= names.len(),
        names.len() == values.len(),
        are_names(names),
        forall|k: int| 0 <= k < values.len() ==> inert(#[trigger] values[k]),
        texts_inert(pieces),
        slots_below(pieces, names.len()),
    ensures
        filled_in_turn(rendered(pieces, names), names, values, n) == rendered(
            pieces,
            partly(names, values, n),
        ),
        n == names.len() ==> partly(names, values, n) == values,
    decreases n,
{
    if n == 0 {
        assert(partly(names, values, 0) =~= names);
    } else {
        law_slots_are_filled(pieces, names, values, (n - 1) as nat);
        lemma_one_slot_filled(pieces, names, values, (n - 1) as nat);
    }
    if n == names.len() {
        assert(partly(names, values, n) =~= values);
    }
}

/// A name occurs after text in which none can begin only where it occurs in
/// what follows.
proof fn lemma_no_name_after_inert(a: Seq<char>, b: Seq<char>, name: Seq<char>)
    requires
        inert(a),
        is_name(name),
        !occurs_in(b, name),
    ensures
        !occurs_in(a + b, name),
{
    let text = a + b;
    assert forall|at: int| !#[trigger] occurs_at(text, name, at) by {
        if occurs_at(text, name, at) {
            let part = text.subrange(at, at + name.len());
            assert(part[0] == text[at] && part[1] == text[at + 1]);
            if at < a.len() {
                assert(a[at] == '$');
                assert(text[at + 1] == a[at + 1]);
                assert(false);
            } else {
                assert(b.subrange(at - a.len(), at - a.len() + name.len()) =~= part);
                assert(occurs_at(b, name, at - a.len()));
            }
        }
    }
}

/// No name of a slot is left in a page in whose values none can begin.
pub proof fn law_no_slot_is_left(pieces: Seq<Piece>, values: Seq<Seq<char>>, name: Seq<char>)
    requires
        forall|k: int| 0 <= k < values.len() ==> inert(#[trigger] values[k]),
        texts_inert(pieces),
        slots_below(pieces, values.len()),
        is_name(name),
    ensures
        !occurs_in(rendered(pieces, values), name),
    decreases pieces.len(),
{
    if pieces.len() > 0 {
        let first = pieces[0];
        let rest = pieces.skip(1);
        assert forall|i: int| 0 <= i < rest.len() implies match #[trigger] rest[i] {
            Piece::Text(text) => inert(text),
            Piece::Slot(_) => true,
        } by {
            assert(rest[i] == pieces[i + 1]);
        }
        assert forall|i: int| 0 <= i < rest.len() implies match #[trigger] rest[i] {
            Piece::Text(_) => true,
            Piece::Slot(slot) => 0 <= slot < values.len(),
        } by {
            assert(rest[i] == pieces[i + 1]);
        }
        law_no_slot_is_left(rest, values, name);
        if let Piece::Slot(slot) = first {
            assert(inert(values[slot]));
        }
        lemma_no_name_after_inert(piece_text(first, values), rendered(rest, values), name);
    }
}

proof fn lemma_rendered_split(pieces: Seq<Piece>, contents: Seq<Seq<char>>, n: int)
    requires
        0 <= n <= pieces.len(),
    ensures
        rendered(pieces, contents) == rendered(pieces.take(n), contents) + rendered(
            pieces.skip(n),
            contents,
        ),
    decreases n,
{
    if n == 0 {
        assert(pieces.skip(0) =~= pieces);
        assert(rendered(pieces.take(0), contents) + rendered(pieces, contents) =~= rendered(
            pieces,
            contents,
        ));
    } else {
        let rest = pieces.skip(1);
        lemma_rendered_split(rest, contents, n - 1);
        assert(pieces.take(n).skip(1) =~= rest.take(n - 1));
        assert(rest.skip(n - 1) =~= pieces.skip(n));
        assert(pieces.take(n)[0] == pieces[0]);
        assert(rendered(pieces, contents) =~= rendered(pieces.take(n), contents) + rendered(
            pieces.skip(n),
            contents,
        ));
    }
}

/// A fixed text of a template occurs in the page.
pub proof fn lemma_text_occurs(
    pieces: Seq<Piece>,
    contents: Seq<Seq<char>>,
    i: int,
    text: Seq<char>,
)
    requires
        0 <= i < pieces.len(),
        pieces[i] == Piece::Text(text),
    ensures
        occurs_in(rendered(pieces, contents), text),
{
    lemma_rendered_split(pieces, contents, i);
    let front = rendered(pieces.take(i), contents);
    let back = rendered(pieces.skip(i).skip(1), contents);
    assert(pieces.skip(i)[0] == pieces[i]);
    lemma_middle_occurs(front, text, back);
    assert(rendered(pieces, contents) =~= front + text + back);
}

/// What fills a slot occurs in the page, between the texts that the slot stands between.
pub proof fn lemma_slot_occurs(
    pieces: Seq<Piece>,
    contents: Seq<Seq<char>>,
    i: int,
    before: Seq<char>,
    slot: int,
    after: Seq<char>,
)
    requires
        0 <= i,
        i + 2 < pieces.len(),
        pieces[i] == Piece::Text(before),
        pieces[i + 1] == Piece::Slot(slot),
        pieces[i + 2] == Piece::Text(after),
    ensures
        occurs_in(rendered(pieces, contents), before + contents[slot] + after),
{
    lemma_rendered_split(pieces, contents, i);
    let front = rendered(pieces.take(i), contents);
    let first = pieces.skip(i);
    let second = first.skip(1);
    let third = second.skip(1);
    let back = rendered(third.skip(1), contents);
    assert(first[0] == pieces[i] && second[0] == pieces[i + 1] && third[0] == pieces[i + 2]);
    let middle = before + contents[slot] + after;
    assert(rendered(third, contents) == after + back);
    assert(rendered(second, contents) == contents[slot] + rendered(third, contents));
    assert(rendered(first, contents) =~= middle + back);
    lemma_middle_occurs(front, middle, back);
    assert(rendered(pieces, contents) =~= front + middle + back);
}

} // verus!
