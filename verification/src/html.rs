//! Text inside HTML markup.
use vstd::prelude::*;

verus! {

/// How one character is written inside HTML text or a quoted attribute.
pub open spec fn html_char(c: char) -> Seq<char> {
    if c == '&' {
        "&amp;"@
    } else if c == '<' {
        "&lt;"@
    } else if c == '>' {
        "&gt;"@
    } else if c == '"' {
        "&quot;"@
    } else if c == '\'' {
        "&#39;"@
    } else {
        seq![c]
    }
}

/// How a text is written inside HTML text or a quoted attribute.
pub open spec fn html_escaped(text: Seq<char>) -> Seq<char>
    decreases text.len(),
{
    if text.len() == 0 {
        text
    } else {
        html_escaped(text.drop_last()) + html_char(text.last())
    }
}

/// The first character that a reader of HTML sees in `markup`, and the number
/// of characters that spell it. Only the five references of `html_char` count.
pub open spec fn html_first(markup: Seq<char>) -> (char, nat) {
    if "&amp;"@.is_prefix_of(markup) {
        ('&', 5)
    } else if "&lt;"@.is_prefix_of(markup) {
        ('<', 4)
    } else if "&gt;"@.is_prefix_of(markup) {
        ('>', 4)
    } else if "&quot;"@.is_prefix_of(markup) {
        ('"', 6)
    } else if "&#39;"@.is_prefix_of(markup) {
        ('\'', 5)
    } else {
        (markup[0], 1)
    }
}

/// The text that a reader of HTML sees in `markup`.
pub open spec fn html_shown(markup: Seq<char>) -> Seq<char>
    decreases markup.len(),
{
    if markup.len() == 0 {
        markup
    } else {
        let (c, n) = html_first(markup);
        if n >= markup.len() {
            seq![c]
        } else {
            seq![c] + html_shown(markup.skip(n as int))
        }
    }
}

/// Escapes the characters that have a meaning in HTML markup.
pub fn escape_html(input: &str) -> (escaped: String)
    ensures
        escaped@ == html_escaped(input@),
{
    let mut escaped = String::new();
    for c in it: input.chars()
        invariant
            it.seq() == input@,
            escaped@ == html_escaped(input@.take(it.index() as int)),
    {
        let ghost before = escaped@;
        if c == '&' {
            escaped.append("&amp;");
        } else if c == '<' {
            escaped.append("&lt;");
        } else if c == '>' {
            escaped.append("&gt;");
        } else if c == '"' {
            escaped.append("&quot;");
        } else if c == '\'' {
            escaped.append("&#39;");
        } else {
            escaped.push(c);
        }
        proof {
            let i = it.index() as int;
            let next = input@.take(i + 1);
            assert(next.drop_last() =~= input@.take(i));
            assert(next.last() == c);
            assert(escaped@ =~= before + html_char(c));
        }
    }
    proof {
        assert(input@.take(input@.len() as int) =~= input@);
    }
    escaped
}

/// A character that would end a tag, a text or a quoted attribute.
pub open spec fn is_markup(c: char) -> bool {
    c == '<' || c == '>' || c == '"' || c == '\''
}

proof fn lemma_html_char(c: char)
    ensures
        html_char(c).len() > 0,
        forall|i: int| 0 <= i < html_char(c).len() ==> !is_markup(#[trigger] html_char(c)[i]),
{
    reveal_strlit("&amp;");
    reveal_strlit("&lt;");
    reveal_strlit("&gt;");
    reveal_strlit("&quot;");
    reveal_strlit("&#39;");
}

/// Escaped text holds no angle bracket and no quote, so it can end neither
/// the element nor the attribute that it stands in.
pub proof fn law_escaped_text_holds_no_markup(text: Seq<char>)
    ensures
        forall|i: int|
            0 <= i < html_escaped(text).len() ==> !is_markup(#[trigger] html_escaped(text)[i]),
    decreases text.len(),
{
    if text.len() > 0 {
        let before = html_escaped(text.drop_last());
        let last = html_char(text.last());
        law_escaped_text_holds_no_markup(text.drop_last());
        lemma_html_char(text.last());
        assert forall|i: int| 0 <= i < html_escaped(text).len() implies !is_markup(
            #[trigger] html_escaped(text)[i],
        ) by {
            if i < before.len() {
                assert(html_escaped(text)[i] == before[i]);
            } else {
                assert(html_escaped(text)[i] == last[i - before.len()]);
            }
        }
    }
}

/// A text is escaped character by character, from the first on.
pub proof fn lemma_escaped_first(text: Seq<char>)
    requires
        text.len() > 0,
    ensures
        html_escaped(text) == html_char(text[0]) + html_escaped(text.skip(1)),
    decreases text.len(),
{
    if text.len() == 1 {
        assert(text.drop_last() =~= Seq::<char>::empty());
        assert(text.skip(1) =~= Seq::<char>::empty());
        assert(html_escaped(text) =~= html_char(text[0]) + html_escaped(text.skip(1)));
    } else {
        lemma_escaped_first(text.drop_last());
        assert(text.drop_last().skip(1) =~= text.skip(1).drop_last());
        assert(html_escaped(text) =~= html_char(text[0]) + html_escaped(text.skip(1)));
    }
}

/// One escaped character followed by anything is seen as that character.
proof fn lemma_html_first(c: char, rest: Seq<char>)
    ensures
        html_first(html_char(c) + rest) == (c, html_char(c).len()),
{
    reveal_strlit("&amp;");
    reveal_strlit("&lt;");
    reveal_strlit("&gt;");
    reveal_strlit("&quot;");
    reveal_strlit("&#39;");
    let markup = html_char(c) + rest;
    assert(markup[0] == html_char(c)[0]);
    if c == '&' {
        assert("&amp;"@.is_prefix_of(markup));
    } else if c == '<' {
        assert(markup[1] == 'l');
        assert("&amp;"@[1] == 'a');
        assert("&lt;"@.is_prefix_of(markup));
    } else if c == '>' {
        assert(markup[1] == 'g');
        assert("&amp;"@[1] == 'a');
        assert("&lt;"@[1] == 'l');
        assert("&gt;"@.is_prefix_of(markup));
    } else if c == '"' {
        assert(markup[1] == 'q');
        assert("&amp;"@[1] == 'a');
        assert("&lt;"@[1] == 'l');
        assert("&gt;"@[1] == 'g');
        assert("&quot;"@.is_prefix_of(markup));
    } else if c == '\'' {
        assert(markup[1] == '#');
        assert("&amp;"@[1] == 'a');
        assert("&lt;"@[1] == 'l');
        assert("&gt;"@[1] == 'g');
        assert("&quot;"@[1] == 'q');
        assert("&#39;"@.is_prefix_of(markup));
    } else {
        assert("&amp;"@[0] == '&');
        assert("&lt;"@[0] == '&');
        assert("&gt;"@[0] == '&');
        assert("&quot;"@[0] == '&');
        assert("&#39;"@[0] == '&');
    }
}

/// A reader of the page sees exactly the text that was escaped.
pub proof fn law_escaped_text_shows_the_text(text: Seq<char>)
    ensures
        html_shown(html_escaped(text)) == text,
    decreases text.len(),
{
    if text.len() > 0 {
        let c = text[0];
        let rest = html_escaped(text.skip(1));
        let markup = html_escaped(text);
        lemma_escaped_first(text);
        lemma_html_first(c, rest);
        lemma_html_char(c);
        law_escaped_text_shows_the_text(text.skip(1));
        assert(markup.skip(html_char(c).len() as int) =~= rest);
        if rest.len() == 0 {
            assert(html_shown(rest) =~= rest);
            assert(text.skip(1) =~= Seq::<char>::empty());
        }
        assert(text =~= seq![c] + text.skip(1));
    }
}

} // verus!
