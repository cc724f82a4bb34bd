//! Shell words: quoting a text so that a POSIX shell reads it back as one word.

use vstd::prelude::*;

use crate::text::chars_of;

verus! {

/// The characters that mean themselves to a shell wherever they stand in a word.
pub open spec fn is_plain(c: char) -> bool {
    ||| 'a' <= c <= 'z'
    ||| 'A' <= c <= 'Z'
    ||| '0' <= c <= '9'
    ||| c == '_'
    ||| c == '-'
    ||| c == '.'
    ||| c == '/'
    ||| c == ':'
    ||| c == '@'
    ||| c == '+'
}

/// Whether every character of `s` is plain.
pub open spec fn all_plain(s: Seq<char>) -> bool {
    forall|i: int| 0 <= i < s.len() ==> is_plain(#[trigger] s[i])
}

/// `s` with each single quote written as `'\''`: the quotes are closed, an escaped quote
/// follows, and they are opened again.
pub open spec fn escaped(s: Seq<char>) -> Seq<char>
    decreases s.len(),
{
    if s.len() == 0 {
        s
    } else {
        escaped(s.drop_last()) + if s.last() == '\'' {
            seq!['\'', '\\', '\'', '\'']
        } else {
            seq![s.last()]
        }
    }
}

/// `s` as one shell word: as it is where it is plain and not empty, in single quotes otherwise.
pub open spec fn quoted(s: Seq<char>) -> Seq<char> {
    if s.len() > 0 && all_plain(s) {
        s
    } else {
        seq!['\''] + escaped(s) + seq!['\'']
    }
}

fn plain(c: char) -> (r: bool)
    ensures
        r == is_plain(c),
{
    ('a' <= c && c <= 'z') || ('A' <= c && c <= 'Z') || ('0' <= c && c <= '9') || c == '_' || c == '-'
        || c == '.' || c == '/' || c == ':' || c == '@' || c == '+'
}

fn needs_no_quotes(chars: &Vec<char>) -> (r: bool)
    ensures
        r == (chars@.len() > 0 && all_plain(chars@)),
{
    let mut i: usize = 0;
    while i < chars.len()
        invariant
            i <= chars@.len(),
            forall|j: int| 0 <= j < i ==> is_plain(#[trigger] chars@[j]),
        decreases chars@.len() - i,
    {
        if !plain(chars[i]) {
            return false;
        }
        i = i + 1;
    }
    chars.len() > 0
}

/// Quotes `s` for a POSIX shell.
pub fn shell_quote(s: &str) -> (r: String)
    ensures
        r@ == quoted(s@),
{
    let chars = chars_of(s);
    if needs_no_quotes(&chars) {
        return s.to_owned();
    }
    let mut r = String::new();
    r.push('\'');
    let mut i: usize = 0;
    proof {
        assert(r@ =~= seq!['\''] + escaped(s@.take(0)));
    }
    while i < chars.len()
        invariant
            i <= chars@.len(),
            chars@ == s@,
            r@ == seq!['\''] + escaped(s@.take(i as int)),
        decreases chars@.len() - i,
    {
        let c = chars[i];
        if c == '\'' {
            r.push('\'');
            r.push('\\');
            r.push('\'');
        }
        r.push(c);
        proof {
            assert(s@.take(i + 1).drop_last() =~= s@.take(i as int));
            assert(s@.take(i + 1).last() == c);
            assert(r@ =~= seq!['\''] + escaped(s@.take(i + 1)));
        }
        i = i + 1;
    }
    r.push('\'');
    proof {
        assert(s@.take(i as int) =~= s@);
        assert(r@ =~= seq!['\''] + escaped(s@) + seq!['\'']);
    }
    r
}

// ---------------------------------------------------------------------------
// How a shell reads words
// ---------------------------------------------------------------------------

/// The word begun so far, or an empty one.
pub open spec fn begun(word: Option<Seq<char>>) -> Seq<char> {
    match word {
        Some(w) => w,
        None => seq![],
    }
}

/// How a POSIX shell splits a command line made of plain characters, `=`, spaces, single
/// quotes and backslashes: `word` is the word begun so far, `inside` tells whether single
/// quotes are open, `done` holds the words finished so far. `None` where a quote or a
/// backslash is left open, and where a character has a meaning of its own to the shell.
pub open spec fn reading(
    s: Seq<char>,
    word: Option<Seq<char>>,
    inside: bool,
    done: Seq<Seq<char>>,
) -> Option<Seq<Seq<char>>>
    decreases s.len(),
{
    if s.len() == 0 {
        if inside {
            None
        } else {
            match word {
                Some(w) => Some(done.push(w)),
                None => Some(done),
            }
        }
    } else {
        let c = s[0];
        let rest = s.drop_first();
        if c == '\'' {
            reading(rest, Some(begun(word)), !inside, done)
        } else if inside || is_plain(c) || c == '=' {
            reading(rest, Some(begun(word).push(c)), inside, done)
        } else if c == '\\' && rest.len() > 0 && rest[0] != '\n' {
            reading(rest.drop_first(), Some(begun(word).push(rest[0])), false, done)
        } else if c == ' ' {
            match word {
                Some(w) => reading(rest, None, false, done.push(w)),
                None => reading(rest, None, false, done),
            }
        } else {
            None
        }
    }
}

/// The words of a command line, where it is made of words alone.
pub open spec fn shell_words(s: Seq<char>) -> Option<Seq<Seq<char>>> {
    reading(s, None, false, seq![])
}

/// Plain characters and equals signs join the word they stand in.
pub proof fn plain_text_joins_the_word(
    s: Seq<char>,
    rest: Seq<char>,
    word: Option<Seq<char>>,
    done: Seq<Seq<char>>,
)
    requires
        s.len() > 0,
        forall|i: int| 0 <= i < s.len() ==> is_plain(#[trigger] s[i]) || s[i] == '=',
    ensures
        reading(s + rest, word, false, done) == reading(rest, Some(begun(word) + s), false, done),
    decreases s.len(),
{
    let whole = s + rest;
    assert(whole[0] == s[0]);
    assert(whole.drop_first() =~= s.drop_first() + rest);
    if s.len() == 1 {
        assert(s.drop_first() + rest =~= rest);
        assert(begun(word).push(s[0]) =~= begun(word) + s);
    } else {
        plain_text_joins_the_word(s.drop_first(), rest, Some(begun(word).push(s[0])), done);
        assert(begun(word).push(s[0]) + s.drop_first() =~= begun(word) + s);
    }
}

/// Inside single quotes, what was escaped joins the word as it was.
proof fn lemma_escaped_joins_the_word(
    s: Seq<char>,
    rest: Seq<char>,
    word: Seq<char>,
    done: Seq<Seq<char>>,
)
    ensures
        reading(escaped(s) + rest, Some(word), true, done) == reading(
            rest,
            Some(word + s),
            true,
            done,
        ),
    decreases s.len(),
{
    if s.len() == 0 {
        assert(escaped(s) + rest =~= rest);
        assert(word + s =~= word);
    } else {
        let last = s.last();
        if last == '\'' {
            let four = seq!['\'', '\\', '\'', '\''] + rest;
            assert(escaped(s) + rest =~= escaped(s.drop_last()) + four);
            lemma_escaped_joins_the_word(s.drop_last(), four, word, done);
            let w = word + s.drop_last();
            let three = four.drop_first();
            let two = three.drop_first();
            let one = two.drop_first();
            assert(three[0] == '\\');
            assert(two[0] == '\'');
            assert(one[0] == '\'');
            assert(one.drop_first() =~= rest);
            assert(reading(four, Some(w), true, done) == reading(three, Some(w), false, done));
            assert(reading(three, Some(w), false, done) == reading(
                one,
                Some(w.push('\'')),
                false,
                done,
            ));
            assert(reading(one, Some(w.push('\'')), false, done) == reading(
                rest,
                Some(w.push('\'')),
                true,
                done,
            ));
            assert(w.push('\'') =~= word + s);
        } else {
            let one = seq![last] + rest;
            assert(escaped(s) + rest =~= escaped(s.drop_last()) + one);
            lemma_escaped_joins_the_word(s.drop_last(), one, word, done);
            assert(one.drop_first() =~= rest);
            assert((word + s.drop_last()).push(last) =~= word + s);
        }
    }
}

/// Wherever a quoted text stands outside of quotes, the shell reads exactly that text.
pub proof fn quoted_text_joins_the_word(
    s: Seq<char>,
    rest: Seq<char>,
    word: Option<Seq<char>>,
    done: Seq<Seq<char>>,
)
    ensures
        reading(quoted(s) + rest, word, false, done) == reading(
            rest,
            Some(begun(word) + s),
            false,
            done,
        ),
{
    if s.len() > 0 && all_plain(s) {
        plain_text_joins_the_word(s, rest, word, done);
    } else {
        let open = quoted(s) + rest;
        let close = seq!['\''] + rest;
        assert(open[0] == '\'');
        assert(open.drop_first() =~= escaped(s) + close);
        lemma_escaped_joins_the_word(s, close, begun(word), done);
        assert(close.drop_first() =~= rest);
    }
}

/// A space ends the word before it.
pub proof fn space_ends_the_word(rest: Seq<char>, word: Seq<char>, done: Seq<Seq<char>>)
    ensures
        reading(seq![' '] + rest, Some(word), false, done) == reading(
            rest,
            None,
            false,
            done.push(word),
        ),
{
    let s = seq![' '] + rest;
    assert(s[0] == ' ');
    assert(s.drop_first() =~= rest);
}

/// A quoted text is one word, and that word is the text: nothing in it is interpreted,
/// split or lost, whatever it holds.
pub proof fn quoted_text_is_one_word(s: Seq<char>)
    ensures
        shell_words(quoted(s)) == Some(seq![s]),
{
    quoted_text_joins_the_word(s, seq![], None, seq![]);
    assert(quoted(s) + Seq::<char>::empty() =~= quoted(s));
    assert(begun(None) + s =~= s);
    assert(Seq::<Seq<char>>::empty().push(s) =~= seq![s]);
}

/// Two texts that are quoted alike are the same text.
pub proof fn quoting_is_injective(a: Seq<char>, b: Seq<char>)
    requires
        quoted(a) == quoted(b),
    ensures
        a == b,
{
    quoted_text_is_one_word(a);
    quoted_text_is_one_word(b);
    assert(seq![a][0] == seq![b][0]);
}

/// Whether `part` is a way to write `word`: quoted, or as it is where no character of it means
/// anything to the shell.
pub open spec fn spells(part: Seq<char>, word: Seq<char>) -> bool {
    ||| part == quoted(word)
    ||| part == word && word.len() > 0 && forall|i: int|
        0 <= i < word.len() ==> is_plain(#[trigger] word[i]) || word[i] == '='
}

/// Whether `parts` are ways to write `words`, one for one.
pub open spec fn spelled(parts: Seq<Seq<char>>, words: Seq<Seq<char>>) -> bool {
    &&& parts.len() == words.len()
    &&& parts.len() > 0
    &&& forall|i: int| 0 <= i < parts.len() ==> spells(#[trigger] parts[i], words[i])
}

/// Parts with single spaces between them.
pub open spec fn spaced(parts: Seq<Seq<char>>) -> Seq<char>
    decreases parts.len(),
{
    if parts.len() == 0 {
        seq![]
    } else if parts.len() == 1 {
        parts[0]
    } else {
        parts[0] + " "@ + spaced(parts.drop_first())
    }
}

proof fn lemma_spelled_word(part: Seq<char>, word: Seq<char>, rest: Seq<char>, done: Seq<Seq<char>>)
    requires
        spells(part, word),
    ensures
        reading(part + rest, None, false, done) == reading(rest, Some(word), false, done),
{
    assert(begun(None) + word =~= word);
    if part == quoted(word) {
        quoted_text_joins_the_word(word, rest, None, done);
    } else {
        plain_text_joins_the_word(word, rest, None, done);
    }
}

proof fn lemma_spaced_words(parts: Seq<Seq<char>>, words: Seq<Seq<char>>, done: Seq<Seq<char>>)
    requires
        spelled(parts, words),
    ensures
        reading(spaced(parts), None, false, done) == Some(done + words),
    decreases parts.len(),
{
    assert(spells(parts[0], words[0]));
    if parts.len() == 1 {
        lemma_spelled_word(parts[0], words[0], seq![], done);
        assert(parts[0] + Seq::<char>::empty() =~= parts[0]);
        assert(done.push(words[0]) =~= done + words);
    } else {
        reveal_strlit(" ");
        let more = parts.drop_first();
        let rest = words.drop_first();
        let tail = seq![' '] + spaced(more);
        assert(spaced(parts) =~= parts[0] + tail);
        lemma_spelled_word(parts[0], words[0], tail, done);
        space_ends_the_word(spaced(more), words[0], done);
        assert forall|i: int| 0 <= i < more.len() implies spells(#[trigger] more[i], rest[i]) by {
            assert(spells(parts[i + 1], words[i + 1]));
        }
        lemma_spaced_words(more, rest, done.push(words[0]));
        assert(done.push(words[0]) + rest =~= done + words);
    }
}

/// A line of words, each of them spelled out and with single spaces between them, is read back
/// as those words.
pub proof fn spelled_words_read_back(parts: Seq<Seq<char>>, words: Seq<Seq<char>>)
    requires
        spelled(parts, words),
    ensures
        shell_words(spaced(parts)) == Some(words),
{
    lemma_spaced_words(parts, words, seq![]);
    assert(Seq::<Seq<char>>::empty() + words =~= words);
}

/// Two lines of words, one after the other, are a line of words.
pub proof fn spelled_lines_join(
    a: Seq<Seq<char>>,
    x: Seq<Seq<char>>,
    b: Seq<Seq<char>>,
    y: Seq<Seq<char>>,
)
    requires
        spelled(a, x),
        spelled(b, y),
    ensures
        spelled(a + b, x + y),
        spaced(a + b) == spaced(a) + " "@ + spaced(b),
    decreases a.len(),
{
    assert forall|i: int| 0 <= i < (a + b).len() implies spells(#[trigger] (a + b)[i], (x + y)[i]) by {
        if i < a.len() {
            assert(spells(a[i], x[i]));
        } else {
            assert(spells(b[i - a.len()], y[i - a.len()]));
        }
    }
    if a.len() == 1 {
        assert((a + b).drop_first() =~= b);
    } else {
        let c = a.drop_first();
        let z = x.drop_first();
        assert forall|i: int| 0 <= i < c.len() implies spells(#[trigger] c[i], z[i]) by {
            assert(spells(a[i + 1], x[i + 1]));
        }
        spelled_lines_join(c, z, b, y);
        assert((a + b).drop_first() =~= c + b);
        assert(spaced(a + b) =~= spaced(a) + " "@ + spaced(b));
    }
}

/// Two words.
pub proof fn two_spelled_words(p: Seq<char>, v: Seq<char>, q: Seq<char>, w: Seq<char>)
    requires
        spells(p, v),
        spells(q, w),
    ensures
        spelled(seq![p, q], seq![v, w]),
        spaced(seq![p, q]) == p + " "@ + q,
{
    reveal_with_fuel(spaced, 2);
    assert(seq![p, q].drop_first() =~= seq![q]);
}

/// A line of words with one more word.
pub proof fn word_joins_the_line(
    parts: Seq<Seq<char>>,
    words: Seq<Seq<char>>,
    text: Seq<char>,
    part: Seq<char>,
    part_text: Seq<char>,
    word: Seq<char>,
)
    requires
        spelled(parts, words),
        spaced(parts) == text,
        spells(part, word),
        part_text == " "@ + part,
    ensures
        spelled(parts + seq![part], words + seq![word]),
        spaced(parts + seq![part]) == text + part_text,
{
    assert(spelled(seq![part], seq![word]));
    spelled_lines_join(parts, words, seq![part], seq![word]);
    assert(text + " "@ + part =~= text + (" "@ + part));
}

/// A line of words with one more option, and the word that belongs to it.
pub proof fn option_joins_the_line(
    parts: Seq<Seq<char>>,
    words: Seq<Seq<char>>,
    text: Seq<char>,
    option: Seq<char>,
    option_text: Seq<char>,
    part: Seq<char>,
    word: Seq<char>,
)
    requires
        spelled(parts, words),
        spaced(parts) == text,
        spells(option, option),
        option_text == " "@ + option + " "@,
        spells(part, word),
    ensures
        spelled(parts + seq![option, part], words + seq![option, word]),
        spaced(parts + seq![option, part]) == text + option_text + part,
{
    two_spelled_words(option, option, part, word);
    spelled_lines_join(parts, words, seq![option, part], seq![option, word]);
    assert(text + " "@ + (option + " "@ + part) =~= text + (" "@ + option + " "@) + part);
}

} // verus!
