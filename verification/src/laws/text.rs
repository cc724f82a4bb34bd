//! Texts and numbers.

use vstd::prelude::*;

use crate::aca::auth::{credential_failure_text, scope_of, AuthMode};
use crate::aca::client::ApiErrorView;
use crate::decimal::{all_digits, decimal, digits_value, numeral_reads_back, signed_decimal, unsigned_value};
use crate::error::{caused_by_not_running, error_text, in_context, ErrorView};
use crate::exec::{exit_code_text, CommandTermination, ExecView};
use crate::shell::{is_plain, quoted};
use crate::text::{
    ascii_lower, in_order, is_blank, is_white, lines_of, occurs, replaced, run_before_is,
    same_but_for_case, text_at_most, trimmed, trimmed_end, trimmed_start, without_trailing,
};

verus! {

// ---------------------------------------------------------------------------
// Texts
// ---------------------------------------------------------------------------

/// The characters that count as white space.
pub proof fn these_characters_are_white(c: char)
    ensures
        is_white(c) <==> {
            ||| c == ' '
            ||| c == '\t'
            ||| c == '\n'
            ||| c == '\u{b}'
            ||| c == '\u{c}'
            ||| c == '\r'
            ||| c == '\u{85}'
            ||| c == '\u{a0}'
            ||| c == '\u{1680}'
            ||| '\u{2000}' <= c <= '\u{200a}'
            ||| c == '\u{2028}'
            ||| c == '\u{2029}'
            ||| c == '\u{202f}'
            ||| c == '\u{205f}'
            ||| c == '\u{3000}'
        },
{
}

proof fn lemma_trimmed_start(s: Seq<char>) -> (i: int)
    ensures
        0 <= i <= s.len(),
        trimmed_start(s) == s.skip(i),
        forall|k: int| 0 <= k < i ==> is_white(#[trigger] s[k]),
        i < s.len() ==> !is_white(s[i]),
    decreases s.len(),
{
    if s.len() > 0 && is_white(s[0]) {
        let i = lemma_trimmed_start(s.drop_first());
        assert(s.drop_first().skip(i) =~= s.skip(i + 1));
        assert forall|k: int| 0 <= k < i + 1 implies is_white(#[trigger] s[k]) by {
            if k > 0 {
                assert(s[k] == s.drop_first()[k - 1]);
            }
        }
        i + 1
    } else {
        assert(s.skip(0) =~= s);
        0
    }
}

proof fn lemma_trimmed_end(s: Seq<char>) -> (j: int)
    ensures
        0 <= j <= s.len(),
        trimmed_end(s) == s.take(j),
        forall|k: int| j <= k < s.len() ==> is_white(#[trigger] s[k]),
        j > 0 ==> !is_white(s[j - 1]),
    decreases s.len(),
{
    if s.len() > 0 && is_white(s.last()) {
        let j = lemma_trimmed_end(s.drop_last());
        assert(s.drop_last().take(j) =~= s.take(j));
        assert forall|k: int| j <= k < s.len() implies is_white(#[trigger] s[k]) by {
            if k < s.len() - 1 {
                assert(s[k] == s.drop_last()[k]);
            }
        }
        j
    } else {
        assert(s.take(s.len() as int) =~= s);
        s.len() as int
    }
}

/// A trimmed text is the text without white space at either end, and with nothing else missing; a
/// text is blank exactly where nothing is left of it.
pub proof fn only_white_space_is_trimmed(s: Seq<char>)
    ensures
        exists|front: Seq<char>, back: Seq<char>| #[trigger]
            (front + trimmed(s) + back) == s && is_blank(front) && is_blank(back),
        trimmed(s).len() > 0 ==> !is_white(trimmed(s)[0]) && !is_white(trimmed(s).last()),
        is_blank(s) <==> trimmed(s).len() == 0,
{
    let i = lemma_trimmed_start(s);
    let rest = s.skip(i);
    let j = lemma_trimmed_end(rest);
    let front = s.take(i);
    let back = rest.skip(j);
    assert(front + trimmed(s) + back =~= s);
    assert(is_blank(front));
    assert forall|k: int| 0 <= k < back.len() implies is_white(#[trigger] back[k]) by {
        assert(back[k] == rest[j + k]);
    }
    if trimmed(s).len() > 0 {
        assert(trimmed(s)[0] == s[i]);
        assert(trimmed(s).last() == rest[j - 1]);
    } else {
        assert forall|k: int| 0 <= k < s.len() implies is_white(#[trigger] s[k]) by {
            if k >= i {
                assert(s[k] == rest[k - i]);
            }
        }
    }
}

/// The lines of a text: there are none where it is empty; a text without a newline is one line; and
/// a newline ends a line, with the carriage return before it, and is followed by the lines of the
/// rest.
pub proof fn lines_end_with_newlines(line: Seq<char>, rest: Seq<char>)
    requires
        !line.contains('\n'),
    ensures
        lines_of(Seq::<char>::empty()).len() == 0,
        line.len() > 0 ==> lines_of(line) == seq![line],
        ({
            let kept = if line.len() > 0 && line.last() == '\r' {
                line.drop_last()
            } else {
                line
            };
            lines_of(line + seq!['\n'] + rest) == seq![kept] + lines_of(rest)
        }),
{
    let s = line + seq!['\n'] + rest;
    assert forall|i: int| 0 <= i < line.len() implies #[trigger] line[i] != '\n' by {
        assert(line.contains(line[i]));
    }
    run_before_is(line, '\n', line.len());
    assert forall|i: int| 0 <= i < line.len() implies #[trigger] s[i] != '\n' by {
        assert(s[i] == line[i]);
    }
    assert(s[line.len() as int] == '\n');
    run_before_is(s, '\n', line.len());
    assert(s.take(line.len() as int) =~= line);
    assert(s.skip(line.len() as int + 1) =~= rest);
}

/// Two texts are the same but for case where each character is the same, or the same letter of the
/// alphabet as a capital and a small one.
pub proof fn case_is_that_of_letters(a: Seq<char>, b: Seq<char>)
    ensures
        same_but_for_case(a, b) <==> a.len() == b.len() && forall|i: int|
            0 <= i < a.len() ==> {
                let c = #[trigger] a[i];
                let d = b[i];
                ||| c == d
                ||| 'a' <= c <= 'z' && d as int + 32 == c as int
                ||| 'A' <= c <= 'Z' && c as int + 32 == d as int
            },
{
    if a.len() == b.len() {
        assert forall|i: int| 0 <= i < a.len() implies (ascii_lower(#[trigger] a[i]) == ascii_lower(
            b[i],
        ) <==> (a[i] == b[i] || ('a' <= a[i] <= 'z' && b[i] as int + 32 == a[i] as int) || ('A'
            <= a[i] <= 'Z' && a[i] as int + 32 == b[i] as int))) by {
            lemma_same_letter(a[i], b[i]);
        }
    }
}

proof fn lemma_same_letter(c: char, d: char)
    ensures
        ascii_lower(c) == ascii_lower(d) <==> (c == d || ('a' <= c <= 'z' && d as int + 32
            == c as int) || ('A' <= c <= 'Z' && c as int + 32 == d as int)),
{
    if 'A' <= c <= 'Z' {
        assert(ascii_lower(c) as u32 == c as u32 + 32);
    }
    if 'A' <= d <= 'Z' {
        assert(ascii_lower(d) as u32 == d as u32 + 32);
    }
}

/// The first character in which two texts differ decides which comes first; a text comes before
/// every longer one that begins with it.
pub proof fn the_first_difference_decides(
    start: Seq<char>,
    a: char,
    b: char,
    x: Seq<char>,
    y: Seq<char>,
)
    ensures
        a < b ==> text_at_most(start + seq![a] + x, start + seq![b] + y) && !text_at_most(
            start + seq![b] + y,
            start + seq![a] + x,
        ),
        text_at_most(start, start + x),
        x.len() > 0 ==> !text_at_most(start + x, start),
    decreases start.len(),
{
    let p = start + seq![a] + x;
    let q = start + seq![b] + y;
    if start.len() > 0 {
        let less = start.drop_first();
        the_first_difference_decides(less, a, b, x, y);
        assert(p.drop_first() =~= less + seq![a] + x);
        assert(q.drop_first() =~= less + seq![b] + y);
        assert((start + x).drop_first() =~= less + x);
        assert(p[0] == start[0] && q[0] == start[0] && (start + x)[0] == start[0]);
    } else {
        assert(p[0] == a);
        assert(q[0] == b);
    }
}

/// Texts are in order where none comes after one that stands behind it.
pub proof fn order_is_that_of_all_pairs(v: Seq<Seq<char>>)
    ensures
        in_order(v) <==> forall|i: int, j: int|
            0 <= i < j < v.len() ==> text_at_most(#[trigger] v[i], #[trigger] v[j]),
{
}

/// What is dropped from the end of a text is that character alone, and all of it that stands there.
pub proof fn only_the_end_is_dropped(s: Seq<char>, c: char)
    ensures
        ({
            let kept = without_trailing(s, c);
            &&& kept.len() <= s.len()
            &&& kept == s.take(kept.len() as int)
            &&& forall|i: int| kept.len() <= i < s.len() ==> #[trigger] s[i] == c
            &&& kept.len() > 0 ==> kept.last() != c
        }),
    decreases s.len(),
{
    if s.len() > 0 && s.last() == c {
        let less = s.drop_last();
        only_the_end_is_dropped(less, c);
        let kept = without_trailing(less, c);
        assert(less.take(kept.len() as int) =~= s.take(kept.len() as int));
        assert forall|i: int| kept.len() <= i < s.len() implies #[trigger] s[i] == c by {
            if i < less.len() {
                assert(s[i] == less[i]);
            }
        }
    } else {
        assert(s.take(s.len() as int) =~= s);
    }
}

/// A text in which the needle does not stand stays as it is.
pub proof fn nothing_else_is_replaced(s: Seq<char>, needle: Seq<char>, mask: Seq<char>)
    requires
        needle.len() == 0 || !occurs(needle, s),
    ensures
        replaced(s, needle, mask) == s,
    decreases s.len(),
{
    if needle.len() > 0 && s.len() >= needle.len() {
        assert(s.skip(0) =~= s);
        assert(!needle.is_prefix_of(s.skip(0)));
        let rest = s.drop_first();
        assert(!occurs(needle, rest)) by {
            assert forall|i: int| 0 <= i <= rest.len() implies !(#[trigger] needle.is_prefix_of(
                rest.skip(i),
            )) by {
                assert(rest.skip(i) =~= s.skip(i + 1));
            }
        }
        nothing_else_is_replaced(rest, needle, mask);
        assert(seq![s[0]] + rest =~= s);
    }
}

/// The first occurrence of the needle is replaced by the mask: what stands before it stays, and what
/// follows is treated alike.
pub proof fn every_occurrence_is_replaced(
    front: Seq<char>,
    needle: Seq<char>,
    mask: Seq<char>,
    back: Seq<char>,
)
    requires
        needle.len() > 0,
        forall|i: int|
            0 <= i < front.len() ==> !#[trigger] needle.is_prefix_of(
                (front + needle + back).skip(i),
            ),
    ensures
        replaced(front + needle + back, needle, mask) == front + mask + replaced(
            back,
            needle,
            mask,
        ),
    decreases front.len(),
{
    let s = front + needle + back;
    if front.len() == 0 {
        assert(s.subrange(0, needle.len() as int) =~= needle);
        assert(s.skip(needle.len() as int) =~= back);
        assert(mask + replaced(back, needle, mask) =~= front + mask + replaced(back, needle, mask));
    } else {
        let less = front.drop_first();
        let rest = s.drop_first();
        assert(rest =~= less + needle + back);
        assert forall|i: int| 0 <= i < less.len() implies !#[trigger] needle.is_prefix_of(
            (less + needle + back).skip(i),
        ) by {
            assert((less + needle + back).skip(i) =~= s.skip(i + 1));
        }
        every_occurrence_is_replaced(less, needle, mask, back);
        assert(s.skip(0) =~= s);
        assert(!needle.is_prefix_of(s.skip(0)));
        assert(seq![s[0]] + (less + mask + replaced(back, needle, mask)) =~= front + mask
            + replaced(back, needle, mask));
    }
}

/// The characters that a shell takes as they are, wherever they stand: letters, digits and these
/// few. A text of nothing else is written as it is; any other, and an empty one, stands in single
/// quotes.
pub proof fn only_harmless_texts_are_left_bare(c: char, s: Seq<char>)
    ensures
        is_plain(c) <==> {
            ||| 'a' <= c <= 'z'
            ||| 'A' <= c <= 'Z'
            ||| '0' <= c <= '9'
            ||| c == '_'
            ||| c == '-'
            ||| c == '.'
            ||| c == '/'
            ||| c == ':'
            ||| c == '@'
            ||| c == '+'
        },
        s.len() > 0 && (forall|i: int| 0 <= i < s.len() ==> is_plain(#[trigger] s[i])) ==> quoted(s)
            == s,
        s.len() == 0 || (exists|i: int| 0 <= i < s.len() && !is_plain(#[trigger] s[i])) ==> quoted(
            s,
        ).len() >= 2 && quoted(s)[0] == '\'' && quoted(s).last() == '\'',
{
}

// ---------------------------------------------------------------------------
// Numbers
// ---------------------------------------------------------------------------

/// A numeral is digits alone, has no leading zero, and stands for its number.
pub proof fn numerals_are_written_plainly(n: nat)
    ensures
        all_digits(decimal(n)),
        digits_value(decimal(n)) == n,
        n > 0 ==> decimal(n)[0] != '0',
        decimal(0) == "0"@,
    decreases n,
{
    numeral_reads_back(n);
    reveal_strlit("0");
    assert(decimal(0) =~= "0"@);
    if n >= 10 {
        numerals_are_written_plainly(n / 10);
        assert(decimal(n)[0] == decimal(n / 10)[0]);
    }
}

/// A sign is written before a negative number, and none before any other; an exit code is written as
/// its number, and as `none` where there is none.
pub proof fn numbers_are_written_with_their_sign(n: int, code: Option<i32>)
    ensures
        n >= 0 ==> signed_decimal(n) == decimal(n as nat),
        n < 0 ==> signed_decimal(n) == "-"@ + decimal((-n) as nat),
        code is None ==> exit_code_text(code) == "none"@,
        code matches Some(c) ==> exit_code_text(code) == signed_decimal(c as int),
{
    reveal_strlit("-");
    assert("-"@ =~= seq!['-']);
}

/// The value of digits, read from left to right: each further one adds itself to ten times what
/// stands before it.
pub proof fn digits_count_in_tens(s: Seq<char>, c: char)
    requires
        '0' <= c <= '9',
    ensures
        digits_value(Seq::<char>::empty()) == 0,
        digits_value(s.push(c)) == 10 * digits_value(s) + (c as int - '0' as int),
{
    assert(s.push(c).drop_last() =~= s);
}

/// A number is read from one or more digits, with a plus sign before them or without, and from
/// nothing else.
pub proof fn only_digits_are_read(s: Seq<char>)
    requires
        s.len() > 0 ==> s[0] != '+',
    ensures
        ({
            let digits = s.len() > 0 && forall|i: int|
                0 <= i < s.len() ==> '0' <= #[trigger] s[i] <= '9';
            &&& digits ==> unsigned_value(s) == Some(digits_value(s)) && unsigned_value("+"@ + s)
                == Some(digits_value(s))
            &&& !digits ==> unsigned_value(s) is None && unsigned_value("+"@ + s) is None
        }),
{
    reveal_strlit("+");
    assert(("+"@ + s).drop_first() =~= s);
}

// ---------------------------------------------------------------------------
// Outcomes and errors
// ---------------------------------------------------------------------------

/// A command succeeded exactly where it ran to its end and exited with zero.
pub proof fn success_is_an_exit_with_zero(result: ExecView)
    ensures
        result.succeeded() <==> result.termination == CommandTermination::Exited
            && result.exit_code == Some(0i32),
{
}

/// What an error says: its own message, and for a command that failed its label, its exit code and
/// what it printed as an error. A message about what was stopped hides nothing of the cause.
pub proof fn errors_say_what_they_are_about(
    message: Seq<char>,
    cause: ErrorView,
    label: Seq<char>,
    result: ExecView,
    api: ApiErrorView,
)
    ensures
        error_text(ErrorView::Message(message)) == message,
        error_text(ErrorView::Outside(message)) == message,
        error_text(ErrorView::Api(api)) == api.text(),
        api is Other ==> !caused_by_not_running(ErrorView::Api(api)),
        error_text(in_context(message, cause)) == message,
        in_context(message, cause) == (ErrorView::Context { message, source: Box::new(cause) }),
        error_text(ErrorView::Exec { label, result }) == label + " failed (exit "@ + exit_code_text(
            result.exit_code,
        ) + "): "@ + result.stderr,
        !caused_by_not_running(ErrorView::Message(message)),
        !caused_by_not_running(ErrorView::Outside(message)),
        !caused_by_not_running(ErrorView::Exec { label, result }),
        caused_by_not_running(in_context(message, cause)) <==> caused_by_not_running(cause),
        caused_by_not_running(ErrorView::Api(ApiErrorView::NotRunning)),
        !caused_by_not_running(ErrorView::Api(ApiErrorView::Auth)),
        !caused_by_not_running(ErrorView::Api(ApiErrorView::NotFound)),
{
    reveal_with_fuel(caused_by_not_running, 2);
}

// ---------------------------------------------------------------------------
// Tokens and regions
// ---------------------------------------------------------------------------

/// A token is asked for all permissions on the audience: slashes at its end do not matter, and an
/// audience that asks for them already is asked for as it is.
pub proof fn tokens_are_asked_for_the_audience(audience: Seq<char>)
    requires
        audience.len() > 0 ==> audience.last() != '/',
    ensures
        !"/.default"@.is_suffix_of(audience) ==> scope_of(audience) == audience + "/.default"@,
        scope_of(audience + "/"@) == audience + "/.default"@,
        scope_of(audience + "/.default"@) == audience + "/.default"@,
{
    reveal_strlit("/");
    reveal_strlit("/.default");
    let slashed = audience + "/"@;
    assert(slashed.last() == '/');
    if "/.default"@.is_suffix_of(slashed) {
        assert(slashed.subrange(slashed.len() - 9, slashed.len() as int)[8] == 't');
    }
    assert(slashed.drop_last() =~= audience);
    reveal_with_fuel(without_trailing, 2);
    let scope = audience + "/.default"@;
    assert(scope.subrange(scope.len() - 9, scope.len() as int) =~= "/.default"@);
}

/// A credential that cannot be used is told by the way it was to be got.
pub proof fn credentials_are_told_apart()
    ensures
        credential_failure_text(AuthMode::Managed)
            == "Failed to build Entra managed-identity credential"@,
        credential_failure_text(AuthMode::Developer)
            == "Failed to build Entra developer-tools credential"@,
{
}

/// The regions that are known, and no others: each of these, in whatever case it is written.
pub proof fn these_regions_are_known(region: Seq<char>)
    ensures
        crate::aca::region_known(region) <==> {
            ||| same_but_for_case("australiaeast"@, region)
            ||| same_but_for_case("brazilsouth"@, region)
            ||| same_but_for_case("canadacentral"@, region)
            ||| same_but_for_case("centralus"@, region)
            ||| same_but_for_case("eastasia"@, region)
            ||| same_but_for_case("eastus2"@, region)
            ||| same_but_for_case("francecentral"@, region)
            ||| same_but_for_case("japaneast"@, region)
            ||| same_but_for_case("koreacentral"@, region)
            ||| same_but_for_case("mexicocentral"@, region)
            ||| same_but_for_case("northcentralus"@, region)
            ||| same_but_for_case("northeurope"@, region)
            ||| same_but_for_case("norwayeast"@, region)
            ||| same_but_for_case("polandcentral"@, region)
            ||| same_but_for_case("southafricanorth"@, region)
            ||| same_but_for_case("southeastasia"@, region)
            ||| same_but_for_case("southindia"@, region)
            ||| same_but_for_case("spaincentral"@, region)
            ||| same_but_for_case("swedencentral"@, region)
            ||| same_but_for_case("switzerlandnorth"@, region)
            ||| same_but_for_case("uksouth"@, region)
            ||| same_but_for_case("westcentralus"@, region)
            ||| same_but_for_case("westus"@, region)
            ||| same_but_for_case("westus2"@, region)
            ||| same_but_for_case("westus3"@, region)
        },
        crate::aca::known_regions().len() == 25,
{
    let known = crate::aca::known_regions();
    assert(known[0] == "australiaeast"@ && known[1] == "brazilsouth"@ && known[2]
        == "canadacentral"@ && known[3] == "centralus"@ && known[4] == "eastasia"@);
    assert(known[5] == "eastus2"@ && known[6] == "francecentral"@ && known[7] == "japaneast"@
        && known[8] == "koreacentral"@ && known[9] == "mexicocentral"@);
    assert(known[10] == "northcentralus"@ && known[11] == "northeurope"@ && known[12]
        == "norwayeast"@ && known[13] == "polandcentral"@ && known[14] == "southafricanorth"@);
    assert(known[15] == "southeastasia"@ && known[16] == "southindia"@ && known[17]
        == "spaincentral"@ && known[18] == "swedencentral"@ && known[19] == "switzerlandnorth"@);
    assert(known[20] == "uksouth"@ && known[21] == "westcentralus"@ && known[22] == "westus"@
        && known[23] == "westus2"@ && known[24] == "westus3"@);
}

} // verus!
