//! Text: what the rest of the library does with strings, character by character.

use vstd::prelude::*;

verus! {

// ---------------------------------------------------------------------------
// Characters and whole strings
// ---------------------------------------------------------------------------

/// The characters of `s`, in order.
pub fn chars_of(s: &str) -> (r: Vec<char>)
    ensures
        r@ == s@,
{
    let mut r: Vec<char> = Vec::new();
    for c in it: s.chars()
        invariant
            it.seq() == s@,
            r@ == s@.take(it.index()),
    {
        r.push(c);
        proof {
            assert(s@.take(it.index() + 1) =~= s@.take(it.index()).push(c));
        }
    }
    proof {
        assert(s@.take(s@.len() as int) =~= s@);
    }
    r
}

/// The string of the characters of `chars` from `from` up to `to`.
pub fn string_of(chars: &Vec<char>, from: usize, to: usize) -> (r: String)
    requires
        from <= to <= chars@.len(),
    ensures
        r@ == chars@.subrange(from as int, to as int),
{
    let mut r = String::new();
    let mut i: usize = from;
    while i < to
        invariant
            from <= i <= to <= chars@.len(),
            r@ == chars@.subrange(from as int, i as int),
        decreases to - i,
    {
        r.push(chars[i]);
        proof {
            assert(chars@.subrange(from as int, i as int).push(chars@[i as int])
                =~= chars@.subrange(from as int, i + 1));
        }
        i = i + 1;
    }
    r
}

/// The bytes of `s` in UTF-8.
pub fn bytes_of(s: &str) -> (r: Vec<u8>)
    ensures
        r@ == vstd::utf8::encode_utf8(s@),
{
    let bytes = s.as_bytes();
    let mut r: Vec<u8> = Vec::new();
    let mut i: usize = 0;
    while i < bytes.len()
        invariant
            i <= bytes@.len(),
            r@ == bytes@.take(i as int),
        decreases bytes@.len() - i,
    {
        r.push(bytes[i]);
        proof {
            assert(bytes@.take(i + 1) =~= bytes@.take(i as int).push(bytes@[i as int]));
        }
        i = i + 1;
    }
    proof {
        assert(bytes@.take(i as int) =~= bytes@);
    }
    r
}

/// Whether two strings hold the same characters.
pub fn same_text(a: &str, b: &str) -> (r: bool)
    ensures
        r == (a@ == b@),
{
    let x = chars_of(a);
    let y = chars_of(b);
    if x.len() != y.len() {
        return false;
    }
    let mut i: usize = 0;
    while i < x.len()
        invariant
            i <= x@.len(),
            x@ == a@,
            y@ == b@,
            x@.len() == y@.len(),
            x@.take(i as int) == y@.take(i as int),
        decreases x@.len() - i,
    {
        if x[i] != y[i] {
            proof {
                assert(a@[i as int] != b@[i as int]);
            }
            return false;
        }
        proof {
            assert(x@.take(i + 1) =~= x@.take(i as int).push(x@[i as int]));
            assert(y@.take(i + 1) =~= y@.take(i as int).push(y@[i as int]));
        }
        i = i + 1;
    }
    proof {
        assert(x@.take(i as int) =~= x@);
        assert(y@.take(i as int) =~= y@);
    }
    true
}

// ---------------------------------------------------------------------------
// ASCII letter case
// ---------------------------------------------------------------------------

/// `c` with an ASCII capital letter made small, any other character as it is.
pub open spec fn ascii_lower(c: char) -> char {
    if 'A' <= c <= 'Z' {
        ((c as u32) + 32) as char
    } else {
        c
    }
}

/// Whether `a` and `b` differ in the case of ASCII letters at most.
pub open spec fn same_but_for_case(a: Seq<char>, b: Seq<char>) -> bool {
    &&& a.len() == b.len()
    &&& forall|i: int| 0 <= i < a.len() ==> ascii_lower(#[trigger] a[i]) == ascii_lower(b[i])
}

fn lowered(c: char) -> (r: char)
    ensures
        r == ascii_lower(c),
{
    if 'A' <= c && c <= 'Z' {
        let code: u8 = (c as u8) + 32;
        code as char
    } else {
        c
    }
}

/// Case-insensitive comparison on ASCII letters, exact on every other character.
pub fn eq_ignore_ascii_case(a: &str, b: &str) -> (r: bool)
    ensures
        r == same_but_for_case(a@, b@),
{
    let x = chars_of(a);
    let y = chars_of(b);
    if x.len() != y.len() {
        return false;
    }
    let mut i: usize = 0;
    while i < x.len()
        invariant
            i <= x@.len(),
            x@ == a@,
            y@ == b@,
            x@.len() == y@.len(),
            forall|j: int| 0 <= j < i ==> ascii_lower(#[trigger] x@[j]) == ascii_lower(y@[j]),
        decreases x@.len() - i,
    {
        if lowered(x[i]) != lowered(y[i]) {
            return false;
        }
        i = i + 1;
    }
    true
}

// ---------------------------------------------------------------------------
// Order
// ---------------------------------------------------------------------------

/// Lexicographic order by code point, which is also the byte order of UTF-8.
pub open spec fn text_at_most(a: Seq<char>, b: Seq<char>) -> bool
    decreases a.len(),
{
    if a.len() == 0 {
        true
    } else if b.len() == 0 {
        false
    } else if a[0] != b[0] {
        a[0] < b[0]
    } else {
        text_at_most(a.drop_first(), b.drop_first())
    }
}

/// The order is total.
pub proof fn text_order_total(a: Seq<char>, b: Seq<char>)
    ensures
        text_at_most(a, b) || text_at_most(b, a),
    decreases a.len(),
{
    if a.len() > 0 && b.len() > 0 && a[0] == b[0] {
        text_order_total(a.drop_first(), b.drop_first());
    }
}

/// The order is antisymmetric.
pub proof fn text_order_antisymmetric(a: Seq<char>, b: Seq<char>)
    requires
        text_at_most(a, b),
        text_at_most(b, a),
    ensures
        a == b,
    decreases a.len(),
{
    if a.len() == 0 {
        assert(a =~= b);
    } else {
        text_order_antisymmetric(a.drop_first(), b.drop_first());
        assert(a =~= seq![a[0]] + a.drop_first());
        assert(b =~= seq![b[0]] + b.drop_first());
    }
}

/// The order is transitive.
pub proof fn text_order_transitive(a: Seq<char>, b: Seq<char>, c: Seq<char>)
    requires
        text_at_most(a, b),
        text_at_most(b, c),
    ensures
        text_at_most(a, c),
    decreases a.len(),
{
    if a.len() > 0 && a[0] == b[0] && b[0] == c[0] {
        text_order_transitive(a.drop_first(), b.drop_first(), c.drop_first());
    }
}

/// Whether `a` comes no later than `b`.
pub fn at_most(a: &str, b: &str) -> (r: bool)
    ensures
        r == text_at_most(a@, b@),
{
    let x = chars_of(a);
    let y = chars_of(b);
    let mut i: usize = 0;
    proof {
        assert(x@.skip(0) =~= x@);
        assert(y@.skip(0) =~= y@);
    }
    while i < x.len() && i < y.len()
        invariant
            i <= x@.len(),
            i <= y@.len(),
            x@ == a@,
            y@ == b@,
            text_at_most(a@, b@) == text_at_most(x@.skip(i as int), y@.skip(i as int)),
        decreases x@.len() - i,
    {
        if x[i] != y[i] {
            return x[i] < y[i];
        }
        proof {
            assert(x@.skip(i as int).drop_first() =~= x@.skip(i + 1));
            assert(y@.skip(i as int).drop_first() =~= y@.skip(i + 1));
        }
        i = i + 1;
    }
    i == x.len()
}

// ---------------------------------------------------------------------------
// Parts of a string
// ---------------------------------------------------------------------------

/// Whether the characters of `chars` from `at` on begin with `part`.
fn has_at(chars: &Vec<char>, at: usize, part: &Vec<char>) -> (r: bool)
    requires
        at <= chars@.len(),
    ensures
        r == part@.is_prefix_of(chars@.skip(at as int)),
{
    if chars.len() - at < part.len() {
        return false;
    }
    proof {
        assert(chars.len() <= usize::MAX);
    }
    let mut i: usize = 0;
    while i < part.len()
        invariant
            i <= part@.len(),
            at + part@.len() <= chars@.len() <= usize::MAX,
            forall|j: int| 0 <= j < i ==> #[trigger] part@[j] == chars@[at + j],
        decreases part@.len() - i,
    {
        if chars[at + i] != part[i] {
            proof {
                assert(chars@.skip(at as int)[i as int] != part@[i as int]);
            }
            return false;
        }
        i = i + 1;
    }
    proof {
        assert(chars@.skip(at as int).subrange(0, part@.len() as int) =~= part@);
    }
    true
}

/// Whether `s` begins with `prefix`.
pub fn starts_with(s: &str, prefix: &str) -> (r: bool)
    ensures
        r == prefix@.is_prefix_of(s@),
{
    let chars = chars_of(s);
    let part = chars_of(prefix);
    proof {
        assert(chars@.skip(0) =~= chars@);
    }
    has_at(&chars, 0, &part)
}

/// What follows `prefix` in `s`, where `s` begins with it.
pub fn strip_prefix(s: &str, prefix: &str) -> (r: Option<String>)
    ensures
        match r {
            Some(rest) => s@ == prefix@ + rest@,
            None => !prefix@.is_prefix_of(s@),
        },
{
    let chars = chars_of(s);
    let part = chars_of(prefix);
    proof {
        assert(chars@.skip(0) =~= chars@);
    }
    if has_at(&chars, 0, &part) {
        let rest = string_of(&chars, part.len(), chars.len());
        proof {
            assert(s@ =~= prefix@ + rest@);
        }
        Some(rest)
    } else {
        None
    }
}

/// What stands before `suffix` in `s`, where `s` ends with it.
pub fn strip_suffix(s: &str, suffix: &str) -> (r: Option<String>)
    ensures
        match r {
            Some(rest) => s@ == rest@ + suffix@,
            None => !suffix@.is_suffix_of(s@),
        },
{
    let chars = chars_of(s);
    let part = chars_of(suffix);
    if chars.len() < part.len() {
        return None;
    }
    let at: usize = chars.len() - part.len();
    proof {
        assert(chars@.skip(at as int) =~= chars@.subrange(at as int, chars@.len() as int));
    }
    if has_at(&chars, at, &part) {
        let rest = string_of(&chars, 0, at);
        proof {
            assert(chars@.skip(at as int).subrange(0, part@.len() as int) =~= chars@.skip(at as int));
            assert(s@ =~= rest@ + suffix@);
        }
        Some(rest)
    } else {
        proof {
            if suffix@.is_suffix_of(s@) {
                assert(chars@.skip(at as int).subrange(0, part@.len() as int) =~= part@);
            }
        }
        None
    }
}

/// Whether `s` ends with `suffix`.
pub fn ends_with(s: &str, suffix: &str) -> (r: bool)
    ensures
        r == suffix@.is_suffix_of(s@),
{
    match strip_suffix(s, suffix) {
        Some(rest) => {
            proof {
                assert(s@.subrange(s@.len() - suffix@.len(), s@.len() as int) =~= suffix@);
            }
            true
        },
        None => false,
    }
}

/// The length of what stands before the first `c` of `s`, or of `s` where it has none.
pub open spec fn run_before(s: Seq<char>, c: char) -> nat
    decreases s.len(),
{
    if s.len() == 0 || s[0] == c {
        0
    } else {
        1 + run_before(s.drop_first(), c)
    }
}

/// What `run_before` counts is free of `c`, and a `c` follows unless `s` ends there.
pub proof fn run_before_stops_at_the_first(s: Seq<char>, c: char)
    ensures
        run_before(s, c) <= s.len(),
        run_before(s, c) < s.len() ==> s[run_before(s, c) as int] == c,
        forall|i: int| 0 <= i < run_before(s, c) ==> #[trigger] s[i] != c,
    decreases s.len(),
{
    if s.len() > 0 && s[0] != c {
        run_before_stops_at_the_first(s.drop_first(), c);
        assert forall|i: int| 0 <= i < run_before(s, c) implies #[trigger] s[i] != c by {
            if i > 0 {
                assert(s[i] == s.drop_first()[i - 1]);
            }
        }
    }
}

/// The only length with those properties.
pub proof fn run_before_is(s: Seq<char>, c: char, n: nat)
    requires
        n <= s.len(),
        forall|i: int| 0 <= i < n ==> #[trigger] s[i] != c,
        n < s.len() ==> s[n as int] == c,
    ensures
        run_before(s, c) == n,
{
    run_before_stops_at_the_first(s, c);
    if run_before(s, c) < n {
        assert(s[run_before(s, c) as int] != c);
    }
    if n < run_before(s, c) {
        assert(s[n as int] != c);
    }
}

/// The two sides of the first `c` in `s`.
pub fn split_once(s: &str, c: char) -> (r: Option<(String, String)>)
    ensures
        match r {
            Some((left, right)) => {
                let n = run_before(s@, c);
                n < s@.len() && left@ == s@.take(n as int) && right@ == s@.skip(n as int + 1)
            },
            None => run_before(s@, c) == s@.len(),
        },
{
    let chars = chars_of(s);
    let mut i: usize = 0;
    while i < chars.len()
        invariant
            i <= chars@.len(),
            chars@ == s@,
            forall|j: int| 0 <= j < i ==> #[trigger] chars@[j] != c,
        decreases chars@.len() - i,
    {
        if chars[i] == c {
            let left = string_of(&chars, 0, i);
            let right = string_of(&chars, i + 1, chars.len());
            proof {
                run_before_is(s@, c, i as nat);
                assert(left@ =~= s@.take(i as int));
                assert(right@ =~= s@.skip(i + 1));
            }
            return Some((left, right));
        }
        i = i + 1;
    }
    proof {
        run_before_is(s@, c, i as nat);
    }
    None
}

/// `s` without the run of `c` at its end.
pub open spec fn without_trailing(s: Seq<char>, c: char) -> Seq<char>
    decreases s.len(),
{
    if s.len() > 0 && s.last() == c {
        without_trailing(s.drop_last(), c)
    } else {
        s
    }
}

/// Drops every `c` at the end of `s`.
pub fn trim_end_char(s: &str, c: char) -> (r: String)
    ensures
        r@ == without_trailing(s@, c),
{
    let chars = chars_of(s);
    let mut n: usize = chars.len();
    proof {
        assert(chars@.take(n as int) =~= s@);
    }
    while n > 0 && chars[n - 1] == c
        invariant
            n <= chars@.len(),
            without_trailing(chars@.take(n as int), c) == without_trailing(s@, c),
        decreases n,
    {
        proof {
            assert(chars@.take(n as int).drop_last() =~= chars@.take(n - 1));
        }
        n = n - 1;
    }
    proof {
        assert(chars@.take(n as int) =~= chars@.subrange(0, n as int));
    }
    string_of(&chars, 0, n)
}

// ---------------------------------------------------------------------------
// White space
// ---------------------------------------------------------------------------

/// The characters with Unicode's White_Space property.
pub open spec fn is_white(c: char) -> bool {
    let n = c as u32;
    ||| 0x9 <= n <= 0xd
    ||| n == 0x20
    ||| n == 0x85
    ||| n == 0xa0
    ||| n == 0x1680
    ||| 0x2000 <= n <= 0x200a
    ||| n == 0x2028
    ||| n == 0x2029
    ||| n == 0x202f
    ||| n == 0x205f
    ||| n == 0x3000
}

fn white(c: char) -> (r: bool)
    ensures
        r == is_white(c),
{
    let n: u32 = c as u32;
    (0x9 <= n && n <= 0xd) || n == 0x20 || n == 0x85 || n == 0xa0 || n == 0x1680 || (0x2000 <= n && n
        <= 0x200a) || n == 0x2028 || n == 0x2029 || n == 0x202f || n == 0x205f || n == 0x3000
}

/// `s` without the white space it begins with.
pub open spec fn trimmed_start(s: Seq<char>) -> Seq<char>
    decreases s.len(),
{
    if s.len() > 0 && is_white(s[0]) {
        trimmed_start(s.drop_first())
    } else {
        s
    }
}

/// `s` without the white space it ends with.
pub open spec fn trimmed_end(s: Seq<char>) -> Seq<char>
    decreases s.len(),
{
    if s.len() > 0 && is_white(s.last()) {
        trimmed_end(s.drop_last())
    } else {
        s
    }
}

/// `s` without the white space around it.
pub open spec fn trimmed(s: Seq<char>) -> Seq<char> {
    trimmed_end(trimmed_start(s))
}

/// Drops the white space around `s`.
pub fn trim(s: &str) -> (r: String)
    ensures
        r@ == trimmed(s@),
{
    let chars = chars_of(s);
    let mut i: usize = 0;
    proof {
        assert(chars@.skip(0) =~= s@);
    }
    while i < chars.len() && white(chars[i])
        invariant
            i <= chars@.len(),
            trimmed_start(chars@.skip(i as int)) == trimmed_start(s@),
        decreases chars@.len() - i,
    {
        proof {
            assert(chars@.skip(i as int).drop_first() =~= chars@.skip(i + 1));
        }
        i = i + 1;
    }
    let mut n: usize = chars.len();
    proof {
        assert(chars@.skip(i as int) == trimmed_start(s@));
        assert(chars@.subrange(i as int, n as int) =~= chars@.skip(i as int));
    }
    while n > i && white(chars[n - 1])
        invariant
            i <= n <= chars@.len(),
            trimmed_end(chars@.subrange(i as int, n as int)) == trimmed(s@),
        decreases n,
    {
        proof {
            assert(chars@.subrange(i as int, n as int).drop_last() =~= chars@.subrange(
                i as int,
                n - 1,
            ));
        }
        n = n - 1;
    }
    string_of(&chars, i, n)
}

/// Whether `s` holds nothing but white space.
pub open spec fn is_blank(s: Seq<char>) -> bool {
    forall|i: int| 0 <= i < s.len() ==> is_white(#[trigger] s[i])
}

/// Whether `s` is empty once trimmed.
pub fn blank(s: &str) -> (r: bool)
    ensures
        r == is_blank(s@),
{
    let chars = chars_of(s);
    let mut i: usize = 0;
    while i < chars.len()
        invariant
            i <= chars@.len(),
            chars@ == s@,
            forall|j: int| 0 <= j < i ==> is_white(#[trigger] chars@[j]),
        decreases chars@.len() - i,
    {
        if !white(chars[i]) {
            return false;
        }
        i = i + 1;
    }
    true
}

// ---------------------------------------------------------------------------
// Lines
// ---------------------------------------------------------------------------

/// A line without the carriage return that belongs to its ending.
pub open spec fn without_return(line: Seq<char>) -> Seq<char> {
    if line.len() > 0 && line.last() == '\r' {
        line.drop_last()
    } else {
        line
    }
}

/// The lines of `s`. A line ends with a newline, with or without a carriage return before
/// it; the last line may end without either, and then keeps its carriage return.
pub open spec fn lines_of(s: Seq<char>) -> Seq<Seq<char>>
    decreases s.len(),
{
    let n = run_before(s, '\n');
    if s.len() == 0 {
        seq![]
    } else if n >= s.len() {
        seq![s]
    } else {
        seq![without_return(s.take(n as int))] + lines_of(s.skip(n as int + 1))
    }
}

/// The characters of each string.
pub open spec fn texts(v: Seq<String>) -> Seq<Seq<char>> {
    v.map_values(|s: String| s@)
}

/// The characters of a string that may be absent.
pub open spec fn opt_text(s: Option<String>) -> Option<Seq<char>> {
    match s {
        Some(t) => Some(t@),
        None => None,
    }
}

/// A copy of a string that may be absent.
pub fn clone_text(s: &Option<String>) -> (r: Option<String>)
    ensures
        r == *s,
{
    match s {
        Some(t) => Some(t.clone()),
        None => None,
    }
}

/// A copy of a list of strings.
pub fn clone_strings(v: &Vec<String>) -> (r: Vec<String>)
    ensures
        r@ == v@,
{
    let mut r: Vec<String> = Vec::new();
    let mut i: usize = 0;
    while i < v.len()
        invariant
            i <= v@.len(),
            r@ == v@.take(i as int),
        decreases v@.len() - i,
    {
        r.push(v[i].clone());
        proof {
            assert(v@.take(i + 1) =~= v@.take(i as int).push(v@[i as int]));
        }
        i = i + 1;
    }
    proof {
        assert(v@.take(i as int) =~= v@);
    }
    r
}

/// Splits `s` into its lines.
pub fn lines(s: &str) -> (r: Vec<String>)
    ensures
        texts(r@) == lines_of(s@),
{
    let chars = chars_of(s);
    let mut r: Vec<String> = Vec::new();
    let mut start: usize = 0;
    proof {
        assert(chars@.skip(0) =~= s@);
        assert(texts(r@) + lines_of(s@) =~= lines_of(s@));
    }
    while start < chars.len()
        invariant
            start <= chars@.len(),
            texts(r@) + lines_of(chars@.skip(start as int)) == lines_of(s@),
        decreases chars@.len() - start,
    {
        let mut end: usize = start;
        while end < chars.len() && chars[end] != '\n'
            invariant
                start <= end <= chars@.len(),
                forall|j: int| start <= j < end ==> #[trigger] chars@[j] != '\n',
            decreases chars@.len() - end,
        {
            end = end + 1;
        }
        let ghost rest = chars@.skip(start as int);
        let ghost before = r@;
        proof {
            run_before_is(rest, '\n', (end - start) as nat);
        }
        if end == chars.len() {
            let line = string_of(&chars, start, end);
            r.push(line);
            proof {
                assert(line@ =~= rest);
                assert(texts(r@) =~= texts(before).push(rest));
                assert(texts(before) + lines_of(rest) =~= texts(r@));
                assert(chars@.skip(end as int) =~= Seq::<char>::empty());
                assert(texts(r@) + lines_of(chars@.skip(end as int)) =~= texts(r@));
            }
            start = end;
        } else {
            let stop: usize = if end > start && chars[end - 1] == '\r' {
                end - 1
            } else {
                end
            };
            let line = string_of(&chars, start, stop);
            r.push(line);
            proof {
                let n = (end - start) as nat;
                assert(rest.take(n as int) =~= chars@.subrange(start as int, end as int));
                assert(line@ =~= without_return(rest.take(n as int)));
                assert(rest.skip(n as int + 1) =~= chars@.skip(end + 1));
                assert(texts(r@) =~= texts(before).push(line@));
                assert(texts(before) + lines_of(rest) =~= texts(r@) + lines_of(
                    chars@.skip(end + 1),
                ));
            }
            start = end + 1;
        }
    }
    proof {
        assert(chars@.skip(start as int) =~= Seq::<char>::empty());
        assert(texts(r@) + lines_of(chars@.skip(start as int)) =~= texts(r@));
    }
    r
}

// ---------------------------------------------------------------------------
// Replacement
// ---------------------------------------------------------------------------

/// `s` with every occurrence of `needle` replaced by `mask`, found from left to right without
/// overlaps. An empty needle occurs nowhere.
pub open spec fn replaced(s: Seq<char>, needle: Seq<char>, mask: Seq<char>) -> Seq<char>
    decreases s.len(),
{
    if needle.len() == 0 || s.len() < needle.len() {
        s
    } else if needle.is_prefix_of(s) {
        mask + replaced(s.skip(needle.len() as int), needle, mask)
    } else {
        seq![s[0]] + replaced(s.drop_first(), needle, mask)
    }
}

/// Whether `needle` stands somewhere in `s`.
pub open spec fn occurs(needle: Seq<char>, s: Seq<char>) -> bool {
    exists|i: int| 0 <= i <= s.len() && #[trigger] needle.is_prefix_of(s.skip(i))
}

/// Whether `mask`, put in place of something, can never become part of a `needle`: it does not
/// stand in the needle, and the needle neither begins nor ends with one of its characters.
pub open spec fn stands_apart(needle: Seq<char>, mask: Seq<char>) -> bool {
    &&& needle.len() > 0
    &&& mask.len() > 0
    &&& !mask.contains(needle[0])
    &&& !mask.contains(needle.last())
    &&& !occurs(mask, needle)
}

/// What a replaced text begins with, the text itself began with: as long as the mask is no part
/// of it.
proof fn lemma_unmasked_start(
    s: Seq<char>,
    needle: Seq<char>,
    mask: Seq<char>,
    word: Seq<char>,
)
    requires
        mask.len() > 0,
        word.len() > 0 ==> !mask.contains(word.last()),
        !occurs(mask, word),
        word.is_prefix_of(replaced(s, needle, mask)),
    ensures
        word.is_prefix_of(s),
    decreases s.len(),
{
    let r = replaced(s, needle, mask);
    if needle.len() == 0 || s.len() < needle.len() {
    } else if needle.is_prefix_of(s) {
        if word.len() >= mask.len() {
            assert(word.skip(0).subrange(0, mask.len() as int) =~= mask);
            assert(mask.is_prefix_of(word.skip(0)));
        } else if word.len() > 0 {
            let n = word.len() - 1;
            assert(r.subrange(0, word.len() as int)[n] == word[n]);
            assert(r[n] == mask[n]);
            assert(mask.contains(mask[n]));
        }
        assert(s.subrange(0, 0) =~= word);
    } else if word.len() > 0 {
        let tail = replaced(s.drop_first(), needle, mask);
        let end = word.drop_first();
        assert(r =~= seq![s[0]] + tail);
        assert(r.subrange(0, word.len() as int)[0] == word[0]);
        assert(tail.subrange(0, word.len() - 1) =~= r.subrange(0, word.len() as int).drop_first());
        assert forall|i: int| 0 <= i <= end.len() implies !(#[trigger] mask.is_prefix_of(
            end.skip(i),
        )) by {
            assert(end.skip(i) =~= word.skip(i + 1));
        }
        lemma_unmasked_start(s.drop_first(), needle, mask, end);
        let rest = s.drop_first();
        assert(rest.subrange(0, word.len() - 1) =~= end);
        assert forall|i: int| 0 <= i < word.len() implies s[i] == word[i] by {
            if i > 0 {
                assert(rest.subrange(0, word.len() - 1)[i - 1] == end[i - 1]);
            }
        }
        assert(s.subrange(0, word.len() as int) =~= word);
    } else {
        assert(s.subrange(0, 0) =~= word);
    }
}

/// Nothing is left of a needle that the mask stands apart from.
pub proof fn nothing_left_after_replacement(s: Seq<char>, needle: Seq<char>, mask: Seq<char>)
    requires
        stands_apart(needle, mask),
    ensures
        !occurs(needle, replaced(s, needle, mask)),
    decreases s.len(),
{
    let r = replaced(s, needle, mask);
    assert forall|i: int| 0 <= i <= r.len() implies !(#[trigger] needle.is_prefix_of(r.skip(i))) by {
        if needle.is_prefix_of(r.skip(i)) {
            assert(r.skip(i).subrange(0, needle.len() as int)[0] == needle[0]);
            assert(r[i] == needle[0]);
            if s.len() < needle.len() {
            } else if needle.is_prefix_of(s) {
                let tail = replaced(s.skip(needle.len() as int), needle, mask);
                nothing_left_after_replacement(s.skip(needle.len() as int), needle, mask);
                if i < mask.len() {
                    assert(mask.contains(mask[i]));
                } else {
                    assert(r.skip(i) =~= tail.skip(i - mask.len()));
                }
            } else {
                let tail = replaced(s.drop_first(), needle, mask);
                nothing_left_after_replacement(s.drop_first(), needle, mask);
                if i > 0 {
                    assert(r.skip(i) =~= tail.skip(i - 1));
                } else {
                    assert(r.skip(0) =~= r);
                    lemma_unmasked_start(s, needle, mask, needle);
                }
            }
        }
    }
}

/// Replaces every occurrence of `needle` in `s` by `mask`.
pub fn replace_all(s: &str, needle: &str, mask: &str) -> (r: String)
    ensures
        r@ == replaced(s@, needle@, mask@),
{
    let chars = chars_of(s);
    let part = chars_of(needle);
    let mut r = String::new();
    let mut i: usize = 0;
    proof {
        assert(chars@.skip(0) =~= s@);
        assert(r@ + replaced(s@, needle@, mask@) =~= replaced(s@, needle@, mask@));
    }
    if part.len() == 0 {
        return s.to_owned();
    }
    while i < chars.len()
        invariant
            i <= chars@.len(),
            part@ == needle@,
            part@.len() > 0,
            r@ + replaced(chars@.skip(i as int), needle@, mask@) == replaced(s@, needle@, mask@),
        decreases chars@.len() - i,
    {
        let ghost rest = chars@.skip(i as int);
        let ghost before = r@;
        if has_at(&chars, i, &part) {
            r.append(mask);
            proof {
                assert(rest.skip(needle@.len() as int) =~= chars@.skip(i + needle@.len()));
                assert(before + (mask@ + replaced(
                    rest.skip(needle@.len() as int),
                    needle@,
                    mask@,
                )) =~= r@ + replaced(rest.skip(needle@.len() as int), needle@, mask@));
            }
            i = i + part.len();
        } else {
            let c = chars[i];
            r.push(c);
            proof {
                let tail = chars@.skip(i + 1);
                assert(rest.drop_first() =~= tail);
                assert(rest =~= seq![c] + tail);
                assert(replaced(rest, needle@, mask@) =~= seq![c] + replaced(tail, needle@, mask@));
                assert(before + (seq![c] + replaced(tail, needle@, mask@)) =~= r@ + replaced(
                    tail,
                    needle@,
                    mask@,
                ));
            }
            i = i + 1;
        }
    }
    proof {
        assert(chars@.skip(i as int) =~= Seq::<char>::empty());
        assert(r@ + Seq::<char>::empty() =~= r@);
    }
    r
}

// ---------------------------------------------------------------------------
// Sorting
// ---------------------------------------------------------------------------

/// Whether the texts are in order.
pub open spec fn in_order(v: Seq<Seq<char>>) -> bool {
    forall|i: int, j: int| 0 <= i < j < v.len() ==> text_at_most(#[trigger] v[i], #[trigger] v[j])
}

/// Puts strings in order.
pub fn sorted_strings(v: &Vec<String>) -> (r: Vec<String>)
    ensures
        in_order(texts(r@)),
        texts(r@).to_multiset() == texts(v@).to_multiset(),
{
    broadcast use vstd::seq_lib::group_to_multiset_ensures;

    let mut r: Vec<String> = Vec::new();
    let ghost all = texts(v@);
    let mut i: usize = 0;
    proof {
        assert(texts(r@) =~= all.take(0));
    }
    while i < v.len()
        invariant
            i <= v@.len(),
            all == texts(v@),
            in_order(texts(r@)),
            texts(r@).to_multiset() == all.take(i as int).to_multiset(),
        decreases v@.len() - i,
    {
        let ghost before = texts(r@);
        let ghost s = v@[i as int]@;
        let mut at: usize = 0;
        while at < r.len() && at_most(r[at].as_str(), v[i].as_str())
            invariant
                at <= r@.len(),
                i < v@.len(),
                before == texts(r@),
                s == v@[i as int]@,
                forall|k: int| 0 <= k < at ==> text_at_most(#[trigger] before[k], s),
            decreases r@.len() - at,
        {
            proof {
                assert(before[at as int] == r@[at as int]@);
            }
            at = at + 1;
        }
        proof {
            if at < r@.len() {
                assert(before[at as int] == r@[at as int]@);
            }
        }
        r.insert(at, v[i].clone());
        proof {
            let after = texts(r@);
            assert(after =~= before.insert(at as int, s));
            assert forall|p: int, q: int| 0 <= p < q < after.len() implies text_at_most(
                #[trigger] after[p],
                #[trigger] after[q],
            ) by {
                let bp = if p < at {
                    p
                } else {
                    p - 1
                };
                let bq = if q < at {
                    q
                } else {
                    q - 1
                };
                if p == at {
                    assert(after[q] == before[bq]);
                    text_order_total(before[at as int], s);
                    if bq > at {
                        assert(text_at_most(before[at as int], before[bq]));
                        text_order_transitive(s, before[at as int], before[bq]);
                    }
                } else if q == at {
                    assert(after[p] == before[p]);
                } else {
                    assert(after[p] == before[bp]);
                    assert(after[q] == before[bq]);
                }
            }
            assert(all.take(i + 1) =~= all.take(i as int).push(s));
            vstd::seq_lib::to_multiset_insert(before, at as int, s);
            vstd::seq_lib::to_multiset_build(all.take(i as int), s);
        }
        i = i + 1;
    }
    proof {
        assert(all.take(i as int) =~= all);
    }
    r
}

/// There is one order at most.
pub proof fn one_order(a: Seq<Seq<char>>, b: Seq<Seq<char>>)
    requires
        in_order(a),
        in_order(b),
        a.to_multiset() == b.to_multiset(),
    ensures
        a == b,
{
    let leq = |x: Seq<char>, y: Seq<char>| text_at_most(x, y);
    assert(vstd::relations::total_ordering(leq)) by {
        assert forall|x: Seq<char>| #[trigger] leq(x, x) by {
            text_order_total(x, x);
        }
        assert forall|x: Seq<char>, y: Seq<char>| #[trigger] leq(x, y) && #[trigger] leq(y, x) implies x
            == y by {
            text_order_antisymmetric(x, y);
        }
        assert forall|x: Seq<char>, y: Seq<char>, z: Seq<char>| #[trigger] leq(x, y) && #[trigger] leq(
            y,
            z,
        ) implies leq(x, z) by {
            text_order_transitive(x, y, z);
        }
        assert forall|x: Seq<char>, y: Seq<char>| #[trigger] leq(x, y) || #[trigger] leq(y, x) by {
            text_order_total(x, y);
        }
    }
    assert(vstd::relations::sorted_by(a, leq));
    assert(vstd::relations::sorted_by(b, leq));
    vstd::seq_lib::lemma_sorted_unique(a, b, leq);
}

} // verus!
