//! Text as sequences of characters: decimal numbers, white space, fields, order, paths.

use vstd::prelude::*;
use vstd::string::*;

verus! {

/// Whether a text stands on one line.
pub open spec fn on_one_line(t: Seq<char>) -> bool {
    !t.contains('\n')
}

/// Texts that stand on one line do so when they are joined.
pub proof fn joined_on_one_line(a: Seq<char>, b: Seq<char>)
    requires
        on_one_line(a),
        on_one_line(b),
    ensures
        on_one_line(a + b),
{
    assert forall|i: int| 0 <= i < (a + b).len() implies (a + b)[i] != '\n' by {
        if i < a.len() {
            assert((a + b)[i] == a[i]);
        } else {
            assert((a + b)[i] == b[i - a.len()]);
        }
    }
}

// ---------------------------------------------------------------------------
// Decimal numbers
// ---------------------------------------------------------------------------

/// The character for a digit from 0 to 9.
pub open spec fn digit(d: nat) -> char {
    (48 + d) as char
}

/// A natural number in decimal, without leading zeros.
pub open spec fn decimal(n: nat) -> Seq<char>
    decreases n,
{
    if n < 10 {
        seq![digit(n)]
    } else {
        decimal(n / 10).push(digit(n % 10))
    }
}

/// Whether `c` is an ASCII digit.
pub open spec fn is_digit(c: char) -> bool {
    '0' <= c <= '9'
}

/// Whether every character of `s` is an ASCII digit.
pub open spec fn all_digits(s: Seq<char>) -> bool {
    forall|i: int| 0 <= i < s.len() ==> is_digit(#[trigger] s[i])
}

/// The number that a sequence of digits denotes in decimal.
pub open spec fn decimal_value(s: Seq<char>) -> nat
    decreases s.len(),
{
    if s.len() == 0 {
        0
    } else {
        decimal_value(s.drop_last()) * 10 + (s.last() as nat - 48) as nat
    }
}

/// `s` without one leading plus sign.
pub open spec fn unsigned_part(s: Seq<char>) -> Seq<char> {
    if s.len() > 0 && s[0] == '+' {
        s.drop_first()
    } else {
        s
    }
}

/// What `s` denotes as a 32-bit unsigned number: an optional plus sign, then at
/// least one digit, and a value that fits.
pub open spec fn parsed_u32(s: Seq<char>) -> Option<u32> {
    let body = unsigned_part(s);
    if body.len() > 0 && all_digits(body) && decimal_value(body) <= u32::MAX {
        Some(decimal_value(body) as u32)
    } else {
        None
    }
}

fn digit_text(d: u32) -> (r: &'static str)
    requires
        d < 10,
    ensures
        r@ == seq![digit(d as nat)],
{
    proof {
        reveal_strlit("0");
        reveal_strlit("1");
        reveal_strlit("2");
        reveal_strlit("3");
        reveal_strlit("4");
        reveal_strlit("5");
        reveal_strlit("6");
        reveal_strlit("7");
        reveal_strlit("8");
        reveal_strlit("9");
    }
    let r = match d {
        0 => "0",
        1 => "1",
        2 => "2",
        3 => "3",
        4 => "4",
        5 => "5",
        6 => "6",
        7 => "7",
        8 => "8",
        _ => "9",
    };
    assert(r@ =~= seq![digit(d as nat)]);
    r
}

/// `n` in decimal.
pub fn decimal_text(n: u32) -> (r: String)
    ensures
        r@ == decimal(n as nat),
    decreases n,
{
    if n < 10 {
        digit_text(n).to_owned()
    } else {
        let r = decimal_text(n / 10).concat(digit_text(n % 10));
        assert(r@ =~= decimal(n as nat));
        r
    }
}

/// A prefix of digits denotes no more than the whole.
proof fn lemma_decimal_value_monotone(s: Seq<char>, i: int)
    requires
        0 <= i <= s.len(),
        all_digits(s),
    ensures
        decimal_value(s.take(i)) <= decimal_value(s),
    decreases s.len() - i,
{
    if i == s.len() {
        assert(s.take(i) =~= s);
    } else {
        lemma_decimal_value_monotone(s, i + 1);
        assert(s.take(i + 1).drop_last() =~= s.take(i));
        assert(is_digit(s[i]));
    }
}

/// Reads a 32-bit unsigned number.
pub fn parse_u32(s: &str) -> (r: Option<u32>)
    ensures
        r == parsed_u32(s@),
{
    let n: usize = s.unicode_len();
    let start: usize = if n > 0 && s.get_char(0) == '+' {
        1
    } else {
        0
    };
    let ghost body = unsigned_part(s@);
    assert(body =~= s@.skip(start as int));
    if n == start {
        return None;
    }
    let mut i: usize = start;
    let mut value: u64 = 0;
    while i < n
        invariant
            start <= i <= n,
            n == s@.len(),
            start <= 1,
            body == s@.skip(start as int),
            body.len() > 0,
            parsed_u32(s@) == (if all_digits(body) && decimal_value(body) <= u32::MAX {
                Some(decimal_value(body) as u32)
            } else {
                None
            }),
            all_digits(body.take(i - start)),
            value == decimal_value(body.take(i - start)),
            value <= u32::MAX,
        decreases n - i,
    {
        let c = s.get_char(i);
        assert(c == body[i - start]);
        if !('0' <= c && c <= '9') {
            assert(!is_digit(body[i - start]));
            return None;
        }
        let d: u64 = (c as u32 - 48) as u64;
        value = value * 10 + d;
        proof {
            let next = body.take(i - start + 1);
            assert(next.drop_last() =~= body.take(i - start));
            assert(next.last() == c);
            assert forall|j: int| 0 <= j < next.len() implies is_digit(#[trigger] next[j]) by {
                if j < i - start {
                    assert(next[j] == body.take(i - start)[j]);
                }
            }
            assert(value == decimal_value(next));
        }
        if value > 0xffff_ffff {
            proof {
                if all_digits(body) {
                    lemma_decimal_value_monotone(body, i - start + 1);
                }
            }
            return None;
        }
        i = i + 1;
    }
    assert(body.take(i - start) =~= body);
    Some(value as u32)
}

/// A decimal text is a sequence of digits, at least one, that denotes the number.
pub proof fn decimal_is_digits(n: nat)
    ensures
        decimal(n).len() > 0,
        all_digits(decimal(n)),
        decimal_value(decimal(n)) == n,
    decreases n,
{
    if n < 10 {
        let s = decimal(n);
        assert(s.drop_last() =~= Seq::<char>::empty());
        assert(decimal_value(s.drop_last()) == 0);
        assert(s.last() as nat == 48 + n);
    } else {
        decimal_is_digits(n / 10);
        let s = decimal(n);
        assert(s.drop_last() =~= decimal(n / 10));
        assert(s.last() as nat == 48 + n % 10);
        assert forall|i: int| 0 <= i < s.len() implies is_digit(#[trigger] s[i]) by {
            if i < s.len() - 1 {
                assert(s[i] == decimal(n / 10)[i]);
            }
        }
    }
}

/// A 32-bit number written in decimal is read back as itself.
pub proof fn decimal_reads_back(n: u32)
    ensures
        parsed_u32(decimal(n as nat)) == Some(n),
{
    decimal_is_digits(n as nat);
    let s = decimal(n as nat);
    assert(is_digit(s[0]));
}

/// Different numbers have different decimal texts.
pub proof fn decimal_injective(m: nat, n: nat)
    ensures
        decimal(m) == decimal(n) ==> m == n,
{
    decimal_is_digits(m);
    decimal_is_digits(n);
}

// ---------------------------------------------------------------------------
// Equality and prefixes
// ---------------------------------------------------------------------------

/// The characters of each text in turn.
pub open spec fn texts(v: Seq<String>) -> Seq<Seq<char>> {
    v.map_values(|t: String| t@)
}

/// Whether two texts have the same characters.
pub fn same_text(a: &str, b: &str) -> (r: bool)
    ensures
        r == (a@ == b@),
{
    a.to_owned() == b.to_owned()
}

/// Whether `s` begins with `prefix`.
pub open spec fn begins_with(s: Seq<char>, prefix: Seq<char>) -> bool {
    prefix.len() <= s.len() && s.take(prefix.len() as int) == prefix
}

/// What follows `prefix` in `s`, where `s` begins with it.
pub fn after_prefix<'a>(s: &'a str, prefix: &str) -> (r: Option<&'a str>)
    ensures
        match r {
            Some(rest) => begins_with(s@, prefix@) && rest@ == s@.skip(prefix@.len() as int),
            None => !begins_with(s@, prefix@),
        },
{
    let n: usize = s.unicode_len();
    let k: usize = prefix.unicode_len();
    if k > n {
        return None;
    }
    if same_text(s.substring_char(0, k), prefix) {
        assert(s@.subrange(0, k as int) =~= s@.take(k as int));
        let rest = s.substring_char(k, n);
        assert(rest@ =~= s@.skip(k as int));
        Some(rest)
    } else {
        assert(s@.subrange(0, k as int) =~= s@.take(k as int));
        None
    }
}

// ---------------------------------------------------------------------------
// White space
// ---------------------------------------------------------------------------

/// Whether `c` has the Unicode property `White_Space`.
pub open spec fn is_white(c: char) -> bool {
    ||| '\u{9}' <= c <= '\u{d}'
    ||| c == ' '
    ||| c == '\u{85}'
    ||| c == '\u{a0}'
    ||| c == '\u{1680}'
    ||| '\u{2000}' <= c <= '\u{200a}'
    ||| c == '\u{2028}'
    ||| c == '\u{2029}'
    ||| c == '\u{202f}'
    ||| c == '\u{205f}'
    ||| c == '\u{3000}'
}

/// `s` without its leading white space.
pub open spec fn trimmed_start(s: Seq<char>) -> Seq<char>
    decreases s.len(),
{
    if s.len() > 0 && is_white(s[0]) {
        trimmed_start(s.drop_first())
    } else {
        s
    }
}

/// `s` without its trailing white space.
pub open spec fn trimmed_end(s: Seq<char>) -> Seq<char>
    decreases s.len(),
{
    if s.len() > 0 && is_white(s.last()) {
        trimmed_end(s.drop_last())
    } else {
        s
    }
}

/// `s` without leading and trailing white space.
pub open spec fn trimmed(s: Seq<char>) -> Seq<char> {
    trimmed_end(trimmed_start(s))
}

fn is_white_char(c: char) -> (r: bool)
    ensures
        r == is_white(c),
{
    ('\u{9}' <= c && c <= '\u{d}') || c == ' ' || c == '\u{85}' || c == '\u{a0}' || c == '\u{1680}'
        || ('\u{2000}' <= c && c <= '\u{200a}') || c == '\u{2028}' || c == '\u{2029}' || c
        == '\u{202f}' || c == '\u{205f}' || c == '\u{3000}'
}

/// Removes leading and trailing white space.
pub fn trim(s: &str) -> (r: &str)
    ensures
        r@ == trimmed(s@),
{
    let n: usize = s.unicode_len();
    let mut a: usize = 0;
    assert(s@.skip(0) =~= s@);
    while a < n && is_white_char(s.get_char(a))
        invariant
            a <= n,
            n == s@.len(),
            trimmed_start(s@) == trimmed_start(s@.skip(a as int)),
        decreases n - a,
    {
        assert(s@.skip(a as int).drop_first() =~= s@.skip(a + 1));
        a = a + 1;
    }
    let ghost body = s@.skip(a as int);
    assert(trimmed_start(s@) == body);
    let mut b: usize = n;
    assert(s@.subrange(a as int, b as int) =~= body);
    while b > a && is_white_char(s.get_char(b - 1))
        invariant
            a <= b <= n,
            n == s@.len(),
            trimmed_end(body) == trimmed_end(s@.subrange(a as int, b as int)),
        decreases b - a,
    {
        assert(s@.subrange(a as int, b as int).drop_last() =~= s@.subrange(a as int, b - 1));
        b = b - 1;
    }
    s.substring_char(a, b)
}

proof fn lemma_trimmed_end_of_clean(s: Seq<char>)
    requires
        s.len() > 0 ==> !is_white(s.last()),
    ensures
        trimmed_end(s) == s,
{
}

proof fn lemma_trimmed_end_shape(s: Seq<char>)
    ensures
        trimmed_end(s).len() <= s.len(),
        trimmed_end(s) == s.take(trimmed_end(s).len() as int),
        trimmed_end(s).len() > 0 ==> !is_white(trimmed_end(s).last()),
    decreases s.len(),
{
    if s.len() > 0 && is_white(s.last()) {
        lemma_trimmed_end_shape(s.drop_last());
        let k = trimmed_end(s.drop_last()).len() as int;
        assert(s.drop_last().take(k) =~= s.take(k));
    } else {
        assert(s.take(s.len() as int) =~= s);
    }
}

proof fn lemma_trimmed_start_shape(s: Seq<char>)
    ensures
        trimmed_start(s).len() > 0 ==> !is_white(trimmed_start(s)[0]),
    decreases s.len(),
{
    if s.len() > 0 && is_white(s[0]) {
        lemma_trimmed_start_shape(s.drop_first());
    }
}

/// Trimmed text has no white space at either end, and trimming it again changes nothing.
pub proof fn trimmed_is_clean(s: Seq<char>)
    ensures
        trimmed(s).len() > 0 ==> !is_white(trimmed(s)[0]) && !is_white(trimmed(s).last()),
        trimmed(trimmed(s)) == trimmed(s),
{
    let t = trimmed_start(s);
    lemma_trimmed_start_shape(s);
    lemma_trimmed_end_shape(t);
}

/// Text with no white space at either end is left as it is by trimming.
pub proof fn trimmed_of_clean(s: Seq<char>)
    requires
        s.len() > 0 ==> !is_white(s[0]) && !is_white(s.last()),
    ensures
        trimmed(s) == s,
{
    lemma_trimmed_end_of_clean(s);
}

/// Text that does not begin with white space begins as before when it is trimmed.
pub proof fn trimmed_keeps_first(s: Seq<char>)
    requires
        s.len() > 0,
        !is_white(s[0]),
    ensures
        trimmed(s).len() > 0,
        trimmed(s)[0] == s[0],
{
    lemma_trimmed_end_shape(s);
    lemma_trimmed_end_nonempty(s, 0);
}

proof fn lemma_trimmed_end_nonempty(s: Seq<char>, i: int)
    requires
        0 <= i < s.len(),
        !is_white(s[i]),
    ensures
        trimmed_end(s).len() > i,
    decreases s.len(),
{
    if is_white(s.last()) {
        lemma_trimmed_end_nonempty(s.drop_last(), i);
    }
}

// ---------------------------------------------------------------------------
// Tab-separated fields
// ---------------------------------------------------------------------------

/// How many characters of `s` stand before its first tab (all of them where it has none).
pub open spec fn tab_index(s: Seq<char>) -> nat
    decreases s.len(),
{
    if s.len() == 0 || s[0] == '\t' {
        0
    } else {
        1 + tab_index(s.drop_first())
    }
}

/// `s` cut at its first two tabs: one, two or three fields, the last of which may
/// hold further tabs.
pub open spec fn fields(s: Seq<char>) -> Seq<Seq<char>> {
    let i = tab_index(s) as int;
    if i == s.len() {
        seq![s]
    } else {
        let rest = s.skip(i + 1);
        let j = tab_index(rest) as int;
        if j == rest.len() {
            seq![s.take(i), rest]
        } else {
            seq![s.take(i), rest.take(j), rest.skip(j + 1)]
        }
    }
}

/// The index of the first tab is where it should be.
proof fn lemma_tab_index(s: Seq<char>, i: int)
    requires
        0 <= i <= s.len(),
        forall|k: int| 0 <= k < i ==> s[k] != '\t',
        i < s.len() ==> s[i] == '\t',
    ensures
        tab_index(s) == i,
    decreases s.len(),
{
    if i > 0 {
        let t = s.drop_first();
        assert forall|k: int| 0 <= k < i - 1 implies t[k] != '\t' by {
            assert(t[k] == s[k + 1]);
        }
        lemma_tab_index(t, i - 1);
    }
}

fn find_tab(s: &str) -> (r: usize)
    ensures
        r == tab_index(s@),
        r <= s@.len(),
{
    let n: usize = s.unicode_len();
    let mut i: usize = 0;
    while i < n && s.get_char(i) != '\t'
        invariant
            i <= n,
            n == s@.len(),
            forall|k: int| 0 <= k < i ==> s@[k] != '\t',
        decreases n - i,
    {
        i = i + 1;
    }
    proof {
        lemma_tab_index(s@, i as int);
    }
    i
}

/// Cuts `s` at its first two tabs.
pub fn split_fields(s: &str) -> (r: Vec<String>)
    ensures
        texts(r@) == fields(s@),
{
    let n: usize = s.unicode_len();
    let i: usize = find_tab(s);
    let mut r: Vec<String> = Vec::new();
    if i == n {
        r.push(s.to_owned());
        assert(texts(r@) =~= fields(s@));
        return r;
    }
    let head = s.substring_char(0, i);
    assert(head@ =~= s@.take(i as int));
    let rest = s.substring_char(i + 1, n);
    assert(rest@ =~= s@.skip(i + 1));
    r.push(head.to_owned());
    let m: usize = rest.unicode_len();
    let j: usize = find_tab(rest);
    if j == m {
        r.push(rest.to_owned());
    } else {
        let second = rest.substring_char(0, j);
        assert(second@ =~= rest@.take(j as int));
        let third = rest.substring_char(j + 1, m);
        assert(third@ =~= rest@.skip(j + 1));
        r.push(second.to_owned());
        r.push(third.to_owned());
    }
    assert(texts(r@) =~= fields(s@));
    r
}

/// Three fields joined by tabs are cut apart again, where the first two hold no tab.
pub proof fn fields_of_three(a: Seq<char>, b: Seq<char>, c: Seq<char>)
    requires
        !a.contains('\t'),
        !b.contains('\t'),
    ensures
        fields(a + seq!['\t'] + b + seq!['\t'] + c) == seq![a, b, c],
{
    let s = a + seq!['\t'] + b + seq!['\t'] + c;
    assert forall|k: int| 0 <= k < a.len() implies s[k] != '\t' by {
        assert(s[k] == a[k]);
    }
    lemma_tab_index(s, a.len() as int);
    let rest = s.skip(a.len() as int + 1);
    assert(rest =~= b + seq!['\t'] + c);
    assert forall|k: int| 0 <= k < b.len() implies rest[k] != '\t' by {
        assert(rest[k] == b[k]);
    }
    lemma_tab_index(rest, b.len() as int);
    assert(s.take(a.len() as int) =~= a);
    assert(rest.take(b.len() as int) =~= b);
    assert(rest.skip(b.len() as int + 1) =~= c);
}

/// Text without a tab is a single field.
pub proof fn fields_of_one(a: Seq<char>)
    requires
        !a.contains('\t'),
    ensures
        fields(a) == seq![a],
{
    lemma_tab_index(a, a.len() as int);
}

// ---------------------------------------------------------------------------
// Order
// ---------------------------------------------------------------------------

/// Whether `a` stands before `b` in dictionary order, character by character.
pub open spec fn before(a: Seq<char>, b: Seq<char>) -> bool
    decreases a.len(),
{
    if b.len() == 0 {
        false
    } else if a.len() == 0 {
        true
    } else if a[0] != b[0] {
        a[0] < b[0]
    } else {
        before(a.drop_first(), b.drop_first())
    }
}

/// Dictionary order is irreflexive and total: of two texts, exactly one of "before",
/// "the same" and "after" holds.
pub proof fn before_total(a: Seq<char>, b: Seq<char>)
    ensures
        a == b ==> !before(a, b) && !before(b, a),
        a != b ==> before(a, b) != before(b, a),
    decreases a.len(),
{
    if a.len() > 0 && b.len() > 0 && a[0] == b[0] {
        before_total(a.drop_first(), b.drop_first());
        if a.drop_first() == b.drop_first() {
            assert(a =~= seq![a[0]] + a.drop_first());
            assert(b =~= seq![b[0]] + b.drop_first());
        }
    } else if a.len() == 0 && b.len() == 0 {
        assert(a =~= b);
    }
}

/// Dictionary order is transitive.
pub proof fn before_transitive(a: Seq<char>, b: Seq<char>, c: Seq<char>)
    requires
        before(a, b),
        before(b, c),
    ensures
        before(a, c),
    decreases a.len(),
{
    if a.len() > 0 && a[0] == b[0] && b[0] == c[0] {
        before_transitive(a.drop_first(), b.drop_first(), c.drop_first());
    }
}

/// Whether `a` stands before `b` in dictionary order.
pub fn text_before(a: &str, b: &str) -> (r: bool)
    ensures
        r == before(a@, b@),
{
    let n: usize = a.unicode_len();
    let m: usize = b.unicode_len();
    let mut i: usize = 0;
    assert(a@.skip(0) =~= a@);
    assert(b@.skip(0) =~= b@);
    while i < n && i < m
        invariant
            i <= n,
            i <= m,
            n == a@.len(),
            m == b@.len(),
            before(a@, b@) == before(a@.skip(i as int), b@.skip(i as int)),
        decreases n - i,
    {
        let c = a.get_char(i);
        let d = b.get_char(i);
        if c != d {
            return c < d;
        }
        assert(a@.skip(i as int).drop_first() =~= a@.skip(i + 1));
        assert(b@.skip(i as int).drop_first() =~= b@.skip(i + 1));
        i = i + 1;
    }
    i < m
}

// ---------------------------------------------------------------------------
// Paths
// ---------------------------------------------------------------------------

/// The path `rel` seen from `base`: an absolute `rel` replaces `base`; otherwise the two
/// are joined by a slash, unless `base` is empty or ends in one.
pub open spec fn joined(base: Seq<char>, rel: Seq<char>) -> Seq<char> {
    if rel.len() > 0 && rel[0] == '/' {
        rel
    } else if base.len() == 0 || base.last() == '/' {
        base + rel
    } else {
        base + "/"@ + rel
    }
}

/// Joins two paths.
pub fn join_path(base: &str, rel: &str) -> (r: String)
    ensures
        r@ == joined(base@, rel@),
{
    if rel.unicode_len() > 0 && rel.get_char(0) == '/' {
        rel.to_owned()
    } else {
        let n: usize = base.unicode_len();
        if n == 0 || base.get_char(n - 1) == '/' {
            base.to_owned().concat(rel)
        } else {
            base.to_owned().concat("/").concat(rel)
        }
    }
}

// ---------------------------------------------------------------------------
// What these functions are for
// ---------------------------------------------------------------------------

/// A decimal text has no leading zero, unless it is the number zero; and each digit that is
/// put behind a sequence of digits makes it ten times as much and as much more as it says.
pub proof fn decimal_is_canonical(n: nat, s: Seq<char>, c: char)
    requires
        '0' <= c <= '9',
    ensures
        decimal(n).len() > 1 ==> decimal(n)[0] != '0',
        decimal(n) == seq!['0'] <==> n == 0,
        forall|i: int| 0 <= i < decimal(n).len() ==> '0' <= #[trigger] decimal(n)[i] <= '9',
        decimal_value(Seq::empty()) == 0,
        decimal_value(s.push(c)) == 10 * decimal_value(s) + (c as int - '0' as int),
        decimal_value(decimal(n)) == n,
    decreases n,
{
    decimal_is_digits(n);
    assert forall|i: int| 0 <= i < decimal(n).len() implies '0' <= #[trigger] decimal(n)[i]
        <= '9' by {
        assert(is_digit(decimal(n)[i]));
    }
    assert(s.push(c).drop_last() =~= s);
    if n >= 10 {
        decimal_is_canonical(n / 10, s, c);
        decimal_is_digits(n / 10);
        assert(decimal(n)[0] == decimal(n / 10)[0]);
        if decimal(n / 10).len() == 1 {
            assert(n / 10 < 10) by {
                if n / 10 >= 10 {
                    decimal_is_digits(n / 10 / 10);
                }
            }
        }
    } else {
        assert(decimal(n)[0] as nat == 48 + n);
    }
}

/// A text is read as the number `v` exactly where it consists of at least one digit, with or
/// without a plus sign before them, and these denote `v`.
pub proof fn number_is_read(s: Seq<char>, v: u32)
    ensures
        parsed_u32(s) == Some(v) <==> exists|body: Seq<char>|
            (s == body || s == seq!['+'] + body) && body.len() > 0 && (forall|i: int|
                0 <= i < body.len() ==> '0' <= #[trigger] body[i] <= '9') && #[trigger]
            decimal_value(body) == v,
{
    if parsed_u32(s) == Some(v) {
        let body = unsigned_part(s);
        assert forall|i: int| 0 <= i < body.len() implies '0' <= #[trigger] body[i] <= '9' by {
            assert(is_digit(body[i]));
        }
        if s[0] == '+' {
            assert(s =~= seq!['+'] + body);
        }
        assert(decimal_value(body) == v);
    }
    if exists|body: Seq<char>|
        (s == body || s == seq!['+'] + body) && body.len() > 0 && (forall|i: int|
            0 <= i < body.len() ==> '0' <= #[trigger] body[i] <= '9') && #[trigger] decimal_value(
            body,
        ) == v {
        let body = choose|body: Seq<char>|
            (s == body || s == seq!['+'] + body) && body.len() > 0 && (forall|i: int|
                0 <= i < body.len() ==> '0' <= #[trigger] body[i] <= '9') && #[trigger]
            decimal_value(body) == v;
        assert('0' <= body[0] <= '9');
        assert(unsigned_part(s) =~= body);
    }
}

/// Trimming cuts off white space alone: what is left stands in the text as one piece, with
/// nothing but white space before and behind it.
pub proof fn trimming_cuts_white_alone(s: Seq<char>)
    ensures
        exists|i: int, j: int|
            0 <= i <= j <= s.len() && trimmed(s) == #[trigger] s.subrange(i, j) && (forall|k: int|
                0 <= k < i ==> is_white(#[trigger] s[k])) && (forall|k: int|
                j <= k < s.len() ==> is_white(#[trigger] s[k])),
        trimmed(s).len() > 0 ==> !is_white(trimmed(s)[0]) && !is_white(trimmed(s).last()),
{
    trimmed_is_clean(s);
    let t = trimmed_start(s);
    let i = s.len() - t.len();
    lemma_start_cut(s);
    lemma_end_cut(t);
    let j = i + trimmed_end(t).len();
    assert(trimmed(s) =~= s.subrange(i, j)) by {
        lemma_trimmed_end_shape(t);
    }
    assert forall|k: int| j <= k < s.len() implies is_white(#[trigger] s[k]) by {
        assert(s[k] == t[k - i]);
    }
}

proof fn lemma_start_cut(s: Seq<char>)
    ensures
        trimmed_start(s).len() <= s.len(),
        trimmed_start(s) == s.skip(s.len() - trimmed_start(s).len()),
        forall|k: int|
            0 <= k < s.len() - trimmed_start(s).len() ==> is_white(#[trigger] s[k]),
    decreases s.len(),
{
    if s.len() > 0 && is_white(s[0]) {
        let t = s.drop_first();
        lemma_start_cut(t);
        assert(trimmed_start(s) =~= s.skip(s.len() - trimmed_start(s).len()));
        assert forall|k: int| 0 <= k < s.len() - trimmed_start(s).len() implies is_white(
            #[trigger] s[k],
        ) by {
            if k > 0 {
                assert(s[k] == t[k - 1]);
            }
        }
    } else {
        assert(s.skip(0) =~= s);
    }
}

proof fn lemma_end_cut(s: Seq<char>)
    ensures
        trimmed_end(s).len() <= s.len(),
        forall|k: int| trimmed_end(s).len() <= k < s.len() ==> is_white(#[trigger] s[k]),
    decreases s.len(),
{
    if s.len() > 0 && is_white(s.last()) {
        let t = s.drop_last();
        lemma_end_cut(t);
        assert forall|k: int| trimmed_end(s).len() <= k < s.len() implies is_white(
            #[trigger] s[k],
        ) by {
            if k < t.len() {
                assert(s[k] == t[k]);
            }
        }
    }
}

/// The fields of a text, joined by tabs, are the text again. There are at most three, only
/// the third of which may hold a tab.
pub proof fn fields_are_the_text(s: Seq<char>)
    ensures
        1 <= fields(s).len() <= 3,
        fields(s).len() == 1 ==> s == fields(s)[0],
        fields(s).len() == 2 ==> s == fields(s)[0] + seq!['\t'] + fields(s)[1],
        fields(s).len() == 3 ==> s == fields(s)[0] + seq!['\t'] + fields(s)[1] + seq!['\t']
            + fields(s)[2],
        forall|n: int|
            0 <= n < fields(s).len() && n < 2 ==> !(#[trigger] fields(s)[n]).contains('\t'),
{
    lemma_tab_found(s);
    let i = tab_index(s) as int;
    if i < s.len() {
        let rest = s.skip(i + 1);
        lemma_tab_found(rest);
        let j = tab_index(rest) as int;
        assert(s =~= s.take(i) + seq!['\t'] + rest);
        if j < rest.len() {
            assert(rest =~= rest.take(j) + seq!['\t'] + rest.skip(j + 1));
            assert(s =~= s.take(i) + seq!['\t'] + rest.take(j) + seq!['\t'] + rest.skip(j + 1));
        }
    }
}

proof fn lemma_tab_found(s: Seq<char>)
    ensures
        tab_index(s) <= s.len(),
        forall|k: int| 0 <= k < tab_index(s) ==> #[trigger] s[k] != '\t',
        tab_index(s) < s.len() ==> s[tab_index(s) as int] == '\t',
        !s.take(tab_index(s) as int).contains('\t'),
    decreases s.len(),
{
    if s.len() > 0 && s[0] != '\t' {
        let t = s.drop_first();
        lemma_tab_found(t);
        assert forall|k: int| 0 <= k < tab_index(s) implies #[trigger] s[k] != '\t' by {
            if k > 0 {
                assert(s[k] == t[k - 1]);
            }
        }
    }
}

/// Where two texts first differ decides which is first: the one that ends there, or else the
/// one with the smaller character there.
pub proof fn first_difference_decides(a: Seq<char>, b: Seq<char>, n: int)
    requires
        0 <= n <= a.len(),
        n <= b.len(),
        forall|k: int| 0 <= k < n ==> #[trigger] a[k] == b[k],
        n == a.len() || n == b.len() || a[n] != b[n],
    ensures
        before(a, b) <==> n < b.len() && (n == a.len() || a[n] < b[n]),
    decreases n,
{
    if n > 0 {
        let x = a.drop_first();
        let y = b.drop_first();
        assert(a[0] == b[0]);
        assert forall|k: int| 0 <= k < n - 1 implies #[trigger] x[k] == y[k] by {
            assert(a[k + 1] == b[k + 1]);
        }
        first_difference_decides(x, y, n - 1);
    }
}

/// An absolute path stays what it is, wherever it is seen from; a relative one is put behind
/// the base, with one slash between them, which may be the last of the base.
pub proof fn joined_paths_meet(base: Seq<char>, rel: Seq<char>)
    ensures
        rel.len() > 0 && rel[0] == '/' ==> joined(base, rel) == rel,
        joined(Seq::empty(), rel) == rel,
        !(rel.len() > 0 && rel[0] == '/') && base.len() > 0 && base.last() != '/' ==> joined(
            base,
            rel,
        ) == base + seq!['/'] + rel && joined(base.push('/'), rel) == joined(base, rel),
{
    reveal_strlit("/");
    assert("/"@ =~= seq!['/']);
    assert(Seq::<char>::empty() + rel =~= rel);
    assert(base.push('/') + rel =~= base + seq!['/'] + rel);
}

/// Whether `s` ends with `suffix`.
pub open spec fn ends_with(s: Seq<char>, suffix: Seq<char>) -> bool {
    suffix.len() <= s.len() && s.skip(s.len() - suffix.len()) == suffix
}

/// Whether `value` stands somewhere in `s`, right behind `head` and right before `tail`.
pub open spec fn stands_between(
    s: Seq<char>,
    head: Seq<char>,
    value: Seq<char>,
    tail: Seq<char>,
) -> bool {
    exists|p: Seq<char>, q: Seq<char>| s == #[trigger] (p + head + value + tail + q)
}

/// What stands between two texts stands between the end of the one and the beginning of the
/// other.
pub proof fn stands_between_ends(
    a: Seq<char>,
    value: Seq<char>,
    b: Seq<char>,
    head: Seq<char>,
    tail: Seq<char>,
)
    requires
        ends_with(a, head),
        begins_with(b, tail),
    ensures
        stands_between(a + value + b, head, value, tail),
{
    let p = a.take(a.len() - head.len());
    let q = b.skip(tail.len() as int);
    assert(a =~= p + head);
    assert(b =~= tail + q);
    assert(a + value + b =~= p + head + value + tail + q);
}

/// Texts without a quotation mark that are followed by one can be told from what follows.
pub proof fn quoted_is_told_apart(x: Seq<char>, u: Seq<char>, y: Seq<char>, v: Seq<char>)
    requires
        x + u == y + v,
        !x.contains('"'),
        !y.contains('"'),
        u.len() > 0,
        v.len() > 0,
        u[0] == '"',
        v[0] == '"',
    ensures
        x == y,
        u == v,
{
    let s = x + u;
    let t = y + v;
    assert(s[x.len() as int] == '"');
    assert(t[y.len() as int] == '"');
    if x.len() < y.len() {
        assert(t[x.len() as int] == y[x.len() as int]);
    } else if y.len() < x.len() {
        assert(s[y.len() as int] == x[y.len() as int]);
    }
    assert(x =~= s.take(x.len() as int));
    assert(y =~= t.take(y.len() as int));
    assert(u =~= s.skip(x.len() as int));
    assert(v =~= t.skip(y.len() as int));
}

/// What stands before the first tab is the first field; and what follows is the second and last
/// one where it holds no tab.
pub proof fn fields_of_two(a: Seq<char>, rest: Seq<char>)
    requires
        !a.contains('\t'),
    ensures
        fields(a + seq!['\t'] + rest)[0] == a,
        !rest.contains('\t') ==> fields(a + seq!['\t'] + rest) == seq![a, rest],
{
    let s = a + seq!['\t'] + rest;
    assert forall|k: int| 0 <= k < a.len() implies s[k] != '\t' by {
        assert(s[k] == a[k]);
    }
    lemma_tab_index(s, a.len() as int);
    assert(s.take(a.len() as int) =~= a);
    assert(s.skip(a.len() as int + 1) =~= rest);
    if !rest.contains('\t') {
        lemma_tab_index(rest, rest.len() as int);
    }
}

/// Whether, of the texts `p` in turn, one ends with `head` and the next begins with `tail`.
pub open spec fn gap(p: Seq<Seq<char>>, k: int, head: Seq<char>, tail: Seq<char>) -> bool {
    0 <= k < p.len() - 1 && ends_with(p[k], head) && begins_with(p[k + 1], tail)
}

/// A gap is where the characters say so.
pub proof fn gap_by_characters(p: Seq<Seq<char>>, k: int, head: Seq<char>, tail: Seq<char>)
    requires
        0 <= k < p.len() - 1,
        head.len() <= p[k].len(),
        tail.len() <= p[k + 1].len(),
        forall|i: int|
            0 <= i < head.len() ==> p[k][p[k].len() - head.len() + i] == #[trigger] head[i],
        forall|i: int| 0 <= i < tail.len() ==> p[k + 1][i] == #[trigger] tail[i],
    ensures
        gap(p, k, head, tail),
{
    assert(p[k].skip(p[k].len() - head.len()) =~= head);
    assert(p[k + 1].take(tail.len() as int) =~= tail);
}

} // verus!
