//! Text helpers: decimal rendering of integers, thousands grouping,
//! joining, and the std string conversions the library relies on.

use vstd::prelude::*;

verus! {

/// The character of a decimal digit.
pub open spec fn digit_char(d: int) -> char {
    if d == 0 { '0' }
    else if d == 1 { '1' }
    else if d == 2 { '2' }
    else if d == 3 { '3' }
    else if d == 4 { '4' }
    else if d == 5 { '5' }
    else if d == 6 { '6' }
    else if d == 7 { '7' }
    else if d == 8 { '8' }
    else { '9' }
}

/// The decimal digits of a natural number, most significant first, without
/// leading zeros (zero itself is "0").
pub open spec fn digits_of(n: nat) -> Seq<char>
    decreases n,
{
    if n < 10 {
        seq![digit_char(n as int)]
    } else {
        digits_of(n / 10).push(digit_char((n % 10) as int))
    }
}

/// The decimal text of an integer, as `i64::to_string` writes it.
pub open spec fn decimal(n: int) -> Seq<char> {
    if n < 0 {
        seq!['-'] + digits_of((-n) as nat)
    } else {
        digits_of(n as nat)
    }
}

/// Calls `String::push`, which appends the character at the end of the
/// string; the contract says exactly that.
#[verifier::external_body]
pub(crate) fn push_char(s: &mut String, c: char)
    ensures
        final(s)@ == old(s)@.push(c),
{
    s.push(c);
}

fn digit(d: u64) -> (c: char)
    requires
        d < 10,
    ensures
        c == digit_char(d as int),
{
    if d == 0 { '0' }
    else if d == 1 { '1' }
    else if d == 2 { '2' }
    else if d == 3 { '3' }
    else if d == 4 { '4' }
    else if d == 5 { '5' }
    else if d == 6 { '6' }
    else if d == 7 { '7' }
    else if d == 8 { '8' }
    else { '9' }
}

fn push_digits(out: &mut Vec<char>, m: u64)
    ensures
        final(out)@ == old(out)@ + digits_of(m as nat),
    decreases m,
{
    if m >= 10 {
        push_digits(out, m / 10);
    }
    out.push(digit(m % 10));
    proof {
        if m >= 10 {
            assert(digits_of(m as nat) == digits_of((m / 10) as nat).push(digit_char((m % 10) as int)));
        }
    }
}

/// The decimal text of `n` as a vector of characters.
pub fn decimal_chars(n: i64) -> (out: Vec<char>)
    ensures
        out@ == decimal(n as int),
{
    let mut out: Vec<char> = Vec::new();
    if n < 0 {
        out.push('-');
        let magnitude: u64 = ((-(n + 1)) as u64) + 1;
        push_digits(&mut out, magnitude);
    } else {
        push_digits(&mut out, n as u64);
    }
    out
}


/// Whether a character is an ASCII decimal digit.
pub open spec fn is_ascii_digit(c: char) -> bool {
    48 <= (c as u32) <= 57
}

/// The value of a decimal digit character.
pub open spec fn digit_value(c: char) -> int {
    (c as u32) as int - 48
}

/// The value of a string of decimal digits, most significant first.
pub open spec fn digits_value(s: Seq<char>) -> int
    decreases s.len(),
{
    if s.len() == 0 { 0 } else { digits_value(s.drop_last()) * 10 + digit_value(s.last()) }
}

/// The value of an optionally signed decimal text.
pub open spec fn decimal_value(s: Seq<char>) -> int {
    if s.len() > 0 && s[0] == '-' { -digits_value(s.drop_first()) } else { digits_value(s) }
}

proof fn digit_char_reads_back(d: int)
    requires
        0 <= d < 10,
    ensures
        digit_value(digit_char(d)) == d,
        is_ascii_digit(digit_char(d)),
{
}

proof fn digits_read_back(n: nat)
    ensures
        digits_value(digits_of(n)) == n,
        digits_of(n).len() > 0,
        forall|i: int| 0 <= i < digits_of(n).len() ==> is_ascii_digit(#[trigger] digits_of(n)[i]),
        digits_of(n).len() > 1 ==> digits_of(n)[0] != '0',
        n >= 10 ==> digits_of(n).len() > 1,
    decreases n,
{
    if n < 10 {
        digit_char_reads_back(n as int);
        assert(seq![digit_char(n as int)].drop_last() =~= Seq::<char>::empty());
        assert(digits_value(Seq::<char>::empty()) == 0);
    } else {
        digits_read_back(n / 10);
        digit_char_reads_back((n % 10) as int);
        let p = digits_of(n / 10);
        let d = digits_of(n);
        assert(d == p.push(digit_char((n % 10) as int)));
        assert(d.drop_last() =~= p);
        assert forall|i: int| 0 <= i < d.len() implies is_ascii_digit(#[trigger] d[i]) by {
            if i < p.len() {
                assert(d[i] == p[i]);
            }
        }
        assert(d.last() == digit_char((n % 10) as int));
        assert(digits_value(d) == digits_value(p) * 10 + digit_value(d.last()));
        assert((n / 10) * 10 + n % 10 == n);
        assert(d[0] == p[0]);
        if n / 10 < 10 {
            assert(p == seq![digit_char((n / 10) as int)]);
            assert(digit_char((n / 10) as int) != '0');
        }
    }
}

/// The decimal text of an integer reads back as that integer: it is an
/// optional minus sign (exactly when the integer is negative) followed by
/// ASCII digits, with no leading zero unless it is "0"; in particular it holds
/// no separator.
pub proof fn decimal_reads_back(n: int)
    ensures
        decimal_value(decimal(n)) == n,
        (decimal(n)[0] == '-') <==> n < 0,
        forall|i: int| 0 <= i < decimal(n).len() && !(i == 0 && n < 0) ==> is_ascii_digit(#[trigger] decimal(n)[i]),
        forall|i: int| 0 <= i < decimal(n).len() ==> #[trigger] decimal(n)[i] != ',',
        n >= 0 && decimal(n).len() > 1 ==> decimal(n)[0] != '0',
{
    if n < 0 {
        let m = (-n) as nat;
        digits_read_back(m);
        let d = decimal(n);
        assert(d.drop_first() =~= digits_of(m));
        assert forall|i: int| 0 <= i < d.len() && !(i == 0 && n < 0) implies is_ascii_digit(#[trigger] d[i]) by {
            assert(d[i] == digits_of(m)[i - 1]);
        }
        assert forall|i: int| 0 <= i < d.len() implies #[trigger] d[i] != ',' by {
            if i > 0 {
                assert(d[i] == digits_of(m)[i - 1]);
            }
        }
    } else {
        digits_read_back(n as nat);
        assert(is_ascii_digit(decimal(n)[0]));
        assert forall|i: int| 0 <= i < decimal(n).len() implies #[trigger] decimal(n)[i] != ',' by {
            assert(is_ascii_digit(decimal(n)[i]));
        }
    }
}

/// Whether a separator goes in front of position `i` of a decimal text `c`:
/// not before the first character, only where a multiple of three characters
/// follows, and never in front of a minus sign.
pub open spec fn separator_before(c: Seq<char>, i: int) -> bool {
    i > 0 && (c.len() - i) % 3 == 0 && c[i] != '-'
}

/// The first `k` characters of `c`, each preceded by a comma where
/// `separator_before` says so.
pub open spec fn grouped_prefix(c: Seq<char>, k: nat) -> Seq<char>
    decreases k,
{
    if k == 0 {
        Seq::empty()
    } else {
        let i = k - 1;
        let sep: Seq<char> = if separator_before(c, i) { seq![','] } else { Seq::empty() };
        grouped_prefix(c, (k - 1) as nat) + sep + seq![c[i]]
    }
}

/// A decimal text with thousands separators inserted.
pub open spec fn group_thousands(c: Seq<char>) -> Seq<char> {
    grouped_prefix(c, c.len())
}

/// The text `format_number` gives for `n`.
pub open spec fn formatted_number(n: int) -> Seq<char> {
    group_thousands(decimal(n))
}

/// Renders `n` in decimal with a comma before every group of three digits
/// counted from the right, e.g. 1234567 as "1,234,567".
pub fn format_number(n: i64) -> (s: String)
    ensures
        s@ == formatted_number(n as int),
{
    let chars = decimal_chars(n);
    let len = chars.len();
    let mut result = String::new();
    let mut i: usize = 0;
    while i < len
        invariant
            len == chars@.len(),
            chars@ == decimal(n as int),
            i <= len,
            result@ == grouped_prefix(chars@, i as nat),
        decreases len - i,
    {
        let ch = chars[i];
        if i > 0 && (len - i) % 3 == 0 && ch != '-' {
            push_char(&mut result, ',');
        }
        push_char(&mut result, ch);
        i = i + 1;
    }
    result
}


/// A text with its commas removed.
pub open spec fn without_commas(s: Seq<char>) -> Seq<char>
    decreases s.len(),
{
    if s.len() == 0 {
        s
    } else {
        let rest = without_commas(s.drop_last());
        if s.last() == ',' { rest } else { rest.push(s.last()) }
    }
}

proof fn without_commas_append(a: Seq<char>, b: Seq<char>)
    ensures
        without_commas(a + b) == without_commas(a) + without_commas(b),
    decreases b.len(),
{
    if b.len() == 0 {
        assert(a + b =~= a);
        assert(without_commas(b) =~= Seq::<char>::empty());
        assert(without_commas(a) + without_commas(b) =~= without_commas(a));
    } else {
        without_commas_append(a, b.drop_last());
        assert((a + b).drop_last() =~= a + b.drop_last());
        assert((a + b).last() == b.last());
        if b.last() != ',' {
            assert(without_commas(a) + without_commas(b.drop_last()).push(b.last())
                =~= (without_commas(a) + without_commas(b.drop_last())).push(b.last()));
        }
    }
}

proof fn digits_have_no_comma(n: nat)
    ensures
        forall|i: int| 0 <= i < digits_of(n).len() ==> #[trigger] digits_of(n)[i] != ',',
    decreases n,
{
    if n >= 10 {
        digits_have_no_comma(n / 10);
        let d = digits_of(n);
        let p = digits_of(n / 10);
        assert(d == p.push(digit_char((n % 10) as int)));
        assert forall|i: int| 0 <= i < d.len() implies #[trigger] d[i] != ',' by {
            if i < p.len() {
                assert(d[i] == p[i]);
            }
        }
    }
}

proof fn decimal_has_no_comma(n: int)
    ensures
        forall|i: int| 0 <= i < decimal(n).len() ==> #[trigger] decimal(n)[i] != ',',
{
    if n < 0 {
        digits_have_no_comma((-n) as nat);
        assert forall|i: int| 0 <= i < decimal(n).len() implies #[trigger] decimal(n)[i] != ',' by {
            if i > 0 {
                assert(decimal(n)[i] == digits_of((-n) as nat)[i - 1]);
            }
        }
    } else {
        digits_have_no_comma(n as nat);
    }
}

proof fn grouped_prefix_strips_to_prefix(c: Seq<char>, k: nat)
    requires
        k <= c.len(),
        forall|i: int| 0 <= i < c.len() ==> #[trigger] c[i] != ',',
    ensures
        without_commas(grouped_prefix(c, k)) == c.take(k as int),
    decreases k,
{
    if k > 0 {
        let i = k - 1;
        grouped_prefix_strips_to_prefix(c, (k - 1) as nat);
        let sep: Seq<char> = if separator_before(c, i) { seq![','] } else { Seq::empty() };
        let prev = grouped_prefix(c, (k - 1) as nat);
        assert(grouped_prefix(c, k) == prev + sep + seq![c[i]]);
        without_commas_append(prev + sep, seq![c[i]]);
        without_commas_append(prev, sep);
        assert(without_commas(Seq::<char>::empty()) =~= Seq::<char>::empty());
        assert(without_commas(sep) =~= Seq::<char>::empty()) by {
            if separator_before(c, i) {
                assert(sep.drop_last() =~= Seq::<char>::empty());
            }
        }
        assert(seq![c[i]].drop_last() =~= Seq::<char>::empty());
        assert(c[i] != ',');
        assert(without_commas(seq![c[i]]) =~= seq![c[i]]);
        assert(c.take(k as int) =~= c.take(i).push(c[i]));
        assert(without_commas(prev) + without_commas(sep) =~= without_commas(prev));
    }
}

/// Removing the separators from a formatted number gives back its plain
/// decimal text, for every `i64`.
pub proof fn format_number_only_adds_separators(n: i64)
    ensures
        without_commas(formatted_number(n as int)) == decimal(n as int),
{
    let c = decimal(n as int);
    decimal_has_no_comma(n as int);
    grouped_prefix_strips_to_prefix(c, c.len());
    assert(c.take(c.len() as int) =~= c);
}

proof fn digits_split_last_three(n: nat)
    requires
        n >= 1000,
    ensures
        digits_of(n) == digits_of(n / 1000)
            + seq![digit_char(((n / 100) % 10) as int), digit_char(((n / 10) % 10) as int), digit_char((n % 10) as int)],
{
    vstd::arithmetic::div_mod::lemma_div_denominator(n as int, 10, 10);
    vstd::arithmetic::div_mod::lemma_div_denominator(n as int, 100, 10);
    assert((n / 10) / 10 == n / 100);
    assert((n / 100) / 10 == n / 1000);
    let a = digits_of(n / 1000);
    assert(digits_of(n / 100) == a.push(digit_char(((n / 100) % 10) as int)));
    assert(digits_of(n / 10) == digits_of(n / 100).push(digit_char(((n / 10) % 10) as int)));
    assert(digits_of(n) == digits_of(n / 10).push(digit_char((n % 10) as int)));
    assert(digits_of(n) =~= a
        + seq![digit_char(((n / 100) % 10) as int), digit_char(((n / 10) % 10) as int), digit_char((n % 10) as int)]);
}

proof fn grouped_prefix_of_extension(c: Seq<char>, t: Seq<char>, k: nat)
    requires
        k <= c.len(),
        t.len() % 3 == 0,
    ensures
        grouped_prefix(c + t, k) == grouped_prefix(c, k),
    decreases k,
{
    if k > 0 {
        grouped_prefix_of_extension(c, t, (k - 1) as nat);
        let i = k - 1;
        assert((c + t)[i] == c[i]);
        assert(((c + t).len() - i) % 3 == (c.len() - i) % 3);
        assert(separator_before(c + t, i) == separator_before(c, i));
    }
}

/// Thousands grouping, group by group: a number below 1,000 is written
/// without separator, and a larger one is the grouping of its thousands, a
/// comma, and its last three digits.
pub proof fn format_number_groups_by_three(n: int)
    requires
        n >= 0,
    ensures
        n < 1000 ==> formatted_number(n) == decimal(n),
        n >= 1000 ==> formatted_number(n) == formatted_number(n / 1000) + seq![',']
            + decimal(n).subrange(decimal(n).len() - 3, decimal(n).len() as int),
{
    let c = decimal(n);
    if n < 1000 {
        digits_read_back(n as nat);
        assert(c.len() <= 3) by {
            if n >= 10 {
                assert(digits_of(n as nat) == digits_of((n / 10) as nat).push(digit_char((n % 10) as int)));
                if n >= 100 {
                    assert(digits_of((n / 10) as nat) == digits_of((n / 100) as nat).push(digit_char(((n / 10) % 10) as int)));
                    vstd::arithmetic::div_mod::lemma_div_denominator(n, 10, 10);
                    assert(digits_of((n / 100) as nat).len() == 1);
                } else {
                    assert(digits_of((n / 10) as nat).len() == 1);
                }
            }
        }
        grouped_prefix_is_plain(c, c.len());
        assert(c.take(c.len() as int) =~= c);
    } else {
        digits_split_last_three(n as nat);
        let a = decimal(n / 1000);
        let t = seq![digit_char(((n / 100) % 10) as int), digit_char(((n / 10) % 10) as int), digit_char((n % 10) as int)];
        assert(c == a + t);
        digits_read_back((n / 1000) as nat);
        grouped_prefix_of_extension(a, t, a.len());
        let g = grouped_prefix(a, a.len());
        let l = a.len();
        assert(a.len() > 0);
        assert(separator_before(c, l as int)) by {
            assert(c[l as int] == t[0]);
            assert(c.len() - l == 3);
            digit_char_reads_back((n / 100) % 10);
        }
        assert(!separator_before(c, l + 1 as int)) by {
            assert(c.len() - (l + 1) == 2);
        }
        assert(!separator_before(c, l + 2 as int)) by {
            assert(c.len() - (l + 2) == 1);
        }
        assert(grouped_prefix(c, l + 1) == g + seq![','] + seq![t[0]]);
        assert(grouped_prefix(c, l + 2) == grouped_prefix(c, l + 1) + Seq::<char>::empty() + seq![t[1]]);
        assert(grouped_prefix(c, l + 3) == grouped_prefix(c, l + 2) + Seq::<char>::empty() + seq![t[2]]);
        assert(c.len() == l + 3);
        assert(c.subrange(c.len() - 3, c.len() as int) =~= t);
        assert(grouped_prefix(c, l + 3) =~= g + seq![','] + t);
    }
}

proof fn grouped_prefix_is_plain(c: Seq<char>, k: nat)
    requires
        k <= c.len() <= 3,
    ensures
        grouped_prefix(c, k) == c.take(k as int),
    decreases k,
{
    if k > 0 {
        grouped_prefix_is_plain(c, (k - 1) as nat);
        assert(!separator_before(c, k - 1));
        assert(c.take(k as int) =~= c.take(k - 1).push(c[k - 1]));
        assert(grouped_prefix(c, k) =~= c.take(k - 1) + Seq::<char>::empty() + seq![c[k - 1]]);
    }
}

/// Whether a character has the Unicode `White_Space` property, as
/// `char::is_whitespace` tests: U+0009 to U+000D, U+0020, U+0085, U+00A0,
/// U+1680, U+2000 to U+200A, U+2028, U+2029, U+202F, U+205F and U+3000.
pub open spec fn is_white_space(c: char) -> bool {
    let u = c as u32;
    ||| 0x09 <= u <= 0x0D
    ||| u == 0x20
    ||| u == 0x85
    ||| u == 0xA0
    ||| u == 0x1680
    ||| 0x2000 <= u <= 0x200A
    ||| u == 0x2028
    ||| u == 0x2029
    ||| u == 0x202F
    ||| u == 0x205F
    ||| u == 0x3000
}

/// `s` without its leading whitespace.
pub open spec fn trim_start(s: Seq<char>) -> Seq<char>
    decreases s.len(),
{
    if s.len() > 0 && is_white_space(s[0]) { trim_start(s.drop_first()) } else { s }
}

/// `s` without its trailing whitespace.
pub open spec fn trim_end(s: Seq<char>) -> Seq<char>
    decreases s.len(),
{
    if s.len() > 0 && is_white_space(s.last()) { trim_end(s.drop_last()) } else { s }
}

/// The text `str::trim` leaves of `s`: leading and trailing whitespace
/// removed.
pub open spec fn trimmed(s: Seq<char>) -> Seq<char> {
    trim_end(trim_start(s))
}

proof fn trim_start_is_suffix(s: Seq<char>)
    ensures
        exists|i: int| 0 <= i <= s.len() && trim_start(s) == #[trigger] s.subrange(i, s.len() as int),
        trim_start(s).len() > 0 ==> !is_white_space(trim_start(s)[0]),
    decreases s.len(),
{
    if s.len() > 0 && is_white_space(s[0]) {
        trim_start_is_suffix(s.drop_first());
        let i = choose|i: int| 0 <= i <= s.drop_first().len()
            && trim_start(s.drop_first()) == #[trigger] s.drop_first().subrange(i, s.drop_first().len() as int);
        assert(s.drop_first().subrange(i, s.drop_first().len() as int) =~= s.subrange(i + 1, s.len() as int));
    } else {
        assert(s.subrange(0, s.len() as int) =~= s);
    }
}

proof fn trim_end_is_prefix(s: Seq<char>)
    ensures
        exists|j: int| 0 <= j <= s.len() && trim_end(s) == #[trigger] s.subrange(0, j),
        trim_end(s).len() > 0 ==> !is_white_space(trim_end(s).last()),
        trim_end(s).len() > 0 ==> trim_end(s)[0] == s[0],
    decreases s.len(),
{
    if s.len() > 0 && is_white_space(s.last()) {
        trim_end_is_prefix(s.drop_last());
        let j = choose|j: int| 0 <= j <= s.drop_last().len() && trim_end(s.drop_last()) == #[trigger] s.drop_last().subrange(0, j);
        assert(s.drop_last().subrange(0, j) =~= s.subrange(0, j));
    } else {
        assert(s.subrange(0, s.len() as int) =~= s);
    }
}

/// Trimming keeps a contiguous piece of the text that neither starts nor
/// ends with whitespace.
pub proof fn trimmed_is_inner_piece(s: Seq<char>)
    ensures
        is_piece_of(trimmed(s), s),
        trimmed(s).len() > 0 ==> !is_white_space(trimmed(s)[0]) && !is_white_space(trimmed(s).last()),
{
    trim_start_is_suffix(s);
    let t = trim_start(s);
    trim_end_is_prefix(t);
    let i = choose|i: int| 0 <= i <= s.len() && t == #[trigger] s.subrange(i, s.len() as int);
    let j = choose|j: int| 0 <= j <= t.len() && trim_end(t) == #[trigger] t.subrange(0, j);
    assert(t.subrange(0, j) =~= s.subrange(i, i + j));
}

/// The text `str::to_uppercase` gives for `s`.
pub uninterp spec fn uppercased(s: Seq<char>) -> Seq<char>;

/// The text `str::to_lowercase` gives for `s`.
pub uninterp spec fn lowercased(s: Seq<char>) -> Seq<char>;

/// Whether `t` is a contiguous piece of `s`.
pub open spec fn is_piece_of(t: Seq<char>, s: Seq<char>) -> bool {
    exists|i: int, j: int| 0 <= i <= j <= s.len() && t == #[trigger] s.subrange(i, j)
}

/// Calls `str::trim`, which removes the leading and trailing characters
/// with the Unicode `White_Space` property; the contract states exactly
/// that, through `trimmed`.
#[verifier::external_body]
pub(crate) fn trim_text(s: &str) -> (t: &str)
    ensures
        t@ == trimmed(s@),
{
    s.trim()
}

/// Calls `str::to_uppercase`; its result is named `uppercased` of the
/// argument (Unicode case mapping, not stated here).
#[verifier::external_body]
pub(crate) fn to_upper(s: &str) -> (u: String)
    ensures
        u@ == uppercased(s@),
{
    s.to_uppercase()
}

/// Calls `str::to_lowercase`; its result is named `lowercased` of the
/// argument (Unicode case mapping, not stated here).
#[verifier::external_body]
pub(crate) fn to_lower(s: &str) -> (l: String)
    ensures
        l@ == lowercased(s@),
{
    s.to_lowercase()
}

/// A string holding the given characters.
pub fn string_from_chars(chars: &Vec<char>) -> (s: String)
    ensures
        s@ == chars@,
{
    let mut s = String::new();
    let mut i: usize = 0;
    while i < chars.len()
        invariant
            i <= chars@.len(),
            s@ == chars@.subrange(0, i as int),
        decreases chars.len() - i,
    {
        push_char(&mut s, chars[i]);
        i = i + 1;
        assert(chars@.subrange(0, i as int) == chars@.subrange(0, (i - 1) as int).push(chars@[i - 1]));
    }
    assert(chars@.subrange(0, chars@.len() as int) == chars@);
    s
}

/// The decimal text of `n`, as `i64::to_string` writes it.
pub fn decimal_string(n: i64) -> (s: String)
    ensures
        s@ == decimal(n as int),
{
    let chars = decimal_chars(n);
    string_from_chars(&chars)
}

/// The texts of `parts` with `sep` between each two neighbours.
pub open spec fn joined(parts: Seq<Seq<char>>, sep: Seq<char>) -> Seq<char>
    decreases parts.len(),
{
    if parts.len() == 0 {
        Seq::empty()
    } else if parts.len() == 1 {
        parts[0]
    } else {
        joined(parts.drop_last(), sep) + sep + parts.last()
    }
}

/// Joining puts the separator exactly between neighbours: nothing for no
/// part, the part itself for one, and one more separator and part for each
/// further part; the result's length is the parts' lengths plus one
/// separator less than there are parts.
pub proof fn joined_separates_neighbours(parts: Seq<Seq<char>>, sep: Seq<char>, p: Seq<char>)
    ensures
        joined(Seq::empty(), sep) == Seq::<char>::empty(),
        joined(seq![p], sep) == p,
        parts.len() > 0 ==> joined(parts.push(p), sep) == joined(parts, sep) + sep + p,
        parts.len() > 0 ==> joined(parts.push(p), sep).len() == joined(parts, sep).len() + sep.len() + p.len(),
{
    if parts.len() > 0 {
        assert(parts.push(p).drop_last() =~= parts);
    }
}

/// Joins `parts` with `sep` between each two neighbours.
pub fn join_texts(parts: &Vec<String>, sep: &str) -> (s: String)
    ensures
        s@ == joined(parts.deep_view(), sep@),
{
    let ghost dv = parts.deep_view();
    let mut s = String::new();
    let mut i: usize = 0;
    while i < parts.len()
        invariant
            dv == parts.deep_view(),
            dv.len() == parts@.len(),
            i <= parts@.len(),
            s@ == joined(dv.subrange(0, i as int), sep@),
        decreases parts.len() - i,
    {
        assert(dv.subrange(0, (i + 1) as int).drop_last() == dv.subrange(0, i as int));
        assert(dv[i as int] == parts@[i as int]@);
        if i > 0 {
            s.append(sep);
        }
        s.append(parts[i].as_str());
        i = i + 1;
    }
    assert(dv.subrange(0, parts@.len() as int) == dv);
    s
}

} // verus!
