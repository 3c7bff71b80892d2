//! Small string operations with exact contracts.

use vstd::prelude::*;
use vstd::string::*;

verus! {

/// The decimal digit `d`, `0 <= d < 10`.
pub open spec fn digit_char(d: nat) -> char {
    (48 + d) as char
}

/// The decimal numeral of `n`, most significant digit first.
pub open spec fn decimal(n: nat) -> Seq<char>
    decreases n,
{
    if n < 10 {
        seq![digit_char(n)]
    } else {
        decimal(n / 10).push(digit_char(n % 10))
    }
}

fn digit(d: u64) -> (s: &'static str)
    requires
        d < 10,
    ensures
        s@ == seq![digit_char(d as nat)],
{
    proof {
        reveal_strlit("0");
        reveal_strlit("1");
        reveal_strlit("2");
        reveal_strlit("3");
        reveal_strlit("4");
        reveal_strlit("5");
        reveal_strlit("6");
        reveal_strlit("7");
        reveal_strlit("8");
        reveal_strlit("9");
    }
    let s: &'static str = match d {
        0 => "0",
        1 => "1",
        2 => "2",
        3 => "3",
        4 => "4",
        5 => "5",
        6 => "6",
        7 => "7",
        8 => "8",
        _ => "9",
    };
    assert(s@ =~= seq![digit_char(d as nat)]);
    s
}

/// Append the decimal numeral of `n`.
pub fn push_decimal(out: &mut String, n: u64)
    ensures
        final(out)@ == old(out)@ + decimal(n as nat),
    decreases n,
{
    if n >= 10 {
        push_decimal(out, n / 10);
        out.append(digit(n % 10));
        assert(out@ =~= old(out)@ + decimal(n as nat));
    } else {
        out.append(digit(n));
    }
}

/// Append the decimal numeral of a `usize`.
pub fn push_usize(out: &mut String, n: usize)
    ensures
        final(out)@ == old(out)@ + decimal(n as nat),
{
    push_decimal(out, n as u64);
}

/// A numeral read back: the number a sequence of digits stands for.
pub open spec fn numeral_value(s: Seq<char>) -> nat
    decreases s.len(),
{
    if s.len() == 0 {
        0
    } else {
        (10 * numeral_value(s.drop_last()) + (s.last() as nat - 48)) as nat
    }
}

/// Reading a numeral back gives the number it was written from.
pub proof fn decimal_reads_back(n: nat)
    ensures
        numeral_value(decimal(n)) == n,
        decimal(n).len() > 0,
    decreases n,
{
    reveal_with_fuel(numeral_value, 2);
    if n < 10 {
        assert(decimal(n).drop_last() =~= Seq::<char>::empty());
    } else {
        decimal_reads_back(n / 10);
        assert(decimal(n).drop_last() =~= decimal(n / 10));
    }
}

/// Different numbers have different numerals.
pub proof fn decimal_is_injective(m: nat, n: nat)
    requires
        decimal(m) == decimal(n),
    ensures
        m == n,
{
    decimal_reads_back(m);
    decimal_reads_back(n);
}

/// Every character of a numeral is an ASCII digit.
pub proof fn decimal_is_digits(n: nat)
    ensures
        forall|i: int| 0 <= i < decimal(n).len() ==> '0' <= #[trigger] decimal(n)[i] <= '9',
    decreases n,
{
    if n >= 10 {
        decimal_is_digits(n / 10);
        assert forall|i: int| 0 <= i < decimal(n).len() implies '0' <= #[trigger] decimal(
            n,
        )[i] <= '9' by {
            if i < decimal(n / 10).len() {
                assert(decimal(n)[i] == decimal(n / 10)[i]);
            }
        }
    }
}

/// The characters with the Unicode property `White_Space`.
pub open spec fn is_white_space(c: char) -> bool {
    ||| '\u{9}' <= c <= '\u{d}'
    ||| c == '\u{20}'
    ||| c == '\u{85}'
    ||| c == '\u{a0}'
    ||| c == '\u{1680}'
    ||| '\u{2000}' <= c <= '\u{200a}'
    ||| c == '\u{2028}'
    ||| c == '\u{2029}'
    ||| c == '\u{202f}'
    ||| c == '\u{205f}'
    ||| c == '\u{3000}'
}

fn white_space(c: char) -> (b: bool)
    ensures
        b == is_white_space(c),
{
    ('\u{9}' <= c && c <= '\u{d}') || c == '\u{20}' || c == '\u{85}' || c == '\u{a0}' || c
        == '\u{1680}' || ('\u{2000}' <= c && c <= '\u{200a}') || c == '\u{2028}' || c == '\u{2029}'
        || c == '\u{202f}' || c == '\u{205f}' || c == '\u{3000}'
}

/// `s` without its leading and trailing white space.
pub open spec fn trimmed(s: Seq<char>) -> Seq<char>
    decreases s.len(),
{
    if s.len() == 0 {
        s
    } else if is_white_space(s.last()) {
        trimmed(s.drop_last())
    } else if is_white_space(s[0]) {
        trimmed(s.drop_first())
    } else {
        s
    }
}

/// `s` without leading and trailing white space.
pub fn trim(s: &str) -> (t: &str)
    ensures
        t@ == trimmed(s@),
{
    let mut start: usize = 0;
    let mut end: usize = s.unicode_len();
    let ghost whole = s@;
    assert(whole.subrange(0, whole.len() as int) =~= whole);
    while end > start
        invariant
            start == 0,
            whole == s@,
            start <= end <= whole.len(),
            trimmed(whole) == trimmed(whole.subrange(0, end as int)),
        ensures
            start == 0,
            end <= whole.len(),
            trimmed(whole) == trimmed(whole.subrange(0, end as int)),
            end == 0 || !is_white_space(whole[end - 1]),
        decreases end,
    {
        let ghost part = whole.subrange(0, end as int);
        if !white_space(s.get_char(end - 1)) {
            break;
        }
        assert(part.drop_last() =~= whole.subrange(0, end - 1));
        assert(part.last() == whole[end - 1]);
        end = end - 1;
    }
    while start < end
        invariant
            whole == s@,
            start <= end <= whole.len(),
            trimmed(whole) == trimmed(whole.subrange(start as int, end as int)),
            end == 0 || !is_white_space(whole[end - 1]),
        ensures
            start <= end <= whole.len(),
            trimmed(whole) == trimmed(whole.subrange(start as int, end as int)),
            start < end ==> !is_white_space(whole[end - 1]) && !is_white_space(
                whole[start as int],
            ),
        decreases end - start,
    {
        let ghost part = whole.subrange(start as int, end as int);
        if !white_space(s.get_char(start)) {
            break;
        }
        assert(part.drop_first() =~= whole.subrange(start + 1, end as int));
        assert(part.last() == whole[end - 1]);
        assert(part[0] == whole[start as int]);
        start = start + 1;
    }
    let ghost part = whole.subrange(start as int, end as int);
    proof {
        if start < end {
            assert(part.last() == whole[end - 1]);
            assert(part[0] == whole[start as int]);
        }
        assert(trimmed(part) == part);
    }
    s.substring_char(start, end)
}

/// Whether nothing but white space is in `s`.
pub open spec fn is_blank(s: Seq<char>) -> bool {
    trimmed(s).len() == 0
}

/// `s` without the run of `c` at its end.
pub open spec fn without_trailing(s: Seq<char>, c: char) -> Seq<char>
    decreases s.len(),
{
    if s.len() > 0 && s.last() == c {
        without_trailing(s.drop_last(), c)
    } else {
        s
    }
}

/// `s` without the run of `c` at its end.
pub fn trim_end_matches(s: &str, c: char) -> (t: &str)
    ensures
        t@ == without_trailing(s@, c),
{
    let mut end: usize = s.unicode_len();
    let ghost whole = s@;
    assert(whole.subrange(0, whole.len() as int) =~= whole);
    while end > 0
        invariant
            whole == s@,
            end <= whole.len(),
            without_trailing(whole, c) == without_trailing(whole.subrange(0, end as int), c),
        ensures
            end <= whole.len(),
            without_trailing(whole, c) == whole.subrange(0, end as int),
        decreases end,
    {
        let ghost part = whole.subrange(0, end as int);
        assert(part.last() == whole[end - 1]);
        if s.get_char(end - 1) != c {
            break;
        }
        assert(part.drop_last() =~= whole.subrange(0, end - 1));
        end = end - 1;
    }
    s.substring_char(0, end)
}

/// What is left of `s` never ends in `c`, and only `c`s were cut off.
pub proof fn without_trailing_is_prefix(s: Seq<char>, c: char)
    ensures
        without_trailing(s, c).len() <= s.len(),
        without_trailing(s, c) == s.take(without_trailing(s, c).len() as int),
        without_trailing(s, c).len() > 0 ==> without_trailing(s, c).last() != c,
        forall|i: int| without_trailing(s, c).len() <= i < s.len() ==> s[i] == c,
    decreases s.len(),
{
    if s.len() > 0 && s.last() == c {
        without_trailing_is_prefix(s.drop_last(), c);
        let k = without_trailing(s, c).len() as int;
        assert(s.drop_last().take(k) =~= s.take(k));
        assert forall|i: int| k <= i < s.len() implies s[i] == c by {
            if i < s.len() - 1 {
                assert(s.drop_last()[i] == s[i]);
            }
        }
    } else {
        assert(s.take(s.len() as int) =~= s);
    }
}

/// Whether `s` begins with `prefix`.
pub open spec fn begins_with(s: Seq<char>, prefix: Seq<char>) -> bool {
    prefix.len() <= s.len() && s.take(prefix.len() as int) == prefix
}

/// Whether `s` begins with `prefix`.
pub fn starts_with(s: &str, prefix: &str) -> (b: bool)
    ensures
        b == begins_with(s@, prefix@),
{
    let n = prefix.unicode_len();
    if s.unicode_len() < n {
        return false;
    }
    let mut i: usize = 0;
    while i < n
        invariant
            n == prefix@.len(),
            n <= s@.len(),
            i <= n,
            forall|j: int| 0 <= j < i ==> s@[j] == prefix@[j],
        decreases n - i,
    {
        if s.get_char(i) != prefix.get_char(i) {
            assert(s@.take(n as int)[i as int] != prefix@[i as int]);
            return false;
        }
        i = i + 1;
    }
    assert(s@.take(n as int) =~= prefix@);
    true
}

/// What follows `prefix` in `s`, if `s` begins with it.
pub fn strip_prefix<'a>(s: &'a str, prefix: &str) -> (r: Option<&'a str>)
    ensures
        begins_with(s@, prefix@) ==> r is Some && r->0@ == s@.skip(prefix@.len() as int),
        !begins_with(s@, prefix@) ==> r is None,
{
    if starts_with(s, prefix) {
        let r = s.substring_char(prefix.unicode_len(), s.unicode_len());
        assert(r@ =~= s@.skip(prefix@.len() as int));
        Some(r)
    } else {
        None
    }
}

/// The texts of `parts`, with `sep` between each two.
pub open spec fn joined(parts: Seq<Seq<char>>, sep: Seq<char>) -> Seq<char>
    decreases parts.len(),
{
    if parts.len() == 0 {
        Seq::empty()
    } else if parts.len() == 1 {
        parts[0]
    } else {
        joined(parts.drop_last(), sep) + sep + parts.last()
    }
}

/// The texts behind a sequence of strings.
pub open spec fn views(parts: Seq<String>) -> Seq<Seq<char>> {
    Seq::new(parts.len(), |i: int| parts[i]@)
}

/// Join `parts` with `sep` between each two.
pub fn join(parts: &Vec<String>, sep: &str) -> (r: String)
    ensures
        r@ == joined(views(parts@), sep@),
{
    let mut out = String::new();
    let mut i: usize = 0;
    while i < parts.len()
        invariant
            i <= parts@.len(),
            out@ == joined(views(parts@).take(i as int), sep@),
        decreases parts@.len() - i,
    {
        let ghost before = views(parts@).take(i as int);
        let ghost after = views(parts@).take(i + 1);
        if i > 0 {
            out.append(sep);
        }
        out.append(parts[i].as_str());
        proof {
            assert(after.drop_last() =~= before);
            if i == 0 {
                assert(out@ =~= after[0]);
            }
        }
        i = i + 1;
    }
    assert(views(parts@).take(parts@.len() as int) =~= views(parts@));
    out
}

/// Lexicographic order by code point, which is also the byte order of UTF-8.
pub open spec fn precedes(a: Seq<char>, b: Seq<char>) -> bool
    decreases a.len(),
{
    if b.len() == 0 {
        false
    } else if a.len() == 0 {
        true
    } else if a[0] == b[0] {
        precedes(a.drop_first(), b.drop_first())
    } else {
        a[0] < b[0]
    }
}

/// Whether `a` stands before `b` in lexicographic order.
pub fn is_before(a: &str, b: &str) -> (r: bool)
    ensures
        r == precedes(a@, b@),
{
    let n = a.unicode_len();
    let m = b.unicode_len();
    let mut i: usize = 0;
    assert(a@.skip(0) =~= a@);
    assert(b@.skip(0) =~= b@);
    while i < n && i < m
        invariant
            n == a@.len(),
            m == b@.len(),
            i <= n,
            i <= m,
            precedes(a@, b@) == precedes(a@.skip(i as int), b@.skip(i as int)),
        decreases n - i,
    {
        let x = a.get_char(i);
        let y = b.get_char(i);
        if x != y {
            return x < y;
        }
        assert(a@.skip(i as int).drop_first() =~= a@.skip(i + 1));
        assert(b@.skip(i as int).drop_first() =~= b@.skip(i + 1));
        i = i + 1;
    }
    i < m
}

/// The order is irreflexive and total, and two strings neither of which stands
/// before the other are equal.
pub proof fn precedes_is_total(a: Seq<char>, b: Seq<char>)
    ensures
        !precedes(a, a),
        !(precedes(a, b) && precedes(b, a)),
        !precedes(a, b) && !precedes(b, a) ==> a == b,
    decreases a.len(),
{
    if a.len() > 0 {
        precedes_is_total(a.drop_first(), if b.len() > 0 {
            b.drop_first()
        } else {
            b
        });
        if b.len() > 0 && a[0] == b[0] && !precedes(a, b) && !precedes(b, a) {
            assert(a =~= seq![a[0]] + a.drop_first());
            assert(b =~= seq![b[0]] + b.drop_first());
        }
    } else if b.len() == 0 {
        assert(a =~= b);
    }
}

/// The order is transitive.
pub proof fn precedes_is_transitive(a: Seq<char>, b: Seq<char>, c: Seq<char>)
    requires
        precedes(a, b),
        precedes(b, c),
    ensures
        precedes(a, c),
    decreases a.len(),
{
    if a.len() > 0 && a[0] == b[0] && b[0] == c[0] {
        precedes_is_transitive(a.drop_first(), b.drop_first(), c.drop_first());
    }
}

/// Whether two texts hold the same characters.
pub fn same_text(a: &str, b: &str) -> (r: bool)
    ensures
        r == (a@ == b@),
{
    a.unicode_len() == b.unicode_len() && {
        let r = starts_with(a, b);
        assert(a@.len() == b@.len() ==> a@.take(b@.len() as int) =~= a@);
        r
    }
}

/// A digit stands for its value, from `0` to `9`.
pub proof fn digits_are_ascii(d: nat)
    requires
        d < 10,
    ensures
        decimal(d).len() == 1,
        decimal(d)[0] as int == '0' as int + d,
        '0' as int == 48,
{
}

/// A number of at least ten is written as its tenth part, rounded down, and then its last
/// digit; so a numeral has no leading zero.
pub proof fn decimal_grows_by_digits(n: nat)
    ensures
        n >= 10 ==> decimal(n) == decimal(n / 10) + decimal(n % 10),
        n > 0 ==> decimal(n)[0] != '0',
    decreases n,
{
    if n >= 10 {
        decimal_grows_by_digits(n / 10);
        assert(decimal(n) =~= decimal(n / 10) + decimal(n % 10));
        decimal_reads_back(n / 10);
    }
}

/// What is between the white space at both ends of a text: it is a part of the text,
/// neither begins nor ends with white space, and only white space was cut off.
pub proof fn trimmed_keeps_the_middle(s: &str, t: &str)
    requires
        call_ensures(trim, (s,), t),
    ensures
        exists|i: int, j: int|
            {
                &&& 0 <= i <= j <= s@.len()
                &&& t@ == #[trigger] s@.subrange(i, j)
                &&& forall|k: int|
                    0 <= k < i || j <= k < s@.len() ==> is_white_space(#[trigger] s@[k])
            },
        t@.len() > 0 ==> !is_white_space(t@[0]) && !is_white_space(t@.last()),
{
    let (i, j) = middle(s@);
    assert(t@ == s@.subrange(i, j));
}

/// Where the trimmed part of a text lies.
proof fn middle(s: Seq<char>) -> (r: (int, int))
    ensures
        0 <= r.0 <= r.1 <= s.len(),
        trimmed(s) == s.subrange(r.0, r.1),
        forall|k: int| 0 <= k < r.0 || r.1 <= k < s.len() ==> is_white_space(#[trigger] s[k]),
        trimmed(s).len() > 0 ==> !is_white_space(trimmed(s)[0]) && !is_white_space(
            trimmed(s).last(),
        ),
    decreases s.len(),
{
    if s.len() == 0 {
        assert(s.subrange(0, 0) =~= s);
        (0, 0)
    } else if is_white_space(s.last()) {
        let (i, j) = middle(s.drop_last());
        assert(s.drop_last().subrange(i, j) =~= s.subrange(i, j));
        assert forall|k: int| 0 <= k < i || j <= k < s.len() implies is_white_space(
            #[trigger] s[k],
        ) by {
            if k < s.len() - 1 {
                assert(s.drop_last()[k] == s[k]);
            }
        }
        (i, j)
    } else if is_white_space(s[0]) {
        let (i, j) = middle(s.drop_first());
        assert(s.drop_first().subrange(i, j) =~= s.subrange(i + 1, j + 1));
        assert forall|k: int| 0 <= k < i + 1 || j + 1 <= k < s.len() implies is_white_space(
            #[trigger] s[k],
        ) by {
            if k > 0 {
                assert(s.drop_first()[k - 1] == s[k]);
            }
        }
        (i + 1, j + 1)
    } else {
        assert(s.subrange(0, s.len() as int) =~= s);
        (0, s.len() as int)
    }
}

/// The ASCII white space is white space, and no letter, digit or punctuation is.
pub proof fn ascii_white_space(c: char)
    requires
        (c as int) < 128,
    ensures
        is_white_space(c) <==> c == ' ' || c == '\t' || c == '\n' || c == '\r' || c as int == 11
            || c as int == 12,
{
}

/// A text is blank exactly if every character of it is white space.
pub proof fn blank_is_all_white_space(s: Seq<char>)
    ensures
        is_blank(s) <==> forall|i: int| 0 <= i < s.len() ==> is_white_space(#[trigger] s[i]),
{
    let (i, j) = middle(s);
    if forall|k: int| 0 <= k < s.len() ==> is_white_space(#[trigger] s[k]) {
        if trimmed(s).len() > 0 {
            assert(trimmed(s)[0] == s[i]);
        }
    } else {
        let k = choose|k: int| 0 <= k < s.len() && !is_white_space(#[trigger] s[k]);
        assert(i <= k < j);
    }
}

/// What is left without the run of a character at the end is the shortest beginning of
/// the text after which nothing but that character follows.
pub proof fn trimming_the_end_cuts_only_the_run(s: &str, c: char, t: &str)
    requires
        call_ensures(trim_end_matches, (s, c), t),
    ensures
        t@.len() <= s@.len(),
        forall|i: int| 0 <= i < t@.len() ==> #[trigger] t@[i] == s@[i],
        forall|i: int| t@.len() <= i < s@.len() ==> #[trigger] s@[i] == c,
        t@.len() > 0 ==> t@.last() != c,
{
    without_trailing_is_prefix(s@, c);
    assert forall|i: int| 0 <= i < t@.len() implies #[trigger] t@[i] == s@[i] by {
        assert(t@[i] == s@.take(t@.len() as int)[i]);
    }
}

/// A prefix is taken off exactly if the text begins with it, and what is left is what
/// stands behind it.
pub proof fn stripping_undoes_prepending(s: &str, prefix: &str, begins: bool, r: Option<&str>)
    requires
        call_ensures(starts_with, (s, prefix), begins),
        call_ensures(strip_prefix, (s, prefix), r),
    ensures
        begins <==> exists|rest: Seq<char>| s@ == #[trigger] (prefix@ + rest),
        r is Some <==> begins,
        r matches Some(rest) ==> s@ == prefix@ + rest@,
{
    if begins {
        assert(s@ =~= prefix@ + s@.skip(prefix@.len() as int));
    } else if exists|rest: Seq<char>| s@ == #[trigger] (prefix@ + rest) {
        let rest = choose|rest: Seq<char>| s@ == #[trigger] (prefix@ + rest);
        assert(s@.take(prefix@.len() as int) =~= prefix@);
    }
}

/// Joining puts the separator between each two parts and nowhere else: one part is itself,
/// and one more part follows a separator.
pub proof fn joining_appends(parts: Seq<Seq<char>>, more: Seq<char>, sep: Seq<char>)
    ensures
        joined(Seq::<Seq<char>>::empty(), sep) == Seq::<char>::empty(),
        joined(seq![more], sep) == more,
        parts.len() > 0 ==> joined(parts.push(more), sep) == joined(parts, sep) + sep + more,
{
    assert(parts.push(more).drop_last() =~= parts);
    assert(parts.push(more).last() == more);
}

/// The first difference settles the order, and of two texts one of which continues the
/// other the shorter stands first.
pub proof fn the_first_difference_orders(a: Seq<char>, b: Seq<char>, common: Seq<char>)
    ensures
        a.len() > 0 && b.len() > 0 && a[0] != b[0] ==> (precedes(common + a, common + b)
            <==> a[0] < b[0]),
        b.len() > 0 ==> precedes(common, common + b),
        !precedes(common + a, common),
    decreases common.len(),
{
    if common.len() > 0 {
        let rest = common.drop_first();
        the_first_difference_orders(a, b, rest);
        assert((common + a).drop_first() =~= rest + a);
        assert((common + b).drop_first() =~= rest + b);
    } else {
        assert(common + a =~= a);
        assert(common + b =~= b);
    }
}

/// A number is written behind a text in decimal digits, whatever its type, and the text in
/// front of it stays.
pub proof fn numbers_are_written_behind(out: &mut String, n: u64, more: &mut String, m: usize)
    requires
        call_ensures(push_decimal, (out, n), ()),
        call_ensures(push_usize, (more, m), ()),
    ensures
        final(out)@ == old(out)@ + decimal(n as nat),
        final(more)@ == old(more)@ + decimal(m as nat),
{
}

/// Two texts are the same exactly if they hold the same characters, and then neither comes
/// before the other; of two others exactly one does.
pub proof fn texts_are_the_same_or_in_order(
    a: &str,
    b: &str,
    same: bool,
    before: bool,
    behind: bool,
)
    requires
        call_ensures(same_text, (a, b), same),
        call_ensures(is_before, (a, b), before),
        call_ensures(is_before, (b, a), behind),
    ensures
        same <==> a@ == b@,
        same ==> !before && !behind,
        !same ==> before == !behind,
{
    precedes_is_total(a@, b@);
    precedes_is_total(b@, a@);
}

/// Texts are joined in their order, with the separator between any two and nowhere else.
pub proof fn texts_are_joined_in_order(
    few: &Vec<String>,
    all: &Vec<String>,
    sep: &str,
    last: String,
    joined_few: String,
    joined_all: String,
)
    requires
        call_ensures(join, (few, sep), joined_few),
        call_ensures(join, (all, sep), joined_all),
        all@ == few@.push(last),
    ensures
        few@.len() == 0 ==> joined_few@.len() == 0 && joined_all@ == last@,
        few@.len() > 0 ==> joined_all@ == joined_few@ + sep@ + last@,
{
    assert(views(all@) =~= views(few@).push(last@));
    joining_appends(views(few@), last@, sep@);
    if few@.len() == 0 {
        assert(views(few@) =~= Seq::<Seq<char>>::empty());
        assert(views(all@) =~= seq![last@]);
    }
}

/// A lone character is trimmed away exactly if Unicode counts it as white space: the
/// controls from tab to carriage return, the space, the next-line control, the no-break
/// space, and the spaces and separators beyond Latin-1.
pub proof fn white_space_is_trimmed(s: &str, r: &str)
    requires
        call_ensures(trim, (s,), r),
        s@.len() == 1,
    ensures
        r@.len() == 0 <==> ({
            let c = s@[0] as int;
            ||| 9 <= c <= 13
            ||| c == 32
            ||| c == 0x85
            ||| c == 0xa0
            ||| c == 0x1680
            ||| 0x2000 <= c <= 0x200a
            ||| c == 0x2028
            ||| c == 0x2029
            ||| c == 0x202f
            ||| c == 0x205f
            ||| c == 0x3000
        }),
{
    assert(s@.last() == s@[0]);
    reveal_with_fuel(trimmed, 2);
}

} // verus!
