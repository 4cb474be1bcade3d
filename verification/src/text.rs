//! Text building blocks shared by the rest of the library: decimal rendering
//! of integers, the character classes that the bot's parsers use, and a few
//! string helpers.

use vstd::prelude::*;
use vstd::string::*;

verus! {

/// The character for a decimal digit `d` (`0 <= d < 10`).
pub open spec fn digit_char(d: int) -> char {
    if d == 0 { '0' }
    else if d == 1 { '1' }
    else if d == 2 { '2' }
    else if d == 3 { '3' }
    else if d == 4 { '4' }
    else if d == 5 { '5' }
    else if d == 6 { '6' }
    else if d == 7 { '7' }
    else if d == 8 { '8' }
    else { '9' }
}

/// Decimal notation of a natural number, without leading zeros.
pub open spec fn nat_text(n: nat) -> Seq<char>
    decreases n,
{
    if n < 10 {
        seq![digit_char(n as int)]
    } else {
        nat_text(n / 10).push(digit_char((n % 10) as int))
    }
}

/// Decimal notation of an integer, as `Display` writes it: a `-` before
/// the digits of a negative number.
pub open spec fn int_text(n: int) -> Seq<char> {
    if n < 0 {
        seq!['-'] + nat_text((-n) as nat)
    } else {
        nat_text(n as nat)
    }
}

/// Appends a character to a string (`String::push`): the string afterwards
/// is the string before with `c` added at its end.
#[verifier::external_body]
pub(crate) fn push_char(s: &mut String, c: char)
    ensures
        final(s)@ == old(s)@.push(c),
{
    s.push(c)
}

fn digit(d: u64) -> (c: char)
    requires
        d < 10,
    ensures
        c == digit_char(d as int),
{
    match d {
        0 => '0',
        1 => '1',
        2 => '2',
        3 => '3',
        4 => '4',
        5 => '5',
        6 => '6',
        7 => '7',
        8 => '8',
        _ => '9',
    }
}

/// Appends the decimal notation of `n` to `s`.
pub fn push_nat(s: &mut String, n: u64)
    ensures
        final(s)@ == old(s)@ + nat_text(n as nat),
    decreases n,
{
    if n >= 10 {
        push_nat(s, n / 10);
    }
    push_char(s, digit(n % 10));
    proof {
        assert(old(s)@ + nat_text(n as nat) =~= if n >= 10 {
            (old(s)@ + nat_text((n / 10) as nat)).push(digit_char((n % 10) as int))
        } else {
            old(s)@.push(digit_char((n % 10) as int))
        });
    }
}

/// Appends the decimal notation of `n` to `s`, with a leading `-` when `n`
/// is negative.
pub fn push_int(s: &mut String, n: i64)
    ensures
        final(s)@ == old(s)@ + int_text(n as int),
{
    if n < 0 {
        push_char(s, '-');
        let magnitude: u64 = (0i128 - n as i128) as u64;
        push_nat(s, magnitude);
        assert(old(s)@.push('-') + nat_text(magnitude as nat) =~= old(s)@ + (seq!['-'] + nat_text(
            (-n) as nat,
        )));
    } else {
        push_nat(s, n as u64);
    }
}

/// The decimal notation of an unsigned number (`u64::to_string`).
pub fn nat_to_string(n: u64) -> (s: String)
    ensures
        s@ == nat_text(n as nat),
{
    let mut s = String::new();
    push_nat(&mut s, n);
    assert(Seq::<char>::empty() + nat_text(n as nat) =~= nat_text(n as nat));
    s
}

/// The decimal notation of a signed number (`i64::to_string`).
pub fn int_to_string(n: i64) -> (s: String)
    ensures
        s@ == int_text(n as int),
{
    let mut s = String::new();
    push_int(&mut s, n);
    assert(Seq::<char>::empty() + int_text(n as int) =~= int_text(n as int));
    s
}


/// A number's decimal notation has at least one digit.
pub proof fn lemma_nat_text_nonempty(n: nat)
    ensures
        nat_text(n).len() >= 1,
        n >= 10 ==> nat_text(n).len() >= 2,
    decreases n,
{
    if n >= 10 {
        lemma_nat_text_nonempty(n / 10);
    }
}

/// Different numbers have different decimal notations.
pub proof fn lemma_nat_text_injective(a: nat, b: nat)
    requires
        nat_text(a) == nat_text(b),
    ensures
        a == b,
    decreases a,
{
    lemma_nat_text_nonempty(a);
    lemma_nat_text_nonempty(b);
    if a < 10 && b < 10 {
        assert(nat_text(a)[0] == digit_char(a as int));
        assert(nat_text(b)[0] == digit_char(b as int));
    } else if a >= 10 && b >= 10 {
        let pa = nat_text(a / 10);
        let pb = nat_text(b / 10);
        assert(nat_text(a) == pa.push(digit_char((a % 10) as int)));
        assert(nat_text(b) == pb.push(digit_char((b % 10) as int)));
        assert(pa =~= nat_text(a).drop_last());
        assert(pb =~= nat_text(b).drop_last());
        assert(nat_text(a).last() == digit_char((a % 10) as int));
        lemma_nat_text_injective(a / 10, b / 10);
    }
}

/// An ASCII decimal digit.
pub open spec fn is_digit(c: char) -> bool {
    48 <= (c as int) <= 57
}

/// The value of an ASCII decimal digit.
pub open spec fn digit_value(c: char) -> int {
    (c as int) - 48
}

/// The numbers that a reader finds in a text: each maximal run of decimal
/// digits, read as a decimal number, in the order they stand.
pub open spec fn numbers(t: Seq<char>) -> Seq<int>
    decreases t.len(),
{
    if t.len() == 0 {
        Seq::empty()
    } else {
        let p = t.drop_last();
        let c = t.last();
        let ns = numbers(p);
        if !is_digit(c) {
            ns
        } else if p.len() > 0 && is_digit(p.last()) {
            ns.update(ns.len() - 1, ns.last() * 10 + digit_value(c))
        } else {
            ns.push(digit_value(c))
        }
    }
}

/// A text that ends in a digit holds at least one number.
pub proof fn lemma_numbers_nonempty(t: Seq<char>)
    requires
        t.len() > 0,
        is_digit(t.last()),
    ensures
        numbers(t).len() >= 1,
    decreases t.len(),
{
    let p = t.drop_last();
    if p.len() > 0 && is_digit(p.last()) {
        lemma_numbers_nonempty(p);
    }
}

/// A text without digits holds no number.
pub proof fn lemma_numbers_none(t: Seq<char>)
    requires
        forall|i: int| 0 <= i < t.len() ==> !is_digit(#[trigger] t[i]),
    ensures
        numbers(t) == Seq::<int>::empty(),
    decreases t.len(),
{
    if t.len() > 0 {
        let p = t.drop_last();
        assert forall|i: int| 0 <= i < p.len() implies !is_digit(#[trigger] p[i]) by {
            assert(p[i] == t[i]);
        }
        lemma_numbers_none(p);
        assert(!is_digit(t[t.len() - 1]));
    }
}

/// The numbers of two texts joined where no digit meets a digit are the
/// numbers of the first followed by those of the second.
pub proof fn lemma_numbers_append(a: Seq<char>, b: Seq<char>)
    requires
        a.len() == 0 || b.len() == 0 || !is_digit(a.last()) || !is_digit(b[0]),
    ensures
        numbers(a + b) == numbers(a) + numbers(b),
    decreases b.len(),
{
    if b.len() == 0 {
        assert(a + b =~= a);
        assert(numbers(a) + numbers(b) =~= numbers(a));
    } else {
        let bp = b.drop_last();
        let c = b.last();
        let ab = a + b;
        let p = a + bp;
        assert(ab.drop_last() =~= p);
        assert(ab.last() == c);
        if bp.len() > 0 {
            assert(bp[0] == b[0]);
        }
        lemma_numbers_append(a, bp);
        if !is_digit(c) {
        } else if bp.len() == 0 {
            assert(p =~= a);
            assert(b[0] == c);
            assert(numbers(b) =~= seq![digit_value(c)]);
            assert(numbers(ab) =~= numbers(a) + numbers(b));
        } else if is_digit(bp.last()) {
            assert(p.last() == bp.last());
            lemma_numbers_nonempty(bp);
            let x = numbers(a);
            let y = numbers(bp);
            assert((x + y).update(x.len() + y.len() - 1, (x + y).last() * 10 + digit_value(c)) =~= x
                + y.update(y.len() - 1, y.last() * 10 + digit_value(c)));
        } else {
            assert(p.last() == bp.last());
            assert((numbers(a) + numbers(bp)).push(digit_value(c)) =~= numbers(a) + numbers(
                bp,
            ).push(digit_value(c)));
        }
    }
}

/// The decimal notation of a number reads back as that number alone; it
/// starts and ends with a digit.
pub proof fn lemma_nat_text_reads_back(n: nat)
    ensures
        numbers(nat_text(n)) == seq![n as int],
        is_digit(nat_text(n)[0]),
        is_digit(nat_text(n).last()),
    decreases n,
{
    lemma_nat_text_nonempty(n);
    if n >= 10 {
        lemma_nat_text_reads_back(n / 10);
        let p = nat_text(n / 10);
        let d = (n % 10) as int;
        assert(nat_text(n) == p.push(digit_char(d)));
        assert(nat_text(n).drop_last() =~= p);
        assert(nat_text(n)[0] == p[0]);
        assert(digit_value(digit_char(d)) == d);
        assert(is_digit(digit_char(d)));
        assert(is_digit(p.last()));
        let ns = numbers(p);
        assert(ns.len() - 1 == 0);
        assert(ns.last() == (n / 10) as int);
        assert(numbers(nat_text(n)) == ns.update(0, ns.last() * 10 + d));
        assert(ns.update(0, (n / 10) as int * 10 + d) =~= seq![n as int]);
    } else {
        assert(nat_text(n).drop_last() =~= Seq::<char>::empty());
        assert(numbers(nat_text(n).drop_last()) == Seq::<int>::empty());
        assert(nat_text(n).last() == digit_char(n as int));
        assert(digit_value(digit_char(n as int)) == n);
        assert(is_digit(digit_char(n as int)));
        assert(numbers(nat_text(n)) == Seq::<int>::empty().push(n as int));
        assert(Seq::<int>::empty().push(n as int) =~= seq![n as int]);
    }
}

/// Joining two non-empty texts where no digit meets a digit joins their
/// numbers; the joined text starts as the first and ends as the second.
pub proof fn lemma_numbers_join(a: Seq<char>, b: Seq<char>)
    requires
        a.len() > 0,
        b.len() > 0,
        !is_digit(a.last()) || !is_digit(b[0]),
    ensures
        numbers(a + b) == numbers(a) + numbers(b),
        (a + b)[0] == a[0],
        (a + b).last() == b.last(),
{
    lemma_numbers_append(a, b);
}

/// The decimal notation of an integer reads back as its magnitude: a minus
/// sign is no digit. It ends with a digit.
pub proof fn lemma_int_text_reads_back(n: int)
    ensures
        numbers(int_text(n)) == seq![if n < 0 { -n } else { n }],
        int_text(n).len() > 0,
        is_digit(int_text(n).last()),
{
    lemma_nat_text_nonempty(if n < 0 { -n } else { n } as nat);
    if n < 0 {
        let digits = nat_text((-n) as nat);
        lemma_nat_text_reads_back((-n) as nat);
        lemma_numbers_none(seq!['-']);
        lemma_numbers_join(seq!['-'], digits);
        assert(Seq::<int>::empty() + seq![-n] =~= seq![-n]);
    } else {
        lemma_nat_text_reads_back(n as nat);
    }
}

/// `line` stands in `t` from position `i` as a whole line: at the start of
/// the text or after a line break, and up to the end of the text or a line
/// break.
pub open spec fn line_at(t: Seq<char>, i: int, line: Seq<char>) -> bool {
    &&& 0 <= i
    &&& i + line.len() <= t.len()
    &&& t.subrange(i, i + line.len()) == line
    &&& (i == 0 || t[i - 1] == '\n')
    &&& (i + line.len() == t.len() || t[i + line.len()] == '\n')
}

/// `line` is one of the lines of `t`.
pub open spec fn shows_line(t: Seq<char>, line: Seq<char>) -> bool {
    exists|i: int| line_at(t, i, line)
}

/// A line put between a text that ends a line (or nothing) and a text that
/// starts a new one (or nothing) is a line of the whole.
pub proof fn lemma_line_between(pre: Seq<char>, line: Seq<char>, post: Seq<char>)
    requires
        pre.len() == 0 || pre.last() == '\n',
        post.len() == 0 || post[0] == '\n',
    ensures
        shows_line(pre + line + post, line),
{
    let t = pre + line + post;
    assert(t.subrange(pre.len() as int, (pre.len() + line.len()) as int) =~= line);
    assert(line_at(t, pre.len() as int, line));
}

/// Six texts joined by line breaks are six lines of the whole.
#[verifier::rlimit(50)]
pub proof fn lemma_six_lines(
    a: Seq<char>,
    b: Seq<char>,
    c: Seq<char>,
    d: Seq<char>,
    e: Seq<char>,
    f: Seq<char>,
)
    ensures
        ({
            let nl = seq!['\n'];
            let t = a + nl + b + nl + c + nl + d + nl + e + nl + f;
            &&& shows_line(t, a)
            &&& shows_line(t, b)
            &&& shows_line(t, c)
            &&& shows_line(t, d)
            &&& shows_line(t, e)
            &&& shows_line(t, f)
        }),
{
    let nl = seq!['\n'];
    let empty = Seq::<char>::empty();
    let t = a + nl + b + nl + c + nl + d + nl + e + nl + f;
    assert(t =~= empty + a + (nl + b + nl + c + nl + d + nl + e + nl + f));
    lemma_line_between(empty, a, nl + b + nl + c + nl + d + nl + e + nl + f);
    assert(t =~= (a + nl) + b + (nl + c + nl + d + nl + e + nl + f));
    lemma_line_between(a + nl, b, nl + c + nl + d + nl + e + nl + f);
    assert(t =~= (a + nl + b + nl) + c + (nl + d + nl + e + nl + f));
    lemma_line_between(a + nl + b + nl, c, nl + d + nl + e + nl + f);
    assert(t =~= (a + nl + b + nl + c + nl) + d + (nl + e + nl + f));
    lemma_line_between(a + nl + b + nl + c + nl, d, nl + e + nl + f);
    assert(t =~= (a + nl + b + nl + c + nl + d + nl) + e + (nl + f));
    lemma_line_between(a + nl + b + nl + c + nl + d + nl, e, nl + f);
    assert(t =~= (a + nl + b + nl + c + nl + d + nl + e + nl) + f + empty);
    lemma_line_between(a + nl + b + nl + c + nl + d + nl + e + nl, f, empty);
}

/// Unicode `White_Space`, the class that `char::is_whitespace` tests.
pub open spec fn is_space(c: char) -> bool {
    let v = c as u32;
    ||| 0x9 <= v <= 0xD
    ||| v == 0x20
    ||| v == 0x85
    ||| v == 0xA0
    ||| v == 0x1680
    ||| 0x2000 <= v <= 0x200A
    ||| v == 0x2028
    ||| v == 0x2029
    ||| v == 0x202F
    ||| v == 0x205F
    ||| v == 0x3000
}

/// Whether `c` is whitespace (`char::is_whitespace`).
pub fn is_whitespace(c: char) -> (r: bool)
    ensures
        r == is_space(c),
{
    let v = c as u32;
    (0x9 <= v && v <= 0xD) || v == 0x20 || v == 0x85 || v == 0xA0 || v == 0x1680 || (0x2000 <= v
        && v <= 0x200A) || v == 0x2028 || v == 0x2029 || v == 0x202F || v == 0x205F || v == 0x3000
}

/// The words of a text: its maximal runs of non-whitespace characters, in
/// order (what `str::split_whitespace` yields).
pub open spec fn words(s: Seq<char>) -> Seq<Seq<char>>
    decreases s.len(),
{
    if s.len() == 0 {
        Seq::empty()
    } else {
        let before = words(s.drop_last());
        let c = s.last();
        if is_space(c) {
            before
        } else if s.len() >= 2 && !is_space(s[s.len() - 2]) {
            before.update(before.len() - 1, before.last().push(c))
        } else {
            before.push(seq![c])
        }
    }
}

/// A word never is empty and holds no whitespace; a text that ends in a
/// non-whitespace character has at least one word.
pub proof fn lemma_words_shape(s: Seq<char>)
    ensures
        forall|k: int|
            0 <= k < words(s).len() ==> {
                &&& #[trigger] words(s)[k].len() > 0
                &&& forall|j: int| 0 <= j < words(s)[k].len() ==> !is_space(words(s)[k][j])
            },
        s.len() > 0 && !is_space(s.last()) ==> words(s).len() > 0,
    decreases s.len(),
{
    if s.len() > 0 {
        lemma_words_shape(s.drop_last());
        let before = words(s.drop_last());
        let c = s.last();
        if !is_space(c) && s.len() >= 2 && !is_space(s[s.len() - 2]) {
            assert(s.drop_last().last() == s[s.len() - 2]);
            assert(before.len() > 0);
        }
        assert forall|k: int| 0 <= k < words(s).len() implies {
            &&& #[trigger] words(s)[k].len() > 0
            &&& forall|j: int| 0 <= j < words(s)[k].len() ==> !is_space(words(s)[k][j])
        } by {
            if !is_space(c) && k == words(s).len() - 1 {
                if s.len() >= 2 && !is_space(s[s.len() - 2]) {
                    assert(words(s)[k] == before.last().push(c));
                    assert(before.last() == before[before.len() - 1]);
                } else {
                    assert(words(s)[k] == seq![c]);
                }
            } else {
                assert(words(s)[k] == before[k]);
            }
        }
    }
}

/// Splits a text into its words (`str::split_whitespace`, collected).
pub fn split_words(s: &str) -> (r: Vec<String>)
    ensures
        r@.len() == words(s@).len(),
        forall|k: int| 0 <= k < r@.len() ==> #[trigger] r@[k]@ == words(s@)[k],
{
    let n = s.unicode_len();
    let mut out: Vec<String> = Vec::new();
    let mut in_word = false;
    let mut i: usize = 0;
    while i < n
        invariant
            n == s@.len(),
            i <= n,
            out@.len() == words(s@.take(i as int)).len(),
            forall|k: int|
                0 <= k < out@.len() ==> #[trigger] out@[k]@ == words(s@.take(i as int))[k],
            in_word == (i > 0 && !is_space(s@[i - 1])),
            in_word ==> out@.len() > 0,
        decreases n - i,
    {
        let c = s.get_char(i);
        let ghost prev = s@.take(i as int);
        let ghost next = s@.take(i + 1);
        assert(next.drop_last() =~= prev);
        assert(next.last() == c);
        proof {
            if i > 0 {
                assert(next[next.len() - 2] == s@[i - 1]);
            }
        }
        if is_whitespace(c) {
            in_word = false;
        } else if in_word {
            let mut last = out.pop().unwrap();
            push_char(&mut last, c);
            out.push(last);
            assert forall|k: int| 0 <= k < out@.len() implies #[trigger] out@[k]@ == words(next)[k] by {
                if k == out@.len() - 1 {
                    assert(words(prev).last() == words(prev)[k]);
                }
            }
        } else {
            let ghost before_push = out@;
            let mut w = String::new();
            push_char(&mut w, c);
            assert(w@ =~= seq![c]);
            out.push(w);
            assert forall|k: int| 0 <= k < out@.len() implies #[trigger] out@[k]@ == words(next)[k] by {
                if k < out@.len() - 1 {
                    assert(out@[k] == before_push[k]);
                }
            }
            in_word = true;
        }
        i = i + 1;
    }
    assert(s@.take(n as int) =~= s@);
    out
}

/// Whether two texts hold the same characters.
pub fn same_text(a: &str, b: &str) -> (r: bool)
    ensures
        r == (a@ == b@),
{
    let n = a.unicode_len();
    let m = b.unicode_len();
    if n != m {
        return false;
    }
    let mut i: usize = 0;
    while i < n
        invariant
            n == a@.len(),
            m == b@.len(),
            n == m,
            i <= n,
            forall|j: int| 0 <= j < i ==> a@[j] == b@[j],
        decreases n - i,
    {
        if a.get_char(i) != b.get_char(i) {
            return false;
        }
        i = i + 1;
    }
    assert(a@ =~= b@);
    true
}

/// What `str::to_lowercase` returns for a text: its full Unicode lowercase
/// mapping. Unicode's tables are not restated here.
pub uninterp spec fn lowercase(s: Seq<char>) -> Seq<char>;

/// `str::to_lowercase`: the result is the Unicode lowercase mapping of the
/// text, a function of the text alone (named `lowercase`; nothing more of it
/// is stated).
#[verifier::external_body]
pub(crate) fn to_lowercase(s: &str) -> (r: String)
    ensures
        r@ == lowercase(s@),
{
    s.to_lowercase()
}

} // verus!
