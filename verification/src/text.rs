//! Text building blocks: decimal rendering, blank detection and joins.

use vstd::prelude::*;

verus! {

/// The character of a decimal digit `d` (`0 <= d < 10`).
pub open spec fn digit_char(d: nat) -> char {
    (d + 48) as char
}

/// The decimal rendering of a natural number, without sign or padding.
pub open spec fn decimal(n: nat) -> Seq<char>
    decreases n,
{
    if n < 10 {
        seq![digit_char(n)]
    } else {
        decimal(n / 10).push(digit_char(n % 10))
    }
}

/// The decimal rendering of an integer, with a leading `-` when it is negative.
pub open spec fn signed_decimal(n: int) -> Seq<char> {
    if n < 0 {
        seq!['-'] + decimal((-n) as nat)
    } else {
        decimal(n as nat)
    }
}

/// The one-character string of a decimal digit.
fn digit_str(d: u64) -> (s: &'static str)
    requires
        d < 10,
    ensures
        s@ == seq![digit_char(d as nat)],
{
    proof {
        reveal_strlit("0");
        reveal_strlit("1");
        reveal_strlit("2");
        reveal_strlit("3");
        reveal_strlit("4");
        reveal_strlit("5");
        reveal_strlit("6");
        reveal_strlit("7");
        reveal_strlit("8");
        reveal_strlit("9");
    }
    match d {
        0 => "0",
        1 => "1",
        2 => "2",
        3 => "3",
        4 => "4",
        5 => "5",
        6 => "6",
        7 => "7",
        8 => "8",
        _ => "9",
    }
}

/// Appends the decimal rendering of `n` to `out`.
pub fn push_decimal(out: &mut String, n: u64)
    ensures
        final(out)@ == old(out)@ + decimal(n as nat),
    decreases n,
{
    if n < 10 {
        out.append(digit_str(n));
    } else {
        push_decimal(out, n / 10);
        out.append(digit_str(n % 10));
        assert(decimal(n as nat) == decimal((n / 10) as nat).push(digit_char((n % 10) as nat)));
    }
}


/// Appends the decimal rendering of a signed number to `out`.
pub fn push_signed_decimal(out: &mut String, n: i64)
    ensures
        final(out)@ == old(out)@ + signed_decimal(n as int),
{
    if n < 0 {
        proof {
            reveal_strlit("-");
        }
        out.append("-");
        let magnitude: u64 = if n == i64::MIN {
            9223372036854775808u64
        } else {
            (-n) as u64
        };
        push_decimal(out, magnitude);
        assert(old(out)@ + seq!['-'] + decimal(magnitude as nat) == old(out)@ + (seq!['-'] + decimal(
            magnitude as nat,
        )));
    } else {
        push_decimal(out, n as u64);
    }
}

/// A number rendered at least two characters wide, zero-padded like `{:02}`.
pub open spec fn two_digits(n: int) -> Seq<char> {
    if 0 <= n < 10 {
        seq!['0'] + decimal(n as nat)
    } else {
        signed_decimal(n)
    }
}

/// Appends `n` rendered at least two characters wide, zero-padded.
pub fn push_two_digits(out: &mut String, n: i64)
    ensures
        final(out)@ == old(out)@ + two_digits(n as int),
{
    if 0 <= n && n < 10 {
        proof {
            reveal_strlit("0");
        }
        out.append("0");
        push_decimal(out, n as u64);
        assert(old(out)@ + seq!['0'] + decimal(n as nat) == old(out)@ + (seq!['0'] + decimal(
            n as nat,
        )));
    } else {
        push_signed_decimal(out, n);
    }
}

/// Whether `c` has the Unicode `White_Space` property, as `char::is_whitespace` decides.
pub open spec fn is_white_space(c: char) -> bool {
    let u = c as u32;
    ||| 0x09 <= u <= 0x0d
    ||| u == 0x20
    ||| u == 0x85
    ||| u == 0xa0
    ||| u == 0x1680
    ||| 0x2000 <= u <= 0x200a
    ||| u == 0x2028
    ||| u == 0x2029
    ||| u == 0x202f
    ||| u == 0x205f
    ||| u == 0x3000
}

/// Whether a text holds nothing but white space, so that trimming it leaves it empty.
pub open spec fn is_blank_text(s: Seq<char>) -> bool {
    forall|i: int| 0 <= i < s.len() ==> is_white_space(#[trigger] s[i])
}

/// Decides the Unicode `White_Space` property of a character.
pub fn is_whitespace_char(c: char) -> (b: bool)
    ensures
        b == is_white_space(c),
{
    let u = c as u32;
    (0x09 <= u && u <= 0x0d) || u == 0x20 || u == 0x85 || u == 0xa0 || u == 0x1680 || (0x2000 <= u
        && u <= 0x200a) || u == 0x2028 || u == 0x2029 || u == 0x202f || u == 0x205f || u == 0x3000
}

/// Whether `s.trim()` is empty: every character of `s` is white space.
pub fn is_blank(s: &str) -> (b: bool)
    ensures
        b == is_blank_text(s@),
{
    let n = s.unicode_len();
    let mut i: usize = 0;
    while i < n
        invariant
            n == s@.len(),
            i <= n,
            forall|j: int| 0 <= j < i ==> is_white_space(#[trigger] s@[j]),
        decreases n - i,
    {
        let c = s.get_char(i);
        if !is_whitespace_char(c) {
            return false;
        }
        i = i + 1;
    }
    true
}

/// The views of a vector of strings.
pub open spec fn texts(v: Seq<String>) -> Seq<Seq<char>> {
    v.map_values(|s: String| s@)
}

/// The items joined by `sep`, as `[String]::join` builds it.
pub open spec fn join(items: Seq<Seq<char>>, sep: Seq<char>) -> Seq<char>
    decreases items.len(),
{
    if items.len() == 0 {
        Seq::empty()
    } else if items.len() == 1 {
        items[0]
    } else {
        join(items.drop_last(), sep) + sep + items.last()
    }
}

/// Each item framed by `prefix` and `suffix`, one after another.
pub open spec fn framed(items: Seq<Seq<char>>, prefix: Seq<char>, suffix: Seq<char>) -> Seq<char>
    decreases items.len(),
{
    if items.len() == 0 {
        Seq::empty()
    } else {
        framed(items.drop_last(), prefix, suffix) + prefix + items.last() + suffix
    }
}

/// Appends the items of `items` joined by `sep`.
pub fn push_joined(out: &mut String, items: &Vec<String>, sep: &str)
    ensures
        final(out)@ == old(out)@ + join(texts(items@), sep@),
{
    let ghost start = out@;
    let ghost all = texts(items@);
    let n = items.len();
    let mut i: usize = 0;
    while i < n
        invariant
            n == items@.len(),
            all == texts(items@),
            i <= n,
            out@ == start + join(all.take(i as int), sep@),
        decreases n - i,
    {
        assert(all.take(i + 1).drop_last() == all.take(i as int));
        assert(all.take(i + 1).last() == items@[i as int]@);
        if i > 0 {
            out.append(sep);
        }
        out.append(items[i].as_str());
        i = i + 1;
    }
    assert(all.take(n as int) == all);
}

/// Appends every item of `items`, each framed by `prefix` and `suffix`.
pub fn push_framed(out: &mut String, items: &Vec<String>, prefix: &str, suffix: &str)
    ensures
        final(out)@ == old(out)@ + framed(texts(items@), prefix@, suffix@),
{
    let ghost start = out@;
    let ghost all = texts(items@);
    let n = items.len();
    let mut i: usize = 0;
    while i < n
        invariant
            n == items@.len(),
            all == texts(items@),
            i <= n,
            out@ == start + framed(all.take(i as int), prefix@, suffix@),
        decreases n - i,
    {
        assert(all.take(i + 1).drop_last() == all.take(i as int));
        assert(all.take(i + 1).last() == items@[i as int]@);
        out.append(prefix);
        out.append(items[i].as_str());
        out.append(suffix);
        i = i + 1;
    }
    assert(all.take(n as int) == all);
}


/// Framing one more item appends exactly that item, between the prefix and
/// the suffix, to the framing of the others: every item gets its own prefix.
pub proof fn law_framed_push(items: Seq<Seq<char>>, x: Seq<char>, prefix: Seq<char>, suffix: Seq<char>)
    ensures
        framed(items.push(x), prefix, suffix) == framed(items, prefix, suffix) + prefix + x + suffix,
{
    assert(items.push(x).drop_last() =~= items);
}

/// Framing two lists one after the other is framing their concatenation;
/// a single item is framed as prefix, item, suffix.
pub proof fn law_framed_concat(a: Seq<Seq<char>>, b: Seq<Seq<char>>, prefix: Seq<char>, suffix: Seq<char>)
    ensures
        framed(a + b, prefix, suffix) == framed(a, prefix, suffix) + framed(b, prefix, suffix),
        forall|x: Seq<char>| #[trigger] framed(seq![x], prefix, suffix) == prefix + x + suffix,
    decreases b.len(),
{
    if b.len() == 0 {
        assert(a + b =~= a);
        assert(framed(a, prefix, suffix) + Seq::<char>::empty() =~= framed(a, prefix, suffix));
    } else {
        law_framed_concat(a, b.drop_last(), prefix, suffix);
        assert((a + b).drop_last() =~= a + b.drop_last());
        assert((a + b).last() == b.last());
        assert(framed(a + b, prefix, suffix) =~= framed(a, prefix, suffix) + framed(b, prefix, suffix));
    }
    assert forall|x: Seq<char>| #[trigger] framed(seq![x], prefix, suffix) == prefix + x + suffix by {
        let one: Seq<Seq<char>> = seq![x];
        assert(one.drop_last() =~= Seq::<Seq<char>>::empty());
        assert(one.last() == x);
        assert(framed(Seq::<Seq<char>>::empty(), prefix, suffix) == Seq::<char>::empty());
        assert(framed(one, prefix, suffix) == framed(one.drop_last(), prefix, suffix) + prefix + x
            + suffix);
        assert(Seq::<char>::empty() + prefix + x + suffix =~= prefix + x + suffix);
    }
}

} // verus!
