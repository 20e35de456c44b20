use vstd::prelude::*;

verus! {

/// The decimal digit `d` (0 to 9) as a character.
pub open spec fn digit_char(d: nat) -> char {
    ((48 + d) as u8) as char
}

/// The decimal representation of `n`, without sign or leading zeros.
pub open spec fn decimal(n: nat) -> Seq<char>
    decreases n,
{
    if n < 10 {
        seq![digit_char(n)]
    } else {
        decimal(n / 10).push(digit_char(n % 10))
    }
}

/// The number that a text of decimal digits stands for.
pub open spec fn numeral_value(s: Seq<char>) -> nat
    decreases s.len(),
{
    if s.len() == 0 {
        0
    } else {
        numeral_value(s.drop_last()) * 10 + ((s.last() as int - 48) as nat)
    }
}

/// Whether `c` is one of the characters `0` to `9`.
pub open spec fn is_decimal_digit(c: char) -> bool {
    '0' <= c <= '9'
}

/// Each digit is the character whose code is 48 more than it: `0` for 0 up
/// to `9` for 9.
pub proof fn lemma_digit_chars(d: nat)
    requires
        d < 10,
    ensures
        digit_char(d) as int == 48 + d,
        is_decimal_digit(digit_char(d)),
        d == 0 ==> digit_char(d) == '0',
        d == 9 ==> digit_char(d) == '9',
{
}

/// The decimal text of `n` is the standard base-10 numeral: it is made of
/// digits only, it reads back as `n`, and it starts with `0` only for 0
/// itself.
pub proof fn lemma_decimal_reads_back(n: nat)
    ensures
        numeral_value(decimal(n)) == n,
        decimal(n).len() >= 1,
        forall|i: int| 0 <= i < decimal(n).len() ==> is_decimal_digit(#[trigger] decimal(n)[i]),
        decimal(n)[0] == '0' ==> n == 0,
    decreases n,
{
    if n < 10 {
        lemma_digit_chars(n);
        assert(decimal(n).drop_last() == Seq::<char>::empty());
        assert(numeral_value(Seq::<char>::empty()) == 0);
        assert(decimal(n).last() == digit_char(n));
        assert(numeral_value(decimal(n)) == numeral_value(decimal(n).drop_last()) * 10 + ((
        decimal(n).last() as int - 48) as nat));
    } else {
        lemma_decimal_reads_back(n / 10);
        lemma_digit_chars(n % 10);
        let prefix = decimal(n / 10);
        assert(decimal(n).drop_last() == prefix);
        assert(decimal(n).last() == digit_char(n % 10));
        assert(numeral_value(decimal(n)) == numeral_value(prefix) * 10 + n % 10);
        assert((n / 10) * 10 + n % 10 == n) by (nonlinear_arith);
        assert(decimal(n)[0] == prefix[0]);
        assert forall|i: int| 0 <= i < decimal(n).len() implies is_decimal_digit(
            #[trigger] decimal(n)[i],
        ) by {
            if i < prefix.len() {
                assert(decimal(n)[i] == prefix[i]);
            }
        }
    }
}

/// Appends a character to a string (`String::push`).
#[verifier::external_body]
pub(crate) fn push_char(s: &mut String, c: char)
    ensures
        final(s)@ == old(s)@.push(c),
{
    s.push(c);
}

fn digit(d: u16) -> (c: char)
    requires
        d < 10,
    ensures
        c == digit_char(d as nat),
{
    let b: u8 = 48 + (d as u8);
    b as char
}

/// Appends the decimal representation of `n` to `s`.
pub fn push_decimal(s: &mut String, n: u16)
    ensures
        final(s)@ == old(s)@ + decimal(n as nat),
    decreases n,
{
    if n >= 10 {
        push_decimal(s, n / 10);
    }
    push_char(s, digit(n % 10));
    proof {
        if n >= 10 {
            assert(decimal(n as nat) == decimal((n / 10) as nat).push(digit_char((n % 10) as nat)));
        }
    }
}

/// The text that stands for `c` in HTML: `&`, `<`, `>`, `"`, `'` and `/`
/// become character references, every other character stands for itself.
pub open spec fn html_escape_char(c: char) -> Seq<char> {
    if c == '&' {
        seq!['&', 'a', 'm', 'p', ';']
    } else if c == '<' {
        seq!['&', 'l', 't', ';']
    } else if c == '>' {
        seq!['&', 'g', 't', ';']
    } else if c == '"' {
        seq!['&', 'q', 'u', 'o', 't', ';']
    } else if c == '\'' {
        seq!['&', '#', 'x', '2', '7', ';']
    } else if c == '/' {
        seq!['&', '#', 'x', '2', 'F', ';']
    } else {
        seq![c]
    }
}

/// `s` with each character replaced by [`html_escape_char`] of it.
pub open spec fn html_escape(s: Seq<char>) -> Seq<char>
    decreases s.len(),
{
    if s.len() == 0 {
        Seq::empty()
    } else {
        html_escape(s.drop_last()) + html_escape_char(s.last())
    }
}

/// The characters that HTML escaping removes from a text.
pub open spec fn html_special(c: char) -> bool {
    c == '<' || c == '>' || c == '"' || c == '\'' || c == '/'
}

/// `tera::escape_html`: the text with `&`, `<`, `>`, `"`, `'` and `/`
/// replaced by `&amp;`, `&lt;`, `&gt;`, `&quot;`, `&#x27;` and `&#x2F;`.
/// The function reserves twice the input's byte length up front, which
/// panics beyond `isize::MAX` bytes; `requires` leaves such inputs out.
#[verifier::external_body]
pub(crate) fn escape_html(s: &str) -> (r: String)
    requires
        2 * vstd::utf8::encode_utf8(s@).len() <= isize::MAX,
    ensures
        r@ == html_escape(s@),
{
    tera::escape_html(s)
}

/// Escaping a text for HTML leaves none of `<`, `>`, `"`, `'`, `/` in it.
pub proof fn lemma_html_escape_has_no_special(s: Seq<char>)
    ensures
        forall|i: int| 0 <= i < html_escape(s).len() ==> !html_special(#[trigger] html_escape(s)[i]),
    decreases s.len(),
{
    if s.len() > 0 {
        lemma_html_escape_has_no_special(s.drop_last());
        let a = html_escape(s.drop_last());
        let b = html_escape_char(s.last());
        assert(html_escape(s) == a + b);
        assert forall|i: int| 0 <= i < html_escape(s).len() implies !html_special(
            #[trigger] html_escape(s)[i],
        ) by {
            if i < a.len() {
                assert(html_escape(s)[i] == a[i]);
            } else {
                assert(html_escape(s)[i] == b[i - a.len()]);
            }
        }
    }
}

/// Whether `s` begins with `prefix`.
pub open spec fn starts_with(s: Seq<char>, prefix: Seq<char>) -> bool {
    s.len() >= prefix.len() && s.subrange(0, prefix.len() as int) == prefix
}

/// Reads HTML text back: each of `&amp;`, `&lt;`, `&gt;`, `&quot;`,
/// `&#x27;` and `&#x2F;` stands for the character it names, every other
/// character for itself.
pub open spec fn html_unescape(s: Seq<char>) -> Seq<char>
    decreases s.len(),
{
    if s.len() == 0 {
        Seq::empty()
    } else if starts_with(s, seq!['&', 'a', 'm', 'p', ';']) {
        seq!['&'] + html_unescape(s.skip(5))
    } else if starts_with(s, seq!['&', 'l', 't', ';']) {
        seq!['<'] + html_unescape(s.skip(4))
    } else if starts_with(s, seq!['&', 'g', 't', ';']) {
        seq!['>'] + html_unescape(s.skip(4))
    } else if starts_with(s, seq!['&', 'q', 'u', 'o', 't', ';']) {
        seq!['"'] + html_unescape(s.skip(6))
    } else if starts_with(s, seq!['&', '#', 'x', '2', '7', ';']) {
        seq!['\''] + html_unescape(s.skip(6))
    } else if starts_with(s, seq!['&', '#', 'x', '2', 'F', ';']) {
        seq!['/'] + html_unescape(s.skip(6))
    } else {
        seq![s[0]] + html_unescape(s.skip(1))
    }
}

/// Escaping distributes over concatenation.
pub proof fn lemma_html_escape_concat(s: Seq<char>, t: Seq<char>)
    ensures
        html_escape(s + t) == html_escape(s) + html_escape(t),
    decreases t.len(),
{
    if t.len() == 0 {
        assert(s + t == s);
        assert(html_escape(s) + html_escape(t) == html_escape(s));
    } else {
        lemma_html_escape_concat(s, t.drop_last());
        assert((s + t).drop_last() == s + t.drop_last());
        assert((s + t).last() == t.last());
    }
}

proof fn lemma_unescape_one(c: char, rest: Seq<char>)
    ensures
        html_unescape(html_escape_char(c) + rest) == seq![c] + html_unescape(rest),
{
    let e = html_escape_char(c);
    let s = e + rest;
    assert(s.len() > 0);
    assert(s.skip(e.len() as int) == rest);
    assert(s.subrange(0, e.len() as int) == e);
    if c == '&' {
        assert(starts_with(s, seq!['&', 'a', 'm', 'p', ';']));
    } else if c == '<' {
        assert(s[1] == 'l');
        assert(!starts_with(s, seq!['&', 'a', 'm', 'p', ';']));
        assert(starts_with(s, seq!['&', 'l', 't', ';']));
    } else if c == '>' {
        assert(s[1] == 'g');
        assert(!starts_with(s, seq!['&', 'a', 'm', 'p', ';']));
        assert(!starts_with(s, seq!['&', 'l', 't', ';']));
        assert(starts_with(s, seq!['&', 'g', 't', ';']));
    } else if c == '"' {
        assert(s[1] == 'q');
        assert(!starts_with(s, seq!['&', 'a', 'm', 'p', ';']));
        assert(!starts_with(s, seq!['&', 'l', 't', ';']));
        assert(!starts_with(s, seq!['&', 'g', 't', ';']));
        assert(starts_with(s, seq!['&', 'q', 'u', 'o', 't', ';']));
    } else if c == '\'' {
        assert(s[1] == '#' && s[4] == '7');
        assert(!starts_with(s, seq!['&', 'a', 'm', 'p', ';']));
        assert(!starts_with(s, seq!['&', 'l', 't', ';']));
        assert(!starts_with(s, seq!['&', 'g', 't', ';']));
        assert(!starts_with(s, seq!['&', 'q', 'u', 'o', 't', ';']));
        assert(starts_with(s, seq!['&', '#', 'x', '2', '7', ';']));
    } else if c == '/' {
        assert(s[1] == '#' && s[4] == 'F');
        assert(!starts_with(s, seq!['&', 'a', 'm', 'p', ';']));
        assert(!starts_with(s, seq!['&', 'l', 't', ';']));
        assert(!starts_with(s, seq!['&', 'g', 't', ';']));
        assert(!starts_with(s, seq!['&', 'q', 'u', 'o', 't', ';']));
        assert(!starts_with(s, seq!['&', '#', 'x', '2', '7', ';']));
        assert(starts_with(s, seq!['&', '#', 'x', '2', 'F', ';']));
    } else {
        assert(s[0] == c);
        assert(s.len() >= 4 ==> s.subrange(0, 4)[0] == c);
        assert(s.len() >= 5 ==> s.subrange(0, 5)[0] == c);
        assert(s.len() >= 6 ==> s.subrange(0, 6)[0] == c);
        assert(!starts_with(s, seq!['&', 'a', 'm', 'p', ';']));
        assert(!starts_with(s, seq!['&', 'l', 't', ';']));
        assert(!starts_with(s, seq!['&', 'g', 't', ';']));
        assert(!starts_with(s, seq!['&', 'q', 'u', 'o', 't', ';']));
        assert(!starts_with(s, seq!['&', '#', 'x', '2', '7', ';']));
        assert(!starts_with(s, seq!['&', '#', 'x', '2', 'F', ';']));
    }
}

/// Escaping loses nothing: reading the escaped text back as HTML gives
/// exactly the text that was escaped, so what a guest writes reaches the
/// couple unchanged.
pub proof fn lemma_html_escape_round_trip(s: Seq<char>)
    ensures
        html_unescape(html_escape(s)) == s,
    decreases s.len(),
{
    if s.len() > 0 {
        let rest = s.drop_first();
        lemma_html_escape_round_trip(rest);
        assert(seq![s[0]] + rest == s);
        lemma_html_escape_concat(seq![s[0]], rest);
        assert(seq![s[0]].drop_last() == Seq::<char>::empty());
        assert(html_escape(seq![s[0]]) == html_escape(Seq::<char>::empty()) + html_escape_char(s[0]));
        assert(html_escape(seq![s[0]]) == html_escape_char(s[0]));
        lemma_unescape_one(s[0], html_escape(rest));
    }
}

/// Different texts are escaped differently.
pub proof fn lemma_html_escape_injective(s: Seq<char>, t: Seq<char>)
    ensures
        html_escape(s) == html_escape(t) ==> s == t,
{
    lemma_html_escape_round_trip(s);
    lemma_html_escape_round_trip(t);
}

/// A text without `&` and without the special characters is left as it is.
pub proof fn lemma_html_escape_plain(s: Seq<char>)
    requires
        forall|i: int| 0 <= i < s.len() ==> !html_special(#[trigger] s[i]) && s[i] != '&',
    ensures
        html_escape(s) == s,
    decreases s.len(),
{
    if s.len() > 0 {
        lemma_html_escape_plain(s.drop_last());
        assert(s.drop_last().push(s.last()) == s);
    }
}

} // verus!
