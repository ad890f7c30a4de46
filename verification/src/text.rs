//! Text: numbers in decimal and hexadecimal, tokens, and string building.

use vstd::prelude::*;
use vstd::string::*;

verus! {

/// Specifies `String::push`: the character is appended at the end.
pub assume_specification[ String::push ](s: &mut String, ch: char)
    ensures
        final(s)@ == old(s)@.push(ch),
;

/// Specifies `char::is_whitespace`: it tells the characters with the Unicode
/// property `White_Space`.
pub assume_specification[ char::is_whitespace ](c: char) -> (r: bool)
    ensures
        r == is_white_space(c),
;

/// The characters with the Unicode property `White_Space`.
pub open spec fn is_white_space(c: char) -> bool {
    let v = c as int;
    ||| 0x9 <= v <= 0xd
    ||| v == 0x20
    ||| v == 0x85
    ||| v == 0xa0
    ||| v == 0x1680
    ||| 0x2000 <= v <= 0x200a
    ||| v == 0x2028
    ||| v == 0x2029
    ||| v == 0x202f
    ||| v == 0x205f
    ||| v == 0x3000
}

/// The decimal digit for `d`.
pub open spec fn digit(d: int) -> char {
    (('0' as int) + d) as char
}

/// `n` in decimal, without leading zeros.
pub open spec fn decimal(n: nat) -> Seq<char>
    decreases n,
{
    if n < 10 {
        seq![digit(n as int)]
    } else {
        decimal(n / 10).push(digit((n % 10) as int))
    }
}

/// Appends `n` in decimal.
pub fn push_decimal(out: &mut String, n: u64)
    ensures
        final(out)@ == old(out)@ + decimal(n as nat),
    decreases n,
{
    if n >= 10 {
        push_decimal(out, n / 10);
    }
    let d: u8 = (n % 10) as u8;
    out.push((48u8 + d) as char);
}

/// `n` in decimal.
pub fn decimal_string(n: u64) -> (r: String)
    ensures
        r@ == decimal(n as nat),
{
    let mut out = String::new();
    push_decimal(&mut out, n);
    out
}

/// The characters of a string.
pub fn to_chars(s: &str) -> (r: Vec<char>)
    ensures
        r@ == s@,
{
    let mut out: Vec<char> = Vec::new();
    for c in it: s.chars()
        invariant
            out@ == s@.take(it.index()),
            it.seq() == s@,
    {
        out.push(c);
    }
    out
}

/// The string of `chars[from..to]`.
pub fn from_chars(chars: &Vec<char>, from: usize, to: usize) -> (r: String)
    requires
        from <= to <= chars@.len(),
    ensures
        r@ == chars@.subrange(from as int, to as int),
{
    let mut out = String::new();
    let mut i: usize = from;
    while i < to
        invariant
            from <= i <= to <= chars@.len(),
            out@ == chars@.subrange(from as int, i as int),
        decreases to - i,
    {
        out.push(chars[i]);
        i = i + 1;
    }
    out
}

/// The first `n` characters of `s`, or all of them if there are fewer.
pub open spec fn prefix(s: Seq<char>, n: nat) -> Seq<char> {
    if s.len() <= n {
        s
    } else {
        s.take(n as int)
    }
}

/// The first `n` characters of `s`, or all of them if there are fewer.
pub fn take_chars(s: &str, n: usize) -> (r: String)
    ensures
        r@ == prefix(s@, n as nat),
{
    let chars = to_chars(s);
    let end: usize = if chars.len() <= n {
        chars.len()
    } else {
        n
    };
    from_chars(&chars, 0, end)
}

/// Whether `c` is an ASCII decimal digit.
pub open spec fn is_digit(c: char) -> bool {
    '0' <= c <= '9'
}

/// Whether every character of `s` is an ASCII decimal digit.
pub open spec fn all_digits(s: Seq<char>) -> bool {
    forall|i: int| 0 <= i < s.len() ==> is_digit(#[trigger] s[i])
}

/// The number that the decimal digits `s` stand for.
pub open spec fn digits_value(s: Seq<char>) -> int
    decreases s.len(),
{
    if s.len() == 0 {
        0
    } else {
        10 * digits_value(s.drop_last()) + (s.last() as int - '0' as int)
    }
}

/// The digits of a number: what follows an optional plus sign.
pub open spec fn unsigned_part(s: Seq<char>) -> Seq<char> {
    if s.len() > 0 && s[0] == '+' {
        s.skip(1)
    } else {
        s
    }
}

/// Reads an unsigned 64-bit number: an optional plus sign, then one or more
/// decimal digits of a value in range.
pub open spec fn parse_u64(s: Seq<char>) -> Option<u64> {
    let d = unsigned_part(s);
    if d.len() > 0 && all_digits(d) && digits_value(d) <= u64::MAX {
        Some(digits_value(d) as u64)
    } else {
        None
    }
}

proof fn lemma_digits_value_grows(s: Seq<char>, i: int)
    requires
        all_digits(s),
        0 <= i <= s.len(),
    ensures
        0 <= digits_value(s.take(i)) <= digits_value(s),
    decreases s.len(),
{
    if s.len() == 0 {
        assert(s.take(i) =~= s);
    } else {
        let p = s.drop_last();
        assert(is_digit(s.last()));
        assert forall|j: int| 0 <= j < p.len() implies is_digit(#[trigger] p[j]) by {
            assert(p[j] == s[j]);
        }
        if i == s.len() {
            assert(s.take(i) =~= s);
            lemma_digits_value_grows(p, p.len() as int);
            assert(p.take(p.len() as int) =~= p);
        } else {
            lemma_digits_value_grows(p, i);
            assert(p.take(i) =~= s.take(i));
        }
    }
}

/// Reads `chars[from..to]` as an unsigned 64-bit number.
pub fn parse_u64_chars(chars: &Vec<char>, from: usize, to: usize) -> (r: Option<u64>)
    requires
        from <= to <= chars@.len(),
    ensures
        r == parse_u64(chars@.subrange(from as int, to as int)),
{
    let ghost s = chars@.subrange(from as int, to as int);
    let ghost d = unsigned_part(s);
    let start: usize = if from < to && chars[from] == '+' {
        from + 1
    } else {
        from
    };
    assert(d =~= chars@.subrange(start as int, to as int));
    if start == to {
        return None;
    }
    let mut value: u64 = 0;
    let mut i: usize = start;
    while i < to
        invariant
            start <= i <= to <= chars@.len(),
            start < to,
            s == chars@.subrange(from as int, to as int),
            d == chars@.subrange(start as int, to as int),
            d == unsigned_part(s),
            all_digits(d.take(i - start)),
            value == digits_value(d.take(i - start)),
        decreases to - i,
    {
        let c = chars[i];
        assert(c == d[i - start]);
        if c < '0' || c > '9' {
            assert(!is_digit(d[i - start]));
            return None;
        }
        let ghost p = d.take(i - start);
        let ghost q = d.take(i + 1 - start);
        assert(q.drop_last() =~= p);
        assert(q.last() == c);
        assert forall|j: int| 0 <= j < q.len() implies is_digit(#[trigger] q[j]) by {
            if j < p.len() {
                assert(q[j] == p[j]);
            }
        }
        let add: u64 = (c as u32 - '0' as u32) as u64;
        assert(digits_value(q) == 10 * value + add);
        if value > (u64::MAX - add) / 10 {
            proof {
                if all_digits(d) {
                    lemma_digits_value_grows(d, i + 1 - start);
                }
            }
            return None;
        }
        value = value * 10 + add;
        i = i + 1;
    }
    assert(d.take(to - start) =~= d);
    Some(value)
}

proof fn lemma_digit_char(d: int)
    requires
        0 <= d < 10,
    ensures
        is_digit(digit(d)),
        digit(d) as int - '0' as int == d,
{
}

proof fn lemma_decimal_digits(n: nat)
    ensures
        decimal(n).len() > 0,
        all_digits(decimal(n)),
        digits_value(decimal(n)) == n,
    decreases n,
{
    if n < 10 {
        lemma_digit_char(n as int);
        let s = decimal(n);
        assert(s.drop_last() =~= Seq::<char>::empty());
        assert(digits_value(s.drop_last()) == 0);
    } else {
        lemma_decimal_digits(n / 10);
        lemma_digit_char((n % 10) as int);
        let s = decimal(n);
        assert(s.drop_last() =~= decimal(n / 10));
        assert forall|j: int| 0 <= j < s.len() implies is_digit(#[trigger] s[j]) by {
            if j < s.len() - 1 {
                assert(s[j] == decimal(n / 10)[j]);
            }
        }
    }
}

/// Reading back a number in decimal gives the number.
pub proof fn law_decimal_reads_back(n: u64)
    ensures
        parse_u64(decimal(n as nat)) == Some(n),
{
    lemma_decimal_digits(n as nat);
    assert(is_digit(decimal(n as nat)[0]));
}

/// Different numbers have different decimal texts.
pub proof fn law_decimal_is_injective(a: nat, b: nat)
    requires
        decimal(a) == decimal(b),
    ensures
        a == b,
{
    lemma_decimal_digits(a);
    lemma_decimal_digits(b);
}

/// The decimal text of a number holds digits only, and at least one.
pub proof fn law_decimal_is_digits(n: nat)
    ensures
        decimal(n).len() > 0,
        all_digits(decimal(n)),
{
    lemma_decimal_digits(n);
}

/// The first position from `from` on at which `s` holds `c`, or its end.
pub open spec fn find(s: Seq<char>, c: char, from: int) -> int
    decreases s.len() - from,
{
    if from >= s.len() || s[from] == c {
        from
    } else {
        find(s, c, from + 1)
    }
}

/// The parts of `s` from `from` on between the separators `sep`.
pub open spec fn split_from(s: Seq<char>, sep: char, from: int) -> Seq<Seq<char>>
    decreases s.len() - from, 0int,
{
    if from < 0 || from > s.len() {
        Seq::empty()
    } else {
        let end = find(s, sep, from);
        if from <= end < s.len() {
            seq![s.subrange(from, end)] + split_from(s, sep, end + 1)
        } else {
            seq![s.subrange(from, s.len() as int)]
        }
    }
}

/// The parts of `s` between the separators `sep`.
pub open spec fn split(s: Seq<char>, sep: char) -> Seq<Seq<char>> {
    split_from(s, sep, 0)
}

/// The first place of a character, found.
pub proof fn lemma_find_is(s: Seq<char>, c: char, from: int, end: int)
    requires
        0 <= from <= end < s.len(),
        forall|i: int| from <= i < end ==> s[i] != c,
        s[end] == c,
    ensures
        find(s, c, from) == end,
    decreases end - from,
{
    if from < end {
        lemma_find_is(s, c, from + 1, end);
    }
}

/// A character that does not occur is found at the end.
pub proof fn lemma_find_none(s: Seq<char>, c: char, from: int)
    requires
        0 <= from <= s.len(),
        forall|i: int| from <= i < s.len() ==> s[i] != c,
    ensures
        find(s, c, from) == s.len(),
    decreases s.len() - from,
{
    if from < s.len() {
        lemma_find_none(s, c, from + 1);
    }
}

/// The first part ends at the first separator.
pub proof fn lemma_split_at(s: Seq<char>, sep: char, from: int, end: int)
    requires
        0 <= from <= end < s.len(),
        forall|i: int| from <= i < end ==> s[i] != sep,
        s[end] == sep,
    ensures
        split_from(s, sep, from) == seq![s.subrange(from, end)] + split_from(s, sep, end + 1),
{
    lemma_find_is(s, sep, from, end);
}

/// Without a separator all the rest is one part.
pub proof fn lemma_split_last(s: Seq<char>, sep: char, from: int)
    requires
        0 <= from <= s.len(),
        forall|i: int| from <= i < s.len() ==> s[i] != sep,
    ensures
        split_from(s, sep, from) == seq![s.subrange(from, s.len() as int)],
{
    lemma_find_none(s, sep, from);
}

/// The first token that reads as an unsigned 64-bit number.
pub open spec fn first_number(tokens: Seq<Seq<char>>) -> Option<u64>
    decreases tokens.len(),
{
    if tokens.len() == 0 {
        None
    } else if parse_u64(tokens[0]) is Some {
        parse_u64(tokens[0])
    } else {
        first_number(tokens.skip(1))
    }
}

/// The first position from `from` on at which `chars` holds `c`, or its end.
pub fn find_char(chars: &Vec<char>, c: char, from: usize) -> (r: usize)
    requires
        from <= chars@.len(),
    ensures
        r == find(chars@, c, from as int),
        from <= r <= chars@.len(),
{
    let mut i: usize = from;
    while i < chars.len() && chars[i] != c
        invariant
            from <= i <= chars@.len(),
            find(chars@, c, from as int) == find(chars@, c, i as int),
        decreases chars@.len() - i,
    {
        i = i + 1;
    }
    i
}

/// The first token of `chars` between separators `sep` that reads as an
/// unsigned 64-bit number.
pub fn first_number_token(chars: &Vec<char>, sep: char) -> (r: Option<u64>)
    ensures
        r == first_number(split(chars@, sep)),
{
    let mut from: usize = 0;
    loop
        invariant
            from <= chars@.len(),
            first_number(split(chars@, sep)) == first_number(split_from(chars@, sep, from as int)),
        decreases chars@.len() - from,
    {
        let end = find_char(chars, sep, from);
        let ghost rest = split_from(chars@, sep, from as int);
        assert(rest[0] =~= chars@.subrange(from as int, end as int));
        match parse_u64_chars(chars, from, end) {
            Some(n) => {
                return Some(n);
            },
            None => {
                if end == chars.len() {
                    assert(rest.skip(1) =~= Seq::<Seq<char>>::empty());
                    assert(first_number(rest.skip(1)) is None);
                    return None;
                }
                assert(rest.skip(1) =~= split_from(chars@, sep, end + 1));
                from = end + 1;
            },
        }
    }
}

/// The end of the word of `s` that covers position `from`.
pub open spec fn word_end(s: Seq<char>, from: int) -> int
    decreases s.len() - from,
{
    if from >= s.len() || is_white_space(s[from]) {
        from
    } else {
        word_end(s, from + 1)
    }
}

proof fn lemma_word_end_bounds(s: Seq<char>, from: int)
    requires
        0 <= from <= s.len(),
    ensures
        from <= word_end(s, from) <= s.len(),
        from < s.len() && !is_white_space(s[from]) ==> from < word_end(s, from),
    decreases s.len() - from,
{
    if from < s.len() && !is_white_space(s[from]) {
        lemma_word_end_bounds(s, from + 1);
    }
}

/// The words of `s` from `from` on: its longest runs without white space.
pub open spec fn words_from(s: Seq<char>, from: int) -> Seq<Seq<char>>
    decreases s.len() - from,
{
    if from < 0 || from >= s.len() {
        Seq::empty()
    } else if is_white_space(s[from]) {
        words_from(s, from + 1)
    } else {
        let end = word_end(s, from);
        if end <= from || end > s.len() {
            Seq::empty()
        } else {
            seq![s.subrange(from, end)] + words_from(s, end)
        }
    }
}

/// The words of `s`: its longest runs without white space.
pub open spec fn words(s: Seq<char>) -> Seq<Seq<char>> {
    words_from(s, 0)
}

/// The views of a list of strings.
pub open spec fn views(strings: Seq<String>) -> Seq<Seq<char>> {
    strings.map_values(|s: String| s@)
}

/// The words of `s`: its longest runs without white space.
pub fn split_whitespace(s: &str) -> (r: Vec<String>)
    ensures
        views(r@) == words(s@),
{
    let chars = to_chars(s);
    let mut out: Vec<String> = Vec::new();
    let mut i: usize = 0;
    while i < chars.len()
        invariant
            i <= chars@.len(),
            chars@ == s@,
            views(out@) + words_from(s@, i as int) == words(s@),
        decreases chars@.len() - i,
    {
        if chars[i].is_whitespace() {
            i = i + 1;
        } else {
            let start: usize = i;
            let ghost before = views(out@);
            while i < chars.len() && !chars[i].is_whitespace()
                invariant
                    start <= i <= chars@.len(),
                    chars@ == s@,
                    word_end(s@, start as int) == word_end(s@, i as int),
                decreases chars@.len() - i,
            {
                i = i + 1;
            }
            proof {
                lemma_word_end_bounds(s@, start as int);
            }
            let word = from_chars(&chars, start, i);
            out.push(word);
            assert(views(out@) =~= before.push(s@.subrange(start as int, i as int)));
            assert(views(out@) + words_from(s@, i as int) =~= before + words_from(
                s@,
                start as int,
            ));
        }
    }
    assert(views(out@) + words_from(s@, i as int) =~= views(out@));
    out
}

/// Whether `s` holds no white space.
pub open spec fn no_white_space(s: Seq<char>) -> bool {
    forall|i: int| 0 <= i < s.len() ==> !is_white_space(#[trigger] s[i])
}

proof fn lemma_word_end_is(s: Seq<char>, from: int, end: int)
    requires
        0 <= from <= end <= s.len(),
        forall|i: int| from <= i < end ==> !is_white_space(#[trigger] s[i]),
        end < s.len() ==> is_white_space(s[end]),
    ensures
        word_end(s, from) == end,
    decreases end - from,
{
    if from < end {
        lemma_word_end_is(s, from + 1, end);
    }
}

/// Two words with one space between them split into the two words.
pub proof fn law_two_words(a: Seq<char>, b: Seq<char>)
    requires
        no_white_space(a),
        no_white_space(b),
        a.len() > 0,
        b.len() > 0,
    ensures
        words(a + seq![' '] + b) == seq![a, b],
{
    let s = a + seq![' '] + b;
    let n = a.len() as int;
    assert forall|i: int| 0 <= i < n implies !is_white_space(#[trigger] s[i]) by {
        assert(s[i] == a[i]);
    }
    assert(is_white_space(s[n]));
    assert forall|i: int| n + 1 <= i < s.len() implies !is_white_space(#[trigger] s[i]) by {
        assert(s[i] == b[i - n - 1]);
    }
    lemma_word_end_is(s, 0, n);
    lemma_word_end_is(s, n + 1, s.len() as int);
    assert(s.subrange(0, n) =~= a);
    assert(s.subrange(n + 1, s.len() as int) =~= b);
    assert(words_from(s, s.len() as int) =~= Seq::<Seq<char>>::empty());
    assert(words_from(s, n + 1) =~= seq![b]);
    assert(words_from(s, n) == words_from(s, n + 1));
    assert(words_from(s, 0) =~= seq![a] + seq![b]);
}

/// The lower-case hexadecimal digit for `d`.
pub open spec fn hex_digit(d: int) -> char {
    if d < 10 {
        digit(d)
    } else {
        (('a' as int) + (d - 10)) as char
    }
}

/// The lower-case hexadecimal digit for `d`.
pub fn hex_char(d: u8) -> (r: char)
    requires
        d < 16,
    ensures
        r == hex_digit(d as int),
{
    if d < 10 {
        (48u8 + d) as char
    } else {
        (97u8 + (d - 10)) as char
    }
}

/// The bytes in lower-case hexadecimal, two digits each.
pub open spec fn hex(bytes: Seq<u8>) -> Seq<char> {
    Seq::new(
        2 * bytes.len(),
        |i: int|
            if i % 2 == 0 {
                hex_digit((bytes[i / 2] / 16) as int)
            } else {
                hex_digit((bytes[i / 2] % 16) as int)
            },
    )
}

/// The bytes in lower-case hexadecimal, two digits each.
pub fn hex_string(bytes: &[u8]) -> (r: String)
    ensures
        r@ == hex(bytes@),
{
    let mut out = String::new();
    let mut i: usize = 0;
    while i < bytes.len()
        invariant
            i <= bytes@.len(),
            out@ == hex(bytes@.take(i as int)),
        decreases bytes@.len() - i,
    {
        out.push(hex_char(bytes[i] / 16));
        out.push(hex_char(bytes[i] % 16));
        i = i + 1;
    }
    assert(bytes@.take(i as int) =~= bytes@);
    out
}

/// The digits are those from zero to nine, and from `a` to `f` behind them.
pub proof fn law_digits_in_order(d: int)
    ensures
        0 <= d < 10 ==> digit(d) == "0123456789"@[d],
        0 <= d < 16 ==> hex_digit(d) == "0123456789abcdef"@[d],
{
    reveal_strlit("0123456789");
    reveal_strlit("0123456789abcdef");
}

proof fn lemma_first_digit(n: nat)
    requires
        n > 0,
    ensures
        decimal(n).len() > 0,
        decimal(n)[0] != '0',
    decreases n,
{
    if n >= 10 {
        lemma_first_digit(n / 10);
        assert(decimal(n)[0] == decimal(n / 10)[0]);
    }
}

/// The decimal text of a number other than zero starts with another digit than
/// zero, that of zero is one digit, and ten times as large a number has one
/// digit more.
pub proof fn law_decimal_has_no_leading_zero(n: nat)
    ensures
        n > 0 ==> decimal(n)[0] != '0',
        decimal(0) == seq!['0'],
        n > 0 ==> decimal(10 * n) == decimal(n).push('0'),
{
    if n > 0 {
        lemma_first_digit(n);
        assert((10 * n) / 10 == n);
        assert((10 * n) % 10 == 0);
    }
}

/// The value of digits: that of one digit is its place in the order of digits, and
/// a digit behind others counts for itself and them for ten times as much. A zero
/// in front changes nothing.
pub proof fn law_digits_value(s: Seq<char>, c: char)
    ensures
        digits_value(Seq::empty()) == 0,
        digits_value(s.push(c)) == 10 * digits_value(s) + (c as int - 48),
        digits_value(seq!['0'] + s) == digits_value(s),
    decreases s.len(),
{
    assert(s.push(c).drop_last() =~= s);
    let z = seq!['0'] + s;
    if s.len() == 0 {
        assert(z.drop_last() =~= Seq::<char>::empty());
        assert(digits_value(z.drop_last()) == 0);
    } else {
        law_digits_value(s.drop_last(), c);
        assert(z.drop_last() =~= seq!['0'] + s.drop_last());
    }
}

/// What reads as a number: one or more digits whose value is in range, with or
/// without a plus sign in front. Then it reads as the value of the digits.
pub proof fn law_what_reads_as_a_number(s: Seq<char>)
    ensures
        parse_u64(Seq::empty()) is None,
        parse_u64(seq!['+']) is None,
        s.len() > 0 && (forall|i: int| 0 <= i < s.len() ==> '0' <= #[trigger] s[i] <= '9') ==> {
            &&& digits_value(s) <= u64::MAX ==> parse_u64(s) == Some(digits_value(s) as u64)
            &&& digits_value(s) > u64::MAX ==> parse_u64(s) is None
            &&& parse_u64(seq!['+'] + s) == parse_u64(s)
        },
        forall|i: int|
            0 < i < s.len() && !('0' <= #[trigger] s[i] <= '9') ==> parse_u64(s) is None,
        s.len() > 0 && !('0' <= s[0] <= '9') && s[0] != '+' ==> parse_u64(s) is None,
{
    assert(seq!['+'].skip(1) =~= Seq::<char>::empty());
    assert((seq!['+'] + s).skip(1) =~= s);
    if s.len() > 0 && (forall|i: int| 0 <= i < s.len() ==> '0' <= #[trigger] s[i] <= '9') {
        assert(s[0] != '+');
        assert(all_digits(s));
    }
    assert forall|i: int| 0 < i < s.len() && !('0' <= #[trigger] s[i] <= '9') implies parse_u64(
        s,
    ) is None by {
        if s[0] == '+' {
            assert(s.skip(1)[i - 1] == s[i]);
            assert(!is_digit(s.skip(1)[i - 1]));
        } else {
            assert(!is_digit(s[i]));
        }
    }
    if s.len() > 0 && !('0' <= s[0] <= '9') && s[0] != '+' {
        assert(!is_digit(s[0]));
    }
}

/// The first characters of a text: no more than asked for, no fewer unless the
/// text is shorter, and those that it starts with.
pub proof fn law_prefix_starts_the_text(s: Seq<char>, n: nat)
    ensures
        prefix(s, n).len() == n || (s.len() < n && prefix(s, n).len() == s.len()),
        forall|i: int| 0 <= i < prefix(s, n).len() ==> #[trigger] prefix(s, n)[i] == s[i],
        prefix(s, n).is_prefix_of(s),
{
}

proof fn lemma_find_later(s: Seq<char>, t: Seq<char>, c: char, by: int, from: int)
    requires
        by >= 0,
        0 <= from <= t.len(),
        s.len() == by + t.len(),
        forall|i: int| 0 <= i < t.len() ==> s[by + i] == #[trigger] t[i],
    ensures
        find(s, c, by + from) == by + find(t, c, from),
        from <= find(t, c, from) <= t.len(),
    decreases t.len() - from,
{
    if from < t.len() && t[from] != c {
        lemma_find_later(s, t, c, by, from + 1);
    }
}

proof fn lemma_split_later(s: Seq<char>, t: Seq<char>, c: char, by: int, from: int)
    requires
        by >= 0,
        0 <= from <= t.len(),
        s.len() == by + t.len(),
        forall|i: int| 0 <= i < t.len() ==> s[by + i] == #[trigger] t[i],
    ensures
        split_from(s, c, by + from) == split_from(t, c, from),
    decreases t.len() - from,
{
    lemma_find_later(s, t, c, by, from);
    let end = find(t, c, from);
    assert(s.subrange(by + from, by + end) =~= t.subrange(from, end));
    if end < t.len() {
        lemma_split_later(s, t, c, by, end + 1);
    }
}

/// The parts of a text: one without a separator is one part, and what stands in
/// front of the first separator is the first part, with those of the rest behind
/// it.
pub proof fn law_split_peels(a: Seq<char>, sep: char, rest: Seq<char>)
    requires
        !a.contains(sep),
    ensures
        split(a, sep) == seq![a],
        split(a + seq![sep] + rest, sep) == seq![a] + split(rest, sep),
{
    assert forall|i: int| 0 <= i < a.len() implies a[i] != sep by {
        assert(a.contains(a[i]));
    }
    lemma_split_last(a, sep, 0);
    assert(a.subrange(0, a.len() as int) =~= a);
    let s = a + seq![sep] + rest;
    let n = a.len() as int;
    lemma_split_at(s, sep, 0, n);
    assert(s.subrange(0, n) =~= a);
    lemma_split_later(s, rest, sep, n + 1, 0);
}

/// The first number among tokens: the value of a token that reads as a number, if
/// none in front of it does; none if no token does.
pub proof fn law_first_number_is_first(tokens: Seq<Seq<char>>, at: int)
    requires
        0 <= at <= tokens.len(),
        forall|i: int| 0 <= i < at ==> parse_u64(#[trigger] tokens[i]) is None,
    ensures
        at < tokens.len() && parse_u64(tokens[at]) is Some ==> first_number(tokens) == parse_u64(
            tokens[at],
        ),
        at == tokens.len() ==> first_number(tokens) is None,
    decreases at,
{
    if at > 0 {
        let rest = tokens.skip(1);
        assert forall|i: int| 0 <= i < at - 1 implies parse_u64(#[trigger] rest[i]) is None by {
            assert(rest[i] == tokens[i + 1]);
        }
        law_first_number_is_first(rest, at - 1);
        assert(parse_u64(tokens[0]) is None);
    }
}

proof fn lemma_word_end_later(s: Seq<char>, t: Seq<char>, by: int, from: int)
    requires
        by >= 0,
        0 <= from <= t.len(),
        s.len() == by + t.len(),
        forall|i: int| 0 <= i < t.len() ==> s[by + i] == #[trigger] t[i],
    ensures
        word_end(s, by + from) == by + word_end(t, from),
    decreases t.len() - from,
{
    if from < t.len() && !is_white_space(t[from]) {
        lemma_word_end_later(s, t, by, from + 1);
    }
}

proof fn lemma_words_later(s: Seq<char>, t: Seq<char>, by: int, from: int)
    requires
        by >= 0,
        0 <= from <= t.len(),
        s.len() == by + t.len(),
        forall|i: int| 0 <= i < t.len() ==> s[by + i] == #[trigger] t[i],
    ensures
        words_from(s, by + from) == words_from(t, from),
    decreases t.len() - from,
{
    if from < t.len() {
        assert(s[by + from] == t[from]);
        if is_white_space(t[from]) {
            lemma_words_later(s, t, by, from + 1);
        } else {
            lemma_word_end_later(s, t, by, from);
            lemma_word_end_bounds(t, from);
            let end = word_end(t, from);
            assert(s.subrange(by + from, by + end) =~= t.subrange(from, end));
            lemma_words_later(s, t, by, end);
        }
    }
}

/// The words of a text: none in an empty one; white space in front changes
/// nothing; characters without white space, alone or in front of white space, are
/// a word, with those of the rest behind it.
pub proof fn law_words_peel(a: Seq<char>, space: char, rest: Seq<char>)
    requires
        no_white_space(a),
        a.len() > 0,
        is_white_space(space),
    ensures
        words(Seq::empty()) == Seq::<Seq<char>>::empty(),
        words(seq![space] + rest) == words(rest),
        words(a) == seq![a],
        words(a + seq![space] + rest) == seq![a] + words(rest),
{
    lemma_words_later(seq![space] + rest, rest, 1, 0);
    let n = a.len() as int;
    lemma_word_end_is(a, 0, n);
    assert(a.subrange(0, n) =~= a);
    assert(words_from(a, n) =~= Seq::<Seq<char>>::empty());
    assert(words(a) =~= seq![a]);
    let s = a + seq![space] + rest;
    assert forall|i: int| 0 <= i < n implies !is_white_space(#[trigger] s[i]) by {
        assert(s[i] == a[i]);
    }
    lemma_word_end_is(s, 0, n);
    assert(s.subrange(0, n) =~= a);
    lemma_words_later(s, rest, n + 1, 0);
    assert(words_from(s, n) == words_from(s, n + 1));
    assert(words(s) =~= seq![a] + words(rest));
}

/// The hexadecimal text of bytes: two digits for each, the higher one first.
pub proof fn law_hex_shows_every_byte(bytes: Seq<u8>, i: int)
    requires
        0 <= i < bytes.len(),
    ensures
        hex(bytes).len() == 2 * bytes.len(),
        hex(bytes)[2 * i] == "0123456789abcdef"@[bytes[i] as int / 16],
        hex(bytes)[2 * i + 1] == "0123456789abcdef"@[bytes[i] as int % 16],
{
    law_digits_in_order(bytes[i] as int / 16);
    law_digits_in_order(bytes[i] as int % 16);
    assert((2 * i) / 2 == i && (2 * i) % 2 == 0);
    assert((2 * i + 1) / 2 == i && (2 * i + 1) % 2 == 1);
}

/// The views of strings are those of each of them, in their order.
pub proof fn law_views_of_each(strings: Seq<String>, i: int)
    requires
        0 <= i < strings.len(),
    ensures
        views(strings).len() == strings.len(),
        views(strings)[i] == strings[i]@,
{
}

} // verus!
