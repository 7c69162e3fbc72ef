//! Text as sequences of characters: comparison, trimming, number rendering
//! and parsing.
use vstd::prelude::*;

verus! {

/// The trusted contract of [`String::push`]: the character is appended.
pub assume_specification[ String::push ](s: &mut String, c: char)
    ensures
        final(s)@ == old(s)@.push(c),
;

/// Whether a character has the Unicode `White_Space` property.
pub open spec fn white_space(c: char) -> bool {
    ||| '\u{9}' <= c <= '\u{d}'
    ||| c == ' '
    ||| c == '\u{85}'
    ||| c == '\u{a0}'
    ||| c == '\u{1680}'
    ||| '\u{2000}' <= c <= '\u{200a}'
    ||| c == '\u{2028}'
    ||| c == '\u{2029}'
    ||| c == '\u{202f}'
    ||| c == '\u{205f}'
    ||| c == '\u{3000}'
}

/// Whether a character is white space.
fn is_white_space(c: char) -> (r: bool)
    ensures
        r == white_space(c),
{
    ('\u{9}' <= c && c <= '\u{d}') || c == ' ' || c == '\u{85}' || c == '\u{a0}' || c
        == '\u{1680}' || ('\u{2000}' <= c && c <= '\u{200a}') || c == '\u{2028}' || c
        == '\u{2029}' || c == '\u{202f}' || c == '\u{205f}' || c == '\u{3000}'
}

/// The characters of `s`, in order.
pub fn to_chars(s: &str) -> (r: Vec<char>)
    ensures
        r@ == s@,
{
    let mut out: Vec<char> = Vec::new();
    for c in it: s.chars()
        invariant
            it.seq() == s@,
            out@ == s@.take(it.index() as int),
    {
        out.push(c);
    }
    out
}

/// Whether `a` and `b` hold the same characters.
pub fn same(a: &str, b: &str) -> (r: bool)
    ensures
        r == (a@ == b@),
{
    proof {
        vstd::utf8::encode_utf8_decode_utf8(a@);
        vstd::utf8::encode_utf8_decode_utf8(b@);
    }
    let x = a.as_bytes();
    let y = b.as_bytes();
    if x.len() != y.len() {
        return false;
    }
    let mut i: usize = 0;
    while i < x.len()
        invariant
            i <= x.len(),
            x.len() == y.len(),
            x@ == vstd::utf8::encode_utf8(a@),
            y@ == vstd::utf8::encode_utf8(b@),
            forall|j: int| 0 <= j < i ==> x@[j] == y@[j],
        decreases x.len() - i,
    {
        if x[i] != y[i] {
            return false;
        }
        i += 1;
    }
    assert(x@ =~= y@);
    true
}

/// The views of the strings of a list.
pub open spec fn texts(v: Seq<String>) -> Seq<Seq<char>> {
    v.map_values(|s: String| s@)
}

/// `s` without its leading white space.
pub open spec fn trim_start(s: Seq<char>) -> Seq<char>
    decreases s.len(),
{
    if s.len() > 0 && white_space(s[0]) {
        trim_start(s.drop_first())
    } else {
        s
    }
}

/// `s` without its trailing white space.
pub open spec fn trim_end(s: Seq<char>) -> Seq<char>
    decreases s.len(),
{
    if s.len() > 0 && white_space(s.last()) {
        trim_end(s.drop_last())
    } else {
        s
    }
}

/// `s` without leading and trailing white space.
pub open spec fn trimmed(s: Seq<char>) -> Seq<char> {
    trim_end(trim_start(s))
}

/// Removes leading and trailing white space.
pub fn trim(s: &str) -> (r: String)
    ensures
        r@ == trimmed(s@),
{
    let chars = to_chars(s);
    let mut from: usize = 0;
    assert(chars@.skip(0) == chars@);
    while from < chars.len() && is_white_space(chars[from])
        invariant
            from <= chars.len(),
            trim_start(chars@) == trim_start(chars@.skip(from as int)),
        ensures
            from <= chars.len(),
            trim_start(chars@) == chars@.skip(from as int),
        decreases chars.len() - from,
    {
        assert(chars@.skip(from as int).drop_first() == chars@.skip(from + 1));
        from += 1;
    }
    let mut to: usize = chars.len();
    while to > from && is_white_space(chars[to - 1])
        invariant
            from <= to <= chars.len(),
            trim_end(chars@.skip(from as int)) == trim_end(
                chars@.subrange(from as int, to as int),
            ),
        ensures
            from <= to <= chars.len(),
            trim_end(chars@.skip(from as int)) == chars@.subrange(from as int, to as int),
        decreases to,
    {
        assert(chars@.subrange(from as int, to as int).drop_last() == chars@.subrange(
            from as int,
            to - 1,
        ));
        to -= 1;
    }
    range_string(&chars, from, to)
}

/// The string made of `chars[from..to]`.
pub fn range_string(chars: &Vec<char>, from: usize, to: usize) -> (r: String)
    requires
        from <= to <= chars.len(),
    ensures
        r@ == chars@.subrange(from as int, to as int),
{
    let mut out = String::new();
    let mut i: usize = from;
    while i < to
        invariant
            from <= i <= to <= chars.len(),
            out@ == chars@.subrange(from as int, i as int),
        decreases to - i,
    {
        out.push(chars[i]);
        i += 1;
        assert(chars@.subrange(from as int, i as int) == chars@.subrange(
            from as int,
            i - 1,
        ).push(chars@[i - 1]));
    }
    out
}

/// Whether `s` begins with the characters of `prefix`.
pub open spec fn has_prefix(s: Seq<char>, prefix: Seq<char>) -> bool {
    prefix.len() <= s.len() && s.take(prefix.len() as int) == prefix
}

/// What follows `prefix` in `s`, if `s` begins with it.
pub fn strip_prefix(s: &str, prefix: &str) -> (r: Option<String>)
    ensures
        match r {
            Some(rest) => has_prefix(s@, prefix@) && rest@ == s@.skip(prefix@.len() as int),
            None => !has_prefix(s@, prefix@),
        },
{
    let a = to_chars(s);
    let b = to_chars(prefix);
    if b.len() > a.len() {
        return None;
    }
    let mut i: usize = 0;
    while i < b.len()
        invariant
            i <= b.len() <= a.len(),
            a@ == s@,
            b@ == prefix@,
            forall|j: int| 0 <= j < i ==> a@[j] == b@[j],
        decreases b.len() - i,
    {
        if a[i] != b[i] {
            assert(s@.take(prefix@.len() as int)[i as int] == a@[i as int]);
            return None;
        }
        i += 1;
    }
    assert(s@.take(prefix@.len() as int) =~= prefix@);
    let rest = range_string(&a, b.len(), a.len());
    assert(rest@ =~= s@.skip(prefix@.len() as int));
    Some(rest)
}

/// Whether `s` begins with the characters of `prefix`.
pub fn starts_with(s: &str, prefix: &str) -> (r: bool)
    ensures
        r == has_prefix(s@, prefix@),
{
    strip_prefix(s, prefix).is_some()
}

/// `a` comes strictly before `b` in the order of their code points.
pub open spec fn before(a: Seq<char>, b: Seq<char>) -> bool
    decreases a.len(),
{
    b.len() > 0 && (a.len() == 0 || (a[0] as u32) < (b[0] as u32) || (a[0] == b[0] && before(
        a.drop_first(),
        b.drop_first(),
    )))
}

/// The order is transitive.
pub proof fn lemma_before_transitive(a: Seq<char>, b: Seq<char>, c: Seq<char>)
    requires
        before(a, b),
        before(b, c),
    ensures
        before(a, c),
    decreases a.len(),
{
    if a.len() > 0 && b.len() > 0 && c.len() > 0 && a[0] == b[0] && b[0] == c[0] {
        lemma_before_transitive(a.drop_first(), b.drop_first(), c.drop_first());
    }
}

/// Of two different texts exactly one comes before the other, and no text
/// comes before itself.
pub proof fn lemma_before_total(a: Seq<char>, b: Seq<char>)
    ensures
        before(a, b) || before(b, a) || a == b,
        !(before(a, b) && before(b, a)),
        a == b ==> !before(a, b),
    decreases a.len(),
{
    if a.len() > 0 && b.len() > 0 {
        lemma_before_total(a.drop_first(), b.drop_first());
        if a[0] == b[0] && a.drop_first() == b.drop_first() {
            assert(a =~= seq![a[0]] + a.drop_first());
            assert(b =~= seq![b[0]] + b.drop_first());
        }
        vstd::utf8::char_u32_cast(a[0], a[0] as u32);
        vstd::utf8::char_u32_cast(b[0], b[0] as u32);
    } else if a.len() == 0 && b.len() == 0 {
        assert(a =~= b);
    }
}

/// Whether `a` comes strictly before `b`.
pub fn is_before(a: &str, b: &str) -> (r: bool)
    ensures
        r == before(a@, b@),
{
    let x = to_chars(a);
    let y = to_chars(b);
    let mut i: usize = 0;
    assert(x@.skip(0) == x@);
    assert(y@.skip(0) == y@);
    while i < x.len() && i < y.len() && x[i] == y[i]
        invariant
            i <= x.len(),
            i <= y.len(),
            x@ == a@,
            y@ == b@,
            before(a@, b@) == before(x@.skip(i as int), y@.skip(i as int)),
        decreases x.len() - i,
    {
        assert(x@.skip(i as int).drop_first() == x@.skip(i + 1));
        assert(y@.skip(i as int).drop_first() == y@.skip(i + 1));
        i += 1;
    }
    if i >= y.len() {
        false
    } else if i >= x.len() {
        true
    } else {
        let p: char = x[i];
        let q: char = y[i];
        assert(x@.skip(i as int)[0] == p && y@.skip(i as int)[0] == q);
        (p as u32) < (q as u32)
    }
}

/// `c` in lower case, if it is a letter of the ASCII alphabet.
pub open spec fn ascii_lower(c: char) -> char {
    if 65 <= c as u32 <= 90 {
        ((c as u32) + 32) as char
    } else {
        c
    }
}

/// `s` with its ASCII letters in lower case.
pub open spec fn ascii_lowercase(s: Seq<char>) -> Seq<char> {
    s.map_values(|c: char| ascii_lower(c))
}

/// Turns the ASCII letters of `s` into lower case.
pub fn to_ascii_lowercase(s: &str) -> (r: String)
    ensures
        r@ == ascii_lowercase(s@),
{
    let chars = to_chars(s);
    let mut out = String::new();
    let mut i: usize = 0;
    while i < chars.len()
        invariant
            i <= chars.len(),
            chars@ == s@,
            out@ == ascii_lowercase(s@).take(i as int),
        decreases chars.len() - i,
    {
        let c: char = chars[i];
        let n: u32 = c as u32;
        if 65 <= n && n <= 90 {
            out.push((n as u8 + 32) as char);
        } else {
            out.push(c);
        }
        i += 1;
        assert(ascii_lowercase(s@).take(i as int) =~= ascii_lowercase(s@).take(i - 1).push(
            ascii_lower(c),
        ));
    }
    assert(ascii_lowercase(s@).take(i as int) =~= ascii_lowercase(s@));
    out
}

/// The character of the hexadecimal digit `n`.
pub open spec fn digit(n: int) -> char {
    if n == 0 {
        '0'
    } else if n == 1 {
        '1'
    } else if n == 2 {
        '2'
    } else if n == 3 {
        '3'
    } else if n == 4 {
        '4'
    } else if n == 5 {
        '5'
    } else if n == 6 {
        '6'
    } else if n == 7 {
        '7'
    } else if n == 8 {
        '8'
    } else if n == 9 {
        '9'
    } else if n == 10 {
        'a'
    } else if n == 11 {
        'b'
    } else if n == 12 {
        'c'
    } else if n == 13 {
        'd'
    } else if n == 14 {
        'e'
    } else {
        'f'
    }
}

/// The decimal notation of `n`, without leading zeros.
pub open spec fn decimal(n: nat) -> Seq<char>
    decreases n,
{
    if n < 10 {
        seq![digit(n as int)]
    } else {
        decimal(n / 10).push(digit((n % 10) as int))
    }
}

/// The decimal notation of an integer, with a sign where it is negative.
pub open spec fn signed_decimal(n: int) -> Seq<char> {
    if n < 0 {
        seq!['-'] + decimal((-n) as nat)
    } else {
        decimal(n as nat)
    }
}

/// The character of the hexadecimal digit `n`.
pub fn digit_char(n: u8) -> (r: char)
    requires
        n < 16,
    ensures
        r == digit(n as int),
{
    match n {
        0 => '0',
        1 => '1',
        2 => '2',
        3 => '3',
        4 => '4',
        5 => '5',
        6 => '6',
        7 => '7',
        8 => '8',
        9 => '9',
        10 => 'a',
        11 => 'b',
        12 => 'c',
        13 => 'd',
        14 => 'e',
        _ => 'f',
    }
}

/// Renders `n` in decimal notation.
pub fn decimal_text(n: u128) -> (r: String)
    ensures
        r@ == decimal(n as nat),
    decreases n,
{
    let mut out = if n < 10 {
        String::new()
    } else {
        decimal_text(n / 10)
    };
    out.push(digit_char((n % 10) as u8));
    out
}

/// Renders `n` in decimal notation, with a sign where it is negative.
pub fn signed_text(n: i64) -> (r: String)
    ensures
        r@ == signed_decimal(n as int),
{
    if n < 0 {
        let magnitude: u64 = (-((n + 1) as i128) + 1) as u64;
        let mut out = String::new();
        out.push('-');
        let digits = decimal_text(magnitude as u128);
        let r = out.concat(digits.as_str());
        assert(r@ =~= signed_decimal(n as int));
        r
    } else {
        decimal_text(n as u128)
    }
}

/// The value of a decimal digit.
pub open spec fn digit_value(c: char) -> Option<nat> {
    if c == '0' {
        Some(0)
    } else if c == '1' {
        Some(1)
    } else if c == '2' {
        Some(2)
    } else if c == '3' {
        Some(3)
    } else if c == '4' {
        Some(4)
    } else if c == '5' {
        Some(5)
    } else if c == '6' {
        Some(6)
    } else if c == '7' {
        Some(7)
    } else if c == '8' {
        Some(8)
    } else if c == '9' {
        Some(9)
    } else {
        None
    }
}

/// The number that a run of decimal digits stands for; nothing if another
/// character occurs.
pub open spec fn digits_value(s: Seq<char>) -> Option<nat>
    decreases s.len(),
{
    if s.len() == 0 {
        Some(0)
    } else {
        match (digits_value(s.drop_last()), digit_value(s.last())) {
            (Some(high), Some(low)) => Some(high * 10 + low),
            _ => None,
        }
    }
}

/// The number that `s` stands for: decimal digits, at least one, after an
/// optional sign.
pub open spec fn number(s: Seq<char>) -> Option<int> {
    if s.len() == 0 {
        None
    } else if s[0] == '+' || s[0] == '-' {
        match digits_value(s.drop_first()) {
            Some(n) if s.len() > 1 => Some(if s[0] == '-' { -(n as int) } else { n as int }),
            _ => None,
        }
    } else {
        match digits_value(s) {
            Some(n) => Some(n as int),
            None => None,
        }
    }
}

fn digit_of(c: char) -> (r: Option<u8>)
    ensures
        match r {
            Some(n) => n < 10 && digit_value(c) == Some(n as nat),
            None => digit_value(c) is None,
        },
{
    match c {
        '0' => Some(0),
        '1' => Some(1),
        '2' => Some(2),
        '3' => Some(3),
        '4' => Some(4),
        '5' => Some(5),
        '6' => Some(6),
        '7' => Some(7),
        '8' => Some(8),
        '9' => Some(9),
        _ => None,
    }
}

/// More digits make no smaller number.
proof fn lemma_digits_grow(s: Seq<char>, k: int)
    requires
        0 <= k <= s.len(),
        digits_value(s) is Some,
    ensures
        digits_value(s.take(k)) is Some,
        digits_value(s.take(k))->0 <= digits_value(s)->0,
    decreases s.len(),
{
    if k == s.len() {
        assert(s.take(k) =~= s);
    } else {
        lemma_digits_grow(s.drop_last(), k);
        assert(s.drop_last().take(k) =~= s.take(k));
    }
}

fn digits_of(chars: &Vec<char>, from: usize, max: u64) -> (r: Option<u64>)
    requires
        from <= chars.len(),
    ensures
        match r {
            Some(n) => n <= max && digits_value(chars@.skip(from as int)) == Some(n as nat),
            None => match digits_value(chars@.skip(from as int)) {
                Some(n) => n > max,
                None => true,
            },
        },
{
    let ghost run = chars@.skip(from as int);
    let mut value: u64 = 0;
    let mut i: usize = from;
    while i < chars.len()
        invariant
            from <= i <= chars.len(),
            run == chars@.skip(from as int),
            value <= max,
            digits_value(run.take(i - from)) == Some(value as nat),
        decreases chars.len() - i,
    {
        let ghost k = i - from;
        proof {
            assert(run.take(k + 1).drop_last() =~= run.take(k));
            assert(run.take(k + 1).last() == chars@[i as int]);
            if digits_value(run) is Some {
                lemma_digits_grow(run, k + 1);
            }
        }
        match digit_of(chars[i]) {
            None => {
                return None;
            },
            Some(low) => {
                let next: u128 = value as u128 * 10 + low as u128;
                if next > max as u128 {
                    return None;
                }
                value = next as u64;
            },
        }
        i += 1;
    }
    assert(run.take(chars.len() - from) =~= run);
    Some(value)
}

/// Parses an unsigned number of at most `max`; a leading `+` is accepted and
/// a leading `-` is not.
pub fn parse_unsigned(s: &str, max: u64) -> (r: Option<u64>)
    ensures
        match r {
            Some(n) => n <= max && number(s@) == Some(n as int) && s@[0] != '-',
            None => match number(s@) {
                Some(n) => n > max || s@[0] == '-',
                None => true,
            },
        },
{
    let chars = to_chars(s);
    if chars.len() == 0 || chars[0] == '-' {
        return None;
    }
    assert(s@.drop_first() =~= chars@.skip(1));
    assert(s@ =~= chars@.skip(0));
    if chars[0] == '+' {
        if chars.len() == 1 {
            return None;
        }
        digits_of(&chars, 1, max)
    } else {
        digits_of(&chars, 0, max)
    }
}

/// Whether `s` stands for a number without a leading `-`.
pub fn is_number(s: &str) -> (r: bool)
    ensures
        r == (number(s@) is Some && s@[0] != '-'),
{
    let chars = to_chars(s);
    if chars.len() == 0 || chars[0] == '-' {
        return false;
    }
    assert(s@.drop_first() =~= chars@.skip(1));
    assert(s@ =~= chars@.skip(0));
    if chars[0] == '+' {
        chars.len() > 1 && all_digits(&chars, 1)
    } else {
        all_digits(&chars, 0)
    }
}

/// Whether the characters from `from` on are decimal digits.
fn all_digits(chars: &Vec<char>, from: usize) -> (r: bool)
    requires
        from <= chars.len(),
    ensures
        r == (digits_value(chars@.skip(from as int)) is Some),
{
    let ghost run = chars@.skip(from as int);
    let mut i: usize = from;
    assert(run.take(0) =~= Seq::empty());
    while i < chars.len()
        invariant
            from <= i <= chars.len(),
            run == chars@.skip(from as int),
            digits_value(run.take(i - from)) is Some,
        decreases chars.len() - i,
    {
        proof {
            assert(run.take(i + 1 - from).drop_last() =~= run.take(i - from));
            assert(run.take(i + 1 - from).last() == chars@[i as int]);
        }
        if digit_of(chars[i]).is_none() {
            proof {
                if digits_value(run) is Some {
                    lemma_digits_grow(run, i + 1 - from);
                }
            }
            return false;
        }
        i += 1;
    }
    assert(run.take(i - from) =~= run);
    true
}

/// Parses a signed number.
pub fn parse_signed(s: &str) -> (r: Option<i64>)
    ensures
        match r {
            Some(n) => number(s@) == Some(n as int),
            None => match number(s@) {
                Some(n) => n < i64::MIN || n > i64::MAX,
                None => true,
            },
        },
{
    let chars = to_chars(s);
    if chars.len() == 0 {
        return None;
    }
    assert(s@.drop_first() =~= chars@.skip(1));
    assert(s@ =~= chars@.skip(0));
    if chars[0] == '-' {
        if chars.len() == 1 {
            return None;
        }
        match digits_of(&chars, 1, 0x8000_0000_0000_0000) {
            Some(n) => Some((0 - n as i128) as i64),
            None => None,
        }
    } else if chars[0] == '+' {
        if chars.len() == 1 {
            return None;
        }
        match digits_of(&chars, 1, 0x7fff_ffff_ffff_ffff) {
            Some(n) => Some(n as i64),
            None => None,
        }
    } else {
        match digits_of(&chars, 0, 0x7fff_ffff_ffff_ffff) {
            Some(n) => Some(n as i64),
            None => None,
        }
    }
}

/// Reading the decimal notation of a number gives the number back.
pub proof fn lemma_decimal_reads_back(n: nat)
    ensures
        digits_value(decimal(n)) == Some(n),
        decimal(n).len() > 0,
    decreases n,
{
    let d = digit((n % 10) as int);
    assert(digit_value(d) == Some((n % 10) as nat));
    if n < 10 {
        assert(decimal(n).drop_last() =~= Seq::<char>::empty());
        assert(digits_value(Seq::<char>::empty()) == Some(0nat));
    } else {
        lemma_decimal_reads_back(n / 10);
        assert(decimal(n).drop_last() =~= decimal(n / 10));
    }
}

/// Different numbers have different decimal notations.
pub proof fn lemma_decimal_injective(a: nat, b: nat)
    ensures
        decimal(a) == decimal(b) ==> a == b,
{
    lemma_decimal_reads_back(a);
    lemma_decimal_reads_back(b);
}

/// The parts of `s` between the separators `seps`; without one, `s` itself.
pub open spec fn split(s: Seq<char>, seps: Seq<char>) -> Seq<Seq<char>>
    decreases s.len(),
{
    if s.len() == 0 {
        seq![Seq::empty()]
    } else {
        let parts = split(s.drop_last(), seps);
        if seps.contains(s.last()) {
            parts.push(Seq::empty())
        } else {
            parts.update(parts.len() - 1, parts.last().push(s.last()))
        }
    }
}

/// Whether `c` is one of `set`.
pub fn one_of(c: char, set: &[char]) -> (r: bool)
    ensures
        r == set@.contains(c),
{
    let mut i: usize = 0;
    while i < set.len()
        invariant
            i <= set.len(),
            forall|j: int| 0 <= j < i ==> set@[j] != c,
        decreases set.len() - i,
    {
        if set[i] == c {
            assert(set@[i as int] == c);
            return true;
        }
        i += 1;
    }
    false
}

/// Cuts `s` at the separators `seps`.
pub fn split_text(s: &str, seps: &[char]) -> (r: Vec<String>)
    ensures
        texts(r@) == split(s@, seps@),
{
    let chars = to_chars(s);
    let mut out: Vec<String> = Vec::new();
    let mut part = String::new();
    let mut i: usize = 0;
    assert(texts(out@).push(part@) =~= seq![Seq::<char>::empty()]);
    while i < chars.len()
        invariant
            i <= chars.len(),
            texts(out@).push(part@) == split(chars@.take(i as int), seps@),
        decreases chars.len() - i,
    {
        let ghost done = texts(out@).push(part@);
        proof {
            assert(chars@.take(i + 1).drop_last() =~= chars@.take(i as int));
            assert(done.last() == part@);
        }
        if one_of(chars[i], seps) {
            out.push(part);
            part = String::new();
            assert(texts(out@) =~= done);
        } else {
            part.push(chars[i]);
            assert(texts(out@).push(part@) =~= done.update(done.len() - 1, part@));
        }
        i += 1;
    }
    assert(chars@.take(i as int) =~= s@);
    let ghost done = texts(out@).push(part@);
    out.push(part);
    assert(texts(out@) =~= done);
    out
}

/// The longest runs of `s` without white space.
pub open spec fn words(s: Seq<char>) -> Seq<Seq<char>>
    decreases s.len(),
{
    if s.len() == 0 {
        Seq::empty()
    } else {
        let found = words(s.drop_last());
        if white_space(s.last()) {
            found
        } else if s.len() == 1 || white_space(s[s.len() - 2]) {
            found.push(seq![s.last()])
        } else {
            found.update(found.len() - 1, found.last().push(s.last()))
        }
    }
}

/// Cuts `s` into its words.
pub fn split_words(s: &str) -> (r: Vec<String>)
    ensures
        texts(r@) == words(s@),
{
    let chars = to_chars(s);
    let mut out: Vec<String> = Vec::new();
    let mut word = String::new();
    let mut open = false;
    let mut i: usize = 0;
    assert(texts(out@) =~= words(chars@.take(0)));
    while i < chars.len()
        invariant
            i <= chars.len(),
            open ==> i > 0 && !white_space(chars@[i - 1]) && texts(out@).push(word@) == words(
                chars@.take(i as int),
            ),
            !open ==> (i == 0 || white_space(chars@[i - 1])) && word@ == Seq::<char>::empty()
                && texts(out@) == words(chars@.take(i as int)),
        decreases chars.len() - i,
    {
        let ghost found = words(chars@.take(i as int));
        proof {
            assert(chars@.take(i + 1).drop_last() =~= chars@.take(i as int));
        }
        if is_white_space(chars[i]) {
            if open {
                out.push(word);
                word = String::new();
                open = false;
                assert(texts(out@) =~= found);
            }
        } else {
            let ghost was = word@;
            word.push(chars[i]);
            if open {
                assert(found.last() == was);
                assert(texts(out@).push(word@) =~= found.update(found.len() - 1, word@));
            } else {
                assert(word@ =~= seq![chars@[i as int]]);
            }
            open = true;
        }
        i += 1;
    }
    assert(chars@.take(i as int) =~= s@);
    if open {
        let ghost found = texts(out@).push(word@);
        out.push(word);
        assert(texts(out@) =~= found);
    }
    out
}

/// `s` without its trailing characters out of `set`.
pub open spec fn trim_end_of(s: Seq<char>, set: Seq<char>) -> Seq<char>
    decreases s.len(),
{
    if s.len() > 0 && set.contains(s.last()) {
        trim_end_of(s.drop_last(), set)
    } else {
        s
    }
}

/// Removes trailing characters out of `set`.
pub fn trim_end_chars(s: &str, set: &[char]) -> (r: String)
    ensures
        r@ == trim_end_of(s@, set@),
{
    let chars = to_chars(s);
    let mut to: usize = chars.len();
    assert(chars@.take(to as int) =~= chars@);
    while to > 0 && one_of(chars[to - 1], set)
        invariant
            to <= chars.len(),
            trim_end_of(chars@, set@) == trim_end_of(chars@.take(to as int), set@),
        ensures
            to <= chars.len(),
            trim_end_of(chars@, set@) == chars@.take(to as int),
        decreases to,
    {
        assert(chars@.take(to as int).drop_last() =~= chars@.take(to - 1));
        to -= 1;
    }
    assert(chars@.take(to as int) =~= chars@.subrange(0, to as int));
    range_string(&chars, 0, to)
}

/// Whether `pattern` stands in `s` at `i`.
pub open spec fn occurs_at(s: Seq<char>, pattern: Seq<char>, i: int) -> bool {
    0 <= i && i + pattern.len() <= s.len() && s.subrange(i, i + pattern.len()) == pattern
}

/// Whether `pattern` stands somewhere in `s`.
pub open spec fn contains(s: Seq<char>, pattern: Seq<char>) -> bool {
    exists|i: int| occurs_at(s, pattern, i)
}

/// Whether `pattern` stands somewhere in `s`.
pub fn contains_text(s: &str, pattern: &str) -> (r: bool)
    ensures
        r == contains(s@, pattern@),
{
    let chars = to_chars(s);
    let wanted = to_chars(pattern);
    if wanted.len() > chars.len() {
        return false;
    }
    let mut i: usize = 0;
    while i <= chars.len() - wanted.len()
        invariant
            chars@ == s@,
            wanted@ == pattern@,
            wanted.len() <= chars.len(),
            i <= chars.len() - wanted.len() + 1,
            forall|j: int| 0 <= j < i ==> !occurs_at(s@, pattern@, j),
        decreases chars.len() - wanted.len() + 1 - i,
    {
        let mut k: usize = 0;
        while k < wanted.len() && chars[i + k] == wanted[k]
            invariant
                chars@ == s@,
                wanted@ == pattern@,
                k <= wanted.len(),
                wanted.len() <= chars.len(),
                i <= chars.len() - wanted.len(),
                forall|m: int| 0 <= m < k ==> chars@[i + m] == wanted@[m],
            ensures
                k <= wanted.len(),
                forall|m: int| 0 <= m < k ==> chars@[i + m] == wanted@[m],
                k < wanted.len() ==> chars@[i + k] != wanted@[k as int],
            decreases wanted.len() - k,
        {
            k += 1;
        }
        if k == wanted.len() {
            assert(s@.subrange(i as int, i + pattern@.len()) =~= pattern@);
            assert(occurs_at(s@, pattern@, i as int));
            return true;
        }
        proof {
            if occurs_at(s@, pattern@, i as int) {
                assert(s@.subrange(i as int, i + pattern@.len())[k as int] == pattern@[k as int]);
            }
        }
        i += 1;
    }
    assert forall|j: int| !occurs_at(s@, pattern@, j) by {
        if occurs_at(s@, pattern@, j) {
            assert(0 <= j < i);
        }
    }
    false
}

/// Whether `item` is one of the strings of a list.
pub fn list_contains(list: &Vec<String>, item: &str) -> (r: bool)
    ensures
        r == texts(list@).contains(item@),
{
    let mut i: usize = 0;
    while i < list.len()
        invariant
            i <= list.len(),
            forall|j: int| 0 <= j < i ==> texts(list@)[j] != item@,
        decreases list.len() - i,
    {
        if same(list[i].as_str(), item) {
            assert(texts(list@)[i as int] == item@);
            return true;
        }
        i += 1;
    }
    false
}

/// The strings of a list with `separator` between them.
pub open spec fn joined(parts: Seq<Seq<char>>, separator: Seq<char>) -> Seq<char>
    decreases parts.len(),
{
    if parts.len() == 0 {
        Seq::empty()
    } else if parts.len() == 1 {
        parts[0]
    } else {
        joined(parts.drop_last(), separator) + separator + parts.last()
    }
}

/// Joins the strings of a list.
pub fn join(parts: &Vec<String>, separator: &str) -> (r: String)
    ensures
        r@ == joined(texts(parts@), separator@),
{
    let ghost views = texts(parts@);
    if parts.len() == 0 {
        return String::new();
    }
    let mut out = parts[0].clone();
    let mut i: usize = 1;
    assert(views.take(1)[0] == out@);
    while i < parts.len()
        invariant
            1 <= i <= parts.len(),
            views == texts(parts@),
            out@ == joined(views.take(i as int), separator@),
        decreases parts.len() - i,
    {
        proof {
            assert(views.take(i + 1).drop_last() =~= views.take(i as int));
        }
        out = out.concat(separator).concat(parts[i].as_str());
        i += 1;
    }
    assert(views.take(i as int) =~= views);
    out
}

/// The position of the last `c` in `s`, if there is one.
pub open spec fn last_position(s: Seq<char>, c: char) -> Option<int>
    decreases s.len(),
{
    if s.len() == 0 {
        None
    } else if s.last() == c {
        Some(s.len() - 1)
    } else {
        last_position(s.drop_last(), c)
    }
}

/// Finds the last `c` among `chars`.
pub fn find_last(chars: &Vec<char>, c: char) -> (r: Option<usize>)
    ensures
        match r {
            Some(i) => last_position(chars@, c) == Some(i as int) && i < chars@.len(),
            None => last_position(chars@, c) is None,
        },
{
    let mut to: usize = chars.len();
    assert(chars@.take(to as int) =~= chars@);
    while to > 0
        invariant
            to <= chars.len(),
            last_position(chars@, c) == last_position(chars@.take(to as int), c),
        decreases to,
    {
        assert(chars@.take(to as int).drop_last() =~= chars@.take(to - 1));
        if chars[to - 1] == c {
            return Some(to - 1);
        }
        to -= 1;
    }
    None
}

/// A text without a separator is its only part, and what follows the last
/// separator is the last part, behind the parts of what comes before it.
pub proof fn law_parts_lie_between_separators(
    before: Seq<char>,
    separator: char,
    last: Seq<char>,
    seps: Seq<char>,
)
    requires
        seps.contains(separator),
        forall|i: int| 0 <= i < last.len() ==> !seps.contains(#[trigger] last[i]),
    ensures
        split(last, seps) == seq![last],
        split(before + seq![separator] + last, seps) == split(before, seps).push(last),
    decreases last.len(),
{
    let whole = before + seq![separator] + last;
    if last.len() == 0 {
        assert(last =~= Seq::empty());
        assert(split(last, seps) =~= seq![last]);
        assert(whole.drop_last() =~= before);
        assert(whole.last() == separator);
        assert(split(whole, seps) =~= split(before, seps).push(last));
    } else {
        let rest = last.drop_last();
        assert forall|i: int| 0 <= i < rest.len() implies !seps.contains(#[trigger] rest[i]) by {
            assert(rest[i] == last[i]);
        }
        law_parts_lie_between_separators(before, separator, rest, seps);
        assert(last.last() == last[last.len() - 1]);
        assert(rest.push(last.last()) =~= last);
        assert(whole.drop_last() =~= before + seq![separator] + rest);
        assert(whole.last() == last.last());
        assert(split(last, seps) =~= seq![last]);
        assert(split(whole, seps) =~= split(before, seps).push(last));
    }
}

/// Trimming takes white space off both ends and nothing else: what is left is
/// a stretch of the text that neither begins nor ends with white space, and
/// around it there is white space only.
pub proof fn law_trimming_takes_white_space_off(s: Seq<char>)
    ensures
        ({
            let t = trimmed(s);
            &&& t.len() > 0 ==> !white_space(t[0]) && !white_space(t.last())
            &&& exists|from: int, to: int| #[trigger] trims_to(s, from, to) && t == s.subrange(
                from,
                to,
            )
        }),
{
    let from = lemma_trim_start(s);
    let t = trim_start(s);
    let to = lemma_trim_end(t);
    assert(trimmed(s) =~= s.subrange(from, from + to));
    assert forall|i: int| from + to <= i < s.len() implies white_space(#[trigger] s[i]) by {
        assert(t[i - from] == s[i]);
    }
    assert(trims_to(s, from, from + to));
    if to > 0 {
        assert(trimmed(s)[0] == t[0]);
    }
}

/// Whether everything before and behind a stretch of a text is white space.
pub open spec fn trims_to(s: Seq<char>, from: int, to: int) -> bool {
    &&& 0 <= from <= to <= s.len()
    &&& forall|i: int| 0 <= i < from ==> white_space(#[trigger] s[i])
    &&& forall|i: int| to <= i < s.len() ==> white_space(#[trigger] s[i])
}

proof fn lemma_trim_start(s: Seq<char>) -> (from: int)
    ensures
        0 <= from <= s.len(),
        trim_start(s) == s.subrange(from, s.len() as int),
        forall|i: int| 0 <= i < from ==> white_space(#[trigger] s[i]),
        trim_start(s).len() > 0 ==> !white_space(trim_start(s)[0]),
    decreases s.len(),
{
    if s.len() > 0 && white_space(s[0]) {
        let rest = s.drop_first();
        let n = lemma_trim_start(rest);
        assert(rest.subrange(n, rest.len() as int) =~= s.subrange(n + 1, s.len() as int));
        assert forall|i: int| 0 <= i < n + 1 implies white_space(#[trigger] s[i]) by {
            if i > 0 {
                assert(rest[i - 1] == s[i]);
            }
        }
        n + 1
    } else {
        assert(s.subrange(0, s.len() as int) =~= s);
        0
    }
}

proof fn lemma_trim_end(s: Seq<char>) -> (to: int)
    ensures
        0 <= to <= s.len(),
        trim_end(s) == s.subrange(0, to),
        forall|i: int| to <= i < s.len() ==> white_space(#[trigger] s[i]),
        trim_end(s).len() > 0 ==> !white_space(trim_end(s).last()),
    decreases s.len(),
{
    if s.len() > 0 && white_space(s.last()) {
        let rest = s.drop_last();
        let n = lemma_trim_end(rest);
        assert(rest.subrange(0, n) =~= s.subrange(0, n));
        assert forall|i: int| n <= i < s.len() implies white_space(#[trigger] s[i]) by {
            if i < rest.len() {
                assert(rest[i] == s[i]);
            }
        }
        n
    } else {
        assert(s.subrange(0, s.len() as int) =~= s);
        s.len() as int
    }
}

/// A number is read back from its decimal notation, with a sign in front of
/// it or without.
pub proof fn law_numbers_read_back(n: nat)
    ensures
        number(decimal(n)) == Some(n as int),
        number(seq!['-'] + decimal(n)) == Some(-(n as int)),
        number(seq!['+'] + decimal(n)) == Some(n as int),
{
    lemma_decimal_reads_back(n);
    let d = decimal(n);
    assert((seq!['-'] + d).drop_first() =~= d);
    assert((seq!['+'] + d).drop_first() =~= d);
    lemma_first_digit(d);
}

pub proof fn lemma_first_digit(s: Seq<char>)
    requires
        s.len() > 0,
        digits_value(s) is Some,
    ensures
        digit_value(s[0]) is Some,
    decreases s.len(),
{
    if s.len() > 1 {
        lemma_first_digit(s.drop_last());
        assert(s.drop_last()[0] == s[0]);
    }
}

/// What is found last is the character looked for, and none stands behind it;
/// where none is found, there is none.
pub proof fn law_the_last_position_is_the_last(s: Seq<char>, c: char)
    ensures
        match last_position(s, c) {
            Some(i) => 0 <= i < s.len() && s[i] == c && forall|k: int|
                i < k < s.len() ==> #[trigger] s[k] != c,
            None => forall|k: int| 0 <= k < s.len() ==> #[trigger] s[k] != c,
        },
    decreases s.len(),
{
    if s.len() > 0 && s.last() != c {
        let rest = s.drop_last();
        law_the_last_position_is_the_last(rest, c);
        assert forall|k: int| 0 <= k < s.len() - 1 implies rest[k] == #[trigger] s[k] by {}
        assert(s[s.len() - 1] == s.last());
    }
}

/// The first difference decides about the order: the smaller code point comes
/// first, and a text comes before every longer one that begins with it.
pub proof fn law_the_first_difference_decides(
    common: Seq<char>,
    a: Seq<char>,
    b: Seq<char>,
)
    requires
        a.len() == 0 || b.len() == 0 || a[0] != b[0],
    ensures
        before(common + a, common + b) <==> b.len() > 0 && (a.len() == 0 || (a[0] as u32) < (
        b[0] as u32)),
    decreases common.len(),
{
    if common.len() == 0 {
        assert(common + a =~= a);
        assert(common + b =~= b);
    } else {
        let rest = common.drop_first();
        law_the_first_difference_decides(rest, a, b);
        assert((common + a).drop_first() =~= rest + a);
        assert((common + b).drop_first() =~= rest + b);
    }
}

/// Decimal digits stand in the order of their value, the highest first, and
/// each is the character of its value.
pub proof fn law_decimals_put_the_highest_digit_first(n: nat, d: nat)
    requires
        d < 10,
    ensures
        n > 0 ==> decimal(10 * n + d) == decimal(n) + seq![digit(d as int)],
        decimal(d) == seq![digit(d as int)],
        digit(d as int) as u32 == 48 + d,
        n > 0 ==> signed_decimal(-(n as int)) == seq!['-'] + decimal(n),
        signed_decimal(n as int) == decimal(n),
{
    let m = (10 * n + d) as nat;
    assert(m / 10 == n && m % 10 == d);
    if n > 0 {
        assert(decimal(n).push(digit(d as int)) =~= decimal(n) + seq![digit(d as int)]);
    }
}

/// Lower case differs from upper case only in the letters of the ASCII
/// alphabet, and has none of them in upper case.
pub proof fn law_lower_case_has_no_capitals(s: Seq<char>, i: int)
    requires
        0 <= i < s.len(),
    ensures
        ascii_lowercase(s).len() == s.len(),
        65 <= (s[i] as u32) <= 90 ==> ascii_lowercase(s)[i] as u32 == s[i] as u32 + 32,
        !(65 <= (s[i] as u32) <= 90) ==> ascii_lowercase(s)[i] == s[i],
        !(65 <= (ascii_lowercase(s)[i] as u32) <= 90),
{
}

/// What is joined has every part, in order, with the separator between any two
/// of them and nowhere else.
pub proof fn law_joined_parts_are_separated(
    parts: Seq<Seq<char>>,
    last: Seq<char>,
    separator: Seq<char>,
)
    ensures
        joined(Seq::empty(), separator).len() == 0,
        joined(seq![last], separator) == last,
        parts.len() > 0 ==> joined(parts.push(last), separator) == joined(parts, separator)
            + separator + last,
{
    assert(parts.push(last).drop_last() =~= parts);
}

/// White space separates words and is in none of them: behind white space a
/// run without it is a word of its own.
pub proof fn law_words_lie_between_white_space(s: Seq<char>, space: char, word: Seq<char>)
    requires
        white_space(space),
        word.len() > 0,
        forall|i: int| 0 <= i < word.len() ==> !white_space(#[trigger] word[i]),
    ensures
        words(s.push(space)) == words(s),
        words(s + seq![space] + word) == words(s).push(word),
    decreases word.len(),
{
    assert(s.push(space).drop_last() =~= s);
    let whole = s + seq![space] + word;
    let rest = word.drop_last();
    assert(whole.last() == word[word.len() - 1]);
    assert(!white_space(word[word.len() - 1]));
    assert(rest.push(word.last()) =~= word);
    assert(whole.len() >= 2);
    assert(whole.drop_last() =~= s + seq![space] + rest);
    if rest.len() == 0 {
        assert(whole.drop_last() =~= s.push(space));
        assert(whole[whole.len() - 2] == space);
        assert(seq![whole.last()] =~= word);
        assert(words(whole) == words(whole.drop_last()).push(seq![whole.last()]));
    } else {
        assert forall|i: int| 0 <= i < rest.len() implies !white_space(#[trigger] rest[i]) by {
            assert(rest[i] == word[i]);
        }
        law_words_lie_between_white_space(s, space, rest);
        assert(whole[whole.len() - 2] == word[word.len() - 2]);
        assert(!white_space(word[word.len() - 2]));
        let found = words(s).push(rest);
        assert(found.update(found.len() - 1, found.last().push(whole.last())) =~= words(s).push(
            word,
        ));
    }
}

/// Of the ASCII characters, the space and the five controls from the
/// tabulator to the carriage return are white space; letters, digits and signs
/// are not.
pub proof fn law_letters_are_no_white_space(c: char)
    requires
        (c as u32) < 128,
    ensures
        white_space(c) <==> c == ' ' || 9 <= (c as u32) <= 13,
{
}

/// A text begins with what stands in front of it, and with nothing else of
/// that length.
pub proof fn law_prefixes_stand_in_front(front: Seq<char>, rest: Seq<char>, other: Seq<char>)
    ensures
        has_prefix(front + rest, front),
        other.len() == front.len() && has_prefix(front + rest, other) ==> other == front,
        other.len() > front.len() + rest.len() ==> !has_prefix(front + rest, other),
{
    assert((front + rest).take(front.len() as int) =~= front);
}

} // verus!
