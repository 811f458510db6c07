//! Character-level string building blocks with exact specifications.
use vstd::prelude::*;

verus! {

broadcast use vstd::string::group_string_axioms;

/// Appends one character to a `String` (std's `String::push`).
#[verifier::external_body]
pub(crate) fn push_char(s: &mut String, c: char)
    ensures
        final(s)@ == old(s)@.push(c),
{
    s.push(c);
}

/// Appends a string slice to a `String`.
pub fn push_str(s: &mut String, t: &str)
    ensures
        final(s)@ == old(s)@ + t@,
{
    let ghost start = s@;
    for c in it: t.chars()
        invariant
            it.seq() == t@,
            s@ == start + t@.take(it.index() as int),
    {
        push_char(s, c);
        assert(t@.take(it.index() as int + 1) == t@.take(it.index() as int).push(c));
    }
    assert(t@.take(t@.len() as int) == t@);
}

/// Concatenation of two string slices into a fresh `String`.
pub fn concat2(a: &str, b: &str) -> (r: String)
    ensures
        r@ == a@ + b@,
{
    let mut r = a.to_owned();
    push_str(&mut r, b);
    r
}

/// Whether two string slices hold the same characters.
pub fn str_eq(a: &str, b: &str) -> (r: bool)
    ensures
        r == (a@ == b@),
{
    let x = a.to_owned();
    let y = b.to_owned();
    x == y
}

/// The ASCII lower-case form of one character.
pub open spec fn ascii_lower_char(c: char) -> char {
    if 'A' <= c && c <= 'Z' {
        ((c as u32) + 32) as char
    } else {
        c
    }
}

/// The ASCII lower-case form of a character sequence.
pub open spec fn ascii_lower(s: Seq<char>) -> Seq<char> {
    s.map_values(|c: char| ascii_lower_char(c))
}

/// The ASCII upper-case form of one character.
pub open spec fn ascii_upper_char(c: char) -> char {
    if 'a' <= c && c <= 'z' {
        ((c as u32) - 32) as char
    } else {
        c
    }
}

/// The ASCII upper-case form of a character sequence.
pub open spec fn ascii_upper(s: Seq<char>) -> Seq<char> {
    s.map_values(|c: char| ascii_upper_char(c))
}

/// Whether every character is in the ASCII range.
pub open spec fn all_ascii(s: Seq<char>) -> bool {
    forall|i: int| 0 <= i < s.len() ==> (s[i] as u32) < 128
}

/// Returns `s` with every ASCII upper-case letter replaced by its lower-case form.
pub fn to_ascii_lowercase(s: &str) -> (r: String)
    ensures
        r@ == ascii_lower(s@),
{
    let mut r = String::new();
    for c in it: s.chars()
        invariant
            it.seq() == s@,
            r@ == ascii_lower(s@.take(it.index() as int)),
    {
        let lc = if 'A' <= c && c <= 'Z' {
            ((c as u8) + 32) as char
        } else {
            c
        };
        push_char(&mut r, lc);
        assert(s@.take(it.index() as int + 1) == s@.take(it.index() as int).push(c));
    }
    r
}

/// Returns `s` with every ASCII lower-case letter replaced by its upper-case form.
pub fn to_ascii_uppercase(s: &str) -> (r: String)
    ensures
        r@ == ascii_upper(s@),
{
    let mut r = String::new();
    for c in it: s.chars()
        invariant
            it.seq() == s@,
            r@ == ascii_upper(s@.take(it.index() as int)),
    {
        let uc = if 'a' <= c && c <= 'z' {
            ((c as u8) - 32) as char
        } else {
            c
        };
        push_char(&mut r, uc);
        assert(s@.take(it.index() as int + 1) == s@.take(it.index() as int).push(c));
    }
    r
}

/// What std's `str::to_lowercase` returns for a character sequence.
pub uninterp spec fn unicode_lower(s: Seq<char>) -> Seq<char>;

/// std's `str::to_lowercase`. The contract states the result as a name of
/// its argument, and, as std documents for the Unicode `Lowercase` mapping,
/// that on ASCII text it is the ASCII lower-case form; the mapping of other
/// characters is left unsaid.
#[verifier::external_body]
pub(crate) fn to_lowercase(s: &str) -> (r: String)
    ensures
        r@ == unicode_lower(s@),
        all_ascii(s@) ==> r@ == ascii_lower(s@),
{
    s.to_lowercase()
}

/// `s` with every occurrence of `from` replaced by `to`.
pub open spec fn replace_char_spec(s: Seq<char>, from: char, to: Seq<char>) -> Seq<char>
    decreases s.len(),
{
    if s.len() == 0 {
        Seq::empty()
    } else {
        replace_char_spec(s.drop_last(), from, to) + (if s.last() == from {
            to
        } else {
            seq![s.last()]
        })
    }
}

/// Returns `s` with every occurrence of the character `from` replaced by `to`.
pub fn replace_char(s: &str, from: char, to: &str) -> (r: String)
    ensures
        r@ == replace_char_spec(s@, from, to@),
{
    let mut r = String::new();
    for c in it: s.chars()
        invariant
            it.seq() == s@,
            r@ == replace_char_spec(s@.take(it.index() as int), from, to@),
    {
        let ghost k = it.index() as int;
        assert(s@.take(k + 1).drop_last() == s@.take(k));
        if c == from {
            push_str(&mut r, to);
        } else {
            push_char(&mut r, c);
        }
    }
    assert(s@.take(s@.len() as int) == s@);
    r
}

/// The elements of `list` separated by `sep`.
pub open spec fn seq_join(list: Seq<Seq<char>>, sep: Seq<char>) -> Seq<char>
    decreases list.len(),
{
    if list.len() == 0 {
        Seq::empty()
    } else if list.len() == 1 {
        list[0]
    } else {
        seq_join(list.drop_last(), sep) + sep + list.last()
    }
}

/// The character views of a vector of strings.
pub open spec fn strings_view(v: Seq<String>) -> Seq<Seq<char>> {
    v.map_values(|s: String| s@)
}

/// Joins the strings of `list` with `sep` in between, as std's `join` does.
pub fn join(list: &Vec<String>, sep: &str) -> (r: String)
    ensures
        r@ == seq_join(strings_view(list@), sep@),
{
    let mut r = String::new();
    let ghost views = strings_view(list@);
    for i in 0..list.len()
        invariant
            views == strings_view(list@),
            r@ == seq_join(views.take(i as int), sep@),
    {
        assert(views.take(i + 1).drop_last() == views.take(i as int));
        if i != 0 {
            push_str(&mut r, sep);
        }
        push_str(&mut r, list[i].as_str());
    }
    assert(views.take(list.len() as int) == views);
    r
}

/// The decimal digit character for `d` in `0..10`.
pub open spec fn dec_digit(d: nat) -> char {
    ((48 + d) as u32) as char
}

/// The lower-case hexadecimal digit character for `d` in `0..16`.
pub open spec fn hex_digit(d: nat) -> char {
    if d < 10 {
        ((48 + d) as u32) as char
    } else {
        ((87 + d) as u32) as char
    }
}

/// The decimal representation of a natural number, without leading zeros.
pub open spec fn dec_nat(n: nat) -> Seq<char>
    decreases n,
{
    if n < 10 {
        seq![dec_digit(n)]
    } else {
        dec_nat(n / 10).push(dec_digit(n % 10))
    }
}

/// The decimal representation of an integer, with a leading `-` when negative.
pub open spec fn dec_int(v: int) -> Seq<char> {
    if v < 0 {
        seq!['-'] + dec_nat((-v) as nat)
    } else {
        dec_nat(v as nat)
    }
}

/// The lower-case hexadecimal representation of a natural number, without leading zeros.
pub open spec fn hex_nat(n: nat) -> Seq<char>
    decreases n,
{
    if n < 16 {
        seq![hex_digit(n)]
    } else {
        hex_nat(n / 16).push(hex_digit(n % 16))
    }
}

/// What `{:x}` prints for an `i64`: the hexadecimal form of its two's-complement bits.
pub open spec fn hex_i64(v: i64) -> Seq<char> {
    if v < 0 {
        hex_nat((v + 0x1_0000_0000_0000_0000) as nat)
    } else {
        hex_nat(v as nat)
    }
}

fn push_dec_u64(out: &mut String, n: u64)
    ensures
        final(out)@ == old(out)@ + dec_nat(n as nat),
    decreases n,
{
    if n >= 10 {
        push_dec_u64(out, n / 10);
    }
    let d = (n % 10) as u8;
    push_char(out, (48u8 + d) as char);
}

fn push_hex_u64(out: &mut String, n: u64)
    ensures
        final(out)@ == old(out)@ + hex_nat(n as nat),
    decreases n,
{
    if n >= 16 {
        push_hex_u64(out, n / 16);
    }
    let d = (n % 16) as u8;
    if d < 10 {
        push_char(out, (48u8 + d) as char);
    } else {
        push_char(out, (87u8 + d) as char);
    }
}

/// The decimal text of an `i64`, as `to_string` prints it.
pub fn i64_to_string(v: i64) -> (r: String)
    ensures
        r@ == dec_int(v as int),
{
    let mut r = String::new();
    if v < 0 {
        push_char(&mut r, '-');
        let m: u64 = ((-(v + 1)) as u64) + 1;
        push_dec_u64(&mut r, m);
    } else {
        push_dec_u64(&mut r, v as u64);
    }
    r
}

/// The lower-case hexadecimal text of an `i64`, as `format!("{:x}")` prints it.
pub fn i64_to_hex(v: i64) -> (r: String)
    ensures
        r@ == hex_i64(v),
{
    let mut r = String::new();
    let bits: u64 = if v < 0 {
        (((v + 1) + 0x7fff_ffff_ffff_ffff) as u64) + 0x8000_0000_0000_0000
    } else {
        v as u64
    };
    push_hex_u64(&mut r, bits);
    r
}

/// Whether `c` is an ASCII decimal digit.
pub open spec fn is_dec_digit(c: char) -> bool {
    '0' <= c && c <= '9'
}

/// The value of a string of decimal digits, read left to right.
pub open spec fn digits_value(s: Seq<char>) -> int
    decreases s.len(),
{
    if s.len() == 0 {
        0
    } else {
        digits_value(s.drop_last()) * 10 + ((s.last() as u32) - 48)
    }
}

/// Whether every character of `s` is an ASCII decimal digit.
pub open spec fn all_dec_digits(s: Seq<char>) -> bool {
    forall|i: int| 0 <= i < s.len() ==> is_dec_digit(s[i])
}

/// `s` without its leading sign character, if it has one.
pub open spec fn unsigned_part(s: Seq<char>) -> Seq<char> {
    if s.len() > 0 && (s[0] == '-' || s[0] == '+') {
        s.skip(1)
    } else {
        s
    }
}

/// What `str::parse::<i64>` accepts and yields: an optional `+` or `-`, then
/// one or more ASCII digits whose value fits in `i64`.
pub open spec fn parse_i64_spec(s: Seq<char>) -> Option<i64> {
    let body = unsigned_part(s);
    if body.len() == 0 || !all_dec_digits(body) {
        None
    } else {
        let v = if s[0] == '-' {
            -digits_value(body)
        } else {
            digits_value(body)
        };
        if i64::MIN <= v <= i64::MAX {
            Some(v as i64)
        } else {
            None
        }
    }
}

proof fn lemma_digits_value_step(s: Seq<char>, c: char)
    requires
        is_dec_digit(c),
    ensures
        digits_value(s.push(c)) == digits_value(s) * 10 + ((c as u32) - 48),
        digits_value(s.push(c)) >= digits_value(s) * 10,
{
    assert(s.push(c).drop_last() == s);
}

proof fn lemma_digits_value_nonneg(s: Seq<char>)
    requires
        all_dec_digits(s),
    ensures
        digits_value(s) >= 0,
    decreases s.len(),
{
    if s.len() > 0 {
        lemma_digits_value_nonneg(s.drop_last());
    }
}

/// Parses a decimal `i64` as `str::parse::<i64>` does, `None` where it fails.
pub fn parse_i64(s: &str) -> (r: Option<i64>)
    ensures
        r == parse_i64_spec(s@),
{
    let limit: u64 = 0x8000_0000_0000_0000;
    let mut acc: u64 = 0;
    let mut over = false;
    let mut all_digits = true;
    let mut neg = false;
    let mut saw_body = false;
    let mut first = true;
    let ghost mut body_len: int = 0;
    let ghost has_sign = s@.len() > 0 && (s@[0] == '-' || s@[0] == '+');
    let ghost body = unsigned_part(s@);
    for c in it: s.chars()
        invariant
            it.seq() == s@,
            limit == 0x8000_0000_0000_0000u64,
            body == unsigned_part(s@),
            has_sign == (s@.len() > 0 && (s@[0] == '-' || s@[0] == '+')),
            neg == (it.index() > 0 && s@[0] == '-'),
            first == (it.index() == 0),
            body_len == (if has_sign && it.index() > 0 { it.index() - 1 } else { it.index() as int }),
            saw_body == (body_len > 0),
            all_digits == (forall|i: int| 0 <= i < body_len ==> is_dec_digit(body[i])),
            all_digits && !over ==> acc as int == digits_value(body.take(body_len))
                && acc <= limit,
            all_digits && over ==> digits_value(body.take(body_len)) > limit,
    {
        if first && (c == '-' || c == '+') {
            neg = c == '-';
        } else {
            let ghost prefix = body.take(body_len);
            assert(body[body_len] == c);
            assert(body.take(body_len + 1) == prefix.push(c));
            if '0' <= c && c <= '9' {
                if all_digits {
                    proof {
                        lemma_digits_value_step(prefix, c);
                        lemma_digits_value_nonneg(prefix);
                    }
                    let d = (c as u32 - 48) as u64;
                    assert(d <= 9);
                    if !over {
                        if acc > (limit - d) / 10 {
                            assert(acc * 10 + d > limit) by (nonlinear_arith)
                                requires
                                    acc > (limit - d) / 10,
                                    d <= 9,
                                    limit == 0x8000_0000_0000_0000u64,
                            ;
                            over = true;
                        } else {
                            assert(acc * 10 + d <= limit) by (nonlinear_arith)
                                requires
                                    acc <= (limit - d) / 10,
                                    d <= 9,
                                    limit == 0x8000_0000_0000_0000u64,
                            ;
                            acc = acc * 10 + d;
                        }
                    } else {
                        assert(digits_value(prefix) * 10 >= digits_value(prefix));
                    }
                }
            } else {
                all_digits = false;
            }
            proof {
                body_len = body_len + 1;
            }
            saw_body = true;
        }
        first = false;
    }
    assert(body_len == body.len());
    assert(body.take(body_len) == body);
    assert(neg == (s@.len() > 0 && s@[0] == '-'));
    if !saw_body || !all_digits {
        assert(body.len() == 0 || !all_dec_digits(body));
        assert(parse_i64_spec(s@) is None);
        None
    } else if over {
        proof {
            lemma_digits_value_nonneg(body);
        }
        assert(digits_value(body) > limit);
        assert(parse_i64_spec(s@) is None);
        None
    } else if neg {
        assert(acc as int == digits_value(body));
        if acc == limit {
            assert(parse_i64_spec(s@) == Some(i64::MIN));
            Some(i64::MIN)
        } else {
            assert(parse_i64_spec(s@) == Some((-(acc as int)) as i64));
            Some(-(acc as i64))
        }
    } else if acc == limit {
        assert(parse_i64_spec(s@) is None);
        None
    } else {
        assert(parse_i64_spec(s@) == Some(acc as i64));
        Some(acc as i64)
    }
}

proof fn lemma_dec_nat_digits(n: nat)
    ensures
        dec_nat(n).len() > 0,
        all_dec_digits(dec_nat(n)),
        digits_value(dec_nat(n)) == n,
    decreases n,
{
    let d = (n % 10) as nat;
    assert(dec_digit(d) as u32 == 48 + d);
    if n >= 10 {
        lemma_dec_nat_digits(n / 10);
        let p = dec_nat(n / 10);
        assert(dec_nat(n) == p.push(dec_digit(d)));
        assert(dec_nat(n).drop_last() == p);
        assert forall|i: int| 0 <= i < dec_nat(n).len() implies is_dec_digit(dec_nat(n)[i]) by {
            if i < p.len() {
                assert(dec_nat(n)[i] == p[i]);
            }
        }
        assert(digits_value(dec_nat(n)) == digits_value(p) * 10 + ((dec_nat(n).last() as u32) - 48));
        assert((n / 10) * 10 + d == n);
    } else {
        assert(dec_nat(n).drop_last() =~= Seq::<char>::empty());
        assert(dec_nat(n).last() == dec_digit(n));
        assert(digits_value(dec_nat(n)) == digits_value(Seq::<char>::empty()) * 10 + ((dec_digit(n) as u32) - 48));
    }
}

/// Reading back the decimal text of an `i64` gives the number: what
/// `i64_to_string` writes, `parse_i64` reads.
pub proof fn lemma_parse_dec_int(v: i64)
    ensures
        parse_i64_spec(dec_int(v as int)) == Some(v),
{
    let m: nat = if v < 0 { (-v) as nat } else { v as nat };
    lemma_dec_nat_digits(m);
    let t = dec_int(v as int);
    let digits = dec_nat(m);
    assert(is_dec_digit(digits[0]));
    if v < 0 {
        assert(t == seq!['-'] + digits);
        assert(t[0] == '-');
        assert(t.skip(1) =~= digits);
        assert(unsigned_part(t) == digits);
    } else {
        assert(t == digits);
        assert(unsigned_part(t) == digits);
    }
}

} // verus!
