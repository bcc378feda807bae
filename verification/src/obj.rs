//! A reader for the vertex and face lines of Wavefront OBJ text.
//!
//! A `v x y z` line adds a vertex; its coordinates are kept as the text
//! they are written in. An `f a b c ...` line adds a face: each entry may be
//! `v`, `v/vt`, `v//vn` or `v/vt/vn`, and only the vertex number `v` is kept,
//! turned from 1-based to 0-based. Every other line is skipped.
use vstd::prelude::*;

use crate::math::vec3::vec3;
use crate::text::chars_of;
use crate::text::string_of;

verus! {

/// Unicode white space, the characters that separate the words of a line.
pub open spec fn is_space_spec(c: char) -> bool {
    let v = c as u32;
    ||| 0x9 <= v <= 0xd
    ||| v == 0x20
    ||| v == 0x85
    ||| v == 0xa0
    ||| v == 0x1680
    ||| 0x2000 <= v <= 0x200a
    ||| v == 0x2028
    ||| v == 0x2029
    ||| v == 0x202f
    ||| v == 0x205f
    ||| v == 0x3000
}

/// Whether `c` is Unicode white space.
pub fn is_space(c: char) -> (r: bool)
    ensures
        r == is_space_spec(c),
{
    let v = c as u32;
    (0x9 <= v && v <= 0xd) || v == 0x20 || v == 0x85 || v == 0xa0 || v == 0x1680 || (0x2000 <= v
        && v <= 0x200a) || v == 0x2028 || v == 0x2029 || v == 0x202f || v == 0x205f || v == 0x3000
}

/// The words finished so far and the word in progress, after reading `s`
/// from the left.
pub open spec fn scan_words(s: Seq<char>) -> (Seq<Seq<char>>, Seq<char>)
    decreases s.len(),
{
    if s.len() == 0 {
        (seq![], seq![])
    } else {
        let prev = scan_words(s.drop_last());
        let c = s.last();
        if is_space_spec(c) {
            if prev.1.len() > 0 {
                (prev.0.push(prev.1), seq![])
            } else {
                prev
            }
        } else {
            (prev.0, prev.1.push(c))
        }
    }
}

/// The maximal runs of non-space characters of `s`, in order.
pub open spec fn words(s: Seq<char>) -> Seq<Seq<char>> {
    let w = scan_words(s);
    if w.1.len() > 0 {
        w.0.push(w.1)
    } else {
        w.0
    }
}

/// The character sequences of a list of character vectors.
pub open spec fn char_seqs(v: Seq<Vec<char>>) -> Seq<Seq<char>> {
    v.map_values(|x: Vec<char>| x@)
}

/// Splits a line into its words.
pub fn split_words(line: &Vec<char>) -> (r: Vec<Vec<char>>)
    ensures
        char_seqs(r@) == words(line@),
{
    let mut done: Vec<Vec<char>> = Vec::new();
    let mut cur: Vec<char> = Vec::new();
    let mut i: usize = 0;
    while i < line.len()
        invariant
            i <= line.len(),
            (char_seqs(done@), cur@) == scan_words(line@.take(i as int)),
        decreases line.len() - i,
    {
        let c = line[i];
        assert(line@.take(i + 1).drop_last() =~= line@.take(i as int));
        if is_space(c) {
            if cur.len() > 0 {
                let word = cur;
                cur = Vec::new();
                proof {
                    assert(char_seqs(done@.push(word)) =~= char_seqs(done@).push(word@));
                }
                done.push(word);
            }
        } else {
            cur.push(c);
        }
        i = i + 1;
    }
    assert(line@.take(line.len() as int) =~= line@);
    if cur.len() > 0 {
        proof {
            assert(char_seqs(done@.push(cur)) =~= char_seqs(done@).push(cur@));
        }
        done.push(cur);
    }
    done
}

/// The part of a face entry before its first `/`.
pub open spec fn vertex_part(s: Seq<char>) -> Seq<char>
    decreases s.len(),
{
    if s.len() == 0 {
        s
    } else if s[0] == '/' {
        seq![]
    } else {
        seq![s[0]] + vertex_part(s.drop_first())
    }
}

proof fn lemma_vertex_part(s: Seq<char>, k: int)
    requires
        0 <= k <= s.len(),
        forall|j: int| 0 <= j < k ==> s[j] != '/',
        k == s.len() || s[k] == '/',
    ensures
        vertex_part(s) == s.take(k),
    decreases s.len(),
{
    if s.len() > 0 && k > 0 {
        lemma_vertex_part(s.drop_first(), k - 1);
        assert(s.take(k) =~= seq![s[0]] + s.drop_first().take(k - 1));
    } else {
        assert(s.take(k) =~= seq![]);
    }
}

/// The reasons why a text is not an unsigned decimal number.
#[derive(Debug, Clone, Copy, PartialEq, Eq, Structural)]
pub enum IntErrorKind {
    /// Nothing to read.
    Empty,
    /// A character that is not a decimal digit, or a sign alone.
    InvalidDigit,
    /// More than `u32::MAX`.
    PosOverflow,
}

pub open spec fn is_digit_spec(c: char) -> bool {
    48 <= (c as u32) <= 57
}

pub open spec fn digit_value(c: char) -> int {
    (c as u32) - 48
}

/// Reading the first `n` digit characters from the left: the first
/// character that is no digit, or the first point where the value passes
/// `u32::MAX`, ends the reading with an error.
pub open spec fn scan_digits(d: Seq<char>, n: nat) -> Result<u32, IntErrorKind>
    decreases n,
{
    if n == 0 {
        Ok(0u32)
    } else {
        match scan_digits(d, (n - 1) as nat) {
            Err(k) => Err(k),
            Ok(v) => if !is_digit_spec(d[n - 1]) {
                Err(IntErrorKind::InvalidDigit)
            } else if v * 10 + digit_value(d[n - 1]) > u32::MAX {
                Err(IntErrorKind::PosOverflow)
            } else {
                Ok((v * 10 + digit_value(d[n - 1])) as u32)
            },
        }
    }
}

/// How `str::parse::<u32>` reads `s`: an optional leading `+`, then decimal
/// digits only.
pub open spec fn parse_u32_spec(s: Seq<char>) -> Result<u32, IntErrorKind> {
    if s.len() == 0 {
        Err(IntErrorKind::Empty)
    } else if s.len() == 1 && (s[0] == '+' || s[0] == '-') {
        Err(IntErrorKind::InvalidDigit)
    } else if s[0] == '+' {
        scan_digits(s.drop_first(), (s.len() - 1) as nat)
    } else {
        scan_digits(s, s.len())
    }
}

/// Reads `s` as an unsigned 32-bit decimal number.
pub fn parse_u32(s: &[char]) -> (r: Result<u32, IntErrorKind>)
    ensures
        r == parse_u32_spec(s@),
{
    if s.len() == 0 {
        return Err(IntErrorKind::Empty);
    }
    if s.len() == 1 && (s[0] == '+' || s[0] == '-') {
        return Err(IntErrorKind::InvalidDigit);
    }
    let start: usize = if s[0] == '+' {
        1
    } else {
        0
    };
    let ghost d = if s@[0] == '+' {
        s@.drop_first()
    } else {
        s@
    };
    assert(parse_u32_spec(s@) == scan_digits(d, d.len()));
    let mut value: u64 = 0;
    let mut i: usize = start;
    while i < s.len()
        invariant
            start <= i <= s@.len(),
            start == 0 || start == 1,
            d == s@.subrange(start as int, s@.len() as int),
            parse_u32_spec(s@) == scan_digits(d, d.len()),
            scan_digits(d, (i - start) as nat) == Ok::<u32, IntErrorKind>(value as u32),
            value <= u32::MAX,
        decreases s.len() - i,
    {
        let c = s[i];
        assert(d[(i + 1 - start) - 1] == c);
        let cv = c as u32;
        if !(48 <= cv && cv <= 57) {
            proof {
                assert(scan_digits(d, (i + 1 - start) as nat) == Err::<u32, IntErrorKind>(
                    IntErrorKind::InvalidDigit,
                ));
                lemma_scan_digits_err(d, (i + 1 - start) as nat, d.len());
            }
            return Err(IntErrorKind::InvalidDigit);
        }
        let next: u64 = value * 10 + (cv - 48) as u64;
        if next > 0xffff_ffff {
            proof {
                assert(scan_digits(d, (i + 1 - start) as nat) == Err::<u32, IntErrorKind>(
                    IntErrorKind::PosOverflow,
                ));
                lemma_scan_digits_err(d, (i + 1 - start) as nat, d.len());
            }
            return Err(IntErrorKind::PosOverflow);
        }
        value = next;
        i = i + 1;
    }
    assert(d.len() == s@.len() - start);
    Ok(value as u32)
}

/// An error, once met, is the outcome of reading the rest too.
proof fn lemma_scan_digits_err(d: Seq<char>, n: nat, m: nat)
    requires
        n <= m,
        scan_digits(d, n) is Err,
    ensures
        scan_digits(d, m) == scan_digits(d, n),
    decreases m - n,
{
    if m > n {
        lemma_scan_digits_err(d, n, (m - 1) as nat);
    }
}

/// The number of leading decimal digits of `s`.
pub open spec fn lead_digits(s: Seq<char>) -> nat
    decreases s.len(),
{
    if s.len() > 0 && is_digit_spec(s[0]) {
        1 + lead_digits(s.drop_first())
    } else {
        0
    }
}

/// `c` with an ASCII capital turned into its small letter.
pub open spec fn lower_spec(c: char) -> char {
    if 65 <= (c as u32) <= 90 {
        ((c as u32) + 32) as char
    } else {
        c
    }
}

/// `s` spells the lower-case word `w`, in either case.
pub open spec fn spells(s: Seq<char>, w: Seq<char>) -> bool {
    s.len() == w.len() && forall|k: int| 0 <= k < s.len() ==> lower_spec(s[k]) == w[k]
}

/// The part of `s` after an optional leading `+` or `-`.
pub open spec fn unsigned_part(s: Seq<char>) -> Seq<char> {
    if s.len() > 0 && (s[0] == '+' || s[0] == '-') {
        s.drop_first()
    } else {
        s
    }
}

/// An exponent after its `e`: an optional sign, then one or more digits,
/// and nothing else.
pub open spec fn exponent_ok(x: Seq<char>) -> bool {
    let d = unsigned_part(x);
    d.len() > 0 && lead_digits(d) == d.len()
}

/// A decimal number: digits, an optional `.` with more digits, at least one
/// digit in all, then optionally `e` or `E` and an exponent.
pub open spec fn number_ok(t: Seq<char>) -> bool {
    let a = lead_digits(t);
    let r1 = t.skip(a as int);
    let has_dot = r1.len() > 0 && r1[0] == '.';
    let b = if has_dot {
        lead_digits(r1.skip(1))
    } else {
        0
    };
    let r2 = if has_dot {
        r1.skip(1 + b as int)
    } else {
        r1
    };
    &&& a + b > 0
    &&& r2.len() == 0 || (lower_spec(r2[0]) == 'e' && exponent_ok(r2.skip(1)))
}

/// The texts that `str::parse::<f32>` reads without error: an optional sign,
/// then `inf`, `infinity` or `nan` in any case, or a decimal number
/// (`Digit+ | Digit+ '.' Digit* | Digit* '.' Digit+`, then optionally an
/// exponent `e Sign? Digit+`, `e` in either case).
pub open spec fn float_text_spec(s: Seq<char>) -> bool {
    let t = unsigned_part(s);
    ||| spells(t, seq!['i', 'n', 'f'])
    ||| spells(t, seq!['i', 'n', 'f', 'i', 'n', 'i', 't', 'y'])
    ||| spells(t, seq!['n', 'a', 'n'])
    ||| number_ok(t)
}

fn is_digit(c: char) -> (r: bool)
    ensures
        r == is_digit_spec(c),
{
    let v = c as u32;
    48 <= v && v <= 57
}

/// Where the run of digits that starts at `i` ends.
fn digits_end(s: &[char], i: usize) -> (j: usize)
    requires
        i <= s@.len(),
    ensures
        i <= j <= s@.len(),
        j - i == lead_digits(s@.subrange(i as int, s@.len() as int)),
{
    let n = s.len();
    let mut j = i;
    while j < n && is_digit(s[j])
        invariant
            i <= j <= n == s@.len(),
            lead_digits(s@.subrange(i as int, n as int)) == (j - i) + lead_digits(
                s@.subrange(j as int, n as int),
            ),
        decreases n - j,
    {
        assert(s@.subrange(j as int, n as int).drop_first() =~= s@.subrange(j + 1, n as int));
        j = j + 1;
    }
    if j < n {
        assert(s@.subrange(j as int, n as int)[0] == s@[j as int]);
    }
    j
}

fn lower(c: char) -> (r: char)
    ensures
        r == lower_spec(c),
{
    let v = c as u32;
    if 65 <= v && v <= 90 {
        ((v + 32) as u8) as char
    } else {
        c
    }
}

/// Whether `s[start..]` spells the lower-case word `w`, in either case.
fn spells_from(s: &[char], start: usize, w: &[char]) -> (r: bool)
    requires
        start <= s@.len(),
    ensures
        r == spells(s@.subrange(start as int, s@.len() as int), w@),
{
    let ghost t = s@.subrange(start as int, s@.len() as int);
    let rest = s.len() - start;
    if rest != w.len() {
        return false;
    }
    let mut k: usize = 0;
    while k < w.len()
        invariant
            k <= w@.len() == t.len(),
            start + w@.len() == s@.len(),
            rest == w@.len(),
            start + rest == s.len(),
            t == s@.subrange(start as int, s@.len() as int),
            forall|j: int| 0 <= j < k ==> lower_spec(t[j]) == w@[j],
        decreases w.len() - k,
    {
        assert(start + k < s.len());
        if lower(s[start + k]) != w[k] {
            assert(t[k as int] == s@[start + k]);
            return false;
        }
        assert(t[k as int] == s@[start + k]);
        k = k + 1;
    }
    true
}

/// Whether `s[k..]` is an exponent after its `e`.
fn exponent_from(s: &[char], k: usize) -> (r: bool)
    requires
        k <= s@.len(),
    ensures
        r == exponent_ok(s@.subrange(k as int, s@.len() as int)),
{
    let n = s.len();
    let ghost x = s@.subrange(k as int, n as int);
    let mut d = k;
    if d < n && (s[d] == '+' || s[d] == '-') {
        d = d + 1;
    }
    assert(s@.subrange(d as int, n as int) =~= unsigned_part(x));
    let end = digits_end(s, d);
    end > d && end == n
}

/// Whether `s[start..]` is a decimal number with an optional exponent.
fn number_from(s: &[char], start: usize) -> (r: bool)
    requires
        start <= s@.len(),
    ensures
        r == number_ok(s@.subrange(start as int, s@.len() as int)),
{
    let n = s.len();
    let ghost t = s@.subrange(start as int, n as int);
    let a_end = digits_end(s, start);
    let ghost a = lead_digits(t);
    let ghost r1 = t.skip(a as int);
    assert(s@.subrange(a_end as int, n as int) =~= r1);
    let mut i = a_end;
    let mut digits = a_end - start;
    if i < n && s[i] == '.' {
        assert(r1[0] == s@[i as int]);
        let b_end = digits_end(s, i + 1);
        assert(s@.subrange(i + 1, n as int) =~= r1.skip(1));
        assert(s@.subrange(b_end as int, n as int) =~= r1.skip(1 + (b_end - i - 1)));
        digits = digits + (b_end - i - 1);
        i = b_end;
    } else {
        assert(!(r1.len() > 0 && r1[0] == '.')) by {
            if r1.len() > 0 {
                assert(r1[0] == s@[i as int]);
            }
        }
    }
    if digits == 0 {
        return false;
    }
    if i == n {
        return true;
    }
    let ghost r2 = s@.subrange(i as int, n as int);
    assert(r2[0] == s@[i as int]);
    if lower(s[i]) != 'e' {
        return false;
    }
    assert(s@.subrange(i + 1, n as int) =~= r2.skip(1));
    exponent_from(s, i + 1)
}

/// Whether `str::parse::<f32>` reads `s` without error.
pub fn is_float_text(s: &[char]) -> (r: bool)
    ensures
        r == float_text_spec(s@),
{
    let n = s.len();
    let start: usize = if n > 0 && (s[0] == '+' || s[0] == '-') {
        1
    } else {
        0
    };
    assert(s@.subrange(start as int, n as int) =~= unsigned_part(s@));
    let inf = ['i', 'n', 'f'];
    let infinity = ['i', 'n', 'f', 'i', 'n', 'i', 't', 'y'];
    let nan = ['n', 'a', 'n'];
    assert(inf@ =~= seq!['i', 'n', 'f']);
    assert(infinity@ =~= seq!['i', 'n', 'f', 'i', 'n', 'i', 't', 'y']);
    assert(nan@ =~= seq!['n', 'a', 'n']);
    if spells_from(s, start, &inf) || spells_from(s, start, &infinity) || spells_from(
        s,
        start,
        &nan,
    ) {
        return true;
    }
    number_from(s, start)
}

/// Every character of `d` is a decimal digit.
pub open spec fn all_digits(d: Seq<char>) -> bool {
    forall|j: int| 0 <= j < d.len() ==> is_digit_spec(#[trigger] d[j])
}

/// A sign that may stand before a number: none, `+` or `-`.
pub open spec fn is_sign_text(sign: Seq<char>) -> bool {
    sign == Seq::<char>::empty() || sign == seq!['+'] || sign == seq!['-']
}

/// A character that may stand in the decimal form of a number.
pub open spec fn is_number_char(c: char) -> bool {
    is_digit_spec(c) || c == '+' || c == '-' || c == '.' || c == 'e' || c == 'E'
}

/// A character that may stand in `inf`, `infinity` or `nan`, in either case.
pub open spec fn is_word_char(c: char) -> bool {
    let l = lower_spec(c);
    l == 'i' || l == 'n' || l == 'f' || l == 't' || l == 'y' || l == 'a'
}

proof fn lemma_lead_digits(s: Seq<char>)
    ensures
        lead_digits(s) <= s.len(),
        forall|j: int| 0 <= j < lead_digits(s) ==> is_digit_spec(#[trigger] s[j]),
        lead_digits(s) < s.len() ==> !is_digit_spec(s[lead_digits(s) as int]),
    decreases s.len(),
{
    if s.len() > 0 && is_digit_spec(s[0]) {
        lemma_lead_digits(s.drop_first());
        assert forall|j: int| 0 <= j < lead_digits(s) implies is_digit_spec(#[trigger] s[j]) by {
            if j > 0 {
                assert(s[j] == s.drop_first()[j - 1]);
            }
        }
    }
}

proof fn lemma_lead_digits_prefix(d: Seq<char>, rest: Seq<char>)
    requires
        all_digits(d),
    ensures
        lead_digits(d + rest) == d.len() + lead_digits(rest),
    decreases d.len(),
{
    if d.len() > 0 {
        assert(is_digit_spec(d[0]));
        assert((d + rest)[0] == d[0]);
        assert((d + rest).drop_first() =~= d.drop_first() + rest);
        assert(all_digits(d.drop_first())) by {
            assert forall|j: int| 0 <= j < d.drop_first().len() implies is_digit_spec(
                #[trigger] d.drop_first()[j],
            ) by {
                assert(d.drop_first()[j] == d[j + 1]);
            }
        }
        lemma_lead_digits_prefix(d.drop_first(), rest);
    } else {
        assert(d + rest =~= rest);
    }
}

proof fn lemma_lead_digits_all(d: Seq<char>)
    requires
        all_digits(d),
    ensures
        lead_digits(d) == d.len(),
{
    lemma_lead_digits_prefix(d, seq![]);
    assert(d + seq![] =~= d);
}

/// `number_ok` on `sign + m` is `number_ok` on `m`, when `m` starts with a
/// digit or a `.`.
proof fn lemma_unsigned(sign: Seq<char>, m: Seq<char>)
    requires
        is_sign_text(sign),
        m.len() > 0,
        is_digit_spec(m[0]) || m[0] == '.',
    ensures
        unsigned_part(sign + m) == m,
{
    if sign.len() == 0 {
        assert(sign + m =~= m);
    } else {
        assert((sign + m).drop_first() =~= m);
    }
}

/// `number_ok` holds of digits, then optionally a `.` and more digits, with at
/// least one digit in all, then an exponent text `x` that is empty or an `e`
/// or `E`, an optional sign and one or more digits.
proof fn lemma_number_ok(a: Seq<char>, dot: bool, b: Seq<char>, x: Seq<char>)
    requires
        all_digits(a),
        all_digits(b),
        a.len() + b.len() > 0,
        !dot ==> b.len() == 0,
        x.len() == 0 || ((x[0] == 'e' || x[0] == 'E') && exponent_ok(x.drop_first())),
    ensures
        number_ok(a + (if dot { seq!['.'] } else { Seq::<char>::empty() }) + b + x),
{
    let m = if dot { seq!['.'] } else { Seq::<char>::empty() };
    let t = a + m + b + x;
    assert(t =~= a + (m + b + x));
    lemma_lead_digits_prefix(a, m + b + x);
    let r1 = t.skip(a.len() as int);
    assert(r1 =~= m + b + x);
    if x.len() > 0 {
        assert(lead_digits(x) == 0);
    }
    if dot {
        assert(r1[0] == '.');
        assert(r1.skip(1) =~= b + x);
        lemma_lead_digits_prefix(b, x);
        assert(r1.skip(1 + b.len() as int) =~= x);
    } else {
        assert(b + x =~= x);
        if x.len() > 0 {
            assert(r1 =~= x);
            assert(r1[0] != '.');
        }
    }
}

/// The exponent part of a decimal text: nothing, or `e` or `E`, an optional
/// sign and the digits `c`.
pub open spec fn exponent_text(has_exp: bool, e: char, esign: Seq<char>, c: Seq<char>) -> Seq<char> {
    if has_exp {
        seq![e] + esign + c
    } else {
        Seq::<char>::empty()
    }
}

/// Every decimal text that `str::parse::<f32>` reads is accepted as a
/// coordinate: an optional sign, then digits `a`, then optionally a `.` and
/// any number of fraction digits `b` (one digit at least in all), then
/// optionally an exponent: `e` or `E`, an optional sign and one or more digits.
pub proof fn law_decimal_text_is_float(
    sign: Seq<char>,
    a: Seq<char>,
    dot: bool,
    b: Seq<char>,
    has_exp: bool,
    e: char,
    esign: Seq<char>,
    c: Seq<char>,
)
    requires
        is_sign_text(sign),
        all_digits(a),
        all_digits(b),
        a.len() + b.len() > 0,
        !dot ==> b.len() == 0,
        has_exp ==> (e == 'e' || e == 'E') && is_sign_text(esign) && all_digits(c) && c.len() > 0,
    ensures
        float_text_spec(
            sign + a + (if dot { seq!['.'] } else { Seq::<char>::empty() }) + b + exponent_text(
                has_exp,
                e,
                esign,
                c,
            ),
        ),
{
    let x = exponent_text(has_exp, e, esign, c);
    let m = a + (if dot { seq!['.'] } else { Seq::<char>::empty() }) + b + x;
    assert(sign + a + (if dot { seq!['.'] } else { Seq::<char>::empty() }) + b + x =~= sign + m);
    if a.len() > 0 {
        assert(m[0] == a[0]);
    } else {
        assert(m[0] == '.');
    }
    lemma_unsigned(sign, m);
    if has_exp {
        let y = x.drop_first();
        assert(y =~= esign + c);
        assert(unsigned_part(y) =~= c) by {
            if esign.len() == 0 {
                assert(y =~= c);
                assert(is_digit_spec(c[0]));
            } else {
                assert(y.drop_first() =~= c);
            }
        }
        lemma_lead_digits_all(c);
        assert(x[0] == e);
    }
    lemma_number_ok(a, dot, b, x);
}

proof fn lemma_lower_e(c: char)
    requires
        lower_spec(c) == 'e',
    ensures
        c == 'e' || c == 'E',
{
}

/// The characters of a text that `number_ok` accepts are digits, signs,
/// `.`, `e` and `E`.
proof fn lemma_number_chars(t: Seq<char>, j: int)
    requires
        number_ok(t),
        0 <= j < t.len(),
    ensures
        is_number_char(t[j]),
{
    let a = lead_digits(t);
    lemma_lead_digits(t);
    let r1 = t.skip(a as int);
    if j < a {
        return;
    }
    assert(t[j] == r1[j - a]);
    let has_dot = r1.len() > 0 && r1[0] == '.';
    if has_dot && j == a {
        return;
    }
    let b: int = if has_dot {
        lead_digits(r1.skip(1)) as int
    } else {
        0
    };
    let off: int = if has_dot {
        1 + b
    } else {
        0
    };
    if has_dot {
        lemma_lead_digits(r1.skip(1));
        if j - a - 1 < b {
            assert(r1[j - a] == r1.skip(1)[j - a - 1]);
            return;
        }
    }
    let r2 = if has_dot {
        r1.skip(off)
    } else {
        r1
    };
    assert(r1[j - a] == r2[j - a - off]);
    let q = j - a - off;
    assert(r2.len() > 0);
    if q == 0 {
        lemma_lower_e(r2[0]);
        return;
    }
    assert(lower_spec(r2[0]) == 'e' && exponent_ok(r2.skip(1)));
    let x = r2.skip(1);
    assert(r2[q] == x[q - 1]);
    let d = unsigned_part(x);
    lemma_lead_digits(d);
    assert(lead_digits(d) == d.len());
    if x.len() > 0 && (x[0] == '+' || x[0] == '-') {
        if q - 1 > 0 {
            assert(x[q - 1] == d[q - 2]);
            assert(is_digit_spec(d[q - 2]));
        }
    } else {
        assert(x[q - 1] == d[q - 1]);
        assert(is_digit_spec(d[q - 1]));
    }
}

/// A text with a character that can stand neither in a decimal number nor
/// in `inf`, `infinity` or `nan` is no coordinate: `str::parse::<f32>`
/// refuses it.
pub proof fn law_other_chars_are_no_float(s: Seq<char>, k: int)
    requires
        0 <= k < s.len(),
        !is_number_char(s[k]),
        !is_word_char(s[k]),
    ensures
        !float_text_spec(s),
{
    let t = unsigned_part(s);
    let kt = if s.len() > 0 && (s[0] == '+' || s[0] == '-') {
        k - 1
    } else {
        k
    };
    assert(0 <= kt < t.len() && t[kt] == s[k]);
    let w1 = seq!['i', 'n', 'f'];
    let w2 = seq!['i', 'n', 'f', 'i', 'n', 'i', 't', 'y'];
    let w3 = seq!['n', 'a', 'n'];
    if spells(t, w1) {
        assert(lower_spec(t[kt]) == w1[kt]);
    }
    if spells(t, w2) {
        assert(lower_spec(t[kt]) == w2[kt]);
    }
    if spells(t, w3) {
        assert(lower_spec(t[kt]) == w3[kt]);
    }
    if number_ok(t) {
        lemma_number_chars(t, kt);
    }
}

/// A text without a decimal digit is a coordinate only when it is `inf`,
/// `infinity` or `nan` (in any case) after an optional sign: `.`, `e5`, `+`
/// and the empty text are refused.
pub proof fn law_float_without_digit(s: Seq<char>)
    requires
        forall|j: int| 0 <= j < s.len() ==> !is_digit_spec(#[trigger] s[j]),
        float_text_spec(s),
    ensures
        ({
            let t = unsigned_part(s);
            ||| spells(t, seq!['i', 'n', 'f'])
            ||| spells(t, seq!['i', 'n', 'f', 'i', 'n', 'i', 't', 'y'])
            ||| spells(t, seq!['n', 'a', 'n'])
        }),
{
    let t = unsigned_part(s);
    if number_ok(t) {
        assert forall|j: int| 0 <= j < t.len() implies !is_digit_spec(#[trigger] t[j]) by {
            if s.len() > 0 && (s[0] == '+' || s[0] == '-') {
                assert(t[j] == s[j + 1]);
            } else {
                assert(t[j] == s[j]);
            }
        }
        assert(lead_digits(t) == 0) by {
            if t.len() > 0 {
                assert(!is_digit_spec(t[0]));
            }
        }
        let r1 = t.skip(0);
        assert(r1 =~= t);
        if r1.len() > 0 && r1[0] == '.' {
            let u = r1.skip(1);
            if u.len() > 0 {
                assert(u[0] == t[1]);
                assert(!is_digit_spec(u[0]));
            }
            assert(lead_digits(u) == 0);
        }
        assert(false);
    }
}

/// The two ways in which reading OBJ text stops the program: a `v` line
/// that ends before a coordinate is read, and a face entry whose vertex number
/// is `2147483648`, which has no 0-based `i32` form.
#[derive(Debug, Clone, Copy, PartialEq, Eq, Structural)]
pub enum ObjPanic {
    MissingCoordinate,
    IndexOverflow,
}

/// Why OBJ text is refused.
#[derive(Debug, Clone, Copy, PartialEq, Eq, Structural)]
pub enum ObjError {
    /// A face entry whose vertex number is not an unsigned decimal number.
    IndexParse(IntErrorKind),
    /// A vertex coordinate that is not a floating-point number.
    CoordinateParse,
}

/// The 0-based index of vertex number `idx`, where numbers at or above
/// `2^31` wrap around to negative values as their `i32` bit patterns do.
pub open spec fn face_index(idx: u32) -> i32 {
    if idx < 0x8000_0000 {
        (idx - 1) as i32
    } else {
        (idx - 0x1_0000_0001) as i32
    }
}

/// Reading the entries `words[1..n+1]` of a face line from the left.
pub open spec fn scan_face(words: Seq<Seq<char>>, n: nat) -> Result<Result<Seq<i32>, IntErrorKind>, ObjPanic>
    decreases n,
{
    if n == 0 {
        Ok(Ok(seq![]))
    } else {
        match scan_face(words, (n - 1) as nat) {
            Ok(Ok(f)) => match parse_u32_spec(vertex_part(words[n as int])) {
                Err(k) => Ok(Err(k)),
                Ok(idx) => if idx == 0x8000_0000 {
                    Err(ObjPanic::IndexOverflow)
                } else {
                    Ok(Ok(f.push(face_index(idx))))
                },
            },
            other => other,
        }
    }
}

/// What one line contributes.
pub enum ObjLine {
    Vertex(Seq<char>, Seq<char>, Seq<char>),
    Face(Seq<i32>),
    Skip,
}

/// What the words of a `v` line give, its coordinates read in order: the
/// first that is missing stops the program, the first that is no
/// floating-point number refuses the line.
pub open spec fn vertex_outcome(w: Seq<Seq<char>>) -> Result<Result<ObjLine, ObjError>, ObjPanic> {
    if w.len() < 2 {
        Err(ObjPanic::MissingCoordinate)
    } else if !float_text_spec(w[1]) {
        Ok(Err(ObjError::CoordinateParse))
    } else if w.len() < 3 {
        Err(ObjPanic::MissingCoordinate)
    } else if !float_text_spec(w[2]) {
        Ok(Err(ObjError::CoordinateParse))
    } else if w.len() < 4 {
        Err(ObjPanic::MissingCoordinate)
    } else if !float_text_spec(w[3]) {
        Ok(Err(ObjError::CoordinateParse))
    } else {
        Ok(Ok(ObjLine::Vertex(w[1], w[2], w[3])))
    }
}

/// `vertex_outcome`, once the coordinates before word `k` have been read as
/// numbers.
spec fn vertex_outcome_from(w: Seq<Seq<char>>, k: nat) -> Result<Result<ObjLine, ObjError>, ObjPanic>
    decreases 4 - k,
{
    if k >= 4 {
        Ok(Ok(ObjLine::Vertex(w[1], w[2], w[3])))
    } else if w.len() <= k {
        Err(ObjPanic::MissingCoordinate)
    } else if !float_text_spec(w[k as int]) {
        Ok(Err(ObjError::CoordinateParse))
    } else {
        vertex_outcome_from(w, k + 1)
    }
}

/// What one line contributes, or why it is refused, or why it stops the program.
pub open spec fn line_outcome(line: Seq<char>) -> Result<Result<ObjLine, ObjError>, ObjPanic> {
    let w = words(line);
    if w.len() > 0 && w[0] == seq!['v'] {
        vertex_outcome(w)
    } else if w.len() > 0 && w[0] == seq!['f'] {
        match scan_face(w, (w.len() - 1) as nat) {
            Ok(Ok(f)) => Ok(Ok(ObjLine::Face(f))),
            Ok(Err(k)) => Ok(Err(ObjError::IndexParse(k))),
            Err(p) => Err(p),
        }
    } else {
        Ok(Ok(ObjLine::Skip))
    }
}

/// The vertices, as the text of their three coordinates, and the faces, as
/// 0-based vertex indices.
pub struct ObjView {
    pub verts: Seq<(Seq<char>, Seq<char>, Seq<char>)>,
    pub faces: Seq<Seq<i32>>,
}

/// Reading the first `n` lines: the first refused line ends the reading.
pub open spec fn scan_lines(lines: Seq<Seq<char>>, n: nat) -> Result<Result<ObjView, ObjError>, ObjPanic>
    decreases n,
{
    if n == 0 {
        Ok(Ok(ObjView { verts: seq![], faces: seq![] }))
    } else {
        match scan_lines(lines, (n - 1) as nat) {
            Ok(Ok(m)) => match line_outcome(lines[n - 1]) {
                Ok(Ok(ObjLine::Vertex(x, y, z))) => Ok(
                    Ok(ObjView { verts: m.verts.push((x, y, z)), faces: m.faces }),
                ),
                Ok(Ok(ObjLine::Face(f))) => Ok(Ok(ObjView { verts: m.verts, faces: m.faces.push(f) })),
                Ok(Ok(ObjLine::Skip)) => Ok(Ok(m)),
                Ok(Err(k)) => Ok(Err(k)),
                Err(p) => Err(p),
            },
            other => other,
        }
    }
}

/// The character sequences of the lines.
pub open spec fn line_seqs(lines: Seq<String>) -> Seq<Seq<char>> {
    lines.map_values(|s: String| s@)
}

/// The outcome of reading all the lines.
pub open spec fn obj_outcome(lines: Seq<String>) -> Result<Result<ObjView, ObjError>, ObjPanic> {
    scan_lines(line_seqs(lines), lines.len())
}

/// The entry's part before its first `/`.
fn vertex_part_of(word: &Vec<char>) -> (r: Vec<char>)
    ensures
        r@ == vertex_part(word@),
{
    let mut out: Vec<char> = Vec::new();
    let mut k: usize = 0;
    while k < word.len() && word[k] != '/'
        invariant
            k <= word.len(),
            out@ == word@.take(k as int),
            forall|j: int| 0 <= j < k ==> word@[j] != '/',
        decreases word.len() - k,
    {
        out.push(word[k]);
        assert(word@.take(k + 1) =~= word@.take(k as int).push(word@[k as int]));
        k = k + 1;
    }
    proof {
        lemma_vertex_part(word@, k as int);
    }
    out
}

/// The 0-based index of vertex number `idx`.
fn zero_based(idx: u32) -> (r: i32)
    requires
        idx != 0x8000_0000,
    ensures
        r == face_index(idx),
{
    if idx < 0x8000_0000 {
        (idx as i32) - 1
    } else {
        let high: i32 = (idx - 0x8000_0000) as i32;
        high + i32::MIN - 1
    }
}

/// Once a face line is refused or stops the program, the later entries
/// change nothing.
proof fn lemma_scan_face_stops(words: Seq<Seq<char>>, n: nat, m: nat)
    requires
        n <= m,
        !(scan_face(words, n) is Ok && scan_face(words, n)->Ok_0 is Ok),
    ensures
        scan_face(words, m) == scan_face(words, n),
    decreases m - n,
{
    if m > n {
        lemma_scan_face_stops(words, n, (m - 1) as nat);
    }
}

/// Reads the entries of a face line (its words after the leading `f`).
fn parse_face(words: &Vec<Vec<char>>) -> (r: Result<Result<Vec<i32>, IntErrorKind>, ObjPanic>)
    requires
        words.len() >= 1,
    ensures
        match (r, scan_face(char_seqs(words@), (words@.len() - 1) as nat)) {
            (Ok(Ok(f)), Ok(Ok(g))) => f@ == g,
            (Ok(Err(k)), Ok(Err(l))) => k == l,
            (Err(p), Err(q)) => p == q,
            _ => false,
        },
{
    let ghost ws = char_seqs(words@);
    let mut face: Vec<i32> = Vec::new();
    let mut i: usize = 1;
    while i < words.len()
        invariant
            1 <= i <= words.len(),
            ws == char_seqs(words@),
            scan_face(ws, (i - 1) as nat) == Ok::<Result<Seq<i32>, IntErrorKind>, ObjPanic>(
                Ok(face@),
            ),
        decreases words.len() - i,
    {
        assert(ws[i as int] == words@[i as int]@);
        let part = vertex_part_of(&words[i]);
        match parse_u32(part.as_slice()) {
            Err(k) => {
                proof {
                    lemma_scan_face_stops(ws, i as nat, (words@.len() - 1) as nat);
                }
                return Ok(Err(k));
            },
            Ok(idx) => {
                if idx == 0x8000_0000 {
                    proof {
                        lemma_scan_face_stops(ws, i as nat, (words@.len() - 1) as nat);
                    }
                    return Err(ObjPanic::IndexOverflow);
                }
                face.push(zero_based(idx));
            },
        }
        i = i + 1;
    }
    Ok(Ok(face))
}

/// A vertex as the text of its coordinates.
pub open spec fn vertex_view(v: vec3<String>) -> (Seq<char>, Seq<char>, Seq<char>) {
    (v.x@, v.y@, v.z@)
}

/// The vertices and faces read from OBJ text.
pub struct model {
    verts: Vec<vec3<String>>,
    faces: Vec<Vec<i32>>,
}

impl View for model {
    type V = ObjView;

    closed spec fn view(&self) -> ObjView {
        ObjView {
            verts: self.verts@.map_values(|v: vec3<String>| vertex_view(v)),
            faces: self.faces@.map_values(|f: Vec<i32>| f@),
        }
    }
}

/// The outcome that a result of `model::try_new` stands for.
pub open spec fn outcome_of(r: Result<Result<model, ObjError>, ObjPanic>) -> Result<Result<ObjView, ObjError>, ObjPanic> {
    match r {
        Ok(Ok(m)) => Ok(Ok(m@)),
        Ok(Err(e)) => Ok(Err(e)),
        Err(p) => Err(p),
    }
}

/// Once a line is refused or stops the program, the later lines change nothing.
proof fn lemma_scan_lines_stops(lines: Seq<Seq<char>>, n: nat, m: nat)
    requires
        n <= m,
        !(scan_lines(lines, n) is Ok && scan_lines(lines, n)->Ok_0 is Ok),
    ensures
        scan_lines(lines, m) == scan_lines(lines, n),
    decreases m - n,
{
    if m > n {
        lemma_scan_lines_stops(lines, n, (m - 1) as nat);
    }
}

impl model {
    /// Reads OBJ text, given as its lines: the model, or the refusal, or
    /// the reason why reading it stops the program.
    pub fn try_new(lines: &Vec<String>) -> (r: Result<Result<model, ObjError>, ObjPanic>)
        ensures
            outcome_of(r) == obj_outcome(lines@),
    {
        let ghost ls = line_seqs(lines@);
        let mut verts: Vec<vec3<String>> = Vec::new();
        let mut faces: Vec<Vec<i32>> = Vec::new();
        proof {
            let start = (model { verts, faces })@;
            assert(start.verts =~= seq![]);
            assert(start.faces =~= seq![]);
        }
        let mut i: usize = 0;
        while i < lines.len()
            invariant
                i <= lines.len(),
                ls == line_seqs(lines@),
                scan_lines(ls, i as nat) == Ok::<Result<ObjView, ObjError>, ObjPanic>(
                    Ok((model { verts, faces })@),
                ),
            decreases lines.len() - i,
        {
            let ghost before = (model { verts, faces })@;
            assert(ls[i as int] == lines@[i as int]@);
            let chars = chars_of(&lines[i]);
            let w = split_words(&chars);
            let ghost ws = char_seqs(w@);
            assert(ws == words(ls[i as int]));
            if w.len() > 0 && w[0].len() == 1 && w[0][0] == 'v' {
                assert(ws[0] =~= seq!['v']);
                assert(vertex_outcome(ws) == vertex_outcome_from(ws, 1)) by {
                    reveal_with_fuel(vertex_outcome_from, 4);
                }
                let mut k: usize = 1;
                while k < 4
                    invariant
                        1 <= k <= 4,
                        i < lines.len(),
                        ls == line_seqs(lines@),
                        ws == char_seqs(w@),
                        ws == words(ls[i as int]),
                        ws.len() > 0 && ws[0] == seq!['v'],
                        scan_lines(ls, i as nat) == Ok::<Result<ObjView, ObjError>, ObjPanic>(
                            Ok(before),
                        ),
                        before == (model { verts, faces })@,
                        vertex_outcome(ws) == vertex_outcome_from(ws, k as nat),
                    decreases 4 - k,
                {
                    if w.len() <= k {
                        proof {
                            lemma_scan_lines_stops(ls, (i + 1) as nat, lines@.len());
                        }
                        return Err(ObjPanic::MissingCoordinate);
                    }
                    assert(ws[k as int] == w@[k as int]@);
                    if !is_float_text(w[k].as_slice()) {
                        proof {
                            lemma_scan_lines_stops(ls, (i + 1) as nat, lines@.len());
                        }
                        return Ok(Err(ObjError::CoordinateParse));
                    }
                    k = k + 1;
                }
                assert(ws[1] == w@[1]@ && ws[2] == w@[2]@ && ws[3] == w@[3]@);
                let v = vec3 { x: string_of(&w[1]), y: string_of(&w[2]), z: string_of(&w[3]) };
                verts.push(v);
                proof {
                    let after = (model { verts, faces })@;
                    assert(after.verts =~= before.verts.push((ws[1], ws[2], ws[3])));
                    assert(after.faces =~= before.faces);
                }
            } else if w.len() > 0 && w[0].len() == 1 && w[0][0] == 'f' {
                assert(ws[0] =~= seq!['f']);
                assert(ws[0] != seq!['v']);
                match parse_face(&w) {
                    Ok(Ok(face)) => {
                        faces.push(face);
                        proof {
                            let after = (model { verts, faces })@;
                            assert(after.verts =~= before.verts);
                            assert(after.faces =~= before.faces.push(face@));
                        }
                    },
                    Ok(Err(k)) => {
                        proof {
                            lemma_scan_lines_stops(ls, (i + 1) as nat, lines@.len());
                        }
                        return Ok(Err(ObjError::IndexParse(k)));
                    },
                    Err(p) => {
                        proof {
                            lemma_scan_lines_stops(ls, (i + 1) as nat, lines@.len());
                        }
                        return Err(p);
                    },
                }
            } else {
                proof {
                    if ws.len() > 0 {
                        if ws[0] == seq!['v'] {
                            assert(ws[0][0] == 'v');
                        }
                        if ws[0] == seq!['f'] {
                            assert(ws[0][0] == 'f');
                        }
                    }
                }
            }
            i = i + 1;
        }
        Ok(Ok(model { verts, faces }))
    }

    /// Reads OBJ text, given as its lines, that does not stop the program:
    /// the model, or the refusal of the first vertex coordinate or face
    /// entry that is no number.
    pub fn new(lines: &Vec<String>) -> (r: Result<model, ObjError>)
        requires
            !(obj_outcome(lines@) is Err),
        ensures
            match r {
                Ok(m) => obj_outcome(lines@) == Ok::<Result<ObjView, ObjError>, ObjPanic>(Ok(m@)),
                Err(e) => obj_outcome(lines@) == Ok::<Result<ObjView, ObjError>, ObjPanic>(Err(e)),
            },
    {
        match Self::try_new(lines) {
            Ok(read) => read,
            Err(_) => {
                assert(false);
                Err(ObjError::IndexParse(IntErrorKind::Empty))
            },
        }
    }

    /// The number of vertices.
    pub fn nverts(&self) -> (r: usize)
        ensures
            r == self@.verts.len(),
    {
        self.verts.len()
    }

    /// The number of faces.
    pub fn nfaces(&self) -> (r: usize)
        ensures
            r == self@.faces.len(),
    {
        self.faces.len()
    }

    /// Vertex `i`, as the text of its coordinates.
    pub fn vert(&self, i: usize) -> (r: vec3<String>)
        requires
            i < self@.verts.len(),
        ensures
            vertex_view(r) == self@.verts[i as int],
    {
        let v = &self.verts[i];
        vec3 { x: v.x.clone(), y: v.y.clone(), z: v.z.clone() }
    }

    /// The 0-based vertex indices of face `i`.
    pub fn face(&self, i: usize) -> (r: Vec<i32>)
        requires
            i < self@.faces.len(),
        ensures
            r@ == self@.faces[i as int],
    {
        let f = &self.faces[i];
        let mut out: Vec<i32> = Vec::new();
        let mut k: usize = 0;
        while k < f.len()
            invariant
                k <= f.len(),
                out@ == f@.take(k as int),
            decreases f.len() - k,
        {
            out.push(f[k]);
            assert(f@.take(k + 1) =~= f@.take(k as int).push(f@[k as int]));
            k = k + 1;
        }
        assert(f@.take(f.len() as int) =~= f@);
        out
    }
}

/// Each line adds at most one vertex or one face.
pub proof fn law_one_item_per_line(lines: Seq<Seq<char>>, n: nat)
    requires
        n <= lines.len(),
        scan_lines(lines, n) matches Ok(Ok(_)),
    ensures
        scan_lines(lines, n)->Ok_0->Ok_0.verts.len() + scan_lines(lines, n)->Ok_0->Ok_0.faces.len()
            <= n,
    decreases n,
{
    if n > 0 {
        lemma_scan_lines_ok_prefix(lines, (n - 1) as nat);
        law_one_item_per_line(lines, (n - 1) as nat);
    }
}

proof fn lemma_scan_lines_ok_prefix(lines: Seq<Seq<char>>, m: nat)
    requires
        m + 1 <= lines.len(),
        scan_lines(lines, m + 1) matches Ok(Ok(_)),
    ensures
        scan_lines(lines, m) matches Ok(Ok(_)),
{
}

/// Lines that are neither vertex nor face lines (comments, normals,
/// texture coordinates, blank lines) change nothing: inserting one anywhere
/// gives the same outcome.
pub proof fn law_other_lines_ignored(lines: Seq<Seq<char>>, k: int, extra: Seq<char>)
    requires
        0 <= k <= lines.len(),
        line_outcome(extra) == Ok::<Result<ObjLine, ObjError>, ObjPanic>(Ok(ObjLine::Skip)),
    ensures
        scan_lines(lines.insert(k, extra), lines.len() + 1) == scan_lines(lines, lines.len()),
{
    lemma_insert_prefix(lines, k, extra, k as nat);
    lemma_insert_suffix(lines, k, extra, lines.len());
}

proof fn lemma_insert_prefix(lines: Seq<Seq<char>>, k: int, extra: Seq<char>, n: nat)
    requires
        0 <= k <= lines.len(),
        n <= k,
    ensures
        scan_lines(lines.insert(k, extra), n) == scan_lines(lines, n),
    decreases n,
{
    if n > 0 {
        lemma_insert_prefix(lines, k, extra, (n - 1) as nat);
        assert(lines.insert(k, extra)[n - 1] == lines[n - 1]);
    }
}

proof fn lemma_insert_suffix(lines: Seq<Seq<char>>, k: int, extra: Seq<char>, n: nat)
    requires
        0 <= k <= n <= lines.len(),
        line_outcome(extra) == Ok::<Result<ObjLine, ObjError>, ObjPanic>(Ok(ObjLine::Skip)),
    ensures
        scan_lines(lines.insert(k, extra), n + 1) == scan_lines(lines, n),
    decreases n,
{
    let longer = lines.insert(k, extra);
    if n == k {
        lemma_insert_prefix(lines, k, extra, k as nat);
        assert(longer[k] == extra);
    } else {
        lemma_insert_suffix(lines, k, extra, (n - 1) as nat);
        assert(longer[n as int] == lines[n - 1]);
    }
}

} // verus!
