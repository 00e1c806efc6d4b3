//! Character-level primitives of the store's document format: the canonical
//! encoding of numbers, scores, strings, booleans and object members, a
//! tolerant parser for each, and the lemmas that the parser accepts every
//! canonical encoding.
//!
//! Every spec parser `sp_*` takes the document as a `Seq<char>` and a
//! position, and returns the parsed value with the position after it, or
//! `None` when the text does not parse. The exec parsers return exactly what
//! the spec parsers say. The `lemma_sp_*_enc` lemmas state completeness over
//! the canonical encoders `enc_*`: a canonical encoding always parses back
//! to the value it came from.

use vstd::prelude::*;

verus! {

// ---------------------------------------------------------------------------
// Character classes
// ---------------------------------------------------------------------------

pub open spec fn is_digit(c: char) -> bool {
    48 <= c as u32 <= 57
}

pub open spec fn digit_val(c: char) -> int {
    c as u32 - 48
}

pub open spec fn digit_char(d: int) -> char {
    ((48 + d) as u8) as char
}

pub open spec fn is_hex(c: char) -> bool {
    48 <= c as u32 <= 57 || 97 <= c as u32 <= 102
}

pub open spec fn hex_val(c: char) -> int {
    if 48 <= c as u32 <= 57 {
        c as u32 - 48
    } else {
        c as u32 - 87
    }
}

pub open spec fn hex_char(d: int) -> char {
    if d < 10 {
        ((48 + d) as u8) as char
    } else {
        ((87 + d) as u8) as char
    }
}

/// A Unicode scalar value: what a `char` may hold.
pub open spec fn is_scalar(code: int) -> bool {
    (0 <= code < 0xd800) || (0xe000 <= code <= 0x10ffff)
}

pub proof fn lemma_digit_char_val(d: int)
    requires
        0 <= d < 10,
    ensures
        is_digit(digit_char(d)),
        digit_val(digit_char(d)) == d,
{
}

pub proof fn lemma_hex_char_val(d: int)
    requires
        0 <= d < 16,
    ensures
        is_hex(hex_char(d)),
        hex_val(hex_char(d)) == d,
        !is_digit(hex_char(d)) || d < 10,
{
}

// ---------------------------------------------------------------------------
// Numbers
// ---------------------------------------------------------------------------

/// Canonical decimal encoding of an unsigned number, most significant digit
/// first, no leading zeros.
pub open spec fn enc_u32(v: u32) -> Seq<char>
    decreases v,
{
    if v < 10 {
        seq![digit_char(v as int)]
    } else {
        enc_u32(v / 10).push(digit_char((v % 10) as int))
    }
}

/// Reads a run of digits starting at `i`, folding them onto `acc`; stops at
/// the first non-digit. Fails only when the value exceeds `u32`.
pub open spec fn sp_digits(s: Seq<char>, i: int, acc: u32) -> Option<(u32, int)>
    decreases s.len() - i,
    when 0 <= i <= s.len()
{
    if i == s.len() || !is_digit(s[i]) {
        Some((acc, i))
    } else {
        let v = 10 * (acc as int) + digit_val(s[i]);
        if v > 0xffff_ffff {
            None
        } else {
            sp_digits(s, i + 1, v as u32)
        }
    }
}

/// A number: at least one digit, folded by `sp_digits`.
pub open spec fn sp_u32(s: Seq<char>, i: int) -> Option<(u32, int)> {
    if 0 <= i < s.len() && is_digit(s[i]) {
        sp_digits(s, i, 0)
    } else {
        None
    }
}

/// Position after the run of digits starting at `i`.
pub open spec fn sp_past_digits(s: Seq<char>, i: int) -> int
    decreases s.len() - i,
    when 0 <= i <= s.len()
{
    if i == s.len() || !is_digit(s[i]) {
        i
    } else {
        sp_past_digits(s, i + 1)
    }
}

/// Canonical encoding of a score in tenths: the whole part, a point, one
/// fraction digit (72 tenths encodes as the four characters of 7.2).
pub open spec fn enc_tenths(t: u32) -> Seq<char> {
    enc_u32(t / 10) + seq!['.', digit_char((t % 10) as int)]
}

/// A score: a number, optionally followed by a point and at least one
/// fraction digit. The first fraction digit gives the tenths; finer digits
/// are read past and dropped.
pub open spec fn sp_tenths(s: Seq<char>, i: int) -> Option<(u32, int)> {
    match sp_u32(s, i) {
        Option::None => Option::None,
        Option::Some((w, j)) => {
            if j < s.len() && s[j] == '.' {
                if j + 1 < s.len() && is_digit(s[j + 1]) {
                    let v = 10 * (w as int) + digit_val(s[j + 1]);
                    if v > 0xffff_ffff {
                        Option::None
                    } else {
                        Option::Some((v as u32, sp_past_digits(s, j + 1)))
                    }
                } else {
                    Option::None
                }
            } else {
                if 10 * (w as int) > 0xffff_ffff {
                    Option::None
                } else {
                    Option::Some(((10 * w as int) as u32, j))
                }
            }
        },
    }
}

pub open spec fn pow10(n: nat) -> int
    decreases n,
{
    if n == 0 {
        1
    } else {
        10 * pow10((n - 1) as nat)
    }
}

pub proof fn lemma_pow10_pos(n: nat)
    ensures
        pow10(n) >= 1,
    decreases n,
{
    if n > 0 {
        lemma_pow10_pos((n - 1) as nat);
    }
}

pub proof fn lemma_enc_u32_digits(v: u32)
    ensures
        enc_u32(v).len() >= 1,
        forall|k: int| 0 <= k < enc_u32(v).len() ==> is_digit(#[trigger] enc_u32(v)[k]),
    decreases v,
{
    if v < 10 {
        lemma_digit_char_val(v as int);
    } else {
        lemma_enc_u32_digits(v / 10);
        lemma_digit_char_val((v % 10) as int);
    }
}

/// Folding the canonical digits of `v` onto `acc` lands exactly past them,
/// carrying `acc * pow10(len) + v`, with no overflow on the way when that
/// final value fits.
pub proof fn lemma_sp_digits_enc(s: Seq<char>, i: int, acc: u32, v: u32)
    requires
        0 <= i,
        i + enc_u32(v).len() <= s.len(),
        s.subrange(i, i + enc_u32(v).len()) == enc_u32(v),
        (acc as int) * pow10(enc_u32(v).len() as nat) + v <= 0xffff_ffff,
    ensures
        sp_digits(s, i, acc) == sp_digits(
            s,
            i + enc_u32(v).len(),
            ((acc as int) * pow10(enc_u32(v).len() as nat) + v) as u32,
        ),
    decreases v,
{
    let e = enc_u32(v);
    lemma_enc_u32_digits(v);
    if v < 10 {
        assert(s.subrange(i, i + 1)[0] == e[0]);
        assert(s[i] == digit_char(v as int));
        lemma_digit_char_val(v as int);
        assert(pow10(0nat) == 1);
        assert(pow10(1nat) == 10);
        assert(10 * (acc as int) + digit_val(s[i]) == (acc as int) * pow10(1) + v)
            by (nonlinear_arith)
            requires
                digit_val(s[i]) == v,
                pow10(1nat) == 10,
        ;
    } else {
        let ep = enc_u32(v / 10);
        let d = digit_char((v % 10) as int);
        assert(e == ep.push(d));
        assert(s.subrange(i, i + ep.len()) == ep) by {
            assert forall|k: int| 0 <= k < ep.len() implies s.subrange(i, i + ep.len())[k]
                == ep[k] by {
                assert(s[i + k] == e[k]);
            }
            assert(s.subrange(i, i + ep.len()) =~= ep);
        }
        let accp = (acc as int) * pow10(ep.len() as nat) + (v / 10) as int;
        lemma_pow10_pos(ep.len() as nat);
        assert(pow10(e.len() as nat) == 10 * pow10(ep.len() as nat));
        assert(accp * 10 + (v % 10) == (acc as int) * pow10(e.len() as nat) + v)
            by (nonlinear_arith)
            requires
                accp == (acc as int) * pow10(ep.len() as nat) + (v / 10) as int,
                pow10(e.len() as nat) == 10 * pow10(ep.len() as nat),
                v == 10 * (v / 10) + (v % 10),
                v >= 10,
        ;
        assert(0 <= accp && accp <= 0xffff_ffff) by (nonlinear_arith)
            requires
                accp * 10 + (v % 10) <= 0xffff_ffff,
                0 <= acc as int,
                0 <= pow10(ep.len() as nat),
                0 <= v / 10,
                0 <= v % 10 < 10,
                accp == (acc as int) * pow10(ep.len() as nat) + (v / 10) as int,
        ;
        lemma_sp_digits_enc(s, i, acc, v / 10);
        let j = i + ep.len();
        assert(s.subrange(i, i + e.len())[ep.len() as int] == e[ep.len() as int]);
        assert(s[j] == digit_char((v % 10) as int));
        lemma_digit_char_val((v % 10) as int);
        assert(sp_digits(s, j, accp as u32) == sp_digits(s, j + 1, (accp * 10 + (v % 10)) as u32));
    }
}

/// A canonical number encoding parses back to its value when no digit
/// follows it.
pub proof fn lemma_sp_u32_enc(s: Seq<char>, i: int, v: u32)
    requires
        0 <= i,
        i + enc_u32(v).len() <= s.len(),
        s.subrange(i, i + enc_u32(v).len()) == enc_u32(v),
        i + enc_u32(v).len() == s.len() || !is_digit(s[i + enc_u32(v).len()]),
    ensures
        sp_u32(s, i) == Some((v, i + enc_u32(v).len())),
{
    let e = enc_u32(v);
    lemma_enc_u32_digits(v);
    assert(s.subrange(i, i + e.len())[0] == e[0]);
    assert(is_digit(s[i]));
    assert((0 as int) * pow10(e.len() as nat) + v == v) by (nonlinear_arith);
    lemma_pow10_pos(e.len() as nat);
    lemma_sp_digits_enc(s, i, 0, v);
}

/// A canonical score encoding parses back to its tenths when neither a digit
/// nor a point follows it.
pub proof fn lemma_sp_tenths_enc(s: Seq<char>, i: int, t: u32)
    requires
        0 <= i,
        i + enc_tenths(t).len() <= s.len(),
        s.subrange(i, i + enc_tenths(t).len()) == enc_tenths(t),
        i + enc_tenths(t).len() == s.len() || (!is_digit(s[i + enc_tenths(t).len()]) && s[i
            + enc_tenths(t).len()] != '.'),
    ensures
        sp_tenths(s, i) == Some((t, i + enc_tenths(t).len())),
{
    let e = enc_tenths(t);
    let w = enc_u32(t / 10);
    let d = digit_char((t % 10) as int);
    assert(e == w + seq!['.', d]);
    assert forall|k: int| 0 <= k < w.len() implies s.subrange(i, i + w.len())[k] == w[k] by {
        assert(s.subrange(i, i + e.len())[k] == e[k]);
        assert(e[k] == w[k]);
    }
    assert(s.subrange(i, i + w.len()) =~= w);
    let j = i + w.len();
    assert(s.subrange(i, i + e.len())[w.len() as int] == e[w.len() as int]);
    assert(s.subrange(i, i + e.len())[w.len() as int + 1] == e[w.len() as int + 1]);
    assert(s[j] == '.');
    assert(s[j + 1] == d);
    lemma_digit_char_val((t % 10) as int);
    lemma_sp_u32_enc(s, i, t / 10);
    assert(10 * ((t / 10) as int) + digit_val(s[j + 1]) == t);
    assert(sp_past_digits(s, j + 2) == j + 2);
    assert(sp_past_digits(s, j + 1) == j + 2);
}

// ---------------------------------------------------------------------------
// Strings
// ---------------------------------------------------------------------------

/// Canonical escape of one character: quote and backslash get a backslash,
/// control characters a four-digit hexadecimal escape, all others stand as
/// themselves.
pub open spec fn esc_char(c: char) -> Seq<char> {
    if c == '"' {
        seq!['\\', '"']
    } else if c == '\\' {
        seq!['\\', '\\']
    } else if (c as u32) < 32 {
        seq![
            '\\',
            'u',
            '0',
            '0',
            hex_char((c as u32 / 16) as int),
            hex_char((c as u32 % 16) as int),
        ]
    } else {
        seq![c]
    }
}

pub open spec fn enc_str_chars(s: Seq<char>) -> Seq<char>
    decreases s.len(),
{
    if s.len() == 0 {
        Seq::<char>::empty()
    } else {
        esc_char(s[0]) + enc_str_chars(s.skip(1))
    }
}

/// Canonical encoding of a string: its escaped characters between quotes.
pub open spec fn enc_string(s: Seq<char>) -> Seq<char> {
    seq!['"'] + enc_str_chars(s) + seq!['"']
}

/// What a short escape after a backslash decodes to.
pub open spec fn sp_escape(e: char) -> Option<char> {
    if e == '"' {
        Some('"')
    } else if e == '\\' {
        Some('\\')
    } else if e == '/' {
        Some('/')
    } else if e == 'n' {
        Some('\n')
    } else if e == 't' {
        Some('\t')
    } else if e == 'r' {
        Some('\r')
    } else if e == 'b' {
        Some('\u{0008}')
    } else if e == 'f' {
        Some('\u{000c}')
    } else {
        None
    }
}

/// The characters of a string body up to and past its closing quote,
/// unescaping as it goes.
pub open spec fn sp_str_chars(s: Seq<char>, i: int) -> Option<(Seq<char>, int)>
    decreases s.len() - i,
    when 0 <= i <= s.len()
{
    if i >= s.len() {
        None
    } else if s[i] == '"' {
        Some((Seq::<char>::empty(), i + 1))
    } else if s[i] == '\\' {
        if i + 1 >= s.len() {
            None
        } else if s[i + 1] == 'u' {
            if i + 5 >= s.len() {
                None
            } else if is_hex(s[i + 2]) && is_hex(s[i + 3]) && is_hex(s[i + 4]) && is_hex(
                s[i + 5],
            ) {
                let code = hex_val(s[i + 2]) * 4096 + hex_val(s[i + 3]) * 256 + hex_val(s[i + 4])
                    * 16 + hex_val(s[i + 5]);
                if is_scalar(code) {
                    match sp_str_chars(s, i + 6) {
                        None => None,
                        Some((t, j)) => Some((seq![((code as u32) as char)] + t, j)),
                    }
                } else {
                    None
                }
            } else {
                None
            }
        } else {
            match sp_escape(s[i + 1]) {
                None => None,
                Some(c) => match sp_str_chars(s, i + 2) {
                    None => None,
                    Some((t, j)) => Some((seq![c] + t, j)),
                },
            }
        }
    } else {
        match sp_str_chars(s, i + 1) {
            None => None,
            Some((t, j)) => Some((seq![s[i]] + t, j)),
        }
    }
}

/// A string: an opening quote, then its body.
pub open spec fn sp_string(s: Seq<char>, i: int) -> Option<(Seq<char>, int)> {
    if 0 <= i < s.len() && s[i] == '"' {
        sp_str_chars(s, i + 1)
    } else {
        None
    }
}

/// A canonical string body parses back to the characters it encodes.
pub proof fn lemma_sp_str_chars_enc(s: Seq<char>, i: int, v: Seq<char>)
    requires
        0 <= i,
        i + enc_str_chars(v).len() + 1 <= s.len(),
        s.subrange(i, i + enc_str_chars(v).len()) == enc_str_chars(v),
        s[i + enc_str_chars(v).len()] == '"',
    ensures
        sp_str_chars(s, i) == Some((v, i + enc_str_chars(v).len() + 1)),
    decreases v.len(),
{
    let e = enc_str_chars(v);
    if v.len() == 0 {
        assert(s[i] == '"');
    } else {
        let c = v[0];
        let ec = esc_char(c);
        let rest = enc_str_chars(v.skip(1));
        assert(e == ec + rest);
        assert forall|k: int| 0 <= k < ec.len() implies s[i + k] == #[trigger] ec[k] by {
            assert(s.subrange(i, i + e.len())[k] == e[k]);
            assert(e[k] == (ec + rest)[k]);
        }
        let ip = i + ec.len();
        assert forall|k: int| 0 <= k < rest.len() implies s.subrange(ip, ip + rest.len())[k]
            == rest[k] by {
            assert(s.subrange(i, i + e.len())[ec.len() + k] == e[ec.len() + k]);
            assert(e[ec.len() + k] == (ec + rest)[ec.len() + k]);
        }
        assert(s.subrange(ip, ip + rest.len()) =~= rest);
        assert(s[ip + rest.len()] == '"');
        lemma_sp_str_chars_enc(s, ip, v.skip(1));
        if c == '"' {
            assert(ec[0] == '\\' && ec[1] == '"');
            assert(s[i] == '\\' && s[i + 1] == '"');
            assert(seq!['"'] + v.skip(1) =~= v);
        } else if c == '\\' {
            assert(ec[0] == '\\' && ec[1] == '\\');
            assert(s[i] == '\\' && s[i + 1] == '\\');
            assert(seq!['\\'] + v.skip(1) =~= v);
        } else if (c as u32) < 32 {
            let hi = (c as u32 / 16) as int;
            let lo = (c as u32 % 16) as int;
            assert(ec[0] == '\\' && ec[1] == 'u' && ec[2] == '0' && ec[3] == '0' && ec[4]
                == hex_char(hi) && ec[5] == hex_char(lo));
            assert(s[i] == '\\' && s[i + 1] == 'u' && s[i + 2] == '0' && s[i + 3] == '0');
            assert(s[i + 4] == hex_char(hi) && s[i + 5] == hex_char(lo));
            lemma_hex_char_val(hi);
            lemma_hex_char_val(lo);
            assert(is_hex(s[i + 2]) && is_hex(s[i + 3]) && is_hex(s[i + 4]) && is_hex(s[i + 5]));
            let code = hex_val(s[i + 2]) * 4096 + hex_val(s[i + 3]) * 256 + hex_val(s[i + 4]) * 16
                + hex_val(s[i + 5]);
            assert(hex_val('0') == 0);
            assert(code == c as u32);
            assert(is_scalar(code));
            vstd::utf8::char_u32_cast(c, c as u32);
            assert(((code as u32) as char) == c);
            assert(seq![c] + v.skip(1) =~= v);
        } else {
            assert(ec[0] == c);
            assert(s[i] == c);
            assert(seq![c] + v.skip(1) =~= v);
        }
    }
}

/// A canonical string encoding parses back to the string it encodes.
pub proof fn lemma_sp_string_enc(s: Seq<char>, i: int, v: Seq<char>)
    requires
        0 <= i,
        i + enc_string(v).len() <= s.len(),
        s.subrange(i, i + enc_string(v).len()) == enc_string(v),
    ensures
        sp_string(s, i) == Some((v, i + enc_string(v).len())),
{
    let e = enc_string(v);
    let body = enc_str_chars(v);
    assert(e == seq!['"'] + body + seq!['"']);
    assert((seq!['"'] + body + seq!['"'])[0] == '"');
    assert(s.subrange(i, i + e.len())[0] == e[0]);
    assert(s[i] == '"');
    assert forall|k: int| 0 <= k < body.len() implies s.subrange(i + 1, i + 1 + body.len())[k]
        == body[k] by {
        assert(s.subrange(i, i + e.len())[1 + k] == e[1 + k]);
        assert((seq!['"'] + body + seq!['"'])[1 + k] == body[k]);
    }
    assert(s.subrange(i + 1, i + 1 + body.len()) =~= body);
    assert((seq!['"'] + body + seq!['"'])[1 + body.len() as int] == '"');
    assert(s.subrange(i, i + e.len())[1 + body.len() as int] == e[1 + body.len() as int]);
    assert(s[i + 1 + body.len()] == '"');
    lemma_sp_str_chars_enc(s, i + 1, v);
}

// ---------------------------------------------------------------------------
// Literals, booleans, null-or-string
// ---------------------------------------------------------------------------

/// A fixed literal at `i`: the position after it, when present.
pub open spec fn sp_lit(s: Seq<char>, i: int, lit: Seq<char>) -> Option<int> {
    if 0 <= i && i + lit.len() <= s.len() && s.subrange(i, i + lit.len()) == lit {
        Some(i + lit.len())
    } else {
        None
    }
}

pub open spec fn enc_bool(b: bool) -> Seq<char> {
    if b {
        seq!['t', 'r', 'u', 'e']
    } else {
        seq!['f', 'a', 'l', 's', 'e']
    }
}

pub open spec fn sp_bool(s: Seq<char>, i: int) -> Option<(bool, int)> {
    match sp_lit(s, i, enc_bool(true)) {
        Some(j) => Some((true, j)),
        None => match sp_lit(s, i, enc_bool(false)) {
            Some(j) => Some((false, j)),
            None => None,
        },
    }
}

pub proof fn lemma_sp_bool_enc(s: Seq<char>, i: int, b: bool)
    requires
        0 <= i,
        i + enc_bool(b).len() <= s.len(),
        s.subrange(i, i + enc_bool(b).len()) == enc_bool(b),
    ensures
        sp_bool(s, i) == Some((b, i + enc_bool(b).len())),
{
    if !b {
        assert(s.subrange(i, i + 5)[0] == enc_bool(false)[0]);
        assert(s[i] == 'f');
        if sp_lit(s, i, enc_bool(true)) is Some {
            assert(s.subrange(i, i + 4) == enc_bool(true));
            assert(s.subrange(i, i + 4)[0] == 't');
            assert(false);
        }
    }
}

pub open spec fn enc_null() -> Seq<char> {
    seq!['n', 'u', 'l', 'l']
}

/// Canonical encoding of an optional string: `null` when absent.
pub open spec fn enc_opt_string(o: Option<Seq<char>>) -> Seq<char> {
    match o {
        Option::None => enc_null(),
        Option::Some(v) => enc_string(v),
    }
}

pub open spec fn sp_opt_string(s: Seq<char>, i: int) -> Option<(Option<Seq<char>>, int)> {
    match sp_lit(s, i, enc_null()) {
        Some(j) => Some((Option::None, j)),
        None => match sp_string(s, i) {
            Some((v, j)) => Some((Option::Some(v), j)),
            None => None,
        },
    }
}

pub proof fn lemma_sp_opt_string_enc(s: Seq<char>, i: int, o: Option<Seq<char>>)
    requires
        0 <= i,
        i + enc_opt_string(o).len() <= s.len(),
        s.subrange(i, i + enc_opt_string(o).len()) == enc_opt_string(o),
    ensures
        sp_opt_string(s, i) == Some((o, i + enc_opt_string(o).len())),
{
    match o {
        Option::None => {
        },
        Option::Some(v) => {
            lemma_sp_string_enc(s, i, v);
            assert(s.subrange(i, i + enc_string(v).len())[0] == enc_string(v)[0]);
            assert((seq!['"'] + enc_str_chars(v) + seq!['"'])[0] == '"');
            assert(s[i] == '"');
            if sp_lit(s, i, enc_null()) is Some {
                assert(s.subrange(i, i + 4) == enc_null());
                assert(s.subrange(i, i + 4)[0] == 'n');
                assert(false);
            }
        },
    }
}

// ---------------------------------------------------------------------------
// Skipping unknown values (forward compatibility)
// ---------------------------------------------------------------------------

/// Reads past one value of any shape, for members this store does not know.
/// `fuel` bounds the nesting and list length that will be crossed.
pub open spec fn sp_skip_value(s: Seq<char>, i: int, fuel: nat) -> Option<int>
    decreases fuel,
{
    if fuel == 0 || !(0 <= i < s.len()) {
        None
    } else if s[i] == '"' {
        match sp_string(s, i) {
            Some((v, j)) => Some(j),
            None => None,
        }
    } else if is_digit(s[i]) {
        match sp_tenths(s, i) {
            Some((v, j)) => Some(j),
            None => None,
        }
    } else if s[i] == 't' {
        sp_lit(s, i, enc_bool(true))
    } else if s[i] == 'f' {
        sp_lit(s, i, enc_bool(false))
    } else if s[i] == 'n' {
        sp_lit(s, i, enc_null())
    } else if s[i] == '[' {
        sp_skip_elems(s, i + 1, (fuel - 1) as nat)
    } else if s[i] == '{' {
        sp_skip_members(s, i + 1, (fuel - 1) as nat)
    } else {
        None
    }
}

/// Reads past the rest of an array: a closing bracket, or values separated
/// by commas up to one.
pub open spec fn sp_skip_elems(s: Seq<char>, i: int, fuel: nat) -> Option<int>
    decreases fuel,
{
    if fuel == 0 || !(0 <= i < s.len()) {
        None
    } else if s[i] == ']' {
        Some(i + 1)
    } else {
        match sp_skip_value(s, i, (fuel - 1) as nat) {
            None => None,
            Some(j) => {
                if j < s.len() && s[j] == ',' {
                    sp_skip_elems(s, j + 1, (fuel - 1) as nat)
                } else if j < s.len() && s[j] == ']' {
                    Some(j + 1)
                } else {
                    None
                }
            },
        }
    }
}

/// Reads past the rest of an object: a closing brace, or members separated
/// by commas up to one.
pub open spec fn sp_skip_members(s: Seq<char>, i: int, fuel: nat) -> Option<int>
    decreases fuel,
{
    if fuel == 0 || !(0 <= i < s.len()) {
        None
    } else if s[i] == '}' {
        Some(i + 1)
    } else {
        match sp_string(s, i) {
            None => None,
            Some((k, j)) => {
                if j < s.len() && s[j] == ':' {
                    match sp_skip_value(s, j + 1, (fuel - 1) as nat) {
                        None => None,
                        Some(j2) => {
                            if j2 < s.len() && s[j2] == ',' {
                                sp_skip_members(s, j2 + 1, (fuel - 1) as nat)
                            } else if j2 < s.len() && s[j2] == '}' {
                                Some(j2 + 1)
                            } else {
                                None
                            }
                        },
                    }
                } else {
                    None
                }
            },
        }
    }
}

// ---------------------------------------------------------------------------
// Object members
// ---------------------------------------------------------------------------

/// Finds the member named `key`, reading past members this store does not
/// know: the position just after the key's colon.
pub open spec fn sp_member(s: Seq<char>, i: int, key: Seq<char>, fuel: nat) -> Option<int>
    decreases fuel,
{
    if fuel == 0 {
        None
    } else {
        match sp_string(s, i) {
            None => None,
            Some((k, j)) => {
                if j < s.len() && s[j] == ':' {
                    if k == key {
                        Some(j + 1)
                    } else {
                        match sp_skip_value(s, j + 1, (fuel - 1) as nat) {
                            None => None,
                            Some(j2) => {
                                if j2 < s.len() && s[j2] == ',' {
                                    sp_member(s, j2 + 1, key, (fuel - 1) as nat)
                                } else {
                                    None
                                }
                            },
                        }
                    }
                } else {
                    None
                }
            },
        }
    }
}

/// The end of an object: a closing brace, after members this store does not
/// know have been read past.
pub open spec fn sp_obj_end(s: Seq<char>, i: int, fuel: nat) -> Option<int>
    decreases fuel,
{
    if fuel == 0 || !(0 <= i < s.len()) {
        None
    } else if s[i] == '}' {
        Some(i + 1)
    } else if s[i] == ',' {
        match sp_string(s, i + 1) {
            None => None,
            Some((k, j)) => {
                if j < s.len() && s[j] == ':' {
                    match sp_skip_value(s, j + 1, (fuel - 1) as nat) {
                        None => None,
                        Some(j2) => sp_obj_end(s, j2, (fuel - 1) as nat),
                    }
                } else {
                    None
                }
            },
        }
    } else {
        None
    }
}

/// The canonical member head, key and colon, leads straight to its value.
pub proof fn lemma_sp_member_enc(s: Seq<char>, i: int, key: Seq<char>, fuel: nat)
    requires
        fuel >= 1,
        0 <= i,
        i + enc_string(key).len() + 1 <= s.len(),
        s.subrange(i, i + enc_string(key).len()) == enc_string(key),
        s[i + enc_string(key).len()] == ':',
    ensures
        sp_member(s, i, key, fuel) == Some(i + enc_string(key).len() + 1),
{
    lemma_sp_string_enc(s, i, key);
}

// ---------------------------------------------------------------------------
// Exec character helpers
// ---------------------------------------------------------------------------

pub fn is_digit_exec(c: char) -> (r: bool)
    ensures
        r == is_digit(c),
{
    let u = c as u32;
    48 <= u && u <= 57
}

pub fn is_hex_exec(c: char) -> (r: bool)
    ensures
        r == is_hex(c),
{
    let u = c as u32;
    (48 <= u && u <= 57) || (97 <= u && u <= 102)
}

pub fn hex_val_exec(c: char) -> (r: u32)
    requires
        is_hex(c),
    ensures
        r as int == hex_val(c),
        r < 16,
{
    let u = c as u32;
    if 48 <= u && u <= 57 {
        u - 48
    } else {
        u - 87
    }
}

pub fn digit_char_exec(d: u32) -> (r: char)
    requires
        d < 10,
    ensures
        r == digit_char(d as int),
{
    ((48 + d) as u8) as char
}

pub fn hex_char_exec(d: u32) -> (r: char)
    requires
        d < 16,
    ensures
        r == hex_char(d as int),
{
    if d < 10 {
        ((48 + d) as u8) as char
    } else {
        ((87 + d) as u8) as char
    }
}

/// Relies on char::from_u32: Some exactly on Unicode scalar values, and the
/// returned char has the given code.
#[verifier::external_body]
fn char_from_code(code: u32) -> (r: Option<char>)
    ensures
        r is Some <==> is_scalar(code as int),
        (match r {
            Option::Some(c) => c as u32 == code,
            Option::None => true,
        }),
{
    char::from_u32(code)
}

/// Relies on String::push: appends exactly the one character.
#[verifier::external_body]
fn push_char(s: &mut String, c: char)
    ensures
        final(s)@ == old(s)@.push(c),
{
    s.push(c);
}

/// Collects a character sequence into a `String` with the same view.
pub fn chars_to_string(v: &Vec<char>) -> (r: String)
    ensures
        r@ == v@,
{
    let mut out = String::new();
    let mut k: usize = 0;
    while k < v.len()
        invariant
            k <= v@.len(),
            out@ == v@.take(k as int),
        decreases v@.len() - k,
    {
        push_char(&mut out, v[k]);
        proof {
            assert(v@.take(k as int).push(v@[k as int]) =~= v@.take(k as int + 1));
        }
        k = k + 1;
    }
    proof {
        assert(v@.take(v@.len() as int) =~= v@);
    }
    out
}

/// Reads a string slice out into its character sequence.
pub fn str_to_chars(s: &str) -> (r: Vec<char>)
    ensures
        r@ == s@,
{
    let n = s.unicode_len();
    let mut out: Vec<char> = Vec::new();
    let mut k: usize = 0;
    while k < n
        invariant
            n == s@.len(),
            k <= n,
            out@ == s@.take(k as int),
        decreases n - k,
    {
        out.push(s.get_char(k));
        proof {
            assert(s@.take(k as int).push(s@[k as int]) =~= s@.take(k as int + 1));
        }
        k = k + 1;
    }
    proof {
        assert(s@.take(n as int) =~= s@);
    }
    out
}

// ---------------------------------------------------------------------------
// Exec emitters
// ---------------------------------------------------------------------------

pub fn emit_u32(out: &mut Vec<char>, v: u32)
    ensures
        final(out)@ == old(out)@ + enc_u32(v),
    decreases v,
{
    if v < 10 {
        out.push(digit_char_exec(v));
        proof {
            assert(old(out)@ + enc_u32(v) =~= old(out)@.push(digit_char(v as int)));
        }
    } else {
        emit_u32(out, v / 10);
        out.push(digit_char_exec(v % 10));
        proof {
            assert(old(out)@ + enc_u32(v) =~= (old(out)@ + enc_u32(v / 10)).push(
                digit_char((v % 10) as int),
            ));
        }
    }
}

pub fn emit_tenths(out: &mut Vec<char>, t: u32)
    ensures
        final(out)@ == old(out)@ + enc_tenths(t),
{
    emit_u32(out, t / 10);
    out.push('.');
    out.push(digit_char_exec(t % 10));
    proof {
        assert(old(out)@ + enc_tenths(t) =~= ((old(out)@ + enc_u32(t / 10)).push('.')).push(
            digit_char((t % 10) as int),
        ));
    }
}

fn emit_str_chars(out: &mut Vec<char>, s: &str, k: usize)
    requires
        k <= s@.len(),
    ensures
        final(out)@ == old(out)@ + enc_str_chars(s@.skip(k as int)),
    decreases s@.len() - k,
{
    let n = s.unicode_len();
    if k == n {
        proof {
            assert(s@.skip(k as int) =~= Seq::<char>::empty());
            assert(old(out)@ + enc_str_chars(s@.skip(k as int)) =~= old(out)@);
        }
        return ;
    }
    let c = s.get_char(k);
    if c == '"' {
        out.push('\\');
        out.push('"');
    } else if c == '\\' {
        out.push('\\');
        out.push('\\');
    } else if (c as u32) < 32 {
        out.push('\\');
        out.push('u');
        out.push('0');
        out.push('0');
        out.push(hex_char_exec((c as u32) / 16));
        out.push(hex_char_exec((c as u32) % 16));
    } else {
        out.push(c);
    }
    proof {
        assert(out@ =~= old(out)@ + esc_char(c));
    }
    let ghost mid = out@;
    emit_str_chars(out, s, k + 1);
    proof {
        assert(s@.skip(k as int)[0] == c);
        assert(s@.skip(k as int).skip(1) =~= s@.skip(k as int + 1));
        assert(enc_str_chars(s@.skip(k as int)) == esc_char(c) + enc_str_chars(
            s@.skip(k as int + 1),
        ));
        assert(final(out)@ =~= old(out)@ + enc_str_chars(s@.skip(k as int)));
    }
}

pub fn emit_string(out: &mut Vec<char>, s: &str)
    ensures
        final(out)@ == old(out)@ + enc_string(s@),
{
    out.push('"');
    emit_str_chars(out, s, 0);
    out.push('"');
    proof {
        assert(s@.skip(0) =~= s@);
        assert(final(out)@ =~= old(out)@ + enc_string(s@));
    }
}

pub fn emit_bool(out: &mut Vec<char>, b: bool)
    ensures
        final(out)@ == old(out)@ + enc_bool(b),
{
    if b {
        out.push('t');
        out.push('r');
        out.push('u');
        out.push('e');
    } else {
        out.push('f');
        out.push('a');
        out.push('l');
        out.push('s');
        out.push('e');
    }
    proof {
        assert(final(out)@ =~= old(out)@ + enc_bool(b));
    }
}

pub fn emit_null(out: &mut Vec<char>)
    ensures
        final(out)@ == old(out)@ + enc_null(),
{
    out.push('n');
    out.push('u');
    out.push('l');
    out.push('l');
    proof {
        assert(final(out)@ =~= old(out)@ + enc_null());
    }
}

pub fn emit_opt_string(out: &mut Vec<char>, o: &Option<String>)
    ensures
        final(out)@ == old(out)@ + enc_opt_string(
            match *o {
                Option::None => Option::None,
                Option::Some(ref s) => Option::Some(s@),
            },
        ),
{
    match o {
        Option::None => {
            emit_null(out);
        },
        Option::Some(s) => {
            emit_string(out, s.as_str());
        },
    }
}

// ---------------------------------------------------------------------------
// Exec parsers
// ---------------------------------------------------------------------------

pub fn parse_u32(s: &Vec<char>, i: usize) -> (r: Option<(u32, usize)>)
    requires
        i <= s@.len(),
    ensures
        (match r {
            Option::Some((v, j)) => sp_u32(s@, i as int) == Option::Some((v, j as int)) && i <= j
                <= s@.len(),
            Option::None => sp_u32(s@, i as int) is None,
        }),
{
    if i == s.len() || !is_digit_exec(s[i]) {
        return Option::None;
    }
    let mut j = i;
    let mut acc: u32 = 0;
    loop
        invariant
            i <= j <= s@.len(),
            sp_digits(s@, i as int, 0) == sp_digits(s@, j as int, acc),
            sp_u32(s@, i as int) == sp_digits(s@, i as int, 0),
        decreases s@.len() - j,
    {
        if j == s.len() || !is_digit_exec(s[j]) {
            return Option::Some((acc, j));
        }
        let d = (s[j] as u32) - 48;
        let wide = (acc as u64) * 10 + (d as u64);
        if wide > 0xffff_ffff {
            return Option::None;
        }
        proof {
            assert(10 * (acc as int) + digit_val(s@[j as int]) == wide);
        }
        acc = wide as u32;
        j = j + 1;
    }
}

pub fn parse_past_digits(s: &Vec<char>, i: usize) -> (r: usize)
    requires
        i <= s@.len(),
    ensures
        r as int == sp_past_digits(s@, i as int),
        i <= r <= s@.len(),
{
    let mut j = i;
    while j < s.len() && is_digit_exec(s[j])
        invariant
            i <= j <= s@.len(),
            sp_past_digits(s@, i as int) == sp_past_digits(s@, j as int),
        decreases s@.len() - j,
    {
        j = j + 1;
    }
    j
}

pub fn parse_tenths(s: &Vec<char>, i: usize) -> (r: Option<(u32, usize)>)
    requires
        i <= s@.len(),
    ensures
        (match r {
            Option::Some((v, j)) => sp_tenths(s@, i as int) == Option::Some((v, j as int)) && i
                <= j <= s@.len(),
            Option::None => sp_tenths(s@, i as int) is None,
        }),
{
    match parse_u32(s, i) {
        Option::None => Option::None,
        Option::Some((w, j)) => {
            if j < s.len() && s[j] == '.' {
                if j + 1 < s.len() && is_digit_exec(s[j + 1]) {
                    let d = (s[j + 1] as u32) - 48;
                    let wide = (w as u64) * 10 + (d as u64);
                    if wide > 0xffff_ffff {
                        Option::None
                    } else {
                        let jj = parse_past_digits(s, j + 1);
                        Option::Some((wide as u32, jj))
                    }
                } else {
                    Option::None
                }
            } else {
                if w > 0xffff_ffff / 10 {
                    Option::None
                } else {
                    Option::Some((w * 10, j))
                }
            }
        },
    }
}

fn parse_escape(e: char) -> (r: Option<char>)
    ensures
        r == sp_escape(e),
{
    if e == '"' {
        Option::Some('"')
    } else if e == '\\' {
        Option::Some('\\')
    } else if e == '/' {
        Option::Some('/')
    } else if e == 'n' {
        Option::Some('\n')
    } else if e == 't' {
        Option::Some('\t')
    } else if e == 'r' {
        Option::Some('\r')
    } else if e == 'b' {
        Option::Some('\u{0008}')
    } else if e == 'f' {
        Option::Some('\u{000c}')
    } else {
        Option::None
    }
}

pub fn parse_str_chars(s: &Vec<char>, i: usize) -> (r: Option<(Vec<char>, usize)>)
    requires
        i <= s@.len(),
    ensures
        (match r {
            Option::Some(p) => sp_str_chars(s@, i as int) == Option::Some((p.0@, p.1 as int)) && i
                <= p.1 <= s@.len(),
            Option::None => sp_str_chars(s@, i as int) is None,
        }),
    decreases s@.len() - i,
{
    if i == s.len() {
        return Option::None;
    }
    let c = s[i];
    if c == '"' {
        let empty: Vec<char> = Vec::new();
        proof {
            assert(empty@ =~= Seq::<char>::empty());
        }
        return Option::Some((empty, i + 1));
    }
    if c == '\\' {
        if i + 1 == s.len() {
            return Option::None;
        }
        let e = s[i + 1];
        if e == 'u' {
            if s.len() - i <= 5 {
                return Option::None;
            }
            let h2 = s[i + 2];
            let h3 = s[i + 3];
            let h4 = s[i + 4];
            let h5 = s[i + 5];
            if !(is_hex_exec(h2) && is_hex_exec(h3) && is_hex_exec(h4) && is_hex_exec(h5)) {
                return Option::None;
            }
            let code = hex_val_exec(h2) * 4096 + hex_val_exec(h3) * 256 + hex_val_exec(h4) * 16
                + hex_val_exec(h5);
            match char_from_code(code) {
                Option::None => Option::None,
                Option::Some(ch) => {
                    proof {
                        vstd::utf8::char_u32_cast(ch, code);
                    }
                    match parse_str_chars(s, i + 6) {
                        Option::None => Option::None,
                        Option::Some((t, j)) => {
                            let mut t2 = t;
                            t2.insert(0, ch);
                            proof {
                                assert(t2@ =~= seq![ch] + t@);
                            }
                            Option::Some((t2, j))
                        },
                    }
                },
            }
        } else {
            match parse_escape(e) {
                Option::None => Option::None,
                Option::Some(ch) => {
                    match parse_str_chars(s, i + 2) {
                        Option::None => Option::None,
                        Option::Some((t, j)) => {
                            let mut t2 = t;
                            t2.insert(0, ch);
                            proof {
                                assert(t2@ =~= seq![ch] + t@);
                            }
                            Option::Some((t2, j))
                        },
                    }
                },
            }
        }
    } else {
        match parse_str_chars(s, i + 1) {
            Option::None => Option::None,
            Option::Some((t, j)) => {
                let mut t2 = t;
                t2.insert(0, c);
                proof {
                    assert(t2@ =~= seq![c] + t@);
                }
                Option::Some((t2, j))
            },
        }
    }
}

pub fn parse_string(s: &Vec<char>, i: usize) -> (r: Option<(Vec<char>, usize)>)
    requires
        i <= s@.len(),
    ensures
        (match r {
            Option::Some(p) => sp_string(s@, i as int) == Option::Some((p.0@, p.1 as int)) && i
                <= p.1 <= s@.len(),
            Option::None => sp_string(s@, i as int) is None,
        }),
{
    if i < s.len() && s[i] == '"' {
        parse_str_chars(s, i + 1)
    } else {
        Option::None
    }
}

pub fn parse_lit(s: &Vec<char>, i: usize, lit: &str) -> (r: Option<usize>)
    requires
        i <= s@.len(),
    ensures
        (match r {
            Option::Some(j) => sp_lit(s@, i as int, lit@) == Option::Some(j as int) && i <= j
                <= s@.len(),
            Option::None => sp_lit(s@, i as int, lit@) is None,
        }),
{
    let n = lit.unicode_len();
    if s.len() - i < n {
        return Option::None;
    }
    let sl = s.len();
    let mut k: usize = 0;
    while k < n
        invariant
            k <= n,
            n == lit@.len(),
            sl == s@.len(),
            i + n <= sl,
            forall|m: int| 0 <= m < k ==> s@[i + m] == lit@[m],
        decreases n - k,
    {
        if s[i + k] != lit.get_char(k) {
            proof {
                if sp_lit(s@, i as int, lit@) is Some {
                    assert(s@.subrange(i as int, i + n as int) == lit@);
                    assert(s@.subrange(i as int, i + n as int)[k as int] == lit@[k as int]);
                    assert(false);
                }
            }
            return Option::None;
        }
        k = k + 1;
    }
    proof {
        assert(s@.subrange(i as int, i + n as int) =~= lit@);
    }
    Option::Some(i + n)
}

pub fn parse_bool(s: &Vec<char>, i: usize) -> (r: Option<(bool, usize)>)
    requires
        i <= s@.len(),
    ensures
        (match r {
            Option::Some((b, j)) => sp_bool(s@, i as int) == Option::Some((b, j as int)) && i <= j
                <= s@.len(),
            Option::None => sp_bool(s@, i as int) is None,
        }),
{
    proof {
        reveal_strlit("true");
        reveal_strlit("false");
        assert("true"@ =~= enc_bool(true));
        assert("false"@ =~= enc_bool(false));
    }
    match parse_lit(s, i, "true") {
        Option::Some(j) => Option::Some((true, j)),
        Option::None => match parse_lit(s, i, "false") {
            Option::Some(j) => Option::Some((false, j)),
            Option::None => Option::None,
        },
    }
}

pub fn parse_opt_string(s: &Vec<char>, i: usize) -> (r: Option<(Option<Vec<char>>, usize)>)
    requires
        i <= s@.len(),
    ensures
        (match r {
            Option::Some((o, j)) => sp_opt_string(s@, i as int) == Option::Some(
                (
                    match o {
                        Option::None => Option::None,
                        Option::Some(ref v) => Option::Some(v@),
                    },
                    j as int,
                ),
            ) && i <= j <= s@.len(),
            Option::None => sp_opt_string(s@, i as int) is None,
        }),
{
    proof {
        reveal_strlit("null");
        assert("null"@ =~= enc_null());
    }
    match parse_lit(s, i, "null") {
        Option::Some(j) => Option::Some((Option::None, j)),
        Option::None => match parse_string(s, i) {
            Option::Some((v, j)) => Option::Some((Option::Some(v), j)),
            Option::None => Option::None,
        },
    }
}

// ---------------------------------------------------------------------------
// Exec skipping and member seeking
// ---------------------------------------------------------------------------

fn chars_eq_str(v: &Vec<char>, key: &str) -> (r: bool)
    ensures
        r == (v@ == key@),
{
    let n = key.unicode_len();
    if v.len() != n {
        return false;
    }
    let mut k: usize = 0;
    while k < n
        invariant
            k <= n,
            n == key@.len(),
            n == v@.len(),
            forall|m: int| 0 <= m < k ==> v@[m] == key@[m],
        decreases n - k,
    {
        if v[k] != key.get_char(k) {
            return false;
        }
        k = k + 1;
    }
    proof {
        assert(v@ =~= key@);
    }
    true
}

pub fn skip_value(s: &Vec<char>, i: usize, fuel: usize) -> (r: Option<usize>)
    requires
        i <= s@.len(),
    ensures
        (match r {
            Option::Some(j) => sp_skip_value(s@, i as int, fuel as nat) == Option::Some(j as int)
                && j <= s@.len(),
            Option::None => sp_skip_value(s@, i as int, fuel as nat) is None,
        }),
    decreases fuel,
{
    if fuel == 0 || i == s.len() {
        return Option::None;
    }
    let c = s[i];
    if c == '"' {
        match parse_string(s, i) {
            Option::Some((v, j)) => Option::Some(j),
            Option::None => Option::None,
        }
    } else if is_digit_exec(c) {
        match parse_tenths(s, i) {
            Option::Some((v, j)) => Option::Some(j),
            Option::None => Option::None,
        }
    } else if c == 't' {
        proof {
            reveal_strlit("true");
            assert("true"@ =~= enc_bool(true));
        }
        parse_lit(s, i, "true")
    } else if c == 'f' {
        proof {
            reveal_strlit("false");
            assert("false"@ =~= enc_bool(false));
        }
        parse_lit(s, i, "false")
    } else if c == 'n' {
        proof {
            reveal_strlit("null");
            assert("null"@ =~= enc_null());
        }
        parse_lit(s, i, "null")
    } else if c == '[' {
        skip_elems(s, i + 1, fuel - 1)
    } else if c == '{' {
        skip_members(s, i + 1, fuel - 1)
    } else {
        Option::None
    }
}

fn skip_elems(s: &Vec<char>, i: usize, fuel: usize) -> (r: Option<usize>)
    requires
        i <= s@.len(),
    ensures
        (match r {
            Option::Some(j) => sp_skip_elems(s@, i as int, fuel as nat) == Option::Some(j as int)
                && j <= s@.len(),
            Option::None => sp_skip_elems(s@, i as int, fuel as nat) is None,
        }),
    decreases fuel,
{
    if fuel == 0 || i == s.len() {
        return Option::None;
    }
    if s[i] == ']' {
        return Option::Some(i + 1);
    }
    match skip_value(s, i, fuel - 1) {
        Option::None => Option::None,
        Option::Some(j) => {
            if j < s.len() && s[j] == ',' {
                skip_elems(s, j + 1, fuel - 1)
            } else if j < s.len() && s[j] == ']' {
                Option::Some(j + 1)
            } else {
                Option::None
            }
        },
    }
}

fn skip_members(s: &Vec<char>, i: usize, fuel: usize) -> (r: Option<usize>)
    requires
        i <= s@.len(),
    ensures
        (match r {
            Option::Some(j) => sp_skip_members(s@, i as int, fuel as nat) == Option::Some(
                j as int,
            ) && j <= s@.len(),
            Option::None => sp_skip_members(s@, i as int, fuel as nat) is None,
        }),
    decreases fuel,
{
    if fuel == 0 || i == s.len() {
        return Option::None;
    }
    if s[i] == '}' {
        return Option::Some(i + 1);
    }
    match parse_string(s, i) {
        Option::None => Option::None,
        Option::Some((k, j)) => {
            if j < s.len() && s[j] == ':' {
                match skip_value(s, j + 1, fuel - 1) {
                    Option::None => Option::None,
                    Option::Some(j2) => {
                        if j2 < s.len() && s[j2] == ',' {
                            skip_members(s, j2 + 1, fuel - 1)
                        } else if j2 < s.len() && s[j2] == '}' {
                            Option::Some(j2 + 1)
                        } else {
                            Option::None
                        }
                    },
                }
            } else {
                Option::None
            }
        },
    }
}

/// Finds the member named `key`, reading past members this store does not
/// know: the position just after the key's colon.
pub fn parse_member(s: &Vec<char>, i: usize, key: &str, fuel: usize) -> (r: Option<usize>)
    requires
        i <= s@.len(),
    ensures
        (match r {
            Option::Some(j) => sp_member(s@, i as int, key@, fuel as nat) == Option::Some(
                j as int,
            ) && j <= s@.len(),
            Option::None => sp_member(s@, i as int, key@, fuel as nat) is None,
        }),
    decreases fuel,
{
    if fuel == 0 {
        return Option::None;
    }
    match parse_string(s, i) {
        Option::None => Option::None,
        Option::Some((k, j)) => {
            if j < s.len() && s[j] == ':' {
                if chars_eq_str(&k, key) {
                    Option::Some(j + 1)
                } else {
                    match skip_value(s, j + 1, fuel - 1) {
                        Option::None => Option::None,
                        Option::Some(j2) => {
                            if j2 < s.len() && s[j2] == ',' {
                                parse_member(s, j2 + 1, key, fuel - 1)
                            } else {
                                Option::None
                            }
                        },
                    }
                }
            } else {
                Option::None
            }
        },
    }
}

/// The end of an object: a closing brace, after members this store does not
/// know have been read past.
pub fn parse_obj_end(s: &Vec<char>, i: usize, fuel: usize) -> (r: Option<usize>)
    requires
        i <= s@.len(),
    ensures
        (match r {
            Option::Some(j) => sp_obj_end(s@, i as int, fuel as nat) == Option::Some(j as int)
                && j <= s@.len(),
            Option::None => sp_obj_end(s@, i as int, fuel as nat) is None,
        }),
    decreases fuel,
{
    if fuel == 0 || i == s.len() {
        return Option::None;
    }
    if s[i] == '}' {
        return Option::Some(i + 1);
    }
    if s[i] == ',' {
        match parse_string(s, i + 1) {
            Option::None => Option::None,
            Option::Some((k, j)) => {
                if j < s.len() && s[j] == ':' {
                    match skip_value(s, j + 1, fuel - 1) {
                        Option::None => Option::None,
                        Option::Some(j2) => parse_obj_end(s, j2, fuel - 1),
                    }
                } else {
                    Option::None
                }
            },
        }
    } else {
        Option::None
    }
}

// ---------------------------------------------------------------------------
// Members with their values, and subrange splitting
// ---------------------------------------------------------------------------

/// A first member: key, colon, value.
#[verifier::opaque]
pub open spec fn enc_mem(key: Seq<char>, val: Seq<char>) -> Seq<char> {
    enc_string(key) + (seq![':'] + val)
}

/// A later member: comma, key, colon, value.
#[verifier::opaque]
pub open spec fn enc_memc(key: Seq<char>, val: Seq<char>) -> Seq<char> {
    seq![','] + enc_mem(key, val)
}

/// A later member in the parser: the comma, then the sought key.
pub open spec fn sp_mem_at(s: Seq<char>, j: int, key: Seq<char>, fuel: nat) -> Option<int> {
    if 0 <= j < s.len() && s[j] == ',' {
        sp_member(s, j + 1, key, fuel)
    } else {
        None
    }
}

/// Splits the subrange of a concatenation into the subranges of its parts.
pub proof fn lemma_subrange_cat(s: Seq<char>, i: int, a: Seq<char>, b: Seq<char>)
    requires
        0 <= i,
        i + a.len() + b.len() <= s.len(),
        s.subrange(i, i + a.len() + b.len()) == a + b,
    ensures
        s.subrange(i, i + a.len()) == a,
        s.subrange(i + a.len(), i + a.len() + b.len()) == b,
{
    assert forall|k: int| 0 <= k < a.len() implies s.subrange(i, i + a.len())[k] == a[k] by {
        assert(s.subrange(i, i + a.len() + b.len())[k] == (a + b)[k]);
    }
    assert(s.subrange(i, i + a.len()) =~= a);
    assert forall|k: int|
        0 <= k < b.len() implies s.subrange(i + a.len(), i + a.len() + b.len())[k] == b[k] by {
        assert(s.subrange(i + a.len(), i + a.len() + b.len())[k] == s[i + a.len() + k]);
        assert(s.subrange(i, i + a.len() + b.len())[a.len() + k] == s[i + (a.len() + k)]);
        assert((a + b)[a.len() + k] == b[k]);
    }
    assert(s.subrange(i + a.len(), i + a.len() + b.len()) =~= b);
}

/// The canonical head member leads straight to its value.
pub proof fn lemma_mem_head(s: Seq<char>, i: int, key: Seq<char>, val: Seq<char>, fuel: nat)
    requires
        fuel >= 1,
        0 <= i,
        i + enc_mem(key, val).len() <= s.len(),
        s.subrange(i, i + enc_mem(key, val).len()) == enc_mem(key, val),
    ensures
        sp_member(s, i, key, fuel) == Some(i + enc_string(key).len() + 1),
        s.subrange(i + enc_string(key).len() + 1, i + enc_mem(key, val).len()) == val,
{
    reveal(enc_mem);
    let a = enc_string(key);
    let bc = seq![':'] + val;
    lemma_subrange_cat(s, i, a, bc);
    lemma_subrange_cat(s, i + a.len(), seq![':'], val);
    assert(s.subrange(i + a.len(), i + a.len() + 1)[0] == ':');
    assert(s[i + a.len()] == ':');
    lemma_sp_member_enc(s, i, key, fuel);
}

/// The canonical later member, behind its comma, leads straight to its value.
pub proof fn lemma_mem_comma(s: Seq<char>, i: int, key: Seq<char>, val: Seq<char>, fuel: nat)
    requires
        fuel >= 1,
        0 <= i,
        i + enc_memc(key, val).len() <= s.len(),
        s.subrange(i, i + enc_memc(key, val).len()) == enc_memc(key, val),
    ensures
        sp_mem_at(s, i, key, fuel) == Some(i + 2 + enc_string(key).len()),
        s.subrange(i + 2 + enc_string(key).len(), i + enc_memc(key, val).len()) == val,
{
    reveal(enc_memc);
    reveal(enc_mem);
    let rest = enc_mem(key, val);
    lemma_subrange_cat(s, i, seq![','], rest);
    assert(s.subrange(i, i + 1)[0] == ',');
    assert(s[i] == ',');
    lemma_mem_head(s, i + 1, key, val, fuel);
}

/// The canonical closing brace ends the object at once.
pub proof fn lemma_sp_obj_end_enc(s: Seq<char>, i: int, fuel: nat)
    requires
        fuel >= 1,
        0 <= i < s.len(),
        s[i] == '}',
    ensures
        sp_obj_end(s, i, fuel) == Some(i + 1),
{
}

/// One canonical head member with what follows it: the member parses, its
/// value's characters are laid bare, and so is the remainder.
pub proof fn lemma_step_mem_head(
    s: Seq<char>,
    p: int,
    key: Seq<char>,
    val: Seq<char>,
    rest: Seq<char>,
    fuel: nat,
)
    requires
        fuel >= 1,
        0 <= p,
        p + enc_mem(key, val).len() + rest.len() <= s.len(),
        s.subrange(p, p + enc_mem(key, val).len() + rest.len()) == enc_mem(key, val) + rest,
    ensures
        sp_member(s, p, key, fuel) == Some(p + enc_string(key).len() + 1),
        enc_mem(key, val).len() == enc_string(key).len() + 1 + val.len(),
        s.subrange(p + enc_string(key).len() + 1, p + enc_mem(key, val).len()) == val,
        s.subrange(p + enc_mem(key, val).len(), p + enc_mem(key, val).len() + rest.len()) == rest,
        rest.len() >= 1 ==> s[p + enc_mem(key, val).len()] == rest[0],
{
    reveal(enc_mem);
    lemma_subrange_cat(s, p, enc_mem(key, val), rest);
    lemma_mem_head(s, p, key, val, fuel);
    if rest.len() >= 1 {
        let q = p + enc_mem(key, val).len();
        assert(s.subrange(q, q + rest.len())[0] == rest[0]);
    }
}

/// One canonical later member with what follows it.
pub proof fn lemma_step_memc(
    s: Seq<char>,
    p: int,
    key: Seq<char>,
    val: Seq<char>,
    rest: Seq<char>,
    fuel: nat,
)
    requires
        fuel >= 1,
        0 <= p,
        p + enc_memc(key, val).len() + rest.len() <= s.len(),
        s.subrange(p, p + enc_memc(key, val).len() + rest.len()) == enc_memc(key, val) + rest,
    ensures
        sp_mem_at(s, p, key, fuel) == Some(p + 2 + enc_string(key).len()),
        enc_memc(key, val).len() == 2 + enc_string(key).len() + val.len(),
        s[p] == ',',
        s.subrange(p + 2 + enc_string(key).len(), p + enc_memc(key, val).len()) == val,
        s.subrange(p + enc_memc(key, val).len(), p + enc_memc(key, val).len() + rest.len())
            == rest,
        rest.len() >= 1 ==> s[p + enc_memc(key, val).len()] == rest[0],
{
    reveal(enc_memc);
    reveal(enc_mem);
    lemma_subrange_cat(s, p, enc_memc(key, val), rest);
    lemma_mem_comma(s, p, key, val, fuel);
    if rest.len() >= 1 {
        let q = p + enc_memc(key, val).len();
        assert(s.subrange(q, q + rest.len())[0] == rest[0]);
    }
}


} // verus!
