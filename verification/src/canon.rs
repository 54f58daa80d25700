//! Canonical text form of a JSON value, and the content fingerprint over it.
//!
//! Change detection for parsed records hashes the *entire* input value, not
//! just the modeled fields. The hash must be reproducible across parses of the
//! same value, so it is taken over one fixed canonicalization: the compact JSON
//! text with fields kept in stored order, strings minimally escaped, and
//! numbers in plain decimal. Two values that differ only in stored key order
//! canonicalize differently and may therefore fingerprint differently.

use crate::json::{item_models, JsonModel, JsonValue};
use vstd::prelude::*;

verus! {

/// Offset basis of the 64-bit FNV-1a hash.
pub const FNV_OFFSET: u64 = 0xcbf29ce484222325;

/// Prime of the 64-bit FNV-1a hash.
pub const FNV_PRIME: u64 = 0x100000001b3;

/// One FNV-1a step: fold one character's code point into the running hash.
pub open spec fn fnv_step(h: u64, c: char) -> u64 {
    (h ^ (c as u64)).wrapping_mul(FNV_PRIME)
}

/// The running hash after folding in the characters of `s` from position `i`
/// on, starting from `h`.
pub open spec fn fnv_from(s: Seq<char>, i: int, h: u64) -> u64
    decreases s.len() - i,
{
    if i < 0 || i >= s.len() {
        h
    } else {
        fnv_from(s, i + 1, fnv_step(h, s[i]))
    }
}

/// The 64-bit FNV-1a fingerprint of a character sequence.
pub open spec fn fingerprint_of(s: Seq<char>) -> u64 {
    fnv_from(s, 0, FNV_OFFSET)
}

/// The decimal digit `d` as a character, for `0 <= d < 10`.
pub open spec fn dec_digit(d: int) -> char {
    (48 + d) as char
}

/// The lowercase hexadecimal digit `d` as a character, for `0 <= d < 16`.
pub open spec fn hex_digit(d: int) -> char {
    if d < 10 {
        (48 + d) as char
    } else {
        (87 + d) as char
    }
}

/// The decimal text of an unsigned number, without sign or padding.
pub open spec fn dec_text(n: nat) -> Seq<char>
    decreases n,
{
    if n < 10 {
        seq![dec_digit(n as int)]
    } else {
        dec_text(n / 10) + seq![dec_digit((n % 10) as int)]
    }
}

/// The decimal text of a signed number: a minus sign before the magnitude.
pub open spec fn int_text(n: i64) -> Seq<char> {
    if n < 0 {
        seq!['-'] + dec_text((-(n as int)) as nat)
    } else {
        dec_text(n as nat)
    }
}

/// The escape of one character inside a JSON string: quote, backslash and the
/// common control characters get two-character escapes, other control
/// characters a `\u00..` escape, everything else stands as itself.
pub open spec fn esc_char(c: char) -> Seq<char> {
    if c == '"' {
        seq!['\\', '"']
    } else if c == '\\' {
        seq!['\\', '\\']
    } else if c == '\n' {
        seq!['\\', 'n']
    } else if c == '\r' {
        seq!['\\', 'r']
    } else if c == '\t' {
        seq!['\\', 't']
    } else if (c as int) < 32 {
        seq!['\\', 'u', '0', '0', hex_digit(c as int / 16), hex_digit(c as int % 16)]
    } else {
        seq![c]
    }
}

/// The escapes of the characters of `s` from position `i` on, concatenated.
pub open spec fn esc_from(s: Seq<char>, i: int) -> Seq<char>
    decreases s.len() - i,
{
    if i < 0 || i >= s.len() {
        Seq::empty()
    } else {
        esc_char(s[i]) + esc_from(s, i + 1)
    }
}

/// The canonical text of a JSON string: escaped characters between quotes.
pub open spec fn str_text(s: Seq<char>) -> Seq<char> {
    seq!['"'] + esc_from(s, 0) + seq!['"']
}

/// The canonical text of a JSON value.
pub open spec fn canonical_text(m: JsonModel) -> Seq<char>
    decreases m, 2int, 0int,
{
    match m {
        JsonModel::Null => seq!['n', 'u', 'l', 'l'],
        JsonModel::Bool(b) => if b {
            seq!['t', 'r', 'u', 'e']
        } else {
            seq!['f', 'a', 'l', 's', 'e']
        },
        JsonModel::Int(n) => int_text(n),
        JsonModel::UInt(n) => dec_text(n as nat),
        JsonModel::Str(s) => str_text(s),
        JsonModel::Array(items) => seq!['['] + items_text(items, 0) + seq![']'],
        JsonModel::Object(fields) => seq!['{'] + fields_text(fields, 0) + seq!['}'],
    }
}

/// The canonical texts of the array elements from position `i` on, separated
/// by commas.
pub open spec fn items_text(items: Seq<JsonModel>, i: int) -> Seq<char>
    decreases items, 1int, items.len() - i,
{
    if i < 0 || i >= items.len() {
        Seq::empty()
    } else if i == items.len() - 1 {
        canonical_text(items[i])
    } else {
        canonical_text(items[i]) + seq![','] + items_text(items, i + 1)
    }
}

/// The canonical texts of the object fields from position `i` on: quoted key,
/// colon, value, separated by commas.
pub open spec fn fields_text(fields: Seq<(Seq<char>, JsonModel)>, i: int) -> Seq<char>
    decreases fields, 1int, fields.len() - i,
{
    if i < 0 || i >= fields.len() {
        Seq::empty()
    } else {
        let entry = str_text(fields[i].0) + seq![':'] + canonical_text(fields[i].1);
        if i == fields.len() - 1 {
            entry
        } else {
            entry + seq![','] + fields_text(fields, i + 1)
        }
    }
}

/// The 64-bit content fingerprint of a value: FNV-1a over its canonical text.
pub open spec fn spec_fingerprint(m: JsonModel) -> u64 {
    fingerprint_of(canonical_text(m))
}

/// Appends the decimal text of `n` to `out`.
fn push_dec_u64(n: u64, out: &mut Vec<char>)
    ensures
        final(out)@ == old(out)@ + dec_text(n as nat),
{
    let ghost base = out@;
    let mut digits: Vec<char> = Vec::new();
    let mut cur: u64 = n;
    while cur >= 10
        invariant
            dec_text(n as nat) == dec_text(cur as nat) + digits@.reverse(),
        decreases cur,
    {
        let d: u8 = (cur % 10) as u8;
        let ghost dpre = digits@;
        digits.push((48 + d) as char);
        proof {
            assert(digits@.reverse() =~= seq![dec_digit((cur % 10) as int)] + dpre.reverse());
            assert(dec_text(cur as nat) == dec_text((cur / 10) as nat) + seq![
                dec_digit((cur % 10) as int),
            ]);
            assert(dec_text((cur / 10) as nat) + digits@.reverse() =~= dec_text(cur as nat)
                + dpre.reverse());
        }
        cur = cur / 10;
    }
    out.push((48 + cur as u8) as char);
    proof {
        assert(dec_text(cur as nat) == seq![dec_digit(cur as int)]);
        assert(out@ =~= base + seq![dec_digit(cur as int)] + digits@.reverse().subrange(0, 0));
    }
    let mut k: usize = 0;
    while k < digits.len()
        invariant
            0 <= k <= digits.len(),
            cur < 10,
            dec_text(n as nat) == dec_text(cur as nat) + digits@.reverse(),
            out@ == base + seq![dec_digit(cur as int)] + digits@.reverse().subrange(0, k as int),
        decreases digits.len() - k,
    {
        let ghost opre = out@;
        out.push(digits[digits.len() - 1 - k]);
        proof {
            assert(digits@.reverse()[k as int] == digits@[digits@.len() - 1 - k as int]);
            assert(digits@.reverse().subrange(0, k as int + 1) =~= digits@.reverse().subrange(
                0,
                k as int,
            ) + seq![digits@.reverse()[k as int]]);
            assert(out@ =~= base + seq![dec_digit(cur as int)] + digits@.reverse().subrange(
                0,
                k as int + 1,
            ));
        }
        k = k + 1;
    }
    proof {
        assert(digits@.reverse().subrange(0, digits@.len() as int) =~= digits@.reverse());
        assert(out@ =~= base + dec_text(n as nat));
    }
}

/// Appends the decimal text of `n`, with a leading minus sign when negative,
/// to `out`.
fn push_dec_i64(n: i64, out: &mut Vec<char>)
    ensures
        final(out)@ == old(out)@ + int_text(n),
{
    let ghost base = out@;
    if n < 0 {
        out.push('-');
        let magnitude: u64 = (-(n as i128)) as u64;
        push_dec_u64(magnitude, out);
        proof {
            assert(out@ =~= base + int_text(n));
        }
    } else {
        push_dec_u64(n as u64, out);
    }
}

/// Appends one lowercase hexadecimal digit to `out`, for `d < 16`.
fn push_hex_digit(d: u32, out: &mut Vec<char>)
    requires
        d < 16,
    ensures
        final(out)@ == old(out)@ + seq![hex_digit(d as int)],
{
    if d < 10 {
        out.push((48 + d as u8) as char);
    } else {
        out.push((87 + d as u8) as char);
    }
}

/// Appends the canonical text of a JSON string — escaped characters between
/// quotes — to `out`.
fn push_str_text(s: &str, out: &mut Vec<char>)
    ensures
        final(out)@ == old(out)@ + str_text(s@),
{
    let ghost base = out@;
    out.push('"');
    let len = s.unicode_len();
    let mut i: usize = 0;
    while i < len
        invariant
            0 <= i <= len,
            len == s@.len(),
            out@ + esc_from(s@, i as int) == base + seq!['"'] + esc_from(s@, 0),
        decreases len - i,
    {
        let c = s.get_char(i);
        let ghost opre = out@;
        if c == '"' {
            out.push('\\');
            out.push('"');
        } else if c == '\\' {
            out.push('\\');
            out.push('\\');
        } else if c == '\n' {
            out.push('\\');
            out.push('n');
        } else if c == '\r' {
            out.push('\\');
            out.push('r');
        } else if c == '\t' {
            out.push('\\');
            out.push('t');
        } else if (c as u32) < 32 {
            out.push('\\');
            out.push('u');
            out.push('0');
            out.push('0');
            push_hex_digit((c as u32) / 16, out);
            push_hex_digit((c as u32) % 16, out);
        } else {
            out.push(c);
        }
        proof {
            assert(out@ =~= opre + esc_char(s@[i as int]));
            assert(esc_from(s@, i as int) == esc_char(s@[i as int]) + esc_from(s@, i as int + 1));
            assert(out@ + esc_from(s@, i as int + 1) =~= opre + esc_from(s@, i as int));
        }
        i = i + 1;
    }
    out.push('"');
    proof {
        assert(out@ =~= base + str_text(s@));
    }
}

/// Appends the canonical text of `v` to `out`.
#[verifier::loop_isolation(false)]
fn push_canonical(v: &JsonValue, out: &mut Vec<char>)
    ensures
        final(out)@ == old(out)@ + canonical_text(v@),
    decreases v,
{
    let ghost base = out@;
    match v {
        JsonValue::Null => {
            out.push('n');
            out.push('u');
            out.push('l');
            out.push('l');
            proof {
                assert(out@ =~= base + canonical_text(v@));
            }
        },
        JsonValue::Bool(b) => {
            if *b {
                out.push('t');
                out.push('r');
                out.push('u');
                out.push('e');
            } else {
                out.push('f');
                out.push('a');
                out.push('l');
                out.push('s');
                out.push('e');
            }
            proof {
                assert(out@ =~= base + canonical_text(v@));
            }
        },
        JsonValue::Int(n) => {
            push_dec_i64(*n, out);
        },
        JsonValue::UInt(n) => {
            push_dec_u64(*n, out);
        },
        JsonValue::Str(s) => {
            push_str_text(s.as_str(), out);
        },
        JsonValue::Array(items) => {
            let ghost models = item_models(items@, 0);
            proof {
                crate::json::lemma_item_models(items@, 0);
            }
            out.push('[');
            let mut i: usize = 0;
            while i < items.len()
                invariant
                    0 <= i <= items.len(),
                    models == item_models(items@, 0),
                    models.len() == items@.len(),
                    forall|j: int| 0 <= j < items@.len() ==> models[j] == items@[j]@,
                    v@ == JsonModel::Array(models),
                    out@ + items_text(models, i as int) == base + seq!['['] + items_text(models, 0),
                decreases items.len() - i,
            {
                let ghost opre = out@;
                push_canonical(&items[i], out);
                if i + 1 < items.len() {
                    out.push(',');
                    proof {
                        assert(items_text(models, i as int) == canonical_text(models[i as int])
                            + seq![','] + items_text(models, i as int + 1));
                        assert(out@ + items_text(models, i as int + 1) =~= opre + items_text(
                            models,
                            i as int,
                        ));
                    }
                } else {
                    proof {
                        assert(items_text(models, i as int) == canonical_text(models[i as int]));
                        assert(out@ + items_text(models, i as int + 1) =~= opre + items_text(
                            models,
                            i as int,
                        ));
                    }
                }
                i = i + 1;
            }
            out.push(']');
            proof {
                assert(out@ =~= base + canonical_text(v@));
            }
        },
        JsonValue::Object(fields) => {
            let ghost models = crate::json::field_models(fields@, 0);
            proof {
                crate::json::lemma_field_models(fields@, 0);
            }
            out.push('{');
            let mut i: usize = 0;
            while i < fields.len()
                invariant
                    0 <= i <= fields.len(),
                    models == crate::json::field_models(fields@, 0),
                    models.len() == fields@.len(),
                    forall|j: int|
                        0 <= j < fields@.len() ==> models[j] == (fields@[j].0@, fields@[j].1@),
                    v@ == JsonModel::Object(models),
                    out@ + fields_text(models, i as int) == base + seq!['{'] + fields_text(
                        models,
                        0,
                    ),
                decreases fields.len() - i,
            {
                let ghost opre = out@;
                push_str_text(fields[i].0.as_str(), out);
                out.push(':');
                push_canonical(&fields[i].1, out);
                let ghost entry = str_text(models[i as int].0) + seq![':'] + canonical_text(
                    models[i as int].1,
                );
                if i + 1 < fields.len() {
                    out.push(',');
                    proof {
                        assert(fields_text(models, i as int) == entry + seq![','] + fields_text(
                            models,
                            i as int + 1,
                        ));
                        assert(out@ + fields_text(models, i as int + 1) =~= opre + fields_text(
                            models,
                            i as int,
                        ));
                    }
                } else {
                    proof {
                        assert(fields_text(models, i as int) == entry);
                        assert(out@ + fields_text(models, i as int + 1) =~= opre + fields_text(
                            models,
                            i as int,
                        ));
                    }
                }
                i = i + 1;
            }
            out.push('}');
            proof {
                assert(out@ =~= base + canonical_text(v@));
            }
        },
    }
}

/// The canonical text of `v`, as a character vector.
pub fn canonical_chars(v: &JsonValue) -> (out: Vec<char>)
    ensures
        out@ == canonical_text(v@),
{
    let mut out: Vec<char> = Vec::new();
    push_canonical(v, &mut out);
    proof {
        assert(out@ =~= canonical_text(v@));
    }
    out
}

/// The content fingerprint of `v`: FNV-1a over its canonical text.
pub fn fingerprint(v: &JsonValue) -> (r: u64)
    ensures
        r == spec_fingerprint(v@),
{
    let chars = canonical_chars(v);
    fingerprint_chars(&chars)
}

/// Folds the characters of `s` into a running FNV-1a hash.
pub fn fingerprint_chars(s: &Vec<char>) -> (r: u64)
    ensures
        r == fingerprint_of(s@),
{
    let mut h: u64 = FNV_OFFSET;
    let mut i: usize = 0;
    while i < s.len()
        invariant
            0 <= i <= s.len(),
            fnv_from(s@, i as int, h) == fingerprint_of(s@),
        decreases s.len() - i,
    {
        h = (h ^ (s[i] as u64)).wrapping_mul(FNV_PRIME);
        i = i + 1;
    }
    h
}

} // verus!
