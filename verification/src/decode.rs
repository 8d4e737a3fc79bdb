//! Decoding of the color reply payload: a slash-delimited triplet of
//! hexadecimal components, each one to four digits wide, each normalized to
//! the full 16-bit channel scale by a left shift.

use vstd::prelude::*;

use crate::parse::hex_digit;
use crate::parse::hex_digit_value;
use crate::parse::hex_value;
use crate::parse::is_hex_digit;
use crate::parse::lemma_hex_value_bound;
use crate::parse::lemma_split_on_first;
use crate::parse::lemma_split_on_more;
use crate::parse::lemma_split_on_none;
use crate::parse::find_char;
use crate::parse::pow16;
use crate::parse::split_on;
use crate::types::Error;

verus! {

/// A well-formed hex component: one to four hexadecimal digits.
pub open spec fn valid_hex_component(s: Seq<char>) -> bool {
    1 <= s.len() <= 4 && (forall|i: int| 0 <= i < s.len() ==> is_hex_digit(#[trigger] s[i]))
}

/// The 16-bit-normalized value of a component: a component of width `w` is
/// left-shifted by `(4 - w) * 4` bits, that is multiplied by `16^(4 - w)`.
pub open spec fn expanded_hex(s: Seq<char>) -> int {
    hex_value(s) * pow16((4 - s.len()) as nat)
}

/// The decode of a whole payload: exactly three slash-separated well-formed
/// components, or nothing.
pub open spec fn spec_decode_x11(s: Seq<char>) -> Option<(u16, u16, u16)> {
    let parts = split_on(s, '/');
    if parts.len() == 3 && valid_hex_component(parts[0]) && valid_hex_component(parts[1])
        && valid_hex_component(parts[2]) {
        Some(
            (
                expanded_hex(parts[0]) as u16,
                expanded_hex(parts[1]) as u16,
                expanded_hex(parts[2]) as u16,
            ),
        )
    } else {
        None
    }
}

proof fn lemma_pow16_small()
    ensures
        pow16(0) == 1,
        pow16(1) == 16,
        pow16(2) == 256,
        pow16(3) == 4096,
        pow16(4) == 65536,
{
    reveal_with_fuel(pow16, 5);
}

/// A well-formed component expands to a value on the 16-bit scale.
pub proof fn lemma_expanded_hex_bound(s: Seq<char>)
    requires
        valid_hex_component(s),
    ensures
        0 <= expanded_hex(s) < 65536,
{
    lemma_hex_value_bound(s);
    lemma_pow16_small();
    if s.len() == 1 {
        assert(hex_value(s) * pow16(3) <= 15 * 4096);
    } else if s.len() == 2 {
        assert(hex_value(s) * pow16(2) <= 255 * 256);
    } else if s.len() == 3 {
        assert(hex_value(s) * pow16(1) <= 4095 * 16);
    } else {
        assert(hex_value(s) * pow16(0) == hex_value(s));
    }
}

/// Normalization is exactly the left shift the wire format calls for: a
/// component of width `w` expands by a factor of `2^((4 - w) * 4)`, the
/// left shift by `(4 - w) * 4` bits.
pub proof fn lemma_expand_is_shift(s: Seq<char>)
    requires
        valid_hex_component(s),
    ensures
        expanded_hex(s) == hex_value(s) * vstd::arithmetic::power2::pow2(
            ((4 - s.len()) * 4) as nat,
        ),
{
    lemma_pow16_small();
    vstd::arithmetic::power2::lemma2_to64();
}

/// Decodes the hex component standing at `s[from..to]`. `Err(())` exactly
/// when that range is not one to four hexadecimal digits; otherwise the
/// component's value, left-shift-normalized to 16 bits.
pub fn decode_hex_component(s: &str, from: usize, to: usize) -> (r: Result<u16, ()>)
    requires
        from <= to <= s@.len(),
    ensures
        r is Ok <==> valid_hex_component(s@.subrange(from as int, to as int)),
        (r matches Ok(v) ==> v as int == expanded_hex(s@.subrange(from as int, to as int))),
{
    let ghost comp = s@.subrange(from as int, to as int);
    let width = to - from;
    if width == 0 || width > 4 {
        return Err(());
    }
    proof {
        lemma_pow16_small();
    }
    let mut acc: u16 = 0;
    let mut k: usize = from;
    while k < to
        invariant
            from <= k <= to <= s@.len(),
            1 <= to - from <= 4,
            forall|i: int| from <= i < k ==> is_hex_digit(#[trigger] s@[i]),
            acc as int == hex_value(s@.subrange(from as int, k as int)),
            acc < pow16((k - from) as nat),
            pow16(0) == 1 && pow16(1) == 16 && pow16(2) == 256 && pow16(3) == 4096 && pow16(4)
                == 65536,
        decreases to - k,
    {
        let c = s.get_char(k);
        let d = hex_digit(c);
        if d >= 16 {
            proof {
                assert(s@.subrange(from as int, to as int)[k - from] == s@[k as int]);
                assert(!valid_hex_component(s@.subrange(from as int, to as int)));
            }
            return Err(());
        }
        proof {
            let pre = s@.subrange(from as int, k as int);
            let ext = s@.subrange(from as int, (k + 1) as int);
            assert(ext.drop_last() =~= pre);
            assert(ext.last() == s@[k as int]);
            assert(hex_value(ext) == hex_value(pre) * 16 + hex_digit_value(s@[k as int]));
            assert(pow16((k + 1 - from) as nat) == 16 * pow16((k - from) as nat));
            assert((k - from) as nat <= 3);
        }
        acc = acc * 16 + (d as u16);
        k = k + 1;
    }
    proof {
        assert(comp =~= s@.subrange(from as int, k as int));
        assert forall|i: int| 0 <= i < comp.len() implies is_hex_digit(#[trigger] comp[i]) by {
            assert(comp[i] == s@[from + i]);
        }
        assert(valid_hex_component(comp));
    }
    let factor: u16 = if width == 1 {
        4096
    } else if width == 2 {
        16 * 16
    } else if width == 3 {
        16
    } else {
        1
    };
    proof {
        assert(factor as int == pow16((4 - comp.len()) as nat));
        if width == 1 {
            assert(acc * 4096 <= 15 * 4096);
        } else if width == 2 {
            assert(acc * 256 <= 255 * 256);
        } else if width == 3 {
            assert(acc * 16 <= 4095 * 16);
        }
    }
    Ok(acc * factor)
}

/// Decodes a color reply payload such as `"1111/2222/3333"` into its three
/// 16-bit channels. Exactly three slash-separated components are required,
/// each one to four hex digits; anything else is a parse failure carrying
/// the offending text, never a panic and never a partial triplet.
pub fn decode_x11_color(s: &str) -> (r: Result<(u16, u16, u16), Error>)
    ensures
        (r matches Ok(c) ==> spec_decode_x11(s@) == Some(c)),
        (spec_decode_x11(s@) matches Some(c) ==> r matches Ok(d) && d == c),
        (r matches Err(e) ==> spec_decode_x11(s@) is None && (e matches Error::Parse(t) && t@
            == s@)),
{
    let n: usize = s.unicode_len();
    let i = match find_char(s, '/', 0) {
        Some(i) => i,
        None => {
            proof {
                lemma_split_on_none(s@, '/');
            }
            return Err(Error::Parse(s.to_owned()));
        },
    };
    let j = match find_char(s, '/', i + 1) {
        Some(j) => j,
        None => {
            proof {
                lemma_split_on_first(s@, '/', i as int);
                assert forall|k: int| 0 <= k < s@.skip(i + 1).len() implies #[trigger] s@.skip(
                    i + 1,
                )[k] != '/' by {
                    assert(s@.skip(i + 1)[k] == s@[k + i + 1]);
                }
                lemma_split_on_none(s@.skip(i + 1), '/');
            }
            return Err(Error::Parse(s.to_owned()));
        },
    };
    proof {
        lemma_split_on_first(s@, '/', i as int);
        assert forall|k: int| 0 <= k < j - i - 1 implies #[trigger] s@.skip(i + 1)[k] != '/' by {
            assert(s@.skip(i + 1)[k] == s@[k + i + 1]);
        }
        assert(s@.skip(i + 1)[j - i - 1] == s@[j as int]);
        lemma_split_on_first(s@.skip(i + 1), '/', j - i - 1);
        assert(s@.skip(i + 1).skip(j - i) =~= s@.skip(j + 1));
    }
    if let Some(k) = find_char(s, '/', j + 1) {
        proof {
            assert(s@.skip(j + 1)[k - j - 1] == s@[k as int]);
            lemma_split_on_more(s@.skip(j + 1), '/', k - j - 1);
        }
        return Err(Error::Parse(s.to_owned()));
    }
    proof {
        assert forall|k: int| 0 <= k < s@.skip(j + 1).len() implies #[trigger] s@.skip(j + 1)[k]
            != '/' by {
            assert(s@.skip(j + 1)[k] == s@[k + j + 1]);
        }
        lemma_split_on_none(s@.skip(j + 1), '/');
        let parts = split_on(s@, '/');
        assert(parts =~= seq![s@.take(i as int), s@.skip(i + 1).take(j - i - 1), s@.skip(j + 1)]);
        assert(parts[0] =~= s@.subrange(0, i as int));
        assert(parts[1] =~= s@.subrange(i + 1, j as int));
        assert(parts[2] =~= s@.subrange(j + 1, s@.len() as int));
    }
    let r0 = decode_hex_component(s, 0, i);
    let g0 = decode_hex_component(s, i + 1, j);
    let b0 = decode_hex_component(s, j + 1, n);
    match (r0, g0, b0) {
        (Ok(rv), Ok(gv), Ok(bv)) => {
            proof {
                let parts = split_on(s@, '/');
                lemma_expanded_hex_bound(parts[0]);
                lemma_expanded_hex_bound(parts[1]);
                lemma_expanded_hex_bound(parts[2]);
            }
            Ok((rv, gv, bv))
        },
        _ => Err(Error::Parse(s.to_owned())),
    }
}

} // verus!
