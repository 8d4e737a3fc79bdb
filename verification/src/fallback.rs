//! The non-interactive fallback: a foreground/background color-index
//! variable holds two small integers separated by `;`; the second indexes a
//! fixed 16-entry color table in the rxvt convention, whose 8-bit channels
//! are scaled to 16 bits by a factor of 256.

use vstd::prelude::*;

use crate::parse::dec_value;
use crate::parse::find_char;
use crate::parse::is_dec_digit;
use crate::parse::lemma_split_on_first;
use crate::parse::lemma_split_on_len;
use crate::parse::lemma_split_on_none;
use crate::parse::split_on;
use crate::types::Env;
use crate::types::Error;
use crate::types::Rgb;

verus! {

/// A well-formed color index: at least one decimal digit.
pub open spec fn valid_dec_component(s: Seq<char>) -> bool {
    s.len() >= 1 && (forall|i: int| 0 <= i < s.len() ==> is_dec_digit(#[trigger] s[i]))
}

/// The rxvt default color table, each channel already scaled to 16 bits.
/// The table has sixteen entries; an index outside 0..=15 is never
/// consulted (every use is guarded) and maps to black only to keep the
/// function total.
pub open spec fn spec_rxvt_color(idx: int) -> Rgb {
    if idx == 0 {
        Rgb { r: 0, g: 0, b: 0 }
    } else if idx == 1 {
        Rgb { r: 52480, g: 0, b: 0 }
    } else if idx == 2 {
        Rgb { r: 0, g: 52480, b: 0 }
    } else if idx == 3 {
        Rgb { r: 52480, g: 52480, b: 0 }
    } else if idx == 4 {
        Rgb { r: 0, g: 0, b: 60928 }
    } else if idx == 5 {
        Rgb { r: 52480, g: 0, b: 52480 }
    } else if idx == 6 {
        Rgb { r: 0, g: 52480, b: 52480 }
    } else if idx == 7 {
        Rgb { r: 58624, g: 58624, b: 58624 }
    } else if idx == 8 {
        Rgb { r: 32512, g: 32512, b: 32512 }
    } else if idx == 9 {
        Rgb { r: 65280, g: 0, b: 0 }
    } else if idx == 10 {
        Rgb { r: 0, g: 65280, b: 0 }
    } else if idx == 11 {
        Rgb { r: 65280, g: 65280, b: 0 }
    } else if idx == 12 {
        Rgb { r: 23552, g: 23552, b: 65280 }
    } else if idx == 13 {
        Rgb { r: 65280, g: 0, b: 65280 }
    } else if idx == 14 {
        Rgb { r: 0, g: 65280, b: 65280 }
    } else if idx == 15 {
        Rgb { r: 65280, g: 65280, b: 65280 }
    } else {
        Rgb { r: 0, g: 0, b: 0 }
    }
}

/// The text of the color-index variable, empty when it is not set.
pub open spec fn colorfgbg_text(env: Env) -> Seq<char> {
    match env.colorfgbg {
        Some(v) => v@,
        None => Seq::empty(),
    }
}

/// Whether the fallback applies: the variable is set, holds at least two
/// `;`-separated parts, and the second is a decimal index of at most 15.
pub open spec fn fallback_ok(env: Env) -> bool {
    env.colorfgbg matches Some(v) && {
        let parts = split_on(v@, ';');
        parts.len() >= 2 && valid_dec_component(parts[1]) && dec_value(parts[1]) <= 15
    }
}

/// The color the fallback yields when it applies.
pub open spec fn fallback_color(env: Env) -> Rgb {
    match env.colorfgbg {
        Some(v) => spec_rxvt_color(dec_value(split_on(v@, ';')[1])),
        None => Rgb { r: 0, g: 0, b: 0 },
    }
}

/// The table entry for a color index.
pub fn rxvt_color(idx: u8) -> (c: Rgb)
    requires
        idx <= 15,
    ensures
        c == spec_rxvt_color(idx as int),
{
    match idx {
        0 => Rgb { r: 0, g: 0, b: 0 },
        1 => Rgb { r: 52480, g: 0, b: 0 },
        2 => Rgb { r: 0, g: 52480, b: 0 },
        3 => Rgb { r: 52480, g: 52480, b: 0 },
        4 => Rgb { r: 0, g: 0, b: 60928 },
        5 => Rgb { r: 52480, g: 0, b: 52480 },
        6 => Rgb { r: 0, g: 52480, b: 52480 },
        7 => Rgb { r: 58624, g: 58624, b: 58624 },
        8 => Rgb { r: 32512, g: 32512, b: 32512 },
        9 => Rgb { r: 65280, g: 0, b: 0 },
        10 => Rgb { r: 0, g: 65280, b: 0 },
        11 => Rgb { r: 65280, g: 65280, b: 0 },
        12 => Rgb { r: 23552, g: 23552, b: 65280 },
        13 => Rgb { r: 65280, g: 0, b: 65280 },
        14 => Rgb { r: 0, g: 65280, b: 65280 },
        _ => Rgb { r: 65280, g: 65280, b: 65280 },
    }
}

/// Reads the background color from the color-index variable in the given
/// environment. An absent variable or a single part yields `Unsupported`; a
/// non-numeric or out-of-range index yields a parse failure, never a silent
/// default; otherwise the indexed table entry.
pub fn from_env_colorfgbg(env: &Env) -> (r: Result<Rgb, Error>)
    ensures
        r is Ok <==> fallback_ok(*env),
        (r matches Ok(c) ==> c == fallback_color(*env)),
        env.colorfgbg is None ==> (r matches Err(e) && e is Unsupported),
        env.colorfgbg is Some && split_on(colorfgbg_text(*env), ';').len() < 2 ==> (r matches Err(e)
            && e is Unsupported),
        env.colorfgbg is Some && split_on(colorfgbg_text(*env), ';').len() >= 2 && !fallback_ok(
            *env,
        ) ==> (r matches Err(e) && (e matches Error::Parse(t) && t@ == colorfgbg_text(*env))),
{
    let var = match &env.colorfgbg {
        Some(v) => v,
        None => {
            return Err(Error::Unsupported);
        },
    };
    let s = var.as_str();
    let n: usize = s.unicode_len();
    let i = match find_char(s, ';', 0) {
        Some(i) => i,
        None => {
            proof {
                lemma_split_on_none(s@, ';');
            }
            return Err(Error::Unsupported);
        },
    };
    let j = match find_char(s, ';', i + 1) {
        Some(j) => j,
        None => n,
    };
    proof {
        lemma_split_on_first(s@, ';', i as int);
        lemma_split_on_len(s@.skip(i + 1), ';');
        if j < n {
            assert forall|k: int| 0 <= k < j - i - 1 implies #[trigger] s@.skip(i + 1)[k]
                != ';' by {
                assert(s@.skip(i + 1)[k] == s@[k + i + 1]);
            }
            assert(s@.skip(i + 1)[j - i - 1] == s@[j as int]);
            lemma_split_on_first(s@.skip(i + 1), ';', j - i - 1);
        } else {
            assert forall|k: int| 0 <= k < s@.skip(i + 1).len() implies #[trigger] s@.skip(i + 1)[k]
                != ';' by {
                assert(s@.skip(i + 1)[k] == s@[k + i + 1]);
            }
            lemma_split_on_none(s@.skip(i + 1), ';');
        }
        assert(split_on(s@, ';')[1] =~= s@.subrange(i + 1, j as int));
    }
    if j == i + 1 {
        return Err(Error::Parse(s.to_owned()));
    }
    let mut acc: u32 = 0;
    let mut k: usize = i + 1;
    while k < j
        invariant
            i + 1 <= k <= j <= n,
            n == s@.len(),
            env.colorfgbg is Some,
            colorfgbg_text(*env) == s@,
            split_on(s@, ';').len() >= 2,
            split_on(s@, ';')[1] == s@.subrange(i + 1, j as int),
            forall|t: int| i + 1 <= t < k ==> is_dec_digit(#[trigger] s@[t]),
            dec_value(s@.subrange(i + 1, k as int)) <= 255 ==> acc == dec_value(
                s@.subrange(i + 1, k as int),
            ),
            dec_value(s@.subrange(i + 1, k as int)) > 255 ==> acc == 256,
            acc <= 256,
        decreases j - k,
    {
        let c = s.get_char(k);
        let u = c as u32;
        if u < 48 || u > 57 {
            proof {
                assert(s@.subrange(i + 1, j as int)[k - i - 1] == s@[k as int]);
                assert(!valid_dec_component(s@.subrange(i + 1, j as int)));
            }
            return Err(Error::Parse(s.to_owned()));
        }
        proof {
            let pre = s@.subrange(i + 1, k as int);
            let ext = s@.subrange(i + 1, (k + 1) as int);
            assert(ext.drop_last() =~= pre);
            assert(ext.last() == s@[k as int]);
            assert(dec_value(ext) == dec_value(pre) * 10 + (s@[k as int] as int - 48));
        }
        acc = acc * 10 + (u - 48);
        if acc > 255 {
            acc = 256;
        }
        k = k + 1;
    }
    proof {
        assert(s@.subrange(i + 1, j as int) =~= s@.subrange(i + 1, k as int));
        assert forall|t: int| 0 <= t < s@.subrange(i + 1, j as int).len() implies is_dec_digit(
            #[trigger] s@.subrange(i + 1, j as int)[t],
        ) by {
            assert(s@.subrange(i + 1, j as int)[t] == s@[i + 1 + t]);
        }
        assert(valid_dec_component(s@.subrange(i + 1, j as int)));
    }
    if acc > 15 {
        return Err(Error::Parse(s.to_owned()));
    }
    Ok(rxvt_color(acc as u8))
}

} // verus!
