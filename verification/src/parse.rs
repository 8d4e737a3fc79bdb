//! Character-level parsing: splitting on a separator, and the numeric value
//! of hexadecimal and decimal digit strings.

use vstd::prelude::*;

verus! {

/// Whether `c` is a decimal digit.
pub open spec fn is_dec_digit(c: char) -> bool {
    48 <= c as int && c as int <= 57
}

/// Whether `c` is a hexadecimal digit, upper or lower case.
pub open spec fn is_hex_digit(c: char) -> bool {
    is_dec_digit(c) || (97 <= c as int && c as int <= 102) || (65 <= c as int && c as int <= 70)
}

/// The value of a single hexadecimal digit.
pub open spec fn hex_digit_value(c: char) -> int {
    if is_dec_digit(c) {
        c as int - 48
    } else if 97 <= c as int && c as int <= 102 {
        c as int - 87
    } else {
        c as int - 55
    }
}

/// The numeric value of a string of hexadecimal digits, most significant
/// digit first.
pub open spec fn hex_value(s: Seq<char>) -> int
    decreases s.len(),
{
    if s.len() == 0 {
        0
    } else {
        hex_value(s.drop_last()) * 16 + hex_digit_value(s.last())
    }
}

/// The numeric value of a string of decimal digits, most significant digit
/// first.
pub open spec fn dec_value(s: Seq<char>) -> int
    decreases s.len(),
{
    if s.len() == 0 {
        0
    } else {
        dec_value(s.drop_last()) * 10 + (s.last() as int - 48)
    }
}

/// 16 to the power `n`.
pub open spec fn pow16(n: nat) -> nat
    decreases n,
{
    if n == 0 {
        1
    } else {
        16 * pow16((n - 1) as nat)
    }
}

/// A string of hexadecimal digits is worth less than 16 to its length.
pub proof fn lemma_hex_value_bound(s: Seq<char>)
    requires
        forall|i: int| 0 <= i < s.len() ==> is_hex_digit(#[trigger] s[i]),
    ensures
        0 <= hex_value(s) < pow16(s.len()),
    decreases s.len(),
{
    if s.len() > 0 {
        assert forall|i: int| 0 <= i < s.drop_last().len() implies is_hex_digit(
            #[trigger] s.drop_last()[i],
        ) by {
            assert(s.drop_last()[i] == s[i]);
        }
        lemma_hex_value_bound(s.drop_last());
        assert(is_hex_digit(s[s.len() - 1]));
        assert(0 <= hex_digit_value(s.last()) < 16);
    }
}

/// Splitting on `sep`: the separators themselves are dropped, and `n`
/// separators yield `n + 1` (possibly empty) parts.
pub open spec fn split_on(s: Seq<char>, sep: char) -> Seq<Seq<char>>
    decreases s.len(),
{
    if s.len() == 0 {
        seq![Seq::<char>::empty()]
    } else if s[0] == sep {
        seq![Seq::<char>::empty()] + split_on(s.skip(1), sep)
    } else {
        let rest = split_on(s.skip(1), sep);
        seq![seq![s[0]] + rest[0]] + rest.skip(1)
    }
}

/// A split always has at least one part.
pub proof fn lemma_split_on_len(s: Seq<char>, sep: char)
    ensures
        split_on(s, sep).len() >= 1,
    decreases s.len(),
{
    if s.len() > 0 && s[0] != sep {
        lemma_split_on_len(s.skip(1), sep);
    }
}

/// When `sep` does not occur, the split is the whole string alone.
pub proof fn lemma_split_on_none(s: Seq<char>, sep: char)
    requires
        forall|k: int| 0 <= k < s.len() ==> s[k] != sep,
    ensures
        split_on(s, sep) =~= seq![s],
    decreases s.len(),
{
    if s.len() == 0 {
        assert(split_on(s, sep) =~= seq![Seq::<char>::empty()]);
        assert(s =~= Seq::<char>::empty());
    } else {
        assert(s[0] != sep);
        assert forall|k: int| 0 <= k < s.skip(1).len() implies s.skip(1)[k] != sep by {
            assert(s.skip(1)[k] == s[k + 1]);
        }
        lemma_split_on_none(s.skip(1), sep);
        let rest = split_on(s.skip(1), sep);
        assert(rest =~= seq![s.skip(1)]);
        assert(seq![s[0]] + rest[0] =~= s);
        assert(rest.skip(1) =~= Seq::<Seq<char>>::empty());
        assert(split_on(s, sep) =~= seq![s]);
    }
}

/// When the first `sep` stands at `i`, the split is the part before `i`
/// followed by the split of what stands after it.
pub proof fn lemma_split_on_first(s: Seq<char>, sep: char, i: int)
    requires
        0 <= i < s.len(),
        s[i] == sep,
        forall|k: int| 0 <= k < i ==> s[k] != sep,
    ensures
        split_on(s, sep) =~= seq![s.take(i)] + split_on(s.skip(i + 1), sep),
    decreases i,
{
    if i == 0 {
        assert(s.take(0) =~= Seq::<char>::empty());
    } else {
        assert forall|k: int| 0 <= k < i - 1 implies s.skip(1)[k] != sep by {
            assert(s.skip(1)[k] == s[k + 1]);
        }
        assert(s.skip(1)[i - 1] == s[i]);
        lemma_split_on_first(s.skip(1), sep, i - 1);
        let rest = split_on(s.skip(1), sep);
        assert(rest =~= seq![s.skip(1).take(i - 1)] + split_on(s.skip(1).skip(i), sep));
        assert(s.skip(1).skip(i) =~= s.skip(i + 1));
        assert(seq![s[0]] + rest[0] =~= s.take(i));
        assert(rest.skip(1) =~= split_on(s.skip(i + 1), sep));
    }
}

/// When `sep` occurs, the split has at least two parts.
pub proof fn lemma_split_on_more(s: Seq<char>, sep: char, i: int)
    requires
        0 <= i < s.len(),
        s[i] == sep,
    ensures
        split_on(s, sep).len() >= 2,
    decreases i,
{
    if s[0] == sep {
        lemma_split_on_len(s.skip(1), sep);
    } else {
        assert(s.skip(1)[i - 1] == s[i]);
        lemma_split_on_more(s.skip(1), sep, i - 1);
    }
}

/// The value of a hexadecimal digit, or 16 when `c` is no such digit.
pub fn hex_digit(c: char) -> (v: u8)
    ensures
        (v < 16) == is_hex_digit(c),
        v < 16 ==> v as int == hex_digit_value(c),
{
    let u = c as u32;
    if 48 <= u && u <= 57 {
        (u - 48) as u8
    } else if 97 <= u && u <= 102 {
        (u - 87) as u8
    } else if 65 <= u && u <= 70 {
        (u - 55) as u8
    } else {
        16
    }
}

/// The first position of `sep` in `s` at or after `from`.
pub fn find_char(s: &str, sep: char, from: usize) -> (r: Option<usize>)
    requires
        from <= s@.len(),
    ensures
        (r matches Some(i) ==> from <= i < s@.len() && s@[i as int] == sep && (forall|k: int|
            from <= k < i ==> s@[k] != sep)),
        r is None ==> forall|k: int| from <= k < s@.len() ==> s@[k] != sep,
{
    let n: usize = s.unicode_len();
    let mut i: usize = from;
    while i < n
        invariant
            from <= i <= n,
            n == s@.len(),
            forall|k: int| from <= k < i ==> s@[k] != sep,
        decreases n - i,
    {
        if s.get_char(i) == sep {
            return Some(i);
        }
        i = i + 1;
    }
    None
}

} // verus!
