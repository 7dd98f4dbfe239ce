//! Base-16 text: the model that session keys and attestations are stated in.

use vstd::prelude::*;

verus! {

/// The sixteen lowercase digits, each at the index of its value.
pub open spec fn lower_digits() -> Seq<char> {
    seq!['0', '1', '2', '3', '4', '5', '6', '7', '8', '9', 'a', 'b', 'c', 'd', 'e', 'f']
}

/// The sixteen uppercase digits, each at the index of its value.
pub open spec fn upper_digits() -> Seq<char> {
    seq!['0', '1', '2', '3', '4', '5', '6', '7', '8', '9', 'A', 'B', 'C', 'D', 'E', 'F']
}

/// The value of the digit at position `i` of the text of `bytes`: the high
/// half of byte `i / 2` at even positions, its low half at odd ones.
pub open spec fn nibble_at(bytes: Seq<u8>, i: int) -> int {
    if i % 2 == 0 {
        bytes[i / 2] as int / 16
    } else {
        bytes[i / 2] as int % 16
    }
}

/// The base-16 text of `bytes` over the alphabet `digits`: two digits per
/// byte, in the order of the bytes.
pub open spec fn base16(bytes: Seq<u8>, digits: Seq<char>) -> Seq<char> {
    Seq::new(2 * bytes.len(), |i: int| digits[nibble_at(bytes, i)])
}

/// Lowercase base-16 text of `bytes`.
pub open spec fn lower_hex(bytes: Seq<u8>) -> Seq<char> {
    base16(bytes, lower_digits())
}

/// Uppercase base-16 text of `bytes`.
pub open spec fn upper_hex(bytes: Seq<u8>) -> Seq<char> {
    base16(bytes, upper_digits())
}

/// Whether no digit occurs twice in `digits`.
pub open spec fn distinct_digits(digits: Seq<char>) -> bool {
    forall|i: int, j: int| 0 <= i < j < digits.len() ==> digits[i] != digits[j]
}

/// Both alphabets have sixteen digits, all different.
pub proof fn lemma_alphabets()
    ensures
        lower_digits().len() == 16,
        upper_digits().len() == 16,
        distinct_digits(lower_digits()),
        distinct_digits(upper_digits()),
{
}

/// Over an alphabet of sixteen different digits, two byte strings with the
/// same text are the same byte string.
pub proof fn lemma_base16_injective(a: Seq<u8>, b: Seq<u8>, digits: Seq<char>)
    requires
        digits.len() == 16,
        distinct_digits(digits),
        base16(a, digits) == base16(b, digits),
    ensures
        a == b,
{
    let ta = base16(a, digits);
    let tb = base16(b, digits);
    assert(ta.len() == 2 * a.len());
    assert(tb.len() == 2 * b.len());
    assert(a.len() == b.len());
    assert forall|k: int| 0 <= k < a.len() implies a[k] == b[k] by {
        let hi = 2 * k;
        let lo = 2 * k + 1;
        assert(ta[hi] == tb[hi]);
        assert(ta[lo] == tb[lo]);
        assert(hi / 2 == k && hi % 2 == 0);
        assert(lo / 2 == k && lo % 2 == 1);
        let ah = a[k] as int / 16;
        let bh = b[k] as int / 16;
        let al = a[k] as int % 16;
        let bl = b[k] as int % 16;
        assert(nibble_at(a, hi) == ah && nibble_at(b, hi) == bh);
        assert(nibble_at(a, lo) == al && nibble_at(b, lo) == bl);
        assert(digits[ah] == digits[bh]);
        assert(digits[al] == digits[bl]);
        if ah != bh {
            if ah < bh {
                assert(digits[ah] != digits[bh]);
            } else {
                assert(digits[bh] != digits[ah]);
            }
        }
        if al != bl {
            if al < bl {
                assert(digits[al] != digits[bl]);
            } else {
                assert(digits[bl] != digits[al]);
            }
        }
        assert(a[k] as int == 16 * ah + al);
        assert(b[k] as int == 16 * bh + bl);
    }
    assert(a =~= b);
}

/// Two byte strings with the same lowercase text are equal.
pub proof fn lemma_lower_hex_injective(a: Seq<u8>, b: Seq<u8>)
    requires
        lower_hex(a) == lower_hex(b),
    ensures
        a == b,
{
    lemma_alphabets();
    lemma_base16_injective(a, b, lower_digits());
}

/// Every character of a text is a digit of its alphabet, and the text is
/// twice as long as the bytes.
pub proof fn lemma_base16_shape(bytes: Seq<u8>, digits: Seq<char>)
    requires
        digits.len() == 16,
    ensures
        base16(bytes, digits).len() == 2 * bytes.len(),
        forall|i: int|
            0 <= i < base16(bytes, digits).len() ==> digits.contains(
                #[trigger] base16(bytes, digits)[i],
            ),
{
    assert forall|i: int| 0 <= i < base16(bytes, digits).len() implies digits.contains(
        #[trigger] base16(bytes, digits)[i],
    ) by {
        let n = nibble_at(bytes, i);
        assert(0 <= i / 2 < bytes.len());
        assert(0 <= n < 16);
        assert(digits[n] == base16(bytes, digits)[i]);
    }
}

/// The value of a base-16 digit of either case, or `None` for any other
/// character.
pub open spec fn digit_value(c: char) -> Option<int> {
    if '0' <= c <= '9' {
        Some(c as int - '0' as int)
    } else if 'a' <= c <= 'f' {
        Some(c as int - 'a' as int + 10)
    } else if 'A' <= c <= 'F' {
        Some(c as int - 'A' as int + 10)
    } else {
        None
    }
}

/// Whether `text` is made of base-16 digits, an even number of them.
pub open spec fn is_base16(text: Seq<char>) -> bool {
    text.len() % 2 == 0 && forall|i: int| 0 <= i < text.len() ==> digit_value(text[i]) is Some
}

/// The bytes that `text` stands for, where it is base-16 text: each pair of
/// digits gives one byte, the first digit its high half.
pub open spec fn base16_decoded(text: Seq<char>) -> Option<Seq<u8>> {
    if is_base16(text) {
        Some(
            Seq::new(
                text.len() / 2,
                |i: int|
                    (16 * digit_value(text[2 * i])->Some_0 + digit_value(
                        text[2 * i + 1],
                    )->Some_0) as u8,
            ),
        )
    } else {
        None
    }
}

/// A digit of either alphabet has the value of its index.
pub proof fn lemma_digit_values(n: int)
    requires
        0 <= n < 16,
    ensures
        digit_value(lower_digits()[n]) == Some(n),
        digit_value(upper_digits()[n]) == Some(n),
{
}

/// Reading the text of a byte string gives the byte string back, in either
/// case.
pub proof fn lemma_decode_encode(bytes: Seq<u8>, upper: bool)
    ensures
        base16_decoded(
            if upper {
                upper_hex(bytes)
            } else {
                lower_hex(bytes)
            },
        ) == Some(bytes),
{
    let digits = if upper {
        upper_digits()
    } else {
        lower_digits()
    };
    let text = base16(bytes, digits);
    assert forall|i: int| 0 <= i < text.len() implies digit_value(text[i]) == Some(
        nibble_at(bytes, i),
    ) by {
        assert(0 <= i / 2 < bytes.len());
        lemma_digit_values(nibble_at(bytes, i));
    }
    assert(is_base16(text));
    let read = base16_decoded(text)->Some_0;
    assert(read.len() == bytes.len());
    assert forall|k: int| 0 <= k < bytes.len() implies read[k] == bytes[k] by {
        assert((2 * k) / 2 == k && (2 * k) % 2 == 0);
        assert((2 * k + 1) / 2 == k && (2 * k + 1) % 2 == 1);
        assert(digit_value(text[2 * k]) == Some(nibble_at(bytes, 2 * k)));
        assert(digit_value(text[2 * k + 1]) == Some(nibble_at(bytes, 2 * k + 1)));
        assert(16 * (bytes[k] as int / 16) + bytes[k] as int % 16 == bytes[k] as int);
    }
    assert(read =~= bytes);
}

} // verus!
