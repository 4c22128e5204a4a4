//! What the character classes, comparisons and notations of texts come to.
use crate::text::{
    all_digits, all_graphic, all_tokens, ascii_lower, decimal_text, first_position,
    has_control, hex_text, lemma_first_position, optional_text, same_ignoring_ascii_case,
    text_before, texts,
};
use vstd::prelude::*;

verus! {

/// A text holds a control character where one of its code points is below 32 or from 127 to 159.
pub proof fn control_characters_are_the_c0_and_c1_codes(s: Seq<char>)
    ensures
        has_control(s) <==> exists|i: int|
            0 <= i < s.len() && ((#[trigger] s[i]) as int <= 31 || 127 <= s[i] as int <= 159),
{
    if has_control(s) {
        let i = choose|i: int| 0 <= i < s.len() && crate::text::is_control_char(#[trigger] s[i]);
        assert(s[i] as int <= 31 || 127 <= s[i] as int <= 159);
    }
    if exists|i: int|
        0 <= i < s.len() && ((#[trigger] s[i]) as int <= 31 || 127 <= s[i] as int <= 159) {
        let i = choose|i: int|
            0 <= i < s.len() && ((#[trigger] s[i]) as int <= 31 || 127 <= s[i] as int <= 159);
        assert(crate::text::is_control_char(s[i]));
    }
}

/// Tokens are made of ASCII letters, digits, `-` and `_`; graphic texts of the code points from 33
/// to 126; digits are those of the decimal system.
pub proof fn character_classes_are_ranges_of_code_points(s: Seq<char>)
    ensures
        all_tokens(s) <==> forall|i: int|
            0 <= i < s.len() ==> {
                let code = (#[trigger] s[i]) as int;
                48 <= code <= 57 || 65 <= code <= 90 || 97 <= code <= 122 || code == 45 || code
                    == 95
            },
        all_graphic(s) <==> forall|i: int|
            0 <= i < s.len() ==> 33 <= (#[trigger] s[i]) as int <= 126,
        all_digits(s) <==> forall|i: int|
            0 <= i < s.len() ==> 48 <= (#[trigger] s[i]) as int <= 57,
{
    let token = |c: char|
        {
            let code = c as int;
            48 <= code <= 57 || 65 <= code <= 90 || 97 <= code <= 122 || code == 45 || code == 95
        };
    assert forall|c: char| #[trigger] crate::text::is_token_char(c) == token(c) by {}
    assert forall|c: char|
        #[trigger] crate::text::is_graphic_char(c) == (33 <= c as int <= 126) by {}
    assert forall|c: char| #[trigger] crate::text::is_digit_char(c) == (48 <= c as int <= 57) by {}
}

/// Two texts are the same regardless of ASCII case exactly where they have the same length and,
/// character by character, are equal or the two cases of one ASCII letter.
pub proof fn ascii_case_is_all_that_may_differ(a: Seq<char>, b: Seq<char>)
    ensures
        same_ignoring_ascii_case(a, b) <==> a.len() == b.len() && forall|i: int|
            0 <= i < a.len() ==> {
                let x = (#[trigger] a[i]) as int;
                let y = b[i] as int;
                x == y || (65 <= x <= 90 && y == x + 32) || (65 <= y <= 90 && x == y + 32)
            },
{
    assert forall|c: char, d: char| (#[trigger] ascii_lower(c) == #[trigger] ascii_lower(d)) == {
        let x = c as int;
        let y = d as int;
        x == y || (65 <= x <= 90 && y == x + 32) || (65 <= y <= 90 && x == y + 32)
    } by {}
    if same_ignoring_ascii_case(a, b) {
        assert forall|i: int| 0 <= i < a.len() implies ({
            let x = (#[trigger] a[i]) as int;
            let y = b[i] as int;
            x == y || (65 <= x <= 90 && y == x + 32) || (65 <= y <= 90 && x == y + 32)
        }) by {
            assert(ascii_lower(a[i]) == ascii_lower(b[i]));
        }
    }
    if a.len() == b.len() && forall|i: int|
        0 <= i < a.len() ==> {
            let x = (#[trigger] a[i]) as int;
            let y = b[i] as int;
            x == y || (65 <= x <= 90 && y == x + 32) || (65 <= y <= 90 && x == y + 32)
        } {
        assert forall|i: int| 0 <= i < a.len() implies ascii_lower(#[trigger] a[i]) == ascii_lower(
            b[i],
        ) by {}
    }
}

/// One text comes before another where it is a proper start of it, or where it has the smaller
/// character at the first place at which they differ.
pub proof fn texts_are_ordered_as_in_a_dictionary(a: Seq<char>, b: Seq<char>)
    ensures
        text_before(a, b) <==> exists|k: int|
            0 <= k <= a.len() && k < b.len() && #[trigger] a.take(k) == b.take(k) && (k == a.len()
                || a[k] < b[k]),
    decreases a.len(),
{
    if a.len() > 0 && b.len() > 0 && a[0] == b[0] {
        let a1 = a.drop_first();
        let b1 = b.drop_first();
        texts_are_ordered_as_in_a_dictionary(a1, b1);
        if text_before(a1, b1) {
            let k = choose|k: int|
                0 <= k <= a1.len() && k < b1.len() && #[trigger] a1.take(k) == b1.take(k) && (k
                    == a1.len() || a1[k] < b1[k]);
            assert(a.take(k + 1) =~= seq![a[0]] + a1.take(k));
            assert(b.take(k + 1) =~= seq![b[0]] + b1.take(k));
            assert(a.take(k + 1) == b.take(k + 1));
        }
        if exists|k: int|
            0 <= k <= a.len() && k < b.len() && #[trigger] a.take(k) == b.take(k) && (k == a.len()
                || a[k] < b[k]) {
            let k = choose|k: int|
                0 <= k <= a.len() && k < b.len() && #[trigger] a.take(k) == b.take(k) && (k
                    == a.len() || a[k] < b[k]);
            assert(k > 0);
            assert(a1.take(k - 1) =~= a.take(k).drop_first());
            assert(b1.take(k - 1) =~= b.take(k).drop_first());
        }
    } else if a.len() == 0 && b.len() > 0 {
        assert(a.take(0) =~= b.take(0));
    } else if a.len() > 0 && b.len() > 0 {
        assert(a.take(0) =~= b.take(0));
        assert forall|k: int|
            0 < k <= a.len() && k < b.len() implies #[trigger] a.take(k) != b.take(k) by {
            assert(a.take(k)[0] == a[0]);
            assert(b.take(k)[0] == b[0]);
        }
    }
}

/// The first position of a character has it, unless the text does not, and no earlier one does.
pub proof fn first_positions_are_first(s: Seq<char>, c: char, i: int)
    requires
        0 <= i <= s.len(),
        forall|j: int| 0 <= j < i ==> #[trigger] s[j] != c,
        i < s.len() ==> s[i] == c,
    ensures
        first_position(s, c) == i,
{
    lemma_first_position(s, c, i);
}

/// Bytes are written in hexadecimal with two digits each, the higher one first, in lower case.
pub proof fn bytes_are_written_in_lower_case_hex(bytes: Seq<u8>)
    ensures
        hex_text(bytes).len() == 2 * bytes.len(),
        forall|i: int|
            0 <= i < bytes.len() ==> {
                let high = #[trigger] bytes[i] / 16;
                let low = bytes[i] % 16;
                &&& hex_text(bytes)[2 * i] == "0123456789abcdef"@[high as int]
                &&& hex_text(bytes)[2 * i + 1] == "0123456789abcdef"@[low as int]
            },
{
    reveal_strlit("0123456789abcdef");
}

/// The number whose decimal digits, the most significant first, are the characters.
pub open spec fn decimal_value(digits: Seq<char>) -> int
    decreases digits.len(),
{
    if digits.len() == 0 {
        0
    } else {
        10 * decimal_value(digits.drop_last()) + (digits.last() as int - 48)
    }
}

/// A number is written with decimal digits that read back to it, without leading zeros.
pub proof fn numbers_are_written_in_decimal(n: nat)
    ensures
        decimal_text(n).len() > 0,
        forall|i: int|
            0 <= i < decimal_text(n).len() ==> '0' <= #[trigger] decimal_text(n)[i] <= '9',
        decimal_value(decimal_text(n)) == n,
        n > 0 ==> decimal_text(n)[0] != '0',
    decreases n,
{
    if n < 10 {
        assert(decimal_text(n).drop_last() =~= Seq::empty());
        assert(decimal_value(Seq::empty()) == 0);
        assert(decimal_text(n).last() as int == 48 + n);
    } else {
        numbers_are_written_in_decimal(n / 10);
        assert(decimal_text(n).drop_last() =~= decimal_text(n / 10));
        assert(decimal_text(n).last() as int == 48 + n % 10);
        assert(decimal_text(n)[0] == decimal_text(n / 10)[0]);
        assert forall|i: int| 0 <= i < decimal_text(n).len() implies '0'
            <= #[trigger] decimal_text(n)[i] <= '9' by {
            if i < decimal_text(n).len() - 1 {
                assert(decimal_text(n)[i] == decimal_text(n / 10)[i]);
            }
        }
    }
}

/// Lists of texts are seen text by text.
pub proof fn texts_are_seen_as_they_are(values: Seq<String>, value: Option<String>, i: int)
    ensures
        texts(values).len() == values.len(),
        0 <= i < values.len() ==> texts(values)[i] == values[i]@,
        value is Some ==> optional_text(value) == Some(value->Some_0@),
        value is None ==> optional_text(value) is None,
{
}

} // verus!
