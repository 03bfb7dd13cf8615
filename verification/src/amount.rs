//! Arbitrary-precision token amounts denominated in the smallest unit.
//!
//! Amounts cross the RPC boundary as base-10 decimal strings, never as native
//! numeric JSON: precision loss on balances beyond machine-word range is a
//! correctness bug. The representation here is the sequence of decimal digits
//! itself, so the encode/decode round trip is exact for every value.

use vstd::prelude::*;
use vstd::string::StrSliceExecFns;
use vstd::string::StringExecFns;

verus! {

/// A digit sequence is canonical when it is nonempty, every digit is below
/// ten, and there is no leading zero except for the single digit zero itself.
pub open spec fn canonical_digits(d: Seq<u8>) -> bool {
    &&& d.len() >= 1
    &&& forall|i: int| 0 <= i < d.len() ==> d[i] < 10
    &&& d.len() > 1 ==> d[0] != 0
}

/// The numeric value of a big-endian decimal digit sequence.
pub open spec fn digits_value(d: Seq<u8>) -> nat
    decreases d.len(),
{
    if d.len() == 0 {
        0
    } else {
        digits_value(d.drop_last()) * 10 + d.last() as nat
    }
}

/// The decimal character for one digit value below ten.
pub open spec fn digit_char(d: u8) -> char {
    if d == 0 {
        '0'
    } else if d == 1 {
        '1'
    } else if d == 2 {
        '2'
    } else if d == 3 {
        '3'
    } else if d == 4 {
        '4'
    } else if d == 5 {
        '5'
    } else if d == 6 {
        '6'
    } else if d == 7 {
        '7'
    } else if d == 8 {
        '8'
    } else {
        '9'
    }
}

/// Whether a character is a decimal digit.
pub open spec fn is_digit_char(c: char) -> bool {
    c == '0' || c == '1' || c == '2' || c == '3' || c == '4' || c == '5' || c == '6' || c == '7'
        || c == '8' || c == '9'
}

/// The digit value of a decimal character; meaningful only under `is_digit_char`.
pub open spec fn char_digit(c: char) -> u8 {
    if c == '0' {
        0
    } else if c == '1' {
        1
    } else if c == '2' {
        2
    } else if c == '3' {
        3
    } else if c == '4' {
        4
    } else if c == '5' {
        5
    } else if c == '6' {
        6
    } else if c == '7' {
        7
    } else if c == '8' {
        8
    } else {
        9
    }
}

/// The decimal text of a digit sequence.
pub open spec fn digits_to_text(d: Seq<u8>) -> Seq<char> {
    d.map_values(|x: u8| digit_char(x))
}

/// Whether every character of a text is a decimal digit.
pub open spec fn all_digit_chars(s: Seq<char>) -> bool {
    forall|i: int| 0 <= i < s.len() ==> is_digit_char(s[i])
}

/// The digit sequence read back from a decimal text; meaningful only under
/// `all_digit_chars`.
pub open spec fn text_digits(s: Seq<char>) -> Seq<u8> {
    s.map_values(|c: char| char_digit(c))
}

/// A text is a canonical decimal encoding: digits only, nonempty, and no
/// leading zero except for the single digit zero.
pub open spec fn is_canonical_dec_text(s: Seq<char>) -> bool {
    all_digit_chars(s) && canonical_digits(text_digits(s))
}

/// An arbitrary-precision non-negative integer amount in the smallest token
/// unit, held as its big-endian decimal digits.
#[derive(Debug, Clone, PartialEq, Eq)]
pub struct TokenAmount {
    digits: Vec<u8>,
}

impl View for TokenAmount {
    type V = Seq<u8>;

    closed spec fn view(&self) -> Seq<u8> {
        self.digits@
    }
}

/// The one-character text of a digit value below ten.
fn text_of_digit(d: u8) -> (r: &'static str)
    requires
        d < 10,
    ensures
        r@ == seq![digit_char(d)],
{
    let piece: &str = if d == 0 {
        "0"
    } else if d == 1 {
        "1"
    } else if d == 2 {
        "2"
    } else if d == 3 {
        "3"
    } else if d == 4 {
        "4"
    } else if d == 5 {
        "5"
    } else if d == 6 {
        "6"
    } else if d == 7 {
        "7"
    } else if d == 8 {
        "8"
    } else {
        "9"
    };
    proof {
        reveal_strlit("0");
        reveal_strlit("1");
        reveal_strlit("2");
        reveal_strlit("3");
        reveal_strlit("4");
        reveal_strlit("5");
        reveal_strlit("6");
        reveal_strlit("7");
        reveal_strlit("8");
        reveal_strlit("9");
        assert(piece@ =~= seq![digit_char(d)]);
    }
    piece
}

/// The digit value of one character, `None` exactly on non-digits.
fn digit_of_char(c: char) -> (r: Option<u8>)
    ensures
        r is Some <==> is_digit_char(c),
        r matches Some(d) ==> d == char_digit(c) && d < 10,
{
    if c == '0' {
        Some(0)
    } else if c == '1' {
        Some(1)
    } else if c == '2' {
        Some(2)
    } else if c == '3' {
        Some(3)
    } else if c == '4' {
        Some(4)
    } else if c == '5' {
        Some(5)
    } else if c == '6' {
        Some(6)
    } else if c == '7' {
        Some(7)
    } else if c == '8' {
        Some(8)
    } else if c == '9' {
        Some(9)
    } else {
        None
    }
}

impl TokenAmount {
    /// The digit sequence is canonical.
    pub open spec fn well_formed(&self) -> bool {
        canonical_digits(self@)
    }

    /// The numeric value this amount denotes.
    pub open spec fn value(&self) -> nat {
        digits_value(self@)
    }

    /// Encodes the amount as base-10 decimal text, exactly one character per
    /// digit, most significant first.
    pub fn encode(&self) -> (r: String)
        requires
            self.well_formed(),
        ensures
            r@ == digits_to_text(self@),
            is_canonical_dec_text(r@),
    {
        let mut s = String::new();
        let mut i: usize = 0;
        while i < self.digits.len()
            invariant
                self.well_formed(),
                i <= self.digits.len(),
                s@ == digits_to_text(self@.take(i as int)),
            decreases self.digits.len() - i,
        {
            let d = self.digits[i];
            let piece = text_of_digit(d);
            s.append(piece);
            proof {
                assert(s@ =~= digits_to_text(self@.take(i as int + 1)));
            }
            i = i + 1;
        }
        proof {
            assert(self@.take(self.digits.len() as int) =~= self@);
            lemma_roundtrip_digits(self@);
        }
        s
    }

    /// Decodes base-10 decimal text into an amount. Returns `None` exactly
    /// when the text is not a canonical decimal encoding: empty, a non-digit
    /// character, or a redundant leading zero. Canonical text is strictly
    /// what `encode` emits; a sign or a padded form such as a doubled zero is
    /// rejected rather than normalized.
    pub fn decode(s: &str) -> (r: Option<TokenAmount>)
        ensures
            r is Some <==> is_canonical_dec_text(s@),
            r matches Some(t) ==> t.well_formed() && t@ == text_digits(s@),
    {
        let n = s.unicode_len();
        if n == 0 {
            return None;
        }
        if n > 1 && s.get_char(0) == '0' {
            return None;
        }
        let mut digits: Vec<u8> = Vec::new();
        let mut i: usize = 0;
        while i < n
            invariant
                i <= n,
                n as nat == s@.len(),
                digits@.len() == i as nat,
                forall|j: int| #![trigger s@[j]]
                    0 <= j < i ==> is_digit_char(s@[j]) && digits@[j] == char_digit(s@[j]),
            decreases n - i,
        {
            let c = s.get_char(i);
            match digit_of_char(c) {
                Some(d) => {
                    digits.push(d);
                },
                None => {
                    assert(!all_digit_chars(s@));
                    return None;
                },
            }
            i = i + 1;
        }
        proof {
            assert(digits@ =~= text_digits(s@));
            assert forall|k: int| 0 <= k < text_digits(s@).len() implies text_digits(s@)[k]
                < 10 by {
                assert(is_digit_char(s@[k]));
            }
            if n > 1 {
                assert(is_digit_char(s@[0]) && s@[0] != '0');
                assert(char_digit(s@[0]) != 0);
            }
            assert(is_canonical_dec_text(s@));
        }
        Some(TokenAmount { digits })
    }

    /// The amount as a machine word, when it fits; `None` exactly when the
    /// value exceeds the `u64` range.
    pub fn to_u64(&self) -> (r: Option<u64>)
        requires
            self.well_formed(),
        ensures
            r matches Some(v) ==> v as nat == self.value(),
            r is None ==> self.value() > u64::MAX,
    {
        let mut acc: u64 = 0;
        let mut i: usize = 0;
        while i < self.digits.len()
            invariant
                self.well_formed(),
                i <= self.digits.len(),
                acc as nat == digits_value(self@.take(i as int)),
            decreases self.digits.len() - i,
        {
            let d = self.digits[i];
            proof {
                assert(self@.take(i as int + 1).drop_last() =~= self@.take(i as int));
                assert(digits_value(self@.take(i as int + 1)) == digits_value(
                    self@.take(i as int),
                ) * 10 + d);
            }
            if acc > (u64::MAX - d as u64) / 10 {
                proof {
                    assert((acc as nat) * 10 + d > u64::MAX) by (nonlinear_arith)
                        requires
                            acc as nat > ((u64::MAX - d as u64) as nat) / 10,
                            d < 10,
                    ;
                    lemma_digits_value_prefix_bound(self@, i as int + 1);
                }
                return None;
            }
            proof {
                assert((acc as nat) * 10 + d <= u64::MAX) by (nonlinear_arith)
                    requires
                        acc as nat <= ((u64::MAX - d as u64) as nat) / 10,
                        d < 10,
                ;
            }
            acc = acc * 10 + d as u64;
            i = i + 1;
        }
        proof {
            assert(self@.take(self.digits.len() as int) =~= self@);
        }
        Some(acc)
    }
}

/// Reading back the decimal text of a canonical digit sequence recovers that
/// sequence exactly.
pub proof fn lemma_roundtrip_digits(d: Seq<u8>)
    requires
        canonical_digits(d),
    ensures
        is_canonical_dec_text(digits_to_text(d)),
        text_digits(digits_to_text(d)) == d,
{
    assert forall|i: int| 0 <= i < digits_to_text(d).len() implies is_digit_char(
        digits_to_text(d)[i],
    ) by {
        assert(d[i] < 10);
    }
    assert(text_digits(digits_to_text(d)) =~= d);
}

/// Law: decoding the decimal encoding of any canonical amount yields the same
/// digit sequence, hence the same value; the round trip is exact for every
/// amount, including those beyond machine-word range.
pub proof fn lemma_decimal_roundtrip(x: TokenAmount)
    requires
        x.well_formed(),
    ensures
        is_canonical_dec_text(digits_to_text(x@)),
        text_digits(digits_to_text(x@)) == x@,
        digits_value(text_digits(digits_to_text(x@))) == x.value(),
{
    lemma_roundtrip_digits(x@);
}

/// The value of a digit sequence is at least the value of any prefix of it.
pub proof fn lemma_digits_value_prefix_bound(d: Seq<u8>, i: int)
    requires
        0 <= i <= d.len(),
    ensures
        digits_value(d) >= digits_value(d.take(i)),
    decreases d.len() - i,
{
    if i < d.len() {
        assert(d.take(i + 1).drop_last() =~= d.take(i));
        assert(digits_value(d.take(i + 1)) == digits_value(d.take(i)) * 10 + d.take(i + 1).last());
        lemma_digits_value_prefix_bound(d, i + 1);
    } else {
        assert(d.take(i) =~= d);
    }
}

} // verus!
