//! Decimal numerals.
//!
//! Fractional parameters of a request (a threshold, a temperature) and the
//! measurements of a response (a time offset, a probability) are carried as
//! the text that writes them: an optional minus sign, digits, and optionally a
//! point followed by more digits. The three texts `NaN`, `inf` and `-inf`
//! stand for the values that have no such numeral.

use vstd::prelude::*;
use vstd::string::StringExecFns;
use vstd::utf8::is_ascii_chars;

verus! {

broadcast use vstd::string::group_string_axioms;

/// One of the ten digit characters.
pub open spec fn is_digit(c: char) -> bool {
    '0' <= c <= '9'
}

/// A non-empty run of digits.
pub open spec fn all_digits(s: Seq<char>) -> bool {
    s.len() > 0 && forall|i: int| 0 <= i < s.len() ==> is_digit(#[trigger] s[i])
}

/// `s` has a point at `k`, with a run of digits on either side of it.
pub open spec fn point_at(s: Seq<char>, k: int) -> bool {
    &&& 0 < k < s.len() - 1
    &&& s[k] == '.'
    &&& all_digits(s.take(k))
    &&& all_digits(s.skip(k + 1))
}

/// Digits, optionally followed by a point and more digits.
pub open spec fn is_unsigned(s: Seq<char>) -> bool {
    all_digits(s) || exists|k: int| point_at(s, k)
}

/// The texts that name a value without a numeral.
pub open spec fn is_special(s: Seq<char>) -> bool {
    s == seq!['N', 'a', 'N'] || s == seq!['i', 'n', 'f'] || s == seq!['-', 'i', 'n', 'f']
}

/// The texts a [`Decimal`] may hold.
pub open spec fn is_decimal(s: Seq<char>) -> bool {
    ||| is_special(s)
    ||| is_unsigned(s)
    ||| s.len() > 0 && s[0] == '-' && is_unsigned(s.skip(1))
}

/// Every character of a decimal text is an ASCII character.
proof fn lemma_decimal_is_ascii(s: Seq<char>)
    requires
        is_decimal(s),
    ensures
        is_ascii_chars(s),
{
    assert forall|i: int| 0 <= i < s.len() implies '\0' <= #[trigger] s[i] <= '\u{7f}' by {
        if is_special(s) {
        } else {
            let t = if is_unsigned(s) {
                s
            } else {
                s.skip(1)
            };
            let j = i - (s.len() - t.len());
            if j >= 0 {
                assert(s[i] == t[j]);
                if all_digits(t) {
                    assert(is_digit(t[j]));
                } else {
                    let k = choose|k: int| point_at(t, k);
                    if j < k {
                        assert(is_digit(t.take(k)[j]));
                    } else if j > k {
                        assert(is_digit(t.skip(k + 1)[j - k - 1]));
                    }
                }
            }
        }
    }
}

/// `bytes` holds the ASCII codes of `chars`, one for one.
spec fn ascii_codes(chars: Seq<char>, bytes: Seq<u8>) -> bool {
    &&& chars.len() == bytes.len()
    &&& forall|i: int|
        0 <= i < chars.len() ==> '\0' <= #[trigger] chars[i] <= '\u{7f}' && bytes[i]
            == chars[i] as u8
}

/// The ASCII codes of the characters that a numeral is made of.
const CODE_0: u8 = 48;

const CODE_9: u8 = 57;

const CODE_POINT: u8 = 46;

const CODE_MINUS: u8 = 45;

const CODE_UPPER_N: u8 = 78;

const CODE_A: u8 = 97;

const CODE_F: u8 = 102;

const CODE_I: u8 = 105;

const CODE_N: u8 = 110;

fn is_digit_code(b: u8) -> (r: bool)
    ensures
        r == (CODE_0 <= b <= CODE_9),
{
    CODE_0 <= b && b <= CODE_9
}

/// Counts the digits that `bytes` holds from `from` on, up to the first
/// byte that is none.
fn digits_end(bytes: &[u8], from: usize, Ghost(chars): Ghost<Seq<char>>) -> (end: usize)
    requires
        ascii_codes(chars, bytes@),
        from <= bytes@.len(),
    ensures
        from <= end <= bytes@.len(),
        forall|i: int| from <= i < end ==> is_digit(#[trigger] chars[i]),
        end < bytes@.len() ==> !is_digit(chars[end as int]),
{
    let mut end = from;
    while end < bytes.len() && is_digit_code(bytes[end])
        invariant
            ascii_codes(chars, bytes@),
            from <= end <= bytes@.len(),
            forall|i: int| from <= i < end ==> is_digit(#[trigger] chars[i]),
        decreases bytes@.len() - end,
    {
        assert(chars[end as int] <= '\u{7f}');
        end = end + 1;
    }
    proof {
        if end < bytes@.len() {
            assert(chars[end as int] <= '\u{7f}');
        }
    }
    end
}

/// Where a text has digits up to `j` and none at `j`, a point can only
/// stand at `j`.
proof fn lemma_point_after_digits(t: Seq<char>, j: int)
    requires
        0 <= j <= t.len(),
        forall|i: int| 0 <= i < j ==> is_digit(#[trigger] t[i]),
        j < t.len() ==> !is_digit(t[j]),
    ensures
        all_digits(t) <==> j == t.len() && j > 0,
        forall|k: int| point_at(t, k) ==> k == j,
{
    assert forall|k: int| point_at(t, k) implies k == j by {
        if k < j {
            assert(is_digit(t[k]));
        } else if k > j {
            assert(is_digit(t.take(k)[j]));
        }
    }
    if all_digits(t) && j < t.len() {
        assert(is_digit(t[j]));
    }
}

/// Tells whether the text from `from` on is digits, optionally followed by
/// a point and more digits.
fn unsigned_from(bytes: &[u8], from: usize, Ghost(chars): Ghost<Seq<char>>) -> (r: bool)
    requires
        ascii_codes(chars, bytes@),
        from <= bytes@.len(),
    ensures
        r == is_unsigned(chars.skip(from as int)),
{
    let ghost t = chars.skip(from as int);
    let whole = digits_end(bytes, from, Ghost(chars));
    proof {
        assert forall|i: int| 0 <= i < whole - from implies is_digit(#[trigger] t[i]) by {
            assert(is_digit(chars[from + i]));
        }
        lemma_point_after_digits(t, whole - from);
    }
    if whole == from {
        return false;
    }
    if whole == bytes.len() {
        return true;
    }
    assert(chars[whole as int] <= '\u{7f}');
    if bytes[whole] != CODE_POINT {
        return false;
    }
    let fraction = digits_end(bytes, whole + 1, Ghost(chars));
    proof {
        let k = whole - from;
        let rest = t.skip(k + 1);
        assert(t[k] == '.');
        assert(forall|i: int| 0 <= i < k ==> t.take(k)[i] == t[i]);
        assert(all_digits(t.take(k)));
        if fraction == bytes@.len() && fraction > whole + 1 {
            assert forall|i: int| 0 <= i < rest.len() implies is_digit(#[trigger] rest[i]) by {
                assert(is_digit(chars[whole + 1 + i]));
            }
            assert(point_at(t, k));
        } else if fraction < bytes@.len() {
            assert(!is_digit(rest[fraction - whole - 1]));
        }
    }
    fraction == bytes.len() && fraction > whole + 1
}

/// Tells whether the text is one of `NaN`, `inf`, `-inf`.
fn special(bytes: &[u8], Ghost(chars): Ghost<Seq<char>>) -> (r: bool)
    requires
        ascii_codes(chars, bytes@),
    ensures
        r == is_special(chars),
{
    let n = bytes.len();
    let not_a_number = n == 3 && bytes[0] == CODE_UPPER_N && bytes[1] == CODE_A && bytes[2]
        == CODE_UPPER_N;
    let infinite = n == 3 && bytes[0] == CODE_I && bytes[1] == CODE_N && bytes[2] == CODE_F;
    let minus_infinite = n == 4 && bytes[0] == CODE_MINUS && bytes[1] == CODE_I && bytes[2]
        == CODE_N && bytes[3] == CODE_F;
    let r = not_a_number || infinite || minus_infinite;
    proof {
        if n >= 3 {
            assert(chars[0] <= '\u{7f}' && chars[1] <= '\u{7f}' && chars[2] <= '\u{7f}');
        }
        if n >= 4 {
            assert(chars[3] <= '\u{7f}');
        }
        if not_a_number {
            assert(chars =~= seq!['N', 'a', 'N']);
        } else if infinite {
            assert(chars =~= seq!['i', 'n', 'f']);
        } else if minus_infinite {
            assert(chars =~= seq!['-', 'i', 'n', 'f']);
        }
    }
    r
}

/// A decimal numeral, or one of `NaN`, `inf`, `-inf`.
#[derive(Debug)]
pub struct Decimal {
    text: String,
}

impl View for Decimal {
    type V = Seq<char>;

    closed spec fn view(&self) -> Seq<char> {
        self.text@
    }
}

impl Clone for Decimal {
    fn clone(&self) -> (copy: Self)
        ensures
            copy@ == self@,
    {
        proof {
            use_type_invariant(self);
        }
        Decimal { text: self.text.clone() }
    }
}

impl Decimal {
    #[verifier::type_invariant]
    spec fn well_formed(self) -> bool {
        is_decimal(self.text@)
    }

    /// Takes `text` as a numeral, where it is one.
    pub fn parse(text: &str) -> (parsed: Option<Decimal>)
        ensures
            parsed is Some <==> is_decimal(text@),
            parsed matches Some(d) ==> d@ == text@,
    {
        if !text.is_ascii() {
            proof {
                if is_decimal(text@) {
                    lemma_decimal_is_ascii(text@);
                }
            }
            return None;
        }
        let bytes = text.as_bytes();
        let ghost chars = text@;
        assert(ascii_codes(chars, bytes@));
        let accepted = if special(bytes, Ghost(chars)) {
            true
        } else if unsigned_from(bytes, 0, Ghost(chars)) {
            assert(chars.skip(0) =~= chars);
            true
        } else {
            assert(chars.skip(0) =~= chars);
            if bytes.len() > 0 && bytes[0] == CODE_MINUS {
                unsigned_from(bytes, 1, Ghost(chars))
            } else {
                false
            }
        };
        if accepted {
            Some(Decimal { text: String::from_str(text) })
        } else {
            None
        }
    }

    /// Gives up the numeral for its text.
    pub fn into_string(self) -> (text: String)
        ensures
            text@ == self@,
            is_decimal(self@),
    {
        proof {
            use_type_invariant(&self);
        }
        self.text
    }

    /// The numeral's text.
    pub fn as_str(&self) -> (text: &str)
        ensures
            text@ == self@,
            is_decimal(self@),
    {
        proof {
            use_type_invariant(self);
        }
        self.text.as_str()
    }
}

} // verus!
