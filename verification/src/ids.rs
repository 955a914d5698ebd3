//! On-chain entity identifiers. An identifier is a fixed-width sequence of
//! hexadecimal digits; its textual form is a hex literal (`0x` followed by
//! the significant digits, lower case, leading zeros stripped). A call
//! descriptor's module-owner identifier must parse as such a literal or the
//! call cannot be built, and formatting then parsing an identifier gives the
//! identifier back — the property that lets a published package id be reused
//! as a call target.

use vstd::prelude::*;

verus! {

/// The number of hexadecimal digits of one entity identifier.
pub const ID_DIGITS: usize = 40;

/// A well-formed identifier: exactly `ID_DIGITS` digits, each below 16.
pub open spec fn wf_id_digits(s: Seq<u8>) -> bool {
    &&& s.len() == ID_DIGITS
    &&& forall|i: int| 0 <= i < s.len() ==> #[trigger] s[i] < 16
}

/// The lower-case character of one hexadecimal digit.
pub open spec fn hex_char_of(d: u8) -> char {
    match d {
        0 => '0',
        1 => '1',
        2 => '2',
        3 => '3',
        4 => '4',
        5 => '5',
        6 => '6',
        7 => '7',
        8 => '8',
        9 => '9',
        10 => 'a',
        11 => 'b',
        12 => 'c',
        13 => 'd',
        14 => 'e',
        _ => 'f',
    }
}

/// The digit of one hexadecimal character, either case, if it is one.
pub open spec fn hex_value_of(c: char) -> Option<u8> {
    match c {
        '0' => Some(0u8),
        '1' => Some(1u8),
        '2' => Some(2u8),
        '3' => Some(3u8),
        '4' => Some(4u8),
        '5' => Some(5u8),
        '6' => Some(6u8),
        '7' => Some(7u8),
        '8' => Some(8u8),
        '9' => Some(9u8),
        'a' => Some(10u8),
        'b' => Some(11u8),
        'c' => Some(12u8),
        'd' => Some(13u8),
        'e' => Some(14u8),
        'f' => Some(15u8),
        'A' => Some(10u8),
        'B' => Some(11u8),
        'C' => Some(12u8),
        'D' => Some(13u8),
        'E' => Some(14u8),
        'F' => Some(15u8),
        _ => None,
    }
}

/// How many zeros stand before the first nonzero digit.
pub open spec fn leading_zeros(s: Seq<u8>) -> int
    decreases s.len(),
{
    if s.len() == 0 {
        0
    } else if s[0] != 0 {
        0
    } else {
        1 + leading_zeros(s.skip(1))
    }
}

/// The significant digits of an identifier: leading zeros stripped, with a
/// single zero digit left for the all-zero identifier.
pub open spec fn significant(s: Seq<u8>) -> Seq<u8> {
    if leading_zeros(s) == s.len() {
        seq![0u8]
    } else {
        s.skip(leading_zeros(s))
    }
}

/// The hex literal of an identifier: `0x` and its significant digits.
pub open spec fn hex_literal_of(s: Seq<u8>) -> Seq<char> {
    seq!['0', 'x'] + Seq::new(significant(s).len(), |i: int| hex_char_of(significant(s)[i]))
}

/// Parses a hex literal: `0x`, then one to `ID_DIGITS` hexadecimal
/// characters of either case; shorter literals are padded with leading
/// zeros. Anything else is rejected.
pub open spec fn parse_hex_literal(s: Seq<char>) -> Option<Seq<u8>> {
    if s.len() < 3 || s.len() > ID_DIGITS + 2 {
        None
    } else if s[0] != '0' || s[1] != 'x' {
        None
    } else if exists|i: int| 2 <= i < s.len() && (#[trigger] hex_value_of(s[i])) is None {
        None
    } else {
        Some(
            Seq::new(
                ID_DIGITS as nat,
                |i: int|
                    {
                        let pad = ID_DIGITS - (s.len() - 2);
                        if i < pad {
                            0u8
                        } else {
                            hex_value_of(s[i - pad + 2]).unwrap()
                        }
                    },
            ),
        )
    }
}

proof fn lemma_leading_zeros_at(s: Seq<u8>, k: int)
    requires
        0 <= k <= s.len(),
        forall|j: int| 0 <= j < k ==> #[trigger] s[j] == 0,
        k < s.len() ==> s[k] != 0,
    ensures
        leading_zeros(s) == k,
    decreases k,
{
    if k > 0 {
        let t = s.skip(1);
        assert(forall|j: int| 0 <= j < k - 1 ==> #[trigger] t[j] == s[j + 1]);
        lemma_leading_zeros_at(t, k - 1);
    }
}

proof fn lemma_hex_char_value(d: u8)
    requires
        d < 16,
    ensures
        hex_value_of(hex_char_of(d)) == Some(d),
{
}

/// Formatting then parsing is the identity on well-formed identifiers: the
/// hex literal written for an identifier always parses back to exactly that
/// identifier.
pub proof fn lemma_hex_round_trip(s: Seq<u8>)
    requires
        wf_id_digits(s),
    ensures
        parse_hex_literal(hex_literal_of(s)) == Some(s),
{
    let k = leading_zeros(s);
    let lit = hex_literal_of(s);
    let sig = significant(s);
    lemma_leading_zeros_bounds(s);
    assert(1 <= sig.len() <= ID_DIGITS);
    assert(lit.len() == sig.len() + 2);
    assert(lit[0] == '0' && lit[1] == 'x');
    assert(forall|i: int| 0 <= i < sig.len() ==> #[trigger] sig[i] < 16);
    assert forall|i: int| 2 <= i < lit.len() implies (#[trigger] hex_value_of(lit[i])) is Some by {
        assert(lit[i] == hex_char_of(sig[i - 2]));
        lemma_hex_char_value(sig[i - 2]);
    }
    let parsed = parse_hex_literal(lit).unwrap();
    let pad = ID_DIGITS - (lit.len() - 2);
    assert forall|i: int| 0 <= i < ID_DIGITS implies #[trigger] parsed[i] == s[i] by {
        if k == s.len() {
            // all-zero identifier: one significant digit, pad of all zeros
            assert(pad == ID_DIGITS - 1);
            if i < pad {
                assert(s[i] == 0);
            } else {
                assert(lit[i - pad + 2] == hex_char_of(sig[0]));
                lemma_hex_char_value(sig[0]);
                assert(s[i] == 0);
            }
        } else {
            assert(sig.len() == s.len() - k);
            assert(pad == k);
            if i < pad {
                assert(s[i] == 0);
            } else {
                assert(lit[i - pad + 2] == hex_char_of(sig[i - k]));
                assert(sig[i - k] == s[i]);
                lemma_hex_char_value(sig[i - k]);
            }
        }
    }
    assert(parsed =~= s);
}

proof fn lemma_leading_zeros_bounds(s: Seq<u8>)
    ensures
        0 <= leading_zeros(s) <= s.len(),
        forall|j: int| 0 <= j < leading_zeros(s) ==> #[trigger] s[j] == 0,
        leading_zeros(s) < s.len() ==> s[leading_zeros(s)] != 0,
    decreases s.len(),
{
    if s.len() > 0 && s[0] == 0 {
        let t = s.skip(1);
        lemma_leading_zeros_bounds(t);
        assert forall|j: int| 0 <= j < leading_zeros(s) implies #[trigger] s[j] == 0 by {
            if j > 0 {
                assert(t[j - 1] == 0);
            }
        }
        if leading_zeros(s) < s.len() {
            assert(t[leading_zeros(t)] != 0);
        }
    }
}

/// An on-chain entity's opaque identifier: a fixed-width digit sequence.
#[derive(Debug, PartialEq, Eq)]
pub struct EntityId {
    digits: Vec<u8>,
}

impl View for EntityId {
    type V = Seq<u8>;

    closed spec fn view(&self) -> Seq<u8> {
        self.digits@
    }
}

impl EntityId {
    /// Every identifier held by this type is well-formed.
    pub open spec fn wf(&self) -> bool {
        wf_id_digits(self@)
    }

    /// Wraps a digit sequence, refusing any that is not well-formed.
    pub fn new(digits: Vec<u8>) -> (r: Option<EntityId>)
        ensures
            match r {
                Some(id) => wf_id_digits(digits@) && id@ == digits@,
                None => !wf_id_digits(digits@),
            },
    {
        if digits.len() != ID_DIGITS {
            return None;
        }
        let mut i: usize = 0;
        while i < digits.len()
            invariant
                0 <= i <= digits.len(),
                forall|j: int| 0 <= j < i ==> #[trigger] digits@[j] < 16,
            decreases digits.len() - i,
        {
            if digits[i] >= 16 {
                return None;
            }
            i = i + 1;
        }
        Some(EntityId { digits })
    }

    /// A fresh identifier holding the same digits.
    pub fn duplicate(&self) -> (r: EntityId)
        ensures
            r@ == self@,
    {
        let mut digits: Vec<u8> = Vec::new();
        let mut i: usize = 0;
        while i < self.digits.len()
            invariant
                0 <= i <= self.digits.len(),
                digits@ == self.digits@.take(i as int),
            decreases self.digits.len() - i,
        {
            digits.push(self.digits[i]);
            proof {
                assert(digits@ =~= self.digits@.take(i as int + 1));
            }
            i = i + 1;
        }
        proof {
            assert(digits@ =~= self.digits@);
        }
        EntityId { digits }
    }

    /// Parses a module-owner identifier from its hex-literal form, exactly
    /// as `parse_hex_literal` describes; a malformed literal gives `None`.
    #[verifier::loop_isolation(false)]
    pub fn from_hex_literal(s: &str) -> (r: Option<EntityId>)
        ensures
            match r {
                Some(id) => parse_hex_literal(s@) == Some(id@) && id.wf(),
                None => parse_hex_literal(s@) is None,
            },
    {
        let n = s.unicode_len();
        if n < 3 || n > ID_DIGITS + 2 {
            return None;
        }
        if s.get_char(0) != '0' || s.get_char(1) != 'x' {
            return None;
        }
        let pad = ID_DIGITS - (n - 2);
        let mut digits: Vec<u8> = Vec::new();
        let mut i: usize = 0;
        while i < pad
            invariant
                0 <= i <= pad,
                digits@.len() == i,
                forall|t: int| 0 <= t < i ==> #[trigger] digits@[t] == 0,
            decreases pad - i,
        {
            digits.push(0u8);
            i = i + 1;
        }
        let mut j: usize = 2;
        while j < n
            invariant
                2 <= j <= n,
                digits@.len() == pad + j - 2,
                forall|t: int| 0 <= t < pad ==> #[trigger] digits@[t] == 0,
                forall|t: int|
                    2 <= t < j ==> (#[trigger] hex_value_of(s@[t])) is Some && digits@[pad + t
                        - 2] == hex_value_of(s@[t]).unwrap(),
                forall|t: int| pad <= t < digits@.len() ==> #[trigger] digits@[t] < 16,
            decreases n - j,
        {
            let c = s.get_char(j);
            match hex_value_exec(c) {
                Some(v) => {
                    digits.push(v);
                },
                None => {
                    return None;
                },
            }
            j = j + 1;
        }
        proof {
            let parsed = parse_hex_literal(s@).unwrap();
            assert(digits@ =~= parsed);
        }
        Some(EntityId { digits })
    }

    /// Writes this identifier as a hex literal, exactly as `hex_literal_of`
    /// describes: `0x`, then the significant digits in lower case.
    #[verifier::loop_isolation(false)]
    pub fn to_hex_literal(&self) -> (r: String)
        requires
            self.wf(),
        ensures
            r@ == hex_literal_of(self@),
    {
        let mut k: usize = 0;
        while k < self.digits.len() && self.digits[k] == 0
            invariant
                0 <= k <= self.digits.len(),
                forall|j: int| 0 <= j < k ==> #[trigger] self.digits@[j] == 0,
            decreases self.digits.len() - k,
        {
            k = k + 1;
        }
        proof {
            lemma_leading_zeros_at(self@, k as int);
        }
        if k == self.digits.len() {
            let r = String::from_str("0x0");
            proof {
                reveal_strlit("0x0");
                assert(r@ =~= hex_literal_of(self@));
            }
            return r;
        }
        let mut out = String::from_str("0x");
        proof {
            reveal_strlit("0x");
            assert(out@ =~= seq!['0', 'x']);
        }
        let mut i: usize = k;
        while i < self.digits.len()
            invariant
                k <= i <= self.digits.len(),
                out@ == seq!['0', 'x'] + Seq::new(
                    (i - k) as nat,
                    |t: int| hex_char_of(self.digits@[k + t]),
                ),
            decreases self.digits.len() - i,
        {
            let ds = hex_char_str(self.digits[i]);
            out.append(ds);
            proof {
                assert(out@ =~= seq!['0', 'x'] + Seq::new(
                    (i + 1 - k) as nat,
                    |t: int| hex_char_of(self.digits@[k + t]),
                ));
            }
            i = i + 1;
        }
        proof {
            assert(out@ =~= hex_literal_of(self@));
        }
        out
    }
}

/// The digit of one hexadecimal character, as `hex_value_of` gives it.
fn hex_value_exec(c: char) -> (r: Option<u8>)
    ensures
        r == hex_value_of(c),
{
    match c {
        '0' => Some(0u8),
        '1' => Some(1u8),
        '2' => Some(2u8),
        '3' => Some(3u8),
        '4' => Some(4u8),
        '5' => Some(5u8),
        '6' => Some(6u8),
        '7' => Some(7u8),
        '8' => Some(8u8),
        '9' => Some(9u8),
        'a' => Some(10u8),
        'b' => Some(11u8),
        'c' => Some(12u8),
        'd' => Some(13u8),
        'e' => Some(14u8),
        'f' => Some(15u8),
        'A' => Some(10u8),
        'B' => Some(11u8),
        'C' => Some(12u8),
        'D' => Some(13u8),
        'E' => Some(14u8),
        'F' => Some(15u8),
        _ => None,
    }
}

/// The one-character string of one hexadecimal digit, lower case.
fn hex_char_str(d: u8) -> (r: &'static str)
    requires
        d < 16,
    ensures
        r@ == seq![hex_char_of(d)],
{
    match d {
        0 => {
            proof {
                reveal_strlit("0");
                assert("0"@ =~= seq![hex_char_of(0u8)]);
            }
            "0"
        },
        1 => {
            proof {
                reveal_strlit("1");
                assert("1"@ =~= seq![hex_char_of(1u8)]);
            }
            "1"
        },
        2 => {
            proof {
                reveal_strlit("2");
                assert("2"@ =~= seq![hex_char_of(2u8)]);
            }
            "2"
        },
        3 => {
            proof {
                reveal_strlit("3");
                assert("3"@ =~= seq![hex_char_of(3u8)]);
            }
            "3"
        },
        4 => {
            proof {
                reveal_strlit("4");
                assert("4"@ =~= seq![hex_char_of(4u8)]);
            }
            "4"
        },
        5 => {
            proof {
                reveal_strlit("5");
                assert("5"@ =~= seq![hex_char_of(5u8)]);
            }
            "5"
        },
        6 => {
            proof {
                reveal_strlit("6");
                assert("6"@ =~= seq![hex_char_of(6u8)]);
            }
            "6"
        },
        7 => {
            proof {
                reveal_strlit("7");
                assert("7"@ =~= seq![hex_char_of(7u8)]);
            }
            "7"
        },
        8 => {
            proof {
                reveal_strlit("8");
                assert("8"@ =~= seq![hex_char_of(8u8)]);
            }
            "8"
        },
        9 => {
            proof {
                reveal_strlit("9");
                assert("9"@ =~= seq![hex_char_of(9u8)]);
            }
            "9"
        },
        10 => {
            proof {
                reveal_strlit("a");
                assert("a"@ =~= seq![hex_char_of(10u8)]);
            }
            "a"
        },
        11 => {
            proof {
                reveal_strlit("b");
                assert("b"@ =~= seq![hex_char_of(11u8)]);
            }
            "b"
        },
        12 => {
            proof {
                reveal_strlit("c");
                assert("c"@ =~= seq![hex_char_of(12u8)]);
            }
            "c"
        },
        13 => {
            proof {
                reveal_strlit("d");
                assert("d"@ =~= seq![hex_char_of(13u8)]);
            }
            "d"
        },
        14 => {
            proof {
                reveal_strlit("e");
                assert("e"@ =~= seq![hex_char_of(14u8)]);
            }
            "e"
        },
        _ => {
            proof {
                reveal_strlit("f");
                assert("f"@ =~= seq![hex_char_of(d)]);
            }
            "f"
        },
    }
}

} // verus!
