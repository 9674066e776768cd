//! Public entity identifiers: a `u64` drawn from `[62^7, 62^8)`, rendered as
//! exactly eight base-62 digits (`0-9`, `A-Z`, `a-z`), with no leading-zero
//! ambiguity.

use vstd::arithmetic::div_mod::{lemma_div_denominator, lemma_mod_breakdown, lemma_small_mod};
use vstd::prelude::*;

verus! {

/// Smallest raw identifier value, `62^7`.
pub const ID_MIN: u64 = 3521614606208;

/// One past the largest raw identifier value, `62^8`.
pub const ID_LIMIT: u64 = 218340105584896;

/// `62^k`.
pub open spec fn pow62(k: nat) -> nat
    decreases k,
{
    if k == 0 {
        1
    } else {
        62 * pow62((k - 1) as nat)
    }
}

pub proof fn lemma_pow62_pos(k: nat)
    ensures
        pow62(k) >= 1,
    decreases k,
{
    if k > 0 {
        lemma_pow62_pos((k - 1) as nat);
    }
}

/// `62^8` written out, by unfolding the recursion.
pub proof fn lemma_pow62_8()
    ensures
        pow62(8) == ID_LIMIT,
{
    assert(pow62(0) == 1);
    assert(pow62(1) == 62);
    assert(pow62(2) == 3844);
    assert(pow62(3) == 238328);
    assert(pow62(4) == 14776336);
    assert(pow62(5) == 916132832);
    assert(pow62(6) == 56800235584);
    assert(pow62(7) == 3521614606208);
    assert(pow62(8) == 218340105584896);
}

pub proof fn lemma_pow62_mono(j: nat, k: nat)
    requires
        j <= k,
    ensures
        pow62(j) <= pow62(k),
    decreases k,
{
    if j < k {
        lemma_pow62_mono(j, (k - 1) as nat);
        lemma_pow62_pos((k - 1) as nat);
    }
}

/// The character for base-62 digit value `d`: `0-9`, then `A-Z`, then `a-z`.
pub open spec fn digit_char(d: nat) -> char
    recommends
        d < 62,
{
    if d < 10 {
        ((48 + d) as u8) as char
    } else if d < 36 {
        ((55 + d) as u8) as char
    } else {
        ((61 + d) as u8) as char
    }
}

/// The digit value of `c`, or `-1` if `c` is not a base-62 digit.
pub open spec fn digit_val(c: char) -> int {
    let v = c as u32;
    if 48 <= v <= 57 {
        v - 48
    } else if 65 <= v <= 90 {
        v - 55
    } else if 97 <= v <= 122 {
        v - 61
    } else {
        -1
    }
}

pub open spec fn is_digit62(c: char) -> bool {
    digit_val(c) >= 0
}

pub open spec fn all_digits(s: Seq<char>) -> bool {
    forall|i: int| 0 <= i < s.len() ==> is_digit62(s[i])
}

/// The `k` base-62 digits of `u`, most significant first (the low `k` digits
/// of `u`; higher digits of `u` are ignored).
pub open spec fn encode_digits(u: nat, k: nat) -> Seq<char>
    decreases k,
{
    if k == 0 {
        Seq::empty()
    } else {
        encode_digits(u / 62, (k - 1) as nat).push(digit_char(u % 62))
    }
}

/// The numeric value of a base-62 digit string, read most significant first.
pub open spec fn val_of(s: Seq<char>) -> int
    decreases s.len(),
{
    if s.len() == 0 {
        0
    } else {
        val_of(s.drop_last()) * 62 + digit_val(s.last())
    }
}

pub proof fn lemma_digit_round_trip(d: nat)
    requires
        d < 62,
    ensures
        is_digit62(digit_char(d)),
        digit_val(digit_char(d)) == d,
{
}

pub proof fn lemma_encode_digits_len(u: nat, k: nat)
    ensures
        encode_digits(u, k).len() == k,
    decreases k,
{
    if k > 0 {
        lemma_encode_digits_len(u / 62, (k - 1) as nat);
    }
}

pub proof fn lemma_encode_digits_all_digits(u: nat, k: nat)
    ensures
        all_digits(encode_digits(u, k)),
    decreases k,
{
    lemma_encode_digits_len(u, k);
    if k > 0 {
        lemma_encode_digits_all_digits(u / 62, (k - 1) as nat);
        lemma_digit_round_trip(u % 62);
        assert forall|i: int| 0 <= i < k implies is_digit62(encode_digits(u, k)[i]) by {
            lemma_encode_digits_len(u / 62, (k - 1) as nat);
            if i < k - 1 {
                assert(encode_digits(u, k)[i] == encode_digits(u / 62, (k - 1) as nat)[i]);
            }
        }
    }
}

/// The digit at position `i` (from the most significant end) of the `k`-digit
/// rendering of `u`.
pub proof fn lemma_encode_digits_index(u: nat, k: nat, i: int)
    requires
        0 <= i < k,
    ensures
        encode_digits(u, k)[i] == digit_char((u / pow62((k - 1 - i) as nat)) % 62),
    decreases k,
{
    lemma_encode_digits_len(u / 62, (k - 1) as nat);
    if i == k - 1 {
        assert(u / pow62(0) == u / 1 == u);
    } else {
        lemma_encode_digits_index(u / 62, (k - 1) as nat, i);
        let e = (k - 2 - i) as nat;
        lemma_pow62_pos(e);
        lemma_div_denominator(u as int, 62, pow62(e) as int);
        assert(62 * pow62(e) == pow62((k - 1 - i) as nat));
        assert((u / 62) / pow62(e) == u / (62 * pow62(e)));
    }
}

/// Reading back the `k`-digit rendering of `u` yields `u mod 62^k`.
pub proof fn lemma_val_of_encode(u: nat, k: nat)
    ensures
        val_of(encode_digits(u, k)) == u % pow62(k),
    decreases k,
{
    lemma_encode_digits_len(u, k);
    if k == 0 {
        assert(u % 1 == 0) by (nonlinear_arith);
    } else {
        let prev = encode_digits(u / 62, (k - 1) as nat);
        lemma_encode_digits_len(u / 62, (k - 1) as nat);
        assert(encode_digits(u, k).drop_last() =~= prev);
        lemma_val_of_encode(u / 62, (k - 1) as nat);
        lemma_digit_round_trip(u % 62);
        lemma_pow62_pos((k - 1) as nat);
        lemma_mod_breakdown(u as int, 62, pow62((k - 1) as nat) as int);
        assert(62 * pow62((k - 1) as nat) == pow62(k));
    }
}

/// An entity identifier: a raw value in `[62^7, 62^8)`.
#[derive(Clone, Copy, Debug, PartialEq, Eq, Hash, Structural)]
pub struct EntityId(u64);

/// Why a string or number failed to be read as an [`EntityId`].
#[derive(Clone, Copy, Debug, PartialEq, Eq, Structural)]
pub enum GenericIdError {
    /// The string did not hold exactly eight characters.
    WrongLength(usize),
    /// The denoted value lies outside `[62^7, 62^8)`.
    OutOfBounds,
    /// A character was not a base-62 digit.
    Decode,
}

impl EntityId {
    /// The raw value, in specifications.
    pub closed spec fn spec_raw(&self) -> u64 {
        self.0
    }

    /// The identifier invariant: the raw value lies in `[62^7, 62^8)`.
    pub open spec fn valid(&self) -> bool {
        ID_MIN <= self.spec_raw() < ID_LIMIT
    }

    pub fn raw(&self) -> (r: u64)
        ensures
            r == self.spec_raw(),
    {
        self.0
    }

    /// Build an identifier from a raw value, rejecting values outside the
    /// allowed interval.
    pub fn from_raw(value: u64) -> (r: Result<EntityId, GenericIdError>)
        ensures
            ID_MIN <= value < ID_LIMIT ==> (r matches Ok(id) && id.spec_raw() == value
                && id.valid()),
            !(ID_MIN <= value < ID_LIMIT) ==> r == Err::<EntityId, GenericIdError>(
                GenericIdError::OutOfBounds,
            ),
    {
        if ID_MIN <= value && value < ID_LIMIT {
            Ok(EntityId(value))
        } else {
            Err(GenericIdError::OutOfBounds)
        }
    }

    /// Draw a fresh identifier uniformly from the allowed interval.
    ///
    /// Relies on `rand::random_range`: the sampled value lies within the
    /// requested (non-empty) range.
    #[verifier::external_body]
    pub fn generate() -> (r: EntityId)
        ensures
            r.valid(),
    {
        EntityId(rand::random_range(ID_MIN..ID_LIMIT))
    }

    /// Render the identifier as its eight base-62 digits.
    pub fn encode(&self) -> (r: String)
        requires
            self.valid(),
        ensures
            r@ == encode_digits(self.spec_raw() as nat, 8),
            r@.len() == 8,
            all_digits(r@),
            val_of(r@) == self.spec_raw(),
    {
        let u0 = self.0;
        let mut digits: Vec<u64> = Vec::new();
        let mut u = u0;
        let mut k: usize = 0;
        proof {
            assert(pow62(0) == 1);
            assert(u0 as nat / 1 == u0 as nat);
        }
        while k < 8
            invariant
                k <= 8,
                digits@.len() == k,
                u == u0 as nat / pow62(k as nat),
                forall|j: int|
                    0 <= j < k ==> digits@[j] == (u0 as nat / pow62(j as nat)) % 62,
            decreases 8 - k,
        {
            digits.push(u % 62);
            proof {
                lemma_pow62_pos(k as nat);
                lemma_div_denominator(u0 as int, pow62(k as nat) as int, 62);
                assert(pow62(k as nat) * 62 == 62 * pow62(k as nat));
                assert(pow62((k + 1) as nat) == 62 * pow62(k as nat));
            }
            u = u / 62;
            k = k + 1;
        }
        let mut bytes: Vec<u8> = Vec::new();
        let mut i: usize = 0;
        while i < 8
            invariant
                i <= 8,
                digits@.len() == 8,
                forall|j: int|
                    0 <= j < 8 ==> digits@[j] == (u0 as nat / pow62(j as nat)) % 62,
                bytes@.len() == i,
                forall|j: int| 0 <= j < i ==> bytes@[j] < 128,
                forall|j: int|
                    0 <= j < i ==> (bytes@[j] as char) == digit_char(
                        (u0 as nat / pow62((7 - j) as nat)) % 62,
                    ),
            decreases 8 - i,
        {
            let d = digits[7 - i];
            let b: u8 = if d < 10 {
                (48 + d) as u8
            } else if d < 36 {
                (55 + d) as u8
            } else {
                (61 + d) as u8
            };
            bytes.push(b);
            i = i + 1;
        }
        let r = string_from_ascii(bytes);
        proof {
            lemma_encode_digits_len(u0 as nat, 8);
            assert forall|j: int| 0 <= j < 8 implies r@[j] == encode_digits(u0 as nat, 8)[j] by {
                lemma_encode_digits_index(u0 as nat, 8, j);
            }
            assert(r@ =~= encode_digits(u0 as nat, 8));
            lemma_encode_digits_all_digits(u0 as nat, 8);
            lemma_val_of_encode(u0 as nat, 8);
            lemma_pow62_8();
            lemma_small_mod(u0 as nat, pow62(8));
        }
        r
    }

    /// Read an identifier back from its textual form.
    ///
    /// Exactly eight characters are required; every character must be a
    /// base-62 digit; and the denoted value must lie in `[62^7, 62^8)`.
    pub fn parse(s: &str) -> (r: Result<EntityId, GenericIdError>)
        ensures
            s@.len() != 8 ==> r == Err::<EntityId, GenericIdError>(
                GenericIdError::WrongLength(s@.len() as usize),
            ),
            s@.len() == 8 && !all_digits(s@) ==> r == Err::<EntityId, GenericIdError>(
                GenericIdError::Decode,
            ),
            s@.len() == 8 && all_digits(s@) && !(ID_MIN <= val_of(s@) < ID_LIMIT) ==> r
                == Err::<EntityId, GenericIdError>(GenericIdError::OutOfBounds),
            s@.len() == 8 && all_digits(s@) && ID_MIN <= val_of(s@) < ID_LIMIT ==> (r matches Ok(
                id,
            ) && id.spec_raw() == val_of(s@) && id.valid()),
    {
        let n = s.unicode_len();
        if n != 8 {
            return Err(GenericIdError::WrongLength(n));
        }
        let mut acc: u64 = 0;
        let mut i: usize = 0;
        proof {
            assert(s@.take(0) =~= Seq::<char>::empty());
        }
        while i < 8
            invariant
                i <= 8,
                s@.len() == 8,
                all_digits(s@.take(i as int)),
                acc == val_of(s@.take(i as int)),
                acc < pow62(i as nat),
            decreases 8 - i,
        {
            let c = s.get_char(i);
            let v = c as u32;
            let d: u64 = if 48 <= v && v <= 57 {
                (v - 48) as u64
            } else if 65 <= v && v <= 90 {
                (v - 55) as u64
            } else if 97 <= v && v <= 122 {
                (v - 61) as u64
            } else {
                return Err(GenericIdError::Decode);
            };
            proof {
                assert(d == digit_val(c));
                lemma_pow62_mono((i + 1) as nat, 8);
                lemma_pow62_8();
                assert(s@.take(i + 1).drop_last() =~= s@.take(i as int));
                assert(s@.take(i + 1).last() == s@[i as int]);
            }
            acc = acc * 62 + d;
            i = i + 1;
        }
        proof {
            assert(s@.take(8) =~= s@);
        }
        if acc < ID_MIN {
            proof {
                assert(!(ID_MIN <= val_of(s@) < ID_LIMIT));
            }
            Err(GenericIdError::OutOfBounds)
        } else {
            proof {
                lemma_pow62_8();
            }
            Ok(EntityId(acc))
        }
    }
}

/// Relies on `String::from_utf8`: bytes below 128 are valid UTF-8 and decode
/// to the characters with the same code points.
#[verifier::external_body]
pub(crate) fn string_from_ascii(bytes: Vec<u8>) -> (r: String)
    requires
        forall|i: int| 0 <= i < bytes@.len() ==> bytes@[i] < 128,
    ensures
        r@ == bytes@.map_values(|b: u8| b as char),
{
    String::from_utf8(bytes).unwrap_or_default()
}

/// The identifier with this raw value, for specifications.
pub open spec fn eid_of(raw: u64) -> EntityId {
    choose|id: EntityId| id.spec_raw() == raw
}

/// `eid_of` denotes: some identifier holds each raw value, and the raw value
/// determines the identifier.
pub proof fn lemma_eid_of(raw: u64)
    ensures
        eid_of(raw).spec_raw() == raw,
{
    assert(EntityId(raw).spec_raw() == raw);
}

pub proof fn lemma_eid_unique(a: EntityId, b: EntityId)
    requires
        a.spec_raw() == b.spec_raw(),
    ensures
        a == b,
{
}

/// Round trip: rendering any in-range value and reading it back restores the
/// value, so distinct identifiers render distinctly.
pub proof fn lemma_entity_id_round_trip(u: u64)
    requires
        ID_MIN <= u < ID_LIMIT,
    ensures
        encode_digits(u as nat, 8).len() == 8,
        all_digits(encode_digits(u as nat, 8)),
        val_of(encode_digits(u as nat, 8)) == u,
{
    lemma_encode_digits_len(u as nat, 8);
    lemma_encode_digits_all_digits(u as nat, 8);
    lemma_val_of_encode(u as nat, 8);
    lemma_pow62_8();
    lemma_small_mod(u as nat, pow62(8));
}

} // verus!
