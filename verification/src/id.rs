//! Identifiers of the global scope.
//!
//! An identifier is an integer between 1 and 2^53, both included. Peers draw
//! them at random and independently of each other, so every value of the
//! range has to be as likely as any other.

use vstd::prelude::*;
use vstd::string::StringExecFns;
use crate::entropy::random_u64;

verus! {

/// The largest identifier, 2^53.
pub const MAX_ID: u64 = 0x20_0000_0000_0000;

/// How many 64-bit values are mapped to each identifier, 2^11.
pub const DRAWS_PER_ID: u64 = 0x800;

/// The identifier that 64 random bits stand for: the low 53 bits, which
/// range over 0 to 2^53 - 1, shifted up by one.
pub open spec fn id_of_bits(bits: u64) -> int {
    bits as int % MAX_ID as int + 1
}

/// The ten digits, each at the position of its value.
pub open spec fn digits() -> Seq<char> {
    seq!['0', '1', '2', '3', '4', '5', '6', '7', '8', '9']
}

/// The decimal numeral of `n`: no sign, no leading zero, `0` for zero.
pub open spec fn decimal(n: nat) -> Seq<char>
    decreases n,
{
    if n < 10 {
        seq![digits()[n as int]]
    } else {
        decimal(n / 10).push(digits()[(n % 10) as int])
    }
}

/// id: an integer ID as defined in IDs.
#[derive(Debug, Clone, Copy, Hash, PartialEq, Eq, Structural)]
pub struct WampId(u64);

impl View for WampId {
    type V = int;

    closed spec fn view(&self) -> int {
        self.0 as int
    }
}

impl WampId {
    #[verifier::type_invariant]
    closed spec fn in_range(self) -> bool {
        1 <= self.0 <= MAX_ID
    }

    /// The identifier with the given value, if there is one: the value must
    /// lie between 1 and 2^53.
    pub fn new(value: u64) -> (id: Option<WampId>)
        ensures
            id is Some <==> 1 <= value <= MAX_ID,
            id matches Some(i) ==> i@ == value,
    {
        if 1 <= value && value <= MAX_ID {
            Some(WampId(value))
        } else {
            None
        }
    }

    /// The identifier that the given random bits stand for. Every 64-bit
    /// value gives an identifier, and every identifier comes from the same
    /// number of 64-bit values (see [`lemma_draws_of_id`]).
    pub fn from_random(bits: u64) -> (id: WampId)
        ensures
            id@ == id_of_bits(bits),
            1 <= id@ <= MAX_ID,
    {
        let low: u64 = bits & 0x1f_ffff_ffff_ffff;
        assert(low == bits % 0x20_0000_0000_0000 && low <= 0x1f_ffff_ffff_ffff) by (bit_vector)
            requires
                low == bits & 0x1f_ffff_ffff_ffff,
        ;
        WampId(low + 1)
    }

    /// IDs in the global scope MUST be drawn randomly from a uniform
    /// distribution over the complete range [1, 2^53].
    pub fn generate() -> (id: WampId)
        ensures
            1 <= id@ <= MAX_ID,
    {
        WampId::from_random(random_u64())
    }

    /// The value of the identifier. It is never zero.
    pub fn value(&self) -> (value: u64)
        ensures
            value == self@,
            1 <= value <= MAX_ID,
    {
        proof {
            use_type_invariant(self);
        }
        self.0
    }

    /// The identifier as text: the decimal numeral of its value.
    pub fn to_string(&self) -> (text: String)
        ensures
            text@ == decimal(self@ as nat),
    {
        // The digits behind the first, the last of them first.
        let mut low_digits: Vec<u8> = Vec::new();
        let mut rest: u64 = self.0;
        while rest >= 10
            invariant
                decimal(self.0 as nat) == decimal(rest as nat) + numeral_of_reversed(low_digits@),
                forall|i: int| 0 <= i < low_digits.len() ==> low_digits[i] < 10,
            decreases rest,
        {
            let digit: u8 = (rest % 10) as u8;
            proof {
                let before = low_digits@;
                let after = before.push(digit);
                assert(after.drop_last() == before);
                assert(decimal(rest as nat) == decimal((rest / 10) as nat).push(
                    digits()[digit as int],
                ));
                assert(decimal((rest / 10) as nat) + numeral_of_reversed(after) == decimal(
                    rest as nat,
                ) + numeral_of_reversed(before));
            }
            low_digits.push(digit);
            rest = rest / 10;
        }
        let mut text = String::from_str(digit_str(rest as u8));
        let mut left: usize = low_digits.len();
        assert(text@ == decimal(rest as nat));
        assert(low_digits@.take(left as int) == low_digits@);
        while left > 0
            invariant
                left <= low_digits.len(),
                forall|i: int| 0 <= i < low_digits.len() ==> low_digits[i] < 10,
                text@ + numeral_of_reversed(low_digits@.take(left as int)) == decimal(
                    rest as nat,
                ) + numeral_of_reversed(low_digits@),
            decreases left,
        {
            proof {
                let shown = low_digits@.take(left as int);
                assert(shown.drop_last() == low_digits@.take(left - 1));
                assert(text@ + numeral_of_reversed(shown) == (text@ + seq![
                    digits()[shown.last() as int],
                ]) + numeral_of_reversed(shown.drop_last()));
            }
            left = left - 1;
            text.append(digit_str(low_digits[left]));
        }
        assert(low_digits@.take(0) == Seq::<u8>::empty());
        assert(text@ + numeral_of_reversed(Seq::<u8>::empty()) == text@);
        text
    }
}

/// The digits of `reversed` as characters, the last of them first.
spec fn numeral_of_reversed(reversed: Seq<u8>) -> Seq<char>
    decreases reversed.len(),
{
    if reversed.len() == 0 {
        Seq::empty()
    } else {
        seq![digits()[reversed.last() as int]] + numeral_of_reversed(reversed.drop_last())
    }
}

/// The one-character string of a digit.
fn digit_str(digit: u8) -> (text: &'static str)
    requires
        digit < 10,
    ensures
        text@ == seq![digits()[digit as int]],
{
    proof {
        reveal_strlit("0");
        reveal_strlit("1");
        reveal_strlit("2");
        reveal_strlit("3");
        reveal_strlit("4");
        reveal_strlit("5");
        reveal_strlit("6");
        reveal_strlit("7");
        reveal_strlit("8");
        reveal_strlit("9");
    }
    let text = match digit {
        0 => "0",
        1 => "1",
        2 => "2",
        3 => "3",
        4 => "4",
        5 => "5",
        6 => "6",
        7 => "7",
        8 => "8",
        _ => "9",
    };
    assert(text@ =~= seq![digits()[digit as int]]);
    text
}

/// The 64-bit values that stand for an identifier `id` are `id - 1` plus a
/// multiple of 2^53, and there are 2^11 of them, whatever `id` is: `draw`
/// numbers them. So bits drawn uniformly give identifiers drawn uniformly.
pub proof fn lemma_draws_of_id(id: int, draw: int)
    requires
        1 <= id <= MAX_ID,
        0 <= draw < DRAWS_PER_ID,
    ensures
        0 <= id - 1 + draw * MAX_ID <= u64::MAX,
        id_of_bits((id - 1 + draw * MAX_ID) as u64) == id,
{
    let bits = id - 1 + draw * MAX_ID;
    assert(0 <= bits <= u64::MAX && bits % (MAX_ID as int) == id - 1) by (nonlinear_arith)
        requires
            bits == id - 1 + draw * 0x20_0000_0000_0000,
            MAX_ID == 0x20_0000_0000_0000,
            1 <= id <= 0x20_0000_0000_0000,
            0 <= draw < 0x800,
    ;
}

/// Conversely, every 64-bit value is one of the 2^11 draws of its
/// identifier.
pub proof fn lemma_bits_are_a_draw(bits: u64)
    ensures
        0 <= (bits as int) / (MAX_ID as int) < DRAWS_PER_ID,
        bits == id_of_bits(bits) - 1 + ((bits as int) / (MAX_ID as int)) * MAX_ID,
{
    let b = bits as int;
    assert(0 <= b / 0x20_0000_0000_0000 < 0x800 && b == b % 0x20_0000_0000_0000 + (b
        / 0x20_0000_0000_0000) * 0x20_0000_0000_0000) by (nonlinear_arith)
        requires
            0 <= b <= 0xffff_ffff_ffff_ffff,
    ;
}

} // verus!
