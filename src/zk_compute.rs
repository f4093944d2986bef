use vstd::prelude::*;

verus! {

/// A secret 8-bit value as the computation engine sees it: a contribution
/// on the way in, the flip bit on the way out.
#[derive(Clone, Copy, Debug, PartialEq, Eq)]
pub struct RandomnessInput {
    /// Coin flip result.
    pub result: i8,
}

/// What one contribution adds to the sum: its low three bits, less two when
/// they are at least two.
pub open spec fn reduced(value: i8) -> int {
    let low = (value & 7i8) as int;
    if low >= 2 {
        low - 2
    } else {
        low
    }
}

/// The sum of the reduced contributions.
pub open spec fn contribution_sum(s: Seq<i8>) -> int
    decreases s.len(),
{
    if s.len() == 0 {
        0
    } else {
        contribution_sum(s.drop_last()) + reduced(s.last())
    }
}

/// The values of a sequence of contributions.
pub open spec fn contribution_values(s: Seq<RandomnessInput>) -> Seq<i8> {
    s.map_values(|c: RandomnessInput| c.result)
}

/// The flip bit that a sequence of contributions yields: the parity of their
/// reduced sum.
pub open spec fn flip_bit(s: Seq<i8>) -> i8 {
    (contribution_sum(s) % 2) as i8
}

/// Reduces one contribution to a value in 0..=5 with the same parity.
fn reduce_contribution(value: i8) -> (r: i8)
    ensures
        r == reduced(value),
        0 <= r <= 5,
{
    let low = value & 7i8;
    assert(0 <= value & 7i8 <= 7) by (bit_vector);
    if low >= 2 {
        low - 2
    } else {
        low
    }
}

/// Combines the contributions into one coin flip bit: the sum of the reduced
/// contributions, in wrapping 8-bit arithmetic, masked to its lowest bit.
pub fn compute_coin_flip(contributions: &Vec<RandomnessInput>) -> (r: RandomnessInput)
    ensures
        r.result == flip_bit(contribution_values(contributions@)),
        r.result == 0 || r.result == 1,
{
    let ghost values = contribution_values(contributions@);
    let mut flip = RandomnessInput { result: 0i8 };
    let mut i: usize = 0;
    while i < contributions.len()
        invariant
            0 <= i <= contributions@.len(),
            values == contribution_values(contributions@),
            (flip.result as int) % 2 == contribution_sum(values.take(i as int)) % 2,
        decreases contributions@.len() - i,
    {
        let result_reduced = reduce_contribution(contributions[i].result);
        proof {
            assert(values.take(i + 1).drop_last() =~= values.take(i as int));
            assert(values.take(i + 1).last() == contributions@[i as int].result);
        }
        flip.result = flip.result.wrapping_add(result_reduced);
        i = i + 1;
    }
    assert(values.take(i as int) =~= values);
    let acc = flip.result;
    flip.result = acc & 1i8;
    assert(acc & 1i8 == (if acc % 2 == 0 { 0i8 } else { 1i8 })) by (bit_vector);
    flip
}

/// Reads the disclosed flip bit: any value other than zero is true.
pub fn parse_compute_output(output: RandomnessInput) -> (r: bool)
    ensures
        r == (output.result != 0),
{
    output.result != 0
}

} // verus!
