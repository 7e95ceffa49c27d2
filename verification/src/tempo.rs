use vstd::prelude::*;

verus! {

/// A tempo multiplier as an exact positive rational `num / den`. A ratio
/// above one speeds playback up and shortens the output; below one slows
/// it down and lengthens the output; `num == den` leaves it unchanged.
#[derive(Clone, Copy, PartialEq, Eq, Structural, Debug)]
pub struct Tempo {
    pub num: u32,
    pub den: u32,
}

impl Tempo {
    /// A tempo is well formed when both parts are positive.
    pub open spec fn wf(self) -> bool {
        self.num > 0 && self.den > 0
    }

    /// The identity tempo: playback speed is unchanged.
    pub open spec fn is_identity(self) -> bool {
        self.num == self.den
    }

    /// Builds a tempo ratio; a zero numerator or denominator (a
    /// non-positive tempo) is rejected.
    pub fn new(num: u32, den: u32) -> (r: Option<Tempo>)
        ensures
            r is Some <==> num > 0 && den > 0,
            r matches Some(t) ==> t == (Tempo { num, den }) && t.wf(),
    {
        if num > 0 && den > 0 {
            Some(Tempo { num, den })
        } else {
            None
        }
    }

    /// Decides whether this ratio is exactly one.
    pub fn is_one(&self) -> (r: bool)
        ensures
            r == self.is_identity(),
    {
        self.num == self.den
    }
}

/// The ideal stretched length: the input length scaled by the inverse
/// tempo, `len * den / num`, rounded down.
pub open spec fn target_len(input_len: int, tempo: Tempo) -> int {
    input_len * tempo.den / (tempo.num as int)
}

} // verus!
