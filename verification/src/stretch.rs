use crate::codec::MAX_SAMPLES;
use crate::sample::{copy_vec, Norm};
use crate::tempo::{target_len, Tempo};
use vstd::arithmetic::div_mod::lemma_fundamental_div_mod;
use vstd::prelude::*;

verus! {

/// How far a stretched buffer's length may sit from the ideal
/// `input_len * den / num`: at most two samples either way, stated
/// without division as `|out_len * num - input_len * den| <= 2 * num`.
pub open spec fn len_close(input_len: int, tempo: Tempo, out_len: int) -> bool {
    -2 * tempo.num <= out_len * tempo.num - input_len * tempo.den <= 2 * tempo.num
}

/// The time-stretch capability the pipeline drives. The transform itself
/// is an outside collaborator supplied by the caller: an implementation
/// resamples a mono buffer so that its duration scales by the inverse
/// tempo while its pitch is kept, and is held here only to its length
/// obligation; nothing is assumed of the samples it produces.
pub trait Stretcher {
    /// Returns the stretched buffer; its length sits within [`len_close`]
    /// of the ideal scaled length.
    fn stretch(&mut self, samples: &Vec<Norm>, sample_rate: u32, tempo: Tempo) -> (out: Vec<
        Norm,
    >)
        requires
            sample_rate > 0,
            tempo.wf(),
            !tempo.is_identity(),
            samples@.len() * tempo.den <= (MAX_SAMPLES - 2) * tempo.num,
        ensures
            len_close(samples@.len() as int, tempo, out@.len() as int),
    ;
}

/// Decides whether a stretched buffer for this input length is sure to
/// fit the encoder's capacity: the ideal scaled length plus the engine's
/// tolerance stays at or under [`MAX_SAMPLES`].
pub fn stretch_fits(input_len: usize, tempo: &Tempo) -> (r: bool)
    requires
        tempo.wf(),
    ensures
        r == (input_len * tempo.den <= (MAX_SAMPLES - 2) * tempo.num),
{
    proof {
        assert((input_len as int) * (tempo.den as int) <= u128::MAX) by (nonlinear_arith)
            requires
                input_len < 0x1_0000_0000_0000_0000,
                tempo.den < 0x1_0000_0000,
        ;
        assert((input_len as u128) * (tempo.den as u128) == (input_len as int) * (
        tempo.den as int)) by (nonlinear_arith)
            requires
                input_len <= u128::MAX,
                tempo.den <= u128::MAX,
                (input_len as int) * (tempo.den as int) <= u128::MAX,
        ;
    }
    (input_len as u128) * (tempo.den as u128) <= (MAX_SAMPLES as u128 - 2) * (tempo.num as u128)
}

/// Stretches a normalized buffer by the inverse tempo. The identity
/// tempo bypasses the engine entirely and returns the buffer unchanged,
/// value for value; any other tempo hands the buffer to the engine, and
/// the result keeps within two samples of the ideal scaled length and
/// within the encoder's capacity.
pub fn stretch_samples<S: Stretcher>(
    engine: &mut S,
    input: &Vec<Norm>,
    sample_rate: u32,
    tempo: Tempo,
) -> (out: Vec<Norm>)
    requires
        sample_rate > 0,
        tempo.wf(),
        !tempo.is_identity() ==> input@.len() * tempo.den <= (MAX_SAMPLES - 2) * tempo.num,
    ensures
        tempo.is_identity() ==> out@ == input@,
        !tempo.is_identity() ==> len_close(input@.len() as int, tempo, out@.len() as int),
        !tempo.is_identity() ==> out@.len() <= MAX_SAMPLES,
{
    if tempo.is_one() {
        copy_vec(input)
    } else {
        let out = engine.stretch(input, sample_rate, tempo);
        proof {
            assert(out@.len() <= MAX_SAMPLES) by (nonlinear_arith)
                requires
                    tempo.num >= 1,
                    out@.len() * tempo.num - input@.len() * tempo.den <= 2 * tempo.num,
                    input@.len() * tempo.den <= (MAX_SAMPLES - 2) * tempo.num,
            ;
        }
        out
    }
}

/// The engine's tolerance, read back through division: an output length
/// within [`len_close`] sits at most two samples from the ideal stretched
/// length `input_len * den / num`, for faster and slower tempos alike.
pub proof fn lemma_len_close_bounds_target(input_len: int, tempo: Tempo, out_len: int)
    requires
        tempo.wf(),
        input_len >= 0,
        out_len >= 0,
        len_close(input_len, tempo, out_len),
    ensures
        target_len(input_len, tempo) - 2 <= out_len <= target_len(input_len, tempo) + 2,
{
    let scaled = input_len * tempo.den;
    let q = scaled / (tempo.num as int);
    let r = scaled % (tempo.num as int);
    lemma_fundamental_div_mod(scaled, tempo.num as int);
    assert(out_len <= q + 2) by (nonlinear_arith)
        requires
            tempo.num >= 1,
            scaled == tempo.num * q + r,
            0 <= r < tempo.num,
            out_len * tempo.num - scaled <= 2 * tempo.num,
    ;
    assert(out_len >= q - 2) by (nonlinear_arith)
        requires
            tempo.num >= 1,
            scaled == tempo.num * q + r,
            0 <= r < tempo.num,
            -2 * tempo.num <= out_len * tempo.num - scaled,
    ;
}

} // verus!
