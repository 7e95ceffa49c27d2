use vstd::arithmetic::div_mod::lemma_fundamental_div_mod_converse_div;
use vstd::prelude::*;

verus! {

/// One normalized audio sample, held in fixed point: the amplitude it
/// stands for is this value divided by 32768, so decoded 16-bit samples
/// keep their numerator exactly and full scale sits at plus or minus
/// 32768. A stretch engine may hand back values beyond full scale;
/// quantization clamps them.
pub type Norm = i64;

/// Normalization of one 16-bit sample: the amplitude `s / 32768`, which
/// the fixed-point scale holds exactly as the numerator `s`.
pub open spec fn normalize_spec(s: i16) -> int {
    s as int
}

/// Quantization of one normalized sample back to 16 bits: the amplitude
/// is scaled by 32767, clamped to the 16-bit range, and rounded toward
/// zero.
pub open spec fn quantize_spec(q: int) -> int {
    if q >= 32768 {
        32767
    } else if q <= -32768 {
        -32768
    } else if q >= 0 {
        q * 32767 / 32768
    } else {
        -((-q) * 32767 / 32768)
    }
}

/// A whole decoded buffer, normalized in order.
pub open spec fn normalize_all(s: Seq<i16>) -> Seq<Norm> {
    s.map_values(|x: i16| x as i64)
}

/// A whole normalized buffer, quantized in order.
pub open spec fn quantize_all(q: Seq<Norm>) -> Seq<i16> {
    q.map_values(|x: i64| quantize_spec(x as int) as i16)
}

/// Maps one decoded sample onto the normalized fixed-point scale.
pub fn normalize(s: i16) -> (r: Norm)
    ensures
        r as int == normalize_spec(s),
{
    s as i64
}

/// Quantizes one normalized sample to 16 bits. Amplitudes at or beyond
/// full scale land exactly on 32767 or -32768: nothing ever wraps.
pub fn quantize(q: Norm) -> (r: i16)
    ensures
        r as int == quantize_spec(q as int),
        q >= 32768 ==> r == 32767i16,
        q <= -32768 ==> r == -32768i16,
{
    if q >= 32768 {
        32767
    } else if q <= -32768 {
        -32768
    } else if q >= 0 {
        let m: u64 = (q as u64) * 32767 / 32768;
        assert((q as u64) * 32767 == q * 32767) by (nonlinear_arith)
            requires 0 <= q < 32768;
        assert(q * 32767 / 32768 < 32768) by (nonlinear_arith)
            requires 0 <= q < 32768;
        m as i16
    } else {
        let p: u64 = (-q) as u64;
        let m: u64 = p * 32767 / 32768;
        assert(p * 32767 == (-(q as int)) * 32767) by (nonlinear_arith)
            requires -32768 < q < 0, p == -(q as int);
        assert((-(q as int)) * 32767 / 32768 < 32768) by (nonlinear_arith)
            requires -32768 < q < 0;
        -(m as i16)
    }
}

/// Quantizing the normalization of any 16-bit sample gives that sample
/// back, or the neighbouring value one step toward zero: the round trip
/// never moves a sample by more than one and never drifts outward.
pub proof fn lemma_round_trip(s: i16)
    ensures
        -1 <= quantize_spec(normalize_spec(s)) - s <= 1,
        s >= 0 ==> s - 1 <= quantize_spec(normalize_spec(s)) <= s,
        s < 0 ==> s <= quantize_spec(normalize_spec(s)) <= s + 1,
{
    if s >= 1 {
        assert(s * 32767 == (s - 1) * 32768 + (32768 - s)) by (nonlinear_arith);
        lemma_fundamental_div_mod_converse_div(s * 32767, 32768, s - 1, 32768 - s);
    } else if s <= -1 && s > -32768 {
        let p = -(s as int);
        assert(p * 32767 == (p - 1) * 32768 + (32768 - p)) by (nonlinear_arith);
        lemma_fundamental_div_mod_converse_div(p * 32767, 32768, p - 1, 32768 - p);
    }
}

/// Any normalized sample at or beyond full scale quantizes to exactly
/// 32767 or -32768, never to a wrapped or overflowed value.
pub proof fn lemma_quantize_clamps(q: int)
    ensures
        q >= 32768 ==> quantize_spec(q) == 32767,
        q <= -32768 ==> quantize_spec(q) == -32768,
{
}

/// Normalizes every sample of a decoded buffer, keeping length and order.
pub fn normalize_buffer(samples: &Vec<i16>) -> (r: Vec<Norm>)
    ensures
        r@ == normalize_all(samples@),
        r@.len() == samples@.len(),
{
    let mut out: Vec<Norm> = Vec::new();
    let mut i: usize = 0;
    while i < samples.len()
        invariant
            i <= samples.len(),
            out@ == normalize_all(samples@.take(i as int)),
        decreases samples.len() - i,
    {
        out.push(normalize(samples[i]));
        proof {
            assert(samples@.take(i + 1) =~= samples@.take(i as int).push(samples@[i as int]));
            assert(normalize_all(samples@.take(i + 1)) =~= normalize_all(
                samples@.take(i as int),
            ).push(samples@[i as int] as i64));
        }
        i += 1;
    }
    proof {
        assert(samples@.take(samples@.len() as int) =~= samples@);
    }
    out
}

/// Quantizes every sample of a normalized buffer, keeping length and order.
pub fn quantize_buffer(buf: &Vec<Norm>) -> (r: Vec<i16>)
    ensures
        r@ == quantize_all(buf@),
        r@.len() == buf@.len(),
{
    let mut out: Vec<i16> = Vec::new();
    let mut i: usize = 0;
    while i < buf.len()
        invariant
            i <= buf.len(),
            out@ == quantize_all(buf@.take(i as int)),
        decreases buf.len() - i,
    {
        out.push(quantize(buf[i]));
        proof {
            assert(buf@.take(i + 1) =~= buf@.take(i as int).push(buf@[i as int]));
            assert(quantize_all(buf@.take(i + 1)) =~= quantize_all(buf@.take(i as int)).push(
                quantize_spec(buf@[i as int] as int) as i16,
            ));
        }
        i += 1;
    }
    proof {
        assert(buf@.take(buf@.len() as int) =~= buf@);
    }
    out
}

/// Copies a buffer of plain values, element for element.
pub fn copy_vec<T: Copy>(v: &Vec<T>) -> (r: Vec<T>)
    ensures
        r@ == v@,
{
    let mut out: Vec<T> = Vec::new();
    let mut i: usize = 0;
    while i < v.len()
        invariant
            i <= v.len(),
            out@ == v@.take(i as int),
        decreases v.len() - i,
    {
        out.push(v[i]);
        proof {
            assert(v@.take(i + 1) =~= v@.take(i as int).push(v@[i as int]));
        }
        i += 1;
    }
    proof {
        assert(v@.take(v@.len() as int) =~= v@);
    }
    out
}

} // verus!
