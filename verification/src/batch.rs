use crate::pipeline::{process_outcome, process_wav, PipelineError};
use crate::sample::copy_vec;
use crate::stretch::Stretcher;
use crate::tempo::Tempo;
use vstd::prelude::*;

verus! {

/// One discovered input file and where its converted copy belongs.
/// Paths are held as plain bytes with `/` separating components.
pub struct FileTask {
    pub source: Vec<u8>,
    pub destination: Vec<u8>,
}

/// Whether a path names a WAV file: it ends in `.wav`, written exactly
/// in that case, and the dot is not the first byte of the file name.
pub open spec fn is_wav_path_spec(p: Seq<u8>) -> bool {
    p.len() >= 5 && p[p.len() - 4] == 46u8 && p[p.len() - 3] == 119u8 && p[p.len() - 2] == 97u8
        && p[p.len() - 1] == 118u8 && p[p.len() - 5] != 47u8
}

/// Decides whether a path names a WAV file, by its extension alone.
pub fn is_wav_path(p: &Vec<u8>) -> (r: bool)
    ensures
        r == is_wav_path_spec(p@),
{
    let n = p.len();
    n >= 5 && p[n - 4] == 46 && p[n - 3] == 119 && p[n - 2] == 97 && p[n - 1] == 118 && p[n
        - 5] != 47
}

/// The part of `p` below `root`: where `p` is `root`, then `/`, then a
/// non-empty remainder, that remainder; nothing otherwise.
pub open spec fn rel_under(root: Seq<u8>, p: Seq<u8>) -> Option<Seq<u8>> {
    if p.len() > root.len() + 1 && p.subrange(0, root.len() as int) == root && p[
        root.len() as int] == 47u8 {
        Some(p.subrange(root.len() as int + 1, p.len() as int))
    } else {
        None
    }
}

/// Mirrors one discovered path from the input root into the output
/// root: the relative part, subdirectories and file name alike, is
/// kept; only the root is exchanged.
pub fn mirror_path(input_root: &Vec<u8>, output_root: &Vec<u8>, p: &Vec<u8>) -> (r: Option<
    Vec<u8>,
>)
    ensures
        match r {
            Some(out) => rel_under(input_root@, p@) matches Some(rel) && out@ == output_root@
                + seq![47u8] + rel,
            None => rel_under(input_root@, p@) is None,
        },
{
    let rn = input_root.len();
    if p.len() <= rn || p.len() - rn < 2 {
        return None;
    }
    let mut i: usize = 0;
    while i < rn
        invariant
            i <= rn,
            rn <= p.len(),
            rn == input_root@.len(),
            p@.subrange(0, i as int) == input_root@.subrange(0, i as int),
        decreases rn - i,
    {
        if p[i] != input_root[i] {
            proof {
                assert(p@.subrange(0, rn as int)[i as int] != input_root@[i as int]);
            }
            return None;
        }
        proof {
            assert(p@.subrange(0, i + 1) =~= p@.subrange(0, i as int).push(p@[i as int]));
            assert(input_root@.subrange(0, i + 1) =~= input_root@.subrange(0, i as int).push(
                input_root@[i as int],
            ));
        }
        i += 1;
    }
    proof {
        assert(p@.subrange(0, rn as int) =~= input_root@.subrange(0, rn as int));
        assert(input_root@.subrange(0, rn as int) =~= input_root@);
    }
    if p[rn] != 47 {
        return None;
    }
    let mut out = copy_vec(output_root);
    out.push(47);
    let mut j: usize = rn + 1;
    while j < p.len()
        invariant
            rn + 1 <= j <= p.len(),
            out@ == output_root@ + seq![47u8] + p@.subrange(rn + 1, j as int),
        decreases p.len() - j,
    {
        out.push(p[j]);
        proof {
            assert(p@.subrange(rn + 1, j + 1) =~= p@.subrange(rn + 1, j as int).push(
                p@[j as int],
            ));
            assert(output_root@ + seq![47u8] + p@.subrange(rn + 1, j + 1) =~= (output_root@
                + seq![47u8] + p@.subrange(rn + 1, j as int)).push(p@[j as int]));
        }
        j += 1;
    }
    Some(out)
}

/// Stripping the input root from a path that was built by joining it
/// with a separator and a relative part gives back exactly that part:
/// mirroring `root/sub/name.wav` lands on `outroot/sub/name.wav`.
pub proof fn lemma_rel_under_join(root: Seq<u8>, rel: Seq<u8>)
    requires
        rel.len() > 0,
    ensures
        rel_under(root, root + seq![47u8] + rel) == Some(rel),
{
    let p = root + seq![47u8] + rel;
    assert(p.subrange(0, root.len() as int) =~= root);
    assert(p[root.len() as int] == 47u8);
    assert(p.subrange(root.len() as int + 1, p.len() as int) =~= rel);
}

/// The tasks a batch walk yields: every discovered entry that names a
/// WAV file under the input root, paired with its mirrored output path,
/// in discovery order.
pub open spec fn task_specs(
    input_root: Seq<u8>,
    output_root: Seq<u8>,
    entries: Seq<Seq<u8>>,
) -> Seq<(Seq<u8>, Seq<u8>)>
    decreases entries.len(),
{
    if entries.len() == 0 {
        Seq::empty()
    } else {
        let front = task_specs(input_root, output_root, entries.drop_last());
        let e = entries.last();
        if is_wav_path_spec(e) && rel_under(input_root, e) is Some {
            front.push((e, output_root + seq![47u8] + rel_under(input_root, e).unwrap()))
        } else {
            front
        }
    }
}

/// Selects the WAV files among the discovered entries and pairs each
/// with its mirrored output path, in discovery order.
pub fn plan_batch(input_root: &Vec<u8>, output_root: &Vec<u8>, entries: &Vec<Vec<u8>>) -> (r:
    Vec<FileTask>)
    ensures
        ({
            let plan = task_specs(input_root@, output_root@, entries.deep_view());
            &&& r@.len() == plan.len()
            &&& forall|i: int|
                0 <= i < plan.len() ==> (#[trigger] r@[i]).source@ == plan[i].0
                    && r@[i].destination@ == plan[i].1
        }),
{
    let ghost all = entries.deep_view();
    let mut r: Vec<FileTask> = Vec::new();
    let mut i: usize = 0;
    while i < entries.len()
        invariant
            i <= entries.len(),
            all == entries.deep_view(),
            all.len() == entries@.len(),
            forall|k: int| 0 <= k < all.len() ==> all[k] == entries@[k]@,
            ({
                let plan = task_specs(input_root@, output_root@, all.take(i as int));
                &&& r@.len() == plan.len()
                &&& forall|k: int|
                    0 <= k < plan.len() ==> (#[trigger] r@[k]).source@ == plan[k].0
                        && r@[k].destination@ == plan[k].1
            }),
        decreases entries.len() - i,
    {
        let entry = &entries[i];
        proof {
            assert(all.take(i + 1).drop_last() =~= all.take(i as int));
            assert(all.take(i + 1).last() == entry@);
        }
        if is_wav_path(entry) {
            if let Some(dest) = mirror_path(input_root, output_root, entry) {
                let task = FileTask { source: copy_vec(entry), destination: dest };
                r.push(task);
            }
        }
        i += 1;
    }
    proof {
        assert(all.take(entries@.len() as int) =~= all);
    }
    r
}

/// Processes a sequence of already-read files independently, one result
/// per file and in order. Each outcome is a function of that file's own
/// bytes and the tempo alone, so one malformed file cannot disturb, and
/// cannot be disturbed by, any other file in the batch.
pub fn process_batch<S: Stretcher>(engine: &mut S, inputs: &Vec<Vec<u8>>, tempo: Tempo) -> (r:
    Vec<Result<Vec<u8>, PipelineError>>)
    requires
        tempo.wf(),
    ensures
        r@.len() == inputs@.len(),
        forall|i: int|
            0 <= i < inputs@.len() ==> process_outcome(inputs@[i]@, tempo, #[trigger] r@[i]),
{
    let mut r: Vec<Result<Vec<u8>, PipelineError>> = Vec::new();
    let mut i: usize = 0;
    while i < inputs.len()
        invariant
            i <= inputs.len(),
            tempo.wf(),
            r@.len() == i,
            forall|k: int|
                0 <= k < i ==> process_outcome(inputs@[k]@, tempo, #[trigger] r@[k]),
        decreases inputs.len() - i,
    {
        let outcome = process_wav(engine, &inputs[i], tempo);
        r.push(outcome);
        i += 1;
    }
    r
}

} // verus!
