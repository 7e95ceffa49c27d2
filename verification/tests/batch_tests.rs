use std::io::Cursor;
use wav_tempo::batch::{is_wav_path, mirror_path, plan_batch, process_batch};
use wav_tempo::pipeline::PipelineError;
use wav_tempo::sample::Norm;
use wav_tempo::stretch::Stretcher;
use wav_tempo::tempo::Tempo;

/// A stretcher that returns a buffer of exactly the ideal scaled length.
struct TruncStretcher;

impl Stretcher for TruncStretcher {
    fn stretch(&mut self, samples: &Vec<Norm>, _sample_rate: u32, tempo: Tempo) -> Vec<Norm> {
        let target = (samples.len() as u128) * (tempo.den as u128) / (tempo.num as u128);
        vec![0 as Norm; target as usize]
    }
}

#[test]
fn test_is_wav_path_matches_the_extension_exactly() {
    assert!(is_wav_path(&b"a.wav".to_vec()));
    assert!(is_wav_path(&b"root/sub/tone.wav".to_vec()));
    assert!(is_wav_path(&b"noise..wav".to_vec()));
    // Case-matched only: .WAV is not a match.
    assert!(!is_wav_path(&b"a.WAV".to_vec()));
    assert!(!is_wav_path(&b"wav".to_vec()));
    assert!(!is_wav_path(&b"awav".to_vec()));
    assert!(!is_wav_path(&b"a.wave".to_vec()));
    // A hidden file named exactly ".wav" has no extension.
    assert!(!is_wav_path(&b".wav".to_vec()));
    assert!(!is_wav_path(&b"dir/.wav".to_vec()));
}

#[test]
fn test_mirror_path_mirrors_the_relative_part() {
    let out = mirror_path(&b"root".to_vec(), &b"outroot".to_vec(), &b"root/sub/a.wav".to_vec());
    assert_eq!(out, Some(b"outroot/sub/a.wav".to_vec()));

    let out = mirror_path(&b"in".to_vec(), &b"out".to_vec(), &b"in/x.wav".to_vec());
    assert_eq!(out, Some(b"out/x.wav".to_vec()));

    // Not under the input root: nothing to mirror.
    assert_eq!(mirror_path(&b"root".to_vec(), &b"o".to_vec(), &b"other/a.wav".to_vec()), None);
    assert_eq!(mirror_path(&b"root".to_vec(), &b"o".to_vec(), &b"root".to_vec()), None);
    assert_eq!(mirror_path(&b"root".to_vec(), &b"o".to_vec(), &b"rootling/a.wav".to_vec()), None);
}

#[test]
fn test_plan_batch_selects_wav_files_under_the_root() {
    let entries: Vec<Vec<u8>> = vec![
        b"root/sub/a.wav".to_vec(),
        b"root/notes.txt".to_vec(),
        b"elsewhere/c.wav".to_vec(),
        b"root/.wav".to_vec(),
        b"root/d.WAV".to_vec(),
        b"root/deep/down/b.wav".to_vec(),
    ];
    let tasks = plan_batch(&b"root".to_vec(), &b"outroot".to_vec(), &entries);
    assert_eq!(tasks.len(), 2);
    assert_eq!(tasks[0].source, b"root/sub/a.wav".to_vec());
    assert_eq!(tasks[0].destination, b"outroot/sub/a.wav".to_vec());
    assert_eq!(tasks[1].source, b"root/deep/down/b.wav".to_vec());
    assert_eq!(tasks[1].destination, b"outroot/deep/down/b.wav".to_vec());
}

#[test]
fn test_batch_isolation_bad_file_leaves_good_file_intact() {
    let spec = hound::WavSpec {
        channels: 1,
        sample_rate: 16000,
        bits_per_sample: 16,
        sample_format: hound::SampleFormat::Int,
    };
    let mut cursor = Cursor::new(Vec::new());
    {
        let mut writer = hound::WavWriter::new(&mut cursor, spec).unwrap();
        for s in [100i16, -100, 2000, -2000] {
            writer.write_sample(s).unwrap();
        }
        writer.finalize().unwrap();
    }
    let good = cursor.into_inner();
    let malformed: Vec<u8> = vec![0x52, 0x49, 0x46, 0x46, 0x00, 0x00];

    let files: Vec<Vec<u8>> = vec![good, malformed];
    let mut engine = TruncStretcher;
    let tempo = Tempo::new(1_000_000, 1_000_000).unwrap();
    let results = process_batch(&mut engine, &files, tempo);

    assert_eq!(results.len(), 2);
    let out = results[0].as_ref().expect("the well-formed file must convert");
    let mut reader = hound::WavReader::new(Cursor::new(out.as_slice())).unwrap();
    assert_eq!(reader.spec(), spec);
    let decoded: Vec<i16> = reader.samples::<i16>().map(|s| s.unwrap()).collect();
    assert_eq!(decoded, vec![99, -99, 1999, -1999]);
    assert!(results[1].is_err());
    assert_eq!(results[1], Err(PipelineError::IoError));
}
