use flite::text::to_c_bytes;
use flite::Voice;
use flite::Wave;

#[test]
fn consistent_parts_yield_a_wave() {
    let w = Wave::from_parts(vec![1, -2, 3, -4, 5, -6], 8000, 6, 1)
        .expect("consistent parts must yield a wave");
    assert_eq!(w.sample_rate(), 8000);
    assert_eq!(w.num_samples(), 6);
    assert_eq!(w.num_channels(), 1);
    assert_eq!(w.samples(), &[1, -2, 3, -4, 5, -6]);
}

#[test]
fn sample_view_length_is_samples_times_channels() {
    let w = Wave::from_parts(vec![0; 12], 16000, 6, 2).expect("consistent parts");
    assert_eq!(w.samples().len(), (w.num_samples() * w.num_channels()) as usize);
    assert_eq!(w.samples().len(), 12);
}

#[test]
fn empty_wave_is_consistent() {
    let w = Wave::from_parts(Vec::new(), 8000, 0, 0).expect("empty buffer matches zero counts");
    assert_eq!(w.samples().len(), 0);
}

#[test]
fn mismatched_buffer_length_yields_no_wave() {
    assert!(Wave::from_parts(vec![1, 2, 3], 8000, 2, 2).is_none());
}

#[test]
fn negative_scalars_yield_no_wave() {
    assert!(Wave::from_parts(Vec::new(), -1, 0, 0).is_none());
    assert!(Wave::from_parts(Vec::new(), 8000, -1, 0).is_none());
    assert!(Wave::from_parts(Vec::new(), 8000, 0, -1).is_none());
}

#[test]
fn speaking_hello_yields_a_mono_wave() {
    // The default voice, the accepted text, and a mono reply of the shape
    // the engine produces for it.
    let voice = Voice::from_handle(0x2000).expect("non-null voice resource");
    let framed = to_c_bytes(&b"hello"[..]).expect("\"hello\" holds no nul byte");
    assert_eq!(framed.last(), Some(&0));
    let w = Wave::from_parts(vec![7; 4000], 8000, 4000, 1).expect("consistent reply");
    assert_eq!(w.num_channels(), 1);
    assert_eq!(w.samples().len(), w.num_samples() as usize);
    drop(voice);
}

#[test]
fn speaking_text_with_nul_yields_no_wave() {
    let voice = Voice::from_handle(0x2000).expect("non-null voice resource");
    let framed = to_c_bytes(&b"he\0llo"[..]);
    assert!(framed.is_err());
    // The rejection happens before any engine call, so no wave exists to
    // inspect.
    drop(voice);
}

#[test]
fn two_syntheses_yield_independent_waves() {
    let voice = Voice::from_handle(0x2000).expect("non-null voice resource");
    let first = Wave::from_parts(vec![1, 2, 3], 8000, 3, 1).expect("consistent reply");
    let second = Wave::from_parts(vec![9, 8], 8000, 2, 1).expect("consistent reply");
    assert_eq!(first.samples(), &[1, 2, 3]);
    assert_eq!(second.samples(), &[9, 8]);
    drop(voice);
    assert_eq!(first.samples(), &[1, 2, 3]);
    assert_eq!(second.samples(), &[9, 8]);
}

#[test]
fn wave_outlives_its_voice() {
    let samples;
    let rate;
    {
        let voice = Voice::from_handle(0x3000).expect("non-null voice resource");
        let w = Wave::from_parts(vec![5, 6, 7, 8], 22050, 2, 2).expect("consistent reply");
        drop(voice);
        samples = w.samples().to_vec();
        rate = w.sample_rate();
        // The wave stays valid after its originating voice is gone.
        assert_eq!(w.samples(), &[5, 6, 7, 8]);
        assert_eq!(w.num_samples(), 2);
        assert_eq!(w.num_channels(), 2);
    }
    assert_eq!(samples, vec![5, 6, 7, 8]);
    assert_eq!(rate, 22050);
}
