use filterbox::spectrum::{AnalyzerError, SpectrumAnalyzer};
use rustfft::num_complex::Complex;
use rustfft::FftPlanner;

fn power_spectrum(window: &[f32]) -> Vec<f32> {
    let n = window.len();
    let mut buf: Vec<Complex<f32>> = window.iter().map(|x| Complex { re: *x, im: 0.0 }).collect();
    FftPlanner::<f32>::new().plan_fft_forward(n).process(&mut buf);
    buf.iter().map(|c| c.norm_sqr() / n as f32).collect()
}

#[test]
fn rejects_invalid_configuration() {
    assert!(matches!(
        SpectrumAnalyzer::new(2048, 1024, 0.0f32),
        Err(AnalyzerError::InvalidConfiguration)
    ));
    assert!(matches!(
        SpectrumAnalyzer::new(0, 0, 0.0f32),
        Err(AnalyzerError::InvalidConfiguration)
    ));
    assert!(SpectrumAnalyzer::new(0, 1, 0.0f32).is_ok());
    assert!(SpectrumAnalyzer::new(1024, 1024, 0.0f32).is_ok());
}

#[test]
fn starts_with_a_silent_spectrum() {
    let a = SpectrumAnalyzer::new(16, 64, 0.0f32).unwrap();
    assert_eq!(a.bins(), 16);
    assert_eq!(a.buffer_size(), 64);
    assert_eq!(a.get_spectrum().len(), 64);
    assert!(a.get_spectrum().iter().all(|x| *x == 0.0));
    assert!(a.pending().is_empty());
}

#[test]
fn one_full_window_is_handed_out_whole() {
    let mut a = SpectrumAnalyzer::new(4, 4, 0i32).unwrap();
    assert!(a.ingest(&[1, 2, 3]).is_empty());
    assert_eq!(a.pending(), &vec![1, 2, 3]);
    let w = a.ingest(&[4]);
    assert_eq!(w, vec![vec![1, 2, 3, 4]]);
    assert!(a.pending().is_empty());
}

#[test]
fn leftover_samples_start_the_next_window() {
    let mut a = SpectrumAnalyzer::new(3, 3, 0i32).unwrap();
    let w = a.ingest(&[1, 2, 3, 4, 5, 6, 7, 8]);
    assert_eq!(w, vec![vec![1, 2, 3], vec![4, 5, 6]]);
    assert_eq!(a.pending(), &vec![7, 8]);
    let w = a.ingest(&[9]);
    assert_eq!(w, vec![vec![7, 8, 9]]);
    assert!(a.pending().is_empty());
}

#[test]
fn window_count_does_not_depend_on_chunking() {
    let stream: Vec<i32> = (0..103).collect();
    for sizes in [vec![103], vec![1; 103], vec![7, 13, 50, 33], vec![10, 0, 10, 83]] {
        let mut a = SpectrumAnalyzer::new(10, 10, 0i32).unwrap();
        let mut windows: Vec<Vec<i32>> = Vec::new();
        let mut at = 0;
        for s in sizes {
            windows.extend(a.ingest(&stream[at..at + s]));
            at += s;
        }
        assert_eq!(windows.len(), 103 / 10);
        assert!(windows.iter().all(|w| w.len() == 10));
        let mut joined: Vec<i32> = windows.concat();
        joined.extend(a.pending().iter());
        assert_eq!(joined, stream);
        assert_eq!(a.pending().len(), 3);
    }
}

#[test]
fn publish_checks_the_length() {
    let mut a = SpectrumAnalyzer::new(2, 4, 0i32).unwrap();
    assert_eq!(a.publish(vec![1, 2, 3]), Err(AnalyzerError::LengthMismatch));
    assert_eq!(a.get_spectrum(), &vec![0, 0, 0, 0]);
    assert_eq!(a.publish(vec![5, 6, 7, 8]), Ok(()));
    assert_eq!(a.get_spectrum(), &vec![5, 6, 7, 8]);
}

#[test]
fn pure_tone_peaks_at_its_bin() {
    let n = 1024usize;
    let sample_rate = 44100.0f32;
    for k in [1usize, 5, 100, 300, 511] {
        let f = k as f32 * sample_rate / n as f32;
        let tone: Vec<f32> = (0..n)
            .map(|i| (2.0 * std::f32::consts::PI * f * i as f32 / sample_rate).sin())
            .collect();
        let mut a = SpectrumAnalyzer::new(n, n, 0.0f32).unwrap();
        let windows = a.ingest(&tone);
        assert_eq!(windows.len(), 1);
        assert_eq!(windows[0], tone);
        assert!(a.publish(power_spectrum(&windows[0])).is_ok());
        let spectrum = a.get_spectrum();
        assert_eq!(spectrum.len(), n);
        let peak = (0..n)
            .max_by(|i, j| spectrum[*i].partial_cmp(&spectrum[*j]).unwrap())
            .unwrap();
        assert!(peak == k || peak == n - k, "k = {}, peak = {}", k, peak);
    }
}
