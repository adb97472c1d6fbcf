use filterbox::tuning::{
    get_max_freq, FilterChain, FilterDesign, FilterError, FilterKind, DEFAULT_MIN_FREQ,
};

#[test]
fn max_freq_is_nyquist_less_margin() {
    assert_eq!(get_max_freq(44100), 21050);
    assert_eq!(get_max_freq(48000), 23000);
    assert_eq!(get_max_freq(1999), 0);
}

#[test]
fn design_accepts_cutoffs_strictly_inside_the_band() {
    let d = FilterDesign::new(FilterKind::LowPass, 1000, 44100).unwrap();
    assert_eq!(d.kind, FilterKind::LowPass);
    assert_eq!(d.cutoff, 1000);
    assert_eq!(d.sample_rate, 44100);
    assert!(FilterDesign::new(FilterKind::HighPass, 1, 44100).is_ok());
    assert!(FilterDesign::new(FilterKind::HighPass, 22049, 44100).is_ok());
}

#[test]
fn design_rejects_zero_and_nyquist() {
    assert_eq!(
        FilterDesign::new(FilterKind::LowPass, 0, 44100),
        Err(FilterError::InvalidFrequency)
    );
    assert_eq!(
        FilterDesign::new(FilterKind::LowPass, 22050, 44100),
        Err(FilterError::InvalidFrequency)
    );
    assert_eq!(
        FilterDesign::new(FilterKind::HighPass, 30000, 44100),
        Err(FilterError::InvalidFrequency)
    );
}

#[test]
fn retune_twice_equals_retune_once() {
    let mut once = FilterDesign::new(FilterKind::LowPass, 5000, 48000).unwrap();
    let mut twice = once;
    assert!(once.retune(FilterKind::HighPass, 300, 48000).is_ok());
    assert!(twice.retune(FilterKind::HighPass, 300, 48000).is_ok());
    assert!(twice.retune(FilterKind::HighPass, 300, 48000).is_ok());
    assert_eq!(once, twice);
    assert_eq!(once.kind, FilterKind::HighPass);
    assert_eq!(once.cutoff, 300);
}

#[test]
fn invalid_retune_keeps_the_design() {
    let mut d = FilterDesign::new(FilterKind::LowPass, 5000, 48000).unwrap();
    assert_eq!(d.retune(FilterKind::LowPass, 24000, 48000), Err(FilterError::InvalidFrequency));
    assert_eq!(d, FilterDesign { kind: FilterKind::LowPass, cutoff: 5000, sample_rate: 48000 });
}

#[test]
fn chain_starts_open_over_the_band() {
    let c = FilterChain::new(44100).unwrap();
    assert_eq!(c.sample_rate(), 44100);
    assert_eq!(c.min_freq(), DEFAULT_MIN_FREQ);
    assert_eq!(c.max_freq(), 21050);
    assert_eq!(c.stage(FilterKind::LowPass).cutoff, 21050);
    assert_eq!(c.stage(FilterKind::LowPass).kind, FilterKind::LowPass);
    assert_eq!(c.stage(FilterKind::HighPass).cutoff, 10);
    assert_eq!(c.stage(FilterKind::HighPass).kind, FilterKind::HighPass);
}

#[test]
fn chain_needs_a_band_above_the_floor() {
    assert!(matches!(FilterChain::new(2000), Err(FilterError::InvalidFrequency)));
    assert!(matches!(FilterChain::new(2019), Err(FilterError::InvalidFrequency)));
    let c = FilterChain::new(2020).unwrap();
    assert_eq!(c.min_freq(), 10);
    assert_eq!(c.max_freq(), 10);
}

#[test]
fn set_cutoff_clamps_and_touches_one_stage() {
    let mut c = FilterChain::new(44100).unwrap();
    let high_before = c.stage(FilterKind::HighPass);
    assert_eq!(c.set_cutoff(FilterKind::LowPass, 3000), 3000);
    assert_eq!(c.stage(FilterKind::LowPass).cutoff, 3000);
    assert_eq!(c.stage(FilterKind::HighPass), high_before);

    assert_eq!(c.set_cutoff(FilterKind::HighPass, 2), 10);
    assert_eq!(c.set_cutoff(FilterKind::HighPass, -40), 10);
    assert_eq!(c.set_cutoff(FilterKind::HighPass, 100000), 21050);
    assert_eq!(c.stage(FilterKind::HighPass).cutoff, 21050);
    assert_eq!(c.stage(FilterKind::LowPass).cutoff, 3000);
}

#[test]
fn adjust_and_reset_cutoff() {
    let mut c = FilterChain::new(44100).unwrap();
    assert_eq!(c.adjust_cutoff(FilterKind::LowPass, -1050), 20000);
    assert_eq!(c.adjust_cutoff(FilterKind::LowPass, 5000), 21050);
    assert_eq!(c.adjust_cutoff(FilterKind::HighPass, 90), 100);
    assert_eq!(c.adjust_cutoff(FilterKind::HighPass, i64::MIN), 10);
    assert_eq!(c.adjust_cutoff(FilterKind::HighPass, i64::MAX), 21050);
    assert_eq!(c.reset_cutoff(FilterKind::HighPass), 10);
    c.set_cutoff(FilterKind::LowPass, 500);
    assert_eq!(c.reset_cutoff(FilterKind::LowPass), 21050);
    assert_eq!(c.stage(FilterKind::LowPass).cutoff, 21050);
}
