use filterbox::control::{Command, CutoffRequest};
use filterbox::session::{ControlOutcome, Phase, SessionError, StreamSession};
use filterbox::spectrum::AnalyzerError;
use filterbox::tuning::{get_max_freq, FilterDesign, FilterError, FilterKind, DEFAULT_MIN_FREQ};

#[test]
fn construction_errors() {
    assert!(matches!(
        StreamSession::new(1000, 4, 8, 0i16),
        Err(SessionError::Filter(FilterError::InvalidFrequency))
    ));
    assert!(matches!(
        StreamSession::new(44100, 16, 8, 0i16),
        Err(SessionError::Analyzer(AnalyzerError::InvalidConfiguration))
    ));
    assert!(matches!(
        StreamSession::new(44100, 0, 0, 0i16),
        Err(SessionError::Analyzer(AnalyzerError::InvalidConfiguration))
    ));
}

#[test]
fn lifecycle_created_playing_finished() {
    let mut s = StreamSession::new(44100, 4, 8, 0i16).unwrap();
    assert_eq!(s.phase(), Phase::Created);
    assert!(!s.is_finished());
    s.start();
    assert_eq!(s.phase(), Phase::Playing);
    s.start();
    assert_eq!(s.phase(), Phase::Playing);
    s.finish();
    assert!(s.is_finished());
    s.start();
    s.finish();
    assert!(s.is_finished());
    assert_eq!(s.phase(), Phase::Finished);
}

#[test]
fn finished_session_ignores_blocks_spectra_and_commands() {
    let mut s = StreamSession::new(44100, 4, 4, 0i16).unwrap();
    s.start();
    assert!(s.ingest(&[1, 2]).is_empty());
    s.finish();
    assert!(s.ingest(&[3, 4, 5, 6, 7]).is_empty());
    assert_eq!(s.analyzer().pending(), &vec![1, 2]);
    assert_eq!(s.publish(vec![9, 9, 9, 9]), Ok(()));
    assert_eq!(s.analyzer().get_spectrum(), &vec![0, 0, 0, 0]);
    let low = s.chain().stage(FilterKind::LowPass);
    assert_eq!(
        s.control(Command::Cutoff(FilterKind::LowPass, CutoffRequest::To(500))),
        ControlOutcome::Ignored
    );
    assert_eq!(s.chain().stage(FilterKind::LowPass), low);
    assert_eq!(s.control(Command::Quit), ControlOutcome::Ignored);
    assert!(s.is_finished());
}

#[test]
fn running_session_routes_blocks_to_the_analyzer() {
    let mut s = StreamSession::new(48000, 2, 2, 0i16).unwrap();
    s.start();
    assert_eq!(s.ingest(&[1, 2, 3]), vec![vec![1, 2]]);
    assert_eq!(s.analyzer().pending(), &vec![3]);
    assert_eq!(s.publish(vec![4, 5]), Ok(()));
    assert_eq!(s.analyzer().get_spectrum(), &vec![4, 5]);
    assert_eq!(s.publish(vec![4]), Err(AnalyzerError::LengthMismatch));
}

#[test]
fn commands_retune_and_quit() {
    let mut s = StreamSession::new(44100, 2, 2, 0i16).unwrap();
    s.start();
    assert_eq!(
        s.control(Command::Cutoff(FilterKind::LowPass, CutoffRequest::To(2000))),
        ControlOutcome::Retuned(FilterKind::LowPass, 2000)
    );
    assert_eq!(
        s.control(Command::Cutoff(FilterKind::LowPass, CutoffRequest::Shift(-500))),
        ControlOutcome::Retuned(FilterKind::LowPass, 1500)
    );
    assert_eq!(
        s.control(Command::Cutoff(FilterKind::HighPass, CutoffRequest::Shift(-500))),
        ControlOutcome::Retuned(FilterKind::HighPass, 10)
    );
    assert_eq!(
        s.control(Command::Cutoff(FilterKind::LowPass, CutoffRequest::Reset)),
        ControlOutcome::Retuned(FilterKind::LowPass, 21050)
    );
    assert_eq!(s.chain().stage(FilterKind::LowPass).cutoff, 21050);
    assert_eq!(s.chain().stage(FilterKind::HighPass).cutoff, 10);
    assert_eq!(s.control(Command::Quit), ControlOutcome::Finished);
    assert!(s.is_finished());
}

#[test]
fn new_session_opens_the_whole_band() {
    let mut s = StreamSession::new(44100, 4, 4, 0.0f32).unwrap();
    assert_eq!(
        s.chain().stage(FilterKind::LowPass),
        FilterDesign { kind: FilterKind::LowPass, cutoff: get_max_freq(44100), sample_rate: 44100 }
    );
    assert_eq!(
        s.chain().stage(FilterKind::HighPass),
        FilterDesign { kind: FilterKind::HighPass, cutoff: DEFAULT_MIN_FREQ, sample_rate: 44100 }
    );
    s.start();
    assert_eq!(
        s.control(Command::Cutoff(FilterKind::HighPass, CutoffRequest::To(5))),
        ControlOutcome::Retuned(FilterKind::HighPass, 10)
    );
    assert_eq!(
        s.control(Command::Cutoff(FilterKind::LowPass, CutoffRequest::To(99999))),
        ControlOutcome::Retuned(FilterKind::LowPass, 21050)
    );
    assert_eq!(s.control(Command::Quit), ControlOutcome::Finished);
}
