use audio_spectrum::mode::{ModeSelector, VisualizationMode, NUM_MODES};

#[test]
fn selector_starts_at_standard() {
    assert_eq!(ModeSelector::new().active_mode(), VisualizationMode::Standard);
}

#[test]
fn five_forward_steps_return_to_standard() {
    let mut s = ModeSelector::new();
    let expected = [
        VisualizationMode::Pixel,
        VisualizationMode::Waveform,
        VisualizationMode::Starburst,
        VisualizationMode::RadialBars,
        VisualizationMode::Standard,
    ];
    for m in expected {
        s.cycle_forward();
        assert_eq!(s.active_mode(), m);
    }
}

#[test]
fn forward_then_backward_is_identity() {
    for i in 0..NUM_MODES {
        let mut s = ModeSelector::new();
        for _ in 0..i {
            s.cycle_forward();
        }
        let start = s.active_mode();
        s.cycle_forward();
        s.cycle_backward();
        assert_eq!(s.active_mode(), start);
        s.cycle_backward();
        s.cycle_forward();
        assert_eq!(s.active_mode(), start);
    }
}

#[test]
fn backward_from_standard_wraps_to_last() {
    let mut s = ModeSelector::new();
    s.cycle_backward();
    assert_eq!(s.active_mode(), VisualizationMode::RadialBars);
}

#[test]
fn usize_conversions_round_trip() {
    for i in 0..NUM_MODES {
        assert_eq!(VisualizationMode::from_usize(i).as_usize(), i);
    }
    assert_eq!(VisualizationMode::from_usize(7), VisualizationMode::Waveform);
    assert_eq!(VisualizationMode::from_usize(usize::MAX).as_usize(), usize::MAX % NUM_MODES);
    assert_eq!(VisualizationMode::Starburst.next(), VisualizationMode::RadialBars);
    assert_eq!(VisualizationMode::Pixel.prev(), VisualizationMode::Standard);
}
