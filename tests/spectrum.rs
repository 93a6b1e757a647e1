use audio_spectrum::spectrum::accepts_length;

#[test]
fn powers_of_two_are_accepted() {
    let mut n: usize = 1;
    while n <= 8192 {
        assert!(accepts_length(n), "{}", n);
        n *= 2;
    }
    assert!(accepts_length(1usize << 63));
}

#[test]
fn other_lengths_are_refused() {
    for n in [0usize, 3, 5, 6, 7, 12, 8191, 8193, usize::MAX] {
        assert!(!accepts_length(n), "{}", n);
    }
}
