use sevensegment::animations::{
    Animation, BreathingIterator, SpinIterator, StartupPercentageIterator, WaveIterator,
};
use sevensegment::grid::Grid;

fn count_lit(g: &Grid) -> usize {
    let mut n = 0;
    for x in 0..8 {
        for y in 0..9 {
            if g.0[x][y] == 0xFF {
                n += 1;
            }
        }
    }
    n
}

#[test]
fn percentage_yields_72_frames_with_matching_lit_counts() {
    let mut it = StartupPercentageIterator::default();
    for k in 1..=72usize {
        let frame = it.next().expect("frame expected");
        assert_eq!(count_lit(&frame), k);
    }
    assert!(it.next().is_none());
    assert!(it.next().is_none());
}

#[test]
fn percentage_fills_in_row_major_order() {
    let mut it = StartupPercentageIterator::default();
    let first = it.next().unwrap();
    assert_eq!(first.0[0][0], 0xFF);
    assert_eq!(first.0[1][0], 0x00);
    assert_eq!(first.0[0][1], 0x00);
    let second = it.next().unwrap();
    assert_eq!(second.0[0][0], 0xFF);
    assert_eq!(second.0[1][0], 0xFF);
    assert_eq!(second.0[2][0], 0x00);
}

#[test]
fn breathing_ramps_by_four() {
    let mut it = BreathingIterator::new(3);
    let f1 = it.next().unwrap();
    assert_eq!(f1.0[0][0], 4);
    assert_eq!(f1.0[7][8], 4);
    let f2 = it.next().unwrap();
    assert_eq!(f2.0[3][5], 8);
    let f3 = it.next().unwrap();
    assert_eq!(f3.0[0][0], 12);
    assert!(it.next().is_none());
    assert!(it.next().is_none());
}

#[test]
fn breathing_default_is_64_frames() {
    let mut it = BreathingIterator::default();
    let mut frames = 0;
    while it.next().is_some() {
        frames += 1;
    }
    assert_eq!(frames, 64);
}

#[test]
fn breathing_wraps_modulo_255() {
    let mut it = BreathingIterator {
        frames_remaining: 2,
        current_brightness: 252,
    };
    let f1 = it.next().unwrap();
    assert_eq!(f1.0[0][0], 1);
    let f2 = it.next().unwrap();
    assert_eq!(f2.0[0][0], 5);
}

#[test]
fn spin_yields_128_frames() {
    let mut it = SpinIterator::default();
    let mut frames = 0;
    while it.next().is_some() {
        frames += 1;
    }
    assert_eq!(frames, 128);
    assert!(it.next().is_none());
}

#[test]
fn spin_scales_progress_into_brightness() {
    let mut it = SpinIterator::default();
    let first = it.next().unwrap();
    // progress = 6 * 1 / 128 = 0: the selected column (1 % 6) is dark too.
    for x in 0..8 {
        for y in 0..9 {
            assert_eq!(first.0[x][y], 0);
        }
    }
    let mut last = first;
    while let Some(f) = it.next() {
        last = f;
    }
    // final frame 128: progress 6, column 128 % 6 == 2 at brightness 252.
    for y in 0..9 {
        assert_eq!(last.0[2][y], 252);
        assert_eq!(last.0[0][y], 0);
    }
}

#[test]
fn wave_matches_its_formula() {
    let mut it = WaveIterator::new(1);
    let f = it.next().unwrap();
    for x in 0..8usize {
        for y in 0..9usize {
            let expected = (3 * ((x + 8 * y + 1) % 72)) as u8;
            assert_eq!(f.0[x][y], expected);
        }
    }
    assert!(it.next().is_none());
}

#[test]
fn wave_never_exceeds_252() {
    let mut it = WaveIterator::default();
    while let Some(f) = it.next() {
        for x in 0..8 {
            for y in 0..9 {
                assert!(f.0[x][y] <= 252);
            }
        }
    }
}

#[test]
fn wave_yields_its_configured_frame_count() {
    let mut it = WaveIterator::new(5);
    let mut frames = 0;
    while it.next().is_some() {
        frames += 1;
    }
    assert_eq!(frames, 5);
    assert!(it.next().is_none());
}

#[test]
fn animation_dispatches_to_its_variant() {
    let mut direct = StartupPercentageIterator::default();
    let expected = direct.next().unwrap();
    let mut anim = Animation::Percentage(StartupPercentageIterator::default());
    let got = anim.next().expect("frame expected");
    for x in 0..8 {
        assert_eq!(got.0[x], expected.0[x]);
    }

    let mut anim = Animation::Breathing(BreathingIterator::new(1));
    let got = anim.next().unwrap();
    assert_eq!(got.0[0][0], 4);
    assert!(anim.next().is_none());

    let mut anim = Animation::Spin(SpinIterator::default());
    assert!(anim.next().is_some());

    let mut anim = Animation::Wave(WaveIterator::new(1));
    assert!(anim.next().is_some());
    assert!(anim.next().is_none());
}
