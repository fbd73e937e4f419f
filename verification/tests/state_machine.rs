use sevensegment::command::{Color, Pattern, SevenSegmentSubcommand};
use sevensegment::grid::{Grid, HEIGHT, LEDS, WIDTH};
use sevensegment::state::{PwmFreq, Rgb, SevenSegmentState, SleepReason, SleepState};

fn grids_equal(a: &Grid, b: &Grid) -> bool {
    (0..8).all(|x| a.0[x] == b.0[x])
}

#[test]
fn grid_dimensions() {
    assert_eq!(WIDTH, 8);
    assert_eq!(HEIGHT, 9);
    assert_eq!(LEDS, WIDTH * HEIGHT);
}

#[test]
fn grid_default_is_dark() {
    let g = Grid::default();
    for x in 0..8 {
        for y in 0..9 {
            assert_eq!(g.0[x][y], 0);
        }
    }
}

#[test]
fn rotate_moves_rows_down_circularly() {
    let mut g = Grid::default();
    g.0[0][0] = 99;
    g.0[0][8] = 77;
    g.rotate(1);
    assert_eq!(g.0[0][1], 99);
    assert_eq!(g.0[0][0], 77);
}

#[test]
fn rotate_round_trip_restores_the_grid() {
    let mut original = Grid::default();
    for x in 0..8 {
        for y in 0..9 {
            original.0[x][y] = (x * 16 + y) as u8;
        }
    }
    for n in 0..9 {
        let mut g = original;
        g.rotate(n);
        g.rotate(9 - n);
        assert!(grids_equal(&g, &original), "rotation count {n}");
    }
}

#[test]
fn rotate_by_height_is_identity() {
    let mut original = Grid::default();
    for x in 0..8 {
        for y in 0..9 {
            original.0[x][y] = (7 * x + 3 * y) as u8;
        }
    }
    let mut g = original;
    g.rotate(9);
    assert!(grids_equal(&g, &original));
    g.rotate(18);
    assert!(grids_equal(&g, &original));
}

#[test]
fn rotate_reduces_modulo_height() {
    let mut a = Grid::default();
    a.0[3][0] = 50;
    let mut b = a;
    a.rotate(20);
    b.rotate(2);
    assert!(grids_equal(&a, &b));
}

#[test]
fn new_state_defaults() {
    let st = SevenSegmentState::new();
    assert!(grids_equal(&st.grid, &Grid::default()));
    assert!(grids_equal(&st.col_buffer, &Grid::default()));
    assert!(!st.animate);
    assert_eq!(st.brightness, 255);
    for zone in st.color.iter() {
        assert_eq!(*zone, Rgb { r: 0, g: 0, b: 0 });
    }
    assert!(matches!(st.sleeping, SleepState::Awake));
    assert_eq!(st.animation_period, 30);
    assert_eq!(st.pwm_freq, PwmFreq::Hz29000);
    assert!(!st.debug_mode);
    assert!(st.upcoming_frames.is_none());
}

#[test]
fn commit_buffer_copies_scratch_into_live() {
    let mut st = SevenSegmentState::new();
    st.col_buffer.0[4][4] = 200;
    st.commit_buffer();
    assert_eq!(st.grid.0[4][4], 200);
    assert_eq!(st.col_buffer.0[4][4], 200);
    st.col_buffer.0[4][4] = 10;
    assert_eq!(st.grid.0[4][4], 200, "buffers must not alias");
}

#[test]
fn sleep_wake_round_trip_restores_grid_and_brightness() {
    let mut st = SevenSegmentState::new();
    st.grid.0[2][3] = 42;
    st.brightness = 123;
    let saved = st.grid;

    st.sleep(SleepReason::Command);
    assert!(matches!(st.sleeping, SleepState::Sleeping(_)));
    // the caller's blanking policy
    st.grid = Grid::default();
    st.brightness = 0;

    st.wake(SleepReason::Command);
    assert!(matches!(st.sleeping, SleepState::Awake));
    assert!(grids_equal(&st.grid, &saved));
    assert_eq!(st.brightness, 123);
}

#[test]
fn sleep_while_sleeping_keeps_the_first_snapshot() {
    let mut st = SevenSegmentState::new();
    st.grid.0[0][0] = 11;
    st.brightness = 90;
    let saved = st.grid;
    st.sleep(SleepReason::Timeout);
    st.grid.0[0][0] = 200;
    st.brightness = 5;
    st.sleep(SleepReason::UsbSuspend);
    st.wake(SleepReason::SleepPin);
    assert!(grids_equal(&st.grid, &saved));
    assert_eq!(st.brightness, 90);
}

#[test]
fn wake_while_awake_is_a_no_op() {
    let mut st = SevenSegmentState::new();
    st.grid.0[1][1] = 33;
    st.brightness = 77;
    st.wake(SleepReason::Command);
    assert!(matches!(st.sleeping, SleepState::Awake));
    assert_eq!(st.grid.0[1][1], 33);
    assert_eq!(st.brightness, 77);
}

#[test]
fn named_colors_have_their_channels() {
    assert_eq!(Color::White.to_rgb(), Rgb { r: 255, g: 255, b: 255 });
    assert_eq!(Color::Black.to_rgb(), Rgb { r: 0, g: 0, b: 0 });
    assert_eq!(Color::Red.to_rgb(), Rgb { r: 255, g: 0, b: 0 });
    assert_eq!(Color::Green.to_rgb(), Rgb { r: 0, g: 255, b: 0 });
    assert_eq!(Color::Blue.to_rgb(), Rgb { r: 0, g: 0, b: 255 });
    assert_eq!(Color::Yellow.to_rgb(), Rgb { r: 255, g: 255, b: 0 });
    assert_eq!(Color::Cyan.to_rgb(), Rgb { r: 0, g: 255, b: 255 });
    assert_eq!(Color::Purple.to_rgb(), Rgb { r: 255, g: 0, b: 255 });
}

#[test]
fn subcommand_holds_the_double_optional_convention() {
    let cmd = SevenSegmentSubcommand {
        brightness: Some(None),
        sleeping: Some(Some(true)),
        bootloader: false,
        percentage: Some(50),
        animate: None,
        pattern: Some(Pattern::Zigzag),
        all_brightnesses: false,
        blinking: false,
        breathing: false,
        clock: false,
        string: Some(String::from("1.23")),
        set_color: Some(Color::Cyan),
        animation_fps: None,
        pwm_freq: Some(None),
        debug_mode: None,
        panic: false,
        version: false,
    };
    // brightness present without a value: a query
    assert!(matches!(cmd.brightness, Some(None)));
    // sleeping present with a value: a set
    assert_eq!(cmd.sleeping, Some(Some(true)));
    assert_eq!(cmd.pattern, Some(Pattern::Zigzag));
    assert_eq!(cmd.string.as_deref(), Some("1.23"));
}
