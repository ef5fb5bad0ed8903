use mrs_matrix::raindrop::charsets::{Alphanumeric, Charset};
use mrs_matrix::raindrop::color_algorithms::{Hsl, LightnessDescending};
use mrs_matrix::raindrop::Raindrop;

fn new_drop(charset: &Vec<char>, terminal_height: u16) -> Raindrop<'_, LightnessDescending> {
    let algorithm = LightnessDescending { hue: 118_000, saturation: 820 };
    Raindrop::new(charset, algorithm, 1000, rand::thread_rng(), terminal_height)
}

/// With an advance chance of one the head passes through every row in
/// order, so it reaches any target row at or below the bottom edge.
fn advance_until(drop: &mut Raindrop<'_, LightnessDescending>, terminal_height: u16, target: i32) {
    let mut guard: u32 = 0;
    while drop.position() != target {
        drop.advance_animation(terminal_height);
        guard += 1;
        assert!(guard < 100_000, "drop never reached row {}", target);
    }
}

#[test]
fn fresh_drop_within_bounds() {
    let charset = Alphanumeric().get_charset();
    for _ in 0..50 {
        let drop = new_drop(&charset, 20);
        let length = drop.follower_len();
        assert!((4..=16).contains(&length));
        let position = drop.position();
        assert!((-64..=-1).contains(&position));
    }
}

#[test]
fn reinit_state_resets_position_and_follower() {
    let charset = Alphanumeric().get_charset();
    let mut drop = new_drop(&charset, 20);
    advance_until(&mut drop, 20, 3);
    drop.reinit_state(20);
    assert!((-64..=-1).contains(&drop.position()));
    assert!((4..=16).contains(&drop.follower_len()));
}

#[test]
fn visibility_window() {
    let charset = Alphanumeric().get_charset();
    let mut drop = new_drop(&charset, 10);
    assert!(!drop.is_visible(10));
    advance_until(&mut drop, 10, 0);
    assert!(drop.is_visible(10));
    let length = drop.follower_len() as i32;
    advance_until(&mut drop, 10, 10 + length - 1);
    assert!(drop.is_visible(10));
    drop.advance_animation(10);
    assert_eq!(drop.position(), 10 + length);
    assert!(!drop.is_visible(10));
    // the next advance recycles the drop to a fresh above-screen start
    drop.advance_animation(10);
    assert!((-64..=-1).contains(&drop.position()));
}

#[test]
fn char_at_covers_only_the_stream() {
    let charset = Alphanumeric().get_charset();
    let mut drop = new_drop(&charset, 50);
    let length = drop.follower_len() as i32;
    advance_until(&mut drop, 50, length + 1);
    // the row one above the follower's end falls in the gap
    assert_eq!(drop.get_char_at_row(0), None);
    // the row just above the head holds the first follower character
    assert!(drop.get_char_at_row(length as u16).is_some());
    // the head row itself always yields a character
    assert!(drop.get_char_at_row((length + 1) as u16).is_some());
    // rows below the head hold nothing
    assert_eq!(drop.get_char_at_row((length + 2) as u16), None);
    assert_eq!(drop.get_char_at_row(49), None);
}

#[test]
fn follower_rows_are_stable_between_reads() {
    let charset = Alphanumeric().get_charset();
    let mut drop = new_drop(&charset, 50);
    advance_until(&mut drop, 50, 5);
    let first = drop.get_char_at_row(4);
    let second = drop.get_char_at_row(4);
    assert!(first.is_some());
    assert_eq!(first, second);
    // the head is resampled on every read: both reads yield a character,
    // though not necessarily the same one
    assert!(drop.get_char_at_row(5).is_some());
    assert!(drop.get_char_at_row(5).is_some());
}

#[test]
fn drop_cycles_exactly_once_per_window() {
    let charset = Alphanumeric().get_charset();
    let mut drop = new_drop(&charset, 10);
    advance_until(&mut drop, 10, 1);
    let length = drop.follower_len() as i32;
    let mut reinits = 0;
    let mut previous = drop.position();
    for _ in 0..(10 + length) {
        drop.advance_animation(10);
        if drop.position() < previous {
            reinits += 1;
            assert!((-64..=-1).contains(&drop.position()));
        }
        previous = drop.position();
    }
    assert_eq!(reinits, 1);
}

#[test]
fn head_is_bold_white_and_followers_are_tinted() {
    let charset = Alphanumeric().get_charset();
    let mut drop = new_drop(&charset, 50);
    advance_until(&mut drop, 50, 6);
    let head = drop.get_styled_char_at_row(6).unwrap();
    assert!(head.bold);
    assert_eq!(head.color, Hsl { hue: 0, saturation: 0, lightness: 1000 });
    let nearest = drop.get_styled_char_at_row(5).unwrap();
    assert!(!nearest.bold);
    assert_eq!(nearest.color, Hsl { hue: 118_000, saturation: 820, lightness: 900 });
    let second = drop.get_styled_char_at_row(4).unwrap();
    let proportion = 1000 / drop.follower_len() as u32;
    assert_eq!(second.color, Hsl { hue: 118_000, saturation: 820, lightness: 900 - proportion });
}

#[test]
fn gen_char_draws_from_the_charset() {
    let charset = Alphanumeric().get_charset();
    let mut drop = new_drop(&charset, 20);
    for _ in 0..100 {
        let c = drop.gen_char();
        assert!(charset.contains(&c));
    }
}

#[test]
fn move_drop_descends_one_row() {
    let charset = Alphanumeric().get_charset();
    let mut drop = new_drop(&charset, 20);
    let before = drop.position();
    drop.move_drop();
    assert_eq!(drop.position(), before + 1);
}
