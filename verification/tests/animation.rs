use mrs_matrix::animation::{target_frame_duration_nanos, AnimEvent, DropField};
use mrs_matrix::raindrop::charsets::{Charset, PrintableAscii};
use mrs_matrix::raindrop::color_algorithms::LightnessDescending;

fn new_field(charset: &Vec<char>, width: u16, height: u16) -> DropField<'_, LightnessDescending> {
    let algorithm = LightnessDescending { hue: 118_000, saturation: 1000 };
    DropField::new(charset, algorithm, 1000, width, height)
}

#[test]
fn field_keeps_one_drop_per_column_across_frames() {
    let charset = PrintableAscii().get_charset();
    let mut field = new_field(&charset, 10, 4);
    assert_eq!(field.drop_count(), 10);
    for _ in 0..1000 {
        for row in 0..4u16 {
            let cells = field.styled_row(row);
            assert_eq!(cells.len(), 10);
        }
        field.advance_all();
        assert_eq!(field.drop_count(), 10);
    }
}

#[test]
fn resize_rebuilds_every_column_afresh() {
    let charset = PrintableAscii().get_charset();
    let mut field = new_field(&charset, 10, 4);
    for _ in 0..500 {
        field.advance_all();
    }
    let keep_running = field.handle_event(Some(AnimEvent::Resize(20, 4)));
    assert!(keep_running);
    assert_eq!(field.drop_count(), 20);
    for column in 0..20 {
        let position = field.drop_position(column);
        assert!((-64..=-1).contains(&position));
    }
}

#[test]
fn poll_timeout_keeps_running_and_other_events_terminate() {
    let charset = PrintableAscii().get_charset();
    let mut field = new_field(&charset, 5, 6);
    assert!(field.handle_event(None));
    assert_eq!(field.drop_count(), 5);
    assert!(!field.handle_event(Some(AnimEvent::Other)));
    assert_eq!(field.drop_count(), 5);
}

#[test]
fn frame_budget_is_a_second_split_by_the_framerate() {
    assert_eq!(target_frame_duration_nanos(25), 40_000_000);
    assert_eq!(target_frame_duration_nanos(60), 16_666_666);
    assert_eq!(target_frame_duration_nanos(1), 1_000_000_000);
}
