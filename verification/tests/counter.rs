use counter::model::{update, Message, Model};
use counter::render::{format_i32, view, Column, Widget};

fn label_text(c: &Column) -> &str {
    match &c.children[1] {
        Widget::Text { content } => content.as_str(),
        other => panic!("the middle child is not a text label: {:?}", other),
    }
}

#[test]
fn fresh_counter_is_zero() {
    let m = Model::default();
    assert_eq!(m.value, 0);
}

#[test]
fn increment_from_zero() {
    let mut m = Model::default();
    update(&mut m, Message::Increment);
    assert_eq!(m.value, 1);
    assert_eq!(label_text(&view(&m)), "1");
}

#[test]
fn decrement_from_zero() {
    let mut m = Model::default();
    update(&mut m, Message::Decrement);
    assert_eq!(m.value, -1);
    assert_eq!(label_text(&view(&m)), "-1");
}

#[test]
fn three_increments_one_decrement() {
    let mut m = Model::default();
    update(&mut m, Message::Increment);
    update(&mut m, Message::Increment);
    update(&mut m, Message::Increment);
    update(&mut m, Message::Decrement);
    assert_eq!(m.value, 2);
    assert_eq!(label_text(&view(&m)), "2");
}

#[test]
fn mixed_sequence_counts_net() {
    let msgs = vec![
        Message::Increment,
        Message::Increment,
        Message::Decrement,
        Message::Increment,
        Message::Decrement,
        Message::Decrement,
        Message::Increment,
    ];
    let mut m = Model::default();
    for msg in msgs {
        update(&mut m, msg);
    }
    assert_eq!(m.value, 1);
}

#[test]
fn increment_then_decrement_restores() {
    for start in [-37, 0, 41, i32::MIN, i32::MAX] {
        let mut m = Model { value: start };
        update(&mut m, Message::Increment);
        update(&mut m, Message::Decrement);
        assert_eq!(m.value, start);
        update(&mut m, Message::Decrement);
        update(&mut m, Message::Increment);
        assert_eq!(m.value, start);
    }
}

#[test]
fn decrement_wraps_at_minimum() {
    let mut m = Model { value: i32::MIN };
    update(&mut m, Message::Decrement);
    assert_eq!(m.value, i32::MAX);
}

#[test]
fn increment_wraps_at_maximum() {
    let mut m = Model { value: i32::MAX };
    update(&mut m, Message::Increment);
    assert_eq!(m.value, i32::MIN);
}

#[test]
fn view_has_the_three_widgets() {
    let c = view(&Model { value: 7 });
    assert_eq!(c.spacing, 10);
    assert_eq!(c.children.len(), 3);
    match &c.children[0] {
        Widget::Button { label, on_press } => {
            assert_eq!(label.as_str(), "-");
            assert_eq!(*on_press, Message::Decrement);
        }
        other => panic!("the first child is not a button: {:?}", other),
    }
    assert_eq!(label_text(&c), "7");
    match &c.children[2] {
        Widget::Button { label, on_press } => {
            assert_eq!(label.as_str(), "+");
            assert_eq!(*on_press, Message::Increment);
        }
        other => panic!("the last child is not a button: {:?}", other),
    }
}

#[test]
fn view_twice_is_identical() {
    let m = Model { value: -19 };
    assert_eq!(view(&m), view(&m));
}

#[test]
fn formats_zero_and_small_values() {
    assert_eq!(format_i32(0), "0");
    assert_eq!(format_i32(1), "1");
    assert_eq!(format_i32(-1), "-1");
    assert_eq!(format_i32(10), "10");
    assert_eq!(format_i32(-10), "-10");
    assert_eq!(format_i32(123456), "123456");
    assert_eq!(format_i32(-987654), "-987654");
}

#[test]
fn formats_the_ends_of_the_range() {
    assert_eq!(format_i32(i32::MAX), "2147483647");
    assert_eq!(format_i32(i32::MIN), "-2147483648");
}
