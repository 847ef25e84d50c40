use program_core::Color;
use program_core::color_from_hex;
use program_core::AppState;
use program_core::Drawable;
use program_core::Message;
use program_core::Point2D;
use program_core::Circle;
use program_core::Vector2;
use program_core::numfmt::fixed_to_string;
use program_core::numfmt::u64_to_string;

#[test]
fn test_fixed_decimal_rendering() {
    assert_eq!("0", fixed_to_string(0));
    assert_eq!("1", fixed_to_string(1_000_000));
    assert_eq!("0.5", fixed_to_string(500_000));
    assert_eq!("-1.5", fixed_to_string(-1_500_000));
    assert_eq!("0.123456", fixed_to_string(123_456));
    assert_eq!("1.2", fixed_to_string(1_200_000));
    assert_eq!("-0.000001", fixed_to_string(-1));
    assert_eq!("1080", fixed_to_string(1_080_000_000));
}

#[test]
fn test_decimal_rendering() {
    assert_eq!("0", u64_to_string(0));
    assert_eq!("1234567", u64_to_string(1_234_567));
    assert_eq!("10", u64_to_string(10));
}

#[test]
fn test_color_from_hex() {
    let red_number: u64 = 0xff0000;
    let green_number: u64 = 0x00ff00;
    let blue_number: u64 = 0x0000ff;

    assert_eq!(Color(255, 0, 0, 0), color_from_hex(red_number, 0));
    assert_eq!(Color(0, 255, 0, 500_000), color_from_hex(green_number, 500_000));
    assert_eq!(Color(0, 0, 255, 700_000), color_from_hex(blue_number, 700_000));
}

#[test]
fn test_color_rendering() {
    assert_eq!("rgba(255, 0, 0, 1)", Color::red().to_string());
    assert_eq!("rgba(12, 34, 56, 0.5)", Color(12, 34, 56, 500_000).to_string());
}

#[test]
fn test_named_colors() {
    assert_eq!(Color(255, 0, 0, 1_000_000), Color::red());
    assert_eq!(Color(0, 255, 0, 1_000_000), Color::green());
    assert_eq!(Color(0, 0, 255, 1_000_000), Color::blue());
    assert_eq!(Color(255, 255, 255, 1_000_000), Color::black());
    assert_eq!(Color(0, 0, 0, 1_000_000), Color::white());
}

#[test]
fn test_app_state_messages() {
    let mut state = AppState::new();

    assert!(state.current_message().is_none());
    assert!(state.prev_message().is_none());
    assert!(state.drawables().is_empty());

    state.set_message(Some(Message::Line));
    assert_eq!(Some(Message::Line), state.current_message());
    assert!(state.prev_message().is_none());

    state.set_message(Some(Message::FinishLine(Point2D::new(3, 4))));
    assert_eq!(Some(Message::Line), state.prev_message());
    assert_eq!(
        Some(Message::FinishLine(Point2D::new(3, 4))),
        state.current_message()
    );
}

#[test]
fn test_app_state_add() {
    let mut state = AppState::new();
    let circle = Circle::new(Vector2::new(0, 0), 1_000_000, None, None, None);

    state.add(&Drawable::Circle(circle));

    assert_eq!(1, state.drawables().len());
    match state.drawables()[0] {
        Drawable::Circle(c) => assert_eq!(1_000_000, c.radius()),
        _ => panic!("expected the circle that was added"),
    }
}

#[test]
fn test_point2d() {
    let p = Point2D::new(1, 2).add(Point2D::new(3, 4));
    assert_eq!(4, p.x());
    assert_eq!(6, p.y());
}
