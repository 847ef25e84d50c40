use program_core::Canvas;
use program_core::Props;
use program_core::Vector2;

#[test]
fn test_select_drawable_at() {
    let mut canvas = Canvas::new(1920, 1080);
    canvas.add_circle(Vector2::new(960_000_000, 540_000_000), 540_000_000, None, None, None);

    assert!(
        canvas.select_drawable_at(Vector2::new(1_000_000_000, 600_000_000)),
        "Testing selection in a circle"
    );

    let circle_props = canvas.get_selected_drawable_properties();

    match circle_props {
        Ok(Props::Circle(props)) => {
            assert_eq!(
                Vector2::new(960_000_000, 540_000_000),
                props.center,
                "Testing circle props"
            );
            assert_eq!(540_000_000, props.radius, "Testing circle props");
        }
        _ => {
            panic!("did not return the properties of the circle");
        }
    }

    assert!(
        !canvas.select_drawable_at(Vector2::new(1_900_000_000, 600_000_000)),
        "Testing selection in an empty space"
    );
}

#[test]
fn test_translate_selected_drawable() {
    let mut canvas = Canvas::new(1920, 1080);
    canvas.add_circle(Vector2::new(960_000_000, 540_000_000), 540_000_000, None, None, None);

    assert!(
        canvas.select_drawable_at(Vector2::new(1_000_000_000, 600_000_000)),
        "Selecting the circle"
    );
    assert!(
        canvas.translate_selected_drawable(Vector2::new(1_000_000, 1_000_000)),
        "Translating the circle"
    );

    match canvas.get_selected_drawable_properties() {
        Ok(Props::Circle(props)) => {
            assert_eq!(
                Vector2::new(961_000_000, 541_000_000),
                props.center,
                "Testing shifted center"
            );
        }

        _ => {
            panic!("did not return the properties of the circle");
        }
    }
}

#[test]
fn test_rotate_selected_drawable() {
    let mut canvas = Canvas::new(1920, 1080);
    canvas.add_rect(
        Vector2::new(200_000_000, 200_000_000),
        Vector2::new(300_000_000, 500_000_000),
        None,
        None,
        None,
    );

    assert!(
        canvas.select_drawable_at(Vector2::new(250_000_000, 350_000_000)),
        "Selecting the rectangle"
    );
    assert!(
        canvas.rotate_selected_drawable(90_000_000),
        "Rotating the rectangle"
    );

    match canvas.get_selected_drawable_properties() {
        Ok(Props::Rect(props)) => {
            assert_eq!(90_000_000, props.angle, "Testing rotated rectangle");
        }

        _ => {
            panic!("did not return the properties of the circle");
        }
    }
}

#[test]
fn test_scale_selected_drawable() {
    let mut canvas = Canvas::new(1920, 1080);
    canvas.add_circle(Vector2::new(200_000_000, 200_000_000), 1_000_000, None, None, None);

    assert!(
        canvas.select_drawable_at(Vector2::new(200_000_000, 200_000_000)),
        "Selecting the circle"
    );
    assert!(canvas.scale_selected_drawable(2_000_000), "Scaling the circle");

    match canvas.get_selected_drawable_properties() {
        Ok(Props::Circle(props)) => {
            assert_eq!(2_000_000, props.radius, "Testing scaled circle");
        }

        _ => {
            panic!("did not return circle properties");
        }
    }
}

#[test]
fn test_transforms_without_selection_change_nothing() {
    let mut canvas = Canvas::new(1920, 1080);
    canvas.add_circle(Vector2::new(960_000_000, 540_000_000), 540_000_000, None, None, None);

    let before = canvas.to_svg();

    assert!(!canvas.translate_selected_drawable(Vector2::new(1_000_000, 1_000_000)));
    assert!(!canvas.rotate_selected_drawable(90_000_000));
    assert!(!canvas.scale_selected_drawable(2_000_000));
    assert!(canvas.get_selected_drawable_properties().is_err());

    assert_eq!(before, canvas.to_svg());
}

#[test]
fn test_selection_tie_break_is_insertion_order() {
    let mut canvas = Canvas::new(100, 100);
    canvas.add_circle(Vector2::new(0, 0), 10_000_000, None, None, None);
    canvas.add_circle(Vector2::new(0, 0), 20_000_000, None, None, None);

    assert!(canvas.select_drawable_at(Vector2::new(1_000_000, 1_000_000)));

    match canvas.get_selected_drawable_properties() {
        Ok(Props::Circle(props)) => {
            assert_eq!(10_000_000, props.radius);
        }
        _ => {
            panic!("did not return the properties of the first circle");
        }
    }
}

#[test]
fn test_failed_selection_keeps_prior_selection() {
    let mut canvas = Canvas::new(100, 100);
    canvas.add_circle(Vector2::new(0, 0), 10_000_000, None, None, None);

    assert!(canvas.select_drawable_at(Vector2::new(0, 0)));
    assert!(!canvas.select_drawable_at(Vector2::new(90_000_000, 90_000_000)));

    match canvas.get_selected_drawable_properties() {
        Ok(Props::Circle(props)) => {
            assert_eq!(10_000_000, props.radius);
        }
        _ => {
            panic!("the prior selection was lost");
        }
    }
}

#[test]
fn test_export_single_line_document() {
    let mut canvas = Canvas::new(1920, 1080);
    canvas.add_line(
        Vector2::new(0, 0),
        Vector2::new(1_000_000, 1_000_000),
        None,
        None,
        None,
    );

    let svg = canvas.to_svg();
    let expected = "<svg width=\"1920\" height=\"1080\"><line x1=\"0\" y1=\"0\" x2=\"1\" y2=\"1\" style=\"fill:rgba(0, 0, 0, 1);stroke:rgba(0, 0, 255, 1);stroke-width:5\"/></svg>";

    assert_eq!(expected, svg);
    assert_eq!(1, svg.matches("<line").count());
    assert_eq!(1, svg.matches("<svg").count());
    assert_eq!(1, svg.matches("</svg>").count());
    assert!(svg.starts_with("<svg "));
    assert!(svg.ends_with("</svg>"));
}

#[test]
fn test_export_empty_canvas() {
    let canvas = Canvas::new(10, 20);
    assert_eq!("<svg width=\"10\" height=\"20\"></svg>", canvas.to_svg());
}

#[test]
fn test_export_mixed_scene_order() {
    let mut canvas = Canvas::new(500, 500);
    canvas.add_circle(Vector2::new(1_000_000, 2_000_000), 3_000_000, None, None, None);
    canvas.add_rect(
        Vector2::new(0, 0),
        Vector2::new(4_000_000, 5_000_000),
        None,
        None,
        None,
    );

    let svg = canvas.to_svg();
    let expected = "<svg width=\"500\" height=\"500\"><circle cx=\"1\" cy=\"2\" r=\"3\"/><rect x=\"0\" y=\"0\" width=\"4\" height=\"5\" style=\"fill:rgba(0, 0, 0, 1);stroke:rgba(255, 255, 255, 1);stroke_width:12;\"/></svg>";
    assert_eq!(expected, svg);
}
