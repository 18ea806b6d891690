use velo_ui::geometry::{
    resize_entity_end, resize_entity_start, CursorShape, Interaction, Length, NodeFrame,
    ResizeMarker, ResizeStart,
};

fn square() -> NodeFrame {
    NodeFrame {
        width: Length::Px(100),
        height: Length::Px(100),
        left: Length::Px(0),
        bottom: Length::Px(0),
    }
}

#[test]
fn test_resize_entity_end() {
    // The n-th marker is dragged n times by (10, 5), starting from a fresh
    // 100 x 100 node at the origin each time.
    let markers = [
        ResizeMarker::TopLeft,
        ResizeMarker::TopRight,
        ResizeMarker::BottomLeft,
        ResizeMarker::BottomRight,
    ];
    for (n, &marker) in markers.iter().enumerate() {
        let mut style = square();
        for _ in 0..=n {
            assert!(resize_entity_end(&mut style, marker, 10, 5));
        }
        match marker {
            ResizeMarker::TopLeft => {
                assert_eq!(style.width, Length::Px(90));
                assert_eq!(style.height, Length::Px(95));
                assert_eq!(style.left, Length::Px(10));
            }
            ResizeMarker::TopRight => {
                assert_eq!(style.width, Length::Px(120));
                assert_eq!(style.height, Length::Px(90));
            }
            ResizeMarker::BottomLeft => {
                assert_eq!(style.width, Length::Px(70));
                assert_eq!(style.height, Length::Px(115));
                assert_eq!(style.left, Length::Px(30));
                assert_eq!(style.bottom, Length::Px(-15));
            }
            ResizeMarker::BottomRight => {
                assert_eq!(style.width, Length::Px(140));
                assert_eq!(style.height, Length::Px(120));
                assert_eq!(style.bottom, Length::Px(-20));
            }
        }
    }
}

#[test]
fn resize_top_left_once_moves_only_left_edge() {
    let mut f = square();
    assert!(resize_entity_end(&mut f, ResizeMarker::TopLeft, 10, 5));
    assert_eq!(
        f,
        NodeFrame {
            width: Length::Px(90),
            height: Length::Px(95),
            left: Length::Px(10),
            bottom: Length::Px(0),
        }
    );
}

#[test]
fn resize_bottom_right_once() {
    let mut f = square();
    assert!(resize_entity_end(&mut f, ResizeMarker::BottomRight, -4, 7));
    assert_eq!(
        f,
        NodeFrame {
            width: Length::Px(96),
            height: Length::Px(107),
            left: Length::Px(0),
            bottom: Length::Px(-7),
        }
    );
}

#[test]
fn resize_keeps_opposite_corner() {
    for &m in &[
        ResizeMarker::TopLeft,
        ResizeMarker::TopRight,
        ResizeMarker::BottomLeft,
        ResizeMarker::BottomRight,
    ] {
        let mut f = NodeFrame {
            width: Length::Px(50),
            height: Length::Px(40),
            left: Length::Px(20),
            bottom: Length::Px(30),
        };
        assert!(resize_entity_end(&mut f, m, 6, -3));
        let px = |l: Length| match l {
            Length::Px(v) => v,
            Length::Relative => panic!("relative length"),
        };
        let left_side = matches!(m, ResizeMarker::TopLeft | ResizeMarker::BottomLeft);
        let top_side = matches!(m, ResizeMarker::TopLeft | ResizeMarker::TopRight);
        if left_side {
            assert_eq!(px(f.left) + px(f.width), 70);
        } else {
            assert_eq!(px(f.left), 20);
        }
        if top_side {
            assert_eq!(px(f.bottom), 30);
        } else {
            assert_eq!(px(f.bottom) + px(f.height), 70);
        }
    }
}

#[test]
fn resize_then_back_restores_frame() {
    let mut f = square();
    assert!(resize_entity_end(&mut f, ResizeMarker::BottomLeft, 13, -8));
    assert!(resize_entity_end(&mut f, ResizeMarker::BottomLeft, -13, 8));
    assert_eq!(f, square());
}

#[test]
fn resize_leaves_relative_lengths() {
    let mut f = NodeFrame {
        width: Length::Relative,
        height: Length::Px(10),
        left: Length::Relative,
        bottom: Length::Px(0),
    };
    assert!(resize_entity_end(&mut f, ResizeMarker::TopLeft, 3, 2));
    assert_eq!(f.width, Length::Relative);
    assert_eq!(f.left, Length::Relative);
    assert_eq!(f.height, Length::Px(8));
}

#[test]
fn resize_out_of_range_keeps_frame() {
    let start = NodeFrame {
        width: Length::Px(i64::MAX),
        height: Length::Px(10),
        left: Length::Px(0),
        bottom: Length::Px(0),
    };
    let mut f = start;
    assert!(!resize_entity_end(&mut f, ResizeMarker::TopRight, 1, 0));
    assert_eq!(f, start);
    assert!(resize_entity_end(&mut f, ResizeMarker::TopLeft, 1, 0));
    assert_eq!(f.width, Length::Px(i64::MAX - 1));
}

#[test]
fn resize_start_decisions() {
    assert_eq!(
        resize_entity_start(Interaction::Clicked, ResizeMarker::BottomLeft),
        ResizeStart::Begin(ResizeMarker::BottomLeft)
    );
    assert_eq!(
        resize_entity_start(Interaction::Hovered, ResizeMarker::TopLeft),
        ResizeStart::Cursor(CursorShape::NwseResize)
    );
    assert_eq!(
        resize_entity_start(Interaction::Hovered, ResizeMarker::TopRight),
        ResizeStart::Cursor(CursorShape::NeswResize)
    );
    assert_eq!(
        resize_entity_start(Interaction::Hovered, ResizeMarker::BottomLeft),
        ResizeStart::Cursor(CursorShape::NeswResize)
    );
    assert_eq!(
        resize_entity_start(Interaction::Hovered, ResizeMarker::BottomRight),
        ResizeStart::Cursor(CursorShape::NwseResize)
    );
    assert_eq!(
        resize_entity_start(Interaction::Idle, ResizeMarker::TopRight),
        ResizeStart::Cursor(CursorShape::Default)
    );
}
