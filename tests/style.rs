use lvgl_support::style::{Align, AnimationState, LabelLongMode, ObjFlag, TextAlign};

#[test]
fn align_codes() {
    let table = [
        (Align::TopLeft, 1u8),
        (Align::TopMid, 2),
        (Align::TopRight, 3),
        (Align::BottomLeft, 4),
        (Align::BottomMid, 5),
        (Align::BottomRight, 6),
        (Align::LeftMid, 7),
        (Align::RightMid, 8),
        (Align::Center, 9),
        (Align::OutTopLeft, 10),
        (Align::OutTopMid, 11),
        (Align::OutTopRight, 12),
        (Align::OutBottomLeft, 13),
        (Align::OutBottomMid, 14),
        (Align::OutBottomRight, 15),
        (Align::OutLeftTop, 16),
        (Align::OutLeftMid, 17),
        (Align::OutLeftBottom, 18),
        (Align::OutRightTop, 19),
        (Align::OutRightMid, 20),
        (Align::OutRightBottom, 21),
    ];
    for (align, code) in table {
        assert_eq!(u8::from(align), code);
    }
}

#[test]
fn text_align_codes() {
    assert_eq!(u8::from(TextAlign::Auto), 0);
    assert_eq!(u8::from(TextAlign::Left), 1);
    assert_eq!(u8::from(TextAlign::Center), 2);
    assert_eq!(u8::from(TextAlign::Right), 3);
}

#[test]
fn animation_state_codes() {
    assert_eq!(u32::from(AnimationState::OFF), 0);
    assert_eq!(u32::from(AnimationState::ON), 1);
}

#[test]
fn label_long_mode_codes() {
    assert_eq!(u8::from(LabelLongMode::Wrap), 0);
    assert_eq!(u8::from(LabelLongMode::Dot), 1);
    assert_eq!(u8::from(LabelLongMode::Scroll), 2);
    assert_eq!(u8::from(LabelLongMode::ScrollCircular), 3);
    assert_eq!(u8::from(LabelLongMode::Clip), 4);
}

#[test]
fn obj_flag_codes() {
    let table = [
        (ObjFlag::Hidden, 1u32 << 0),
        (ObjFlag::Clickable, 1 << 1),
        (ObjFlag::ClickFocusable, 1 << 2),
        (ObjFlag::Checkable, 1 << 3),
        (ObjFlag::Scrollable, 1 << 4),
        (ObjFlag::ScrollElastic, 1 << 5),
        (ObjFlag::ScrollMomentum, 1 << 6),
        (ObjFlag::ScrollOne, 1 << 7),
        (ObjFlag::ScrollChainHor, 1 << 8),
        (ObjFlag::ScrollChainVer, 1 << 9),
        (ObjFlag::ScrollChain, (1 << 8) | (1 << 9)),
        (ObjFlag::ScrollOnFocus, 1 << 10),
        (ObjFlag::ScrollWithArrow, 1 << 11),
        (ObjFlag::Snappable, 1 << 12),
        (ObjFlag::PressLock, 1 << 13),
        (ObjFlag::EventBubble, 1 << 14),
        (ObjFlag::GestureBubble, 1 << 15),
        (ObjFlag::AdvHitTest, 1 << 16),
        (ObjFlag::IgnoreLayout, 1 << 17),
        (ObjFlag::Floating, 1 << 18),
        (ObjFlag::OverflowVisible, 1 << 19),
        (ObjFlag::Layout1, 1 << 23),
        (ObjFlag::Layout2, 1 << 24),
        (ObjFlag::Widget1, 1 << 25),
        (ObjFlag::Widget2, 1 << 26),
        (ObjFlag::User1, 1 << 27),
        (ObjFlag::User2, 1 << 28),
        (ObjFlag::User3, 1 << 29),
        (ObjFlag::User4, 1 << 30),
    ];
    for (flag, code) in table {
        assert_eq!(u32::from(flag), code);
    }
}

#[test]
fn obj_flags_combine_bitwise() {
    let chain = u32::from(ObjFlag::ScrollChainHor) | u32::from(ObjFlag::ScrollChainVer);
    assert_eq!(chain, u32::from(ObjFlag::ScrollChain));
    assert_eq!(u32::from(ObjFlag::Hidden) & u32::from(ObjFlag::Clickable), 0);
}
