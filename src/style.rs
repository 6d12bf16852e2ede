use vstd::prelude::*;
use crate::native;

verus! {

/// Possible alignments of a widget relative to its parent or a sibling.
#[derive(Copy, Clone, PartialEq, Eq, Structural, Debug)]
pub enum Align {
    Center,
    TopLeft,
    TopMid,
    TopRight,
    BottomLeft,
    BottomMid,
    BottomRight,
    LeftMid,
    RightMid,
    OutTopLeft,
    OutTopMid,
    OutTopRight,
    OutBottomLeft,
    OutBottomMid,
    OutBottomRight,
    OutLeftTop,
    OutLeftMid,
    OutLeftBottom,
    OutRightTop,
    OutRightMid,
    OutRightBottom,
}

/// The native constant that stands for each Align value.
pub open spec fn align_code(v: Align) -> u8 {
    match v {
        Align::Center => native::LV_ALIGN_CENTER,
        Align::TopLeft => native::LV_ALIGN_TOP_LEFT,
        Align::TopMid => native::LV_ALIGN_TOP_MID,
        Align::TopRight => native::LV_ALIGN_TOP_RIGHT,
        Align::BottomLeft => native::LV_ALIGN_BOTTOM_LEFT,
        Align::BottomMid => native::LV_ALIGN_BOTTOM_MID,
        Align::BottomRight => native::LV_ALIGN_BOTTOM_RIGHT,
        Align::LeftMid => native::LV_ALIGN_LEFT_MID,
        Align::RightMid => native::LV_ALIGN_RIGHT_MID,
        Align::OutTopLeft => native::LV_ALIGN_OUT_TOP_LEFT,
        Align::OutTopMid => native::LV_ALIGN_OUT_TOP_MID,
        Align::OutTopRight => native::LV_ALIGN_OUT_TOP_RIGHT,
        Align::OutBottomLeft => native::LV_ALIGN_OUT_BOTTOM_LEFT,
        Align::OutBottomMid => native::LV_ALIGN_OUT_BOTTOM_MID,
        Align::OutBottomRight => native::LV_ALIGN_OUT_BOTTOM_RIGHT,
        Align::OutLeftTop => native::LV_ALIGN_OUT_LEFT_TOP,
        Align::OutLeftMid => native::LV_ALIGN_OUT_LEFT_MID,
        Align::OutLeftBottom => native::LV_ALIGN_OUT_LEFT_BOTTOM,
        Align::OutRightTop => native::LV_ALIGN_OUT_RIGHT_TOP,
        Align::OutRightMid => native::LV_ALIGN_OUT_RIGHT_MID,
        Align::OutRightBottom => native::LV_ALIGN_OUT_RIGHT_BOTTOM,
    }
}

impl From<Align> for u8 {
    fn from(value: Align) -> Self {
        match value {
            Align::Center => native::LV_ALIGN_CENTER,
            Align::TopLeft => native::LV_ALIGN_TOP_LEFT,
            Align::TopMid => native::LV_ALIGN_TOP_MID,
            Align::TopRight => native::LV_ALIGN_TOP_RIGHT,
            Align::BottomLeft => native::LV_ALIGN_BOTTOM_LEFT,
            Align::BottomMid => native::LV_ALIGN_BOTTOM_MID,
            Align::BottomRight => native::LV_ALIGN_BOTTOM_RIGHT,
            Align::LeftMid => native::LV_ALIGN_LEFT_MID,
            Align::RightMid => native::LV_ALIGN_RIGHT_MID,
            Align::OutTopLeft => native::LV_ALIGN_OUT_TOP_LEFT,
            Align::OutTopMid => native::LV_ALIGN_OUT_TOP_MID,
            Align::OutTopRight => native::LV_ALIGN_OUT_TOP_RIGHT,
            Align::OutBottomLeft => native::LV_ALIGN_OUT_BOTTOM_LEFT,
            Align::OutBottomMid => native::LV_ALIGN_OUT_BOTTOM_MID,
            Align::OutBottomRight => native::LV_ALIGN_OUT_BOTTOM_RIGHT,
            Align::OutLeftTop => native::LV_ALIGN_OUT_LEFT_TOP,
            Align::OutLeftMid => native::LV_ALIGN_OUT_LEFT_MID,
            Align::OutLeftBottom => native::LV_ALIGN_OUT_LEFT_BOTTOM,
            Align::OutRightTop => native::LV_ALIGN_OUT_RIGHT_TOP,
            Align::OutRightMid => native::LV_ALIGN_OUT_RIGHT_MID,
            Align::OutRightBottom => native::LV_ALIGN_OUT_RIGHT_BOTTOM,
        }
    }
}

impl vstd::std_specs::convert::FromSpecImpl<Align> for u8 {
    open spec fn obeys_from_spec() -> bool {
        true
    }

    open spec fn from_spec(v: Align) -> Self {
        align_code(v)
    }
}

/// Alignment of text inside a widget.
#[derive(Copy, Clone, PartialEq, Eq, Structural, Debug)]
pub enum TextAlign {
    Auto,
    Center,
    Left,
    Right,
}

/// The native constant that stands for each TextAlign value.
pub open spec fn text_align_code(v: TextAlign) -> u8 {
    match v {
        TextAlign::Auto => native::LV_TEXT_ALIGN_AUTO,
        TextAlign::Center => native::LV_TEXT_ALIGN_CENTER,
        TextAlign::Left => native::LV_TEXT_ALIGN_LEFT,
        TextAlign::Right => native::LV_TEXT_ALIGN_RIGHT,
    }
}

impl From<TextAlign> for u8 {
    fn from(value: TextAlign) -> Self {
        match value {
            TextAlign::Auto => native::LV_TEXT_ALIGN_AUTO,
            TextAlign::Center => native::LV_TEXT_ALIGN_CENTER,
            TextAlign::Left => native::LV_TEXT_ALIGN_LEFT,
            TextAlign::Right => native::LV_TEXT_ALIGN_RIGHT,
        }
    }
}

impl vstd::std_specs::convert::FromSpecImpl<TextAlign> for u8 {
    open spec fn obeys_from_spec() -> bool {
        true
    }

    open spec fn from_spec(v: TextAlign) -> Self {
        text_align_code(v)
    }
}

/// Whether an animated change is animated or applied at once.
#[derive(Copy, Clone, PartialEq, Eq, Structural, Debug)]
pub enum AnimationState {
    ON,
    OFF,
}

/// The native constant that stands for each AnimationState value.
pub open spec fn animation_code(v: AnimationState) -> u32 {
    match v {
        AnimationState::ON => native::LV_ANIM_ON,
        AnimationState::OFF => native::LV_ANIM_OFF,
    }
}

impl From<AnimationState> for u32 {
    fn from(value: AnimationState) -> Self {
        match value {
            AnimationState::ON => native::LV_ANIM_ON,
            AnimationState::OFF => native::LV_ANIM_OFF,
        }
    }
}

impl vstd::std_specs::convert::FromSpecImpl<AnimationState> for u32 {
    open spec fn obeys_from_spec() -> bool {
        true
    }

    open spec fn from_spec(v: AnimationState) -> Self {
        animation_code(v)
    }
}

/// What a label does with text that does not fit.
#[derive(Copy, Clone, PartialEq, Eq, Structural, Debug)]
pub enum LabelLongMode {
    Clip,
    Dot,
    Scroll,
    ScrollCircular,
    Wrap,
}

/// The native constant that stands for each LabelLongMode value.
pub open spec fn long_mode_code(v: LabelLongMode) -> u8 {
    match v {
        LabelLongMode::Clip => native::LV_LABEL_LONG_CLIP,
        LabelLongMode::Dot => native::LV_LABEL_LONG_DOT,
        LabelLongMode::Scroll => native::LV_LABEL_LONG_SCROLL,
        LabelLongMode::ScrollCircular => native::LV_LABEL_LONG_SCROLL_CIRCULAR,
        LabelLongMode::Wrap => native::LV_LABEL_LONG_WRAP,
    }
}

impl From<LabelLongMode> for u8 {
    fn from(value: LabelLongMode) -> Self {
        match value {
            LabelLongMode::Clip => native::LV_LABEL_LONG_CLIP,
            LabelLongMode::Dot => native::LV_LABEL_LONG_DOT,
            LabelLongMode::Scroll => native::LV_LABEL_LONG_SCROLL,
            LabelLongMode::ScrollCircular => native::LV_LABEL_LONG_SCROLL_CIRCULAR,
            LabelLongMode::Wrap => native::LV_LABEL_LONG_WRAP,
        }
    }
}

impl vstd::std_specs::convert::FromSpecImpl<LabelLongMode> for u8 {
    open spec fn obeys_from_spec() -> bool {
        true
    }

    open spec fn from_spec(v: LabelLongMode) -> Self {
        long_mode_code(v)
    }
}

/// Object flags. Each is a bit field of a 32-bit word, so flags combine
/// with bitwise operations.
#[derive(Copy, Clone, PartialEq, Eq, Structural, PartialOrd, Ord, Debug)]
pub enum ObjFlag {
    /// Make the widget hidden (as if it were not there at all).
    Hidden,

    /// Make the widget clickable by input devices.
    Clickable,

    /// Add the focused state to the widget when clicked.
    ClickFocusable,

    /// Toggle the checked state when the widget is clicked.
    Checkable,

    /// Make the widget scrollable.
    Scrollable,

    /// Allow elastic scrolling with slower movement.
    ScrollElastic,

    /// Enable momentum scrolling (continue scrolling when thrown).
    ScrollMomentum,

    /// Allow scrolling only one snappable child.
    ScrollOne,

    /// Propagate horizontal scrolling to the parent.
    ScrollChainHor,

    /// Propagate vertical scrolling to the parent.
    ScrollChainVer,

    /// Both horizontal and vertical scroll chaining.
    ScrollChain,

    /// Automatically scroll to make the widget visible when focused.
    ScrollOnFocus,

    /// Allow scrolling the focused widget with arrow keys.
    ScrollWithArrow,

    /// Allow the widget to be snapped if the parent has scroll snapping enabled.
    Snappable,

    /// Keep the widget in the pressed state even if the pointer moves outside it.
    PressLock,

    /// Propagate events to the parent.
    EventBubble,

    /// Propagate gestures to the parent.
    GestureBubble,

    /// Enable more accurate hit (click) testing, e.g. for rounded corners.
    AdvHitTest,

    /// Exclude the widget from layout positioning.
    IgnoreLayout,

    /// Do not scroll with the parent and ignore layout.
    Floating,

    /// Allow children to overflow outside the widget's bounds.
    OverflowVisible,

    /// Custom flag, free to use by layouts.
    Layout1,

    /// Custom flag, free to use by layouts.
    Layout2,

    /// Custom flag, free to use by widgets.
    Widget1,

    /// Custom flag, free to use by widgets.
    Widget2,

    /// Custom flag, free to use by the user.
    User1,

    /// Custom flag, free to use by the user.
    User2,

    /// Custom flag, free to use by the user.
    User3,

    /// Custom flag, free to use by the user.
    User4,
}

/// The native constant that stands for each ObjFlag value.
pub open spec fn obj_flag_code(v: ObjFlag) -> u32 {
    match v {
        ObjFlag::Hidden => native::LV_OBJ_FLAG_HIDDEN,
        ObjFlag::Clickable => native::LV_OBJ_FLAG_CLICKABLE,
        ObjFlag::ClickFocusable => native::LV_OBJ_FLAG_CLICK_FOCUSABLE,
        ObjFlag::Checkable => native::LV_OBJ_FLAG_CHECKABLE,
        ObjFlag::Scrollable => native::LV_OBJ_FLAG_SCROLLABLE,
        ObjFlag::ScrollElastic => native::LV_OBJ_FLAG_SCROLL_ELASTIC,
        ObjFlag::ScrollMomentum => native::LV_OBJ_FLAG_SCROLL_MOMENTUM,
        ObjFlag::ScrollOne => native::LV_OBJ_FLAG_SCROLL_ONE,
        ObjFlag::ScrollChainHor => native::LV_OBJ_FLAG_SCROLL_CHAIN_HOR,
        ObjFlag::ScrollChainVer => native::LV_OBJ_FLAG_SCROLL_CHAIN_VER,
        ObjFlag::ScrollChain => native::LV_OBJ_FLAG_SCROLL_CHAIN,
        ObjFlag::ScrollOnFocus => native::LV_OBJ_FLAG_SCROLL_ON_FOCUS,
        ObjFlag::ScrollWithArrow => native::LV_OBJ_FLAG_SCROLL_WITH_ARROW,
        ObjFlag::Snappable => native::LV_OBJ_FLAG_SNAPPABLE,
        ObjFlag::PressLock => native::LV_OBJ_FLAG_PRESS_LOCK,
        ObjFlag::EventBubble => native::LV_OBJ_FLAG_EVENT_BUBBLE,
        ObjFlag::GestureBubble => native::LV_OBJ_FLAG_GESTURE_BUBBLE,
        ObjFlag::AdvHitTest => native::LV_OBJ_FLAG_ADV_HITTEST,
        ObjFlag::IgnoreLayout => native::LV_OBJ_FLAG_IGNORE_LAYOUT,
        ObjFlag::Floating => native::LV_OBJ_FLAG_FLOATING,
        ObjFlag::OverflowVisible => native::LV_OBJ_FLAG_OVERFLOW_VISIBLE,
        ObjFlag::Layout1 => native::LV_OBJ_FLAG_LAYOUT_1,
        ObjFlag::Layout2 => native::LV_OBJ_FLAG_LAYOUT_2,
        ObjFlag::Widget1 => native::LV_OBJ_FLAG_WIDGET_1,
        ObjFlag::Widget2 => native::LV_OBJ_FLAG_WIDGET_2,
        ObjFlag::User1 => native::LV_OBJ_FLAG_USER_1,
        ObjFlag::User2 => native::LV_OBJ_FLAG_USER_2,
        ObjFlag::User3 => native::LV_OBJ_FLAG_USER_3,
        ObjFlag::User4 => native::LV_OBJ_FLAG_USER_4,
    }
}

impl From<ObjFlag> for u32 {
    fn from(value: ObjFlag) -> Self {
        match value {
            ObjFlag::Hidden => native::LV_OBJ_FLAG_HIDDEN,
            ObjFlag::Clickable => native::LV_OBJ_FLAG_CLICKABLE,
            ObjFlag::ClickFocusable => native::LV_OBJ_FLAG_CLICK_FOCUSABLE,
            ObjFlag::Checkable => native::LV_OBJ_FLAG_CHECKABLE,
            ObjFlag::Scrollable => native::LV_OBJ_FLAG_SCROLLABLE,
            ObjFlag::ScrollElastic => native::LV_OBJ_FLAG_SCROLL_ELASTIC,
            ObjFlag::ScrollMomentum => native::LV_OBJ_FLAG_SCROLL_MOMENTUM,
            ObjFlag::ScrollOne => native::LV_OBJ_FLAG_SCROLL_ONE,
            ObjFlag::ScrollChainHor => native::LV_OBJ_FLAG_SCROLL_CHAIN_HOR,
            ObjFlag::ScrollChainVer => native::LV_OBJ_FLAG_SCROLL_CHAIN_VER,
            ObjFlag::ScrollChain => native::LV_OBJ_FLAG_SCROLL_CHAIN,
            ObjFlag::ScrollOnFocus => native::LV_OBJ_FLAG_SCROLL_ON_FOCUS,
            ObjFlag::ScrollWithArrow => native::LV_OBJ_FLAG_SCROLL_WITH_ARROW,
            ObjFlag::Snappable => native::LV_OBJ_FLAG_SNAPPABLE,
            ObjFlag::PressLock => native::LV_OBJ_FLAG_PRESS_LOCK,
            ObjFlag::EventBubble => native::LV_OBJ_FLAG_EVENT_BUBBLE,
            ObjFlag::GestureBubble => native::LV_OBJ_FLAG_GESTURE_BUBBLE,
            ObjFlag::AdvHitTest => native::LV_OBJ_FLAG_ADV_HITTEST,
            ObjFlag::IgnoreLayout => native::LV_OBJ_FLAG_IGNORE_LAYOUT,
            ObjFlag::Floating => native::LV_OBJ_FLAG_FLOATING,
            ObjFlag::OverflowVisible => native::LV_OBJ_FLAG_OVERFLOW_VISIBLE,
            ObjFlag::Layout1 => native::LV_OBJ_FLAG_LAYOUT_1,
            ObjFlag::Layout2 => native::LV_OBJ_FLAG_LAYOUT_2,
            ObjFlag::Widget1 => native::LV_OBJ_FLAG_WIDGET_1,
            ObjFlag::Widget2 => native::LV_OBJ_FLAG_WIDGET_2,
            ObjFlag::User1 => native::LV_OBJ_FLAG_USER_1,
            ObjFlag::User2 => native::LV_OBJ_FLAG_USER_2,
            ObjFlag::User3 => native::LV_OBJ_FLAG_USER_3,
            ObjFlag::User4 => native::LV_OBJ_FLAG_USER_4,
        }
    }
}

impl vstd::std_specs::convert::FromSpecImpl<ObjFlag> for u32 {
    open spec fn obeys_from_spec() -> bool {
        true
    }

    open spec fn from_spec(v: ObjFlag) -> Self {
        obj_flag_code(v)
    }
}

} // verus!
