use vstd::prelude::*;

verus! {

// The toolkit's native constants for the build configuration in use
// (version 8 headers, 16-bit color depth without byte swapping).

/// Bits per pixel of the native color type.
pub const LV_COLOR_DEPTH: u32 = 16;

// Event codes.
pub const LV_EVENT_ALL: u32 = 0;
pub const LV_EVENT_PRESSED: u32 = 1;
pub const LV_EVENT_PRESSING: u32 = 2;
pub const LV_EVENT_PRESS_LOST: u32 = 3;
pub const LV_EVENT_SHORT_CLICKED: u32 = 4;
pub const LV_EVENT_LONG_PRESSED: u32 = 5;
pub const LV_EVENT_LONG_PRESSED_REPEAT: u32 = 6;
pub const LV_EVENT_CLICKED: u32 = 7;
pub const LV_EVENT_RELEASED: u32 = 8;
pub const LV_EVENT_SCROLL_BEGIN: u32 = 9;
pub const LV_EVENT_SCROLL_END: u32 = 10;
pub const LV_EVENT_SCROLL: u32 = 11;
pub const LV_EVENT_GESTURE: u32 = 12;
pub const LV_EVENT_KEY: u32 = 13;
pub const LV_EVENT_FOCUSED: u32 = 14;
pub const LV_EVENT_DEFOCUSED: u32 = 15;
pub const LV_EVENT_LEAVE: u32 = 16;
pub const LV_EVENT_HIT_TEST: u32 = 17;
pub const LV_EVENT_COVER_CHECK: u32 = 18;
pub const LV_EVENT_REFR_EXT_DRAW_SIZE: u32 = 19;
pub const LV_EVENT_DRAW_MAIN_BEGIN: u32 = 20;
pub const LV_EVENT_DRAW_MAIN: u32 = 21;
pub const LV_EVENT_DRAW_MAIN_END: u32 = 22;
pub const LV_EVENT_DRAW_POST_BEGIN: u32 = 23;
pub const LV_EVENT_DRAW_POST: u32 = 24;
pub const LV_EVENT_DRAW_POST_END: u32 = 25;
pub const LV_EVENT_DRAW_PART_BEGIN: u32 = 26;
pub const LV_EVENT_DRAW_PART_END: u32 = 27;
pub const LV_EVENT_VALUE_CHANGED: u32 = 28;

// Alignments of an object relative to another.
pub const LV_ALIGN_DEFAULT: u8 = 0;
pub const LV_ALIGN_TOP_LEFT: u8 = 1;
pub const LV_ALIGN_TOP_MID: u8 = 2;
pub const LV_ALIGN_TOP_RIGHT: u8 = 3;
pub const LV_ALIGN_BOTTOM_LEFT: u8 = 4;
pub const LV_ALIGN_BOTTOM_MID: u8 = 5;
pub const LV_ALIGN_BOTTOM_RIGHT: u8 = 6;
pub const LV_ALIGN_LEFT_MID: u8 = 7;
pub const LV_ALIGN_RIGHT_MID: u8 = 8;
pub const LV_ALIGN_CENTER: u8 = 9;
pub const LV_ALIGN_OUT_TOP_LEFT: u8 = 10;
pub const LV_ALIGN_OUT_TOP_MID: u8 = 11;
pub const LV_ALIGN_OUT_TOP_RIGHT: u8 = 12;
pub const LV_ALIGN_OUT_BOTTOM_LEFT: u8 = 13;
pub const LV_ALIGN_OUT_BOTTOM_MID: u8 = 14;
pub const LV_ALIGN_OUT_BOTTOM_RIGHT: u8 = 15;
pub const LV_ALIGN_OUT_LEFT_TOP: u8 = 16;
pub const LV_ALIGN_OUT_LEFT_MID: u8 = 17;
pub const LV_ALIGN_OUT_LEFT_BOTTOM: u8 = 18;
pub const LV_ALIGN_OUT_RIGHT_TOP: u8 = 19;
pub const LV_ALIGN_OUT_RIGHT_MID: u8 = 20;
pub const LV_ALIGN_OUT_RIGHT_BOTTOM: u8 = 21;

// Text alignments.
pub const LV_TEXT_ALIGN_AUTO: u8 = 0;
pub const LV_TEXT_ALIGN_LEFT: u8 = 1;
pub const LV_TEXT_ALIGN_CENTER: u8 = 2;
pub const LV_TEXT_ALIGN_RIGHT: u8 = 3;

// Behaviours of a label whose text does not fit.
pub const LV_LABEL_LONG_WRAP: u8 = 0;
pub const LV_LABEL_LONG_DOT: u8 = 1;
pub const LV_LABEL_LONG_SCROLL: u8 = 2;
pub const LV_LABEL_LONG_SCROLL_CIRCULAR: u8 = 3;
pub const LV_LABEL_LONG_CLIP: u8 = 4;

// Animation switch.
pub const LV_ANIM_OFF: u32 = 0;
pub const LV_ANIM_ON: u32 = 1;

// Object flags, one bit each (but the scroll chain, which is two).
pub const LV_OBJ_FLAG_HIDDEN: u32 = 0x1;
pub const LV_OBJ_FLAG_CLICKABLE: u32 = 0x2;
pub const LV_OBJ_FLAG_CLICK_FOCUSABLE: u32 = 0x4;
pub const LV_OBJ_FLAG_CHECKABLE: u32 = 0x8;
pub const LV_OBJ_FLAG_SCROLLABLE: u32 = 0x10;
pub const LV_OBJ_FLAG_SCROLL_ELASTIC: u32 = 0x20;
pub const LV_OBJ_FLAG_SCROLL_MOMENTUM: u32 = 0x40;
pub const LV_OBJ_FLAG_SCROLL_ONE: u32 = 0x80;
pub const LV_OBJ_FLAG_SCROLL_CHAIN_HOR: u32 = 0x100;
pub const LV_OBJ_FLAG_SCROLL_CHAIN_VER: u32 = 0x200;
pub const LV_OBJ_FLAG_SCROLL_CHAIN: u32 = 0x300;
pub const LV_OBJ_FLAG_SCROLL_ON_FOCUS: u32 = 0x400;
pub const LV_OBJ_FLAG_SCROLL_WITH_ARROW: u32 = 0x800;
pub const LV_OBJ_FLAG_SNAPPABLE: u32 = 0x1000;
pub const LV_OBJ_FLAG_PRESS_LOCK: u32 = 0x2000;
pub const LV_OBJ_FLAG_EVENT_BUBBLE: u32 = 0x4000;
pub const LV_OBJ_FLAG_GESTURE_BUBBLE: u32 = 0x8000;
pub const LV_OBJ_FLAG_ADV_HITTEST: u32 = 0x10000;
pub const LV_OBJ_FLAG_IGNORE_LAYOUT: u32 = 0x20000;
pub const LV_OBJ_FLAG_FLOATING: u32 = 0x40000;
pub const LV_OBJ_FLAG_OVERFLOW_VISIBLE: u32 = 0x80000;
pub const LV_OBJ_FLAG_LAYOUT_1: u32 = 0x800000;
pub const LV_OBJ_FLAG_LAYOUT_2: u32 = 0x1000000;
pub const LV_OBJ_FLAG_WIDGET_1: u32 = 0x2000000;
pub const LV_OBJ_FLAG_WIDGET_2: u32 = 0x4000000;
pub const LV_OBJ_FLAG_USER_1: u32 = 0x8000000;
pub const LV_OBJ_FLAG_USER_2: u32 = 0x10000000;
pub const LV_OBJ_FLAG_USER_3: u32 = 0x20000000;
pub const LV_OBJ_FLAG_USER_4: u32 = 0x40000000;

} // verus!
