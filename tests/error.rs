use lvgl_support::error::{DisplayError, LvError, LvResult};

#[test]
fn display_error_into_lv_error() {
    assert_eq!(LvError::from(DisplayError::NotAvailable), LvError::Uninitialized);
    assert_eq!(LvError::from(DisplayError::FailedToRegister), LvError::InvalidReference);
    assert_eq!(LvError::from(DisplayError::NotRegistered), LvError::Uninitialized);
}

#[test]
fn lv_error_into_display_error() {
    assert_eq!(DisplayError::from(LvError::InvalidReference), DisplayError::FailedToRegister);
    assert_eq!(DisplayError::from(LvError::Uninitialized), DisplayError::NotAvailable);
    assert_eq!(DisplayError::from(LvError::LvOOMemory), DisplayError::FailedToRegister);
    assert_eq!(DisplayError::from(LvError::AlreadyInUse), DisplayError::FailedToRegister);
}

#[test]
fn lv_error_messages() {
    assert_eq!(LvError::InvalidReference.message(), "Accessed invalid reference or ptr");
    assert_eq!(LvError::Uninitialized.message(), "LVGL uninitialized");
    assert_eq!(LvError::LvOOMemory.message(), "LVGL out of memory");
    assert_eq!(LvError::AlreadyInUse.message(), "Resource already in use");
}

fn fails() -> LvResult<u8> {
    let e: DisplayError = DisplayError::NotRegistered;
    Err(e)?;
    Ok(1)
}

#[test]
fn display_error_propagates_with_question_mark() {
    assert_eq!(fails(), Err(LvError::Uninitialized));
}
