use vstd::prelude::*;

verus! {

/// Failures of the display subsystem.
#[derive(Copy, Clone, PartialEq, Eq, Structural, PartialOrd, Ord, Hash, Debug)]
pub enum DisplayError {
    NotAvailable,
    FailedToRegister,
    NotRegistered,
}

/// Generic toolkit error. All other errors can be coerced into it.
#[derive(Copy, Clone, PartialEq, Eq, Structural, PartialOrd, Ord, Hash, Debug)]
pub enum LvError {
    InvalidReference,
    Uninitialized,
    LvOOMemory,
    AlreadyInUse,
}

/// Result type used throughout the bindings.
pub type LvResult<T> = Result<T, LvError>;

/// The fixed human-readable text of each error.
pub open spec fn error_message(e: LvError) -> Seq<char> {
    match e {
        LvError::InvalidReference => "Accessed invalid reference or ptr"@,
        LvError::Uninitialized => "LVGL uninitialized"@,
        LvError::LvOOMemory => "LVGL out of memory"@,
        LvError::AlreadyInUse => "Resource already in use"@,
    }
}

/// How a display failure is seen as a generic error.
pub open spec fn lv_error_of(e: DisplayError) -> LvError {
    match e {
        DisplayError::NotAvailable => LvError::Uninitialized,
        DisplayError::FailedToRegister => LvError::InvalidReference,
        DisplayError::NotRegistered => LvError::Uninitialized,
    }
}

/// How a generic error is reported to the display subsystem. Running out of
/// memory and a resource in use both collapse into a failed registration.
pub open spec fn display_error_of(e: LvError) -> DisplayError {
    match e {
        LvError::InvalidReference => DisplayError::FailedToRegister,
        LvError::Uninitialized => DisplayError::NotAvailable,
        LvError::LvOOMemory => DisplayError::FailedToRegister,
        LvError::AlreadyInUse => DisplayError::FailedToRegister,
    }
}

impl LvError {
    /// The human-readable description of the error.
    pub fn message(&self) -> (r: &'static str)
        ensures
            r@ == error_message(*self),
    {
        proof {
            reveal_strlit("Accessed invalid reference or ptr");
            reveal_strlit("LVGL uninitialized");
            reveal_strlit("LVGL out of memory");
            reveal_strlit("Resource already in use");
        }
        match self {
            LvError::InvalidReference => "Accessed invalid reference or ptr",
            LvError::Uninitialized => "LVGL uninitialized",
            LvError::LvOOMemory => "LVGL out of memory",
            LvError::AlreadyInUse => "Resource already in use",
        }
    }
}

impl From<DisplayError> for LvError {
    fn from(err: DisplayError) -> Self {
        match err {
            DisplayError::NotAvailable => LvError::Uninitialized,
            DisplayError::FailedToRegister => LvError::InvalidReference,
            DisplayError::NotRegistered => LvError::Uninitialized,
        }
    }
}

impl vstd::std_specs::convert::FromSpecImpl<DisplayError> for LvError {
    open spec fn obeys_from_spec() -> bool {
        true
    }

    open spec fn from_spec(v: DisplayError) -> Self {
        lv_error_of(v)
    }
}

impl From<LvError> for DisplayError {
    fn from(err: LvError) -> Self {
        match err {
            LvError::InvalidReference => DisplayError::FailedToRegister,
            LvError::Uninitialized => DisplayError::NotAvailable,
            LvError::LvOOMemory => DisplayError::FailedToRegister,
            LvError::AlreadyInUse => DisplayError::FailedToRegister,
        }
    }
}

impl vstd::std_specs::convert::FromSpecImpl<LvError> for DisplayError {
    open spec fn obeys_from_spec() -> bool {
        true
    }

    open spec fn from_spec(v: LvError) -> Self {
        display_error_of(v)
    }
}

} // verus!
