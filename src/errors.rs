//! The application's error type, gathering the errors of each part.
use vstd::prelude::*;

use crate::media::{capture_error_text, CaptureError};
use crate::stealth::{stealth_error_text, StealthError};
use crate::text::join2;
use crate::window::{window_error_text, WindowError};

verus! {

#[derive(Debug)]
pub enum AppError {
    Stealth(StealthError),
    Window(WindowError),
    Capture(CaptureError),
    /// A failure reported by the windowing host.
    Tauri(String),
    Unknown(String),
}

impl AppError {
    /// Text shown to the user: the part that failed, then its own message.
    pub fn message(&self) -> (r: String)
        ensures
            self matches AppError::Tauri(m) ==> r@ == "Tauri error: "@ + m@,
            self matches AppError::Unknown(m) ==> r@ == "Unknown error: "@ + m@,
            self matches AppError::Stealth(e) ==> r@ == "Stealth error: "@ + stealth_error_text(
                *e,
            ),
            self matches AppError::Window(e) ==> r@ == "Window error: "@ + window_error_text(*e),
            self matches AppError::Capture(e) ==> (capture_error_text(*e) is Some ==> r@
                == "Capture error: "@ + capture_error_text(*e)->Some_0),
            self matches AppError::Capture(e) ==> (e is IoError ==> r@.len() >= 31 && r@.subrange(
                0,
                31,
            ) == "Capture error: File I/O error: "@),
    {
        match self {
            AppError::Stealth(e) => {
                let m = e.message();
                join2("Stealth error: ", m.as_str())
            },
            AppError::Window(e) => {
                let m = e.message();
                join2("Window error: ", m.as_str())
            },
            AppError::Capture(e) => {
                let m = e.message();
                let r = join2("Capture error: ", m.as_str());
                proof {
                    reveal_strlit("Capture error: ");
                    reveal_strlit("File I/O error: ");
                    reveal_strlit("Capture error: File I/O error: ");
                    if e is IoError {
                        assert(m@.subrange(0, 16) == "File I/O error: "@);
                        assert("Capture error: "@.len() == 15);
                        assert(r@.subrange(0, 31) =~= "Capture error: "@ + m@.subrange(0, 16));
                        assert("Capture error: File I/O error: "@ =~= "Capture error: "@
                            + "File I/O error: "@);
                        assert(r@.subrange(0, 31) =~= "Capture error: File I/O error: "@);
                    }
                }
                r
            },
            AppError::Tauri(m) => join2("Tauri error: ", m.as_str()),
            AppError::Unknown(m) => join2("Unknown error: ", m.as_str()),
        }
    }
}

impl From<StealthError> for AppError {
    fn from(e: StealthError) -> (r: AppError)
        ensures
            r == AppError::Stealth(e),
    {
        AppError::Stealth(e)
    }
}

impl vstd::std_specs::convert::FromSpecImpl<StealthError> for AppError {
    open spec fn obeys_from_spec() -> bool {
        true
    }

    open spec fn from_spec(e: StealthError) -> AppError {
        AppError::Stealth(e)
    }
}

impl From<WindowError> for AppError {
    fn from(e: WindowError) -> (r: AppError)
        ensures
            r == AppError::Window(e),
    {
        AppError::Window(e)
    }
}

impl vstd::std_specs::convert::FromSpecImpl<WindowError> for AppError {
    open spec fn obeys_from_spec() -> bool {
        true
    }

    open spec fn from_spec(e: WindowError) -> AppError {
        AppError::Window(e)
    }
}

impl From<CaptureError> for AppError {
    fn from(e: CaptureError) -> (r: AppError)
        ensures
            r == AppError::Capture(e),
    {
        AppError::Capture(e)
    }
}

impl vstd::std_specs::convert::FromSpecImpl<CaptureError> for AppError {
    open spec fn obeys_from_spec() -> bool {
        true
    }

    open spec fn from_spec(e: CaptureError) -> AppError {
        AppError::Capture(e)
    }
}

} // verus!
