//! Status codes of the accessibility API.

use vstd::prelude::*;

verus! {

/// A status code returned by an accessibility call. Zero reports success;
/// every other code names a failure.
#[derive(Clone, Copy, Debug, PartialEq, Eq, Hash, Structural)]
pub struct AXError(pub i32);

/// No error occurred.
pub const SUCCESS: i32 = 0;

/// A system error occurred, such as the failure to allocate an object.
pub const FAILURE: i32 = -25200;

/// An illegal argument was passed to the function.
pub const ILLEGAL_ARGUMENT: i32 = -25201;

/// The element passed to the function is invalid.
pub const INVALID_UI_ELEMENT: i32 = -25202;

/// The observer passed to the function is not a valid observer.
pub const INVALID_UI_ELEMENT_OBSERVER: i32 = -25203;

/// Messaging failed, or the application is busy or unresponsive.
pub const CANNOT_COMPLETE: i32 = -25204;

/// The attribute is not supported by the element.
pub const ATTRIBUTE_UNSUPPORTED: i32 = -25205;

/// The action is not supported by the element.
pub const ACTION_UNSUPPORTED: i32 = -25206;

/// The notification is not supported by the element.
pub const NOTIFICATION_UNSUPPORTED: i32 = -25207;

/// The function or method is not implemented.
pub const NOT_IMPLEMENTED: i32 = -25208;

/// This notification has already been registered for.
pub const NOTIFICATION_ALREADY_REGISTERED: i32 = -25209;

/// The notification is not registered yet.
pub const NOTIFICATION_NOT_REGISTERED: i32 = -25210;

/// The accessibility API is disabled.
pub const API_DISABLED: i32 = -25211;

/// The requested value or element does not exist.
pub const NO_VALUE: i32 = -25212;

/// The parameterized attribute is not supported by the element.
pub const PARAMETERIZED_ATTRIBUTE_UNSUPPORTED: i32 = -25213;

/// Not enough precision.
pub const NOT_ENOUGH_PRECISION: i32 = -25214;

impl AXError {
    /// Whether this status reports success.
    pub open spec fn is_success(self) -> bool {
        self.0 == SUCCESS
    }

    /// What `into_result` yields for this status.
    pub open spec fn as_result(self) -> Result<(), AXError> {
        if self.is_success() {
            Ok(())
        } else {
            Err(self)
        }
    }
}

/// Turns a status code into a `Result`.
pub trait AXErrorExt: Sized {
    /// `Ok(())` for the success status, and for every other status an error
    /// that carries exactly that status.
    fn into_result(self) -> Result<(), AXError>;
}

impl AXErrorExt for AXError {
    fn into_result(self) -> (r: Result<(), AXError>)
        ensures
            r == self.as_result(),
            self.0 == SUCCESS ==> r == Ok::<(), AXError>(()),
            self.0 != SUCCESS ==> r == Err::<(), AXError>(self),
    {
        if self.0 == SUCCESS {
            Ok(())
        } else {
            Err(self)
        }
    }
}

/// No status is dropped: the result is `Ok` exactly for the success status,
/// and an error always carries the status it came from.
pub proof fn lemma_into_result_keeps_status(status: AXError)
    ensures
        status.as_result() is Ok <==> status.0 == SUCCESS,
        status.as_result() is Err ==> status.as_result() == Err::<(), AXError>(status),
        status.as_result() is Ok ==> status == AXError(SUCCESS),
{
}

} // verus!
