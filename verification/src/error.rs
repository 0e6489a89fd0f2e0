//! The error type test code works with
//!
//! Every error the test-stand API can produce converts into this one
//! enumeration, so a test case can propagate any failure with `?` and
//! report it as a test failure.

use vstd::prelude::*;

use crate::assistant::{
    AssistantError, AssistantExpectNothingError, AssistantPinOperationError,
    AssistantUsartWaitError,
};
use crate::remote_pin::ReadLevelError;
use crate::test_stand::{NotConfiguredError, TestStandInitError};

verus! {

/// Any failure a test case can run into
#[derive(Debug, Eq, PartialEq)]
pub enum Error {
    Assistant(AssistantError),
    AssistantExpectNothing(AssistantExpectNothingError),
    AssistantPinOperation(AssistantPinOperationError),
    AssistantPinRead(ReadLevelError),
    AssistantUsartWait(AssistantUsartWaitError),
    NotConfigured(NotConfiguredError),
    TestStandInit(TestStandInitError),
}

impl From<AssistantError> for Error {
    fn from(err: AssistantError) -> (r: Self) {
        Self::Assistant(err)
    }
}

impl vstd::std_specs::convert::FromSpecImpl<AssistantError> for Error {
    open spec fn obeys_from_spec() -> bool {
        true
    }

    open spec fn from_spec(err: AssistantError) -> Self {
        Self::Assistant(err)
    }
}

impl From<AssistantExpectNothingError> for Error {
    fn from(err: AssistantExpectNothingError) -> (r: Self) {
        Self::AssistantExpectNothing(err)
    }
}

impl vstd::std_specs::convert::FromSpecImpl<AssistantExpectNothingError> for Error {
    open spec fn obeys_from_spec() -> bool {
        true
    }

    open spec fn from_spec(err: AssistantExpectNothingError) -> Self {
        Self::AssistantExpectNothing(err)
    }
}

impl From<AssistantPinOperationError> for Error {
    fn from(err: AssistantPinOperationError) -> (r: Self) {
        Self::AssistantPinOperation(err)
    }
}

impl vstd::std_specs::convert::FromSpecImpl<AssistantPinOperationError> for Error {
    open spec fn obeys_from_spec() -> bool {
        true
    }

    open spec fn from_spec(err: AssistantPinOperationError) -> Self {
        Self::AssistantPinOperation(err)
    }
}

impl From<ReadLevelError> for Error {
    fn from(err: ReadLevelError) -> (r: Self) {
        Self::AssistantPinRead(err)
    }
}

impl vstd::std_specs::convert::FromSpecImpl<ReadLevelError> for Error {
    open spec fn obeys_from_spec() -> bool {
        true
    }

    open spec fn from_spec(err: ReadLevelError) -> Self {
        Self::AssistantPinRead(err)
    }
}

impl From<AssistantUsartWaitError> for Error {
    fn from(err: AssistantUsartWaitError) -> (r: Self) {
        Self::AssistantUsartWait(err)
    }
}

impl vstd::std_specs::convert::FromSpecImpl<AssistantUsartWaitError> for Error {
    open spec fn obeys_from_spec() -> bool {
        true
    }

    open spec fn from_spec(err: AssistantUsartWaitError) -> Self {
        Self::AssistantUsartWait(err)
    }
}

impl From<NotConfiguredError> for Error {
    fn from(err: NotConfiguredError) -> (r: Self) {
        Self::NotConfigured(err)
    }
}

impl vstd::std_specs::convert::FromSpecImpl<NotConfiguredError> for Error {
    open spec fn obeys_from_spec() -> bool {
        true
    }

    open spec fn from_spec(err: NotConfiguredError) -> Self {
        Self::NotConfigured(err)
    }
}

impl From<TestStandInitError> for Error {
    fn from(err: TestStandInitError) -> (r: Self) {
        Self::TestStandInit(err)
    }
}

impl vstd::std_specs::convert::FromSpecImpl<TestStandInitError> for Error {
    open spec fn obeys_from_spec() -> bool {
        true
    }

    open spec fn from_spec(err: TestStandInitError) -> Self {
        Self::TestStandInit(err)
    }
}

} // verus!
