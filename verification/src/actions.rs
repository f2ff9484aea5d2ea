use vstd::prelude::*;

verus! {

/// Kinds of errors for an action executed on a device.
#[derive(Debug, Clone, Copy, PartialEq, Eq, Structural)]
pub enum ActionErrorKind {
    /// Data needed for an action is not correct because deemed invalid or
    /// malformed.
    InvalidData,
    /// An internal error occurred on the device during the execution of an
    /// action.
    Internal,
}

/// An action error data.
#[derive(Debug)]
pub struct ActionError<'a> {
    /// Action error kind.
    pub kind: ActionErrorKind,
    /// Error description.
    pub description: &'a str,
    /// Information about the error.
    pub info: Option<&'a str>,
}

impl<'a> ActionError<'a> {
    /// Creates a new [`ActionError`] where the description of the error is
    /// passed as a string slice.
    pub fn from_str(kind: ActionErrorKind, description: &'a str) -> (r: Self)
        ensures
            r.kind == kind,
            r.description == description,
            r.info is None,
    {
        ActionError { kind, description, info: None }
    }

    /// Creates a new [`ActionError`] of kind [`ActionErrorKind::InvalidData`].
    pub fn invalid_data(description: &'a str) -> (r: Self)
        ensures
            r.kind == ActionErrorKind::InvalidData,
            r.description == description,
            r.info is None,
    {
        Self::from_str(ActionErrorKind::InvalidData, description)
    }

    /// Creates a new [`ActionError`] of kind [`ActionErrorKind::Internal`].
    pub fn internal(description: &'a str) -> (r: Self)
        ensures
            r.kind == ActionErrorKind::Internal,
            r.description == description,
            r.info is None,
    {
        Self::from_str(ActionErrorKind::Internal, description)
    }

    /// Adds information about the error.
    pub fn info(self, info: &'a str) -> (r: Self)
        ensures
            r.kind == self.kind,
            r.description == self.description,
            r.info == Some(info),
    {
        ActionError { info: Some(info), ..self }
    }
}

}
