//! Handles of the model sessions that the hosts hold.
use vstd::prelude::*;

verus! {

/// The host's handle of a session.
pub type Session = u32;

/// The host's handle of a tensor within a session.
pub type Tensor = u32;

/// A byte count as the host passes it.
pub type TensorSize = u32;

/// A TensorFlow session, known to the guest by the host's handle.
pub struct TFSession {
    context: Session,
}

impl View for TFSession {
    type V = Session;

    closed spec fn view(&self) -> Session {
        self.context
    }
}

impl TFSession {
    /// The session that the host created under `context`.
    pub fn from_context(context: Session) -> (s: TFSession)
        ensures
            s@ == context,
    {
        TFSession { context }
    }

    /// The host's handle of this session.
    pub fn context(&self) -> (r: Session)
        ensures
            r == self@,
    {
        self.context
    }
}

/// A TensorFlow-Lite session, known to the guest by the host's handle.
pub struct TFLiteSession {
    context: Session,
}

impl View for TFLiteSession {
    type V = Session;

    closed spec fn view(&self) -> Session {
        self.context
    }
}

impl TFLiteSession {
    /// The session that the host created under `context`.
    pub fn from_context(context: Session) -> (s: TFLiteSession)
        ensures
            s@ == context,
    {
        TFLiteSession { context }
    }

    /// The host's handle of this session.
    pub fn context(&self) -> (r: Session)
        ensures
            r == self@,
    {
        self.context
    }
}

} // verus!
