//! A deterministic next stage for exercising the interceptor end to end:
//! a test double that checks, at the moment it is invoked, that the request
//! already carries the expected authentication context.

use vstd::prelude::*;

verus! {

use crate::middleware::{Failure, Readiness, ReqModel, Request, Response, Stage};

/// The failure code a [`ProbeStage`] answers when a request reaches it
/// without the context it was told to expect.
pub const PROBE_MISMATCH: u64 = 400;

/// A scripted next stage: it answers its scripted outcome only if the
/// arriving request carries the expected authentication context, and a
/// [`PROBE_MISMATCH`] failure otherwise — so its outcome is observable
/// evidence that the context was attached before it ran.
pub struct ProbeStage {
    /// The `user_id` the arriving context must hold.
    pub expect_user_id: i64,
    /// The `auth_key` the arriving context must hold.
    pub expect_auth_key: String,
    /// What to answer when the expected context is present.
    pub outcome: Result<Response, Failure>,
    /// What to report when polled for readiness.
    pub readiness: Readiness,
}

impl Stage for ProbeStage {
    open spec fn readiness_spec(&self) -> Readiness {
        self.readiness
    }

    open spec fn response_spec(&self, m: ReqModel) -> Result<Response, Failure> {
        if m.context matches Some(c) && c.user_id == self.expect_user_id as int
            && c.auth_key == self.expect_auth_key@ {
            self.outcome
        } else {
            Err(Failure { code: PROBE_MISMATCH })
        }
    }

    fn poll_ready(&mut self) -> (r: Readiness) {
        self.readiness
    }

    fn call(&mut self, req: Request) -> (r: Result<Response, Failure>) {
        let matched = match &req.context {
            Some(c) => c.user_id == self.expect_user_id && c.auth_key == self.expect_auth_key,
            None => false,
        };
        if matched {
            self.outcome
        } else {
            Err(Failure { code: PROBE_MISMATCH })
        }
    }
}

} // verus!
