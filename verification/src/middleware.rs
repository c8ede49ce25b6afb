//! The interceptor itself: the factory that binds the next pipeline stage,
//! and the bound instance that handles each request.
//!
//! Per request the instance derives an authentication context from the
//! `user_id` and `token` headers, attaches it to the request, forwards the
//! request to the next stage, and passes the stage's outcome — response or
//! failure — through unchanged.

use vstd::prelude::*;

verus! {

use crate::context::{derived_context, AuthContext, CtxModel};
use crate::header_view;

/// What the next stage answers once it completes a request. Its content is
/// opaque to the interceptor, which never alters it.
#[derive(Clone, Copy, Debug, PartialEq, Eq, Structural)]
pub struct Response {
    /// Stands for whatever the downstream handler produced.
    pub status: u16,
}

/// A downstream failure; the interceptor surfaces it verbatim, with no
/// wrapping and no retry.
#[derive(Clone, Copy, Debug, PartialEq, Eq, Structural)]
pub struct Failure {
    /// Stands for whatever failure the downstream stage produced.
    pub code: u64,
}

/// What a readiness check reports.
#[derive(Clone, Copy, Debug, PartialEq, Eq, Structural)]
pub enum Readiness {
    /// The stage can accept a request now.
    Ready,
    /// The stage asks the host to hold requests back for the moment.
    Pending,
    /// The stage failed terminally.
    Failed(Failure),
}

/// An inbound request, as this interceptor sees it: the two identity headers
/// it reads, and the slot of the request's extensible attribute bag that
/// holds the authentication context.
pub struct Request {
    /// Raw bytes of the `user_id` header, if the header is present.
    pub user_id_header: Option<Vec<u8>>,
    /// Raw bytes of the `token` header, if the header is present.
    pub token_header: Option<Vec<u8>>,
    /// The attached authentication context, absent until this interceptor
    /// populates it.
    pub context: Option<AuthContext>,
}

/// The mathematical content of a [`Request`].
#[verifier::ext_equal]
pub struct ReqModel {
    pub user_id_header: Option<Seq<u8>>,
    pub token_header: Option<Seq<u8>>,
    pub context: Option<CtxModel>,
}

impl View for Request {
    type V = ReqModel;

    open spec fn view(&self) -> ReqModel {
        ReqModel {
            user_id_header: header_view(self.user_id_header),
            token_header: header_view(self.token_header),
            context: match self.context {
                Some(c) => Some(c@),
                None => None,
            },
        }
    }
}

/// The request the next stage observes: the same headers, with the derived
/// authentication context attached.
pub open spec fn forwarded_model(m: ReqModel) -> ReqModel {
    ReqModel {
        user_id_header: m.user_id_header,
        token_header: m.token_header,
        context: Some(derived_context(m.user_id_header, m.token_header)),
    }
}

/// Law: context attachment happens before forwarding — whatever request the
/// interceptor receives, the next stage observes it with the derived context
/// present and with the headers unchanged.
pub proof fn lemma_context_attached_before_forward(m: ReqModel)
    ensures
        (forwarded_model(m).context matches Some(c) && c == derived_context(
            m.user_id_header,
            m.token_header,
        )),
        forwarded_model(m).user_id_header == m.user_id_header,
        forwarded_model(m).token_header == m.token_header,
{
}

/// The capability the pipeline host supplies as "next stage": report
/// readiness, and asynchronously handle a request. An implementation
/// describes its own behaviour through the two spec functions and is held
/// to them.
pub trait Stage: Sized {
    /// What this stage reports when polled for readiness.
    spec fn readiness_spec(&self) -> Readiness;

    /// The outcome this stage produces for a request with content `m`.
    spec fn response_spec(&self, m: ReqModel) -> Result<Response, Failure>;

    /// The host's backpressure probe.
    fn poll_ready(&mut self) -> (r: Readiness)
        ensures
            r == old(self).readiness_spec(),
    ;

    /// Handles one request to completion.
    fn call(&mut self, req: Request) -> (r: Result<Response, Failure>)
        ensures
            r == old(self).response_spec(req@),
    ;
}

/// The interceptor factory: a stateless descriptor that, given the next
/// pipeline stage, produces a bound interceptor instance. Construction is
/// infallible and has no side effect beyond wrapping the stage.
pub struct Auth;

impl Auth {
    /// Binds the next stage into a new interceptor instance.
    pub fn new_transform<S: Stage>(&self, service: S) -> (r: AuthMiddleware<S>)
        ensures
            r.stage() == service,
    {
        AuthMiddleware { service }
    }
}

/// The interceptor instance: owns the handle to the next stage; per request
/// it attaches the derived authentication context and forwards, passing the
/// outcome through unmodified.
pub struct AuthMiddleware<S> {
    service: S,
}

impl<S: Stage> AuthMiddleware<S> {
    /// The wrapped next stage.
    pub closed spec fn stage(&self) -> S {
        self.service
    }

    /// Readiness: delegates directly to the next stage's own check, with no
    /// independent logic.
    pub fn poll_ready(&mut self) -> (r: Readiness)
        ensures
            r == old(self).stage().readiness_spec(),
    {
        self.service.poll_ready()
    }

    /// Handles one request: derives the context from the `user_id` and
    /// `token` headers, attaches it to the request, then forwards to the
    /// next stage; the stage's outcome — success or failure — is returned
    /// exactly as produced.
    pub fn call(&mut self, req: Request) -> (r: Result<Response, Failure>)
        ensures
            r == old(self).stage().response_spec(forwarded_model(req@)),
    {
        let ghost m = req@;
        let ctx = AuthContext::from_headers(&req.user_id_header, &req.token_header);
        let forwarded = Request {
            user_id_header: req.user_id_header,
            token_header: req.token_header,
            context: Some(ctx),
        };
        proof {
            assert(forwarded@ =~= forwarded_model(m));
        }
        self.service.call(forwarded)
    }

    /// Releases the wrapped next stage.
    pub fn into_service(self) -> (r: S)
        ensures
            r == self.stage(),
    {
        self.service
    }
}

} // verus!
