use authware::middleware::{Failure, Readiness, Request, Response};
use authware::probe::{ProbeStage, PROBE_MISMATCH};
use authware::Auth;

fn request(uid: Option<&[u8]>, tok: Option<&[u8]>) -> Request {
    Request {
        user_id_header: uid.map(|b| b.to_vec()),
        token_header: tok.map(|b| b.to_vec()),
        context: None,
    }
}

fn probe(user_id: i64, auth_key: &str, outcome: Result<Response, Failure>) -> ProbeStage {
    ProbeStage {
        expect_user_id: user_id,
        expect_auth_key: auth_key.to_string(),
        outcome,
        readiness: Readiness::Ready,
    }
}

#[test]
fn full_request_passes_through() {
    let mut mw = Auth.new_transform(probe(42, "abc", Ok(Response { status: 200 })));
    let r = mw.call(request(Some(b"42"), Some(b"abc")));
    assert_eq!(r, Ok(Response { status: 200 }));
}

#[test]
fn missing_headers_yield_sentinel_context() {
    let mut mw = Auth.new_transform(probe(0, "", Ok(Response { status: 204 })));
    let r = mw.call(request(None, None));
    assert_eq!(r, Ok(Response { status: 204 }));
}

#[test]
fn malformed_user_id_yields_sentinel_context() {
    let mut mw = Auth.new_transform(probe(0, "", Ok(Response { status: 200 })));
    let r = mw.call(request(Some(b"not-a-number"), None));
    assert_eq!(r, Ok(Response { status: 200 }));
}

#[test]
fn token_only_request_carries_auth_key() {
    let mut mw = Auth.new_transform(probe(0, "tok", Ok(Response { status: 200 })));
    let r = mw.call(request(None, Some(b"tok")));
    assert_eq!(r, Ok(Response { status: 200 }));
}

#[test]
fn downstream_failure_is_surfaced_verbatim() {
    let mut mw = Auth.new_transform(probe(7, "", Err(Failure { code: 77 })));
    let r = mw.call(request(Some(b"7"), None));
    assert_eq!(r, Err(Failure { code: 77 }));
}

#[test]
fn test_double_rejects_unexpected_context() {
    let mut mw = Auth.new_transform(probe(1, "x", Ok(Response { status: 200 })));
    let r = mw.call(request(None, None));
    assert_eq!(r, Err(Failure { code: PROBE_MISMATCH }));
}

#[test]
fn readiness_is_passed_through() {
    for readiness in [
        Readiness::Ready,
        Readiness::Pending,
        Readiness::Failed(Failure { code: 5 }),
    ] {
        let mut stage = probe(0, "", Ok(Response { status: 200 }));
        stage.readiness = readiness;
        let mut mw = Auth.new_transform(stage);
        assert_eq!(mw.poll_ready(), readiness);
    }
}

#[test]
fn new_transform_wraps_the_given_stage() {
    let mw = Auth.new_transform(probe(9, "k", Ok(Response { status: 200 })));
    let inner = mw.into_service();
    assert_eq!(inner.expect_user_id, 9);
    assert_eq!(inner.expect_auth_key, "k");
}
