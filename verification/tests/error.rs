use golem_cli::error::{
    display_golem_error, display_promise_id, display_service_error, display_worker_id,
    format_status_code, response_from_worker_error, u64_to_text, worker_error_from_response,
    ApiError, ClientError, CloudProjectService, ComponentService, GolemError, HasServiceName,
    HintError, PromiseId, ServiceError, ServiceErrorKind, ServiceErrorResponse,
    VersionedComponentId, WorkerId, WorkerService,
};

fn plain(s: &str) -> String {
    let mut out = String::new();
    let mut chars = s.chars().peekable();
    while let Some(c) = chars.next() {
        if c == '\x1b' {
            for d in chars.by_ref() {
                if d == 'm' {
                    break;
                }
            }
        } else {
            out.push(c);
        }
    }
    out
}

fn wid() -> WorkerId {
    WorkerId { component_id: "c-1".to_string(), worker_name: "w-1".to_string() }
}

#[test]
fn decimal_text_of_numbers() {
    assert_eq!(u64_to_text(0), "0");
    assert_eq!(u64_to_text(7), "7");
    assert_eq!(u64_to_text(1024), "1024");
    assert_eq!(u64_to_text(u64::MAX), "18446744073709551615");
}

#[test]
fn worker_and_promise_ids() {
    assert_eq!(display_worker_id(&wid()), "c-1/w-1");
    assert_eq!(display_promise_id(&PromiseId { worker_id: wid(), oplog_idx: 42 }), "c-1/w-1/42");
}

#[test]
fn hint_error_names() {
    assert_eq!(HintError::NoApplicationManifestFound.to_text(), "NoApplicationManifestFound");
    assert_eq!(HintError::ExpectedCloudProfile.to_text(), "ExpectedCloudProfile");
}

#[test]
fn golem_error_messages() {
    assert_eq!(
        display_golem_error(&GolemError::InvalidRequest { details: "bad".to_string() }),
        "Invalid request: bad"
    );
    assert_eq!(
        plain(&display_golem_error(&GolemError::WorkerNotFound { worker_id: wid() })),
        "Worker not found: c-1/w-1"
    );
    assert_eq!(
        plain(&display_golem_error(&GolemError::FailedToResumeWorker {
            worker_id: wid(),
            reason: Box::new(GolemError::ShardingNotReady),
        })),
        "Failed to resume worker c-1/w-1: Sharding not ready"
    );
    assert_eq!(
        plain(&display_golem_error(&GolemError::ComponentDownloadFailed {
            component_id: VersionedComponentId { component_id: "c-9".to_string(), version: 3 },
            reason: "timeout".to_string(),
        })),
        "Failed to download component c-9@3: timeout"
    );
    assert_eq!(
        display_golem_error(&GolemError::Interrupted { recover_immediately: true }),
        "Simulated crash"
    );
    assert_eq!(
        display_golem_error(&GolemError::Interrupted { recover_immediately: false }),
        "Worker interrupted"
    );
    assert_eq!(
        display_golem_error(&GolemError::InvalidShardId {
            shard_id: "7".to_string(),
            shard_ids: vec!["1".to_string(), "2".to_string()],
        }),
        "Invalid shard id: 7 not in [1, 2]"
    );
    assert_eq!(
        plain(&display_golem_error(&GolemError::PromiseNotFound {
            promise_id: PromiseId { worker_id: wid(), oplog_idx: 5 },
        })),
        "Promise not found: c-1/w-1/5"
    );
    assert_eq!(
        plain(&display_golem_error(&GolemError::FileSystemError {
            path: "/tmp/x".to_string(),
            reason: "denied".to_string(),
        })),
        "File system error: /tmp/x, denied"
    );
}

#[test]
fn service_error_responses() {
    let r = ServiceErrorResponse::from_api_error(ApiError::Error400(vec![
        "first".to_string(),
        "second".to_string(),
    ]));
    assert_eq!(r.status_code, 400);
    assert_eq!(r.message, "first\nsecond");
    let r = ServiceErrorResponse::from_api_error(ApiError::Error404("missing".to_string()));
    assert_eq!(r.status_code, 404);
    assert_eq!(r.message, "missing");
    let r = response_from_worker_error(ApiError::Error500(GolemError::InvalidAccount));
    assert_eq!(r.status_code, 500);
    assert_eq!(r.message, "Invalid account");
    let r = response_from_worker_error(ApiError::Error409("conflict".to_string()));
    assert_eq!(r.status_code, 409);
    assert_eq!(r.message, "conflict");
}

#[test]
fn status_codes_with_reasons() {
    assert_eq!(format_status_code(404), "404 Not Found");
    assert_eq!(format_status_code(500), "500 Internal Server Error");
    assert_eq!(format_status_code(599), "599 <unknown status code>");
    assert_eq!(format_status_code(99), "99");
    assert_eq!(format_status_code(1000), "1000");
}

#[test]
fn service_names() {
    assert_eq!(WorkerService::service_name(), "Worker");
    assert_eq!(ComponentService::service_name(), "Component");
    assert_eq!(CloudProjectService::service_name(), "Cloud Project");
}

#[test]
fn service_error_messages() {
    let e = ServiceError::from_client_error::<WorkerService>(ClientError::Item(ServiceErrorResponse {
        status_code: 404,
        message: "worker not found".to_string(),
    }));
    assert_eq!(plain(&display_service_error(&e)), "Worker Service - Error: 404 Not Found, worker not found");
    let e = ServiceError::from_client_error::<ComponentService>(ClientError::Reqwest("timed out".to_string()));
    assert_eq!(plain(&display_service_error(&e)), "Component Service - Network Error: timed out");
    let e = ServiceError::from_client_error::<ComponentService>(ClientError::Unexpected {
        code: 502,
        data: b"bad gateway".to_vec(),
    });
    assert_eq!(
        plain(&display_service_error(&e)),
        "Component Service - Unexpected Response Error: 502 Bad Gateway, bad gateway"
    );
    let e = ServiceError::from_client_error::<CloudProjectService>(ClientError::Serde("eof".to_string()));
    assert_eq!(plain(&display_service_error(&e)), "Cloud Project Service - Serialization Error: eof");
}

#[test]
fn worker_connection_refusals() {
    let e = worker_error_from_response(404, Some(ApiError::Error404("no such worker".to_string())), vec![]);
    assert_eq!(e.service_name, "Worker");
    match &e.kind {
        ServiceErrorKind::ErrorResponse(r) => {
            assert_eq!(r.status_code, 404);
            assert_eq!(r.message, "no such worker");
        }
        _ => panic!("expected an error response"),
    }
    let e = worker_error_from_response(418, None, b"teapot".to_vec());
    match &e.kind {
        ServiceErrorKind::UnexpectedResponse { status_code, payload } => {
            assert_eq!(*status_code, 418);
            assert_eq!(payload, b"teapot");
        }
        _ => panic!("expected an unexpected response"),
    }
    let e = worker_error_from_response(500, None, b"{".to_vec());
    assert!(matches!(e.kind, ServiceErrorKind::UnexpectedResponse { status_code: 500, .. }));
}
