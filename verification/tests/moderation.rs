use eulesia::error::ApiError;
use eulesia::moderation::reports::{
    clamp_limit, create_report, get_report, list_reports, report_to_response, step,
    update_report, ReportAction, ReportEvent, ReportFlow, ReportReply, DEFAULT_LIMIT, MAX_LIMIT,
};
use eulesia::moderation::types::{
    CreateReportRequest, ReportListParams, ReportRecord, UpdateReportRequest,
};
use eulesia::moderation::{require_moderator, routes, Endpoint, HttpMethod};
use eulesia::time::Timestamp;

fn now() -> Timestamp {
    Timestamp::new(1_700_000_000, 0, 7200).unwrap()
}

fn record(id: u128, status: &str) -> ReportRecord {
    ReportRecord {
        id,
        reporter_id: 7,
        content_type: "thread".to_string(),
        content_id: 99,
        reason: "spam".to_string(),
        description: Some("buy now".to_string()),
        status: status.to_string(),
        assigned_to: None,
        resolved_at: None,
        created_at: Timestamp::new(0, 0, 0).unwrap(),
    }
}

fn moderator() -> ReportEvent {
    ReportEvent::UserLoaded(Ok(Some("moderator".to_string())))
}

fn replied_error(action: &ReportAction) -> &ApiError {
    match action {
        ReportAction::Reply(Err(e)) => e,
        _ => panic!("expected an error reply"),
    }
}

fn replied_report(action: ReportAction) -> eulesia::moderation::types::ReportResponse {
    match action {
        ReportAction::Reply(Ok(ReportReply::Report(r))) => r,
        _ => panic!("expected a report reply"),
    }
}

#[test]
fn clamp_limit_defaults_and_caps() {
    assert_eq!(clamp_limit(None), DEFAULT_LIMIT);
    assert_eq!(clamp_limit(None), 20);
    assert_eq!(clamp_limit(Some(5)), 5);
    assert_eq!(clamp_limit(Some(0)), 0);
    assert_eq!(clamp_limit(Some(100)), 100);
    assert_eq!(clamp_limit(Some(101)), MAX_LIMIT);
    assert_eq!(clamp_limit(Some(u64::MAX)), 100);
}

#[test]
fn moderator_check_answers() {
    assert!(require_moderator(Ok(Some("moderator".to_string()))).is_ok());
    assert!(matches!(require_moderator(Ok(Some("user".to_string()))), Err(ApiError::Forbidden)));
    assert!(matches!(
        require_moderator(Ok(Some("Moderator".to_string()))),
        Err(ApiError::Forbidden)
    ));
    assert!(matches!(require_moderator(Ok(None)), Err(ApiError::Unauthorized)));
    match require_moderator(Err("connection lost".to_string())) {
        Err(ApiError::Database(m)) => assert_eq!(m, "connection lost"),
        _ => panic!("expected a database error"),
    }
}

#[test]
fn routes_table() {
    let r = routes();
    assert_eq!(r.len(), 11);
    assert_eq!(r[0].path, "/moderation/reports");
    assert_eq!(r[0].method, HttpMethod::Post);
    assert_eq!(r[0].endpoint, Endpoint::CreateReport);
    assert_eq!(r[3].path, "/moderation/reports/{id}");
    assert_eq!(r[3].method, HttpMethod::Patch);
    assert_eq!(r[6].path, "/moderation/sanctions/{id}/revoke");
    assert_eq!(r[7].path, "/moderation/sanctions/user/{user_id}");
    assert_eq!(r[10].path, "/moderation/appeals/{id}/respond");
    assert_eq!(r[10].endpoint, Endpoint::RespondAppeal);
    for (i, a) in r.iter().enumerate() {
        for b in r.iter().skip(i + 1) {
            assert!(a.path != b.path || a.method != b.method);
            assert_ne!(a.endpoint, b.endpoint);
        }
    }
}

#[test]
fn report_response_writes_times_as_rfc3339() {
    let mut r = record(1, "resolved");
    r.resolved_at = Some(now());
    let resp = report_to_response(&r);
    assert_eq!(resp.id, 1);
    assert_eq!(resp.reporter_id, 7);
    assert_eq!(resp.content_type, "thread");
    assert_eq!(resp.content_id, 99);
    assert_eq!(resp.reason, "spam");
    assert_eq!(resp.description.as_deref(), Some("buy now"));
    assert_eq!(resp.status, "resolved");
    assert_eq!(resp.created_at, "1970-01-01T00:00:00+00:00");
    assert_eq!(resp.resolved_at.as_deref(), Some("2023-11-15T00:13:20+02:00"));
}

#[test]
fn blank_reason_is_refused_before_anything_is_stored() {
    let req = CreateReportRequest {
        content_type: "thread".to_string(),
        content_id: 3,
        reason: "  \t ".to_string(),
        description: None,
    };
    let (flow, action) = create_report(7, req, 1, now());
    assert!(matches!(flow, ReportFlow::Finished));
    match replied_error(&action) {
        ApiError::BadRequest(m) => assert_eq!(m, "reason must not be empty"),
        _ => panic!("expected a bad request"),
    }
}

#[test]
fn filing_stores_a_pending_report_and_answers_it() {
    let req = CreateReportRequest {
        content_type: "comment".to_string(),
        content_id: 3,
        reason: "abuse".to_string(),
        description: Some("details".to_string()),
    };
    let (flow, action) = create_report(7, req, 42, now());
    let ReportAction::Insert { record } = action else { panic!("expected an insert") };
    assert_eq!(record.id, 42);
    assert_eq!(record.reporter_id, 7);
    assert_eq!(record.status, "pending");
    assert_eq!(record.reason, "abuse");
    assert_eq!(record.content_type, "comment");
    assert!(record.assigned_to.is_none());
    assert!(record.resolved_at.is_none());
    let (flow, action) = step(flow, ReportEvent::Inserted(Ok(record)));
    assert!(matches!(flow, ReportFlow::Finished));
    let resp = replied_report(action);
    assert_eq!(resp.id, 42);
    assert_eq!(resp.status, "pending");
    assert_eq!(resp.created_at, "2023-11-15T00:13:20+02:00");
}

#[test]
fn filing_reports_a_database_failure() {
    let req = CreateReportRequest {
        content_type: "comment".to_string(),
        content_id: 3,
        reason: "abuse".to_string(),
        description: None,
    };
    let (flow, _) = create_report(7, req, 42, now());
    let (flow, action) = step(flow, ReportEvent::Inserted(Err("disk full".to_string())));
    assert!(matches!(flow, ReportFlow::Finished));
    assert!(matches!(replied_error(&action), ApiError::Database(m) if m == "disk full"));
}

#[test]
fn listing_is_for_moderators_only() {
    let params = ReportListParams { status: None, offset: None, limit: None };
    let (flow, action) = list_reports(5, params);
    assert!(matches!(action, ReportAction::LoadUser { user_id: 5 }));
    let (flow, action) = step(flow, ReportEvent::UserLoaded(Ok(Some("member".to_string()))));
    assert!(matches!(flow, ReportFlow::Finished));
    assert!(matches!(replied_error(&action), ApiError::Forbidden));
}

#[test]
fn listing_serves_the_clamped_window() {
    let params = ReportListParams {
        status: Some("pending".to_string()),
        offset: Some(40),
        limit: Some(500),
    };
    let (flow, _) = list_reports(5, params);
    let (flow, action) = step(flow, moderator());
    match action {
        ReportAction::FetchPage { status, offset, limit } => {
            assert_eq!(status.as_deref(), Some("pending"));
            assert_eq!(offset, 40);
            assert_eq!(limit, 100);
        },
        _ => panic!("expected a page fetch"),
    }
    let (flow, action) = step(flow, ReportEvent::Listed(Ok((vec![record(1, "pending"), record(2, "pending")], 57))));
    assert!(matches!(flow, ReportFlow::Finished));
    match action {
        ReportAction::Reply(Ok(ReportReply::Page(p))) => {
            assert_eq!(p.data.len(), 2);
            assert_eq!(p.data[0].id, 1);
            assert_eq!(p.data[1].id, 2);
            assert_eq!(p.total, 57);
            assert_eq!(p.offset, 40);
            assert_eq!(p.limit, 100);
        },
        _ => panic!("expected a page"),
    }
}

#[test]
fn listing_defaults_to_the_first_page_of_twenty() {
    let params = ReportListParams { status: None, offset: None, limit: None };
    let (flow, _) = list_reports(5, params);
    let (_, action) = step(flow, moderator());
    assert!(matches!(action, ReportAction::FetchPage { status: None, offset: 0, limit: 20 }));
}

#[test]
fn lookup_of_a_missing_report_is_not_found() {
    let (flow, action) = get_report(5, 9);
    assert!(matches!(action, ReportAction::LoadUser { user_id: 5 }));
    let (flow, action) = step(flow, moderator());
    assert!(matches!(action, ReportAction::Fetch { id: 9 }));
    let (flow, action) = step(flow, ReportEvent::Found(Ok(None)));
    assert!(matches!(flow, ReportFlow::Finished));
    assert!(matches!(replied_error(&action), ApiError::NotFound(m) if m == "report not found"));
}

#[test]
fn lookup_answers_the_report() {
    let (flow, _) = get_report(5, 9);
    let (flow, _) = step(flow, moderator());
    let (_, action) = step(flow, ReportEvent::Found(Ok(Some(record(9, "pending")))));
    assert_eq!(replied_report(action).id, 9);
}

#[test]
fn lookup_by_an_unknown_user_is_unauthorized() {
    let (flow, _) = get_report(5, 9);
    let (flow, action) = step(flow, ReportEvent::UserLoaded(Ok(None)));
    assert!(matches!(flow, ReportFlow::Finished));
    assert!(matches!(replied_error(&action), ApiError::Unauthorized));
}

#[test]
fn resolving_a_report_stamps_it_and_assigns_it() {
    let req = UpdateReportRequest { status: Some("resolved".to_string()), assigned_to: Some(11) };
    let (flow, action) = update_report(5, 9, req);
    assert!(matches!(action, ReportAction::LoadUser { user_id: 5 }));
    let (flow, action) = step(flow, moderator());
    assert!(matches!(action, ReportAction::Fetch { id: 9 }));
    let (flow, action) = step(flow, ReportEvent::Found(Ok(Some(record(9, "pending")))));
    assert!(matches!(action, ReportAction::ReadClock));
    let (flow, action) = step(flow, ReportEvent::Clock(now()));
    match &action {
        ReportAction::SetStatus { id, status, resolved_at } => {
            assert_eq!(*id, 9);
            assert_eq!(status, "resolved");
            let t = resolved_at.expect("resolution time");
            assert_eq!(t.unix_secs(), 1_700_000_000);
        },
        _ => panic!("expected a status change"),
    }
    let (flow, action) = step(flow, ReportEvent::Written(Ok(())));
    assert!(matches!(action, ReportAction::Assign { id: 9, moderator_id: 11 }));
    let (flow, action) = step(flow, ReportEvent::Written(Ok(())));
    assert!(matches!(action, ReportAction::Fetch { id: 9 }));
    let mut stored = record(9, "resolved");
    stored.assigned_to = Some(11);
    stored.resolved_at = Some(now());
    let (flow, action) = step(flow, ReportEvent::Found(Ok(Some(stored))));
    assert!(matches!(flow, ReportFlow::Finished));
    let resp = replied_report(action);
    assert_eq!(resp.status, "resolved");
    assert_eq!(resp.assigned_to, Some(11));
    assert_eq!(resp.resolved_at.as_deref(), Some("2023-11-15T00:13:20+02:00"));
}

#[test]
fn other_statuses_clear_the_resolution_time() {
    let req = UpdateReportRequest { status: Some("dismissed".to_string()), assigned_to: None };
    let (flow, _) = update_report(5, 9, req);
    let (flow, _) = step(flow, moderator());
    let (flow, action) = step(flow, ReportEvent::Found(Ok(Some(record(9, "pending")))));
    assert!(matches!(action, ReportAction::SetStatus { resolved_at: None, .. }));
    let (_, action) = step(flow, ReportEvent::Written(Ok(())));
    assert!(matches!(action, ReportAction::Fetch { id: 9 }));
}

#[test]
fn assignment_alone_skips_the_status() {
    let req = UpdateReportRequest { status: None, assigned_to: Some(3) };
    let (flow, _) = update_report(5, 9, req);
    let (flow, _) = step(flow, moderator());
    let (_, action) = step(flow, ReportEvent::Found(Ok(Some(record(9, "pending")))));
    assert!(matches!(action, ReportAction::Assign { id: 9, moderator_id: 3 }));
}

#[test]
fn empty_update_just_reloads() {
    let req = UpdateReportRequest { status: None, assigned_to: None };
    let (flow, _) = update_report(5, 9, req);
    let (flow, _) = step(flow, moderator());
    let (_, action) = step(flow, ReportEvent::Found(Ok(Some(record(9, "pending")))));
    assert!(matches!(action, ReportAction::Fetch { id: 9 }));
}

#[test]
fn updating_a_missing_report_writes_nothing() {
    let req = UpdateReportRequest { status: Some("resolved".to_string()), assigned_to: Some(1) };
    let (flow, _) = update_report(5, 9, req);
    let (flow, _) = step(flow, moderator());
    let (flow, action) = step(flow, ReportEvent::Found(Ok(None)));
    assert!(matches!(flow, ReportFlow::Finished));
    assert!(matches!(replied_error(&action), ApiError::NotFound(_)));
}

#[test]
fn updating_stops_on_a_failed_write() {
    let req = UpdateReportRequest { status: Some("resolved".to_string()), assigned_to: Some(1) };
    let (flow, _) = update_report(5, 9, req);
    let (flow, _) = step(flow, moderator());
    let (flow, _) = step(flow, ReportEvent::Found(Ok(Some(record(9, "pending")))));
    let (flow, _) = step(flow, ReportEvent::Clock(now()));
    let (flow, action) = step(flow, ReportEvent::Written(Err("locked".to_string())));
    assert!(matches!(flow, ReportFlow::Finished));
    assert!(matches!(replied_error(&action), ApiError::Database(m) if m == "locked"));
}

#[test]
fn updating_is_forbidden_to_non_moderators() {
    let req = UpdateReportRequest { status: Some("resolved".to_string()), assigned_to: None };
    let (flow, _) = update_report(5, 9, req);
    let (flow, action) = step(flow, ReportEvent::UserLoaded(Ok(Some("user".to_string()))));
    assert!(matches!(flow, ReportFlow::Finished));
    assert!(matches!(replied_error(&action), ApiError::Forbidden));
}

#[test]
fn update_flow_replies_within_six_results() {
    let req = UpdateReportRequest { status: Some("resolved".to_string()), assigned_to: Some(2) };
    let (mut flow, _) = update_report(5, 9, req);
    let events = vec![
        moderator(),
        ReportEvent::Found(Ok(Some(record(9, "pending")))),
        ReportEvent::Clock(now()),
        ReportEvent::Written(Ok(())),
        ReportEvent::Written(Ok(())),
        ReportEvent::Found(Ok(Some(record(9, "resolved")))),
    ];
    let mut replies = 0;
    for e in events {
        let (f, a) = step(flow, e);
        if matches!(a, ReportAction::Reply(_)) {
            replies += 1;
        }
        flow = f;
    }
    assert_eq!(replies, 1);
    assert!(matches!(flow, ReportFlow::Finished));
}

#[test]
fn resolving_twice_stamps_the_later_time() {
    let later = Timestamp::new(1_700_000_600, 0, 7200).unwrap();
    for t in [now(), later] {
        let req = UpdateReportRequest { status: Some("resolved".to_string()), assigned_to: None };
        let (flow, _) = update_report(5, 9, req);
        let (flow, _) = step(flow, moderator());
        let (flow, _) = step(flow, ReportEvent::Found(Ok(Some(record(9, "resolved")))));
        let (_, action) = step(flow, ReportEvent::Clock(t));
        match action {
            ReportAction::SetStatus { resolved_at, .. } => {
                assert_eq!(resolved_at.unwrap().unix_secs(), t.unix_secs());
            },
            _ => panic!("expected a status change"),
        }
    }
}
