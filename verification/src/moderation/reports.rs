use vstd::prelude::*;

use crate::text::clone_opt_string;

use crate::error::{ApiError, ApiErrorView};
use crate::moderation::types::{
    CreateReportRequest, CreateReportRequestView, ReportListParams, ReportListParamsView,
    ReportListResponse, ReportListResponseView, ReportRecord, ReportRecordView, ReportResponse,
    ReportResponseView, UpdateReportRequest, UpdateReportRequestView,
};
use crate::moderation::{require_moderator, spec_require_moderator, user_lookup_view};
use crate::text::{is_blank, spec_is_blank};
use crate::time::{rfc3339_text, Timestamp};

verus! {

/// Page size used when a listing request names none.
pub const DEFAULT_LIMIT: u64 = 20;

/// Largest page size a listing request may ask for.
pub const MAX_LIMIT: u64 = 100;

/// The page size actually served for a requested one.
pub open spec fn spec_clamp_limit(limit: Option<u64>) -> u64 {
    match limit {
        Some(l) => if l < MAX_LIMIT {
            l
        } else {
            MAX_LIMIT
        },
        None => DEFAULT_LIMIT,
    }
}

/// Picks the page size: the requested one, the default when none is given,
/// and never more than `MAX_LIMIT`.
pub fn clamp_limit(limit: Option<u64>) -> (r: u64)
    ensures
        r == spec_clamp_limit(limit),
{
    let l = match limit {
        Some(l) => l,
        None => DEFAULT_LIMIT,
    };
    if l < MAX_LIMIT {
        l
    } else {
        MAX_LIMIT
    }
}

/// The RFC 3339 text of a timestamp.
pub open spec fn timestamp_text(t: Timestamp) -> Seq<char> {
    rfc3339_text(t@.0, t@.1, t@.2)
}

/// A stored report as the API answers it: the same fields, with its times
/// written as RFC 3339 text.
pub open spec fn spec_report_to_response(r: ReportRecordView) -> ReportResponseView {
    ReportResponseView {
        id: r.id,
        reporter_id: r.reporter_id,
        content_type: r.content_type,
        content_id: r.content_id,
        reason: r.reason,
        description: r.description,
        status: r.status,
        assigned_to: r.assigned_to,
        resolved_at: match r.resolved_at {
            Some(t) => Some(timestamp_text(t)),
            None => None,
        },
        created_at: timestamp_text(r.created_at),
    }
}

/// Builds the answer for a stored report from the texts of its times.
pub fn assemble_response(r: &ReportRecord, created_at: String, resolved_at: Option<String>) -> (resp:
    ReportResponse)
    ensures
        resp@ == (ReportResponseView {
            resolved_at: resolved_at.deep_view(),
            created_at: created_at@,
            ..spec_report_to_response(r@)
        }),
{
    ReportResponse {
        id: r.id,
        reporter_id: r.reporter_id,
        content_type: r.content_type.clone(),
        content_id: r.content_id,
        reason: r.reason.clone(),
        description: clone_opt_string(&r.description),
        status: r.status.clone(),
        assigned_to: r.assigned_to,
        resolved_at,
        created_at,
    }
}

/// Turns a stored report into the answer the API gives for it.
pub fn report_to_response(r: &ReportRecord) -> (resp: ReportResponse)
    ensures
        resp@ == spec_report_to_response(r@),
{
    let created_at = r.created_at.to_rfc3339();
    let resolved_at = match &r.resolved_at {
        Some(t) => Some(t.to_rfc3339()),
        None => None,
    };
    assemble_response(r, created_at, resolved_at)
}

/// Turns each stored report of a page into its answer, in order.
pub fn reports_to_responses(items: &Vec<ReportRecord>) -> (out: Vec<ReportResponse>)
    ensures
        out@.map_values(|x: ReportResponse| x@) == items@.map_values(
            |r: ReportRecord| spec_report_to_response(r@),
        ),
{
    let mut out: Vec<ReportResponse> = Vec::new();
    let n = items.len();
    for i in 0..n
        invariant
            n == items@.len(),
            out@.len() == i,
            forall|j: int|
                0 <= j < i ==> (#[trigger] out@[j])@ == spec_report_to_response(items@[j]@),
    {
        out.push(report_to_response(&items[i]));
    }
    assert(out@.map_values(|x: ReportResponse| x@) =~= items@.map_values(
        |r: ReportRecord| spec_report_to_response(r@),
    ));
    out
}

/// The report that filing a request creates: the caller as reporter, the
/// request's content and reason, status "pending", nobody assigned, not
/// resolved, created now.
pub open spec fn spec_new_report(
    id: u128,
    reporter_id: u128,
    req: CreateReportRequestView,
    now: Timestamp,
) -> ReportRecordView {
    ReportRecordView {
        id,
        reporter_id,
        content_type: req.content_type,
        content_id: req.content_id,
        reason: req.reason,
        description: req.description,
        status: "pending"@,
        assigned_to: None,
        resolved_at: None,
        created_at: now,
    }
}

/// Builds the report to store for a filing request.
pub fn new_report(id: u128, reporter_id: u128, req: CreateReportRequest, now: Timestamp) -> (r:
    ReportRecord)
    ensures
        r@ == spec_new_report(id, reporter_id, req@, now),
{
    ReportRecord {
        id,
        reporter_id,
        content_type: req.content_type,
        content_id: req.content_id,
        reason: req.reason,
        description: req.description,
        status: String::from_str("pending"),
        assigned_to: None,
        resolved_at: None,
        created_at: now,
    }
}

// ---------------------------------------------------------------------------
// The request flows of the report endpoints.
//
// Each endpoint alternates database work with decisions. The decisions are
// made here: a flow starts with the first action to perform, and each result
// of an action (an event) moves the flow on and names the next action, until
// the flow replies and is finished.
// ---------------------------------------------------------------------------

/// Where a report request stands, waiting for the result of its last action.
pub enum ReportFlow {
    /// A new report is being stored.
    AwaitInsert,
    /// A listing waits for the caller's user record.
    ListAwaitUser { status: Option<String>, offset: u64, limit: u64 },
    /// A listing waits for its page.
    ListAwaitPage { offset: u64, limit: u64 },
    /// A lookup waits for the caller's user record.
    GetAwaitUser { id: u128 },
    /// A lookup waits for the report.
    GetAwaitReport,
    /// An update waits for the caller's user record.
    UpdateAwaitUser { id: u128, change: UpdateReportRequest },
    /// An update waits to learn whether the report exists.
    UpdateAwaitExisting { id: u128, change: UpdateReportRequest },
    /// An update that resolves the report waits for the time of resolution.
    UpdateAwaitClock { id: u128, assign: Option<u128> },
    /// An update waits for the new status to be stored.
    UpdateAwaitStatus { id: u128, assign: Option<u128> },
    /// An update waits for the assignment to be stored.
    UpdateAwaitAssign { id: u128 },
    /// An update waits for the report as it now stands.
    UpdateAwaitReload,
    /// The request has been answered.
    Finished,
}

/// The result of the action a flow asked for.
pub enum ReportEvent {
    /// The caller's user record: the database's error text, none, or the role.
    UserLoaded(Result<Option<String>, String>),
    /// The stored report, or the database's error text.
    Inserted(Result<ReportRecord, String>),
    /// A page of reports with the total count, or the database's error text.
    Listed(Result<(Vec<ReportRecord>, u64), String>),
    /// The report if there is one, or the database's error text.
    Found(Result<Option<ReportRecord>, String>),
    /// Whether a change was stored, or the database's error text.
    Written(Result<(), String>),
    /// The current time.
    Clock(Timestamp),
}

/// A successful answer.
pub enum ReportReply {
    Report(ReportResponse),
    Page(ReportListResponse),
}

/// What the flow asks to be done next.
pub enum ReportAction {
    /// Look up the caller's user record.
    LoadUser { user_id: u128 },
    /// Store a new report.
    Insert { record: ReportRecord },
    /// Fetch a page of reports, filtered by status when one is given.
    FetchPage { status: Option<String>, offset: u64, limit: u64 },
    /// Fetch one report.
    Fetch { id: u128 },
    /// Store a report's new status and resolution time.
    SetStatus { id: u128, status: String, resolved_at: Option<Timestamp> },
    /// Store who a report is assigned to.
    Assign { id: u128, moderator_id: u128 },
    /// Read the current time.
    ReadClock,
    /// Answer the request.
    Reply(Result<ReportReply, ApiError>),
}

pub enum ReportFlowView {
    AwaitInsert,
    ListAwaitUser { status: Option<Seq<char>>, offset: u64, limit: u64 },
    ListAwaitPage { offset: u64, limit: u64 },
    GetAwaitUser { id: u128 },
    GetAwaitReport,
    UpdateAwaitUser { id: u128, change: UpdateReportRequestView },
    UpdateAwaitExisting { id: u128, change: UpdateReportRequestView },
    UpdateAwaitClock { id: u128, assign: Option<u128> },
    UpdateAwaitStatus { id: u128, assign: Option<u128> },
    UpdateAwaitAssign { id: u128 },
    UpdateAwaitReload,
    Finished,
}

pub enum ReportEventView {
    UserLoaded(Result<Option<Seq<char>>, Seq<char>>),
    Inserted(Result<ReportRecordView, Seq<char>>),
    Listed(Result<(Seq<ReportRecordView>, u64), Seq<char>>),
    Found(Result<Option<ReportRecordView>, Seq<char>>),
    Written(Result<(), Seq<char>>),
    Clock(Timestamp),
}

pub enum ReportReplyView {
    Report(ReportResponseView),
    Page(ReportListResponseView),
}

pub enum ReportActionView {
    LoadUser { user_id: u128 },
    Insert { record: ReportRecordView },
    FetchPage { status: Option<Seq<char>>, offset: u64, limit: u64 },
    Fetch { id: u128 },
    SetStatus { id: u128, status: Seq<char>, resolved_at: Option<Timestamp> },
    Assign { id: u128, moderator_id: u128 },
    ReadClock,
    Reply(Result<ReportReplyView, ApiErrorView>),
}

impl View for ReportFlow {
    type V = ReportFlowView;

    open spec fn view(&self) -> ReportFlowView {
        match self {
            ReportFlow::AwaitInsert => ReportFlowView::AwaitInsert,
            ReportFlow::ListAwaitUser { status, offset, limit } => ReportFlowView::ListAwaitUser {
                status: status.deep_view(),
                offset: *offset,
                limit: *limit,
            },
            ReportFlow::ListAwaitPage { offset, limit } => ReportFlowView::ListAwaitPage {
                offset: *offset,
                limit: *limit,
            },
            ReportFlow::GetAwaitUser { id } => ReportFlowView::GetAwaitUser { id: *id },
            ReportFlow::GetAwaitReport => ReportFlowView::GetAwaitReport,
            ReportFlow::UpdateAwaitUser { id, change } => ReportFlowView::UpdateAwaitUser {
                id: *id,
                change: change@,
            },
            ReportFlow::UpdateAwaitExisting { id, change } => ReportFlowView::UpdateAwaitExisting {
                id: *id,
                change: change@,
            },
            ReportFlow::UpdateAwaitClock { id, assign } => ReportFlowView::UpdateAwaitClock {
                id: *id,
                assign: *assign,
            },
            ReportFlow::UpdateAwaitStatus { id, assign } => ReportFlowView::UpdateAwaitStatus {
                id: *id,
                assign: *assign,
            },
            ReportFlow::UpdateAwaitAssign { id } => ReportFlowView::UpdateAwaitAssign { id: *id },
            ReportFlow::UpdateAwaitReload => ReportFlowView::UpdateAwaitReload,
            ReportFlow::Finished => ReportFlowView::Finished,
        }
    }
}

impl View for ReportEvent {
    type V = ReportEventView;

    open spec fn view(&self) -> ReportEventView {
        match self {
            ReportEvent::UserLoaded(l) => ReportEventView::UserLoaded(user_lookup_view(*l)),
            ReportEvent::Inserted(r) => ReportEventView::Inserted(
                match r {
                    Ok(rec) => Ok(rec@),
                    Err(e) => Err(e@),
                },
            ),
            ReportEvent::Listed(r) => ReportEventView::Listed(
                match r {
                    Ok((items, total)) => Ok(
                        (items@.map_values(|x: ReportRecord| x@), *total),
                    ),
                    Err(e) => Err(e@),
                },
            ),
            ReportEvent::Found(r) => ReportEventView::Found(
                match r {
                    Ok(Some(rec)) => Ok(Some(rec@)),
                    Ok(None) => Ok(None),
                    Err(e) => Err(e@),
                },
            ),
            ReportEvent::Written(r) => ReportEventView::Written(
                match r {
                    Ok(()) => Ok(()),
                    Err(e) => Err(e@),
                },
            ),
            ReportEvent::Clock(t) => ReportEventView::Clock(*t),
        }
    }
}

impl View for ReportReply {
    type V = ReportReplyView;

    open spec fn view(&self) -> ReportReplyView {
        match self {
            ReportReply::Report(r) => ReportReplyView::Report(r@),
            ReportReply::Page(p) => ReportReplyView::Page(p@),
        }
    }
}

impl View for ReportAction {
    type V = ReportActionView;

    open spec fn view(&self) -> ReportActionView {
        match self {
            ReportAction::LoadUser { user_id } => ReportActionView::LoadUser { user_id: *user_id },
            ReportAction::Insert { record } => ReportActionView::Insert { record: record@ },
            ReportAction::FetchPage { status, offset, limit } => ReportActionView::FetchPage {
                status: status.deep_view(),
                offset: *offset,
                limit: *limit,
            },
            ReportAction::Fetch { id } => ReportActionView::Fetch { id: *id },
            ReportAction::SetStatus { id, status, resolved_at } => ReportActionView::SetStatus {
                id: *id,
                status: status@,
                resolved_at: *resolved_at,
            },
            ReportAction::Assign { id, moderator_id } => ReportActionView::Assign {
                id: *id,
                moderator_id: *moderator_id,
            },
            ReportAction::ReadClock => ReportActionView::ReadClock,
            ReportAction::Reply(r) => ReportActionView::Reply(
                match r {
                    Ok(reply) => Ok(reply@),
                    Err(e) => Err(e@),
                },
            ),
        }
    }
}

impl ReportFlowView {
    /// Whether the flow waits for this kind of result.
    pub open spec fn accepts(self, event: ReportEventView) -> bool {
        match self {
            ReportFlowView::AwaitInsert => event is Inserted,
            ReportFlowView::ListAwaitUser { .. } => event is UserLoaded,
            ReportFlowView::ListAwaitPage { .. } => event is Listed,
            ReportFlowView::GetAwaitUser { .. } => event is UserLoaded,
            ReportFlowView::GetAwaitReport => event is Found,
            ReportFlowView::UpdateAwaitUser { .. } => event is UserLoaded,
            ReportFlowView::UpdateAwaitExisting { .. } => event is Found,
            ReportFlowView::UpdateAwaitClock { .. } => event is Clock,
            ReportFlowView::UpdateAwaitStatus { .. } => event is Written,
            ReportFlowView::UpdateAwaitAssign { .. } => event is Written,
            ReportFlowView::UpdateAwaitReload => event is Found,
            ReportFlowView::Finished => false,
        }
    }

    /// At most how many more results the flow waits for before it replies.
    pub open spec fn remaining_steps(self) -> nat {
        match self {
            ReportFlowView::AwaitInsert => 1,
            ReportFlowView::ListAwaitUser { .. } => 2,
            ReportFlowView::ListAwaitPage { .. } => 1,
            ReportFlowView::GetAwaitUser { .. } => 2,
            ReportFlowView::GetAwaitReport => 1,
            ReportFlowView::UpdateAwaitUser { .. } => 6,
            ReportFlowView::UpdateAwaitExisting { .. } => 5,
            ReportFlowView::UpdateAwaitClock { .. } => 4,
            ReportFlowView::UpdateAwaitStatus { .. } => 3,
            ReportFlowView::UpdateAwaitAssign { .. } => 2,
            ReportFlowView::UpdateAwaitReload => 1,
            ReportFlowView::Finished => 0,
        }
    }
}

/// Whether an event is the result of an action: what the service hands back
/// after doing what the action asks for. A reply is the end and has no result.
pub open spec fn answers(action: ReportActionView, event: ReportEventView) -> bool {
    match action {
        ReportActionView::LoadUser { .. } => event is UserLoaded,
        ReportActionView::Insert { .. } => event is Inserted,
        ReportActionView::FetchPage { .. } => event is Listed,
        ReportActionView::Fetch { .. } => event is Found,
        ReportActionView::SetStatus { .. } => event is Written,
        ReportActionView::Assign { .. } => event is Written,
        ReportActionView::ReadClock => event is Clock,
        ReportActionView::Reply(_) => false,
    }
}

/// Answers with an error and finishes.
pub open spec fn fail_with(e: ApiErrorView) -> (ReportFlowView, ReportActionView) {
    (ReportFlowView::Finished, ReportActionView::Reply(Err(e)))
}

/// Answers with a report and finishes.
pub open spec fn reply_report(r: ReportRecordView) -> (ReportFlowView, ReportActionView) {
    (
        ReportFlowView::Finished,
        ReportActionView::Reply(Ok(ReportReplyView::Report(spec_report_to_response(r)))),
    )
}

/// The error text answered when a report does not exist.
pub open spec fn report_not_found() -> Seq<char> {
    "report not found"@
}

/// The error text answered when a report's reason is blank.
pub open spec fn reason_required() -> Seq<char> {
    "reason must not be empty"@
}

/// Goes on with `then` when the caller is a moderator; otherwise answers
/// with the error the check gives.
pub open spec fn moderator_gate(
    lookup: Result<Option<Seq<char>>, Seq<char>>,
    then: (ReportFlowView, ReportActionView),
) -> (ReportFlowView, ReportActionView) {
    match spec_require_moderator(lookup) {
        Err(e) => fail_with(e),
        Ok(()) => then,
    }
}

/// Answers with the report found: a database failure, "report not found",
/// or the report.
pub open spec fn answer_found(found: Result<Option<ReportRecordView>, Seq<char>>) -> (
    ReportFlowView,
    ReportActionView,
) {
    match found {
        Err(e) => fail_with(ApiErrorView::Database(e)),
        Ok(None) => fail_with(ApiErrorView::NotFound(report_not_found())),
        Ok(Some(r)) => reply_report(r),
    }
}

/// The status that stamps a report with the time of its resolution.
pub open spec fn resolved_status() -> Seq<char> {
    "resolved"@
}

/// After the status (if any) is stored: store the assignment if one is asked
/// for, then fetch the report again.
pub open spec fn after_status(id: u128, assign: Option<u128>) -> (
    ReportFlowView,
    ReportActionView,
) {
    match assign {
        Some(m) => (
            ReportFlowView::UpdateAwaitAssign { id },
            ReportActionView::Assign { id, moderator_id: m },
        ),
        None => (ReportFlowView::UpdateAwaitReload, ReportActionView::Fetch { id }),
    }
}

/// Once the report is known to exist: a report being resolved first reads the
/// time of resolution; any other new status is stored at once, with no
/// resolution time; with no new status, go on as after the status.
pub open spec fn after_existing(id: u128, change: UpdateReportRequestView) -> (
    ReportFlowView,
    ReportActionView,
) {
    match change.status {
        Some(s) => if s == resolved_status() {
            (
                ReportFlowView::UpdateAwaitClock { id, assign: change.assigned_to },
                ReportActionView::ReadClock,
            )
        } else {
            (
                ReportFlowView::UpdateAwaitStatus { id, assign: change.assigned_to },
                ReportActionView::SetStatus { id, status: s, resolved_at: None },
            )
        },
        None => after_status(id, change.assigned_to),
    }
}

/// The page answered for a listing.
pub open spec fn page_view(items: Seq<ReportRecordView>, total: u64, offset: u64, limit: u64) -> ReportListResponseView {
    ReportListResponseView {
        data: items.map_values(|r: ReportRecordView| spec_report_to_response(r)),
        total,
        offset,
        limit,
    }
}

/// Where a flow goes, and what it asks for, on the result it waits for.
pub open spec fn next(flow: ReportFlowView, event: ReportEventView) -> (
    ReportFlowView,
    ReportActionView,
) {
    match flow {
        ReportFlowView::AwaitInsert => match event {
            ReportEventView::Inserted(Ok(r)) => reply_report(r),
            ReportEventView::Inserted(Err(e)) => fail_with(ApiErrorView::Database(e)),
            _ => (flow, ReportActionView::Fetch { id: 0 }),
        },
        ReportFlowView::ListAwaitUser { status, offset, limit } => match event {
            ReportEventView::UserLoaded(l) => moderator_gate(
                l,
                (
                    ReportFlowView::ListAwaitPage { offset, limit },
                    ReportActionView::FetchPage { status, offset, limit },
                ),
            ),
            _ => (flow, ReportActionView::Fetch { id: 0 }),
        },
        ReportFlowView::ListAwaitPage { offset, limit } => match event {
            ReportEventView::Listed(Ok((items, total))) => (
                ReportFlowView::Finished,
                ReportActionView::Reply(
                    Ok(ReportReplyView::Page(page_view(items, total, offset, limit))),
                ),
            ),
            ReportEventView::Listed(Err(e)) => fail_with(ApiErrorView::Database(e)),
            _ => (flow, ReportActionView::Fetch { id: 0 }),
        },
        ReportFlowView::GetAwaitUser { id } => match event {
            ReportEventView::UserLoaded(l) => moderator_gate(
                l,
                (ReportFlowView::GetAwaitReport, ReportActionView::Fetch { id }),
            ),
            _ => (flow, ReportActionView::Fetch { id: 0 }),
        },
        ReportFlowView::GetAwaitReport => match event {
            ReportEventView::Found(f) => answer_found(f),
            _ => (flow, ReportActionView::Fetch { id: 0 }),
        },
        ReportFlowView::UpdateAwaitUser { id, change } => match event {
            ReportEventView::UserLoaded(l) => moderator_gate(
                l,
                (
                    ReportFlowView::UpdateAwaitExisting { id, change },
                    ReportActionView::Fetch { id },
                ),
            ),
            _ => (flow, ReportActionView::Fetch { id: 0 }),
        },
        ReportFlowView::UpdateAwaitExisting { id, change } => match event {
            ReportEventView::Found(Err(e)) => fail_with(ApiErrorView::Database(e)),
            ReportEventView::Found(Ok(None)) => fail_with(
                ApiErrorView::NotFound(report_not_found()),
            ),
            ReportEventView::Found(Ok(Some(_))) => after_existing(id, change),
            _ => (flow, ReportActionView::Fetch { id: 0 }),
        },
        ReportFlowView::UpdateAwaitClock { id, assign } => match event {
            ReportEventView::Clock(now) => (
                ReportFlowView::UpdateAwaitStatus { id, assign },
                ReportActionView::SetStatus { id, status: resolved_status(), resolved_at: Some(now) },
            ),
            _ => (flow, ReportActionView::Fetch { id: 0 }),
        },
        ReportFlowView::UpdateAwaitStatus { id, assign } => match event {
            ReportEventView::Written(Err(e)) => fail_with(ApiErrorView::Database(e)),
            ReportEventView::Written(Ok(())) => after_status(id, assign),
            _ => (flow, ReportActionView::Fetch { id: 0 }),
        },
        ReportFlowView::UpdateAwaitAssign { id } => match event {
            ReportEventView::Written(Err(e)) => fail_with(ApiErrorView::Database(e)),
            ReportEventView::Written(Ok(())) => (
                ReportFlowView::UpdateAwaitReload,
                ReportActionView::Fetch { id },
            ),
            _ => (flow, ReportActionView::Fetch { id: 0 }),
        },
        ReportFlowView::UpdateAwaitReload => match event {
            ReportEventView::Found(f) => answer_found(f),
            _ => (flow, ReportActionView::Fetch { id: 0 }),
        },
        ReportFlowView::Finished => (flow, ReportActionView::Fetch { id: 0 }),
    }
}

/// How filing a report starts: a blank reason is refused at once with
/// "reason must not be empty"; otherwise the new report is stored.
pub open spec fn spec_create_report(
    reporter_id: u128,
    req: CreateReportRequestView,
    id: u128,
    now: Timestamp,
) -> (ReportFlowView, ReportActionView) {
    if spec_is_blank(req.reason) {
        fail_with(ApiErrorView::BadRequest(reason_required()))
    } else {
        (
            ReportFlowView::AwaitInsert,
            ReportActionView::Insert { record: spec_new_report(id, reporter_id, req, now) },
        )
    }
}

/// How listing reports starts: the caller is looked up, with the window to
/// serve (offset 0 by default, page size clamped) kept for later.
pub open spec fn spec_list_reports(user_id: u128, params: ReportListParamsView) -> (
    ReportFlowView,
    ReportActionView,
) {
    (
        ReportFlowView::ListAwaitUser {
            status: params.status,
            offset: match params.offset {
                Some(o) => o,
                None => 0,
            },
            limit: spec_clamp_limit(params.limit),
        },
        ReportActionView::LoadUser { user_id },
    )
}

/// Starts filing a report (`POST /moderation/reports`), which any
/// authenticated user may do. `id` and `now` are the new report's id and
/// creation time.
pub fn create_report(reporter_id: u128, req: CreateReportRequest, id: u128, now: Timestamp) -> (r: (
    ReportFlow,
    ReportAction,
))
    ensures
        (r.0@, r.1@) == spec_create_report(reporter_id, req@, id, now),
{
    if is_blank(req.reason.as_str()) {
        (
            ReportFlow::Finished,
            ReportAction::Reply(
                Err(ApiError::BadRequest(String::from_str("reason must not be empty"))),
            ),
        )
    } else {
        let record = new_report(id, reporter_id, req, now);
        (ReportFlow::AwaitInsert, ReportAction::Insert { record })
    }
}

/// Starts listing reports (`GET /moderation/reports`), for moderators only.
pub fn list_reports(user_id: u128, params: ReportListParams) -> (r: (ReportFlow, ReportAction))
    ensures
        (r.0@, r.1@) == spec_list_reports(user_id, params@),
{
    let offset = match params.offset {
        Some(o) => o,
        None => 0,
    };
    let limit = clamp_limit(params.limit);
    (
        ReportFlow::ListAwaitUser { status: params.status, offset, limit },
        ReportAction::LoadUser { user_id },
    )
}

/// Starts looking one report up (`GET /moderation/reports/{id}`), for
/// moderators only.
pub fn get_report(user_id: u128, id: u128) -> (r: (ReportFlow, ReportAction))
    ensures
        r.0@ == (ReportFlowView::GetAwaitUser { id }),
        r.1@ == (ReportActionView::LoadUser { user_id }),
{
    (ReportFlow::GetAwaitUser { id }, ReportAction::LoadUser { user_id })
}

/// Starts updating a report's status or assignee
/// (`PATCH /moderation/reports/{id}`), for moderators only.
pub fn update_report(user_id: u128, id: u128, req: UpdateReportRequest) -> (r: (
    ReportFlow,
    ReportAction,
))
    ensures
        r.0@ == (ReportFlowView::UpdateAwaitUser { id, change: req@ }),
        r.1@ == (ReportActionView::LoadUser { user_id }),
{
    (ReportFlow::UpdateAwaitUser { id, change: req }, ReportAction::LoadUser { user_id })
}

fn fail(e: ApiError) -> (r: (ReportFlow, ReportAction))
    ensures
        (r.0@, r.1@) == fail_with(e@),
{
    (ReportFlow::Finished, ReportAction::Reply(Err(e)))
}

fn not_found() -> (r: (ReportFlow, ReportAction))
    ensures
        (r.0@, r.1@) == fail_with(ApiErrorView::NotFound(report_not_found())),
{
    fail(ApiError::NotFound(String::from_str("report not found")))
}

fn answer_report(r: &ReportRecord) -> (out: (ReportFlow, ReportAction))
    ensures
        (out.0@, out.1@) == reply_report(r@),
{
    (ReportFlow::Finished, ReportAction::Reply(Ok(ReportReply::Report(report_to_response(r)))))
}

fn answer_found_exec(found: Result<Option<ReportRecord>, String>) -> (out: (ReportFlow, ReportAction))
    ensures
        (out.0@, out.1@) == answer_found(
            match found {
                Ok(Some(rec)) => Ok(Some(rec@)),
                Ok(None) => Ok(None),
                Err(e) => Err(e@),
            },
        ),
{
    match found {
        Err(e) => fail(ApiError::Database(e)),
        Ok(None) => not_found(),
        Ok(Some(rec)) => answer_report(&rec),
    }
}

fn after_status_exec(id: u128, assign: Option<u128>) -> (out: (ReportFlow, ReportAction))
    ensures
        (out.0@, out.1@) == after_status(id, assign),
{
    match assign {
        Some(m) => (ReportFlow::UpdateAwaitAssign { id }, ReportAction::Assign { id, moderator_id: m }),
        None => (ReportFlow::UpdateAwaitReload, ReportAction::Fetch { id }),
    }
}

fn after_existing_exec(id: u128, change: UpdateReportRequest) -> (out: (ReportFlow, ReportAction))
    ensures
        (out.0@, out.1@) == after_existing(id, change@),
{
    match change.status {
        Some(s) => {
            let resolved = String::from_str("resolved");
            if s == resolved {
                (
                    ReportFlow::UpdateAwaitClock { id, assign: change.assigned_to },
                    ReportAction::ReadClock,
                )
            } else {
                (
                    ReportFlow::UpdateAwaitStatus { id, assign: change.assigned_to },
                    ReportAction::SetStatus { id, status: s, resolved_at: None },
                )
            }
        },
        None => after_status_exec(id, change.assigned_to),
    }
}

/// Moves a report flow on with the result of the action it asked for, and
/// names the next action.
pub fn step(flow: ReportFlow, event: ReportEvent) -> (r: (ReportFlow, ReportAction))
    requires
        flow@.accepts(event@),
    ensures
        (r.0@, r.1@) == next(flow@, event@),
{
    match flow {
        ReportFlow::AwaitInsert => match event {
            ReportEvent::Inserted(Ok(rec)) => answer_report(&rec),
            ReportEvent::Inserted(Err(e)) => fail(ApiError::Database(e)),
            _ => {
                proof {
                    assert(false);
                }
                (ReportFlow::Finished, ReportAction::Fetch { id: 0 })
            },
        },
        ReportFlow::ListAwaitUser { status, offset, limit } => match event {
            ReportEvent::UserLoaded(l) => match require_moderator(l) {
                Err(e) => fail(e),
                Ok(()) => (
                    ReportFlow::ListAwaitPage { offset, limit },
                    ReportAction::FetchPage { status, offset, limit },
                ),
            },
            _ => {
                proof {
                    assert(false);
                }
                (ReportFlow::Finished, ReportAction::Fetch { id: 0 })
            },
        },
        ReportFlow::ListAwaitPage { offset, limit } => match event {
            ReportEvent::Listed(Ok((items, total))) => {
                let data = reports_to_responses(&items);
                let page = ReportListResponse { data, total, offset, limit };
                assert(page@.data =~= items@.map_values(|x: ReportRecord| x@).map_values(
                    |r: ReportRecordView| spec_report_to_response(r),
                ));
                (ReportFlow::Finished, ReportAction::Reply(Ok(ReportReply::Page(page))))
            },
            ReportEvent::Listed(Err(e)) => fail(ApiError::Database(e)),
            _ => {
                proof {
                    assert(false);
                }
                (ReportFlow::Finished, ReportAction::Fetch { id: 0 })
            },
        },
        ReportFlow::GetAwaitUser { id } => match event {
            ReportEvent::UserLoaded(l) => match require_moderator(l) {
                Err(e) => fail(e),
                Ok(()) => (ReportFlow::GetAwaitReport, ReportAction::Fetch { id }),
            },
            _ => {
                proof {
                    assert(false);
                }
                (ReportFlow::Finished, ReportAction::Fetch { id: 0 })
            },
        },
        ReportFlow::GetAwaitReport => match event {
            ReportEvent::Found(f) => answer_found_exec(f),
            _ => {
                proof {
                    assert(false);
                }
                (ReportFlow::Finished, ReportAction::Fetch { id: 0 })
            },
        },
        ReportFlow::UpdateAwaitUser { id, change } => match event {
            ReportEvent::UserLoaded(l) => match require_moderator(l) {
                Err(e) => fail(e),
                Ok(()) => (
                    ReportFlow::UpdateAwaitExisting { id, change },
                    ReportAction::Fetch { id },
                ),
            },
            _ => {
                proof {
                    assert(false);
                }
                (ReportFlow::Finished, ReportAction::Fetch { id: 0 })
            },
        },
        ReportFlow::UpdateAwaitExisting { id, change } => match event {
            ReportEvent::Found(Err(e)) => fail(ApiError::Database(e)),
            ReportEvent::Found(Ok(None)) => not_found(),
            ReportEvent::Found(Ok(Some(_))) => after_existing_exec(id, change),
            _ => {
                proof {
                    assert(false);
                }
                (ReportFlow::Finished, ReportAction::Fetch { id: 0 })
            },
        },
        ReportFlow::UpdateAwaitClock { id, assign } => match event {
            ReportEvent::Clock(now) => (
                ReportFlow::UpdateAwaitStatus { id, assign },
                ReportAction::SetStatus {
                    id,
                    status: String::from_str("resolved"),
                    resolved_at: Some(now),
                },
            ),
            _ => {
                proof {
                    assert(false);
                }
                (ReportFlow::Finished, ReportAction::Fetch { id: 0 })
            },
        },
        ReportFlow::UpdateAwaitStatus { id, assign } => match event {
            ReportEvent::Written(Err(e)) => fail(ApiError::Database(e)),
            ReportEvent::Written(Ok(())) => after_status_exec(id, assign),
            _ => {
                proof {
                    assert(false);
                }
                (ReportFlow::Finished, ReportAction::Fetch { id: 0 })
            },
        },
        ReportFlow::UpdateAwaitAssign { id } => match event {
            ReportEvent::Written(Err(e)) => fail(ApiError::Database(e)),
            ReportEvent::Written(Ok(())) => (ReportFlow::UpdateAwaitReload, ReportAction::Fetch { id }),
            _ => {
                proof {
                    assert(false);
                }
                (ReportFlow::Finished, ReportAction::Fetch { id: 0 })
            },
        },
        ReportFlow::UpdateAwaitReload => match event {
            ReportEvent::Found(f) => answer_found_exec(f),
            _ => {
                proof {
                    assert(false);
                }
                (ReportFlow::Finished, ReportAction::Fetch { id: 0 })
            },
        },
        ReportFlow::Finished => {
            proof {
                assert(false);
            }
            (ReportFlow::Finished, ReportAction::Fetch { id: 0 })
        },
    }
}

} // verus!
