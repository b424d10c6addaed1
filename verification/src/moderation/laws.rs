use vstd::prelude::*;

use crate::error::ApiErrorView;
use crate::moderation::{is_moderator, moderator_role, route_table, Endpoint, HttpMethod};
use crate::moderation::reports::{
    after_status, reply_report,
    timestamp_text, ReportReplyView,
    answers,
    fail_with, next, reason_required, resolved_status, spec_create_report, spec_list_reports,
    spec_new_report, ReportActionView, ReportEventView, ReportFlowView, DEFAULT_LIMIT, MAX_LIMIT,
};
use crate::moderation::types::{
    CreateReportRequestView, ReportListParamsView, ReportRecordView, ReportResponseView,
    UpdateReportRequestView,
};
use crate::text::spec_is_blank;
use crate::time::Timestamp;

verus! {

/// The error a moderator-only request is refused with when the caller is not
/// a moderator: the database's failure, unauthorized when there is no such
/// user, forbidden when the user holds another role.
pub open spec fn refusal(lookup: Result<Option<Seq<char>>, Seq<char>>) -> ApiErrorView {
    match lookup {
        Err(e) => ApiErrorView::Database(e),
        Ok(None) => ApiErrorView::Unauthorized,
        Ok(Some(_)) => ApiErrorView::Forbidden,
    }
}

/// Any authenticated user may file a report: filing never looks the caller's
/// role up. A report whose reason is blank is refused with "reason must not be
/// empty" and nothing is stored; any other is stored as a pending report of
/// the caller.
pub proof fn law_anyone_may_file_a_report(
    reporter_id: u128,
    req: CreateReportRequestView,
    id: u128,
    now: Timestamp,
)
    ensures
        spec_create_report(reporter_id, req, id, now).1 !is LoadUser,
        spec_is_blank(req.reason) ==> spec_create_report(reporter_id, req, id, now) == fail_with(
            ApiErrorView::BadRequest(reason_required()),
        ),
        !spec_is_blank(req.reason) ==> spec_create_report(reporter_id, req, id, now).1
            == (ReportActionView::Insert { record: spec_new_report(id, reporter_id, req, now) }),
        spec_new_report(id, reporter_id, req, now).status == "pending"@,
        spec_new_report(id, reporter_id, req, now).reporter_id == reporter_id,
{
}

/// Listing, looking up and updating reports are for moderators only: once
/// the caller is looked up, a caller who is not a moderator is answered with
/// the refusal and the request is finished, while a moderator's request goes
/// on to read the reports it names, and nothing else.
pub proof fn law_moderator_only(flow: ReportFlowView, lookup: Result<Option<Seq<char>>, Seq<char>>)
    requires
        flow is ListAwaitUser || flow is GetAwaitUser || flow is UpdateAwaitUser,
    ensures
        !is_moderator(lookup) ==> next(flow, ReportEventView::UserLoaded(lookup)) == fail_with(
            refusal(lookup),
        ),
        is_moderator(lookup) ==> {
            let (f, a) = next(flow, ReportEventView::UserLoaded(lookup));
            &&& f !is Finished
            &&& (a is FetchPage || a is Fetch)
        },
{
}

/// A report is only ever changed by an update request, for the report that
/// request names, and only after the report was found to exist: a status is
/// stored right after the report was found, or right after the time of
/// resolution was read, which happens only right after the report was found;
/// an assignment is stored right after that or after the status was stored.
pub proof fn law_writes_only_to_existing_reports(flow: ReportFlowView, event: ReportEventView)
    requires
        flow.accepts(event),
    ensures
        ({
            let a = next(flow, event).1;
            a is SetStatus || a is Assign
        }) ==> {
            let a = next(flow, event).1;
            let target = match a {
                ReportActionView::SetStatus { id, .. } => id,
                ReportActionView::Assign { id, .. } => id,
                _ => 0,
            };
            ||| flow matches ReportFlowView::UpdateAwaitExisting { id, .. } && id == target
                && event matches ReportEventView::Found(Ok(Some(_)))
            ||| flow matches ReportFlowView::UpdateAwaitClock { id, .. } && id == target
                && event is Clock
            ||| flow matches ReportFlowView::UpdateAwaitStatus { id, .. } && id == target
                && event matches ReportEventView::Written(Ok(()))
        },
        next(flow, event).0 matches ReportFlowView::UpdateAwaitClock { id: target, .. } ==> (
        flow matches ReportFlowView::UpdateAwaitExisting { id, .. } && id == target
            && event matches ReportEventView::Found(Ok(Some(_)))),
{
}

/// Setting a report's status to "resolved" stamps it with the time read for
/// it, right before the status is stored; setting any other status clears the
/// resolution time.
pub proof fn law_resolution_time(flow: ReportFlowView, event: ReportEventView)
    requires
        flow.accepts(event),
    ensures
        next(flow, event).1 matches ReportActionView::SetStatus { status, resolved_at, .. } ==> {
            &&& status == resolved_status() ==> (event matches ReportEventView::Clock(now)
                && resolved_at == Some(now))
            &&& status != resolved_status() ==> resolved_at is None
        },
        flow is UpdateAwaitExisting && next(flow, event).1 is ReadClock ==> (flow matches ReportFlowView::UpdateAwaitExisting { change, .. }
            && change.status == Some(resolved_status())),
{
}

/// Every result moves a report flow closer to its answer, and a flow answers
/// exactly when it finishes: no request is left without a reply, and none is
/// answered twice.
pub proof fn law_flows_progress_to_one_reply(flow: ReportFlowView, event: ReportEventView)
    requires
        flow.accepts(event),
    ensures
        next(flow, event).0.remaining_steps() < flow.remaining_steps(),
        next(flow, event).1 is Reply <==> next(flow, event).0 is Finished,
{
}

/// A listing serves the requested page size but never more than the maximum,
/// the default when none is asked for, and offset zero by default.
pub proof fn law_page_window(user_id: u128, params: ReportListParamsView)
    ensures
        match spec_list_reports(user_id, params).0 {
            ReportFlowView::ListAwaitUser { offset, limit, .. } => {
                &&& limit <= MAX_LIMIT
                &&& match params.limit {
                    Some(l) => l <= MAX_LIMIT ==> limit == l,
                    None => limit == DEFAULT_LIMIT,
                }
                &&& params.offset is None ==> offset == 0
                &&& match params.offset {
                    Some(o) => offset == o,
                    None => true,
                }
                &&& match params.limit {
                    Some(l) => l > MAX_LIMIT ==> limit == MAX_LIMIT,
                    None => true,
                }
            },
            _ => false,
        },
{
}

/// A moderator's listing fetches the window it asked for, filtered by the
/// status it named: starting at the requested offset (0 when none is given),
/// of the requested page size, 20 when none is given and never more than 100.
/// The page answered carries the reports fetched, in order, the total count
/// and that same window.
pub proof fn law_listing_serves_the_requested_window(
    user_id: u128,
    params: ReportListParamsView,
    items: Seq<ReportRecordView>,
    total: u64,
)
    ensures
        ({
            let (f0, a0) = spec_list_reports(user_id, params);
            let (f1, a1) = next(f0, ReportEventView::UserLoaded(Ok(Some("moderator"@))));
            let (f2, a2) = next(f1, ReportEventView::Listed(Ok((items, total))));
            &&& a0 == ReportActionView::LoadUser { user_id }
            &&& a1 matches ReportActionView::FetchPage { status, offset, limit } && {
                &&& status == params.status
                &&& offset == match params.offset {
                    Some(o) => o,
                    None => 0u64,
                }
                &&& match params.limit {
                    Some(l) => (l <= 100 ==> limit == l) && (l > 100 ==> limit == 100),
                    None => limit == 20,
                }
                &&& f2 is Finished
                &&& a2 matches ReportActionView::Reply(Ok(ReportReplyView::Page(page))) && {
                    &&& page.offset == offset
                    &&& page.limit == limit
                    &&& page.total == total
                    &&& page.data.len() == items.len()
                    &&& forall|i: int|
                        0 <= i < items.len() ==> (#[trigger] page.data[i]).id == items[i].id
                }
            }
        }),
{
}

/// Filing a report with a non-blank reason stores a report that carries the
/// request's content type, content id, reason and description unchanged, with
/// the given id and creation time, the caller as reporter, status "pending",
/// nobody assigned and no resolution time.
pub proof fn law_filed_report_keeps_the_request(
    reporter_id: u128,
    req: CreateReportRequestView,
    id: u128,
    now: Timestamp,
)
    requires
        !spec_is_blank(req.reason),
    ensures
        spec_create_report(reporter_id, req, id, now).1 matches ReportActionView::Insert { record }
            && {
            &&& record.id == id
            &&& record.reporter_id == reporter_id
            &&& record.content_type == req.content_type
            &&& record.content_id == req.content_id
            &&& record.reason == req.reason
            &&& record.description == req.description
            &&& record.status == "pending"@
            &&& record.assigned_to is None
            &&& record.resolved_at is None
            &&& record.created_at == now
        },
        spec_create_report(reporter_id, req, id, now).0 is AwaitInsert,
{
}

/// Each path and method of the moderation API is served by the handler it is
/// meant for: reports are filed by POST and listed by GET on
/// /moderation/reports, looked up by GET and updated by PATCH on
/// /moderation/reports/{id}; sanctions are created by POST and listed by GET on
/// /moderation/sanctions, revoked by PATCH on /moderation/sanctions/{id}/revoke
/// and listed per user by GET on /moderation/sanctions/user/{user_id}; appeals
/// are filed by POST and listed by GET on /moderation/appeals and answered by
/// PATCH on /moderation/appeals/{id}/respond. There are no other routes.
pub proof fn law_routes_serve_their_handlers()
    ensures
        route_table().len() == 11,
        route_table().contains(("/moderation/reports"@, HttpMethod::Post, Endpoint::CreateReport)),
        route_table().contains(("/moderation/reports"@, HttpMethod::Get, Endpoint::ListReports)),
        route_table().contains(("/moderation/reports/{id}"@, HttpMethod::Get, Endpoint::GetReport)),
        route_table().contains(
            ("/moderation/reports/{id}"@, HttpMethod::Patch, Endpoint::UpdateReport),
        ),
        route_table().contains(
            ("/moderation/sanctions"@, HttpMethod::Post, Endpoint::CreateSanction),
        ),
        route_table().contains(("/moderation/sanctions"@, HttpMethod::Get, Endpoint::ListSanctions)),
        route_table().contains(
            ("/moderation/sanctions/{id}/revoke"@, HttpMethod::Patch, Endpoint::RevokeSanction),
        ),
        route_table().contains(
            ("/moderation/sanctions/user/{user_id}"@, HttpMethod::Get, Endpoint::UserSanctions),
        ),
        route_table().contains(("/moderation/appeals"@, HttpMethod::Post, Endpoint::CreateAppeal)),
        route_table().contains(("/moderation/appeals"@, HttpMethod::Get, Endpoint::ListAppeals)),
        route_table().contains(
            ("/moderation/appeals/{id}/respond"@, HttpMethod::Patch, Endpoint::RespondAppeal),
        ),
{
    let t = route_table();
    assert(t[0] == ("/moderation/reports"@, HttpMethod::Post, Endpoint::CreateReport));
    assert(t[1] == ("/moderation/reports"@, HttpMethod::Get, Endpoint::ListReports));
    assert(t[2] == ("/moderation/reports/{id}"@, HttpMethod::Get, Endpoint::GetReport));
    assert(t[3] == ("/moderation/reports/{id}"@, HttpMethod::Patch, Endpoint::UpdateReport));
    assert(t[4] == ("/moderation/sanctions"@, HttpMethod::Post, Endpoint::CreateSanction));
    assert(t[5] == ("/moderation/sanctions"@, HttpMethod::Get, Endpoint::ListSanctions));
    assert(t[6] == ("/moderation/sanctions/{id}/revoke"@, HttpMethod::Patch, Endpoint::RevokeSanction));
    assert(t[7] == ("/moderation/sanctions/user/{user_id}"@, HttpMethod::Get, Endpoint::UserSanctions));
    assert(t[8] == ("/moderation/appeals"@, HttpMethod::Post, Endpoint::CreateAppeal));
    assert(t[9] == ("/moderation/appeals"@, HttpMethod::Get, Endpoint::ListAppeals));
    assert(t[10] == ("/moderation/appeals/{id}/respond"@, HttpMethod::Patch, Endpoint::RespondAppeal));
}

/// No two routes of the moderation API share a path and a method, so each
/// request reaches exactly one handler (and the router can be built), and no
/// handler is served twice.
pub proof fn law_routes_do_not_overlap()
    ensures
        forall|i: int, j: int|
            0 <= i < j < route_table().len() ==> {
                ||| (#[trigger] route_table()[i]).0 != (#[trigger] route_table()[j]).0
                ||| route_table()[i].1 != route_table()[j].1
            },
        forall|i: int, j: int|
            0 <= i < j < route_table().len() ==> (#[trigger] route_table()[i]).2
                != (#[trigger] route_table()[j]).2,
{
    reveal_strlit("/moderation/reports");
    reveal_strlit("/moderation/reports/{id}");
    reveal_strlit("/moderation/sanctions");
    reveal_strlit("/moderation/sanctions/{id}/revoke");
    reveal_strlit("/moderation/sanctions/user/{user_id}");
    reveal_strlit("/moderation/appeals");
    reveal_strlit("/moderation/appeals/{id}/respond");
    let a = "/moderation/reports"@;
    let b = "/moderation/reports/{id}"@;
    let c = "/moderation/sanctions"@;
    let d = "/moderation/sanctions/{id}/revoke"@;
    let e = "/moderation/sanctions/user/{user_id}"@;
    let f = "/moderation/appeals"@;
    let g = "/moderation/appeals/{id}/respond"@;
    assert(a.len() == 19 && b.len() == 24 && c.len() == 21 && d.len() == 33 && e.len() == 36
        && f.len() == 19 && g.len() == 32);
    assert(a[12] != f[12]);
    assert(a != f && d != g && a != b && a != c && a != e && b != c && b != e && c != e
        && b != d && b != g && c != f);
    let t = route_table();
    assert(t.len() == 11);
    assert forall|i: int, j: int| 0 <= i < j < t.len() implies {
        ||| (#[trigger] t[i]).0 != (#[trigger] t[j]).0
        ||| t[i].1 != t[j].1
    } && t[i].2 != t[j].2 by {
        assert(t[0] == (a, HttpMethod::Post, Endpoint::CreateReport));
        assert(t[1] == (a, HttpMethod::Get, Endpoint::ListReports));
        assert(t[2] == (b, HttpMethod::Get, Endpoint::GetReport));
        assert(t[3] == (b, HttpMethod::Patch, Endpoint::UpdateReport));
        assert(t[4] == (c, HttpMethod::Post, Endpoint::CreateSanction));
        assert(t[5] == (c, HttpMethod::Get, Endpoint::ListSanctions));
        assert(t[6] == (d, HttpMethod::Patch, Endpoint::RevokeSanction));
        assert(t[7] == (e, HttpMethod::Get, Endpoint::UserSanctions));
        assert(t[8] == (f, HttpMethod::Post, Endpoint::CreateAppeal));
        assert(t[9] == (f, HttpMethod::Get, Endpoint::ListAppeals));
        assert(t[10] == (g, HttpMethod::Patch, Endpoint::RespondAppeal));
    }
}

/// Whether a flow belongs to a listing.
pub open spec fn is_listing(flow: ReportFlowView) -> bool {
    flow is ListAwaitUser || flow is ListAwaitPage
}

/// A listing answers a page and every other request answers one report: a
/// flow that has not finished stays a listing or stays a single-report flow,
/// and a successful answer is a page exactly when the flow is a listing. Filing
/// starts a single-report flow (or has already answered), listing starts a
/// listing, and looking up and updating start single-report flows.
pub proof fn law_reply_kinds(flow: ReportFlowView, event: ReportEventView)
    requires
        flow.accepts(event),
    ensures
        next(flow, event).0 !is Finished ==> is_listing(next(flow, event).0) == is_listing(flow),
        next(flow, event).1 matches ReportActionView::Reply(Ok(reply)) ==> (reply is Page
            <==> is_listing(flow)),
{
}

/// Which kind of flow each endpoint starts.
pub proof fn law_start_kinds(
    reporter_id: u128,
    req: CreateReportRequestView,
    id: u128,
    now: Timestamp,
    user_id: u128,
    params: ReportListParamsView,
    change: UpdateReportRequestView,
)
    ensures
        !is_listing(spec_create_report(reporter_id, req, id, now).0),
        !(spec_create_report(reporter_id, req, id, now).1 matches ReportActionView::Reply(Ok(_))),
        is_listing(spec_list_reports(user_id, params).0),
        !is_listing(ReportFlowView::GetAwaitUser { id }),
        !is_listing(ReportFlowView::UpdateAwaitUser { id, change }),
{
}

/// A flow always waits for exactly the result of the action it asked for:
/// after a step, and at the start of each endpoint, the flow accepts an event
/// exactly when that event is the result of the action named.
pub proof fn law_flows_wait_for_their_action(flow: ReportFlowView, event: ReportEventView, result: ReportEventView)
    requires
        flow.accepts(event),
    ensures
        next(flow, event).0.accepts(result) <==> answers(next(flow, event).1, result),
{
}

/// Each endpoint starts waiting for the result of the action it names first.
pub proof fn law_starts_wait_for_their_action(
    reporter_id: u128,
    req: CreateReportRequestView,
    id: u128,
    now: Timestamp,
    user_id: u128,
    params: ReportListParamsView,
    change: UpdateReportRequestView,
    result: ReportEventView,
)
    ensures
        spec_create_report(reporter_id, req, id, now).0.accepts(result) <==> answers(
            spec_create_report(reporter_id, req, id, now).1,
            result,
        ),
        spec_list_reports(user_id, params).0.accepts(result) <==> answers(
            spec_list_reports(user_id, params).1,
            result,
        ),
        (ReportFlowView::GetAwaitUser { id }).accepts(result) <==> answers(
            (ReportActionView::LoadUser { user_id }),
            result,
        ),
        (ReportFlowView::UpdateAwaitUser { id, change }).accepts(result) <==> answers(
            (ReportActionView::LoadUser { user_id }),
            result,
        ),
{
}

/// What the service hands back for the actions of an update when every
/// database call succeeds: the caller's user record holds `caller_role`; a
/// fetch finds the stored report, if any; storing a status sets the report's
/// status and resolution time; storing an assignment sets its assignee; the
/// clock reads `clock`.
pub open spec fn table_result(
    store: Map<u128, ReportRecordView>,
    caller_role: Seq<char>,
    clock: Timestamp,
    action: ReportActionView,
) -> (Map<u128, ReportRecordView>, ReportEventView) {
    match action {
        ReportActionView::LoadUser { .. } => (
            store,
            ReportEventView::UserLoaded(Ok(Some(caller_role))),
        ),
        ReportActionView::Fetch { id } => (
            store,
            ReportEventView::Found(
                Ok(
                    if store.contains_key(id) {
                        Some(store[id])
                    } else {
                        None
                    },
                ),
            ),
        ),
        ReportActionView::SetStatus { id, status, resolved_at } => (
            store.insert(id, ReportRecordView { status, resolved_at, ..store[id] }),
            ReportEventView::Written(Ok(())),
        ),
        ReportActionView::Assign { id, moderator_id } => (
            store.insert(id, ReportRecordView { assigned_to: Some(moderator_id), ..store[id] }),
            ReportEventView::Written(Ok(())),
        ),
        ReportActionView::ReadClock => (store, ReportEventView::Clock(clock)),
        _ => (store, ReportEventView::Written(Ok(()))),
    }
}

/// Runs a flow against `table_result` for at most `fuel` results: the action
/// it ends on (its reply, once it has one) and the reports as they then stand.
pub open spec fn run_flow(
    flow: ReportFlowView,
    action: ReportActionView,
    store: Map<u128, ReportRecordView>,
    caller_role: Seq<char>,
    clock: Timestamp,
    fuel: nat,
) -> (ReportActionView, Map<u128, ReportRecordView>)
    decreases fuel,
{
    if fuel == 0 || action is Reply {
        (action, store)
    } else {
        let (after, event) = table_result(store, caller_role, clock, action);
        let (f, a) = next(flow, event);
        run_flow(f, a, after, caller_role, clock, (fuel - 1) as nat)
    }
}

/// A moderator's update of a report, run to its answer against the reports.
pub open spec fn run_update(
    user_id: u128,
    id: u128,
    change: UpdateReportRequestView,
    store: Map<u128, ReportRecordView>,
    clock: Timestamp,
) -> (ReportActionView, Map<u128, ReportRecordView>) {
    run_flow(
        ReportFlowView::UpdateAwaitUser { id, change },
        ReportActionView::LoadUser { user_id },
        store,
        moderator_role(),
        clock,
        6,
    )
}

/// A report after an update: the new status, if any, with its resolution time
/// (the clock's reading when resolving, none otherwise), and the new assignee,
/// if any.
pub open spec fn updated_record(
    r: ReportRecordView,
    change: UpdateReportRequestView,
    clock: Timestamp,
) -> ReportRecordView {
    let with_status = match change.status {
        Some(s) => ReportRecordView {
            status: s,
            resolved_at: if s == resolved_status() {
                Some(clock)
            } else {
                None
            },
            ..r
        },
        None => r,
    };
    match change.assigned_to {
        Some(m) => ReportRecordView { assigned_to: Some(m), ..with_status },
        None => with_status,
    }
}

/// A moderator's update of an existing report stores the updated report and
/// answers it.
pub proof fn lemma_update_run(
    user_id: u128,
    id: u128,
    change: UpdateReportRequestView,
    store: Map<u128, ReportRecordView>,
    clock: Timestamp,
)
    requires
        store.contains_key(id),
    ensures
        run_update(user_id, id, change, store, clock).1 == store.insert(
            id,
            updated_record(store[id], change, clock),
        ),
        run_update(user_id, id, change, store, clock).0 == reply_report(
            updated_record(store[id], change, clock),
        ).1,
{
    let role = moderator_role();
    let r = store[id];
    let f0 = ReportFlowView::UpdateAwaitUser { id, change };
    let f1 = ReportFlowView::UpdateAwaitExisting { id, change };
    assert(run_update(user_id, id, change, store, clock) == run_flow(
        f1,
        ReportActionView::Fetch { id },
        store,
        role,
        clock,
        5,
    ));
    let final_store = store.insert(id, updated_record(r, change, clock));
    let reload = ReportFlowView::UpdateAwaitReload;
    // After the writes, the report is fetched again and answered.
    assert(final_store.contains_key(id) && final_store[id] == updated_record(r, change, clock));
    assert forall|fuel: nat| fuel >= 1 implies run_flow(
        reload,
        ReportActionView::Fetch { id },
        final_store,
        role,
        clock,
        fuel,
    ) == (reply_report(updated_record(r, change, clock)).1, final_store) by {
        assert(run_flow(
            ReportFlowView::Finished,
            reply_report(updated_record(r, change, clock)).1,
            final_store,
            role,
            clock,
            (fuel - 1) as nat,
        ) == (reply_report(updated_record(r, change, clock)).1, final_store));
    }
    match change.status {
        Some(s) => {
            let stamped = if s == resolved_status() {
                Some(clock)
            } else {
                None
            };
            let with_status = ReportRecordView { status: s, resolved_at: stamped, ..r };
            let s1 = store.insert(id, with_status);
            let f3 = ReportFlowView::UpdateAwaitStatus { id, assign: change.assigned_to };
            let write = ReportActionView::SetStatus { id, status: s, resolved_at: stamped };
            if s == resolved_status() {
                let f2 = ReportFlowView::UpdateAwaitClock { id, assign: change.assigned_to };
                assert(run_flow(f1, ReportActionView::Fetch { id }, store, role, clock, 5)
                    == run_flow(f2, ReportActionView::ReadClock, store, role, clock, 4));
                assert(run_flow(f2, ReportActionView::ReadClock, store, role, clock, 4)
                    == run_flow(f3, write, store, role, clock, 3));
            } else {
                assert(run_flow(f1, ReportActionView::Fetch { id }, store, role, clock, 5)
                    == run_flow(f3, write, store, role, clock, 4));
                assert(run_flow(f3, write, store, role, clock, 4)
                    == run_flow(after_status(id, change.assigned_to).0, after_status(id, change.assigned_to).1, s1, role, clock, 3));
            }
            assert(run_flow(f3, write, store, role, clock, 3) == run_flow(
                after_status(id, change.assigned_to).0,
                after_status(id, change.assigned_to).1,
                s1,
                role,
                clock,
                2,
            ));
            match change.assigned_to {
                Some(m) => {
                    let f4 = ReportFlowView::UpdateAwaitAssign { id };
                    let assign = ReportActionView::Assign { id, moderator_id: m };
                    let s2 = s1.insert(id, ReportRecordView { assigned_to: Some(m), ..with_status });
                    assert(s2 =~= final_store);
                    assert(run_flow(f4, assign, s1, role, clock, 2) == run_flow(
                        reload,
                        ReportActionView::Fetch { id },
                        s2,
                        role,
                        clock,
                        1,
                    ));
                    assert(run_flow(f4, assign, s1, role, clock, 3) == run_flow(
                        reload,
                        ReportActionView::Fetch { id },
                        s2,
                        role,
                        clock,
                        2,
                    ));
                },
                None => {
                    assert(s1 =~= final_store);
                },
            }
        },
        None => {
            assert(run_flow(f1, ReportActionView::Fetch { id }, store, role, clock, 5) == run_flow(
                after_status(id, change.assigned_to).0,
                after_status(id, change.assigned_to).1,
                store,
                role,
                clock,
                4,
            ));
            match change.assigned_to {
                Some(m) => {
                    let f4 = ReportFlowView::UpdateAwaitAssign { id };
                    let assign = ReportActionView::Assign { id, moderator_id: m };
                    let s2 = store.insert(id, ReportRecordView { assigned_to: Some(m), ..r });
                    assert(s2 =~= final_store);
                    assert(run_flow(f4, assign, store, role, clock, 4) == run_flow(
                        reload,
                        ReportActionView::Fetch { id },
                        s2,
                        role,
                        clock,
                        3,
                    ));
                },
                None => {
                    assert(store.insert(id, r) =~= store);
                    assert(store =~= final_store);
                },
            }
        },
    }
}

/// Making the same update twice in a row gives the same answer and leaves
/// the same report, except that resolving again stamps the report with the
/// later time.
pub proof fn law_repeated_update(
    user_id: u128,
    id: u128,
    change: UpdateReportRequestView,
    store: Map<u128, ReportRecordView>,
    first: Timestamp,
    second: Timestamp,
)
    requires
        store.contains_key(id),
    ensures
        ({
            let (a1, s1) = run_update(user_id, id, change, store, first);
            let (a2, s2) = run_update(user_id, id, change, s1, second);
            let resolving = change.status == Some(resolved_status());
            &&& a1 matches ReportActionView::Reply(Ok(ReportReplyView::Report(r1)))
            &&& a2 matches ReportActionView::Reply(Ok(ReportReplyView::Report(r2)))
            &&& s1.contains_key(id)
            &&& s2 == if resolving {
                s1.insert(id, ReportRecordView { resolved_at: Some(second), ..s1[id] })
            } else {
                s1
            }
            &&& match (a1, a2) {
                (
                    ReportActionView::Reply(Ok(ReportReplyView::Report(r1))),
                    ReportActionView::Reply(Ok(ReportReplyView::Report(r2))),
                ) => r2 == (ReportResponseView {
                    resolved_at: if resolving {
                        Some(timestamp_text(second))
                    } else {
                        r1.resolved_at
                    },
                    ..r1
                }),
                _ => false,
            }
        }),
{
    let (a1, s1) = run_update(user_id, id, change, store, first);
    lemma_update_run(user_id, id, change, store, first);
    lemma_update_run(user_id, id, change, s1, second);
    let r1 = updated_record(store[id], change, first);
    let r2 = updated_record(s1[id], change, second);
    assert(s1[id] == r1);
    if change.status == Some(resolved_status()) {
        assert(r2 == ReportRecordView { resolved_at: Some(second), ..r1 });
        assert(s1.insert(id, r2) =~= s1.insert(id, ReportRecordView { resolved_at: Some(second), ..s1[id] }));
    } else {
        assert(r2 == r1);
        assert(s1.insert(id, r2) =~= s1);
    }
}

} // verus!
