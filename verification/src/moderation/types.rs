use vstd::prelude::*;

use crate::time::Timestamp;

verus! {

/// The body of a request that files a report about some content.
pub struct CreateReportRequest {
    pub content_type: String,
    pub content_id: u128,
    pub reason: String,
    pub description: Option<String>,
}

/// The query of a request that lists reports.
pub struct ReportListParams {
    pub status: Option<String>,
    pub offset: Option<u64>,
    pub limit: Option<u64>,
}

/// The body of a request that changes a report's status or assignee.
pub struct UpdateReportRequest {
    pub status: Option<String>,
    pub assigned_to: Option<u128>,
}

/// A stored content report, as the database holds it.
pub struct ReportRecord {
    pub id: u128,
    pub reporter_id: u128,
    pub content_type: String,
    pub content_id: u128,
    pub reason: String,
    pub description: Option<String>,
    pub status: String,
    pub assigned_to: Option<u128>,
    pub resolved_at: Option<Timestamp>,
    pub created_at: Timestamp,
}

/// A report as the API answers it, its times written as RFC 3339 text.
pub struct ReportResponse {
    pub id: u128,
    pub reporter_id: u128,
    pub content_type: String,
    pub content_id: u128,
    pub reason: String,
    pub description: Option<String>,
    pub status: String,
    pub assigned_to: Option<u128>,
    pub resolved_at: Option<String>,
    pub created_at: String,
}

/// One page of reports, with the total count and the window served.
pub struct ReportListResponse {
    pub data: Vec<ReportResponse>,
    pub total: u64,
    pub offset: u64,
    pub limit: u64,
}

pub struct CreateReportRequestView {
    pub content_type: Seq<char>,
    pub content_id: u128,
    pub reason: Seq<char>,
    pub description: Option<Seq<char>>,
}

pub struct ReportListParamsView {
    pub status: Option<Seq<char>>,
    pub offset: Option<u64>,
    pub limit: Option<u64>,
}

pub struct UpdateReportRequestView {
    pub status: Option<Seq<char>>,
    pub assigned_to: Option<u128>,
}

pub struct ReportRecordView {
    pub id: u128,
    pub reporter_id: u128,
    pub content_type: Seq<char>,
    pub content_id: u128,
    pub reason: Seq<char>,
    pub description: Option<Seq<char>>,
    pub status: Seq<char>,
    pub assigned_to: Option<u128>,
    pub resolved_at: Option<Timestamp>,
    pub created_at: Timestamp,
}

pub struct ReportResponseView {
    pub id: u128,
    pub reporter_id: u128,
    pub content_type: Seq<char>,
    pub content_id: u128,
    pub reason: Seq<char>,
    pub description: Option<Seq<char>>,
    pub status: Seq<char>,
    pub assigned_to: Option<u128>,
    pub resolved_at: Option<Seq<char>>,
    pub created_at: Seq<char>,
}

pub struct ReportListResponseView {
    pub data: Seq<ReportResponseView>,
    pub total: u64,
    pub offset: u64,
    pub limit: u64,
}

impl View for CreateReportRequest {
    type V = CreateReportRequestView;

    open spec fn view(&self) -> CreateReportRequestView {
        CreateReportRequestView {
            content_type: self.content_type@,
            content_id: self.content_id,
            reason: self.reason@,
            description: self.description.deep_view(),
        }
    }
}

impl View for ReportListParams {
    type V = ReportListParamsView;

    open spec fn view(&self) -> ReportListParamsView {
        ReportListParamsView {
            status: self.status.deep_view(),
            offset: self.offset,
            limit: self.limit,
        }
    }
}

impl View for UpdateReportRequest {
    type V = UpdateReportRequestView;

    open spec fn view(&self) -> UpdateReportRequestView {
        UpdateReportRequestView { status: self.status.deep_view(), assigned_to: self.assigned_to }
    }
}

impl View for ReportRecord {
    type V = ReportRecordView;

    open spec fn view(&self) -> ReportRecordView {
        ReportRecordView {
            id: self.id,
            reporter_id: self.reporter_id,
            content_type: self.content_type@,
            content_id: self.content_id,
            reason: self.reason@,
            description: self.description.deep_view(),
            status: self.status@,
            assigned_to: self.assigned_to,
            resolved_at: self.resolved_at,
            created_at: self.created_at,
        }
    }
}

impl View for ReportResponse {
    type V = ReportResponseView;

    open spec fn view(&self) -> ReportResponseView {
        ReportResponseView {
            id: self.id,
            reporter_id: self.reporter_id,
            content_type: self.content_type@,
            content_id: self.content_id,
            reason: self.reason@,
            description: self.description.deep_view(),
            status: self.status@,
            assigned_to: self.assigned_to,
            resolved_at: self.resolved_at.deep_view(),
            created_at: self.created_at@,
        }
    }
}

impl View for ReportListResponse {
    type V = ReportListResponseView;

    open spec fn view(&self) -> ReportListResponseView {
        ReportListResponseView {
            data: self.data@.map_values(|r: ReportResponse| r@),
            total: self.total,
            offset: self.offset,
            limit: self.limit,
        }
    }
}

} // verus!
