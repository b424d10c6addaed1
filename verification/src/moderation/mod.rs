pub mod laws;
pub mod reports;
pub mod types;

use vstd::prelude::*;

use crate::error::{unit_result_view, ApiError, ApiErrorView};

verus! {

/// What looking a user up gave, as character sequences: the database's error
/// text, no such user, or the user's role.
pub open spec fn user_lookup_view(lookup: Result<Option<String>, String>) -> Result<
    Option<Seq<char>>,
    Seq<char>,
> {
    match lookup {
        Ok(Some(role)) => Ok(Some(role@)),
        Ok(None) => Ok(None),
        Err(e) => Err(e@),
    }
}

/// The role that lets a user moderate.
pub open spec fn moderator_role() -> Seq<char> {
    "moderator"@
}

/// Whether a user lookup found a moderator.
pub open spec fn is_moderator(lookup: Result<Option<Seq<char>>, Seq<char>>) -> bool {
    lookup == Ok::<Option<Seq<char>>, Seq<char>>(Some(moderator_role()))
}

/// The answer to a moderator-only request, given what looking the caller up
/// gave: a database failure, no such user (unauthorized), a user of another
/// role (forbidden), or a moderator (allowed).
pub open spec fn spec_require_moderator(lookup: Result<Option<Seq<char>>, Seq<char>>) -> Result<
    (),
    ApiErrorView,
> {
    match lookup {
        Err(e) => Err(ApiErrorView::Database(e)),
        Ok(None) => Err(ApiErrorView::Unauthorized),
        Ok(Some(role)) => if role == moderator_role() {
            Ok(())
        } else {
            Err(ApiErrorView::Forbidden)
        },
    }
}

/// Checks that the caller holds the "moderator" role, given what looking the
/// caller up in the database gave.
pub fn require_moderator(lookup: Result<Option<String>, String>) -> (r: Result<(), ApiError>)
    ensures
        unit_result_view(r) == spec_require_moderator(user_lookup_view(lookup)),
{
    match lookup {
        Err(e) => Err(ApiError::Database(e)),
        Ok(None) => Err(ApiError::Unauthorized),
        Ok(Some(role)) => {
            let moderator = String::from_str("moderator");
            if role == moderator {
                Ok(())
            } else {
                Err(ApiError::Forbidden)
            }
        },
    }
}

/// The HTTP methods the moderation API answers.
#[derive(PartialEq, Eq, Structural, Clone, Copy, Debug)]
pub enum HttpMethod {
    Get,
    Post,
    Patch,
}

/// The handlers of the moderation API.
#[derive(PartialEq, Eq, Structural, Clone, Copy, Debug)]
pub enum Endpoint {
    /// File a report; open to every authenticated user.
    CreateReport,
    /// List reports; moderators only.
    ListReports,
    /// Look one report up; moderators only.
    GetReport,
    /// Change a report's status or assignee; moderators only.
    UpdateReport,
    /// Sanction a user; moderators only.
    CreateSanction,
    /// List sanctions; moderators only.
    ListSanctions,
    /// Revoke a sanction; moderators only.
    RevokeSanction,
    /// List one user's sanctions; moderators only.
    UserSanctions,
    /// Appeal a sanction; open to every authenticated user.
    CreateAppeal,
    /// List appeals; moderators only.
    ListAppeals,
    /// Answer an appeal; moderators only.
    RespondAppeal,
}

/// A path and method of the moderation API and the handler that serves it.
pub struct Route {
    pub path: String,
    pub method: HttpMethod,
    pub endpoint: Endpoint,
}

/// The moderation API's routes, in the order they are registered.
pub open spec fn route_table() -> Seq<(Seq<char>, HttpMethod, Endpoint)> {
    seq![
        ("/moderation/reports"@, HttpMethod::Post, Endpoint::CreateReport),
        ("/moderation/reports"@, HttpMethod::Get, Endpoint::ListReports),
        ("/moderation/reports/{id}"@, HttpMethod::Get, Endpoint::GetReport),
        ("/moderation/reports/{id}"@, HttpMethod::Patch, Endpoint::UpdateReport),
        ("/moderation/sanctions"@, HttpMethod::Post, Endpoint::CreateSanction),
        ("/moderation/sanctions"@, HttpMethod::Get, Endpoint::ListSanctions),
        ("/moderation/sanctions/{id}/revoke"@, HttpMethod::Patch, Endpoint::RevokeSanction),
        ("/moderation/sanctions/user/{user_id}"@, HttpMethod::Get, Endpoint::UserSanctions),
        ("/moderation/appeals"@, HttpMethod::Post, Endpoint::CreateAppeal),
        ("/moderation/appeals"@, HttpMethod::Get, Endpoint::ListAppeals),
        ("/moderation/appeals/{id}/respond"@, HttpMethod::Patch, Endpoint::RespondAppeal),
    ]
}

/// What a route says, with its path as a character sequence.
pub open spec fn route_view(r: Route) -> (Seq<char>, HttpMethod, Endpoint) {
    (r.path@, r.method, r.endpoint)
}

fn route(path: &str, method: HttpMethod, endpoint: Endpoint) -> (r: Route)
    ensures
        route_view(r) == (path@, method, endpoint),
{
    Route { path: String::from_str(path), method, endpoint }
}

/// The routes of the moderation API: which handler serves which path and
/// method.
pub fn routes() -> (r: Vec<Route>)
    ensures
        r@.map_values(|x: Route| route_view(x)) == route_table(),
{
    let mut r: Vec<Route> = Vec::new();
    r.push(route("/moderation/reports", HttpMethod::Post, Endpoint::CreateReport));
    r.push(route("/moderation/reports", HttpMethod::Get, Endpoint::ListReports));
    r.push(route("/moderation/reports/{id}", HttpMethod::Get, Endpoint::GetReport));
    r.push(route("/moderation/reports/{id}", HttpMethod::Patch, Endpoint::UpdateReport));
    r.push(route("/moderation/sanctions", HttpMethod::Post, Endpoint::CreateSanction));
    r.push(route("/moderation/sanctions", HttpMethod::Get, Endpoint::ListSanctions));
    r.push(route("/moderation/sanctions/{id}/revoke", HttpMethod::Patch, Endpoint::RevokeSanction));
    r.push(route("/moderation/sanctions/user/{user_id}", HttpMethod::Get, Endpoint::UserSanctions));
    r.push(route("/moderation/appeals", HttpMethod::Post, Endpoint::CreateAppeal));
    r.push(route("/moderation/appeals", HttpMethod::Get, Endpoint::ListAppeals));
    r.push(route("/moderation/appeals/{id}/respond", HttpMethod::Patch, Endpoint::RespondAppeal));
    assert(r@.map_values(|x: Route| route_view(x)) =~= route_table());
    r
}

} // verus!
