//! The typed schema: the records that requests and responses carry.
//!
//! Every entity lives for one request/response cycle; no invariant spans
//! more than one record.

use vstd::prelude::*;

verus! {

/// One team as the API lists it.
pub struct Team {
    pub id: String,
    pub name: String,
}

/// One project as the API lists it.
pub struct Project {
    pub id: String,
    pub name: String,
}

/// One issue as the API returns it after creation.
pub struct Issue {
    pub id: String,
    pub title: String,
    pub url: String,
}

/// The payload of the issue-creation mutation: whether it succeeded, and
/// the issue when the API returned one.
pub struct IssuePayload {
    pub success: bool,
    pub issue: Option<Issue>,
}

/// The response shape of the issue-creation mutation.
pub struct IssueCreateResponse {
    pub issue_create: IssuePayload,
}

/// The list envelope around teams.
pub struct TeamsData {
    pub nodes: Vec<Team>,
}

/// The response shape of the teams query.
pub struct TeamsResponse {
    pub teams: TeamsData,
}

/// The list envelope around projects.
pub struct ProjectsData {
    pub nodes: Vec<Project>,
}

/// The response shape of the projects query.
pub struct ProjectsResponse {
    pub projects: ProjectsData,
}

/// The envelope every successful response arrives in: `{"data": ...}`.
pub struct GraphQLResponse<T> {
    pub data: T,
}

/// The variables of the issue-creation mutation. Team id and title are
/// required; project id and description may be absent, and are then sent
/// as JSON null.
pub struct IssueCreateInput {
    pub team_id: String,
    pub project_id: Option<String>,
    pub title: String,
    pub description: Option<String>,
}

/// One request as it goes on the wire: the operation text and, when the
/// operation takes any, its variables already framed as a JSON object.
pub struct GraphQLRequest {
    pub query: String,
    pub variables: Option<String>,
}

} // verus!
