//! The three operations: what each one asks the API and what it reports.
//!
//! Each command assembles one request — a fixed operation text and, for
//! issue creation, a variables object — and turns the typed response into
//! the lines it prints. The HTTP exchange itself happens outside the
//! library; these functions state exactly what goes out and what is
//! reported for every response that can come back.

use vstd::prelude::*;

use crate::json;
use crate::types::GraphQLRequest;
use crate::types::Issue;
use crate::types::IssueCreateInput;
use crate::types::IssueCreateResponse;
use crate::types::Project;
use crate::types::ProjectsResponse;
use crate::types::Team;
use crate::types::TeamsResponse;

verus! {

/// The fixed query that lists teams.
pub fn teams_query() -> (r: String)
    ensures
        r@ == "query Teams { teams { nodes { id name } } }"@,
{
    "query Teams { teams { nodes { id name } } }".to_owned()
}

/// The fixed query that lists projects.
pub fn projects_query() -> (r: String)
    ensures
        r@ == "query Projects { projects { nodes { id name } } }"@,
{
    "query Projects { projects { nodes { id name } } }".to_owned()
}

/// The fixed mutation that creates an issue.
pub fn create_issue_mutation() -> (r: String)
    ensures
        r@
            == "mutation IssueCreate($input: IssueCreateInput!) { issueCreate(input: $input) { success issue { id title url } } }"@,
{
    "mutation IssueCreate($input: IssueCreateInput!) { issueCreate(input: $input) { success issue { id title url } } }".to_owned()
}

/// The request the teams command sends: the fixed query, no variables.
pub fn teams_request() -> (r: GraphQLRequest)
    ensures
        r.query@ == "query Teams { teams { nodes { id name } } }"@,
        r.variables is None,
{
    GraphQLRequest { query: teams_query(), variables: None }
}

/// The request the projects command sends: the fixed query, no variables.
pub fn projects_request() -> (r: GraphQLRequest)
    ensures
        r.query@ == "query Projects { projects { nodes { id name } } }"@,
        r.variables is None,
{
    GraphQLRequest { query: projects_query(), variables: None }
}

/// The request the create command sends: the fixed mutation, and the input
/// record framed as the variables object.
pub fn create_request(input: &IssueCreateInput) -> (r: GraphQLRequest)
    ensures
        r.query@
            == "mutation IssueCreate($input: IssueCreateInput!) { issueCreate(input: $input) { success issue { id title url } } }"@,
        (match r.variables {
            Some(v) => v@ == json::issue_create_variables(
                input.team_id@,
                input.project_id.deep_view(),
                input.title@,
                input.description.deep_view(),
            ),
            None => false,
        }),
{
    GraphQLRequest {
        query: create_issue_mutation(),
        variables: Some(json::render_issue_create_variables(input)),
    }
}

/// What the create command reports, decided from the mutation response.
pub enum CreateOutcome {
    /// The mutation succeeded and returned the issue: report it.
    Created(Issue),
    /// The mutation succeeded but returned no issue: warn, succeed anyway.
    SuccessWithoutIssue,
    /// The mutation reported failure: a terminal error.
    Failed,
}

/// Decides what the create command reports: failure whenever the mutation
/// says so, whatever issue payload came along; otherwise the issue when one
/// is there, and a bare success when none is.
pub fn create_outcome(resp: IssueCreateResponse) -> (r: CreateOutcome)
    ensures
        (match r {
            CreateOutcome::Created(issue) => resp.issue_create.success
                && resp.issue_create.issue == Some(issue),
            CreateOutcome::SuccessWithoutIssue => resp.issue_create.success
                && resp.issue_create.issue is None,
            CreateOutcome::Failed => !resp.issue_create.success,
        }),
{
    if resp.issue_create.success {
        match resp.issue_create.issue {
            Some(issue) => CreateOutcome::Created(issue),
            None => CreateOutcome::SuccessWithoutIssue,
        }
    } else {
        CreateOutcome::Failed
    }
}

/// The lines printed for a created issue.
pub fn created_lines(issue: &Issue) -> (r: Vec<String>)
    ensures
        r@.len() == 4,
        r@[0]@ == "issue created!"@,
        r@[1]@ == "id: "@ + issue.id@,
        r@[2]@ == "title: "@ + issue.title@,
        r@[3]@ == "url: "@ + issue.url@,
{
    let mut lines: Vec<String> = Vec::new();
    lines.push("issue created!".to_owned());
    let mut id_line: String = "id: ".to_owned();
    id_line.append(issue.id.as_str());
    lines.push(id_line);
    let mut title_line: String = "title: ".to_owned();
    title_line.append(issue.title.as_str());
    lines.push(title_line);
    let mut url_line: String = "url: ".to_owned();
    url_line.append(issue.url.as_str());
    lines.push(url_line);
    lines
}

/// The warning printed when the mutation succeeds without returning an
/// issue.
pub fn no_issue_warning() -> (r: String)
    ensures
        r@ == "[warning] issue creation reported success but no issue data returned"@,
{
    "[warning] issue creation reported success but no issue data returned".to_owned()
}

/// The error reported when the mutation says the creation failed.
pub fn creation_failed_error() -> (r: String)
    ensures
        r@ == "[error] issue creation failed"@,
{
    "[error] issue creation failed".to_owned()
}

/// One printed list entry: the name, a tab, the id.
pub open spec fn spec_entry_line(name: Seq<char>, id: Seq<char>) -> Seq<char> {
    name + "\t"@ + id
}

/// Renders one team as its printed line.
pub fn team_line(team: &Team) -> (r: String)
    ensures
        r@ == spec_entry_line(team.name@, team.id@),
{
    let mut r = team.name.clone();
    r.append("\t");
    r.append(team.id.as_str());
    r
}

/// Renders one project as its printed line.
pub fn project_line(project: &Project) -> (r: String)
    ensures
        r@ == spec_entry_line(project.name@, project.id@),
{
    let mut r = project.name.clone();
    r.append("\t");
    r.append(project.id.as_str());
    r
}

/// Renders the teams response: one line per returned node, in the returned
/// order. An empty list renders nothing.
pub fn render_teams(data: &TeamsResponse) -> (r: Vec<String>)
    ensures
        r@.len() == data.teams.nodes@.len(),
        forall|i: int|
            0 <= i < r@.len() ==> r@[i]@ == spec_entry_line(
                data.teams.nodes@[i].name@,
                data.teams.nodes@[i].id@,
            ),
{
    let mut lines: Vec<String> = Vec::new();
    let mut i: usize = 0;
    while i < data.teams.nodes.len()
        invariant
            i <= data.teams.nodes@.len(),
            lines@.len() == i,
            forall|j: int|
                0 <= j < i ==> lines@[j]@ == spec_entry_line(
                    data.teams.nodes@[j].name@,
                    data.teams.nodes@[j].id@,
                ),
        decreases data.teams.nodes@.len() - i,
    {
        lines.push(team_line(&data.teams.nodes[i]));
        i = i + 1;
    }
    lines
}

/// Renders the projects response: one line per returned node, in the
/// returned order. An empty list renders nothing.
pub fn render_projects(data: &ProjectsResponse) -> (r: Vec<String>)
    ensures
        r@.len() == data.projects.nodes@.len(),
        forall|i: int|
            0 <= i < r@.len() ==> r@[i]@ == spec_entry_line(
                data.projects.nodes@[i].name@,
                data.projects.nodes@[i].id@,
            ),
{
    let mut lines: Vec<String> = Vec::new();
    let mut i: usize = 0;
    while i < data.projects.nodes.len()
        invariant
            i <= data.projects.nodes@.len(),
            lines@.len() == i,
            forall|j: int|
                0 <= j < i ==> lines@[j]@ == spec_entry_line(
                    data.projects.nodes@[j].name@,
                    data.projects.nodes@[j].id@,
                ),
        decreases data.projects.nodes@.len() - i,
    {
        lines.push(project_line(&data.projects.nodes[i]));
        i = i + 1;
    }
    lines
}

} // verus!
