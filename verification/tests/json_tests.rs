use linearite::api;
use linearite::commands;
use linearite::json;
use linearite::types::GraphQLRequest;
use linearite::types::IssueCreateInput;

#[test]
fn json_escape_leaves_plain_text_alone() {
    assert_eq!(json::json_escape("Test Issue"), "Test Issue");
    assert_eq!(json::json_escape(""), "");
}

#[test]
fn json_escape_escapes_quotes_and_backslashes() {
    assert_eq!(json::json_escape("a\"b"), "a\\\"b");
    assert_eq!(json::json_escape("a\\b"), "a\\\\b");
}

#[test]
fn json_escape_escapes_control_characters() {
    assert_eq!(json::json_escape("a\nb"), "a\\u000ab");
    assert_eq!(json::json_escape("a\tb"), "a\\u0009b");
    assert_eq!(json::json_escape("a\u{1f}b"), "a\\u001fb");
}

#[test]
fn render_json_string_quotes_the_contents() {
    assert_eq!(json::render_json_string("Test"), "\"Test\"");
    assert_eq!(json::render_json_string("say \"hi\""), "\"say \\\"hi\\\"\"");
}

#[test]
fn render_json_opt_string_uses_null_for_absent_values() {
    assert_eq!(json::render_json_opt_string(&Some("x".to_string())), "\"x\"");
    assert_eq!(json::render_json_opt_string(&None), "null");
}

#[test]
fn create_variables_hold_all_four_fields() {
    let input = IssueCreateInput {
        team_id: "team-123".to_string(),
        project_id: Some("proj-456".to_string()),
        title: "Test Issue".to_string(),
        description: Some("Test description".to_string()),
    };
    let variables = json::render_issue_create_variables(&input);
    assert_eq!(
        variables,
        "{\"input\":{\"teamId\":\"team-123\",\"projectId\":\"proj-456\",\
         \"title\":\"Test Issue\",\"description\":\"Test description\"}}"
    );
}

#[test]
fn create_variables_send_absent_fields_as_null() {
    let input = IssueCreateInput {
        team_id: "team-123".to_string(),
        project_id: None,
        title: "Test Issue".to_string(),
        description: None,
    };
    let variables = json::render_issue_create_variables(&input);
    assert_eq!(
        variables,
        "{\"input\":{\"teamId\":\"team-123\",\"projectId\":null,\
         \"title\":\"Test Issue\",\"description\":null}}"
    );
}

#[test]
fn request_body_omits_variables_when_absent() {
    let request = GraphQLRequest { query: "query { x }".to_string(), variables: None };
    assert_eq!(json::render_request_body(&request), "{\"query\":\"query { x }\"}");
}

#[test]
fn request_body_carries_variables_when_present() {
    let request = GraphQLRequest {
        query: "query { x }".to_string(),
        variables: Some("{\"a\":1}".to_string()),
    };
    assert_eq!(
        json::render_request_body(&request),
        "{\"query\":\"query { x }\",\"variables\":{\"a\":1}}"
    );
}

#[test]
fn create_request_frames_mutation_and_variables() {
    let input = IssueCreateInput {
        team_id: "team-123".to_string(),
        project_id: None,
        title: "Test Issue".to_string(),
        description: None,
    };
    let request = commands::create_request(&input);
    assert_eq!(
        request.query,
        "mutation IssueCreate($input: IssueCreateInput!) { issueCreate(input: $input) \
         { success issue { id title url } } }"
    );
    let variables = request.variables.expect("create request always has variables");
    assert!(variables.contains("\"teamId\":\"team-123\""));
    assert!(variables.contains("\"title\":\"Test Issue\""));
}

#[test]
fn test_graphql_request_serialization() {
    let request = GraphQLRequest {
        query: "query { teams { nodes { id name } } }".to_string(),
        variables: None,
    };
    let json = json::render_request_body(&request);
    assert!(json.contains("query"));
    assert!(json.contains("teams"));
}

#[test]
fn test_graphql_request_with_variables() {
    let request = GraphQLRequest {
        query: "mutation IssueCreate($input: IssueCreateInput!) { issueCreate(input: $input) \
                { success } }"
            .to_string(),
        variables: Some(
            "{\"input\":{\"teamId\":\"team-123\",\"title\":\"Test Issue\"}}".to_string(),
        ),
    };
    let json = json::render_request_body(&request);
    assert!(json.contains("teamId"));
    assert!(json.contains("Test Issue"));
}

#[test]
fn api_key_present_is_returned_unchanged() {
    let result = api::get_api_key(Some("test-key-123".to_string()));
    assert_eq!(result.unwrap(), "test-key-123");
}

#[test]
fn api_key_missing_is_a_configuration_error_naming_the_variable() {
    let result = api::get_api_key(None);
    let message = result.unwrap_err();
    assert!(message.contains("LINEAR_API_KEY"));
    assert_eq!(message, "LINEAR_API_KEY environment variable not set");
}

#[test]
fn api_url_is_the_fixed_endpoint() {
    assert_eq!(api::api_url(), "https://api.linear.app/graphql");
    assert_eq!(api::api_key_variable(), "LINEAR_API_KEY");
}
