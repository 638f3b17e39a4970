use linearite::cli::Cli;
use linearite::cli::Commands;

fn args_of(parts: &[&str]) -> Vec<String> {
    parts.iter().map(|s| s.to_string()).collect()
}

#[test]
fn test_cli_parse_create_command() {
    let args = args_of(&["linearite", "create", "Test Issue", "--team-id", "team-123"]);
    let cli = Cli::try_parse_from(&args).unwrap();

    match cli.command {
        Commands::Create { title, description, team_id, project_id } => {
            assert_eq!(title, "Test Issue");
            assert_eq!(team_id, "team-123");
            assert!(description.is_none());
            assert!(project_id.is_none());
        }
        _ => panic!("Expected Create command"),
    }
}

#[test]
fn test_cli_parse_create_with_description() {
    let args = args_of(&[
        "linearite",
        "create",
        "Test Issue",
        "--team-id",
        "team-123",
        "--description",
        "This is a test description",
    ]);
    let cli = Cli::try_parse_from(&args).unwrap();

    match cli.command {
        Commands::Create { title, description, team_id, project_id } => {
            assert_eq!(title, "Test Issue");
            assert_eq!(team_id, "team-123");
            assert_eq!(description, Some("This is a test description".to_string()));
            assert!(project_id.is_none());
        }
        _ => panic!("Expected Create command"),
    }
}

#[test]
fn test_cli_parse_create_with_all_options() {
    let args = args_of(&[
        "linearite",
        "create",
        "Test Issue",
        "--team-id",
        "team-123",
        "--description",
        "Test description",
        "--project-id",
        "proj-456",
    ]);
    let cli = Cli::try_parse_from(&args).unwrap();

    match cli.command {
        Commands::Create { title, description, team_id, project_id } => {
            assert_eq!(title, "Test Issue");
            assert_eq!(team_id, "team-123");
            assert_eq!(description, Some("Test description".to_string()));
            assert_eq!(project_id, Some("proj-456".to_string()));
        }
        _ => panic!("Expected Create command"),
    }
}

#[test]
fn test_cli_parse_create_with_short_flags() {
    let args = args_of(&[
        "linearite",
        "create",
        "Test Issue",
        "-t",
        "team-123",
        "-d",
        "Test description",
        "-p",
        "proj-456",
    ]);
    let cli = Cli::try_parse_from(&args).unwrap();

    match cli.command {
        Commands::Create { title, description, team_id, project_id } => {
            assert_eq!(title, "Test Issue");
            assert_eq!(team_id, "team-123");
            assert_eq!(description, Some("Test description".to_string()));
            assert_eq!(project_id, Some("proj-456".to_string()));
        }
        _ => panic!("Expected Create command"),
    }
}

#[test]
fn test_cli_parse_create_missing_team_id() {
    let args = args_of(&["linearite", "create", "Test Issue"]);
    let result = Cli::try_parse_from(&args);
    assert!(result.is_err());
}

#[test]
fn test_cli_parse_list_teams() {
    let args = args_of(&["linearite", "list-teams"]);
    let cli = Cli::try_parse_from(&args).unwrap();
    match cli.command {
        Commands::ListTeams => {}
        _ => panic!("Expected ListTeams command"),
    }
}

#[test]
fn test_cli_parse_list_projects() {
    let args = args_of(&["linearite", "list-projects"]);
    let cli = Cli::try_parse_from(&args).unwrap();
    match cli.command {
        Commands::ListProjects => {}
        _ => panic!("Expected ListProjects command"),
    }
}

#[test]
fn cli_parse_no_arguments_is_an_error() {
    let args = args_of(&["linearite"]);
    assert!(Cli::try_parse_from(&args).is_err());
}

#[test]
fn cli_parse_unknown_subcommand_is_an_error() {
    let args = args_of(&["linearite", "archive"]);
    assert!(Cli::try_parse_from(&args).is_err());
}

#[test]
fn cli_parse_flag_without_value_is_an_error() {
    let args = args_of(&["linearite", "create", "Test Issue", "--team-id"]);
    assert!(Cli::try_parse_from(&args).is_err());
}

#[test]
fn cli_parse_duplicate_flag_is_an_error() {
    let args = args_of(&[
        "linearite",
        "create",
        "Test Issue",
        "-t",
        "team-123",
        "-t",
        "team-456",
    ]);
    assert!(Cli::try_parse_from(&args).is_err());
}

#[test]
fn cli_parse_second_positional_is_an_error() {
    let args = args_of(&["linearite", "create", "one", "two", "-t", "team-123"]);
    assert!(Cli::try_parse_from(&args).is_err());
}

#[test]
fn cli_parse_list_teams_rejects_extra_arguments() {
    let args = args_of(&["linearite", "list-teams", "extra"]);
    assert!(Cli::try_parse_from(&args).is_err());
}

#[test]
fn cli_parse_title_may_follow_the_flags() {
    let args = args_of(&["linearite", "create", "-t", "team-123", "Late title"]);
    let cli = Cli::try_parse_from(&args).unwrap();
    match cli.command {
        Commands::Create { title, team_id, .. } => {
            assert_eq!(title, "Late title");
            assert_eq!(team_id, "team-123");
        }
        _ => panic!("Expected Create command"),
    }
}
