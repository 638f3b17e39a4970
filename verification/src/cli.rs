//! The command-line grammar.
//!
//! Three subcommands are recognized: `create`, `list-teams` and
//! `list-projects`. `create` takes one positional title; a team id is
//! required and description and project id are optional, each given by a
//! short or a long flag followed by its value. The grammar is stated as a
//! spec function over the raw argument list, and the parser is proved to
//! compute exactly that function. A usage error never reaches the network:
//! it is decided from the argument list alone.

use vstd::prelude::*;

verus! {

/// A parsed invocation: the chosen command.
pub struct Cli {
    pub command: Commands,
}

/// The three operations the client offers.
pub enum Commands {
    /// Create a new issue: positional title, required team id, optional
    /// description and project id.
    Create {
        title: String,
        description: Option<String>,
        team_id: String,
        project_id: Option<String>,
    },
    /// List all teams (name + id).
    ListTeams,
    /// List all projects (name + id).
    ListProjects,
}

/// Why an invocation was rejected before anything else ran.
#[derive(Clone, Copy, Debug, PartialEq, Eq, Structural)]
pub enum ParseError {
    /// No subcommand was given.
    MissingSubcommand,
    /// The subcommand is none of the three known ones.
    UnknownSubcommand,
    /// A positional argument stood where none is accepted.
    UnexpectedArgument,
    /// A flag stood last, with no value after it.
    MissingFlagValue,
    /// The same flag was given twice.
    DuplicateFlag,
    /// `create` was invoked without a title.
    MissingTitle,
    /// `create` was invoked without a team id.
    MissingTeamId,
}

/// The mathematical image of a `create` invocation.
pub struct SpecCreateArgs {
    pub title: Seq<char>,
    pub description: Option<Seq<char>>,
    pub team_id: Seq<char>,
    pub project_id: Option<Seq<char>>,
}

/// The mathematical image of a command.
pub enum SpecCommands {
    Create(SpecCreateArgs),
    ListTeams,
    ListProjects,
}

/// The mathematical image of a parsed invocation.
pub struct SpecCli {
    pub command: SpecCommands,
}

impl View for Commands {
    type V = SpecCommands;

    open spec fn view(&self) -> SpecCommands {
        match self {
            Commands::Create { title, description, team_id, project_id } => SpecCommands::Create(
                SpecCreateArgs {
                    title: title@,
                    description: description.deep_view(),
                    team_id: team_id@,
                    project_id: project_id.deep_view(),
                },
            ),
            Commands::ListTeams => SpecCommands::ListTeams,
            Commands::ListProjects => SpecCommands::ListProjects,
        }
    }
}

impl View for Cli {
    type V = SpecCli;

    open spec fn view(&self) -> SpecCli {
        SpecCli { command: self.command@ }
    }
}

/// The short or long form of the description flag.
pub open spec fn is_description_flag(t: Seq<char>) -> bool {
    t == "-d"@ || t == "--description"@
}

/// The short or long form of the team-id flag.
pub open spec fn is_team_flag(t: Seq<char>) -> bool {
    t == "-t"@ || t == "--team-id"@
}

/// The short or long form of the project-id flag.
pub open spec fn is_project_flag(t: Seq<char>) -> bool {
    t == "-p"@ || t == "--project-id"@
}

/// What has been gathered so far while reading `create` arguments.
pub struct SpecCreateAcc {
    pub title: Option<Seq<char>>,
    pub description: Option<Seq<char>>,
    pub team_id: Option<Seq<char>>,
    pub project_id: Option<Seq<char>>,
}

/// The state before any `create` argument has been read.
pub open spec fn empty_acc() -> SpecCreateAcc {
    SpecCreateAcc { title: None, description: None, team_id: None, project_id: None }
}

/// Reads the arguments after `create` left to right: a known flag takes the
/// next token as its value and may be given once; any other token is the
/// positional title. At the end the title and the team id must both be
/// there.
pub open spec fn spec_parse_create(args: Seq<Seq<char>>, acc: SpecCreateAcc) -> Result<
    SpecCommands,
    ParseError,
>
    decreases args.len(),
{
    if args.len() == 0 {
        match acc.title {
            None => Err(ParseError::MissingTitle),
            Some(title) => match acc.team_id {
                None => Err(ParseError::MissingTeamId),
                Some(team_id) => Ok(
                    SpecCommands::Create(
                        SpecCreateArgs {
                            title,
                            description: acc.description,
                            team_id,
                            project_id: acc.project_id,
                        },
                    ),
                ),
            },
        }
    } else if is_description_flag(args[0]) {
        if args.len() < 2 {
            Err(ParseError::MissingFlagValue)
        } else if acc.description is Some {
            Err(ParseError::DuplicateFlag)
        } else {
            spec_parse_create(
                args.skip(2),
                SpecCreateAcc {
                    title: acc.title,
                    description: Some(args[1]),
                    team_id: acc.team_id,
                    project_id: acc.project_id,
                },
            )
        }
    } else if is_team_flag(args[0]) {
        if args.len() < 2 {
            Err(ParseError::MissingFlagValue)
        } else if acc.team_id is Some {
            Err(ParseError::DuplicateFlag)
        } else {
            spec_parse_create(
                args.skip(2),
                SpecCreateAcc {
                    title: acc.title,
                    description: acc.description,
                    team_id: Some(args[1]),
                    project_id: acc.project_id,
                },
            )
        }
    } else if is_project_flag(args[0]) {
        if args.len() < 2 {
            Err(ParseError::MissingFlagValue)
        } else if acc.project_id is Some {
            Err(ParseError::DuplicateFlag)
        } else {
            spec_parse_create(
                args.skip(2),
                SpecCreateAcc {
                    title: acc.title,
                    description: acc.description,
                    team_id: acc.team_id,
                    project_id: Some(args[1]),
                },
            )
        }
    } else {
        if acc.title is Some {
            Err(ParseError::UnexpectedArgument)
        } else {
            spec_parse_create(
                args.skip(1),
                SpecCreateAcc {
                    title: Some(args[0]),
                    description: acc.description,
                    team_id: acc.team_id,
                    project_id: acc.project_id,
                },
            )
        }
    }
}

/// What an argument list means: the first token is the program name, the
/// second the subcommand, and the rest belongs to the subcommand. The two
/// list commands take no further arguments.
pub open spec fn spec_parse(args: Seq<Seq<char>>) -> Result<SpecCli, ParseError> {
    if args.len() < 2 {
        Err(ParseError::MissingSubcommand)
    } else if args[1] == "create"@ {
        match spec_parse_create(args.skip(2), empty_acc()) {
            Ok(command) => Ok(SpecCli { command }),
            Err(e) => Err(e),
        }
    } else if args[1] == "list-teams"@ {
        if args.len() == 2 {
            Ok(SpecCli { command: SpecCommands::ListTeams })
        } else {
            Err(ParseError::UnexpectedArgument)
        }
    } else if args[1] == "list-projects"@ {
        if args.len() == 2 {
            Ok(SpecCli { command: SpecCommands::ListProjects })
        } else {
            Err(ParseError::UnexpectedArgument)
        }
    } else {
        Err(ParseError::UnknownSubcommand)
    }
}

/// Whether some token of the list is the team flag, in either form.
pub open spec fn mentions_team_flag(args: Seq<Seq<char>>) -> bool {
    exists|i: int| 0 <= i < args.len() && is_team_flag(args[i])
}

/// A `create` argument list that parses without a team id already in hand
/// holds a team flag somewhere.
proof fn lemma_parse_create_needs_team_flag(args: Seq<Seq<char>>, acc: SpecCreateAcc)
    requires
        spec_parse_create(args, acc) is Ok,
        acc.team_id is None,
    ensures
        mentions_team_flag(args),
    decreases args.len(),
{
    if args.len() == 0 {
        assert(false);
    } else if is_team_flag(args[0]) {
        assert(0 <= 0 < args.len() && is_team_flag(args[0]));
    } else if is_description_flag(args[0]) {
        lemma_parse_create_needs_team_flag(
            args.skip(2),
            SpecCreateAcc {
                title: acc.title,
                description: Some(args[1]),
                team_id: acc.team_id,
                project_id: acc.project_id,
            },
        );
        let i: int = choose|i: int| 0 <= i < args.skip(2).len() && is_team_flag(args.skip(2)[i]);
        assert(args.skip(2)[i] == args[i + 2]);
        assert(is_team_flag(args[i + 2]));
    } else if is_project_flag(args[0]) {
        lemma_parse_create_needs_team_flag(
            args.skip(2),
            SpecCreateAcc {
                title: acc.title,
                description: acc.description,
                team_id: acc.team_id,
                project_id: Some(args[1]),
            },
        );
        let i: int = choose|i: int| 0 <= i < args.skip(2).len() && is_team_flag(args.skip(2)[i]);
        assert(args.skip(2)[i] == args[i + 2]);
        assert(is_team_flag(args[i + 2]));
    } else {
        lemma_parse_create_needs_team_flag(
            args.skip(1),
            SpecCreateAcc {
                title: Some(args[0]),
                description: acc.description,
                team_id: acc.team_id,
                project_id: acc.project_id,
            },
        );
        let i: int = choose|i: int| 0 <= i < args.skip(1).len() && is_team_flag(args.skip(1)[i]);
        assert(args.skip(1)[i] == args[i + 1]);
        assert(is_team_flag(args[i + 1]));
    }
}

/// A `create` invocation that parses successfully names the team flag, in
/// its short or long form, somewhere on the line.
pub proof fn lemma_create_needs_team_flag(args: Seq<Seq<char>>)
    requires
        args.len() >= 2,
        args[1] == "create"@,
        spec_parse(args) is Ok,
    ensures
        mentions_team_flag(args),
{
    lemma_parse_create_needs_team_flag(args.skip(2), empty_acc());
    let i: int = choose|i: int| 0 <= i < args.skip(2).len() && is_team_flag(args.skip(2)[i]);
    assert(args.skip(2)[i] == args[i + 2]);
    assert(is_team_flag(args[i + 2]));
}

/// A `create` invocation without the team flag fails argument parsing, so
/// it is rejected before anything could reach the network.
pub proof fn lemma_create_without_team_flag_fails(args: Seq<Seq<char>>)
    requires
        args.len() >= 2,
        args[1] == "create"@,
        !mentions_team_flag(args),
    ensures
        spec_parse(args) is Err,
{
    if spec_parse(args) is Ok {
        lemma_create_needs_team_flag(args);
        assert(false);
    }
}

/// Whether a token equals the given literal.
fn is_tok(a: &String, b: &str) -> (r: bool)
    ensures
        r == (a@ == b@),
{
    let bs: String = b.to_owned();
    *a == bs
}

/// Parses the arguments after `create`, from index two on.
fn parse_create(args: &Vec<String>) -> (r: Result<Commands, ParseError>)
    requires
        args@.len() >= 2,
    ensures
        (match r {
            Ok(c) => spec_parse_create(args.deep_view().skip(2), empty_acc()) == Ok::<
                SpecCommands,
                ParseError,
            >(c@),
            Err(e) => spec_parse_create(args.deep_view().skip(2), empty_acc()) == Err::<
                SpecCommands,
                ParseError,
            >(e),
        }),
{
    let ghost sargs = args.deep_view();
    let mut title: Option<String> = None;
    let mut description: Option<String> = None;
    let mut team_id: Option<String> = None;
    let mut project_id: Option<String> = None;
    let mut i: usize = 2;
    while i < args.len()
        invariant
            2 <= i <= args@.len(),
            sargs == args.deep_view(),
            sargs.len() == args@.len(),
            spec_parse_create(sargs.skip(2), empty_acc()) == spec_parse_create(
                sargs.skip(i as int),
                SpecCreateAcc {
                    title: title.deep_view(),
                    description: description.deep_view(),
                    team_id: team_id.deep_view(),
                    project_id: project_id.deep_view(),
                },
            ),
        decreases args@.len() - i,
    {
        proof {
            assert(sargs.skip(i as int)[0] == sargs[i as int]);
            assert(sargs[i as int] == args@[i as int]@);
        }
        let tok = &args[i];
        if is_tok(tok, "-d") || is_tok(tok, "--description") {
            if i + 1 >= args.len() {
                return Err(ParseError::MissingFlagValue);
            }
            if description.is_some() {
                return Err(ParseError::DuplicateFlag);
            }
            proof {
                assert(sargs.skip(i as int)[1] == sargs[i + 1]);
                assert(sargs.skip(i as int).skip(2) =~= sargs.skip(i + 2));
            }
            description = Some(args[i + 1].clone());
            i = i + 2;
        } else if is_tok(tok, "-t") || is_tok(tok, "--team-id") {
            if i + 1 >= args.len() {
                return Err(ParseError::MissingFlagValue);
            }
            if team_id.is_some() {
                return Err(ParseError::DuplicateFlag);
            }
            proof {
                assert(sargs.skip(i as int)[1] == sargs[i + 1]);
                assert(sargs.skip(i as int).skip(2) =~= sargs.skip(i + 2));
            }
            team_id = Some(args[i + 1].clone());
            i = i + 2;
        } else if is_tok(tok, "-p") || is_tok(tok, "--project-id") {
            if i + 1 >= args.len() {
                return Err(ParseError::MissingFlagValue);
            }
            if project_id.is_some() {
                return Err(ParseError::DuplicateFlag);
            }
            proof {
                assert(sargs.skip(i as int)[1] == sargs[i + 1]);
                assert(sargs.skip(i as int).skip(2) =~= sargs.skip(i + 2));
            }
            project_id = Some(args[i + 1].clone());
            i = i + 2;
        } else {
            if title.is_some() {
                return Err(ParseError::UnexpectedArgument);
            }
            proof {
                assert(sargs.skip(i as int).skip(1) =~= sargs.skip(i + 1));
            }
            title = Some(tok.clone());
            i = i + 1;
        }
    }
    proof {
        assert(sargs.skip(i as int) =~= Seq::<Seq<char>>::empty());
    }
    let title = match title {
        Some(t) => t,
        None => {
            return Err(ParseError::MissingTitle);
        },
    };
    let team_id = match team_id {
        Some(t) => t,
        None => {
            return Err(ParseError::MissingTeamId);
        },
    };
    Ok(Commands::Create { title, description, team_id, project_id })
}

impl Cli {
    /// Parses a full argument list, program name first, into an invocation;
    /// the result is exactly what the grammar says of the list.
    pub fn try_parse_from(args: &Vec<String>) -> (r: Result<Cli, ParseError>)
        ensures
            (match r {
                Ok(c) => spec_parse(args.deep_view()) == Ok::<SpecCli, ParseError>(c@),
                Err(e) => spec_parse(args.deep_view()) == Err::<SpecCli, ParseError>(e),
            }),
    {
        let ghost sargs = args.deep_view();
        if args.len() < 2 {
            return Err(ParseError::MissingSubcommand);
        }
        proof {
            assert(sargs[1] == args@[1]@);
        }
        let sub = &args[1];
        if is_tok(sub, "create") {
            match parse_create(args) {
                Ok(command) => Ok(Cli { command }),
                Err(e) => Err(e),
            }
        } else if is_tok(sub, "list-teams") {
            if args.len() == 2 {
                Ok(Cli { command: Commands::ListTeams })
            } else {
                Err(ParseError::UnexpectedArgument)
            }
        } else if is_tok(sub, "list-projects") {
            if args.len() == 2 {
                Ok(Cli { command: Commands::ListProjects })
            } else {
                Err(ParseError::UnexpectedArgument)
            }
        } else {
            Err(ParseError::UnknownSubcommand)
        }
    }
}

} // verus!
