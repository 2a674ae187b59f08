//! Command dispatch: classifying a submitted line, planning the process
//! invocation for it, and wording the outcome of the run.
//!
//! The library itself spawns nothing. `plan` either rejects the line
//! outright or names the program and arguments to run; the caller runs
//! them and hands exit status and captured output to `conclude`.

use vstd::prelude::*;
use vstd::string::*;
use crate::convert::{decode_lossy, lossy_decode_of};
use crate::tokens::tokens_of;

verus! {

/// The operating-system family, read once per dispatch; it selects the
/// concrete invocation for each command.
#[derive(Clone, Copy, PartialEq, Eq, Structural, Debug)]
pub enum Platform {
    Windows,
    Other,
}

/// How a submitted line is handled: one of the built-in directory
/// operations, or verbatim delegation of the whole line to the platform
/// shell.
#[derive(Clone, Copy, PartialEq, Eq, Structural, Debug)]
pub enum CommandKind {
    Mkdir,
    Rm,
    Ls,
    Fallback,
}

/// The result of one dispatched command: human-readable output on
/// success, a description of what went wrong otherwise.
#[derive(Debug)]
pub enum Outcome {
    Success(String),
    Failure(String),
}

/// A planned process invocation: run `program` with `args`, then hand
/// the result to `conclude`. `target` is what the outcome wording needs:
/// the directory name for `Mkdir` and `Rm`, the whole original line for
/// `Fallback`, and empty for `Ls`.
#[derive(Debug)]
pub struct RunRequest {
    pub kind: CommandKind,
    pub target: String,
    pub program: String,
    pub args: Vec<String>,
}

/// What `plan` decides for a line: reject it with a failure reason and
/// spawn nothing, or run a process.
#[derive(Debug)]
pub enum Plan {
    Reject(String),
    Run(RunRequest),
}

/// The classification of a line by its first token, exact and
/// case-sensitive.
pub open spec fn kind_of(line: Seq<char>) -> CommandKind {
    let ts = tokens_of(line);
    if ts.len() == 0 {
        CommandKind::Fallback
    } else if ts[0] == "mkdir"@ {
        CommandKind::Mkdir
    } else if ts[0] == "rm"@ {
        CommandKind::Rm
    } else if ts[0] == "ls"@ {
        CommandKind::Ls
    } else {
        CommandKind::Fallback
    }
}

/// The program each command runs, per platform.
pub open spec fn program_of(kind: CommandKind, platform: Platform) -> Seq<char> {
    match platform {
        Platform::Windows => "cmd"@,
        Platform::Other => match kind {
            CommandKind::Mkdir => "mkdir"@,
            CommandKind::Rm => "rm"@,
            CommandKind::Ls => "ls"@,
            CommandKind::Fallback => "sh"@,
        },
    }
}

/// The argument list each command runs with, per platform. `target` is
/// the directory name for `Mkdir` and `Rm` and the whole line for
/// `Fallback`; `Ls` takes none.
pub open spec fn args_of(kind: CommandKind, platform: Platform, target: Seq<char>) -> Seq<
    Seq<char>,
> {
    match platform {
        Platform::Windows => match kind {
            CommandKind::Mkdir => seq!["/C"@, "mkdir "@ + target],
            CommandKind::Rm => seq!["/C"@, "rmdir /S /Q "@ + target],
            CommandKind::Ls => seq!["/C"@, "dir"@],
            CommandKind::Fallback => seq!["/C"@, target],
        },
        Platform::Other => match kind {
            CommandKind::Mkdir => seq![target],
            CommandKind::Rm => seq!["-r"@, target],
            CommandKind::Ls => Seq::<Seq<char>>::empty(),
            CommandKind::Fallback => seq!["-c"@, target],
        },
    }
}

pub open spec fn msg_missing_name() -> Seq<char> {
    "missing directory name"@
}

pub open spec fn msg_created(name: Seq<char>) -> Seq<char> {
    "Directory '"@ + name + "' created"@
}

pub open spec fn msg_removed(name: Seq<char>) -> Seq<char> {
    "Directory '"@ + name + "' removed"@
}

pub open spec fn msg_create_failed(name: Seq<char>) -> Seq<char> {
    "failed to create directory '"@ + name + "'"@
}

pub open spec fn msg_remove_failed(name: Seq<char>) -> Seq<char> {
    "failed to remove directory '"@ + name + "'"@
}

pub open spec fn msg_ls_failed() -> Seq<char> {
    "failed to list directory"@
}

pub open spec fn msg_fallback_failed(line: Seq<char>) -> Seq<char> {
    "command failed: "@ + line
}

/// The view of an argument vector.
pub open spec fn args_view(args: Seq<String>) -> Seq<Seq<char>> {
    args.map_values(|a: String| a@)
}

proof fn lemma_args_view_zero(args: Seq<String>)
    requires
        args.len() == 0,
    ensures
        args_view(args) == Seq::<Seq<char>>::empty(),
{
    assert(args_view(args) =~= Seq::<Seq<char>>::empty());
}

proof fn lemma_args_view_one(args: Seq<String>, m0: Seq<char>)
    requires
        args.len() == 1,
        args[0]@ == m0,
    ensures
        args_view(args) == seq![m0],
{
    assert(args_view(args) =~~= seq![args[0]@]);
}

proof fn lemma_args_view_two(args: Seq<String>, m0: Seq<char>, m1: Seq<char>)
    requires
        args.len() == 2,
        args[0]@ == m0,
        args[1]@ == m1,
    ensures
        args_view(args) == seq![m0, m1],
{
    assert(args_view(args) =~~= seq![args[0]@, args[1]@]);
}

/// Decides how to handle the submitted line `line`: reject it (a missing
/// required argument; nothing is spawned), or run a concrete process.
/// A blank line never reaches this function; the input loop filters it.
///
/// `mkdir` and `rm` take the next token only as the directory name, and
/// silently ignore any further tokens; `ls` ignores all arguments; any
/// other first token delegates the entire original line to the shell.
pub fn plan(line: &str, platform: Platform) -> (p: Plan)
    requires
        tokens_of(line@).len() > 0,
    ensures
        (kind_of(line@) == CommandKind::Mkdir || kind_of(line@) == CommandKind::Rm)
            && tokens_of(line@).len() < 2 ==> (p matches Plan::Reject(m) && m@
            == msg_missing_name()),
        (kind_of(line@) == CommandKind::Mkdir || kind_of(line@) == CommandKind::Rm)
            && tokens_of(line@).len() >= 2 ==> (p matches Plan::Run(r) && r.kind == kind_of(line@)
            && r.target@ == tokens_of(line@)[1] && r.program@ == program_of(kind_of(line@), platform)
            && args_view(r.args@) == args_of(kind_of(line@), platform, tokens_of(line@)[1])),
        kind_of(line@) == CommandKind::Ls ==> (p matches Plan::Run(r) && r.kind == CommandKind::Ls
            && r.target@ == Seq::<char>::empty() && r.program@ == program_of(
            CommandKind::Ls,
            platform,
        ) && args_view(r.args@) == args_of(CommandKind::Ls, platform, Seq::<char>::empty())),
        kind_of(line@) == CommandKind::Fallback ==> (p matches Plan::Run(r) && r.kind
            == CommandKind::Fallback && r.target@ == line@ && r.program@ == program_of(
            CommandKind::Fallback,
            platform,
        ) && args_view(r.args@) == args_of(CommandKind::Fallback, platform, line@)),
{
    let tokens = crate::tokens::tokenize(line);
    proof {
        assert(tokens@.map_values(|t: String| t@).len() == tokens@.len());
        assert(tokens@.map_values(|t: String| t@)[0] == tokens@[0]@);
    }
    let first = &tokens[0];
    let is_mkdir = *first == String::from_str("mkdir");
    let is_rm = *first == String::from_str("rm");
    let is_ls = *first == String::from_str("ls");
    if is_mkdir || is_rm {
        let kind = if is_mkdir {
            CommandKind::Mkdir
        } else {
            CommandKind::Rm
        };
        if tokens.len() < 2 {
            Plan::Reject(String::from_str("missing directory name"))
        } else {
            proof {
                assert(tokens@.map_values(|t: String| t@)[1] == tokens@[1]@);
            }
            let name = tokens[1].clone();
            let mut args: Vec<String> = Vec::new();
            let req = match platform {
                Platform::Windows => {
                    args.push(String::from_str("/C"));
                    if is_mkdir {
                        args.push(String::from_str("mkdir ").concat(name.as_str()));
                    } else {
                        args.push(String::from_str("rmdir /S /Q ").concat(name.as_str()));
                    }
                    let req = RunRequest {
                        kind,
                        target: name,
                        program: String::from_str("cmd"),
                        args,
                    };
                    proof {
                        if is_mkdir {
                            lemma_args_view_two(req.args@, "/C"@, "mkdir "@ + name@);
                        } else {
                            lemma_args_view_two(req.args@, "/C"@, "rmdir /S /Q "@ + name@);
                        }
                        assert(args_view(req.args@) == args_of(kind, platform, req.target@));
                    }
                    req
                },
                Platform::Other => {
                    if !is_mkdir {
                        args.push(String::from_str("-r"));
                    }
                    args.push(name.clone());
                    let program = if is_mkdir {
                        String::from_str("mkdir")
                    } else {
                        String::from_str("rm")
                    };
                    let req = RunRequest { kind, target: name, program, args };
                    proof {
                        if is_mkdir {
                            lemma_args_view_one(req.args@, name@);
                        } else {
                            lemma_args_view_two(req.args@, "-r"@, name@);
                        }
                        assert(args_view(req.args@) == args_of(kind, platform, req.target@));
                    }
                    req
                },
            };
            Plan::Run(req)
        }
    } else if is_ls {
        let mut args: Vec<String> = Vec::new();
        let req = match platform {
            Platform::Windows => {
                args.push(String::from_str("/C"));
                args.push(String::from_str("dir"));
                RunRequest {
                    kind: CommandKind::Ls,
                    target: String::new(),
                    program: String::from_str("cmd"),
                    args,
                }
            },
            Platform::Other => RunRequest {
                kind: CommandKind::Ls,
                target: String::new(),
                program: String::from_str("ls"),
                args,
            },
        };
        proof {
            match platform {
                Platform::Windows => lemma_args_view_two(req.args@, "/C"@, "dir"@),
                Platform::Other => lemma_args_view_zero(req.args@),
            }
        }
        Plan::Run(req)
    } else {
        let mut args: Vec<String> = Vec::new();
        let req = match platform {
            Platform::Windows => {
                args.push(String::from_str("/C"));
                args.push(String::from_str(line));
                RunRequest {
                    kind: CommandKind::Fallback,
                    target: String::from_str(line),
                    program: String::from_str("cmd"),
                    args,
                }
            },
            Platform::Other => {
                args.push(String::from_str("-c"));
                args.push(String::from_str(line));
                RunRequest {
                    kind: CommandKind::Fallback,
                    target: String::from_str(line),
                    program: String::from_str("sh"),
                    args,
                }
            },
        };
        proof {
            match platform {
                Platform::Windows => lemma_args_view_two(req.args@, "/C"@, line@),
                Platform::Other => lemma_args_view_two(req.args@, "-c"@, line@),
            }
        }
        Plan::Run(req)
    }
}

/// Words the outcome of a finished run. `exit_success` is the child
/// process's exit status; `stdout` is its captured standard output, which
/// is decoded lossily (malformed bytes never make this fail).
pub fn conclude(req: &RunRequest, exit_success: bool, stdout: &[u8]) -> (o: Outcome)
    ensures
        req.kind == CommandKind::Mkdir && exit_success ==> (o matches Outcome::Success(t) && t@
            == msg_created(req.target@)),
        req.kind == CommandKind::Mkdir && !exit_success ==> (o matches Outcome::Failure(t) && t@
            == msg_create_failed(req.target@)),
        req.kind == CommandKind::Rm && exit_success ==> (o matches Outcome::Success(t) && t@
            == msg_removed(req.target@)),
        req.kind == CommandKind::Rm && !exit_success ==> (o matches Outcome::Failure(t) && t@
            == msg_remove_failed(req.target@)),
        req.kind == CommandKind::Ls && exit_success ==> (o matches Outcome::Success(t) && t@
            == lossy_decode_of(stdout@)),
        req.kind == CommandKind::Ls && !exit_success ==> (o matches Outcome::Failure(t) && t@
            == msg_ls_failed()),
        req.kind == CommandKind::Fallback && exit_success ==> (o matches Outcome::Success(t) && t@
            == lossy_decode_of(stdout@)),
        req.kind == CommandKind::Fallback && !exit_success ==> (o matches Outcome::Failure(t) && t@
            == msg_fallback_failed(req.target@)),
{
    match req.kind {
        CommandKind::Mkdir => {
            if exit_success {
                Outcome::Success(
                    String::from_str("Directory '").concat(req.target.as_str()).concat(
                        "' created",
                    ),
                )
            } else {
                Outcome::Failure(
                    String::from_str("failed to create directory '").concat(
                        req.target.as_str(),
                    ).concat("'"),
                )
            }
        },
        CommandKind::Rm => {
            if exit_success {
                Outcome::Success(
                    String::from_str("Directory '").concat(req.target.as_str()).concat(
                        "' removed",
                    ),
                )
            } else {
                Outcome::Failure(
                    String::from_str("failed to remove directory '").concat(
                        req.target.as_str(),
                    ).concat("'"),
                )
            }
        },
        CommandKind::Ls => {
            if exit_success {
                Outcome::Success(decode_lossy(stdout))
            } else {
                Outcome::Failure(String::from_str("failed to list directory"))
            }
        },
        CommandKind::Fallback => {
            if exit_success {
                Outcome::Success(decode_lossy(stdout))
            } else {
                Outcome::Failure(
                    String::from_str("command failed: ").concat(req.target.as_str()),
                )
            }
        },
    }
}

} // verus!
