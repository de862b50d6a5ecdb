//! Construction of the execution plan: the fully resolved description of the
//! subprocess to run — program, arguments, environment bindings and standard
//! input wiring — produced once per invocation and consumed once.

use vstd::prelude::*;
use vstd::string::StringExecFns;

use crate::errors::ErrorKind;

verus! {

/// Where the child's standard input comes from: the opened target file by
/// default, or the tool's own inherited standard input when the caller asked
/// to rewrite from a pipeline.  The child's standard output always goes to
/// the scratch file's duplicated handle and its standard error is inherited,
/// so neither needs a choice here.
#[derive(Clone, Copy, Debug, PartialEq, Eq)]
pub enum StdinSource {
    TargetFile,
    Inherited,
}

/// The immutable description of what to run.
#[derive(Debug, PartialEq, Eq)]
pub struct ExecutionPlan {
    pub program: String,
    pub args: Vec<String>,
    pub env: Vec<(String, String)>,
    pub stdin: StdinSource,
}

/// The tokens of a sequence joined into one string with a single space
/// between neighbours.
pub open spec fn spec_join_spaces(parts: Seq<Seq<char>>) -> Seq<char>
    decreases parts.len(),
{
    if parts.len() == 0 {
        Seq::empty()
    } else if parts.len() == 1 {
        parts[0]
    } else {
        spec_join_spaces(parts.drop_last()) + " "@ + parts.last()
    }
}

proof fn lemma_join_spaces_push(parts: Seq<Seq<char>>, part: Seq<char>)
    ensures
        spec_join_spaces(parts.push(part)) == if parts.len() == 0 {
            part
        } else {
            spec_join_spaces(parts) + " "@ + part
        },
{
    assert(parts.push(part).drop_last() =~= parts);
    assert(parts.push(part).last() == part);
}

/// Concatenate the given strings with single spaces between them: the
/// flattening that shell mode applies to the command tokens before handing
/// them to the shell.
pub fn join_with_spaces(parts: &Vec<String>) -> (joined: String)
    ensures
        joined@ == spec_join_spaces(parts.deep_view()),
{
    let mut joined = String::new();
    let mut i: usize = 0;
    while i < parts.len()
        invariant
            i <= parts.len(),
            joined@ == spec_join_spaces(parts.deep_view().take(i as int)),
        decreases parts.len() - i,
    {
        if i > 0 {
            joined.append(" ");
        }
        joined.append(parts[i].as_str());
        proof {
            let views = parts.deep_view();
            assert(views.take(i as int).push(views[i as int]) =~= views.take(i + 1 as int));
            lemma_join_spaces_push(views.take(i as int), views[i as int]);
        }
        i = i + 1;
    }
    proof {
        assert(parts.deep_view().take(parts.len() as int) =~= parts.deep_view());
    }
    joined
}

/// The command tokens the runner will spawn, resolved from the caller's
/// flags: a `sudo --user <user> --` prefix when privileges are to be
/// dropped, then either the command itself or, in shell mode, a `sh -c`
/// indirection around the space-joined command.
///
/// Only meaningful with `sudo_user` present when `drop_root` is set; the
/// builder refuses that combination before this function is consulted.
pub open spec fn spec_command_tokens(
    drop_root: bool,
    sudo_user: Option<Seq<char>>,
    shell_mode: bool,
    command: Seq<Seq<char>>,
) -> Seq<Seq<char>> {
    let privilege_prefix: Seq<Seq<char>> = if drop_root {
        match sudo_user {
            Some(user) => seq!["sudo"@, "--user"@, user, "--"@],
            None => Seq::empty(),
        }
    } else {
        Seq::empty()
    };
    let command_part: Seq<Seq<char>> = if shell_mode {
        seq!["sh"@, "-c"@, spec_join_spaces(command)]
    } else {
        command
    };
    privilege_prefix + command_part
}

/// Resolve the full token sequence to spawn.  Fails exactly when a
/// privilege drop is requested but the invoking user is unknown (the
/// `SUDO_USER` environment variable was absent or unreadable); that is the
/// only error this construction can produce.
pub fn build_command_tokens(
    drop_root: bool,
    sudo_user: Option<String>,
    shell_mode: bool,
    command: Vec<String>,
) -> (tokens: Result<Vec<String>, ErrorKind>)
    requires
        command@.len() >= 1,
    ensures
        tokens is Err <==> drop_root && sudo_user is None,
        tokens matches Err(kind) ==> kind == ErrorKind::NoSudoUser,
        tokens matches Ok(resolved) ==> resolved.deep_view() == spec_command_tokens(
            drop_root,
            sudo_user.deep_view(),
            shell_mode,
            command.deep_view(),
        ),
{
    let ghost user_views = sudo_user.deep_view();
    let ghost command_views = command.deep_view();
    let mut tokens: Vec<String> = Vec::new();
    if drop_root {
        match sudo_user {
            None => {
                return Err(ErrorKind::NoSudoUser);
            },
            Some(user) => {
                tokens.push(String::from_str("sudo"));
                tokens.push(String::from_str("--user"));
                tokens.push(user);
                tokens.push(String::from_str("--"));
            },
        }
    }
    if shell_mode {
        let joined = join_with_spaces(&command);
        tokens.push(String::from_str("sh"));
        tokens.push(String::from_str("-c"));
        tokens.push(joined);
    } else {
        let mut tail = command;
        tokens.append(&mut tail);
    }
    proof {
        assert(tokens.deep_view() =~= spec_command_tokens(
            drop_root,
            user_views,
            shell_mode,
            command_views,
        ));
    }
    Ok(tokens)
}

/// The environment bindings injected into the child when injection is
/// enabled: the scratch file's path, the intended output path, and the input
/// source — the target's path, or the sentinel `-` when the child reads the
/// tool's standard input.  With injection disabled there are none.
pub open spec fn spec_env_bindings(
    no_env: bool,
    read_stdin: bool,
    scratch_path: Seq<char>,
    target_path: Seq<char>,
) -> Seq<(Seq<char>, Seq<char>)> {
    if no_env {
        Seq::empty()
    } else {
        seq![
            ("REWRITE_TEMPFILE"@, scratch_path),
            ("REWRITE_OUTPUT"@, target_path),
            ("REWRITE_INPUT"@, if read_stdin { "-"@ } else { target_path }),
        ]
    }
}

/// Resolve the environment bindings to add to the child.
pub fn build_env_bindings(
    no_env: bool,
    read_stdin: bool,
    scratch_path: &String,
    target_path: &String,
) -> (bindings: Vec<(String, String)>)
    ensures
        bindings.deep_view() == spec_env_bindings(no_env, read_stdin, scratch_path@, target_path@),
{
    let mut bindings: Vec<(String, String)> = Vec::new();
    if !no_env {
        bindings.push((String::from_str("REWRITE_TEMPFILE"), scratch_path.clone()));
        bindings.push((String::from_str("REWRITE_OUTPUT"), target_path.clone()));
        let input = if read_stdin {
            String::from_str("-")
        } else {
            target_path.clone()
        };
        bindings.push((String::from_str("REWRITE_INPUT"), input));
    }
    proof {
        assert(bindings.deep_view() =~= spec_env_bindings(
            no_env,
            read_stdin,
            scratch_path@,
            target_path@,
        ));
    }
    bindings
}

/// Assemble the plan: the first token is the program, the rest are its
/// arguments, and the standard input wiring follows the caller's choice.
pub fn make_plan(tokens: Vec<String>, env: Vec<(String, String)>, read_stdin: bool) -> (plan:
    ExecutionPlan)
    requires
        tokens@.len() >= 1,
    ensures
        plan.program@ == tokens.deep_view()[0],
        plan.args.deep_view() == tokens.deep_view().subrange(1, tokens.deep_view().len() as int),
        plan.env == env,
        plan.stdin == (if read_stdin {
            StdinSource::Inherited
        } else {
            StdinSource::TargetFile
        }),
{
    let ghost token_views = tokens.deep_view();
    let mut rest = tokens;
    let program = rest.remove(0);
    proof {
        assert(rest.deep_view() =~= token_views.subrange(1, token_views.len() as int));
    }
    ExecutionPlan {
        program,
        args: rest,
        env,
        stdin: if read_stdin {
            StdinSource::Inherited
        } else {
            StdinSource::TargetFile
        },
    }
}

/// The fixed, recognizable prefix of every scratch file's name, so an
/// operator can identify orphaned scratch files left by a crash.
pub fn scratch_prefix() -> (prefix: String)
    ensures
        prefix@ == ".rewrite-tmp-"@,
{
    String::from_str(".rewrite-tmp-")
}

/// The scratch file's name suffix: a dash followed by the target's
/// filename, so an operator can associate a scratch file with its source.
pub fn scratch_suffix(target_filename: &str) -> (suffix: String)
    ensures
        suffix@ == "-"@ + target_filename@,
{
    let mut suffix = String::from_str("-");
    suffix.append(target_filename);
    suffix
}

} // verus!
