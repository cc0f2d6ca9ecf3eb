//! Working with the pre-commit framework: whether it can be used, and the
//! command that runs it.

use vstd::prelude::*;
use crate::engine::error::Error;
use crate::engine::executor::{ExecuteOptions, ExecuteOptionsView, Executor};
use crate::engine::paths::{joined_path, path_exists, path_join};
use crate::search::first_where;
use crate::text::concat;

verus! {

/// The name of the configuration file of the framework.
pub const PRE_COMMIT_CONFIG: &'static str = ".pre-commit-config.yaml";

/// Whether the framework is installed.
pub fn is_installed() -> bool {
    Executor::command_exists("pre-commit")
}

/// Whether the repository at `repo_root` configures the framework.
pub fn config_exists(repo_root: &str) -> bool {
    let path = path_join(repo_root, PRE_COMMIT_CONFIG);
    path_exists(path.as_str())
}

/// Whether an argument looks like a flag: it begins with a hyphen.
pub open spec fn is_flag(arg: Seq<char>) -> bool {
    arg.len() > 0 && arg[0] == '-'
}

/// The arguments that do not look like flags.
pub open spec fn not_a_flag() -> spec_fn(Seq<char>) -> bool {
    |arg: Seq<char>| !is_flag(arg)
}

/// The command that runs the framework with `args`.
pub open spec fn spec_command(args: Seq<Seq<char>>) -> Seq<char>
    decreases args.len(),
{
    if args.len() == 0 {
        "pre-commit run"@
    } else {
        spec_command(args.drop_last()) + " "@ + args.last()
    }
}

/// How the framework is run: in the repository root, with its output going to
/// the caller's own streams.
pub open spec fn spec_run_options(repo_root: Seq<char>) -> ExecuteOptionsView {
    ExecuteOptionsView {
        cwd: Some(repo_root),
        capture_output: false,
        ..ExecuteOptionsView::default_options()
    }
}

/// Whether `plan` is what is planned for a run of the framework in the
/// repository at `repo_root` with `args`, given whether the framework is
/// installed and configured, and where its file was expected. The command and
/// its options on success; the errors, in the order in which they are looked
/// for: the framework is not installed; it is not configured; an argument is
/// not a flag.
pub open spec fn run_planned(
    plan: Result<(String, ExecuteOptions), Error>,
    repo_root: Seq<char>,
    args: Seq<Seq<char>>,
    installed: bool,
    configured: bool,
    config_path: Seq<char>,
) -> bool {
    match plan {
        Ok((command, options)) => installed && configured && first_where(args, not_a_flag(), 0)
            == args.len() && command@ == spec_command(args) && options@ == spec_run_options(
            repo_root,
        ),
        Err(Error::PreCommitNotFound) => !installed,
        Err(Error::PreCommitConfigNotFound { path }) => installed && !configured && path@
            == config_path,
        Err(Error::Internal { message }) => installed && configured && ({
            let at = first_where(args, not_a_flag(), 0);
            at < args.len() && message@ == "Invalid pre-commit argument: "@ + args[at]
        }),
        Err(_) => false,
    }
}

/// The command that runs the framework and the options to run it under, given
/// whether the framework is installed and configured. Only flags are let
/// through as arguments, so that nothing else can slip into the command.
///
/// The errors, in the order in which they are looked for: the framework is not
/// installed; it is not configured, with `config_path` as the place where its
/// file was expected; an argument is not a flag.
pub fn plan_run(
    repo_root: &str,
    args: &Vec<String>,
    installed: bool,
    configured: bool,
    config_path: &str,
) -> (plan: Result<(String, ExecuteOptions), Error>)
    ensures
        run_planned(plan, repo_root@, args.deep_view(), installed, configured, config_path@),
{
    if !installed {
        return Err(Error::PreCommitNotFound);
    }
    if !configured {
        return Err(Error::PreCommitConfigNotFound { path: config_path.to_string() });
    }
    let ghost items = args.deep_view();
    let ghost wanted = not_a_flag();
    let mut command = "pre-commit run".to_string();
    let mut i: usize = 0;
    assert(items.take(0) =~= Seq::<Seq<char>>::empty());
    while i < args.len()
        invariant
            installed,
            configured,
            i <= args.len(),
            items == args.deep_view(),
            wanted == not_a_flag(),
            first_where(items, wanted, 0) == first_where(items, wanted, i as int),
            command@ == spec_command(items.take(i as int)),
        decreases args.len() - i,
    {
        let arg = args[i].as_str();
        let flag = arg.unicode_len() > 0 && arg.get_char(0) == '-';
        if !flag {
            assert(wanted(items[i as int]));
            let message = concat("Invalid pre-commit argument: ", arg);
            return Err(Error::Internal { message });
        }
        assert(!wanted(items[i as int]));
        assert(items.take(i + 1).drop_last() =~= items.take(i as int));
        let head = concat(command.as_str(), " ");
        command = concat(head.as_str(), arg);
        i = i + 1;
    }
    assert(items.take(i as int) =~= items);
    let options = ExecuteOptions::default().cwd(repo_root).capture_output(false);
    Ok((command, options))
}

/// Where the configuration file of the framework is expected in a
/// repository.
pub open spec fn spec_config_path(repo_root: Seq<char>) -> Seq<char> {
    joined_path(repo_root, PRE_COMMIT_CONFIG@)
}

/// Whether `plan` is the run that is prepared in the repository at
/// `repo_root` with `args`, all of them flags: the command on success, and
/// otherwise one of two errors, that the framework is not installed, or that
/// it is not configured, with the place where its file was expected. Which of
/// the three it is depends on what is installed and what is on disk.
pub open spec fn flags_prepared(
    plan: Result<(String, ExecuteOptions), Error>,
    repo_root: Seq<char>,
    args: Seq<Seq<char>>,
) -> bool {
    match plan {
        Ok((command, options)) => command@ == spec_command(args) && options@ == spec_run_options(
            repo_root,
        ),
        Err(Error::PreCommitNotFound) => true,
        Err(Error::PreCommitConfigNotFound { path }) => path@ == spec_config_path(repo_root),
        Err(_) => false,
    }
}

/// The command that runs the framework with `args` in the repository at
/// `repo_root`, after looking whether the framework is installed and
/// configured there. What is found is not known beforehand, so the result is
/// stated for whatever is found: it is what [`plan_run`] makes of some
/// findings, with the file expected at [`spec_config_path`]. That settles the
/// arguments: one that is no flag is never let through.
pub fn prepare_run(repo_root: &str, args: &Vec<String>) -> (plan: Result<
    (String, ExecuteOptions),
    Error,
>)
    ensures
        exists|installed: bool, configured: bool| #[trigger]
            run_planned(
                plan,
                repo_root@,
                args.deep_view(),
                installed,
                configured,
                spec_config_path(repo_root@),
            ),
        first_where(args.deep_view(), not_a_flag(), 0) == args.len() ==> flags_prepared(
            plan,
            repo_root@,
            args.deep_view(),
        ),
        first_where(args.deep_view(), not_a_flag(), 0) < args.len() ==> plan is Err,
{
    let installed = is_installed();
    let configured = installed && config_exists(repo_root);
    let config_path = path_join(repo_root, PRE_COMMIT_CONFIG);
    let plan = plan_run(repo_root, args, installed, configured, config_path.as_str());
    assert(run_planned(
        plan,
        repo_root@,
        args.deep_view(),
        installed,
        configured,
        spec_config_path(repo_root@),
    ));
    plan
}

/// The command that runs the framework on staged files in the repository at
/// `repo_root`: `pre-commit run`, run in the root with its output shown. Where
/// the framework is not installed, or not configured in the repository, that
/// is the error.
pub fn prepare_staged(repo_root: &str) -> (plan: Result<(String, ExecuteOptions), Error>)
    ensures
        match plan {
            Ok((command, options)) => command@ == "pre-commit run"@ && options@
                == spec_run_options(repo_root@),
            Err(Error::PreCommitNotFound) => true,
            Err(Error::PreCommitConfigNotFound { path }) => path@ == spec_config_path(
                repo_root@,
            ),
            Err(_) => false,
        },
{
    let args: Vec<String> = Vec::new();
    assert(args.deep_view() =~= Seq::<Seq<char>>::empty());
    prepare_run(repo_root, &args)
}

/// The command that runs the framework on all files in the repository at
/// `repo_root`: `pre-commit run --all-files`, run in the root with its output
/// shown. Where the framework is not installed, or not configured in the
/// repository, that is the error.
pub fn prepare_all(repo_root: &str) -> (plan: Result<(String, ExecuteOptions), Error>)
    ensures
        match plan {
            Ok((command, options)) => command@ == "pre-commit run"@ + " "@ + "--all-files"@
                && options@ == spec_run_options(repo_root@),
            Err(Error::PreCommitNotFound) => true,
            Err(Error::PreCommitConfigNotFound { path }) => path@ == spec_config_path(
                repo_root@,
            ),
            Err(_) => false,
        },
{
    let mut args: Vec<String> = Vec::new();
    args.push("--all-files".to_string());
    let ghost items = args.deep_view();
    proof {
        reveal_strlit("--all-files");
        assert(items =~= seq!["--all-files"@]);
        assert(items.drop_last() =~= Seq::<Seq<char>>::empty());
        assert(spec_command(items) == "pre-commit run"@ + " "@ + "--all-files"@) by {
            reveal_with_fuel(spec_command, 2);
        }
        assert(is_flag(items[0]));
        assert(!not_a_flag()(items[0]));
        assert(first_where(items, not_a_flag(), 0) == 1) by {
            reveal_with_fuel(first_where, 2);
        }
    }
    prepare_run(repo_root, &args)
}

} // verus!
