//! Commands, files and searches in a sandbox.

use vstd::prelude::*;

use crate::aca::client::{BodyView, Method, Operation, PairView};
use crate::aca::command::{
    arranged, distinct_keys, env_prefix, every_environment_is_arranged, settings, wrapped,
    wrapped_command_reads_back, EnvView,
};
use crate::aca::sandbox::{
    deletion_names_one_file, gave_up, needs_resume, search_command, search_keeps_its_words_apart,
    token_source, GrepOptions, SandboxView,
};
use crate::clone_source::github_repo;
use crate::decimal::decimal;
use crate::exec::CommandTermination;
use crate::shell::{is_plain, quoted, shell_words, spaced, spelled_words_read_back};
use crate::text::text_at_most;

verus! {

/// Where a path lies: an absolute one where it says, any other below the working directory.
proof fn lemma_resolved(sandbox: SandboxView, path: Seq<char>)
    ensures
        path.len() > 0 && path[0] == '/' ==> sandbox.resolve(path) == path,
        !(path.len() > 0 && path[0] == '/') ==> sandbox.resolve(path) == sandbox.config.working_dir
            + "/"@ + path,
{
    reveal_strlit("/");
    if path.len() > 0 && path[0] == '/' {
        assert(path.subrange(0, 1) =~= "/"@);
    } else if "/"@.is_prefix_of(path) {
        assert(path.subrange(0, 1)[0] == '/');
    }
}

/// The words of the script that changes to a directory first.
proof fn lemma_change_words(dir: Seq<char>)
    ensures
        shell_words("cd "@ + quoted(dir)) == Some(seq!["cd"@, dir]),
{
    reveal_strlit("cd ");
    reveal_strlit("cd");
    reveal_strlit(" ");
    reveal_with_fuel(spaced, 3);
    let parts = seq!["cd"@, quoted(dir)];
    assert(parts.drop_first() =~= seq![quoted(dir)]);
    assert("cd "@ + quoted(dir) =~= spaced(parts));
    spelled_words_read_back(parts, seq!["cd"@, dir]);
}

/// The words that a sandbox's shell reads from the line of a command: `env`, which takes
/// `BASH_ENV` out and sets exactly the given variables but for that one, each of them once; then
/// Bash, and the script. The script is the command itself, or the command after a change to the
/// directory: the given one, and where none is given the working directory once a repository
/// was cloned. The directory has no say in what is set, nor the variables in where it runs.
pub proof fn commands_run_as_they_are_given(
    sandbox: SandboxView,
    command: Seq<char>,
    working_dir: Option<Seq<char>>,
    env: Seq<EnvView>,
)
    requires
        forall|i: int, j: int|
            0 <= i < j < env.len() ==> (#[trigger] env[i]).key != (#[trigger] env[j]).key,
        forall|i: int, k: int|
            0 <= i < env.len() && 0 <= k < env[i].key.len() ==> is_plain(#[trigger] env[i].key[k]),
    ensures
        ({
            let call = sandbox.exec_call(command, working_dir, env);
            &&& call.op == Operation::Exec
            &&& call.method == Method::Post
            &&& call.query.len() == 0
            &&& call.path == sandbox.client.path() + "/"@ + sandbox.id + "/"@
                + "executeShellCommand"@
            &&& call.body matches BodyView::Command(line)
            &&& shell_words(line) matches Some(words)
            &&& words.len() >= 6
            &&& words[0] == "env"@ && words[1] == "-u"@ && words[2] == "BASH_ENV"@
            &&& forall|w: Seq<char>|
                #![trigger words.subrange(3, words.len() - 3).contains(w)]
                words.subrange(3, words.len() - 3).contains(w) <==> exists|i: int|
                    0 <= i < env.len() && (#[trigger] env[i]).key != "BASH_ENV"@ && w == env[i].key
                        + "="@ + env[i].value
            &&& words.subrange(3, words.len() - 3).no_duplicates()
            &&& words[words.len() - 3] == "/bin/bash"@
            &&& words[words.len() - 2] == "-c"@
            &&& match working_dir {
                Some(dir) => words.last() == "cd "@ + quoted(dir) + " && "@ + command
                    && shell_words("cd "@ + quoted(dir)) == Some(seq!["cd"@, dir]),
                None => if sandbox.repo_cloned == Some(true) {
                    words.last() == "cd "@ + quoted(sandbox.config.working_dir) + " && "@ + command
                        && shell_words("cd "@ + quoted(sandbox.config.working_dir)) == Some(
                        seq!["cd"@, sandbox.config.working_dir],
                    )
                } else {
                    words.last() == command
                },
            }
        }),
{
    let dir = sandbox.directory(working_dir);
    let entries = arranged(env);
    let sets = settings(entries);
    wrapped_command_reads_back(command, dir, env);
    every_environment_is_arranged(env);
    if let Some(d) = dir {
        lemma_change_words(d);
    }
    let line = wrapped(command, dir, env);
    let words = shell_words(line)->Some_0;
    assert(words.subrange(3, words.len() - 3) =~= sets);
    reveal_strlit("=");
    assert forall|w: Seq<char>| #[trigger] sets.contains(w) <==> exists|i: int|
        0 <= i < env.len() && (#[trigger] env[i]).key != "BASH_ENV"@ && w == env[i].key + "="@
            + env[i].value by {
        if sets.contains(w) {
            let k = choose|k: int| 0 <= k < sets.len() && sets[k] == w;
            assert(entries.contains(entries[k]));
            let i = choose|i: int| 0 <= i < env.len() && env[i] == entries[k];
            assert(env[i].key != "BASH_ENV"@);
        }
        if exists|i: int|
            0 <= i < env.len() && (#[trigger] env[i]).key != "BASH_ENV"@ && w == env[i].key + "="@
                + env[i].value {
            let i = choose|i: int|
                0 <= i < env.len() && (#[trigger] env[i]).key != "BASH_ENV"@ && w == env[i].key
                    + "="@ + env[i].value;
            assert(env.contains(env[i]));
            assert(entries.contains(env[i]));
            let k = choose|k: int| 0 <= k < entries.len() && entries[k] == env[i];
            assert(sets[k] == w);
        }
    }
    assert forall|p: int, q: int| 0 <= p < q < sets.len() implies sets[p] != sets[q] by {
        let a = entries[p];
        let b = entries[q];
        assert(a.key != b.key);
        assert(entries.contains(a) && entries.contains(b));
        if sets[p] == sets[q] {
            lemma_key_ends_at_the_sign(a, b, env);
        }
    }
}

/// Two commands with the same variables are read alike up to their scripts, whatever directories
/// they are to run in, whatever they are, and whatever sandboxes they are for.
pub proof fn directories_do_not_change_what_is_set(
    a: SandboxView,
    b: SandboxView,
    first: Seq<char>,
    second: Seq<char>,
    here: Option<Seq<char>>,
    there: Option<Seq<char>>,
    env: Seq<EnvView>,
)
    requires
        forall|i: int, j: int|
            0 <= i < j < env.len() ==> (#[trigger] env[i]).key != (#[trigger] env[j]).key,
        forall|i: int, k: int|
            0 <= i < env.len() && 0 <= k < env[i].key.len() ==> is_plain(#[trigger] env[i].key[k]),
    ensures
        ({
            &&& a.exec_call(first, here, env).body matches BodyView::Command(x)
            &&& b.exec_call(second, there, env).body matches BodyView::Command(y)
            &&& shell_words(x) matches Some(v)
            &&& shell_words(y) matches Some(w)
            &&& v.len() > 0
            &&& v.drop_last() == w.drop_last()
        }),
{
    wrapped_command_reads_back(first, a.directory(here), env);
    wrapped_command_reads_back(second, b.directory(there), env);
    let x = shell_words(wrapped(first, a.directory(here), env))->Some_0;
    let y = shell_words(wrapped(second, b.directory(there), env))->Some_0;
    assert(x.drop_last() =~= y.drop_last());
}

proof fn lemma_key_ends_at_the_sign(a: EnvView, b: EnvView, env: Seq<EnvView>)
    requires
        env.contains(a),
        env.contains(b),
        forall|i: int, k: int|
            0 <= i < env.len() && 0 <= k < env[i].key.len() ==> is_plain(#[trigger] env[i].key[k]),
        a.key + "="@ + a.value == b.key + "="@ + b.value,
    ensures
        a.key == b.key,
{
    reveal_strlit("=");
    let i = choose|i: int| 0 <= i < env.len() && env[i] == a;
    let j = choose|j: int| 0 <= j < env.len() && env[j] == b;
    let x = a.key + "="@ + a.value;
    let y = b.key + "="@ + b.value;
    assert(x[a.key.len() as int] == '=');
    assert(y[b.key.len() as int] == '=');
    if a.key.len() < b.key.len() {
        assert(y[a.key.len() as int] == env[j].key[a.key.len() as int]);
    }
    if b.key.len() < a.key.len() {
        assert(x[b.key.len() as int] == env[i].key[b.key.len() as int]);
    }
    assert forall|k: int| 0 <= k < a.key.len() implies a.key[k] == b.key[k] by {
        assert(x[k] == a.key[k] && y[k] == b.key[k]);
    }
    assert(a.key =~= b.key);
}

/// The line of a command is its parts with single spaces between them, whatever the variables are
/// called: `env`, which takes `BASH_ENV` out; the given variables but for that one, each with its
/// value quoted, in the order of their names; and Bash, with the script quoted.
pub proof fn lines_are_made_of_these_parts(
    command: Seq<char>,
    dir: Option<Seq<char>>,
    env: Seq<EnvView>,
)
    requires
        forall|i: int, j: int|
            0 <= i < j < env.len() ==> (#[trigger] env[i]).key != (#[trigger] env[j]).key,
    ensures
        ({
            let entries = arranged(env);
            let script = match dir {
                Some(d) => "cd "@ + quoted(d) + " && "@ + command,
                None => command,
            };
            &&& forall|e: EnvView|
                entries.contains(e) <==> #[trigger] env.contains(e) && e.key != "BASH_ENV"@
            &&& forall|i: int, j: int|
                0 <= i < j < entries.len() ==> text_at_most(
                    (#[trigger] entries[i]).key,
                    (#[trigger] entries[j]).key,
                ) && entries[i].key != entries[j].key
            &&& wrapped(command, dir, env) == spaced(
                seq!["env"@, "-u"@, "BASH_ENV"@] + entries.map_values(
                    |e: EnvView| e.key + "="@ + quoted(e.value),
                ) + seq!["/bin/bash"@, "-c"@, quoted(script)],
            )
        }),
{
    every_environment_is_arranged(env);
    let entries = arranged(env);
    let script = match dir {
        Some(d) => "cd "@ + quoted(d) + " && "@ + command,
        None => command,
    };
    lemma_prefix_parts(entries);
    let front = seq!["env"@, "-u"@, "BASH_ENV"@] + entries.map_values(
        |e: EnvView| e.key + "="@ + quoted(e.value),
    );
    let parts = seq!["/bin/bash"@, "-c"@, quoted(script)];
    lemma_spaced_joins(front, parts);
    reveal_strlit(" ");
    reveal_strlit("/bin/bash");
    reveal_strlit("-c");
    reveal_strlit(" /bin/bash -c ");
    reveal_with_fuel(spaced, 4);
    assert(parts.drop_first() =~= seq!["-c"@, quoted(script)]);
    assert(parts.drop_first().drop_first() =~= seq![quoted(script)]);
    assert(" "@ + spaced(parts) =~= " /bin/bash -c "@ + quoted(script));
    assert(wrapped(command, dir, env) =~= spaced(front) + (" "@ + spaced(parts)));
    assert(spaced(front + parts) =~= spaced(front) + (" "@ + spaced(parts)));
}

proof fn lemma_spaced_joins(a: Seq<Seq<char>>, b: Seq<Seq<char>>)
    requires
        a.len() > 0,
        b.len() > 0,
    ensures
        spaced(a + b) == spaced(a) + " "@ + spaced(b),
    decreases a.len(),
{
    if a.len() == 1 {
        assert((a + b).drop_first() =~= b);
    } else {
        lemma_spaced_joins(a.drop_first(), b);
        assert((a + b).drop_first() =~= a.drop_first() + b);
        assert(spaced(a + b) =~= spaced(a) + " "@ + spaced(b));
    }
}

proof fn lemma_prefix_parts(entries: Seq<EnvView>)
    ensures
        env_prefix(entries) == spaced(
            seq!["env"@, "-u"@, "BASH_ENV"@] + entries.map_values(
                |e: EnvView| e.key + "="@ + quoted(e.value),
            ),
        ),
    decreases entries.len(),
{
    let start = seq!["env"@, "-u"@, "BASH_ENV"@];
    let write = |e: EnvView| e.key + "="@ + quoted(e.value);
    if entries.len() == 0 {
        reveal_strlit("env");
        reveal_strlit("-u");
        reveal_strlit("env -u ");
        reveal_strlit(" ");
        reveal_with_fuel(spaced, 4);
        assert(start.drop_first() =~= seq!["-u"@, "BASH_ENV"@]);
        assert(start.drop_first().drop_first() =~= seq!["BASH_ENV"@]);
        assert(start + entries.map_values(write) =~= start);
        assert(env_prefix(entries) =~= spaced(start));
    } else {
        let less = entries.drop_last();
        let last = write(entries.last());
        lemma_prefix_parts(less);
        let front = start + less.map_values(write);
        lemma_spaced_joins(front, seq![last]);
        assert(start + entries.map_values(write) =~= front + seq![last]);
        assert(env_prefix(entries) =~= spaced(front) + " "@ + last);
    }
}

/// A file is read, written, looked for and listed at the path that was asked for: as it is where
/// it starts with a slash, and below the sandbox's own working directory where it does not. What
/// is written is the given bytes, with the directories they need.
pub proof fn files_are_where_they_are_asked_for(
    sandbox: SandboxView,
    path: Seq<char>,
    bytes: Seq<u8>,
)
    ensures
        ({
            let target = if path.len() > 0 && path[0] == '/' {
                path
            } else {
                sandbox.config.working_dir + "/"@ + path
            };
            let asked = PairView { name: "path"@, value: target };
            let base = sandbox.client.path() + "/"@ + sandbox.id + "/"@;
            let read = sandbox.read_call(path);
            let write = sandbox.write_call(path, bytes);
            let stat = sandbox.stat_call(path);
            let list = sandbox.list_call(path);
            &&& read.op == Operation::FsCat && read.method == Method::Get
            &&& read.path == base + "files"@ && read.query == seq![asked]
            &&& read.body is Nothing
            &&& write.op == Operation::FsWrite && write.method == Method::Put
            &&& write.path == base + "files"@
            &&& write.query == seq![
                asked,
                PairView { name: "createDirs"@, value: "true"@ },
            ]
            &&& write.body == BodyView::Bytes(bytes)
            &&& stat.op == Operation::FsStat && stat.method == Method::Get
            &&& stat.path == base + "files/stat"@ && stat.query == seq![asked]
            &&& stat.body is Nothing
            &&& list.op == Operation::FsLs && list.method == Method::Get
            &&& list.path == base + "files/list"@ && list.query == seq![asked]
            &&& list.body is Nothing
        }),
{
    lemma_resolved(sandbox, path);
}

/// The command that deletes a file names exactly the file that was asked for.
pub proof fn the_file_asked_for_is_deleted(sandbox: SandboxView, path: Seq<char>)
    ensures
        ({
            let target = if path.len() > 0 && path[0] == '/' {
                path
            } else {
                sandbox.config.working_dir + "/"@ + path
            };
            &&& sandbox.delete_call(path) == sandbox.exec_call(
                "rm -f -- "@ + quoted(target),
                None,
                seq![],
            )
            &&& shell_words("rm -f -- "@ + quoted(target)) == Some(
                seq!["rm"@, "-f"@, "--"@, target],
            )
        }),
{
    lemma_resolved(sandbox, path);
    deletion_names_one_file(sandbox.resolve(path));
}

/// The words of a search: `rg` where it is known to be there and `grep` otherwise; the options
/// that were asked for and no others; the pattern, and the path that was asked for.
pub proof fn searches_are_what_was_asked_for(
    sandbox: SandboxView,
    pattern: Seq<char>,
    path: Seq<char>,
    options: GrepOptions,
)
    ensures
        ({
            let target = if path.len() > 0 && path[0] == '/' {
                path
            } else {
                sandbox.config.working_dir + "/"@ + path
            };
            let rg = sandbox.rg_available == Some(true);
            let command = search_command(rg, pattern, target, options);
            &&& sandbox.search_call(pattern, path, options) == sandbox.exec_call(
                command,
                None,
                seq![],
            )
            &&& shell_words(command) == Some(
                (if rg {
                    seq!["rg"@, "--line-number"@, "--no-heading"@]
                } else {
                    seq!["grep"@, "-rn"@]
                }) + (if options.case_insensitive {
                    seq!["-i"@]
                } else {
                    seq![]
                }) + (match options.glob_filter {
                    Some(filter) => if rg {
                        seq!["--glob"@, filter@]
                    } else {
                        seq!["--include"@, filter@]
                    },
                    None => seq![],
                }) + (match options.max_results {
                    Some(max) => if rg {
                        seq!["--max-count"@, decimal(max as nat)]
                    } else {
                        seq!["-m"@, decimal(max as nat)]
                    },
                    None => seq![],
                }) + seq!["--"@, pattern, target],
            )
        }),
{
    lemma_resolved(sandbox, path);
    let rg = sandbox.rg_available == Some(true);
    searches_are_read_as_these_words(rg, pattern, sandbox.resolve(path), options);
}

/// The words of the command of a search, whichever program runs it.
pub proof fn searches_are_read_as_these_words(
    rg: bool,
    pattern: Seq<char>,
    path: Seq<char>,
    options: GrepOptions,
)
    ensures
        shell_words(search_command(rg, pattern, path, options)) == Some(
            (if rg {
                seq!["rg"@, "--line-number"@, "--no-heading"@]
            } else {
                seq!["grep"@, "-rn"@]
            }) + (if options.case_insensitive {
                seq!["-i"@]
            } else {
                seq![]
            }) + (match options.glob_filter {
                Some(filter) => if rg {
                    seq!["--glob"@, filter@]
                } else {
                    seq!["--include"@, filter@]
                },
                None => seq![],
            }) + (match options.max_results {
                Some(max) => if rg {
                    seq!["--max-count"@, decimal(max as nat)]
                } else {
                    seq!["-m"@, decimal(max as nat)]
                },
                None => seq![],
            }) + seq!["--"@, pattern, path],
        ),
{
    search_keeps_its_words_apart(rg, pattern, path, options);
    let program = if rg {
        seq!["rg"@, "--line-number"@, "--no-heading"@]
    } else {
        seq!["grep"@, "-rn"@]
    };
    let cased = program + (if options.case_insensitive {
        seq!["-i"@]
    } else {
        seq![]
    });
    assert(crate::aca::sandbox::program_words(rg, options) =~= cased);
    let filtered = cased + (match options.glob_filter {
        Some(filter) => if rg {
            seq!["--glob"@, filter@]
        } else {
            seq!["--include"@, filter@]
        },
        None => seq![],
    });
    let limited = filtered + (match options.max_results {
        Some(max) => if rg {
            seq!["--max-count"@, decimal(max as nat)]
        } else {
            seq!["-m"@, decimal(max as nat)]
        },
        None => seq![],
    });
    assert(crate::aca::sandbox::option_words(rg, options, false) =~= limited);
}

/// A command that was given up never counts as a success, says why, and tells how long it took
/// as far as that can be held.
pub proof fn given_up_commands_fail(
    termination: CommandTermination,
    stderr: Seq<char>,
    elapsed_ms: u128,
)
    ensures
        ({
            let result = gave_up(termination, stderr, elapsed_ms);
            &&& result.stdout.len() == 0
            &&& result.stderr == stderr
            &&& result.exit_code is None
            &&& result.termination == termination
            &&& !result.succeeded()
            &&& elapsed_ms <= u64::MAX ==> result.duration_ms == elapsed_ms
            &&& elapsed_ms > u64::MAX ==> result.duration_ms == u64::MAX
        }),
{
}

/// Tokens are minted exactly where there are credentials and a GitHub origin to use them for;
/// credentials for any other origin are an error.
pub proof fn tokens_go_to_github_only(credentials: bool, origin: Option<Seq<char>>)
    ensures
        token_source(credentials, origin) == Ok::<bool, crate::error::ErrorView>(true)
            <==> credentials && origin is Some && github_repo(origin->Some_0) is Some,
        token_source(credentials, origin) is Err <==> credentials && origin is Some && github_repo(
            origin->Some_0,
        ) is None,
        token_source(credentials, origin) matches Err(e) ==> e == crate::error::ErrorView::Message(
            "clone origin is not a GitHub repository"@,
        ),
{
}

/// A sandbox is resumed exactly where it was found and is stopped. The calls that resume and that
/// stop it are about this sandbox, and carry nothing.
pub proof fn only_stopped_sandboxes_are_resumed(
    sandbox: SandboxView,
    found: Option<crate::aca::client::SandboxResource>,
)
    ensures
        needs_resume(found) <==> found is Some && found->Some_0.state
            == crate::aca::client::SandboxState::Stopped,
        ({
            let resume = sandbox.action_call(Operation::Resume, "resume"@);
            let stop = sandbox.action_call(Operation::Suspend, "stop"@);
            let base = sandbox.client.path() + "/"@ + sandbox.id + "/"@;
            &&& resume.op == Operation::Resume && resume.method == Method::Post
            &&& resume.path == base + "resume"@ && resume.query.len() == 0
            &&& resume.body is EmptyObject
            &&& stop.op == Operation::Suspend && stop.method == Method::Post
            &&& stop.path == base + "stop"@ && stop.query.len() == 0
            &&& stop.body is EmptyObject
        }),
{
}

/// The variables that a command is given may be any in which no name is there twice.
pub proof fn any_distinct_names_will_do(env: Seq<EnvView>)
    ensures
        distinct_keys(env) <==> forall|i: int, j: int|
            0 <= i < j < env.len() ==> (#[trigger] env[i]).key != (#[trigger] env[j]).key,
{
}

/// How long a command of the library's own may take: half a minute to delete a file, to search and
/// for a git command, and ten seconds to look for `rg`.
pub proof fn own_commands_have_their_time()
    ensures
        crate::aca::sandbox::FILE_COMMAND_TIMEOUT_MS == 30_000,
        crate::aca::sandbox::RG_PROBE_TIMEOUT_MS == 10_000,
        crate::aca::git::GIT_TIMEOUT_MS == 30_000,
        crate::aca::ACA_TOKEN_AUDIENCE@ == "https://management.azuredevcompute.io"@,
{
}

} // verus!
