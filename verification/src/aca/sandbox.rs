//! A live sandbox: running commands in it, its files, and its lifecycle.

use vstd::prelude::*;

use crate::aca::client::{
    pair_of, AcaClient, AcaExecResponse, AcaFileStat, ApiCall, BodyView, CallView, Method, Operation,
    SandboxResource, SandboxState,
};
use crate::aca::command::{distinct_keys, envs, wrap_command, wrapped, EnvVar, EnvView};
use crate::aca::{AcaConfig, ConfigView};
use crate::clone_source::{github_repo, not_github, opt_str, parse_github_origin};
use crate::decimal::{decimal, push_u64};
use crate::error::{Error, ErrorView};
use crate::exec::{exit_code_text, CommandTermination, ExecResult, ExecView};
use crate::shell::{
    option_joins_the_line, quoted, shell_quote, shell_words, spaced, spelled, spelled_words_read_back,
    two_spelled_words, word_joins_the_line,
};
use crate::text::{bytes_of, lines, lines_of, opt_text, starts_with, texts};

verus! {

// ---------------------------------------------------------------------------
// The sandbox
// ---------------------------------------------------------------------------

/// The time allowed for deleting a file, and for a search.
pub const FILE_COMMAND_TIMEOUT_MS: u64 = 30_000;

/// The time allowed for looking whether `rg` is there.
pub const RG_PROBE_TIMEOUT_MS: u64 = 10_000;

/// A call that runs a command, and the time allowed for it.
#[derive(Debug)]
pub struct TimedCall {
    pub call: ApiCall,
    pub timeout_ms: u64,
}

/// Credentials for GitHub.
#[derive(Debug)]
pub enum GitHubCredentials {
    /// A personal access token.
    Pat(String),
    /// A GitHub App, by its id and private key.
    App { app_id: String, private_key: String },
}

impl Clone for GitHubCredentials {
    fn clone(&self) -> (r: GitHubCredentials)
        ensures
            r == *self,
    {
        match self {
            GitHubCredentials::Pat(token) => GitHubCredentials::Pat(token.clone()),
            GitHubCredentials::App { app_id, private_key } => GitHubCredentials::App {
                app_id: app_id.clone(),
                private_key: private_key.clone(),
            },
        }
    }
}

/// A handle to a sandbox that exists already.
pub struct AcaSandbox {
    pub client: AcaClient,
    pub sandbox_id: String,
    pub config: AcaConfig,
    pub clone_origin_url: Option<String>,
    pub clone_branch: Option<String>,
    pub clone_tag: Option<String>,
    pub clone_commit_sha: Option<String>,
    /// Whether tokens for the clone can be minted.
    pub has_token_source: bool,
    /// The token that the clone put into the remote's URL.
    pub embedded_token: Option<String>,
    /// Whether a repository was cloned; unset until that is decided, and set once.
    pub repo_cloned: Option<bool>,
    /// Whether `rg` is there; unset until it was looked for, and set once.
    pub rg_available: Option<bool>,
}

/// The model of an [`AcaSandbox`].
#[verifier::ext_equal]
pub ghost struct SandboxView {
    pub client: AcaClient,
    pub id: Seq<char>,
    pub config: ConfigView,
    pub origin: Option<Seq<char>>,
    pub branch: Option<Seq<char>>,
    pub tag: Option<Seq<char>>,
    pub commit: Option<Seq<char>>,
    pub has_token_source: bool,
    pub embedded_token: Option<Seq<char>>,
    pub repo_cloned: Option<bool>,
    pub rg_available: Option<bool>,
}

impl View for AcaSandbox {
    type V = SandboxView;

    open spec fn view(&self) -> SandboxView {
        SandboxView {
            client: self.client,
            id: self.sandbox_id@,
            config: self.config@,
            origin: opt_text(self.clone_origin_url),
            branch: opt_text(self.clone_branch),
            tag: opt_text(self.clone_tag),
            commit: opt_text(self.clone_commit_sha),
            has_token_source: self.has_token_source,
            embedded_token: opt_text(self.embedded_token),
            repo_cloned: self.repo_cloned,
            rg_available: self.rg_available,
        }
    }
}

/// A path as the sandbox takes it: an absolute one as it is, any other below the working
/// directory.
pub open spec fn resolved(path: Seq<char>, working_dir: Seq<char>) -> Seq<char> {
    if "/"@.is_prefix_of(path) {
        path
    } else {
        working_dir + "/"@ + path
    }
}

/// [`resolved`].
pub fn resolve_path(path: &str, working_dir: &str) -> (r: String)
    ensures
        r@ == resolved(path@, working_dir@),
{
    if starts_with(path, "/") {
        path.to_owned()
    } else {
        let mut full = working_dir.to_owned();
        full.append("/");
        full.append(path);
        full
    }
}

impl SandboxView {
    /// Whether a repository is known to have been cloned.
    pub open spec fn cloned(self) -> bool {
        self.repo_cloned == Some(true)
    }

    /// The directory that a command runs in: the given one, or after a clone the working
    /// directory. Before that there is none to default to: it may not exist yet.
    pub open spec fn directory(self, given: Option<Seq<char>>) -> Option<Seq<char>> {
        match given {
            Some(dir) => Some(dir),
            None => if self.cloned() {
                Some(self.config.working_dir)
            } else {
                None
            },
        }
    }

    /// A path as the sandbox takes it.
    pub open spec fn resolve(self, path: Seq<char>) -> Seq<char> {
        resolved(path, self.config.working_dir)
    }

    /// The call that runs a command.
    pub open spec fn exec_call(
        self,
        command: Seq<char>,
        working_dir: Option<Seq<char>>,
        env: Seq<EnvView>,
    ) -> CallView {
        CallView {
            op: Operation::Exec,
            method: Method::Post,
            path: self.client.action_path_of(self.id, "executeShellCommand"@),
            query: seq![],
            body: BodyView::Command(wrapped(command, self.directory(working_dir), env)),
        }
    }

    /// The call that reads a file.
    pub open spec fn read_call(self, path: Seq<char>) -> CallView {
        CallView {
            op: Operation::FsCat,
            method: Method::Get,
            path: self.client.action_path_of(self.id, "files"@),
            query: seq![pair_of("path"@, self.resolve(path))],
            body: BodyView::Nothing,
        }
    }

    /// The call that writes a file, with the directories it needs.
    pub open spec fn write_call(self, path: Seq<char>, bytes: Seq<u8>) -> CallView {
        CallView {
            op: Operation::FsWrite,
            method: Method::Put,
            path: self.client.action_path_of(self.id, "files"@),
            query: seq![pair_of("path"@, self.resolve(path)), pair_of("createDirs"@, "true"@)],
            body: BodyView::Bytes(bytes),
        }
    }

    /// The call that looks whether something is at a path.
    pub open spec fn stat_call(self, path: Seq<char>) -> CallView {
        CallView {
            op: Operation::FsStat,
            method: Method::Get,
            path: self.client.action_path_of(self.id, "files/stat"@),
            query: seq![pair_of("path"@, self.resolve(path))],
            body: BodyView::Nothing,
        }
    }

    /// The call that lists a directory.
    pub open spec fn list_call(self, path: Seq<char>) -> CallView {
        CallView {
            op: Operation::FsLs,
            method: Method::Get,
            path: self.client.action_path_of(self.id, "files/list"@),
            query: seq![pair_of("path"@, self.resolve(path))],
            body: BodyView::Nothing,
        }
    }

    /// The call that deletes a file.
    pub open spec fn delete_call(self, path: Seq<char>) -> CallView {
        self.exec_call("rm -f -- "@ + quoted(self.resolve(path)), None, seq![])
    }

    /// The call that searches.
    pub open spec fn search_call(
        self,
        pattern: Seq<char>,
        path: Seq<char>,
        options: GrepOptions,
    ) -> CallView {
        self.exec_call(
            search_command(
                self.rg_available == Some(true),
                pattern,
                self.resolve(path),
                options,
            ),
            None,
            seq![],
        )
    }

    /// An action on the sandbox that carries an empty object.
    pub open spec fn action_call(self, op: Operation, action: Seq<char>) -> CallView {
        CallView {
            op,
            method: Method::Post,
            path: self.client.action_path_of(self.id, action),
            query: seq![],
            body: BodyView::EmptyObject,
        }
    }
}

/// Whether a sandbox that was looked for has to be resumed: only where it is there and stopped.
pub open spec fn needs_resume(found: Option<SandboxResource>) -> bool {
    found matches Some(resource) && resource.state == SandboxState::Stopped
}

pub(crate) fn is_stopped(found: &Option<SandboxResource>) -> (r: bool)
    ensures
        r == needs_resume(*found),
{
    match found {
        Some(resource) => resource.state == SandboxState::Stopped,
        None => false,
    }
}

/// Whether tokens can be minted: there are credentials, and an origin to mint them for.
/// Credentials for an origin that is not on GitHub are an error.
pub open spec fn token_source(credentials: bool, origin: Option<Seq<char>>) -> Result<bool, ErrorView> {
    match origin {
        Some(o) => if !credentials {
            Ok(false)
        } else if github_repo(o) is Some {
            Ok(true)
        } else {
            Err(not_github())
        },
        None => Ok(false),
    }
}

/// [`token_source`].
pub fn build_token_source(github_app: Option<&GitHubCredentials>, origin: Option<&str>) -> (r: Result<
    bool,
    Error,
>)
    ensures
        match token_source(github_app is Some, opt_str(origin)) {
            Ok(b) => r == Ok::<bool, Error>(b),
            Err(e) => r is Err && r->Err_0@ == e,
        },
{
    match origin {
        Some(o) => if github_app.is_none() {
            Ok(false)
        } else if parse_github_origin(o).is_some() {
            Ok(true)
        } else {
            Err(Error::message("clone origin is not a GitHub repository"))
        },
        None => Ok(false),
    }
}

pub(crate) fn borrowed(s: &Option<String>) -> (r: Option<&str>)
    ensures
        opt_str(r) == opt_text(*s),
{
    match s {
        Some(t) => Some(t.as_str()),
        None => None,
    }
}

impl AcaSandbox {
    /// A handle to the sandbox `sandbox_id`. Nothing is decided yet about a clone, and `rg` was
    /// not looked for.
    pub fn new(
        client: AcaClient,
        sandbox_id: String,
        config: AcaConfig,
        github_app: Option<&GitHubCredentials>,
        clone_origin_url: Option<String>,
        clone_branch: Option<String>,
        clone_tag: Option<String>,
        clone_commit_sha: Option<String>,
    ) -> (r: Result<AcaSandbox, Error>)
        ensures
            match token_source(github_app is Some, opt_text(clone_origin_url)) {
                Ok(has_source) => r is Ok && r->Ok_0@ == (SandboxView {
                    client,
                    id: sandbox_id@,
                    config: config@,
                    origin: opt_text(clone_origin_url),
                    branch: opt_text(clone_branch),
                    tag: opt_text(clone_tag),
                    commit: opt_text(clone_commit_sha),
                    has_token_source: has_source,
                    embedded_token: None,
                    repo_cloned: None,
                    rg_available: None,
                }),
                Err(e) => r is Err && r->Err_0@ == e,
            },
    {
        let has_token_source = match build_token_source(github_app, borrowed(&clone_origin_url)) {
            Ok(b) => b,
            Err(e) => return Err(e),
        };
        Ok(
            AcaSandbox {
                client,
                sandbox_id,
                config,
                clone_origin_url,
                clone_branch,
                clone_tag,
                clone_commit_sha,
                has_token_source,
                embedded_token: None,
                repo_cloned: None,
                rg_available: None,
            },
        )
    }

    /// Whether a repository was cloned.
    pub fn repo_cloned(&self) -> (r: bool)
        ensures
            r == self@.cloned(),
    {
        match self.repo_cloned {
            Some(cloned) => cloned,
            None => false,
        }
    }

    /// Records whether a repository was cloned. What was recorded first stays.
    pub fn record_cloned(&mut self, cloned: bool)
        ensures
            final(self)@ == (SandboxView {
                repo_cloned: match old(self)@.repo_cloned {
                    Some(first) => Some(first),
                    None => Some(cloned),
                },
                ..old(self)@
            }),
    {
        if self.repo_cloned.is_none() {
            self.repo_cloned = Some(cloned);
        }
    }

    /// The directory that files and repositories are in.
    pub fn working_directory(&self) -> (r: &str)
        ensures
            r@ == self@.config.working_dir,
    {
        self.config.working_dir.as_str()
    }

    /// The platform of every sandbox.
    pub fn platform(&self) -> (r: &'static str)
        ensures
            r@ == "linux"@,
    {
        "linux"
    }

    /// The system, by the disk image it was made from.
    pub fn os_version(&self) -> (r: String)
        ensures
            r@ == "Linux (ACA "@ + self@.config.disk + ")"@,
    {
        let mut version = "Linux (ACA ".to_owned();
        version.append(self.config.disk.as_str());
        version.append(")");
        version
    }

    /// What the sandbox is known by.
    pub fn sandbox_info(&self) -> (r: String)
        ensures
            r == self.sandbox_id,
            r@ == self@.id,
    {
        self.sandbox_id.clone()
    }

    fn resolve(&self, path: &str) -> (r: String)
        ensures
            r@ == self@.resolve(path@),
    {
        resolve_path(path, self.config.working_dir.as_str())
    }

    // -----------------------------------------------------------------------
    // Commands
    // -----------------------------------------------------------------------

    /// The call that runs a command. Its answer goes through the guard of
    /// [`crate::aca::running::RunningRetry`], and to [`exec_outcome`].
    pub fn exec_command(&self, command: &str, working_dir: Option<&str>, env_vars: &Vec<EnvVar>) -> (r:
        ApiCall)
        requires
            distinct_keys(envs(env_vars@)),
        ensures
            r@ == self@.exec_call(command@, opt_str(working_dir), envs(env_vars@)),
    {
        let default_dir: Option<&str> = if self.repo_cloned() {
            Some(self.config.working_dir.as_str())
        } else {
            None
        };
        let dir = match working_dir {
            Some(dir) => Some(dir),
            None => default_dir,
        };
        let line = wrap_command(command, dir, env_vars);
        self.client.exec(self.sandbox_id.as_str(), line.as_str())
    }

    /// The call that runs a command with nothing but the command given.
    pub fn plain_exec(&self, command: &str) -> (r: ApiCall)
        ensures
            r@ == self@.exec_call(command@, None, seq![]),
    {
        let none: Vec<EnvVar> = Vec::new();
        proof {
            assert(envs(none@) =~= seq![]);
        }
        self.exec_command(command, None, &none)
    }

    // -----------------------------------------------------------------------
    // Lifecycle
    // -----------------------------------------------------------------------

    /// The call that asks for the sandbox's state: the first step of activating it.
    pub fn activate(&self) -> (r: ApiCall)
        ensures
            r@ == (CallView {
                op: Operation::GetSandbox,
                method: Method::Get,
                path: self@.client.path_of(self@.id),
                query: seq![],
                body: BodyView::Nothing,
            }),
    {
        self.client.get_sandbox(self.sandbox_id.as_str())
    }

    /// The second step of activating: a resume where the sandbox is stopped, and nothing where
    /// it is running, gone, or in a state that is not known.
    pub fn activate_found(&self, found: Result<Option<SandboxResource>, Error>) -> (r: Result<
        Option<ApiCall>,
        Error,
    >)
        ensures
            match found {
                Err(e) => r == Err::<Option<ApiCall>, Error>(e),
                Ok(resource) => {
                    &&& r is Ok
                    &&& r->Ok_0 is Some <==> needs_resume(resource)
                    &&& r->Ok_0 is Some ==> r->Ok_0->Some_0@ == self@.action_call(
                        Operation::Resume,
                        "resume"@,
                    )
                },
            },
    {
        match found {
            Err(e) => Err(e),
            Ok(resource) => if is_stopped(&resource) {
                Ok(Some(self.resume()))
            } else {
                Ok(None)
            },
        }
    }

    /// The call that resumes the sandbox.
    pub fn resume(&self) -> (r: ApiCall)
        ensures
            r@ == self@.action_call(Operation::Resume, "resume"@),
    {
        self.client.resume(self.sandbox_id.as_str())
    }

    /// The call that suspends the sandbox.
    pub fn stop(&self) -> (r: ApiCall)
        ensures
            r@ == self@.action_call(Operation::Suspend, "stop"@),
    {
        self.client.suspend(self.sandbox_id.as_str())
    }

    /// The call that deletes the sandbox.
    pub fn cleanup(&self) -> (r: ApiCall)
        ensures
            r@ == (CallView {
                op: Operation::DeleteSandbox,
                method: Method::Delete,
                path: self@.client.path_of(self@.id),
                query: seq![],
                body: BodyView::Nothing,
            }),
    {
        self.client.delete_sandbox(self.sandbox_id.as_str())
    }

    /// The same as [`AcaSandbox::cleanup`].
    pub fn delete(&self) -> (r: ApiCall)
        ensures
            r@ == (CallView {
                op: Operation::DeleteSandbox,
                method: Method::Delete,
                path: self@.client.path_of(self@.id),
                query: seq![],
                body: BodyView::Nothing,
            }),
    {
        self.cleanup()
    }

    // -----------------------------------------------------------------------
    // Files
    // -----------------------------------------------------------------------

    /// The call that reads a file.
    pub fn read_file_bytes(&self, path: &str) -> (r: ApiCall)
        ensures
            r@ == self@.read_call(path@),
    {
        self.client.fs_cat(self.sandbox_id.as_str(), self.resolve(path).as_str())
    }

    /// The call that writes a text to a file, in UTF-8.
    pub fn write_file(&self, path: &str, content: &str) -> (r: ApiCall)
        ensures
            r@ == self@.write_call(path@, vstd::utf8::encode_utf8(content@)),
    {
        self.write_bytes(path, bytes_of(content))
    }

    /// The call that writes bytes to a file.
    pub fn write_bytes(&self, path: &str, bytes: Vec<u8>) -> (r: ApiCall)
        ensures
            r@ == self@.write_call(path@, bytes@),
    {
        self.client.fs_write(self.sandbox_id.as_str(), self.resolve(path).as_str(), bytes, true)
    }

    /// The call that fetches a file for the local machine.
    pub fn download_file_to_local(&self, remote_path: &str) -> (r: ApiCall)
        ensures
            r@ == self@.read_call(remote_path@),
    {
        self.read_file_bytes(remote_path)
    }

    /// The call that stores the bytes of a local file.
    pub fn upload_file_from_local(&self, bytes: Vec<u8>, remote_path: &str) -> (r: ApiCall)
        ensures
            r@ == self@.write_call(remote_path@, bytes@),
    {
        self.write_bytes(remote_path, bytes)
    }

    /// The call that looks whether something is at a path.
    pub fn file_exists(&self, path: &str) -> (r: ApiCall)
        ensures
            r@ == (CallView {
                op: Operation::FsStat,
                method: Method::Get,
                path: self@.client.action_path_of(self@.id, "files/stat"@),
                query: seq![pair_of("path"@, self@.resolve(path@))],
                body: BodyView::Nothing,
            }),
            r@ == self@.stat_call(path@),
    {
        self.client.fs_stat(self.sandbox_id.as_str(), self.resolve(path).as_str())
    }

    /// The call that lists a directory. One level is all that can be asked for, whatever the
    /// depth.
    pub fn list_directory(&self, path: &str, _depth: Option<usize>) -> (r: ApiCall)
        ensures
            r@ == (CallView {
                op: Operation::FsLs,
                method: Method::Get,
                path: self@.client.action_path_of(self@.id, "files/list"@),
                query: seq![pair_of("path"@, self@.resolve(path@))],
                body: BodyView::Nothing,
            }),
            r@ == self@.list_call(path@),
    {
        self.client.fs_ls(self.sandbox_id.as_str(), self.resolve(path).as_str())
    }

    /// The call that deletes a file: a command, for want of an endpoint.
    pub fn delete_file(&self, path: &str) -> (r: TimedCall)
        ensures
            r.call@ == self@.exec_call("rm -f -- "@ + quoted(self@.resolve(path@)), None, seq![]),
            r.call@ == self@.delete_call(path@),
            r.timeout_ms == FILE_COMMAND_TIMEOUT_MS,
    {
        let mut command = "rm -f -- ".to_owned();
        command.append(shell_quote(self.resolve(path).as_str()).as_str());
        TimedCall { call: self.plain_exec(command.as_str()), timeout_ms: FILE_COMMAND_TIMEOUT_MS }
    }

    /// What the outcome of that command means.
    pub fn file_deleted(&self, path: &str, outcome: Result<ExecResult, Error>) -> (r: Result<(), Error>)
        ensures
            match outcome {
                Err(e) => r == Err::<(), Error>(e),
                Ok(result) => if result@.succeeded() {
                    r is Ok
                } else {
                    r is Err && r->Err_0@ == ErrorView::Message(
                        "Failed to delete file "@ + self@.resolve(path@) + " (exit "@
                            + exit_code_text(result.exit_code) + "): "@ + result.stderr@,
                    )
                },
            },
    {
        match outcome {
            Err(e) => Err(e),
            Ok(result) => if result.is_success() {
                Ok(())
            } else {
                let mut message = "Failed to delete file ".to_owned();
                message.append(self.resolve(path).as_str());
                message.append(" (exit ");
                message.append(result.display_exit_code().as_str());
                message.append("): ");
                message.append(result.stderr.as_str());
                Err(Error::Message(message))
            },
        }
    }

    // -----------------------------------------------------------------------
    // Search
    // -----------------------------------------------------------------------

    /// The first step of a search: looking for `rg`, where that was not done yet.
    pub fn grep_probe(&self) -> (r: Option<TimedCall>)
        ensures
            match r {
                Some(probe) => {
                    &&& self@.rg_available is None
                    &&& probe.call@ == self@.exec_call("rg --version"@, None, seq![])
                    &&& probe.timeout_ms == RG_PROBE_TIMEOUT_MS
                },
                None => self@.rg_available is Some,
            },
    {
        match self.rg_available {
            Some(_) => None,
            None => Some(
                TimedCall {
                    call: self.plain_exec("rg --version"),
                    timeout_ms: RG_PROBE_TIMEOUT_MS,
                },
            ),
        }
    }

    /// Records whether `rg` was found. What was recorded first stays; a probe that failed in
    /// any way counts as "not found".
    pub fn record_rg(&mut self, outcome: &Result<ExecResult, Error>)
        ensures
            final(self)@ == (SandboxView {
                rg_available: match old(self)@.rg_available {
                    Some(first) => Some(first),
                    None => Some(*outcome is Ok && (*outcome)->Ok_0@.succeeded()),
                },
                ..old(self)@
            }),
    {
        if self.rg_available.is_none() {
            let found = match outcome {
                Ok(result) => result.is_success(),
                Err(_) => false,
            };
            self.rg_available = Some(found);
        }
    }

    /// The second step of a search, once `rg` was looked for: the search itself, with `rg` where
    /// it was found and with `grep` otherwise.
    pub fn grep(&self, pattern: &str, path: &str, options: &GrepOptions) -> (r: TimedCall)
        requires
            self@.rg_available is Some,
        ensures
            r.timeout_ms == FILE_COMMAND_TIMEOUT_MS,
            r.call@ == self@.exec_call(
                search_command(
                    self@.rg_available == Some(true),
                    pattern@,
                    self@.resolve(path@),
                    *options,
                ),
                None,
                seq![],
            ),
            r.call@ == self@.search_call(pattern@, path@, *options),
    {
        let use_rg = match self.rg_available {
            Some(found) => found,
            None => false,
        };
        let command = grep_command(use_rg, pattern, self.resolve(path).as_str(), options);
        TimedCall { call: self.plain_exec(command.as_str()), timeout_ms: FILE_COMMAND_TIMEOUT_MS }
    }
}

// ---------------------------------------------------------------------------
// Outcomes
// ---------------------------------------------------------------------------

/// How the wait for a command ended: with an answer, or before one with so many milliseconds
/// gone.
#[derive(Debug)]
pub enum ExecEvent {
    Answered(Result<AcaExecResponse, Error>),
    TimedOut { elapsed_ms: u128 },
    Cancelled { elapsed_ms: u128 },
}

/// A number of milliseconds, as far as it can be held.
pub open spec fn held_ms(elapsed: u128) -> u64 {
    if elapsed <= u64::MAX {
        elapsed as u64
    } else {
        u64::MAX
    }
}

/// The result of a command that was given up.
pub open spec fn gave_up(termination: CommandTermination, stderr: Seq<char>, elapsed_ms: u128) -> ExecView {
    ExecView {
        stdout: seq![],
        stderr,
        exit_code: None,
        termination,
        duration_ms: held_ms(elapsed_ms),
    }
}

fn given_up(termination: CommandTermination, stderr: &str, elapsed_ms: u128) -> (r: ExecResult)
    ensures
        r@ == gave_up(termination, stderr@, elapsed_ms),
{
    let duration_ms: u64 = if elapsed_ms <= 0xffff_ffff_ffff_ffff {
        elapsed_ms as u64
    } else {
        u64::MAX
    };
    let r = ExecResult {
        stdout: String::new(),
        stderr: stderr.to_owned(),
        exit_code: None,
        termination,
        duration_ms,
    };
    proof {
        assert(r@ =~= gave_up(termination, stderr@, elapsed_ms));
    }
    r
}

/// The result of a command. Running out of time and being given up are results, not errors.
pub fn exec_outcome(event: ExecEvent) -> (r: Result<ExecResult, Error>)
    ensures
        match event {
            ExecEvent::Answered(Err(e)) => r == Err::<ExecResult, Error>(e),
            ExecEvent::Answered(Ok(response)) => r is Ok && r->Ok_0@ == (ExecView {
                stdout: response.stdout@,
                stderr: response.stderr@,
                exit_code: Some(response.exit_code),
                termination: CommandTermination::Exited,
                duration_ms: response.execution_time_ms,
            }),
            ExecEvent::TimedOut { elapsed_ms } => r is Ok && r->Ok_0@ == gave_up(
                CommandTermination::TimedOut,
                "Command timed out"@,
                elapsed_ms,
            ),
            ExecEvent::Cancelled { elapsed_ms } => r is Ok && r->Ok_0@ == gave_up(
                CommandTermination::Cancelled,
                "Command cancelled"@,
                elapsed_ms,
            ),
        },
{
    match event {
        ExecEvent::Answered(Err(e)) => Err(e),
        ExecEvent::Answered(Ok(response)) => Ok(
            ExecResult {
                stdout: response.stdout,
                stderr: response.stderr,
                exit_code: Some(response.exit_code),
                termination: CommandTermination::Exited,
                duration_ms: response.execution_time_ms,
            },
        ),
        ExecEvent::TimedOut { elapsed_ms } => Ok(
            given_up(CommandTermination::TimedOut, "Command timed out", elapsed_ms),
        ),
        ExecEvent::Cancelled { elapsed_ms } => Ok(
            given_up(CommandTermination::Cancelled, "Command cancelled", elapsed_ms),
        ),
    }
}

/// A command to be run with its output handed on as it comes.
#[derive(Debug)]
pub struct ExecStreamingRequest {
    pub command: String,
    pub stdin: Option<Vec<u8>>,
}

/// The result of a command whose output was to be handed on as it comes.
#[derive(Debug)]
pub struct ExecStreamingResult {
    pub result: ExecResult,
    /// Whether the output was handed on while the command ran.
    pub live_streaming: bool,
}

/// The command of a streaming request. Standard input cannot be passed on.
pub fn streaming_command(request: ExecStreamingRequest) -> (r: Result<String, Error>)
    ensures
        match request.stdin {
            Some(_) => r is Err && r->Err_0@ == ErrorView::Message(
                "streaming commands cannot be given standard input"@,
            ),
            None => r == Ok::<String, Error>(request.command),
        },
{
    if request.stdin.is_some() {
        Err(Error::message("streaming commands cannot be given standard input"))
    } else {
        Ok(request.command)
    }
}

/// The result of a streaming request: the command ran to its end first, and its output is
/// replayed.
pub fn replayed(result: ExecResult) -> (r: ExecStreamingResult)
    ensures
        r.result == result,
        !r.live_streaming,
{
    ExecStreamingResult { result, live_streaming: false }
}

/// An entry of a directory.
#[derive(Debug)]
pub struct DirEntry {
    pub name: String,
    pub is_dir: bool,
    pub size: Option<u64>,
}

/// The entries of a directory: a directory among them has no size.
pub fn dir_entries(entries: Vec<AcaFileStat>) -> (r: Vec<DirEntry>)
    ensures
        r@.len() == entries@.len(),
        forall|i: int|
            0 <= i < r@.len() ==> {
                &&& (#[trigger] r@[i]).name == entries@[i].name
                &&& r@[i].is_dir == entries@[i].is_dir
                &&& r@[i].size == (if entries@[i].is_dir {
                    None
                } else {
                    Some(entries@[i].size)
                })
            },
{
    let mut r: Vec<DirEntry> = Vec::new();
    let mut i: usize = 0;
    while i < entries.len()
        invariant
            i <= entries@.len(),
            r@.len() == i,
            forall|j: int|
                0 <= j < i ==> {
                    &&& (#[trigger] r@[j]).name == entries@[j].name
                    &&& r@[j].is_dir == entries@[j].is_dir
                    &&& r@[j].size == (if entries@[j].is_dir {
                        None
                    } else {
                        Some(entries@[j].size)
                    })
                },
        decreases entries@.len() - i,
    {
        r.push(
            DirEntry {
                name: entries[i].name.clone(),
                is_dir: entries[i].is_dir,
                size: if entries[i].is_dir {
                    None
                } else {
                    Some(entries[i].size)
                },
            },
        );
        i = i + 1;
    }
    r
}

/// How a search is narrowed.
#[derive(Debug)]
pub struct GrepOptions {
    pub glob_filter: Option<String>,
    pub case_insensitive: bool,
    pub max_results: Option<usize>,
}

impl Default for GrepOptions {
    fn default() -> (r: GrepOptions)
        ensures
            r.glob_filter is None,
            !r.case_insensitive,
            r.max_results is None,
    {
        GrepOptions { glob_filter: None, case_insensitive: false, max_results: None }
    }
}

/// The program of a search, and whether it minds the case of letters.
pub open spec fn search_program(use_rg: bool, options: GrepOptions) -> Seq<char> {
    let program = if use_rg {
        "rg --line-number --no-heading"@
    } else {
        "grep -rn"@
    };
    if options.case_insensitive {
        program + " -i"@
    } else {
        program
    }
}

/// The same, with the files to search in.
pub open spec fn filtered_search(use_rg: bool, options: GrepOptions) -> Seq<char> {
    match options.glob_filter {
        Some(filter) => search_program(use_rg, options) + (if use_rg {
            " --glob "@
        } else {
            " --include "@
        }) + quoted(filter@),
        None => search_program(use_rg, options),
    }
}

/// The same, with the most matches to look for.
pub open spec fn limited_search(use_rg: bool, options: GrepOptions) -> Seq<char> {
    match options.max_results {
        Some(max) => filtered_search(use_rg, options) + (if use_rg {
            " --max-count "@
        } else {
            " -m "@
        }) + decimal(max as nat),
        None => filtered_search(use_rg, options),
    }
}

/// The command of a search. The two programs take the same options under different names;
/// the pattern and the path come after `--`, so that neither can be taken for an option.
pub open spec fn search_command(
    use_rg: bool,
    pattern: Seq<char>,
    path: Seq<char>,
    options: GrepOptions,
) -> Seq<char> {
    limited_search(use_rg, options) + " -- "@ + quoted(pattern) + " "@ + quoted(path)
}

/// [`search_command`].
pub fn grep_command(use_rg: bool, pattern: &str, path: &str, options: &GrepOptions) -> (r: String)
    ensures
        r@ == search_command(use_rg, pattern@, path@, *options),
{
    let mut command = if use_rg {
        "rg --line-number --no-heading".to_owned()
    } else {
        "grep -rn".to_owned()
    };
    if options.case_insensitive {
        command.append(" -i");
    }
    if let Some(filter) = &options.glob_filter {
        command.append(
            if use_rg {
                " --glob "
            } else {
                " --include "
            },
        );
        command.append(shell_quote(filter.as_str()).as_str());
    }
    if let Some(max) = options.max_results {
        command.append(
            if use_rg {
                " --max-count "
            } else {
                " -m "
            },
        );
        push_u64(&mut command, max as u64);
    }
    command.append(" -- ");
    command.append(shell_quote(pattern).as_str());
    command.append(" ");
    command.append(shell_quote(path).as_str());
    command
}

/// The matches of a search: one to a line. Both programs exit with one where nothing matches,
/// which is no error.
pub fn grep_matches(outcome: Result<ExecResult, Error>) -> (r: Result<Vec<String>, Error>)
    ensures
        match outcome {
            Err(e) => r == Err::<Vec<String>, Error>(e),
            Ok(result) => if result.exit_code == Some(1i32) {
                r is Ok && r->Ok_0@ == Seq::<String>::empty()
            } else if !result@.succeeded() {
                r is Err && r->Err_0@ == ErrorView::Message(
                    "grep failed (exit "@ + exit_code_text(result.exit_code) + "): "@
                        + result.stderr@,
                )
            } else {
                r is Ok && texts(r->Ok_0@) == lines_of(result.stdout@)
            },
        },
{
    match outcome {
        Err(e) => Err(e),
        Ok(result) => {
            let nothing = match result.exit_code {
                Some(code) => code == 1,
                None => false,
            };
            if nothing {
                Ok(Vec::new())
            } else if !result.is_success() {
                let mut message = "grep failed (exit ".to_owned();
                message.append(result.display_exit_code().as_str());
                message.append("): ");
                message.append(result.stderr.as_str());
                Err(Error::Message(message))
            } else {
                Ok(lines(result.stdout.as_str()))
            }
        },
    }
}

// ---------------------------------------------------------------------------
// Laws
// ---------------------------------------------------------------------------

/// The words of the command that deletes a file: its path is one word, whatever it holds, and
/// cannot be taken for an option.
pub proof fn deletion_names_one_file(path: Seq<char>)
    ensures
        shell_words("rm -f -- "@ + quoted(path)) == Some(seq!["rm"@, "-f"@, "--"@, path]),
{
    reveal_strlit("rm -f -- ");
    reveal_strlit("rm");
    reveal_strlit("-f");
    reveal_strlit("--");
    reveal_strlit(" ");
    reveal_with_fuel(spaced, 5);
    let parts = seq!["rm"@, "-f"@, "--"@, quoted(path)];
    assert("rm -f -- "@ + quoted(path) =~= spaced(parts)) by {
        assert(parts.drop_first() =~= seq!["-f"@, "--"@, quoted(path)]);
        assert(parts.drop_first().drop_first() =~= seq!["--"@, quoted(path)]);
        assert(parts.drop_first().drop_first().drop_first() =~= seq![quoted(path)]);
    }
    spelled_words_read_back(parts, seq!["rm"@, "-f"@, "--"@, path]);
}

/// A text as it is, or as it is written.
pub open spec fn in_form(text: Seq<char>, written: bool) -> Seq<char> {
    if written {
        quoted(text)
    } else {
        text
    }
}

/// The words that start the command of a search.
pub open spec fn program_words(use_rg: bool, options: GrepOptions) -> Seq<Seq<char>> {
    let program = if use_rg {
        seq!["rg"@, "--line-number"@, "--no-heading"@]
    } else {
        seq!["grep"@, "-rn"@]
    };
    if options.case_insensitive {
        program + seq!["-i"@]
    } else {
        program
    }
}

/// The words of the command of a search up to its pattern, as they are or as they are written.
pub open spec fn option_words(use_rg: bool, options: GrepOptions, written: bool) -> Seq<Seq<char>> {
    let filtered = match options.glob_filter {
        Some(filter) => program_words(use_rg, options) + seq![
            if use_rg {
                "--glob"@
            } else {
                "--include"@
            },
            in_form(filter@, written),
        ],
        None => program_words(use_rg, options),
    };
    match options.max_results {
        Some(max) => filtered + seq![
            if use_rg {
                "--max-count"@
            } else {
                "-m"@
            },
            decimal(max as nat),
        ],
        None => filtered,
    }
}

proof fn lemma_program_words(use_rg: bool, options: GrepOptions)
    ensures
        spelled(program_words(use_rg, options), program_words(use_rg, options)),
        spaced(program_words(use_rg, options)) == search_program(use_rg, options),
{
    reveal_strlit(" ");
    reveal_strlit("-i");
    reveal_strlit(" -i");
    reveal_with_fuel(spaced, 4);
    let program = if use_rg {
        seq!["rg"@, "--line-number"@, "--no-heading"@]
    } else {
        seq!["grep"@, "-rn"@]
    };
    if use_rg {
        reveal_strlit("rg");
        reveal_strlit("--line-number");
        reveal_strlit("--no-heading");
        reveal_strlit("rg --line-number --no-heading");
        assert(program.drop_first() =~= seq!["--line-number"@, "--no-heading"@]);
        assert(program.drop_first().drop_first() =~= seq!["--no-heading"@]);
        assert(spaced(program) =~= "rg --line-number --no-heading"@);
    } else {
        reveal_strlit("grep");
        reveal_strlit("-rn");
        reveal_strlit("grep -rn");
        two_spelled_words("grep"@, "grep"@, "-rn"@, "-rn"@);
        assert(spaced(program) =~= "grep -rn"@);
    }
    assert(spelled(program, program));
    if options.case_insensitive {
        assert(" -i"@ =~= " "@ + "-i"@);
        word_joins_the_line(program, program, spaced(program), "-i"@, " -i"@, "-i"@);
    }
}

proof fn lemma_option_words(use_rg: bool, options: GrepOptions)
    ensures
        spelled(option_words(use_rg, options, true), option_words(use_rg, options, false)),
        spaced(option_words(use_rg, options, true)) == limited_search(use_rg, options),
{
    lemma_program_words(use_rg, options);
    reveal_strlit(" ");
    let program = program_words(use_rg, options);
    let glob = if use_rg {
        "--glob"@
    } else {
        "--include"@
    };
    let glob_text = if use_rg {
        " --glob "@
    } else {
        " --include "@
    };
    reveal_strlit("--glob");
    reveal_strlit("--include");
    reveal_strlit(" --glob ");
    reveal_strlit(" --include ");
    assert(glob_text =~= " "@ + glob + " "@);
    let filtered = match options.glob_filter {
        Some(filter) => program + seq![glob, quoted(filter@)],
        None => program,
    };
    let filtered_words = match options.glob_filter {
        Some(filter) => program + seq![glob, filter@],
        None => program,
    };
    if let Some(filter) = options.glob_filter {
        option_joins_the_line(
            program,
            program,
            search_program(use_rg, options),
            glob,
            glob_text,
            quoted(filter@),
            filter@,
        );
    }
    assert(spaced(filtered) == filtered_search(use_rg, options));
    if let Some(max) = options.max_results {
        let limit = if use_rg {
            "--max-count"@
        } else {
            "-m"@
        };
        let limit_text = if use_rg {
            " --max-count "@
        } else {
            " -m "@
        };
        reveal_strlit("--max-count");
        reveal_strlit("-m");
        reveal_strlit(" --max-count ");
        reveal_strlit(" -m ");
        assert(limit_text =~= " "@ + limit + " "@);
        crate::decimal::numeral_reads_back(max as nat);
        option_joins_the_line(
            filtered,
            filtered_words,
            filtered_search(use_rg, options),
            limit,
            limit_text,
            decimal(max as nat),
            decimal(max as nat),
        );
    }
}

/// A search is handed its filter, its pattern and its path as one word each, whatever they hold;
/// the pattern and the path come after `--` and cannot be taken for options.
pub proof fn search_keeps_its_words_apart(
    use_rg: bool,
    pattern: Seq<char>,
    path: Seq<char>,
    options: GrepOptions,
)
    ensures
        shell_words(search_command(use_rg, pattern, path, options)) == Some(
            option_words(use_rg, options, false) + seq!["--"@, pattern, path],
        ),
{
    let parts = option_words(use_rg, options, true);
    let words = option_words(use_rg, options, false);
    let text = limited_search(use_rg, options);
    lemma_option_words(use_rg, options);
    reveal_strlit("--");
    reveal_strlit(" -- ");
    reveal_strlit(" ");
    assert(" -- "@ =~= " "@ + "--"@ + " "@);
    option_joins_the_line(parts, words, text, "--"@, " -- "@, quoted(pattern), pattern);
    let more = parts + seq!["--"@, quoted(pattern)];
    let more_words = words + seq!["--"@, pattern];
    word_joins_the_line(
        more,
        more_words,
        text + " -- "@ + quoted(pattern),
        quoted(path),
        " "@ + quoted(path),
        path,
    );
    assert(text + " -- "@ + quoted(pattern) + (" "@ + quoted(path)) =~= search_command(
        use_rg,
        pattern,
        path,
        options,
    ));
    spelled_words_read_back(more + seq![quoted(path)], more_words + seq![path]);
    assert(more_words + seq![path] =~= words + seq!["--"@, pattern, path]);
}

} // verus!
