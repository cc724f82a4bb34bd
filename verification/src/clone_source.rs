//! Where a sandbox's repository comes from: GitHub origins, exact revisions, and the git
//! commands that fetch them.

use vstd::prelude::*;

use crate::decimal::{decimal, push_u64};
use crate::error::{Error, ErrorView};
use crate::shell::{
    option_joins_the_line, quoted, shell_quote, shell_words, spaced, spelled, spelled_words_read_back,
    word_joins_the_line,
};
use crate::text::{
    blank, chars_of, ends_with, eq_ignore_ascii_case, is_blank, opt_text, run_before,
    same_but_for_case, same_text, split_once, string_of, strip_prefix, strip_suffix, trim, trimmed,
};

verus! {

/// How git is called: never with housekeeping in the background.
pub const GIT: &'static str = "git -c maintenance.auto=0 -c gc.auto=0";

/// The commit that was fetched last, with a tag peeled off.
pub const FETCH_HEAD_COMMIT: &'static str = "FETCH_HEAD^{commit}";

// ---------------------------------------------------------------------------
// Origins
// ---------------------------------------------------------------------------

/// What follows the last `c` of `s`, or `s` where it has none.
pub open spec fn after_last(s: Seq<char>, c: char) -> Seq<char>
    decreases s.len(),
{
    if s.len() == 0 || s.last() == c {
        seq![]
    } else {
        after_last(s.drop_last(), c).push(s.last())
    }
}

/// What follows the last `c` has no `c`, ends the text, and is all of it where there is no `c`.
proof fn lemma_after_last(s: Seq<char>, c: char)
    ensures
        !after_last(s, c).contains(c),
        after_last(s, c).len() <= s.len(),
        !s.contains(c) ==> after_last(s, c) == s,
    decreases s.len(),
{
    if s.len() > 0 && s.last() != c {
        lemma_after_last(s.drop_last(), c);
        let front = after_last(s.drop_last(), c);
        assert forall|i: int| 0 <= i < front.push(s.last()).len() implies front.push(s.last())[i]
            != c by {
            if i < front.len() {
                assert(front.contains(front[i]));
            }
        }
        if !s.contains(c) {
            assert forall|i: int| 0 <= i < s.drop_last().len() implies s.drop_last()[i] != c by {
                assert(s.contains(s[i]));
            }
            assert(s =~= s.drop_last().push(s.last()));
        }
    } else if s.len() > 0 {
        assert(s.contains(s.last()));
    }
}

/// A text without `c` has nothing to leave out before it.
pub proof fn nothing_stands_before_a_missing_sign(s: Seq<char>, c: char)
    requires
        !s.contains(c),
    ensures
        after_last(s, c) == s,
{
    lemma_after_last(s, c);
}

fn tail_after_last(s: &str, c: char) -> (r: String)
    ensures
        r@ == after_last(s@, c),
{
    let chars = chars_of(s);
    let mut i: usize = chars.len();
    proof {
        assert(chars@.take(i as int) =~= s@);
        assert(chars@.subrange(i as int, chars@.len() as int) =~= seq![]);
        assert(after_last(s@, c) =~= after_last(chars@.take(i as int), c) + chars@.subrange(
            i as int,
            chars@.len() as int,
        ));
    }
    while i > 0 && chars[i - 1] != c
        invariant
            i <= chars@.len(),
            after_last(s@, c) == after_last(chars@.take(i as int), c) + chars@.subrange(
                i as int,
                chars@.len() as int,
            ),
        decreases i,
    {
        proof {
            let front = chars@.take(i as int);
            assert(front.drop_last() =~= chars@.take(i - 1));
            assert(after_last(front.drop_last(), c).push(front.last()) + chars@.subrange(
                i as int,
                chars@.len() as int,
            ) =~= after_last(front.drop_last(), c) + chars@.subrange(i - 1, chars@.len() as int));
        }
        i = i - 1;
    }
    proof {
        let rest = chars@.subrange(i as int, chars@.len() as int);
        assert(Seq::<char>::empty() + rest =~= rest);
    }
    string_of(&chars, i, chars.len())
}

/// The host that an `https` text names, without the user information before it.
pub open spec fn https_host(rest: Seq<char>) -> Seq<char> {
    after_last(rest.take(run_before(rest, '/') as int), '@')
}

/// What an origin names below `github.com`: it is written as `https://`, with user information
/// or without, as `ssh://git@`, or as `git@github.com:`.
pub open spec fn github_tail(origin: Seq<char>) -> Option<Seq<char>> {
    if "git@github.com:"@.is_prefix_of(origin) {
        Some(origin.skip("git@github.com:"@.len() as int))
    } else if "ssh://git@github.com/"@.is_prefix_of(origin) {
        Some(origin.skip("ssh://git@github.com/"@.len() as int))
    } else if "https://"@.is_prefix_of(origin) {
        let rest = origin.skip("https://"@.len() as int);
        let n = run_before(rest, '/');
        if n < rest.len() && https_host(rest) == "github.com"@ {
            Some(rest.skip(n as int + 1))
        } else {
            None
        }
    } else {
        None
    }
}

/// Whether `s` can name an owner or a repository.
pub open spec fn is_name(s: Seq<char>) -> bool {
    &&& s.len() > 0
    &&& forall|i: int| 0 <= i < s.len() ==> is_name_char(#[trigger] s[i])
    &&& s != "."@
    &&& s != ".."@
}

/// Whether `s` can name a repository: `.git` at its end is no part of a name.
pub open spec fn is_repo_name(s: Seq<char>) -> bool {
    is_name(s) && !".git"@.is_suffix_of(s)
}

/// The characters of names on GitHub.
pub open spec fn is_name_char(c: char) -> bool {
    'a' <= c <= 'z' || 'A' <= c <= 'Z' || '0' <= c <= '9' || c == '-' || c == '_' || c == '.'
}

/// `s` without `suffix` at its end, or `s` where it does not end with it.
pub open spec fn without_suffix(s: Seq<char>, suffix: Seq<char>) -> Seq<char> {
    if suffix.is_suffix_of(s) {
        s.take(s.len() - suffix.len())
    } else {
        s
    }
}

/// The owner and the repository that a GitHub origin names.
pub open spec fn github_repo(origin: Seq<char>) -> Option<(Seq<char>, Seq<char>)> {
    match github_tail(origin) {
        Some(tail) => {
            let names = without_suffix(without_suffix(tail, "/"@), ".git"@);
            let n = run_before(names, '/');
            if n < names.len() && is_name(names.take(n as int)) && is_repo_name(
                names.skip(n as int + 1),
            ) {
                Some((names.take(n as int), names.skip(n as int + 1)))
            } else {
                None
            }
        },
        None => None,
    }
}

/// A repository on GitHub.
#[derive(Debug)]
pub struct GitHubRepo {
    pub owner: String,
    pub repo: String,
}

fn name_char(c: char) -> (r: bool)
    ensures
        r == is_name_char(c),
{
    ('a' <= c && c <= 'z') || ('A' <= c && c <= 'Z') || ('0' <= c && c <= '9') || c == '-' || c == '_'
        || c == '.'
}

fn valid_name(s: &str) -> (r: bool)
    ensures
        r == is_name(s@),
{
    let chars = chars_of(s);
    let mut i: usize = 0;
    while i < chars.len()
        invariant
            i <= chars@.len(),
            chars@ == s@,
            forall|j: int| 0 <= j < i ==> is_name_char(#[trigger] chars@[j]),
        decreases chars@.len() - i,
    {
        if !name_char(chars[i]) {
            return false;
        }
        i = i + 1;
    }
    chars.len() > 0 && !same_text(s, ".") && !same_text(s, "..")
}

fn drop_suffix(s: String, suffix: &str) -> (r: String)
    ensures
        r@ == without_suffix(s@, suffix@),
{
    match strip_suffix(s.as_str(), suffix) {
        Some(rest) => {
            proof {
                assert(s@.subrange(s@.len() - suffix@.len(), s@.len() as int) =~= suffix@);
                assert(rest@ =~= s@.take(s@.len() - suffix@.len()));
            }
            rest
        },
        None => s,
    }
}

fn find_github_tail(origin: &str) -> (r: Option<String>)
    ensures
        opt_text(r) == github_tail(origin@),
{
    if let Some(tail) = strip_prefix(origin, "git@github.com:") {
        proof {
            assert(origin@.subrange(0, "git@github.com:"@.len() as int) =~= "git@github.com:"@);
            assert(tail@ =~= origin@.skip("git@github.com:"@.len() as int));
        }
        return Some(tail);
    }
    if let Some(tail) = strip_prefix(origin, "ssh://git@github.com/") {
        proof {
            assert(origin@.subrange(0, "ssh://git@github.com/"@.len() as int)
                =~= "ssh://git@github.com/"@);
            assert(tail@ =~= origin@.skip("ssh://git@github.com/"@.len() as int));
        }
        return Some(tail);
    }
    if let Some(rest) = strip_prefix(origin, "https://") {
        proof {
            assert(origin@.subrange(0, "https://"@.len() as int) =~= "https://"@);
            assert(rest@ =~= origin@.skip("https://"@.len() as int));
        }
        return match split_once(rest.as_str(), '/') {
            Some((authority, tail)) => if same_text(
                tail_after_last(authority.as_str(), '@').as_str(),
                "github.com",
            ) {
                Some(tail)
            } else {
                None
            },
            None => None,
        };
    }
    None
}

/// Reads a GitHub origin.
pub fn parse_github_origin(origin: &str) -> (r: Option<GitHubRepo>)
    ensures
        match r {
            Some(found) => github_repo(origin@) == Some((found.owner@, found.repo@)),
            None => github_repo(origin@) is None,
        },
{
    match find_github_tail(origin) {
        Some(tail) => {
            let names = drop_suffix(drop_suffix(tail, "/"), ".git");
            match split_once(names.as_str(), '/') {
                Some((owner, repo)) => if valid_name(owner.as_str()) && valid_name(repo.as_str())
                    && !ends_with(repo.as_str(), ".git") {
                    Some(GitHubRepo { owner, repo })
                } else {
                    None
                },
                None => None,
            }
        },
        None => None,
    }
}

/// The one way that a repository on GitHub is written.
pub open spec fn github_url(owner: Seq<char>, repo: Seq<char>) -> Seq<char> {
    "https://github.com/"@ + owner + "/"@ + repo
}

/// The normal form of a GitHub origin.
pub fn normalized_github_url(found: &GitHubRepo) -> (r: String)
    ensures
        r@ == github_url(found.owner@, found.repo@),
{
    let mut url = "https://github.com/".to_owned();
    url.append(found.owner.as_str());
    url.append("/");
    url.append(found.repo.as_str());
    url
}

/// An origin without user information: what stands before the last `@` of its authority is
/// left out. A text without `://` has no authority, and stays as it is.
pub open spec fn without_userinfo(origin: Seq<char>) -> Seq<char> {
    let n = run_before(origin, ':');
    let rest = origin.skip(n as int + 3);
    if "://"@.is_prefix_of(origin.skip(n as int)) {
        let k = run_before(rest, '/');
        origin.take(n as int) + "://"@ + after_last(rest.take(k as int), '@') + rest.skip(k as int)
    } else {
        origin
    }
}

/// How an origin is recorded: a repository on GitHub in its normal form, anything else
/// without user information.
pub open spec fn recorded_origin(origin: Seq<char>) -> Seq<char> {
    match github_repo(origin) {
        Some((owner, repo)) => github_url(owner, repo),
        None => without_userinfo(origin),
    }
}

fn drop_userinfo(origin: &str) -> (r: String)
    ensures
        r@ == without_userinfo(origin@),
{
    proof {
        reveal_strlit("://");
        crate::text::run_before_stops_at_the_first(origin@, ':');
    }
    let parts = split_once(origin, ':');
    match parts {
        Some((scheme, after)) => {
            let ghost n = run_before(origin@, ':');
            match strip_prefix(after.as_str(), "//") {
                Some(rest) => {
                    proof {
                        reveal_strlit("//");
                        assert(origin@.skip(n as int).subrange(0, 3) =~= "://"@) by {
                            assert(after@ == "//"@ + rest@);
                            assert(after@[0] == '/' && after@[1] == '/');
                            assert(after@ == origin@.skip(n as int + 1));
                            assert(origin@.len() == n + 1 + after@.len());
                            assert(origin@[n as int + 1] == origin@.skip(n as int + 1)[0]);
                            assert(origin@[n as int + 2] == origin@.skip(n as int + 1)[1]);
                        }
                        assert(rest@ =~= after@.skip(2));
                        assert(after@ == origin@.skip(n as int + 1));
                        assert(origin@.skip(n as int + 1).skip(2) =~= origin@.skip(n as int + 3));
                        crate::text::run_before_stops_at_the_first(rest@, '/');
                    }
                    let mut url = scheme;
                    url.append("://");
                    match split_once(rest.as_str(), '/') {
                        Some((authority, path)) => {
                            url.append(tail_after_last(authority.as_str(), '@').as_str());
                            url.append("/");
                            url.append(path.as_str());
                            proof {
                                reveal_strlit("/");
                                let k = run_before(rest@, '/');
                                assert("/"@ + path@ =~= rest@.skip(k as int));
                                assert(url@ =~= without_userinfo(origin@));
                            }
                        },
                        None => {
                            url.append(tail_after_last(rest.as_str(), '@').as_str());
                            proof {
                                let k = run_before(rest@, '/');
                                assert(rest@.take(k as int) =~= rest@);
                                assert(rest@.skip(k as int) =~= seq![]);
                                assert(url@ =~= without_userinfo(origin@));
                            }
                        },
                    }
                    url
                },
                None => {
                    proof {
                        reveal_strlit("//");
                        if "://"@.is_prefix_of(origin@.skip(n as int)) {
                            assert(origin@.skip(n as int).subrange(0, 3)[1] == '/');
                            assert(origin@.skip(n as int).subrange(0, 3)[2] == '/');
                            assert(after@.subrange(0, 2) =~= "//"@);
                        }
                    }
                    origin.to_owned()
                },
            }
        },
        None => {
            proof {
                assert(origin@.skip(origin@.len() as int) =~= seq![]);
            }
            origin.to_owned()
        },
    }
}

/// The origin to record for a sandbox.
pub fn clean_clone_origin_for_record(origin: Option<&str>) -> (r: Option<String>)
    ensures
        match origin {
            Some(o) => opt_text(r) == Some(recorded_origin(o@)),
            None => r is None,
        },
{
    match origin {
        Some(o) => match parse_github_origin(o) {
            Some(found) => Some(normalized_github_url(&found)),
            None => Some(drop_userinfo(o)),
        },
        None => None,
    }
}

/// Whether a repository is recorded as cloned: there is an origin, and cloning was not
/// switched off.
pub fn repo_cloned_for_record(skip_clone: bool, origin: Option<&str>) -> (r: Option<bool>)
    ensures
        r == Some(!skip_clone && origin is Some),
{
    Some(!skip_clone && origin.is_some())
}

/// Where a repository lies in a sandbox, and the link that leads to it.
#[derive(Debug)]
pub struct GitHubRepoLayout {
    pub primary_repo_path: String,
    pub primary_repo_link: String,
}

/// The error for an origin that names no repository on GitHub.
pub open spec fn not_github() -> ErrorView {
    ErrorView::Message("clone origin is not a GitHub repository"@)
}

/// The path of a repository below the root of all repositories.
pub open spec fn repo_path(root: Seq<char>, owner: Seq<char>, repo: Seq<char>) -> Seq<char> {
    root + "/"@ + owner + "/"@ + repo
}

/// The link to a repository in the workspace.
pub open spec fn repo_link(workspace: Seq<char>, repo: Seq<char>) -> Seq<char> {
    workspace + "/"@ + repo
}

/// The layout of a GitHub repository.
pub fn github_repo_layout(origin: &str, workspace_root: &str, repos_root: &str) -> (r: Result<
    GitHubRepoLayout,
    Error,
>)
    ensures
        match github_repo(origin@) {
            Some((owner, repo)) => {
                &&& r is Ok
                &&& r->Ok_0.primary_repo_path@ == repo_path(repos_root@, owner, repo)
                &&& r->Ok_0.primary_repo_link@ == repo_link(workspace_root@, repo)
            },
            None => r is Err && r->Err_0@ == not_github(),
        },
{
    match parse_github_origin(origin) {
        Some(found) => {
            let mut path = repos_root.to_owned();
            path.append("/");
            path.append(found.owner.as_str());
            path.append("/");
            path.append(found.repo.as_str());
            let mut link = workspace_root.to_owned();
            link.append("/");
            link.append(found.repo.as_str());
            Ok(GitHubRepoLayout { primary_repo_path: path, primary_repo_link: link })
        },
        None => Err(Error::message("clone origin is not a GitHub repository")),
    }
}

// ---------------------------------------------------------------------------
// Exact revisions
// ---------------------------------------------------------------------------

/// Whether `c` is a hexadecimal digit, in either case.
pub open spec fn is_hex(c: char) -> bool {
    '0' <= c <= '9' || 'a' <= c <= 'f' || 'A' <= c <= 'F'
}

/// Whether `s` is written as the full name of a commit.
pub open spec fn is_commit_name(s: Seq<char>) -> bool {
    s.len() == 40 && forall|i: int| 0 <= i < s.len() ==> is_hex(#[trigger] s[i])
}

fn commit_name(s: &str) -> (r: bool)
    ensures
        r == is_commit_name(s@),
{
    let chars = chars_of(s);
    if chars.len() != 40 {
        return false;
    }
    let mut i: usize = 0;
    while i < chars.len()
        invariant
            i <= chars@.len(),
            chars@ == s@,
            forall|j: int| 0 <= j < i ==> is_hex(#[trigger] chars@[j]),
        decreases chars@.len() - i,
    {
        let c = chars[i];
        if !(('0' <= c && c <= '9') || ('a' <= c && c <= 'f') || ('A' <= c && c <= 'F')) {
            return false;
        }
        i = i + 1;
    }
    true
}

/// An exact revision that a run must start from.
#[derive(Debug)]
pub enum PinnedRevision {
    Tag(String),
    Commit(String),
}

/// The model of a [`PinnedRevision`].
#[verifier::ext_equal]
pub ghost enum PinView {
    Tag(Seq<char>),
    Commit(Seq<char>),
}

impl View for PinnedRevision {
    type V = PinView;

    open spec fn view(&self) -> PinView {
        match *self {
            PinnedRevision::Tag(tag) => PinView::Tag(tag@),
            PinnedRevision::Commit(sha) => PinView::Commit(sha@),
        }
    }
}

impl PinView {
    /// What the revision is called in messages.
    pub open spec fn label(self) -> Seq<char> {
        match self {
            PinView::Tag(_) => "pinned tag"@,
            PinView::Commit(_) => "pinned commit"@,
        }
    }

    /// The name that the revision is fetched by.
    pub open spec fn refspec(self) -> Seq<char> {
        match self {
            PinView::Tag(tag) => "refs/tags/"@ + tag,
            PinView::Commit(sha) => sha,
        }
    }

    /// Whether a checkout whose `HEAD` was printed as `head` is the revision: a full commit
    /// name, and for a pinned commit that very one.
    pub open spec fn accepts_head(self, head: Seq<char>) -> bool {
        &&& is_commit_name(trimmed(head))
        &&& (self matches PinView::Commit(sha) ==> same_but_for_case(trimmed(head), sha))
    }
}

/// The revision that a tag and a commit select together: the commit, which is the more exact,
/// before the tag.
pub open spec fn selected_pin(tag: Option<Seq<char>>, commit: Option<Seq<char>>) -> Option<PinView> {
    match commit {
        Some(sha) => Some(PinView::Commit(sha)),
        None => match tag {
            Some(tag) => Some(PinView::Tag(tag)),
            None => None,
        },
    }
}

/// The model of a revision that may be absent.
pub open spec fn opt_pin(pin: Option<PinnedRevision>) -> Option<PinView> {
    match pin {
        Some(p) => Some(p@),
        None => None,
    }
}

impl PinnedRevision {
    /// The revision that a tag and a commit select.
    pub fn from_selectors(tag: Option<&str>, commit_sha: Option<&str>) -> (r: Option<PinnedRevision>)
        ensures
            opt_pin(r) == selected_pin(
                match tag {
                    Some(t) => Some(t@),
                    None => None,
                },
                match commit_sha {
                    Some(c) => Some(c@),
                    None => None,
                },
            ),
    {
        match commit_sha {
            Some(sha) => Some(PinnedRevision::Commit(sha.to_owned())),
            None => match tag {
                Some(tag) => Some(PinnedRevision::Tag(tag.to_owned())),
                None => None,
            },
        }
    }

    /// What the revision is called in messages.
    pub fn label(&self) -> (r: &'static str)
        ensures
            r@ == self@.label(),
    {
        match self {
            PinnedRevision::Tag(_) => "pinned tag",
            PinnedRevision::Commit(_) => "pinned commit",
        }
    }

    /// The name that the revision is fetched by.
    pub fn fetch_refspec(&self) -> (r: String)
        ensures
            r@ == self@.refspec(),
    {
        match self {
            PinnedRevision::Tag(tag) => {
                let mut name = "refs/tags/".to_owned();
                name.append(tag.as_str());
                name
            },
            PinnedRevision::Commit(sha) => sha.clone(),
        }
    }

    /// Checks what `git rev-parse HEAD` printed after the checkout.
    pub fn verify_head(&self, stdout: &str) -> (r: Result<(), Error>)
        ensures
            r is Ok <==> self@.accepts_head(stdout@),
            r is Err ==> r->Err_0@ == wrong_head(self@, trimmed(stdout@)),
    {
        let head = trim(stdout);
        let same = match self {
            PinnedRevision::Tag(_) => true,
            PinnedRevision::Commit(sha) => eq_ignore_ascii_case(head.as_str(), sha.as_str()),
        };
        if commit_name(head.as_str()) && same {
            Ok(())
        } else {
            let mut message = self.label().to_owned();
            message.append(" was checked out at '");
            message.append(head.as_str());
            message.append("'");
            Err(Error::Message(message))
        }
    }
}

/// The error for a checkout that is not the pinned revision.
pub open spec fn wrong_head(pin: PinView, head: Seq<char>) -> ErrorView {
    ErrorView::Message(pin.label() + " was checked out at '"@ + head + "'"@)
}

/// The error for a pinned revision without the branch that it is checked out on.
pub open spec fn branch_missing(pin: PinView) -> ErrorView {
    ErrorView::Message(pin.label() + " requires a repository branch"@)
}

/// [`branch_missing`].
pub fn missing_branch_error(pin: &PinnedRevision) -> (r: Error)
    ensures
        r@ == branch_missing(pin@),
{
    let mut message = pin.label().to_owned();
    message.append(" requires a repository branch");
    Error::Message(message)
}

// ---------------------------------------------------------------------------
// The decision
// ---------------------------------------------------------------------------

/// Why a workspace starts empty.
#[derive(Clone, Copy, Debug, PartialEq, Eq, Structural)]
pub enum EmptyWorkspaceReason {
    CloneDisabled,
    NoOrigin,
}

impl EmptyWorkspaceReason {
    /// The reason for a message.
    pub fn message(&self) -> (r: &'static str)
        ensures
            *self == EmptyWorkspaceReason::CloneDisabled ==> r@ == "cloning is disabled"@,
            *self == EmptyWorkspaceReason::NoOrigin ==> r@ == "no clone origin is configured"@,
    {
        match self {
            EmptyWorkspaceReason::CloneDisabled => "cloning is disabled",
            EmptyWorkspaceReason::NoOrigin => "no clone origin is configured",
        }
    }
}

/// What a sandbox starts with.
#[derive(Debug)]
pub enum CloneDecision {
    EmptyWorkspace { reason: EmptyWorkspaceReason },
    GitHub {
        origin_url: String,
        branch: Option<String>,
        tag: Option<String>,
        commit_sha: Option<String>,
    },
}

/// Whether a branch is named: one that is blank is not.
pub open spec fn branch_named(branch: Option<Seq<char>>) -> bool {
    branch matches Some(b) && !is_blank(b)
}

/// The error of a pair of selectors, where they are wrong: a commit must be named in full, and
/// an exact revision needs a branch to be checked out on.
pub open spec fn selector_error(
    branch: Option<Seq<char>>,
    tag: Option<Seq<char>>,
    commit: Option<Seq<char>>,
) -> Option<ErrorView> {
    match selected_pin(tag, commit) {
        Some(PinView::Commit(sha)) if !is_commit_name(sha) => Some(
            ErrorView::Message("clone commit must be exactly 40 ASCII hexadecimal characters"@),
        ),
        Some(pin) if !branch_named(branch) => Some(branch_missing(pin)),
        _ => None,
    }
}

/// The texts of strings that may be absent.
pub open spec fn opt_str(s: Option<&str>) -> Option<Seq<char>> {
    match s {
        Some(t) => Some(t@),
        None => None,
    }
}

fn owned(s: Option<&str>) -> (r: Option<String>)
    ensures
        opt_text(r) == opt_str(s),
{
    match s {
        Some(t) => Some(t.to_owned()),
        None => None,
    }
}

/// Checks the selectors of an exact revision.
pub fn check_selectors(branch: Option<&str>, tag: Option<&str>, commit_sha: Option<&str>) -> (r: Result<
    (),
    Error,
>)
    ensures
        match selector_error(opt_str(branch), opt_str(tag), opt_str(commit_sha)) {
            Some(e) => r is Err && r->Err_0@ == e,
            None => r is Ok,
        },
{
    let pin = match PinnedRevision::from_selectors(tag, commit_sha) {
        Some(pin) => pin,
        None => return Ok(()),
    };
    if let PinnedRevision::Commit(sha) = &pin {
        if !commit_name(sha.as_str()) {
            return Err(
                Error::message("clone commit must be exactly 40 ASCII hexadecimal characters"),
            );
        }
    }
    let named = match branch {
        Some(b) => !blank(b),
        None => false,
    };
    if named {
        Ok(())
    } else {
        Err(missing_branch_error(&pin))
    }
}

/// Decides what a sandbox starts with. Without an origin, and with cloning switched off, it
/// starts empty, whatever else is asked. An origin must be on GitHub, and the selectors of an
/// exact revision must be right.
pub fn decide_clone(
    skip_clone: bool,
    origin: Option<&str>,
    branch: Option<&str>,
    tag: Option<&str>,
    commit_sha: Option<&str>,
) -> (r: Result<CloneDecision, Error>)
    ensures
        if skip_clone {
            r == Ok::<CloneDecision, Error>(
                CloneDecision::EmptyWorkspace { reason: EmptyWorkspaceReason::CloneDisabled },
            )
        } else {
            match origin {
                None => r == Ok::<CloneDecision, Error>(
                    CloneDecision::EmptyWorkspace { reason: EmptyWorkspaceReason::NoOrigin },
                ),
                Some(o) => match github_repo(o@) {
                    None => r is Err && r->Err_0@ == not_github(),
                    Some((owner, repo)) => match selector_error(
                        opt_str(branch),
                        opt_str(tag),
                        opt_str(commit_sha),
                    ) {
                        Some(e) => r is Err && r->Err_0@ == e,
                        None => r matches Ok(CloneDecision::GitHub {
                            origin_url,
                            branch: b,
                            tag: t,
                            commit_sha: c,
                        }) && origin_url@ == github_url(owner, repo) && opt_text(b) == opt_str(branch)
                            && opt_text(t) == opt_str(tag) && opt_text(c) == opt_str(commit_sha),
                    },
                },
            }
        },
{
    if skip_clone {
        return Ok(CloneDecision::EmptyWorkspace { reason: EmptyWorkspaceReason::CloneDisabled });
    }
    let o = match origin {
        Some(o) => o,
        None => return Ok(
            CloneDecision::EmptyWorkspace { reason: EmptyWorkspaceReason::NoOrigin },
        ),
    };
    let found = match parse_github_origin(o) {
        Some(found) => found,
        None => return Err(Error::message("clone origin is not a GitHub repository")),
    };
    match check_selectors(branch, tag, commit_sha) {
        Ok(()) => Ok(
            CloneDecision::GitHub {
                origin_url: normalized_github_url(&found),
                branch: owned(branch),
                tag: owned(tag),
                commit_sha: owned(commit_sha),
            },
        ),
        Err(e) => Err(e),
    }
}

// ---------------------------------------------------------------------------
// Commands
// ---------------------------------------------------------------------------

/// Makes an empty repository at a path, with the clone URL as its `origin`.
pub open spec fn init_command(clone_url: Seq<char>, path: Seq<char>) -> Seq<char> {
    GIT@ + " init "@ + quoted(path) + " && "@ + GIT@ + " -C "@ + quoted(path)
        + " remote add origin "@ + quoted(clone_url)
}

/// [`init_command`].
pub fn exact_repository_init_command(clone_url: &str, checkout_path: &str) -> (r: String)
    ensures
        r@ == init_command(clone_url@, checkout_path@),
{
    let mut command = GIT.to_owned();
    command.append(" init ");
    command.append(shell_quote(checkout_path).as_str());
    command.append(" && ");
    command.append(GIT);
    command.append(" -C ");
    command.append(shell_quote(checkout_path).as_str());
    command.append(" remote add origin ");
    command.append(shell_quote(clone_url).as_str());
    command
}

/// Fetches one revision from a remote, with all of its history or with as much as asked.
pub open spec fn fetch_command(
    path: Seq<char>,
    remote: Seq<char>,
    refspec: Seq<char>,
    depth: Option<usize>,
) -> Seq<char> {
    let start = GIT@ + " -C "@ + quoted(path) + " fetch"@;
    let limited = match depth {
        Some(n) => start + " --depth "@ + decimal(n as nat),
        None => start,
    };
    limited + " --no-tags -- "@ + quoted(remote) + " "@ + quoted(refspec)
}

/// [`fetch_command`].
pub fn pinned_fetch_command(
    checkout_path: &str,
    remote: &str,
    refspec: &str,
    depth: Option<usize>,
) -> (r: String)
    ensures
        r@ == fetch_command(checkout_path@, remote@, refspec@, depth),
{
    let mut command = GIT.to_owned();
    command.append(" -C ");
    command.append(shell_quote(checkout_path).as_str());
    command.append(" fetch");
    if let Some(n) = depth {
        command.append(" --depth ");
        push_u64(&mut command, n as u64);
    }
    command.append(" --no-tags -- ");
    command.append(shell_quote(remote).as_str());
    command.append(" ");
    command.append(shell_quote(refspec).as_str());
    command
}

/// Puts a branch on a revision, checks it out, and prints the commit it is at.
pub open spec fn checkout_command(path: Seq<char>, branch: Seq<char>, revision: Seq<char>) -> Seq<
    char,
> {
    GIT@ + " -C "@ + quoted(path) + " checkout -B "@ + quoted(branch) + " "@ + quoted(revision)
        + " && "@ + GIT@ + " -C "@ + quoted(path) + " rev-parse HEAD"@
}

/// [`checkout_command`].
pub fn exact_checkout_verify_command(checkout_path: &str, branch: &str, revision: &str) -> (r: String)
    ensures
        r@ == checkout_command(checkout_path@, branch@, revision@),
{
    let mut command = GIT.to_owned();
    command.append(" -C ");
    command.append(shell_quote(checkout_path).as_str());
    command.append(" checkout -B ");
    command.append(shell_quote(branch).as_str());
    command.append(" ");
    command.append(shell_quote(revision).as_str());
    command.append(" && ");
    command.append(GIT);
    command.append(" -C ");
    command.append(shell_quote(checkout_path).as_str());
    command.append(" rev-parse HEAD");
    command
}

// ---------------------------------------------------------------------------
// Laws
// ---------------------------------------------------------------------------

/// The authority of a URL: what stands between `://` and the next slash. Empty for a text
/// without `://`.
pub open spec fn authority(url: Seq<char>) -> Seq<char> {
    let n = run_before(url, ':');
    if "://"@.is_prefix_of(url.skip(n as int)) {
        let rest = url.skip(n as int + 3);
        rest.take(run_before(rest, '/') as int)
    } else {
        seq![]
    }
}

proof fn lemma_after_last_within(s: Seq<char>, c: char, d: char)
    requires
        !s.contains(d),
    ensures
        !after_last(s, c).contains(d),
    decreases s.len(),
{
    if s.len() > 0 && s.last() != c {
        assert forall|i: int| 0 <= i < s.drop_last().len() implies s.drop_last()[i] != d by {
            assert(s.contains(s[i]));
        }
        lemma_after_last_within(s.drop_last(), c, d);
        let front = after_last(s.drop_last(), c);
        assert(s.contains(s.last()));
        assert forall|i: int| 0 <= i < front.push(s.last()).len() implies front.push(s.last())[i]
            != d by {
            if i < front.len() {
                assert(front.contains(front[i]));
            }
        }
    }
}

/// The parts of a URL put together are found again.
proof fn lemma_authority_of(scheme: Seq<char>, host: Seq<char>, path: Seq<char>)
    requires
        !scheme.contains(':'),
        !host.contains('/'),
        path.len() > 0 ==> path[0] == '/',
    ensures
        authority(scheme + "://"@ + host + path) == host,
        run_before(scheme + "://"@ + host + path, ':') == scheme.len(),
{
    reveal_strlit("://");
    let url = scheme + "://"@ + host + path;
    let n = scheme.len();
    assert forall|i: int| 0 <= i < n implies #[trigger] url[i] != ':' by {
        assert(url[i] == scheme[i]);
        assert(scheme.contains(scheme[i]));
    }
    assert(url[n as int] == ':');
    crate::text::run_before_is(url, ':', n);
    assert(url.skip(n as int).subrange(0, 3) =~= "://"@);
    let rest = url.skip(n as int + 3);
    assert(rest =~= host + path);
    assert forall|i: int| 0 <= i < host.len() implies #[trigger] rest[i] != '/' by {
        assert(host.contains(host[i]));
    }
    crate::text::run_before_is(rest, '/', host.len());
    assert(rest.take(host.len() as int) =~= host);
}

/// No credentials are ever recorded: the authority of a recorded origin has no user
/// information, whatever the origin carried.
pub proof fn recorded_origin_has_no_credentials(origin: Seq<char>)
    ensures
        !authority(recorded_origin(origin)).contains('@'),
{
    reveal_strlit("://");
    match github_repo(origin) {
        Some((owner, repo)) => {
            reveal_strlit("https://github.com/");
            reveal_strlit("https");
            reveal_strlit("github.com");
            reveal_strlit("/");
            let path = "/"@ + owner + "/"@ + repo;
            assert(github_url(owner, repo) =~= "https"@ + "://"@ + "github.com"@ + path);
            assert(path[0] == '/');
            lemma_authority_of("https"@, "github.com"@, path);
        },
        None => {
            let n = run_before(origin, ':');
            crate::text::run_before_stops_at_the_first(origin, ':');
            if "://"@.is_prefix_of(origin.skip(n as int)) {
                let rest = origin.skip(n as int + 3);
                let k = run_before(rest, '/');
                crate::text::run_before_stops_at_the_first(rest, '/');
                let scheme = origin.take(n as int);
                let host = after_last(rest.take(k as int), '@');
                let path = rest.skip(k as int);
                assert(!rest.take(k as int).contains('/'));
                lemma_after_last_within(rest.take(k as int), '@', '/');
                lemma_after_last(rest.take(k as int), '@');
                assert(!scheme.contains(':'));
                lemma_authority_of(scheme, host, path);
            }
        },
    }
}

/// The normal form of a GitHub origin names the same repository: normalizing once is enough.
pub proof fn normal_form_names_the_same_repository(origin: Seq<char>)
    requires
        github_repo(origin) is Some,
    ensures
        ({
            let (owner, repo) = github_repo(origin)->Some_0;
            github_repo(github_url(owner, repo)) == Some((owner, repo))
        }),
{
    let (owner, repo) = github_repo(origin)->Some_0;
    let url = github_url(owner, repo);
    reveal_strlit("https://github.com/");
    reveal_strlit("https://");
    reveal_strlit("github.com");
    reveal_strlit("/");
    reveal_strlit(".git");
    reveal_strlit("git@github.com:");
    reveal_strlit("ssh://git@github.com/");
    assert(url[0] == 'h');
    if "git@github.com:"@.is_prefix_of(url) {
        assert(url.subrange(0, "git@github.com:"@.len() as int)[0] == 'g');
    }
    if "ssh://git@github.com/"@.is_prefix_of(url) {
        assert(url.subrange(0, "ssh://git@github.com/"@.len() as int)[0] == 's');
    }
    assert(url.subrange(0, 8) =~= "https://"@);
    let rest = url.skip(8);
    let tail = owner + "/"@ + repo;
    assert(rest =~= "github.com"@ + "/"@ + tail);
    assert(rest[10] == '/');
    crate::text::run_before_is(rest, '/', 10);
    assert(rest.take(10) =~= "github.com"@);
    lemma_after_last("github.com"@, '@');
    assert(rest.skip(11) =~= tail);
    assert(github_tail(url) == Some(tail));
    assert(tail.last() == repo.last());
    assert(is_name_char(repo[repo.len() - 1]));
    if "/"@.is_suffix_of(tail) {
        assert(tail.subrange(tail.len() - 1, tail.len() as int)[0] == '/');
    }
    assert(without_suffix(tail, "/"@) == tail);
    if ".git"@.is_suffix_of(tail) {
        let end = tail.subrange(tail.len() - 4, tail.len() as int);
        assert(end == ".git"@);
        if repo.len() >= 4 {
            assert(repo.subrange(repo.len() - 4, repo.len() as int) =~= end);
        } else {
            let i = 3 - repo.len();
            assert(end[i] == tail[owner.len() as int]);
            assert(tail[owner.len() as int] == '/');
        }
    }
    assert(without_suffix(tail, ".git"@) == tail);
    assert forall|i: int| 0 <= i < owner.len() implies #[trigger] tail[i] != '/' by {
        assert(is_name_char(owner[i]));
    }
    crate::text::run_before_is(tail, '/', owner.len());
    assert(tail.take(owner.len() as int) =~= owner);
    assert(tail.skip(owner.len() as int + 1) =~= repo);
}

/// The words that every git command starts with.
pub open spec fn git_words() -> Seq<Seq<char>> {
    seq!["git"@, "-c"@, "maintenance.auto=0"@, "-c"@, "gc.auto=0"@]
}

/// They are read as they are written.
pub proof fn git_words_read_back()
    ensures
        spelled(git_words(), git_words()),
        spaced(git_words()) == GIT@,
{
    reveal_strlit("git -c maintenance.auto=0 -c gc.auto=0");
    reveal_strlit("git");
    reveal_strlit("-c");
    reveal_strlit("maintenance.auto=0");
    reveal_strlit("gc.auto=0");
    reveal_strlit(" ");
    let one = seq!["git"@];
    assert(spelled(one, one) && spaced(one) == "git"@);
    let lit = " "@ + "-c"@ + " "@;
    option_joins_the_line(
        one,
        one,
        "git"@,
        "-c"@,
        lit,
        "maintenance.auto=0"@,
        "maintenance.auto=0"@,
    );
    let three = one + seq!["-c"@, "maintenance.auto=0"@];
    let text = "git"@ + lit + "maintenance.auto=0"@;
    option_joins_the_line(three, three, text, "-c"@, lit, "gc.auto=0"@, "gc.auto=0"@);
    assert(three + seq!["-c"@, "gc.auto=0"@] =~= git_words());
    assert(text + lit + "gc.auto=0"@ =~= GIT@);
}

/// A fetch is handed its directory, its remote and its revision as one word each, whatever they
/// hold; the remote and the revision come after `--` and cannot be taken for options.
pub proof fn fetch_keeps_its_words_apart(
    path: Seq<char>,
    remote: Seq<char>,
    refspec: Seq<char>,
    depth: Option<usize>,
)
    ensures
        shell_words(fetch_command(path, remote, refspec, depth)) == Some(
            git_words() + seq!["-C"@, path, "fetch"@] + (match depth {
                Some(n) => seq!["--depth"@, decimal(n as nat)],
                None => seq![],
            }) + seq!["--no-tags"@, "--"@, remote, refspec],
        ),
{
    git_words_read_back();
    reveal_strlit(" ");
    reveal_strlit("-C");
    reveal_strlit(" -C ");
    reveal_strlit("fetch");
    reveal_strlit(" fetch");
    reveal_strlit("--depth");
    reveal_strlit(" --depth ");
    assert(" -C "@ =~= " "@ + "-C"@ + " "@);
    option_joins_the_line(git_words(), git_words(), GIT@, "-C"@, " -C "@, quoted(path), path);
    let p1 = git_words() + seq!["-C"@, quoted(path)];
    let w1 = git_words() + seq!["-C"@, path];
    let t1 = GIT@ + " -C "@ + quoted(path);
    assert(" fetch"@ =~= " "@ + "fetch"@);
    word_joins_the_line(p1, w1, t1, "fetch"@, " fetch"@, "fetch"@);
    let p2 = p1 + seq!["fetch"@];
    let w2 = w1 + seq!["fetch"@];
    let t2 = t1 + " fetch"@;
    let n = match depth {
        Some(n) => n as nat,
        None => 0,
    };
    crate::decimal::numeral_reads_back(n);
    assert(" --depth "@ =~= " "@ + "--depth"@ + " "@);
    option_joins_the_line(p2, w2, t2, "--depth"@, " --depth "@, decimal(n), decimal(n));
    let (p3, w3, t3) = match depth {
        Some(_) => (
            p2 + seq!["--depth"@, decimal(n)],
            w2 + seq!["--depth"@, decimal(n)],
            t2 + " --depth "@ + decimal(n),
        ),
        None => (p2, w2, t2),
    };
    lemma_two_operands(p3, w3, t3, remote, refspec);
    assert(w3 + seq!["--no-tags"@, "--"@, remote, refspec] =~= git_words() + seq![
        "-C"@,
        path,
        "fetch"@,
    ] + (match depth {
        Some(n) => seq!["--depth"@, decimal(n as nat)],
        None => seq![],
    }) + seq!["--no-tags"@, "--"@, remote, refspec]);
}

/// What fetches and clones end with.
pub(crate) proof fn lemma_two_operands(
    parts: Seq<Seq<char>>,
    words: Seq<Seq<char>>,
    text: Seq<char>,
    first: Seq<char>,
    second: Seq<char>,
)
    requires
        spelled(parts, words),
        spaced(parts) == text,
    ensures
        shell_words(text + " --no-tags -- "@ + quoted(first) + " "@ + quoted(second)) == Some(
            words + seq!["--no-tags"@, "--"@, first, second],
        ),
{
    reveal_strlit(" ");
    reveal_strlit("--no-tags");
    reveal_strlit("--");
    reveal_strlit(" --no-tags -- ");
    let no_tags = " "@ + "--no-tags"@;
    word_joins_the_line(parts, words, text, "--no-tags"@, no_tags, "--no-tags"@);
    let p1 = parts + seq!["--no-tags"@];
    let w1 = words + seq!["--no-tags"@];
    let t1 = text + no_tags;
    let dashes = " "@ + "--"@ + " "@;
    option_joins_the_line(p1, w1, t1, "--"@, dashes, quoted(first), first);
    let p2 = p1 + seq!["--"@, quoted(first)];
    let w2 = w1 + seq!["--"@, first];
    let t2 = t1 + dashes + quoted(first);
    word_joins_the_line(p2, w2, t2, quoted(second), " "@ + quoted(second), second);
    spelled_words_read_back(p2 + seq![quoted(second)], w2 + seq![second]);
    assert(no_tags + dashes =~= " --no-tags -- "@);
    assert(t2 + (" "@ + quoted(second)) =~= text + " --no-tags -- "@ + quoted(first) + " "@ + quoted(
        second,
    ));
    assert(w2 + seq![second] =~= words + seq!["--no-tags"@, "--"@, first, second]);
}

} // verus!
