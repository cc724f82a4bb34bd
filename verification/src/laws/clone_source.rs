//! Where a repository comes from.

use vstd::prelude::*;

use crate::clone_source::{
    after_last, github_repo, github_tail, github_url, is_commit_name, is_name, is_repo_name,
    recorded_origin, repo_link, repo_path, selected_pin, selector_error, without_suffix,
    without_userinfo, PinView,
};
use crate::error::ErrorView;
use crate::text::{is_blank, run_before, run_before_is, run_before_stops_at_the_first};

verus! {

/// What can name an owner, and what can name a repository: letters, digits, `-`, `_` and `.`, but
/// neither of the two names that lead elsewhere; a repository's name does not end with `.git`.
pub proof fn names_are_these(s: Seq<char>)
    ensures
        is_name(s) <==> {
            &&& s.len() > 0
            &&& s != "."@
            &&& s != ".."@
            &&& forall|i: int|
                0 <= i < s.len() ==> {
                    let c = #[trigger] s[i];
                    ||| 'a' <= c <= 'z'
                    ||| 'A' <= c <= 'Z'
                    ||| '0' <= c <= '9'
                    ||| c == '-'
                    ||| c == '_'
                    ||| c == '.'
                }
        },
        is_repo_name(s) <==> is_name(s) && !".git"@.is_suffix_of(s),
{
}

/// A slash and `.git` at the end of an origin are no part of the names.
proof fn lemma_names(owner: Seq<char>, repo: Seq<char>, end: Seq<char>)
    requires
        is_name(owner),
        is_repo_name(repo),
        end == ""@ || end == "/"@ || end == ".git"@ || end == ".git/"@,
    ensures
        ({
            let names = owner + "/"@ + repo;
            without_suffix(without_suffix(names + end, "/"@), ".git"@) == names
        }),
        ({
            let names = owner + "/"@ + repo;
            &&& run_before(names, '/') == owner.len()
            &&& names.take(owner.len() as int) == owner
            &&& names.skip(owner.len() as int + 1) == repo
        }),
{
    reveal_strlit("");
    reveal_strlit("/");
    reveal_strlit(".git");
    reveal_strlit(".git/");
    let names = owner + "/"@ + repo;
    let tail = names + end;
    assert(names.last() == repo.last());
    assert(crate::clone_source::is_name_char(repo[repo.len() - 1]));
    let inner = if end == ".git"@ || end == ".git/"@ {
        names + ".git"@
    } else {
        names
    };
    if end == "/"@ || end == ".git/"@ {
        assert(tail.subrange(tail.len() - 1, tail.len() as int) =~= "/"@);
        assert(tail.take(tail.len() - 1) =~= inner);
    } else {
        assert(tail =~= inner);
        if "/"@.is_suffix_of(tail) {
            assert(tail.subrange(tail.len() - 1, tail.len() as int)[0] == '/');
            if end == ".git"@ {
                assert(tail.last() == 't');
            }
        }
    }
    assert(without_suffix(tail, "/"@) == inner);
    if end == ".git"@ || end == ".git/"@ {
        assert(inner.subrange(inner.len() - 4, inner.len() as int) =~= ".git"@);
        assert(inner.take(inner.len() - 4) =~= names);
    } else if ".git"@.is_suffix_of(names) {
        let last = names.subrange(names.len() - 4, names.len() as int);
        assert(last == ".git"@);
        if repo.len() >= 4 {
            assert(repo.subrange(repo.len() - 4, repo.len() as int) =~= last);
        } else {
            let i = 3 - repo.len();
            assert(last[i] == names[owner.len() as int]);
            assert(names[owner.len() as int] == '/');
        }
    }
    assert forall|i: int| 0 <= i < owner.len() implies #[trigger] names[i] != '/' by {
        assert(crate::clone_source::is_name_char(owner[i]));
        assert(names[i] == owner[i]);
    }
    assert(names[owner.len() as int] == '/');
    run_before_is(names, '/', owner.len());
    assert(names.take(owner.len() as int) =~= owner);
    assert(names.skip(owner.len() as int + 1) =~= repo);
}

proof fn lemma_last_sign(front: Seq<char>, c: char, back: Seq<char>)
    requires
        !back.contains(c),
    ensures
        after_last(front + seq![c] + back, c) == back,
    decreases back.len(),
{
    let s = front + seq![c] + back;
    if back.len() == 0 {
        assert(s.last() == c);
        assert(after_last(s, c) =~= back);
    } else {
        assert(back.contains(back.last()));
        assert(s.last() == back.last());
        let less = back.drop_last();
        assert(!less.contains(c)) by {
            assert forall|i: int| 0 <= i < less.len() implies less[i] != c by {
                assert(back.contains(back[i]));
            }
        }
        lemma_last_sign(front, c, less);
        assert(s.drop_last() =~= front + seq![c] + less);
        assert(less.push(back.last()) =~= back);
    }
}

/// Each way of writing a repository on GitHub names that repository: over `https`, with user
/// information or without, over `ssh`, and in the short form; with `.git` at its end or without,
/// and with a slash behind it or without.
pub proof fn every_form_of_an_origin_names_its_repository(
    owner: Seq<char>,
    repo: Seq<char>,
    user: Seq<char>,
    end: Seq<char>,
)
    requires
        is_name(owner),
        is_repo_name(repo),
        !user.contains('/'),
        end == ""@ || end == "/"@ || end == ".git"@ || end == ".git/"@,
    ensures
        ({
            let tail = owner + "/"@ + repo + end;
            &&& github_repo("https://github.com/"@ + tail) == Some((owner, repo))
            &&& github_repo("https://"@ + user + "@github.com/"@ + tail) == Some((owner, repo))
            &&& github_repo("ssh://git@github.com/"@ + tail) == Some((owner, repo))
            &&& github_repo("git@github.com:"@ + tail) == Some((owner, repo))
        }),
{
    let tail = owner + "/"@ + repo + end;
    lemma_short_forms(tail);
    lemma_long_forms(user, tail);
    lemma_names(owner, repo, end);
}

proof fn lemma_short_forms(tail: Seq<char>)
    ensures
        github_tail("git@github.com:"@ + tail) == Some(tail),
        github_tail("ssh://git@github.com/"@ + tail) == Some(tail),
{
    let short = "git@github.com:"@ + tail;
    assert(short.subrange(0, "git@github.com:"@.len() as int) =~= "git@github.com:"@);
    assert(short.skip("git@github.com:"@.len() as int) =~= tail);
    let ssh = "ssh://git@github.com/"@ + tail;
    reveal_strlit("ssh://git@github.com/");
    reveal_strlit("git@github.com:");
    assert(ssh[0] == 's');
    if "git@github.com:"@.is_prefix_of(ssh) {
        assert(ssh.subrange(0, "git@github.com:"@.len() as int)[0] == 'g');
    }
    assert(ssh.subrange(0, "ssh://git@github.com/"@.len() as int) =~= "ssh://git@github.com/"@);
    assert(ssh.skip("ssh://git@github.com/"@.len() as int) =~= tail);
}

proof fn lemma_long_forms(user: Seq<char>, tail: Seq<char>)
    requires
        !user.contains('/'),
    ensures
        github_tail("https://github.com/"@ + tail) == Some(tail),
        github_tail("https://"@ + user + "@github.com/"@ + tail) == Some(tail),
{
    let name = user + "@"@;
    assert("https://github.com/"@ =~= "https://"@ + ""@ + "github.com"@ + "/"@) by {
        reveal_strlit("https://github.com/");
        reveal_strlit("https://");
        reveal_strlit("");
        reveal_strlit("github.com");
        reveal_strlit("/");
    }
    assert(""@.len() == 0) by {
        reveal_strlit("");
    }
    lemma_over_https("https://github.com/"@ + tail, ""@, tail);
    assert("@github.com/"@ =~= "@"@ + "github.com"@ + "/"@) by {
        reveal_strlit("@github.com/");
        reveal_strlit("@");
        reveal_strlit("github.com");
        reveal_strlit("/");
    }
    reveal_strlit("@");
    assert(!name.contains('/')) by {
        assert forall|i: int| 0 <= i < name.len() implies name[i] != '/' by {
            if i < user.len() {
                assert(user.contains(user[i]));
            }
        }
    }
    let signed = "https://"@ + user + "@github.com/"@ + tail;
    assert(signed =~= "https://"@ + name + "github.com"@ + "/"@ + tail);
    lemma_over_https(signed, name, tail);
}

proof fn lemma_over_https(origin: Seq<char>, user: Seq<char>, tail: Seq<char>)
    requires
        origin =~= "https://"@ + user + "github.com"@ + "/"@ + tail,
        !user.contains('/'),
        user.len() == 0 || user.last() == '@',
    ensures
        github_tail(origin) == Some(tail),
{
    reveal_strlit("https://");
    reveal_strlit("github.com");
    reveal_strlit("/");
    reveal_strlit("ssh://git@github.com/");
    reveal_strlit("git@github.com:");
    assert(origin[0] == 'h');
    if "git@github.com:"@.is_prefix_of(origin) {
        assert(origin.subrange(0, "git@github.com:"@.len() as int)[0] == 'g');
    }
    if "ssh://git@github.com/"@.is_prefix_of(origin) {
        assert(origin.subrange(0, "ssh://git@github.com/"@.len() as int)[0] == 's');
    }
    assert(origin.subrange(0, 8) =~= "https://"@);
    let rest = origin.skip(8);
    let host = user + "github.com"@;
    assert(rest =~= host + "/"@ + tail);
    assert forall|i: int| 0 <= i < host.len() implies #[trigger] rest[i] != '/' by {
        assert(rest[i] == host[i]);
        if i < user.len() {
            assert(user.contains(user[i]));
        } else {
            assert(host[i] == "github.com"@[i - user.len()]);
        }
    }
    assert(rest[host.len() as int] == '/');
    run_before_is(rest, '/', host.len());
    assert(rest.take(host.len() as int) =~= host);
    assert(rest.skip(host.len() as int + 1) =~= tail);
    assert(!"github.com"@.contains('@'));
    if user.len() == 0 {
        assert(host =~= "github.com"@);
        crate::clone_source::nothing_stands_before_a_missing_sign(host, '@');
    } else {
        assert(host =~= user.drop_last() + seq!['@'] + "github.com"@);
        lemma_last_sign(user.drop_last(), '@', "github.com"@);
    }
}

/// Whether an origin is written in one of the forms that name a repository: with `user` before the
/// host where it is written over `https`, and with `end` behind the names.
pub open spec fn is_written_as(
    origin: Seq<char>,
    user: Seq<char>,
    owner: Seq<char>,
    repo: Seq<char>,
    end: Seq<char>,
) -> bool {
    let tail = owner + "/"@ + repo + end;
    &&& end == ""@ || end == "/"@ || end == ".git"@ || end == ".git/"@
    &&& {
        ||| origin == "git@github.com:"@ + tail
        ||| origin == "ssh://git@github.com/"@ + tail
        ||| {
            &&& origin == "https://"@ + user + "github.com/"@ + tail
            &&& !user.contains('/')
            &&& user.len() == 0 || user.last() == '@'
        }
    }
}

proof fn lemma_tail_is_names(tail: Seq<char>) -> (end: Seq<char>)
    ensures
        end == ""@ || end == "/"@ || end == ".git"@ || end == ".git/"@,
        tail == without_suffix(without_suffix(tail, "/"@), ".git"@) + end,
{
    reveal_strlit("");
    reveal_strlit("/");
    reveal_strlit(".git");
    reveal_strlit(".git/");
    let inner = without_suffix(tail, "/"@);
    let names = without_suffix(inner, ".git"@);
    let slash = "/"@.is_suffix_of(tail);
    let git = ".git"@.is_suffix_of(inner);
    if slash {
        assert(tail.subrange(tail.len() - 1, tail.len() as int) == "/"@);
        assert(tail =~= inner + "/"@);
    }
    if git {
        assert(inner.subrange(inner.len() - 4, inner.len() as int) == ".git"@);
        assert(inner =~= names + ".git"@);
    }
    let end = if slash && git {
        ".git/"@
    } else if slash {
        "/"@
    } else if git {
        ".git"@
    } else {
        ""@
    };
    assert(tail =~= names + end);
    end
}

proof fn lemma_tail_is_over_https(origin: Seq<char>) -> (user: Seq<char>)
    requires
        github_tail(origin) is Some,
        !"git@github.com:"@.is_prefix_of(origin),
        !"ssh://git@github.com/"@.is_prefix_of(origin),
    ensures
        origin == "https://"@ + user + "github.com/"@ + github_tail(origin)->Some_0,
        !user.contains('/'),
        user.len() == 0 || user.last() == '@',
{
    reveal_strlit("https://");
    reveal_strlit("github.com");
    reveal_strlit("github.com/");
    let tail = github_tail(origin)->Some_0;
    let rest = origin.skip(8);
    let k = run_before(rest, '/');
    run_before_stops_at_the_first(rest, '/');
    let host = rest.take(k as int);
    assert(origin.subrange(0, 8) == "https://"@);
    assert(after_last(host, '@') == "github.com"@);
    lemma_what_follows_ends_the_text(host, '@');
    let user = host.take(host.len() - 10);
    assert(host =~= user + host.skip(host.len() - 10));
    assert(host =~= user + "github.com"@);
    assert(rest =~= host + seq!['/'] + tail);
    assert("github.com/"@ =~= "github.com"@ + seq!['/']);
    assert(rest =~= user + "github.com/"@ + tail);
    assert(origin =~= "https://"@ + rest);
    assert(origin =~= "https://"@ + user + "github.com/"@ + tail);
    assert forall|i: int| 0 <= i < user.len() implies user[i] != '/' by {
        assert(user[i] == rest[i]);
    }
    user
}

/// Nothing else names a repository: an origin that names one is written in one of these forms, with
/// just these names, and its host is `github.com`.
pub proof fn only_github_origins_name_a_repository(origin: Seq<char>)
    requires
        github_repo(origin) is Some,
    ensures
        ({
            let (owner, repo) = github_repo(origin)->Some_0;
            &&& is_name(owner)
            &&& is_repo_name(repo)
            &&& exists|user: Seq<char>, end: Seq<char>| #[trigger]
                is_written_as(origin, user, owner, repo, end)
        }),
{
    let (owner, repo) = github_repo(origin)->Some_0;
    let tail = github_tail(origin)->Some_0;
    let end = lemma_tail_is_names(tail);
    let names = without_suffix(without_suffix(tail, "/"@), ".git"@);
    run_before_stops_at_the_first(names, '/');
    assert(names =~= owner + "/"@ + repo) by {
        reveal_strlit("/");
    }
    assert(tail == owner + "/"@ + repo + end);
    if "git@github.com:"@.is_prefix_of(origin) {
        let start = "git@github.com:"@;
        assert(origin.subrange(0, start.len() as int) == start);
        assert(origin =~= start + tail);
        assert(is_written_as(origin, seq![], owner, repo, end));
    } else if "ssh://git@github.com/"@.is_prefix_of(origin) {
        let start = "ssh://git@github.com/"@;
        assert(origin.subrange(0, start.len() as int) == start);
        assert(origin =~= start + tail);
        assert(is_written_as(origin, seq![], owner, repo, end));
    } else {
        let user = lemma_tail_is_over_https(origin);
        assert(is_written_as(origin, user, owner, repo, end));
    }
}

proof fn lemma_what_follows_ends_the_text(s: Seq<char>, c: char)
    ensures
        after_last(s, c).len() <= s.len(),
        s.skip(s.len() - after_last(s, c).len()) == after_last(s, c),
        after_last(s, c).len() < s.len() ==> s[s.len() - after_last(s, c).len() - 1] == c,
    decreases s.len(),
{
    if s.len() > 0 && s.last() != c {
        lemma_what_follows_ends_the_text(s.drop_last(), c);
        let less = s.drop_last();
        let end = after_last(less, c);
        assert(s.skip(s.len() - after_last(s, c).len()) =~= after_last(s, c)) by {
            assert forall|i: int| 0 <= i < end.len() implies s[s.len() - end.len() - 1 + i]
                == end[i] by {
                assert(less.skip(less.len() - end.len())[i] == less[less.len() - end.len() + i]);
            }
        }
    } else {
        assert(s.skip(s.len() as int) =~= seq![]);
    }
}

proof fn lemma_no_user_information(scheme: Seq<char>, host: Seq<char>, path: Seq<char>)
    requires
        !scheme.contains(':'),
        !host.contains('/'),
        !host.contains('@'),
        path.len() > 0 ==> path[0] == '/',
    ensures
        without_userinfo(scheme + "://"@ + host + path) == scheme + "://"@ + host + path,
{
    reveal_strlit("://");
    let url = scheme + "://"@ + host + path;
    let n = scheme.len() as int;
    assert forall|i: int| 0 <= i < scheme.len() implies #[trigger] url[i] != ':' by {
        assert(url[i] == scheme[i]);
        assert(scheme.contains(scheme[i]));
    }
    assert(url[n] == ':');
    run_before_is(url, ':', scheme.len());
    assert(url.skip(n).subrange(0, 3) =~= "://"@);
    let after = url.skip(n + 3);
    assert(after =~= host + path);
    assert forall|i: int| 0 <= i < host.len() implies #[trigger] after[i] != '/' by {
        assert(after[i] == host[i]);
        assert(host.contains(host[i]));
    }
    run_before_is(after, '/', host.len());
    assert(after.take(host.len() as int) =~= host);
    assert(after.skip(host.len() as int) =~= path);
    assert(url.take(n) =~= scheme);
    crate::clone_source::nothing_stands_before_a_missing_sign(host, '@');
}

/// User information is left out of an origin, and nothing else: the scheme, the host and the path
/// stay. A text whose first colon does not begin an authority stays as it is.
pub proof fn only_user_information_is_left_out(
    scheme: Seq<char>,
    user: Seq<char>,
    host: Seq<char>,
    path: Seq<char>,
    rest: Seq<char>,
)
    requires
        !scheme.contains(':'),
        !user.contains('/'),
        !host.contains('/'),
        !host.contains('@'),
        path.len() > 0 ==> path[0] == '/',
        !"//"@.is_prefix_of(rest),
    ensures
        without_userinfo(scheme + "://"@ + user + "@"@ + host + path) == scheme + "://"@ + host + path,
        without_userinfo(scheme + "://"@ + host + path) == scheme + "://"@ + host + path,
        without_userinfo(scheme + ":"@ + rest) == scheme + ":"@ + rest,
        without_userinfo(scheme) == scheme,
{
    reveal_strlit("://");
    reveal_strlit("//");
    reveal_strlit("@");
    reveal_strlit(":");
    let url = scheme + "://"@ + user + "@"@ + host + path;
    assert forall|i: int| 0 <= i < scheme.len() implies #[trigger] scheme[i] != ':' by {
        assert(scheme.contains(scheme[i]));
    }
    assert forall|i: int| 0 <= i < scheme.len() implies #[trigger] url[i] != ':' by {
        assert(url[i] == scheme[i]);
    }
    assert(url[scheme.len() as int] == ':');
    run_before_is(url, ':', scheme.len());
    let n = scheme.len() as int;
    assert(url.skip(n).subrange(0, 3) =~= "://"@);
    let after = url.skip(n + 3);
    let whole = user + "@"@ + host;
    assert(after =~= whole + path);
    assert forall|i: int| 0 <= i < whole.len() implies #[trigger] after[i] != '/' by {
        assert(after[i] == whole[i]);
        if i < user.len() {
            assert(user.contains(user[i]));
        } else if i > user.len() {
            assert(host.contains(host[i - user.len() - 1]));
        }
    }
    run_before_is(after, '/', whole.len());
    assert(after.take(whole.len() as int) =~= user + seq!['@'] + host);
    lemma_last_sign(user, '@', host);
    assert(after.skip(whole.len() as int) =~= path);
    assert(url.take(n) =~= scheme);
    lemma_no_user_information(scheme, host, path);
    let short = scheme + ":"@ + rest;
    assert forall|i: int| 0 <= i < scheme.len() implies #[trigger] short[i] != ':' by {
        assert(short[i] == scheme[i]);
    }
    assert(short[n] == ':');
    run_before_is(short, ':', scheme.len());
    if "://"@.is_prefix_of(short.skip(n)) {
        let start = short.skip(n).subrange(0, 3);
        assert(start[1] == '/' && start[2] == '/');
        assert(rest.subrange(0, 2) =~= "//"@) by {
            assert(short[n + 1] == rest[0]);
            assert(short[n + 2] == rest[1]);
        }
    }
    run_before_is(scheme, ':', scheme.len());
    assert(scheme.skip(n) =~= seq![]);
}

/// A repository on GitHub is recorded in one way, whatever way its origin is written in; any other
/// origin is recorded without its user information.
pub proof fn origins_are_recorded_in_one_form(
    origin: Seq<char>,
    owner: Seq<char>,
    repo: Seq<char>,
)
    ensures
        github_url(owner, repo) == "https://github.com/"@ + owner + "/"@ + repo,
        match github_repo(origin) {
            Some((o, r)) => recorded_origin(origin) == "https://github.com/"@ + o + "/"@ + r,
            None => recorded_origin(origin) == without_userinfo(origin),
        },
{
}

/// A repository lies below the root of all repositories, under its owner, and its link is in the
/// workspace.
pub proof fn repositories_lie_under_their_owner(
    root: Seq<char>,
    workspace: Seq<char>,
    owner: Seq<char>,
    repo: Seq<char>,
)
    ensures
        repo_path(root, owner, repo) == root + "/"@ + owner + "/"@ + repo,
        repo_link(workspace, repo) == workspace + "/"@ + repo,
{
}

/// A commit selects itself, whatever tag is given beside it; a tag alone selects itself; and
/// without either there is no pin. A tag is fetched by its full name and a commit by its own.
pub proof fn selectors_select_what_they_name(tag: Option<Seq<char>>, commit: Option<Seq<char>>)
    ensures
        commit matches Some(sha) ==> selected_pin(tag, commit) == Some(PinView::Commit(sha))
            && selected_pin(tag, commit)->Some_0.refspec() == sha,
        commit is None ==> match tag {
            Some(name) => selected_pin(tag, commit) == Some(PinView::Tag(name)) && selected_pin(
                tag,
                commit,
            )->Some_0.refspec() == "refs/tags/"@ + name,
            None => selected_pin(tag, commit) is None,
        },
{
}

/// The selectors of an exact revision are right exactly where a commit, if there is one, is named
/// by forty hexadecimal digits, and a branch that is not blank goes with the pin; without a pin
/// nothing is asked of the branch.
pub proof fn selectors_are_checked(
    branch: Option<Seq<char>>,
    tag: Option<Seq<char>>,
    commit: Option<Seq<char>>,
)
    ensures
        ({
            let named = branch matches Some(b) && !is_blank(b);
            match commit {
                Some(sha) => {
                    let full = sha.len() == 40 && forall|i: int|
                        0 <= i < 40 ==> {
                            let c = #[trigger] sha[i];
                            '0' <= c <= '9' || 'a' <= c <= 'f' || 'A' <= c <= 'F'
                        };
                    &&& is_commit_name(sha) <==> full
                    &&& !full ==> selector_error(branch, tag, commit) == Some(
                        ErrorView::Message(
                            "clone commit must be exactly 40 ASCII hexadecimal characters"@,
                        ),
                    )
                    &&& full && !named ==> selector_error(branch, tag, commit) == Some(
                        ErrorView::Message("pinned commit"@ + " requires a repository branch"@),
                    )
                    &&& full && named ==> selector_error(branch, tag, commit) is None
                },
                None => {
                    &&& tag is Some && !named ==> selector_error(branch, tag, commit) == Some(
                        ErrorView::Message("pinned tag"@ + " requires a repository branch"@),
                    )
                    &&& tag is None || named ==> selector_error(branch, tag, commit) is None
                },
            }
        }),
{
}

} // verus!
