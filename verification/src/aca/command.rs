//! The command line that runs a script in a sandbox: non-login Bash, in a directory, with an
//! environment.

use vstd::prelude::*;

use crate::shell::{
    begun, is_plain, plain_text_joins_the_word, quoted, quoted_text_joins_the_word, reading, shell_quote,
    shell_words, space_ends_the_word,
};
use crate::text::{
    at_most, same_text, text_at_most, text_order_antisymmetric, text_order_total,
    text_order_transitive,
};

verus! {

/// The variable that names a startup file for Bash. It is never passed on.
pub const BASH_ENV_VAR: &'static str = "BASH_ENV";

/// One variable of an environment.
#[derive(Debug)]
pub struct EnvVar {
    pub key: String,
    pub value: String,
}

/// The model of an [`EnvVar`].
#[verifier::ext_equal]
pub ghost struct EnvView {
    pub key: Seq<char>,
    pub value: Seq<char>,
}

impl View for EnvVar {
    type V = EnvView;

    open spec fn view(&self) -> EnvView {
        EnvView { key: self.key@, value: self.value@ }
    }
}

/// The model of an environment.
pub open spec fn envs(v: Seq<EnvVar>) -> Seq<EnvView> {
    v.map_values(|e: EnvVar| e@)
}

/// Whether no variable is there twice.
pub open spec fn distinct_keys(env: Seq<EnvView>) -> bool {
    forall|i: int, j: int|
        0 <= i < j < env.len() ==> (#[trigger] env[i]).key != (#[trigger] env[j]).key
}

/// Whether the variables are in the order of their names, none of them twice.
pub open spec fn in_key_order(env: Seq<EnvView>) -> bool {
    forall|i: int, j: int|
        0 <= i < j < env.len() ==> text_at_most((#[trigger] env[i]).key, (#[trigger] env[j]).key)
            && env[i].key != env[j].key
}

/// Whether `entries` are the variables of `env` that are passed on, which is all of them but
/// `BASH_ENV`, in the order of their names.
pub open spec fn is_arrangement(entries: Seq<EnvView>, env: Seq<EnvView>) -> bool {
    &&& in_key_order(entries)
    &&& forall|e: EnvView|
        #[trigger] entries.contains(e) <==> env.contains(e) && e.key != BASH_ENV_VAR@
}

/// The variables of `env` that are passed on, in the order of their names.
pub open spec fn arranged(env: Seq<EnvView>) -> Seq<EnvView> {
    choose|entries: Seq<EnvView>| is_arrangement(entries, env)
}

/// There is one arrangement at most.
pub proof fn one_arrangement(a: Seq<EnvView>, b: Seq<EnvView>, env: Seq<EnvView>)
    requires
        is_arrangement(a, env),
        is_arrangement(b, env),
    ensures
        a == b,
{
    assert forall|e: EnvView| #[trigger] a.contains(e) <==> b.contains(e) by {}
    lemma_same_members(a, b);
}

proof fn lemma_first_is_least(a: Seq<EnvView>, e: EnvView)
    requires
        in_key_order(a),
        a.contains(e),
    ensures
        text_at_most(a[0].key, e.key),
{
    let i = choose|i: int| 0 <= i < a.len() && a[i] == e;
    if i == 0 {
        text_order_total(e.key, e.key);
    } else {
        assert(text_at_most(a[0].key, a[i].key));
    }
}

proof fn lemma_same_members(a: Seq<EnvView>, b: Seq<EnvView>)
    requires
        in_key_order(a),
        in_key_order(b),
        forall|e: EnvView| #[trigger] a.contains(e) <==> b.contains(e),
    ensures
        a == b,
    decreases a.len(),
{
    if a.len() == 0 {
        if b.len() > 0 {
            assert(b.contains(b[0]));
            assert(a.contains(b[0]));
        }
        assert(a =~= b);
    } else {
        assert(a.contains(a[0]));
        assert(b.contains(a[0]));
        assert(b.len() > 0);
        assert(b.contains(b[0]));
        assert(a.contains(b[0]));
        lemma_first_is_least(a, b[0]);
        lemma_first_is_least(b, a[0]);
        text_order_antisymmetric(a[0].key, b[0].key);
        let j = choose|j: int| 0 <= j < a.len() && a[j] == b[0];
        if j > 0 {
            assert(a[0].key != a[j].key);
        }
        assert(a[0] == b[0]);
        let x = a.drop_first();
        let y = b.drop_first();
        assert(in_key_order(x)) by {
            assert forall|i: int, j: int| 0 <= i < j < x.len() implies text_at_most(
                (#[trigger] x[i]).key,
                (#[trigger] x[j]).key,
            ) && x[i].key != x[j].key by {
                assert(a[i + 1] == x[i] && a[j + 1] == x[j]);
            }
        }
        assert(in_key_order(y)) by {
            assert forall|i: int, j: int| 0 <= i < j < y.len() implies text_at_most(
                (#[trigger] y[i]).key,
                (#[trigger] y[j]).key,
            ) && y[i].key != y[j].key by {
                assert(b[i + 1] == y[i] && b[j + 1] == y[j]);
            }
        }
        assert forall|e: EnvView| #[trigger] x.contains(e) <==> y.contains(e) by {
            if x.contains(e) {
                let i = choose|i: int| 0 <= i < x.len() && x[i] == e;
                assert(a[i + 1] == e);
                assert(a.contains(e));
                assert(a[0].key != a[i + 1].key);
                let k = choose|k: int| 0 <= k < b.len() && b[k] == e;
                assert(k > 0);
                assert(y[k - 1] == e);
            }
            if y.contains(e) {
                let i = choose|i: int| 0 <= i < y.len() && y[i] == e;
                assert(b[i + 1] == e);
                assert(b.contains(e));
                assert(b[0].key != b[i + 1].key);
                assert(a.contains(e));
                let k = choose|k: int| 0 <= k < a.len() && a[k] == e;
                assert(k > 0);
                assert(x[k - 1] == e);
            }
        }
        lemma_same_members(x, y);
        assert(a =~= seq![a[0]] + x);
        assert(b =~= seq![b[0]] + y);
    }
}

proof fn lemma_pushed_members(seen: Seq<EnvView>, e: EnvView)
    ensures
        forall|x: EnvView| #[trigger] seen.push(e).contains(x) <==> seen.contains(x) || x == e,
{
    let more = seen.push(e);
    assert forall|x: EnvView| #[trigger] more.contains(x) <==> seen.contains(x) || x == e by {
        if more.contains(x) {
            let k = choose|k: int| 0 <= k < more.len() && more[k] == x;
            if k < seen.len() {
                assert(seen[k] == x);
            }
        }
        if seen.contains(x) {
            let k = choose|k: int| 0 <= k < seen.len() && seen[k] == x;
            assert(more[k] == x);
        }
        if x == e {
            assert(more[seen.len() as int] == x);
        }
    }
}

/// `BASH_ENV` is left out of an arrangement.
proof fn lemma_left_out(before: Seq<EnvView>, seen: Seq<EnvView>, e: EnvView)
    requires
        is_arrangement(before, seen),
        e.key == BASH_ENV_VAR@,
    ensures
        is_arrangement(before, seen.push(e)),
{
    lemma_pushed_members(seen, e);
}

/// Any other variable goes where its name belongs.
proof fn lemma_insertion(before: Seq<EnvView>, seen: Seq<EnvView>, e: EnvView, at: int)
    requires
        is_arrangement(before, seen),
        distinct_keys(seen.push(e)),
        e.key != BASH_ENV_VAR@,
        0 <= at <= before.len(),
        forall|k: int| 0 <= k < at ==> text_at_most((#[trigger] before[k]).key, e.key),
        at < before.len() ==> !text_at_most(before[at].key, e.key),
    ensures
        is_arrangement(before.insert(at, e), seen.push(e)),
{
    let after = before.insert(at, e);
    lemma_pushed_members(seen, e);
    assert forall|k: int| 0 <= k < before.len() implies (#[trigger] before[k]).key != e.key by {
        assert(before.contains(before[k]));
        let m = choose|m: int| 0 <= m < seen.len() && seen[m] == before[k];
        assert(seen.push(e)[m].key != seen.push(e)[seen.len() as int].key);
    }
    assert forall|p: int, q: int| 0 <= p < q < after.len() implies text_at_most(
        (#[trigger] after[p]).key,
        (#[trigger] after[q]).key,
    ) && after[p].key != after[q].key by {
        let bp = if p < at {
            p
        } else {
            p - 1
        };
        let bq = if q < at {
            q
        } else {
            q - 1
        };
        if p == at {
            assert(after[q] == before[bq]);
            text_order_total(before[at].key, e.key);
            if bq > at {
                assert(text_at_most(before[at].key, before[bq].key));
                text_order_transitive(e.key, before[at].key, before[bq].key);
            }
        } else if q == at {
            assert(after[p] == before[p]);
        } else {
            assert(after[p] == before[bp]);
            assert(after[q] == before[bq]);
        }
    }
    assert forall|x: EnvView| #[trigger]
        after.contains(x) <==> seen.push(e).contains(x) && x.key != BASH_ENV_VAR@ by {
        if after.contains(x) {
            let k = choose|k: int| 0 <= k < after.len() && after[k] == x;
            if k < at {
                assert(before[k] == x);
                assert(before.contains(x));
            } else if k > at {
                assert(before[k - 1] == x);
                assert(before.contains(x));
            }
        }
        if seen.push(e).contains(x) && x.key != BASH_ENV_VAR@ {
            if x == e {
                assert(after[at] == x);
            } else {
                assert(before.contains(x));
                let k = choose|k: int| 0 <= k < before.len() && before[k] == x;
                if k < at {
                    assert(after[k] == x);
                } else {
                    assert(after[k + 1] == x);
                }
            }
        }
    }
}

spec fn place(entries: Seq<EnvView>, key: Seq<char>) -> nat
    decreases entries.len(),
{
    if entries.len() == 0 || !text_at_most(entries[0].key, key) {
        0
    } else {
        1 + place(entries.drop_first(), key)
    }
}

proof fn lemma_place(entries: Seq<EnvView>, key: Seq<char>)
    ensures
        place(entries, key) <= entries.len(),
        forall|k: int| 0 <= k < place(entries, key) ==> text_at_most((#[trigger] entries[k]).key, key),
        place(entries, key) < entries.len() ==> !text_at_most(
            entries[place(entries, key) as int].key,
            key,
        ),
    decreases entries.len(),
{
    if entries.len() > 0 && text_at_most(entries[0].key, key) {
        let rest = entries.drop_first();
        lemma_place(rest, key);
        assert forall|k: int| 0 <= k < place(entries, key) implies text_at_most(
            (#[trigger] entries[k]).key,
            key,
        ) by {
            if k > 0 {
                assert(entries[k] == rest[k - 1]);
            }
        }
    }
}

/// Every environment has its arrangement.
pub proof fn every_environment_is_arranged(env: Seq<EnvView>)
    requires
        distinct_keys(env),
    ensures
        is_arrangement(arranged(env), env),
    decreases env.len(),
{
    if env.len() == 0 {
        let none = Seq::<EnvView>::empty();
        assert(is_arrangement(none, env));
    } else {
        let seen = env.drop_last();
        let e = env.last();
        assert(env =~= seen.push(e));
        assert(distinct_keys(seen)) by {
            assert forall|p: int, q: int| 0 <= p < q < seen.len() implies (#[trigger] seen[p]).key != (
            #[trigger] seen[q]).key by {
                assert(env[p].key != env[q].key);
            }
        }
        every_environment_is_arranged(seen);
        let before = arranged(seen);
        if e.key == BASH_ENV_VAR@ {
            lemma_left_out(before, seen, e);
            assert(is_arrangement(before, env));
        } else {
            let at = place(before, e.key) as int;
            lemma_place(before, e.key);
            lemma_insertion(before, seen, e, at);
            assert(is_arrangement(before.insert(at, e), env));
        }
    }
}

/// Puts the variables that are passed on in the order of their names.
fn arrange(env: &Vec<EnvVar>) -> (r: Vec<&EnvVar>)
    requires
        distinct_keys(envs(env@)),
    ensures
        r@.map_values(|e: &EnvVar| e@) == arranged(envs(env@)),
        is_arrangement(r@.map_values(|e: &EnvVar| e@), envs(env@)),
{
    let mut r: Vec<&EnvVar> = Vec::new();
    let ghost all = envs(env@);
    let mut i: usize = 0;
    while i < env.len()
        invariant
            i <= env@.len(),
            all == envs(env@),
            distinct_keys(all),
            is_arrangement(r@.map_values(|e: &EnvVar| e@), all.take(i as int)),
        decreases env@.len() - i,
    {
        let ghost before = r@.map_values(|e: &EnvVar| e@);
        let ghost e = all[i as int];
        let ghost seen = all.take(i as int);
        proof {
            assert(env@[i as int]@ == e);
        }
        if !same_text(env[i].key.as_str(), BASH_ENV_VAR) {
            let mut at: usize = 0;
            while at < r.len() && at_most(r[at].key.as_str(), env[i].key.as_str())
                invariant
                    at <= r@.len(),
                    i < env@.len(),
                    before == r@.map_values(|e: &EnvVar| e@),
                    e == env@[i as int]@,
                    forall|k: int| 0 <= k < at ==> text_at_most((#[trigger] before[k]).key, e.key),
                decreases r@.len() - at,
            {
                proof {
                    assert(before[at as int] == r@[at as int]@);
                }
                at = at + 1;
            }
            proof {
                if at < r@.len() {
                    assert(before[at as int] == r@[at as int]@);
                }
            }
            r.insert(at, &env[i]);
            proof {
                let after = r@.map_values(|e: &EnvVar| e@);
                assert(after =~= before.insert(at as int, e));
                assert(all.take(i + 1) =~= seen.push(e));
                assert(distinct_keys(seen.push(e))) by {
                    assert forall|p: int, q: int| 0 <= p < q < seen.push(e).len() implies (
                    #[trigger] seen.push(e)[p]).key != (#[trigger] seen.push(e)[q]).key by {
                        assert(all[p].key != all[q].key);
                    }
                }
                lemma_insertion(before, seen, e, at as int);
            }
        } else {
            proof {
                assert(all.take(i + 1) =~= seen.push(e));
                lemma_left_out(before, seen, e);
            }
        }
        i = i + 1;
    }
    proof {
        assert(all.take(i as int) =~= all);
        let entries = r@.map_values(|e: &EnvVar| e@);
        assert(is_arrangement(entries, all));
        one_arrangement(entries, arranged(all), all);
    }
    r
}

/// The script that is run: the command, in the directory where one is given.
pub open spec fn script(command: Seq<char>, working_dir: Option<Seq<char>>) -> Seq<char> {
    match working_dir {
        Some(dir) => "cd "@ + quoted(dir) + " && "@ + command,
        None => command,
    }
}

/// The start of the command line: `BASH_ENV` is taken out of the environment, and the given
/// variables are set.
pub open spec fn env_prefix(entries: Seq<EnvView>) -> Seq<char>
    decreases entries.len(),
{
    if entries.len() == 0 {
        "env -u "@ + BASH_ENV_VAR@
    } else {
        env_prefix(entries.drop_last()) + " "@ + entries.last().key + "="@ + quoted(
            entries.last().value,
        )
    }
}

/// The command line for a command.
pub open spec fn wrapped(
    command: Seq<char>,
    working_dir: Option<Seq<char>>,
    env: Seq<EnvView>,
) -> Seq<char> {
    env_prefix(arranged(env)) + " /bin/bash -c "@ + quoted(script(command, working_dir))
}

/// Builds the command line that runs `command`.
///
/// A sandbox takes one command line, with no directory and no environment beside it, so both
/// are written into it. `BASH_ENV` has to be gone before Bash starts, which reads it at its
/// own startup; one that the caller sets is dropped for the same reason.
pub fn wrap_command(command: &str, working_dir: Option<&str>, env_vars: &Vec<EnvVar>) -> (r: String)
    requires
        distinct_keys(envs(env_vars@)),
    ensures
        r@ == wrapped(
            command@,
            match working_dir {
                Some(dir) => Some(dir@),
                None => None,
            },
            envs(env_vars@),
        ),
{
    let script = match working_dir {
        Some(dir) => {
            let mut s = "cd ".to_owned();
            s.append(shell_quote(dir).as_str());
            s.append(" && ");
            s.append(command);
            s
        },
        None => command.to_owned(),
    };
    let entries = arrange(env_vars);
    let ghost all = entries@.map_values(|e: &EnvVar| e@);
    let mut line = "env -u ".to_owned();
    line.append(BASH_ENV_VAR);
    let mut i: usize = 0;
    proof {
        assert(all.take(0) =~= seq![]);
    }
    while i < entries.len()
        invariant
            i <= entries@.len(),
            all == entries@.map_values(|e: &EnvVar| e@),
            line@ == env_prefix(all.take(i as int)),
        decreases entries@.len() - i,
    {
        line.append(" ");
        line.append(entries[i].key.as_str());
        line.append("=");
        line.append(shell_quote(entries[i].value.as_str()).as_str());
        proof {
            assert(all.take(i + 1).drop_last() =~= all.take(i as int));
            assert(all.take(i + 1).last() == entries@[i as int]@);
        }
        i = i + 1;
    }
    proof {
        assert(all.take(i as int) =~= all);
    }
    line.append(" /bin/bash -c ");
    line.append(shell_quote(script.as_str()).as_str());
    line
}

// ---------------------------------------------------------------------------
// Laws
// ---------------------------------------------------------------------------

/// The order in which the variables are handed over does not matter: two environments with
/// the same variables give the same command line.
pub proof fn env_order_is_immaterial(
    command: Seq<char>,
    working_dir: Option<Seq<char>>,
    a: Seq<EnvView>,
    b: Seq<EnvView>,
)
    requires
        distinct_keys(a),
        distinct_keys(b),
        forall|e: EnvView| #[trigger] a.contains(e) <==> b.contains(e),
    ensures
        wrapped(command, working_dir, a) == wrapped(command, working_dir, b),
{
    assert forall|entries: Seq<EnvView>| is_arrangement(entries, a) == is_arrangement(entries, b) by {
        if is_arrangement(entries, a) {
            assert forall|e: EnvView| #[trigger]
                entries.contains(e) <==> b.contains(e) && e.key != BASH_ENV_VAR@ by {
                assert(a.contains(e) <==> b.contains(e));
            }
        }
        if is_arrangement(entries, b) {
            assert forall|e: EnvView| #[trigger]
                entries.contains(e) <==> a.contains(e) && e.key != BASH_ENV_VAR@ by {
                assert(a.contains(e) <==> b.contains(e));
            }
        }
    }
    every_environment_is_arranged(a);
    assert(is_arrangement(arranged(a), b));
    assert(is_arrangement(arranged(b), b));
    one_arrangement(arranged(a), arranged(b), b);
}

/// The words that set variables.
pub open spec fn settings(entries: Seq<EnvView>) -> Seq<Seq<char>> {
    entries.map_values(|e: EnvView| e.key + "="@ + e.value)
}

/// Whether every name is made of plain characters.
pub open spec fn plain_keys(entries: Seq<EnvView>) -> bool {
    forall|i: int, k: int|
        0 <= i < entries.len() && 0 <= k < entries[i].key.len() ==> is_plain(
            #[trigger] entries[i].key[k],
        )
}

proof fn lemma_prefix_words(entries: Seq<EnvView>, rest: Seq<char>)
    requires
        plain_keys(entries),
    ensures
        shell_words(env_prefix(entries) + " "@ + rest) == reading(
            rest,
            None,
            false,
            seq!["env"@, "-u"@, BASH_ENV_VAR@] + settings(entries),
        ),
    decreases entries.len(),
{
    reveal_strlit(" ");
    assert(" "@ =~= seq![' ']);
    if entries.len() == 0 {
        reveal_strlit("env -u ");
        reveal_strlit("env");
        reveal_strlit("-u");
        reveal_strlit("BASH_ENV");
        let line = env_prefix(entries) + " "@ + rest;
        let after_u = BASH_ENV_VAR@ + (seq![' '] + rest);
        let after_env = "-u"@ + (seq![' '] + after_u);
        assert(line =~= "env"@ + (seq![' '] + after_env));
        plain_text_joins_the_word("env"@, seq![' '] + after_env, None, seq![]);
        assert(begun(None) + "env"@ =~= "env"@);
        space_ends_the_word(after_env, "env"@, seq![]);
        let one = Seq::<Seq<char>>::empty().push("env"@);
        plain_text_joins_the_word("-u"@, seq![' '] + after_u, None, one);
        assert(begun(None) + "-u"@ =~= "-u"@);
        space_ends_the_word(after_u, "-u"@, one);
        let two = one.push("-u"@);
        plain_text_joins_the_word(BASH_ENV_VAR@, seq![' '] + rest, None, two);
        assert(begun(None) + BASH_ENV_VAR@ =~= BASH_ENV_VAR@);
        space_ends_the_word(rest, BASH_ENV_VAR@, two);
        assert(two.push(BASH_ENV_VAR@) =~= seq!["env"@, "-u"@, BASH_ENV_VAR@] + settings(entries));
    } else {
        let last = entries.last();
        let front = entries.drop_last();
        let tail = seq![' '] + rest;
        let name = last.key + "="@;
        reveal_strlit("=");
        let word = name + (quoted(last.value) + tail);
        assert(env_prefix(entries) + " "@ + rest =~= env_prefix(front) + " "@ + word);
        assert(plain_keys(front)) by {
            assert forall|i: int, k: int|
                0 <= i < front.len() && 0 <= k < front[i].key.len() implies is_plain(
                #[trigger] front[i].key[k],
            ) by {
                assert(entries[i].key[k] == front[i].key[k]);
            }
        }
        lemma_prefix_words(front, word);
        let done = seq!["env"@, "-u"@, BASH_ENV_VAR@] + settings(front);
        assert forall|k: int| 0 <= k < name.len() implies is_plain(#[trigger] name[k]) || name[k]
            == '=' by {
            if k < last.key.len() {
                assert(entries[entries.len() - 1].key[k] == name[k]);
            }
        }
        plain_text_joins_the_word(name, quoted(last.value) + tail, None, done);
        assert(begun(None) + name =~= name);
        quoted_text_joins_the_word(last.value, tail, Some(name), done);
        space_ends_the_word(rest, name + last.value, done);
        assert(done.push(name + last.value) =~= seq!["env"@, "-u"@, BASH_ENV_VAR@] + settings(
            entries,
        )) by {
            assert(settings(entries) =~= settings(front).push(name + last.value));
        }
    }
}

/// The words that the sandbox's shell reads: `env` is told to take `BASH_ENV` out, is given
/// exactly the variables that are passed on, and is told to start Bash on exactly the script. No
/// part of the command, the directory or a value is interpreted on the way.
pub proof fn wrapped_command_reads_back(
    command: Seq<char>,
    working_dir: Option<Seq<char>>,
    env: Seq<EnvView>,
)
    requires
        distinct_keys(env),
        plain_keys(env),
    ensures
        shell_words(wrapped(command, working_dir, env)) == Some(
            seq!["env"@, "-u"@, BASH_ENV_VAR@] + settings(arranged(env)) + seq![
                "/bin/bash"@,
                "-c"@,
                script(command, working_dir),
            ],
        ),
{
    let entries = arranged(env);
    let body = script(command, working_dir);
    every_environment_is_arranged(env);
    assert(plain_keys(entries)) by {
        assert forall|i: int, k: int|
            0 <= i < entries.len() && 0 <= k < entries[i].key.len() implies is_plain(
            #[trigger] entries[i].key[k],
        ) by {
            assert(entries.contains(entries[i]));
            let m = choose|m: int| 0 <= m < env.len() && env[m] == entries[i];
            assert(is_plain(env[m].key[k]));
        }
    }
    reveal_strlit(" ");
    reveal_strlit(" /bin/bash -c ");
    reveal_strlit("/bin/bash");
    reveal_strlit("-c");
    let after_c = quoted(body);
    let after_bash = "-c"@ + (seq![' '] + after_c);
    let rest = "/bin/bash"@ + (seq![' '] + after_bash);
    assert(wrapped(command, working_dir, env) =~= env_prefix(entries) + " "@ + rest);
    lemma_prefix_words(entries, rest);
    let done = seq!["env"@, "-u"@, BASH_ENV_VAR@] + settings(entries);
    plain_text_joins_the_word("/bin/bash"@, seq![' '] + after_bash, None, done);
    assert(begun(None) + "/bin/bash"@ =~= "/bin/bash"@);
    space_ends_the_word(after_bash, "/bin/bash"@, done);
    let one = done.push("/bin/bash"@);
    plain_text_joins_the_word("-c"@, seq![' '] + after_c, None, one);
    assert(begun(None) + "-c"@ =~= "-c"@);
    space_ends_the_word(after_c, "-c"@, one);
    let two = one.push("-c"@);
    quoted_text_joins_the_word(body, seq![], None, two);
    assert(after_c + Seq::<char>::empty() =~= after_c);
    assert(begun(None) + body =~= body);
    assert(two.push(body) =~= done + seq!["/bin/bash"@, "-c"@, body]);
}

/// `BASH_ENV` is never set, not even for a caller who asks for it.
pub proof fn bash_env_is_never_set(env: Seq<EnvView>)
    requires
        distinct_keys(env),
    ensures
        forall|i: int|
            0 <= i < arranged(env).len() ==> (#[trigger] arranged(env)[i]).key != BASH_ENV_VAR@,
{
    every_environment_is_arranged(env);
    assert forall|i: int| 0 <= i < arranged(env).len() implies (#[trigger] arranged(env)[i]).key
        != BASH_ENV_VAR@ by {
        assert(arranged(env).contains(arranged(env)[i]));
    }
}

} // verus!
