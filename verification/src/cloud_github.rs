//! Git safety policy for protected environments: finds `git push`, `gh` and `hub`
//! in a shell command, also behind wrappers, quotes and `ssh`.
use vstd::prelude::*;

use crate::text::{
    chars_of, contains_char, has_part, has_prefix, has_suffix, has_text, is_white_space, join_from, joined,
    lemma_position_from, lemma_trimmed_len, occurs_at, position_from, same_text, starts_with, text_between,
    texts, trim, trimmed, white_space,
};

verus! {

pub open spec fn is_quote(c: char) -> bool {
    c == '\'' || c == '"'
}

/// The segment that a finished run of characters gives: its trimmed text, or
/// nothing when that is empty.
pub open spec fn flushed(cur: Seq<char>) -> Seq<Seq<char>> {
    if trimmed(cur).len() == 0 {
        Seq::empty()
    } else {
        seq![trimmed(cur)]
    }
}

/// The segments of `s` from position `i` on, where `cur` has been read of the
/// current one and `quote` is the quote that is open.
pub open spec fn segments_from(
    s: Seq<char>,
    i: int,
    quote: Option<char>,
    cur: Seq<char>,
) -> Seq<Seq<char>>
    decreases s.len() - i,
{
    if i >= s.len() {
        flushed(cur)
    } else {
        let c = s[i];
        let none = Seq::<char>::empty();
        match quote {
            Some(q) => if c == q {
                segments_from(s, i + 1, None, cur.push(c))
            } else if c == '\\' && i + 1 < s.len() {
                segments_from(s, i + 2, quote, cur.push(c).push(s[i + 1]))
            } else {
                segments_from(s, i + 1, quote, cur.push(c))
            },
            None => if is_quote(c) {
                segments_from(s, i + 1, Some(c), cur.push(c))
            } else if c == ';' || c == '\n' {
                flushed(cur) + segments_from(s, i + 1, None, none)
            } else if (c == '&' || c == '|') && i + 1 < s.len() && s[i + 1] == c {
                flushed(cur) + segments_from(s, i + 2, None, none)
            } else if c == '&' || c == '|' {
                flushed(cur) + segments_from(s, i + 1, None, none)
            } else {
                segments_from(s, i + 1, None, cur.push(c))
            },
        }
    }
}

/// The commands of a command line: the texts between `;`, line ends, `&&`, `||`,
/// `&` and `|` outside quotes, trimmed, without empty ones.
pub open spec fn segments(s: Seq<char>) -> Seq<Seq<char>> {
    segments_from(s, 0, None, Seq::empty())
}

/// Whether every text is at most `n` characters long.
pub open spec fn within(parts: Seq<Seq<char>>, n: nat) -> bool {
    forall|k: int| 0 <= k < parts.len() ==> (#[trigger] parts[k]).len() <= n
}

pub proof fn lemma_within_concat(a: Seq<Seq<char>>, b: Seq<Seq<char>>, n: nat)
    requires
        within(a, n),
        within(b, n),
    ensures
        within(a + b, n),
{
    assert forall|k: int| 0 <= k < (a + b).len() implies (#[trigger] (a + b)[k]).len() <= n by {
        if k < a.len() {
            assert((a + b)[k] == a[k]);
        } else {
            assert((a + b)[k] == b[k - a.len()]);
        }
    }
}

pub proof fn lemma_segments_len(s: Seq<char>, i: int, quote: Option<char>, cur: Seq<char>)
    requires
        0 <= i,
        cur.len() <= i <= s.len(),
    ensures
        within(segments_from(s, i, quote, cur), s.len()),
    decreases s.len() - i,
{
    lemma_trimmed_len(cur);
    if i < s.len() {
        let c = s[i];
        let none = Seq::<char>::empty();
        let here = flushed(cur);
        match quote {
            Some(q) => if c == q {
                lemma_segments_len(s, i + 1, None, cur.push(c));
            } else if c == '\\' && i + 1 < s.len() {
                lemma_segments_len(s, i + 2, quote, cur.push(c).push(s[i + 1]));
            } else {
                lemma_segments_len(s, i + 1, quote, cur.push(c));
            },
            None => if is_quote(c) {
                lemma_segments_len(s, i + 1, Some(c), cur.push(c));
            } else if c == ';' || c == '\n' {
                lemma_segments_len(s, i + 1, None, none);
                lemma_within_concat(here, segments_from(s, i + 1, None, none), s.len());
            } else if (c == '&' || c == '|') && i + 1 < s.len() && s[i + 1] == c {
                lemma_segments_len(s, i + 2, None, none);
                lemma_within_concat(here, segments_from(s, i + 2, None, none), s.len());
            } else if c == '&' || c == '|' {
                lemma_segments_len(s, i + 1, None, none);
                lemma_within_concat(here, segments_from(s, i + 1, None, none), s.len());
            } else {
                lemma_segments_len(s, i + 1, None, cur.push(c));
            },
        }
    }
}

/// The non-empty texts between quotes, from position `i` on.
pub open spec fn quoted_from(s: Seq<char>, i: int) -> Seq<Seq<char>>
    decreases s.len() + 1 - i,
{
    if i < 0 || i >= s.len() {
        Seq::empty()
    } else if is_quote(s[i]) {
        let j = position_from(s, i + 1, s[i]);
        proof {
            lemma_position_from(s, i + 1, s[i]);
        }
        let inner = s.subrange(i + 1, j);
        (if inner.len() == 0 {
            Seq::empty()
        } else {
            seq![inner]
        }) + quoted_from(s, j + 1)
    } else {
        quoted_from(s, i + 1)
    }
}

pub proof fn lemma_quoted_len(s: Seq<char>, i: int)
    ensures
        quoted_from(s, i).len() > 0 ==> s.len() > 0,
        within(quoted_from(s, i), (s.len() - 1) as nat),
    decreases s.len() + 1 - i,
{
    if i < 0 || i >= s.len() {
    } else if is_quote(s[i]) {
        let j = position_from(s, i + 1, s[i]);
        lemma_position_from(s, i + 1, s[i]);
        lemma_quoted_len(s, j + 1);
        let inner = s.subrange(i + 1, j);
        let here: Seq<Seq<char>> = if inner.len() == 0 {
            Seq::empty()
        } else {
            seq![inner]
        };
        assert(quoted_from(s, i) == here + quoted_from(s, j + 1));
        lemma_within_concat(here, quoted_from(s, j + 1), (s.len() - 1) as nat);
    } else {
        lemma_quoted_len(s, i + 1);
    }
}

/// The word that a finished run of characters gives, if it is not empty.
pub open spec fn word(cur: Seq<char>) -> Seq<Seq<char>> {
    if cur.len() == 0 {
        Seq::empty()
    } else {
        seq![cur]
    }
}

/// The words of `s` from position `i` on, where `cur` has been read of the
/// current one and `quote` is the quote that is open.
pub open spec fn words_from(
    s: Seq<char>,
    i: int,
    quote: Option<char>,
    cur: Seq<char>,
) -> Seq<Seq<char>>
    decreases s.len() - i,
{
    if i >= s.len() {
        word(cur)
    } else {
        let c = s[i];
        match quote {
            Some(q) => if c == q {
                words_from(s, i + 1, None, cur)
            } else {
                words_from(s, i + 1, quote, cur.push(c))
            },
            None => if is_quote(c) {
                words_from(s, i + 1, Some(c), cur)
            } else if white_space(c) {
                word(cur) + words_from(s, i + 1, None, Seq::empty())
            } else {
                words_from(s, i + 1, None, cur.push(c))
            },
        }
    }
}

/// The words of a command: split at white space outside quotes, quotes removed.
pub open spec fn words(s: Seq<char>) -> Seq<Seq<char>> {
    words_from(s, 0, None, Seq::empty())
}

/// The space that stands between two words.
pub open spec fn space() -> Seq<char> {
    " "@
}

pub proof fn lemma_joined_prepend(first: Seq<char>, rest: Seq<Seq<char>>)
    ensures
        joined(seq![first] + rest, space()).len() == first.len() + (if rest.len() == 0 {
            0
        } else {
            1 + joined(rest, space()).len()
        }),
    decreases rest.len(),
{
    reveal_strlit(" ");
    let all = seq![first] + rest;
    if rest.len() == 0 {
        assert(all == seq![first]);
    } else {
        assert(all.drop_last() == seq![first] + rest.drop_last());
        lemma_joined_prepend(first, rest.drop_last());
        if rest.len() == 1 {
            assert(rest.drop_last() == Seq::<Seq<char>>::empty());
        }
    }
}

pub proof fn lemma_words_span(s: Seq<char>, i: int, quote: Option<char>, cur: Seq<char>)
    requires
        0 <= i <= s.len(),
    ensures
        joined(words_from(s, i, quote, cur), space()).len() <= cur.len() + s.len() - i,
        forall|k: int|
            0 <= k < words_from(s, i, quote, cur).len() ==> (#[trigger] words_from(
                s,
                i,
                quote,
                cur,
            )[k]).len() > 0,
    decreases s.len() - i,
{
    if i < s.len() {
        let c = s[i];
        match quote {
            Some(q) => if c == q {
                lemma_words_span(s, i + 1, None, cur);
            } else {
                lemma_words_span(s, i + 1, quote, cur.push(c));
            },
            None => if is_quote(c) {
                lemma_words_span(s, i + 1, Some(c), cur);
            } else if white_space(c) {
                let rest = words_from(s, i + 1, None, Seq::empty());
                lemma_words_span(s, i + 1, None, Seq::empty());
                if cur.len() > 0 {
                    lemma_joined_prepend(cur, rest);
                } else {
                    assert(word(cur) + rest == rest);
                }
            } else {
                lemma_words_span(s, i + 1, None, cur.push(c));
            },
        }
    }
}

pub proof fn lemma_joined_skip(parts: Seq<Seq<char>>, k: int)
    requires
        0 < k <= parts.len(),
        forall|j: int| 0 <= j < parts.len() ==> (#[trigger] parts[j]).len() > 0,
    ensures
        joined(parts.skip(k), space()).len() < joined(parts, space()).len(),
    decreases k,
{
    let rest = parts.skip(1);
    assert(parts == seq![parts[0]] + rest);
    lemma_joined_prepend(parts[0], rest);
    if k == 1 {
    } else {
        lemma_joined_skip(rest, k - 1);
        assert(rest.skip(k - 1) == parts.skip(k));
    }
}

/// Joining the words of a command after the first few gives a shorter text.
pub proof fn lemma_rest_shorter(s: Seq<char>, k: int)
    requires
        0 < k <= words(s).len(),
    ensures
        joined(words(s).skip(k), space()).len() < s.len(),
{
    lemma_words_span(s, 0, None, Seq::empty());
    lemma_joined_skip(words(s), k);
}

pub open spec fn is_separator(c: char) -> bool {
    c == '/' || c == '\\'
}

/// The last path component of a command word.
pub open spec fn base_name(s: Seq<char>) -> Seq<char>
    decreases s.len(),
{
    if s.len() == 0 {
        s
    } else if is_separator(s.last()) {
        Seq::empty()
    } else {
        base_name(s.drop_last()).push(s.last())
    }
}

pub proof fn lemma_base_name_step(s: Seq<char>, i: int)
    requires
        0 < i <= s.len(),
        !is_separator(s[i - 1]),
    ensures
        base_name(s.take(i)) + s.skip(i) == base_name(s.take(i - 1)) + s.skip(i - 1),
{
    assert(s.take(i).drop_last() == s.take(i - 1));
    let head = base_name(s.take(i - 1));
    assert(base_name(s.take(i)) == head.push(s[i - 1]));
    assert(head.push(s[i - 1]) + s.skip(i) == head + s.skip(i - 1));
}

/// An `ssh` option that takes the next word as its value.
pub open spec fn ssh_valued(t: Seq<char>) -> bool {
    t == "-p"@ || t == "-i"@ || t == "-l"@ || t == "-o"@ || t == "-F"@ || t == "-J"@ || t == "-W"@
}

/// Where the remote command starts among the words after `ssh`: behind the host and a
/// `--` that follows it, or behind a `--` in its place. It is the number of words when
/// there is none.
pub open spec fn remote_start(args: Seq<Seq<char>>, i: int) -> int
    decreases args.len() + 1 - i,
{
    if i >= args.len() {
        args.len() as int
    } else if args[i] == "--"@ {
        i + 1
    } else if ssh_valued(args[i]) {
        remote_start(args, i + 2)
    } else if has_prefix(args[i], "-"@) {
        remote_start(args, i + 1)
    } else if i + 1 < args.len() && args[i + 1] == "--"@ {
        i + 2
    } else {
        i + 1
    }
}

pub proof fn lemma_remote_start(args: Seq<Seq<char>>, i: int)
    requires
        0 <= i,
    ensures
        0 <= remote_start(args, i) <= args.len(),
    decreases args.len() + 1 - i,
{
    if i < args.len() {
        lemma_remote_start(args, i + 1);
        lemma_remote_start(args, i + 2);
    }
}

/// The remote command in the words after `ssh`.
pub open spec fn remote_command(args: Seq<Seq<char>>) -> Seq<char> {
    joined(args.skip(remote_start(args, 0)), space())
}

pub proof fn lemma_remote_shorter(s: Seq<char>, k: int)
    requires
        0 < k <= words(s).len(),
    ensures
        remote_command(words(s).skip(k)).len() < s.len(),
{
    let args = words(s).skip(k);
    let at = remote_start(args, 0);
    lemma_remote_start(args, 0);
    assert(args.skip(at) == words(s).skip(k + at));
    lemma_rest_shorter(s, k + at);
}

/// A word in front of a command that does not name the command itself: an
/// assignment or a wrapper such as `sudo`.
pub open spec fn is_lead_in(t: Seq<char>) -> bool {
    ||| t.contains('=') && !has_prefix(t, "-"@) && !has_prefix(t, "/"@)
    ||| t == "sudo"@
    ||| t == "command"@
    ||| t == "env"@
    ||| t == "nice"@
    ||| t == "nohup"@
}

/// The position of the command's own name among its words, or their number.
pub open spec fn command_at(ws: Seq<Seq<char>>, i: int) -> int
    decreases ws.len() - i,
{
    if i >= ws.len() {
        ws.len() as int
    } else if is_lead_in(ws[i]) {
        command_at(ws, i + 1)
    } else {
        i
    }
}

pub proof fn lemma_command_at(ws: Seq<Seq<char>>, i: int)
    requires
        0 <= i <= ws.len(),
    ensures
        i <= command_at(ws, i) <= ws.len(),
    decreases ws.len() - i,
{
    if i < ws.len() && is_lead_in(ws[i]) {
        lemma_command_at(ws, i + 1);
    }
}

/// The name of the program that a command runs.
pub open spec fn program(s: Seq<char>) -> Option<Seq<char>> {
    let at = command_at(words(s), 0);
    if at < words(s).len() {
        Some(base_name(words(s)[at]))
    } else {
        None
    }
}

/// The remote command of a segment that runs `ssh`.
pub open spec fn remote_part(s: Seq<char>) -> Seq<char> {
    remote_command(words(s).skip(command_at(words(s), 0) + 1))
}

/// Whether a command line runs the program `bin`: directly, through `ssh`, or in
/// a quoted part that is itself read as a command line.
pub open spec fn invokes(bin: Seq<char>, command: Seq<char>) -> bool
    decreases command.len(), 1int,
{
    proof {
        lemma_segments_len(command, 0, None, Seq::empty());
    }
    exists|k: int|
        0 <= k < segments(command).len() && segment_invokes(bin, #[trigger] segments(command)[k])
}

/// Whether one segment of a command line runs the program `bin`.
pub open spec fn segment_invokes(bin: Seq<char>, segment: Seq<char>) -> bool
    decreases segment.len(), 0int,
{
    proof {
        lemma_quoted_len(segment, 0);
        lemma_command_at(words(segment), 0);
        if command_at(words(segment), 0) < words(segment).len() {
            lemma_remote_shorter(segment, command_at(words(segment), 0) + 1);
        }
    }
    ||| program(segment) == Some(bin)
    ||| program(segment) == Some("ssh"@) && invokes(bin, remote_part(segment))
    ||| exists|k: int|
        0 <= k < quoted_from(segment, 0).len() && invokes(
            bin,
            #[trigger] quoted_from(segment, 0)[k],
        )
}

/// A `git` option that takes the next word as its value.
pub open spec fn git_valued(t: Seq<char>) -> bool {
    t == "-C"@ || t == "-c"@ || t == "--git-dir"@ || t == "--work-tree"@
}

/// The first word from position `i` on that is neither an option of `git` nor the
/// value of one.
pub open spec fn git_operand(ws: Seq<Seq<char>>, i: int) -> Option<Seq<char>>
    decreases ws.len() + 1 - i,
{
    if i >= ws.len() {
        None
    } else if git_valued(ws[i]) {
        git_operand(ws, i + 2)
    } else if has_prefix(ws[i], "-"@) {
        git_operand(ws, i + 1)
    } else {
        Some(ws[i])
    }
}

/// The `git` subcommand that a segment runs, directly or through `ssh`.
pub open spec fn git_verb(segment: Seq<char>) -> Option<Seq<char>>
    decreases segment.len(),
{
    let ws = words(segment);
    let at = command_at(ws, 0);
    proof {
        lemma_command_at(ws, 0);
        if at < ws.len() {
            lemma_remote_shorter(segment, at + 1);
        }
    }
    if at >= ws.len() {
        None
    } else if base_name(ws[at]) == "ssh"@ {
        git_verb(remote_part(segment))
    } else if base_name(ws[at]) == "git"@ {
        git_operand(ws, at + 1)
    } else {
        None
    }
}

/// Whether a command line runs `git` with one of the given subcommands, directly,
/// through `ssh`, or in a quoted part that is itself read as a command line.
pub open spec fn runs_git(command: Seq<char>, verbs: Seq<Seq<char>>) -> bool
    decreases command.len(), 1int,
{
    proof {
        lemma_segments_len(command, 0, None, Seq::empty());
    }
    exists|k: int|
        0 <= k < segments(command).len() && segment_runs_git(#[trigger] segments(command)[k], verbs)
}

/// Whether one segment of a command line runs `git` with one of the given
/// subcommands.
pub open spec fn segment_runs_git(segment: Seq<char>, verbs: Seq<Seq<char>>) -> bool
    decreases segment.len(), 0int,
{
    proof {
        lemma_quoted_len(segment, 0);
    }
    ||| git_verb(segment) matches Some(verb) && verbs.contains(verb)
    ||| exists|k: int|
        0 <= k < quoted_from(segment, 0).len() && runs_git(
            #[trigger] quoted_from(segment, 0)[k],
            verbs,
        )
}

/// The `git` subcommands that send commits elsewhere.
pub open spec fn pushing_verbs() -> Seq<Seq<char>> {
    seq!["push"@, "send-pack"@, "request-pull"@]
}

/// What a command line does that the policy blocks, if anything.
pub open spec fn blocked(command: Seq<char>) -> Option<Seq<char>> {
    if runs_git(command, pushing_verbs()) {
        Some("git push"@)
    } else if invokes("gh"@, command) {
        Some("gh"@)
    } else if invokes("hub"@, command) {
        Some("hub"@)
    } else {
        None
    }
}

/// What a pushing command is told by default.
pub open spec fn default_denied() -> Seq<char> {
    "Remote Git push or publish is restricted in this environment. Do not run `git push` or `gh`. Local `git status` / `diff` / `log` / `add` / `commit` is allowed. Keep changes in this workspace."@
}

/// The refusal for a blocked command.
pub open spec fn denial(kind: Seq<char>, message: Seq<char>) -> Seq<char> {
    "Policy denied `"@ + kind + "`: "@ + message
}

/// The refusal of a command line under the default message, if it is blocked.
pub fn deny_git_cli(command: &str) -> (r: Option<String>)
    ensures
        r is Some <==> blocked(command@) is Some,
        r matches Some(text) ==> text@ == denial(blocked(command@)->0, default_denied()),
{
    deny_git_cli_with_message(
        command,
        "Remote Git push or publish is restricted in this environment. Do not run `git push` or `gh`. Local `git status` / `diff` / `log` / `add` / `commit` is allowed. Keep changes in this workspace.",
    )
}

/// The refusal of a command line under the given message, if it is blocked.
pub fn deny_git_cli_with_message(command: &str, message: &str) -> (r: Option<String>)
    ensures
        r is Some <==> blocked(command@) is Some,
        r matches Some(text) ==> text@ == denial(blocked(command@)->0, message@),
{
    match blocked_kind(command) {
        Some(kind) => {
            let mut out = "Policy denied `".to_string();
            out.append(kind);
            out.append("`: ");
            out.append(message);
            Some(out)
        },
        None => None,
    }
}

/// The refusal of a command line in a cloud run, if it is blocked.
pub fn deny_cloud_github_cli(command: &str) -> (r: Option<String>)
    ensures
        r is Some <==> blocked(command@) is Some,
        r matches Some(text) ==> text@ == denial(blocked(command@)->0, default_denied()),
{
    deny_git_cli(command)
}

/// What a command line does that the policy blocks, if anything.
pub fn blocked_kind(command: &str) -> (r: Option<&'static str>)
    ensures
        r is Some <==> blocked(command@) is Some,
        r matches Some(kind) ==> kind@ == blocked(command@)->0,
{
    let mut verbs: Vec<String> = Vec::new();
    verbs.push("push".to_string());
    verbs.push("send-pack".to_string());
    verbs.push("request-pull".to_string());
    proof {
        assert(texts(verbs@) == pushing_verbs());
    }
    if git_subcommand_is(command, &verbs) {
        return Some("git push");
    }
    if command_invokes("gh", command) {
        return Some("gh");
    }
    if command_invokes("hub", command) {
        return Some("hub");
    }
    None
}

/// Whether a command line runs the program `bin`.
fn command_invokes(bin: &str, command: &str) -> (r: bool)
    ensures
        r == invokes(bin@, command@),
    decreases command@.len(),
{
    let parts = split_segments(command);
    let ghost all = segments(command@);
    proof {
        lemma_segments_len(command@, 0, None, Seq::empty());
    }
    let mut k: usize = 0;
    while k < parts.len()
        invariant
            k <= parts.len(),
            texts(parts@) == all,
            all == segments(command@),
            within(all, command@.len()),
            forall|j: int| 0 <= j < k ==> !segment_invokes(bin@, #[trigger] all[j]),
        decreases parts.len() - k,
    {
        let segment = parts[k].as_str();
        proof {
            assert(all[k as int] == segment@);
            lemma_quoted_len(segment@, 0);
            lemma_command_at(words(segment@), 0);
        }
        let name = first_command(segment);
        if let Some(name) = &name {
            if same_text(name.as_str(), bin) {
                proof {
                    assert(segment_invokes(bin@, all[k as int]));
                }
                return true;
            }
            if same_text(name.as_str(), "ssh") {
                let tokens = tokenize(segment);
                let at: usize = command_position(&tokens);
                proof {
                    lemma_remote_shorter(segment@, at + 1);
                }
                let remote = ssh_remote_command(&tokens, at + 1);
                if command_invokes(bin, remote.as_str()) {
                    proof {
                        assert(segment_invokes(bin@, all[k as int]));
                    }
                    return true;
                }
            }
        }
        let inner = quoted_parts(segment);
        let ghost quoted = quoted_from(segment@, 0);
        let mut q: usize = 0;
        while q < inner.len()
            invariant
                q <= inner.len(),
                k < all.len(),
                segment@ == all[k as int],
                all == segments(command@),
                segment@.len() <= command@.len(),
                quoted == quoted_from(segment@, 0),
                texts(inner@) == quoted,
                quoted.len() > 0 ==> segment@.len() > 0,
                within(quoted, (segment@.len() - 1) as nat),
                forall|j: int| 0 <= j < q ==> !invokes(bin@, #[trigger] quoted[j]),
            decreases inner.len() - q,
        {
            proof {
                assert(quoted[q as int] == inner@[q as int]@);
            }
            if command_invokes(bin, inner[q].as_str()) {
                proof {
                    assert(invokes(bin@, quoted[q as int]));
                    assert(segment_invokes(bin@, all[k as int]));
                }
                return true;
            }
            q += 1;
        }
        proof {
            assert(!segment_invokes(bin@, all[k as int]));
        }
        k += 1;
    }
    false
}

/// Whether a command line runs `git` with one of the given subcommands.
fn git_subcommand_is(command: &str, verbs: &Vec<String>) -> (r: bool)
    ensures
        r == runs_git(command@, texts(verbs@)),
    decreases command@.len(),
{
    let parts = split_segments(command);
    let ghost all = segments(command@);
    let ghost wanted = texts(verbs@);
    proof {
        lemma_segments_len(command@, 0, None, Seq::empty());
    }
    let mut k: usize = 0;
    while k < parts.len()
        invariant
            k <= parts.len(),
            wanted == texts(verbs@),
            texts(parts@) == all,
            all == segments(command@),
            within(all, command@.len()),
            forall|j: int| 0 <= j < k ==> !segment_runs_git(#[trigger] all[j], wanted),
        decreases parts.len() - k,
    {
        let segment = parts[k].as_str();
        proof {
            assert(all[k as int] == segment@);
            lemma_quoted_len(segment@, 0);
        }
        if let Some(verb) = git_subcommand(segment) {
            if has_text(verbs, verb.as_str()) {
                proof {
                    assert(segment_runs_git(all[k as int], wanted));
                }
                return true;
            }
        }
        let inner = quoted_parts(segment);
        let ghost quoted = quoted_from(segment@, 0);
        let mut q: usize = 0;
        while q < inner.len()
            invariant
                q <= inner.len(),
                k < all.len(),
                wanted == texts(verbs@),
                segment@ == all[k as int],
                all == segments(command@),
                segment@.len() <= command@.len(),
                quoted == quoted_from(segment@, 0),
                texts(inner@) == quoted,
                quoted.len() > 0 ==> segment@.len() > 0,
                within(quoted, (segment@.len() - 1) as nat),
                forall|j: int| 0 <= j < q ==> !runs_git(#[trigger] quoted[j], wanted),
            decreases inner.len() - q,
        {
            proof {
                assert(quoted[q as int] == inner@[q as int]@);
            }
            if git_subcommand_is(inner[q].as_str(), verbs) {
                proof {
                    assert(runs_git(quoted[q as int], wanted));
                    assert(segment_runs_git(all[k as int], wanted));
                }
                return true;
            }
            q += 1;
        }
        proof {
            assert(!segment_runs_git(all[k as int], wanted));
        }
        k += 1;
    }
    false
}

/// The commands of a command line.
fn split_segments(command: &str) -> (r: Vec<String>)
    ensures
        texts(r@) == segments(command@),
{
    let chars = chars_of(command);
    let n: usize = chars.len();
    let mut out: Vec<String> = Vec::new();
    let mut cur = String::new();
    let mut quote: Option<char> = None;
    let mut i: usize = 0;
    proof {
        assert(texts(out@) + segments(command@) == segments(command@));
        assert(cur@ == Seq::<char>::empty());
    }
    while i < n
        invariant
            i <= n == chars.len(),
            chars@ == command@,
            texts(out@) + segments_from(command@, i as int, quote, cur@) == segments(command@),
        decreases n - i,
    {
        let c: char = chars[i];
        if let Some(q) = quote {
            cur.push(c);
            if c == q {
                quote = None;
            } else if c == '\\' && i + 1 < n {
                cur.push(chars[i + 1]);
                i += 1;
            }
            i += 1;
        } else if c == '\'' || c == '"' {
            quote = Some(c);
            cur.push(c);
            i += 1;
        } else if c == ';' || c == '\n' {
            flush_seg(&mut out, &mut cur);
            i += 1;
        } else if (c == '&' || c == '|') && i + 1 < n && chars[i + 1] == c {
            flush_seg(&mut out, &mut cur);
            i += 2;
        } else if c == '&' || c == '|' {
            flush_seg(&mut out, &mut cur);
            i += 1;
        } else {
            cur.push(c);
            i += 1;
        }
    }
    flush_seg(&mut out, &mut cur);
    out
}

/// Ends the current segment: it joins the list when it is not blank.
fn flush_seg(out: &mut Vec<String>, cur: &mut String)
    ensures
        texts(final(out)@) == texts(old(out)@) + flushed(old(cur)@),
        final(cur)@ == Seq::<char>::empty(),
{
    let s = trim(cur.as_str());
    *cur = String::new();
    if !s.as_str().is_empty() {
        out.push(s);
    }
}

/// The non-empty texts between quotes.
fn quoted_parts(segment: &str) -> (r: Vec<String>)
    ensures
        texts(r@) == quoted_from(segment@, 0),
{
    let chars = chars_of(segment);
    let n: usize = chars.len();
    let mut out: Vec<String> = Vec::new();
    let mut i: usize = 0;
    proof {
        assert(texts(out@) + quoted_from(segment@, 0) == quoted_from(segment@, 0));
    }
    while i < n
        invariant
            i <= n == chars.len(),
            chars@ == segment@,
            texts(out@) + quoted_from(segment@, i as int) == quoted_from(segment@, 0),
        decreases n - i,
    {
        let c: char = chars[i];
        if c == '\'' || c == '"' {
            let mut j: usize = i + 1;
            while j < n && chars[j] != c
                invariant
                    i < j <= n == chars.len(),
                    chars@ == segment@,
                    position_from(segment@, i + 1, c) == position_from(segment@, j as int, c),
                decreases n - j,
            {
                j += 1;
            }
            let ghost before = texts(out@);
            let ghost rest = quoted_from(segment@, j + 1);
            proof {
                assert(position_from(segment@, i + 1, c) == j);
                assert(position_from(segment@, j as int, c) == j);
            }
            if j > i + 1 {
                let inner = text_between(&chars, i + 1, j);
                out.push(inner);
                proof {
                    assert(texts(out@) == before.push(inner@));
                    assert(before + (seq![inner@] + rest) == texts(out@) + rest);
                }
            } else {
                proof {
                    assert(Seq::<Seq<char>>::empty() + rest == rest);
                }
            }
            if j < n {
                i = j + 1;
            } else {
                i = n;
            }
            proof {
                assert(quoted_from(segment@, i as int) == rest);
            }
        } else {
            i += 1;
        }
    }
    out
}

/// The words of a command.
fn tokenize(segment: &str) -> (r: Vec<String>)
    ensures
        texts(r@) == words(segment@),
{
    let chars = chars_of(segment);
    let n: usize = chars.len();
    let mut out: Vec<String> = Vec::new();
    let mut cur = String::new();
    let mut quote: Option<char> = None;
    let mut i: usize = 0;
    proof {
        assert(texts(out@) + words(segment@) == words(segment@));
        assert(cur@ == Seq::<char>::empty());
    }
    while i < n
        invariant
            i <= n == chars.len(),
            chars@ == segment@,
            texts(out@) + words_from(segment@, i as int, quote, cur@) == words(segment@),
        decreases n - i,
    {
        let c: char = chars[i];
        if let Some(q) = quote {
            if c == q {
                quote = None;
            } else {
                cur.push(c);
            }
        } else if c == '\'' || c == '"' {
            quote = Some(c);
        } else if is_white_space(c) {
            let ghost before = texts(out@);
            let ghost rest = words_from(segment@, i + 1, None, Seq::empty());
            if !cur.as_str().is_empty() {
                let ghost last = cur@;
                out.push(cur);
                cur = String::new();
                proof {
                    assert(texts(out@) == before.push(last));
                    assert(before + (word(last) + rest) == texts(out@) + rest);
                }
            } else {
                proof {
                    assert(cur@ == Seq::<char>::empty());
                    assert(before + (word(cur@) + rest) == before + rest);
                }
            }
        } else {
            cur.push(c);
        }
        i += 1;
    }
    if !cur.as_str().is_empty() {
        out.push(cur);
    }
    out
}

/// The last path component of a command word.
fn basename(cmd: &str) -> (r: String)
    ensures
        r@ == base_name(cmd@),
{
    let chars = chars_of(cmd);
    let n: usize = chars.len();
    let mut i: usize = n;
    proof {
        assert(chars@.take(n as int) == chars@);
        assert(chars@.skip(n as int) == Seq::<char>::empty());
    }
    while i > 0 && chars[i - 1] != '/' && chars[i - 1] != '\\'
        invariant
            i <= n == chars.len(),
            base_name(chars@) == base_name(chars@.take(i as int)) + chars@.skip(i as int),
        decreases i,
    {
        proof {
            lemma_base_name_step(chars@, i as int);
        }
        i -= 1;
    }
    proof {
        assert(chars@.subrange(i as int, n as int) == chars@.skip(i as int));
        assert(base_name(chars@.take(i as int)) == Seq::<char>::empty());
    }
    text_between(&chars, i, n)
}

/// The remote command in the words that follow `ssh`, which start at `from`.
fn ssh_remote_command(tokens: &Vec<String>, from: usize) -> (r: String)
    requires
        from <= tokens.len(),
    ensures
        r@ == remote_command(texts(tokens@).skip(from as int)),
{
    let n: usize = tokens.len();
    let ghost args = texts(tokens@).skip(from as int);
    let mut i: usize = from;
    while i < n
        invariant
            from <= i <= n == tokens.len(),
            args == texts(tokens@).skip(from as int),
            remote_start(args, 0) == remote_start(args, i - from),
        decreases n - i,
    {
        let t = tokens[i].as_str();
        proof {
            assert(args[i - from] == t@);
        }
        if same_text(t, "--") {
            proof {
                assert(args.skip(i + 1 - from) == texts(tokens@).skip(i + 1));
            }
            return join_from(tokens, i + 1, " ");
        }
        if same_text(t, "-p") || same_text(t, "-i") || same_text(t, "-l") || same_text(t, "-o")
            || same_text(t, "-F") || same_text(t, "-J") || same_text(t, "-W") {
            if i + 1 < n {
                i += 2;
            } else {
                proof {
                    assert(remote_start(args, i + 2 - from) == remote_start(args, n - from));
                }
                i = n;
            }
        } else if starts_with(t, "-") {
            i += 1;
        } else {
            proof {
                assert(args.skip(i + 1 - from) == texts(tokens@).skip(i + 1));
            }
            if i + 1 < n {
                proof {
                    assert(args[i + 1 - from] == tokens@[i + 1]@);
                    assert(args.skip(i + 2 - from) == texts(tokens@).skip(i + 2));
                }
                if same_text(tokens[i + 1].as_str(), "--") {
                    return join_from(tokens, i + 2, " ");
                }
            }
            return join_from(tokens, i + 1, " ");
        }
    }
    proof {
        assert(args.skip(args.len() as int) == Seq::<Seq<char>>::empty());
    }
    String::new()
}

/// Whether a word stands in front of a command without naming it.
fn lead_in(t: &str) -> (r: bool)
    ensures
        r == is_lead_in(t@),
{
    (contains_char(t, '=') && !starts_with(t, "-") && !starts_with(t, "/")) || same_text(t, "sudo")
        || same_text(t, "command") || same_text(t, "env") || same_text(t, "nice") || same_text(
        t,
        "nohup",
    )
}

/// The position of the command's own name among its words.
fn command_position(tokens: &Vec<String>) -> (r: usize)
    ensures
        r == command_at(texts(tokens@), 0),
        r <= tokens.len(),
{
    let mut i: usize = 0;
    while i < tokens.len()
        invariant
            i <= tokens.len(),
            command_at(texts(tokens@), 0) == command_at(texts(tokens@), i as int),
        decreases tokens.len() - i,
    {
        proof {
            assert(texts(tokens@)[i as int] == tokens@[i as int]@);
        }
        if !lead_in(tokens[i].as_str()) {
            return i;
        }
        i += 1;
    }
    i
}

/// The name of the program that a command runs.
fn first_command(segment: &str) -> (r: Option<String>)
    ensures
        r is Some <==> program(segment@) is Some,
        r matches Some(name) ==> name@ == program(segment@)->0,
{
    let tokens = tokenize(segment);
    let at: usize = command_position(&tokens);
    if at < tokens.len() {
        proof {
            assert(texts(tokens@)[at as int] == tokens@[at as int]@);
        }
        Some(basename(tokens[at].as_str()))
    } else {
        None
    }
}

/// The `git` subcommand that a segment runs, directly or through `ssh`.
fn git_subcommand(segment: &str) -> (r: Option<String>)
    ensures
        r is Some <==> git_verb(segment@) is Some,
        r matches Some(verb) ==> verb@ == git_verb(segment@)->0,
    decreases segment@.len(),
{
    let tokens = tokenize(segment);
    let n: usize = tokens.len();
    let at: usize = command_position(&tokens);
    if at >= n {
        return None;
    }
    let ghost ws = words(segment@);
    proof {
        assert(ws[at as int] == tokens@[at as int]@);
        lemma_remote_shorter(segment@, at + 1);
    }
    let name = basename(tokens[at].as_str());
    if same_text(name.as_str(), "ssh") {
        let remote = ssh_remote_command(&tokens, at + 1);
        return git_subcommand(remote.as_str());
    }
    if !same_text(name.as_str(), "git") {
        return None;
    }
    let mut i: usize = at + 1;
    while i < n
        invariant
            at < i <= n == tokens.len(),
            texts(tokens@) == ws,
            git_operand(ws, at + 1) == git_operand(ws, i as int),
            git_verb(segment@) == git_operand(ws, at + 1),
        decreases n - i,
    {
        let t = tokens[i].as_str();
        proof {
            assert(ws[i as int] == t@);
        }
        if same_text(t, "-C") || same_text(t, "-c") || same_text(t, "--git-dir") || same_text(
            t,
            "--work-tree",
        ) {
            if i + 1 < n {
                i += 2;
            } else {
                proof {
                    assert(git_operand(ws, i + 2) == git_operand(ws, n as int));
                }
                i = n;
            }
        } else if starts_with(t, "-") {
            i += 1;
        } else {
            return Some(t.to_string());
        }
    }
    None
}

proof fn lemma_command_at_behind(first: Seq<char>, ws: Seq<Seq<char>>, i: int)
    requires
        0 <= i <= ws.len(),
    ensures
        command_at(seq![first] + ws, i + 1) == command_at(ws, i) + 1,
    decreases ws.len() - i,
{
    if i < ws.len() {
        assert((seq![first] + ws)[i + 1] == ws[i]);
        if is_lead_in(ws[i]) {
            lemma_command_at_behind(first, ws, i + 1);
        }
    }
}

proof fn lemma_git_operand_behind(first: Seq<char>, ws: Seq<Seq<char>>, i: int)
    requires
        0 <= i,
    ensures
        git_operand(seq![first] + ws, i + 1) == git_operand(ws, i),
    decreases ws.len() + 1 - i,
{
    if i < ws.len() {
        assert((seq![first] + ws)[i + 1] == ws[i]);
        lemma_git_operand_behind(first, ws, i + 1);
        lemma_git_operand_behind(first, ws, i + 2);
    }
}

/// A wrapper or an assignment in front of a command hides neither the program that
/// it runs, nor its `git` subcommand, nor what it runs through `ssh`.
pub proof fn wrappers_hide_nothing(wrapper: Seq<char>, bare: Seq<char>, wrapped: Seq<char>)
    requires
        is_lead_in(wrapper),
        words(wrapped) == seq![wrapper] + words(bare),
    ensures
        program(wrapped) == program(bare),
        git_verb(wrapped) == git_verb(bare),
        program(bare) is Some ==> remote_part(wrapped) == remote_part(bare),
{
    let ws = words(bare);
    let all = words(wrapped);
    assert(all[0] == wrapper);
    lemma_command_at_behind(wrapper, ws, 0);
    lemma_command_at(ws, 0);
    let at = command_at(ws, 0);
    assert(command_at(all, 0) == command_at(all, 1));
    if at < ws.len() {
        assert(all[at + 1] == ws[at]);
        assert(all.skip(at + 2) == ws.skip(at + 1));
        lemma_git_operand_behind(wrapper, ws, at + 1);
    }
}

/// No part of a command line escapes the policy: a push in one of its segments, or in
/// a quoted part of one, is a push of the whole line.
pub proof fn every_part_counts(command: Seq<char>, k: int, j: int)
    requires
        0 <= k < segments(command).len(),
    ensures
        segment_runs_git(segments(command)[k], pushing_verbs()) ==> blocked(command) == Some(
            "git push"@,
        ),
        segment_invokes("gh"@, segments(command)[k]) ==> blocked(command) is Some,
        segment_invokes("hub"@, segments(command)[k]) ==> blocked(command) is Some,
        0 <= j < quoted_from(segments(command)[k], 0).len() && blocked(
            quoted_from(segments(command)[k], 0)[j],
        ) is Some ==> blocked(command) is Some,
{
    let segment = segments(command)[k];
    if 0 <= j < quoted_from(segment, 0).len() {
        let part = quoted_from(segment, 0)[j];
        if runs_git(part, pushing_verbs()) {
            assert(segment_runs_git(segment, pushing_verbs()));
        }
        if invokes("gh"@, part) {
            assert(segment_invokes("gh"@, segment));
        }
        if invokes("hub"@, part) {
            assert(segment_invokes("hub"@, segment));
        }
    }
}

/// The quote that is open at the end of `s`, read from position `i` on, where `quote`
/// is the one that is open there.
pub open spec fn open_at_end(s: Seq<char>, i: int, quote: Option<char>) -> Option<char>
    decreases s.len() - i,
{
    if i >= s.len() {
        quote
    } else {
        match quote {
            Some(q) => if s[i] == q {
                open_at_end(s, i + 1, None)
            } else if s[i] == '\\' && i + 1 < s.len() {
                open_at_end(s, i + 2, quote)
            } else {
                open_at_end(s, i + 1, quote)
            },
            None => if is_quote(s[i]) {
                open_at_end(s, i + 1, Some(s[i]))
            } else {
                open_at_end(s, i + 1, None)
            },
        }
    }
}

/// Whether `sep` ends the command line `a` and starts `b` when it stands between them:
/// no quote is open, and its characters form no other operator with those around it.
pub open spec fn separates(a: Seq<char>, sep: Seq<char>, b: Seq<char>) -> bool {
    &&& open_at_end(a, 0, None) is None
    &&& {
        ||| sep == seq![';'] || sep == seq!['\n']
        ||| sep == seq!['&', '&'] && (a.len() > 0 ==> a.last() != '&')
        ||| sep == seq!['|', '|'] && (a.len() > 0 ==> a.last() != '|')
        ||| sep == seq!['&'] && (a.len() > 0 ==> a.last() != '&') && (b.len() > 0 ==> b[0] != '&')
        ||| sep == seq!['|'] && (a.len() > 0 ==> a.last() != '|') && (b.len() > 0 ==> b[0] != '|')
    }
}

proof fn lemma_segments_behind(a: Seq<char>, b: Seq<char>, i: int, quote: Option<char>, cur: Seq<char>)
    requires
        0 <= i,
    ensures
        segments_from(a + b, a.len() + i, quote, cur) == segments_from(b, i, quote, cur),
    decreases b.len() - i,
{
    if i < b.len() {
        let c = b[i];
        let none = Seq::<char>::empty();
        assert((a + b)[a.len() + i] == c);
        if i + 1 < b.len() {
            assert((a + b)[a.len() + i + 1] == b[i + 1]);
        }
        match quote {
            Some(q) => {
                lemma_segments_behind(a, b, i + 1, None, cur.push(c));
                lemma_segments_behind(a, b, i + 1, quote, cur.push(c));
                if i + 1 < b.len() {
                    lemma_segments_behind(a, b, i + 2, quote, cur.push(c).push(b[i + 1]));
                }
            },
            None => {
                lemma_segments_behind(a, b, i + 1, Some(c), cur.push(c));
                lemma_segments_behind(a, b, i + 1, None, none);
                if i + 1 < b.len() {
                    lemma_segments_behind(a, b, i + 2, None, none);
                }
                lemma_segments_behind(a, b, i + 1, None, cur.push(c));
            },
        }
    }
}

proof fn lemma_segments_joined(
    a: Seq<char>,
    sep: Seq<char>,
    b: Seq<char>,
    i: int,
    quote: Option<char>,
    cur: Seq<char>,
)
    requires
        separates(a, sep, b),
        0 <= i <= a.len(),
        open_at_end(a, i, quote) is None,
    ensures
        segments_from(a + sep + b, i, quote, cur) == segments_from(a, i, quote, cur) + segments(b),
    decreases a.len() - i,
{
    let all = a + sep + b;
    let none = Seq::<char>::empty();
    if i == a.len() {
        assert(all[i] == sep[0]);
        if sep.len() == 2 {
            assert(all[i + 1] == sep[1]);
        } else if b.len() > 0 {
            assert(all[i + 1] == b[0]);
        }
        lemma_segments_behind(a + sep, b, 0, None, none);
    } else {
        let c = a[i];
        let rest = segments(b);
        assert(all[i] == c);
        if i + 1 < a.len() {
            assert(all[i + 1] == a[i + 1]);
        } else {
            assert(a.last() == c);
            assert(all[i + 1] == sep[0]);
        }
        match quote {
            Some(q) => if c == q {
                lemma_segments_joined(a, sep, b, i + 1, None, cur.push(c));
            } else if c == '\\' && i + 1 < a.len() {
                lemma_segments_joined(a, sep, b, i + 2, quote, cur.push(c).push(a[i + 1]));
            } else {
                lemma_segments_joined(a, sep, b, i + 1, quote, cur.push(c));
            },
            None => if is_quote(c) {
                lemma_segments_joined(a, sep, b, i + 1, Some(c), cur.push(c));
            } else if c == ';' || c == '\n' {
                lemma_segments_joined(a, sep, b, i + 1, None, none);
                assert(flushed(cur) + (segments_from(a, i + 1, None, none) + rest) == flushed(cur)
                    + segments_from(a, i + 1, None, none) + rest);
            } else if (c == '&' || c == '|') && i + 1 < a.len() && a[i + 1] == c {
                assert(open_at_end(a, i + 1, None) == open_at_end(a, i + 2, None));
                lemma_segments_joined(a, sep, b, i + 2, None, none);
                assert(flushed(cur) + (segments_from(a, i + 2, None, none) + rest) == flushed(cur)
                    + segments_from(a, i + 2, None, none) + rest);
            } else if c == '&' || c == '|' {
                lemma_segments_joined(a, sep, b, i + 1, None, none);
                assert(flushed(cur) + (segments_from(a, i + 1, None, none) + rest) == flushed(cur)
                    + segments_from(a, i + 1, None, none) + rest);
            } else {
                lemma_segments_joined(a, sep, b, i + 1, None, cur.push(c));
            },
        }
    }
}

/// Two command lines in one, joined by `;`, a line end, `&&`, `||`, `&` or `|`, run what one
/// of them runs, and are blocked exactly when one of them is.
pub proof fn joined_commands_hide_nothing(a: Seq<char>, sep: Seq<char>, b: Seq<char>)
    requires
        separates(a, sep, b),
    ensures
        segments(a + sep + b) == segments(a) + segments(b),
        forall|bin: Seq<char>| #[trigger]
            invokes(bin, a + sep + b) == (invokes(bin, a) || invokes(bin, b)),
        forall|verbs: Seq<Seq<char>>| #[trigger]
            runs_git(a + sep + b, verbs) == (runs_git(a, verbs) || runs_git(b, verbs)),
        blocked(a + sep + b) is Some <==> blocked(a) is Some || blocked(b) is Some,
{
    let all = a + sep + b;
    lemma_segments_joined(a, sep, b, 0, None, Seq::empty());
    let (x, y) = (segments(a), segments(b));
    assert(segments(all) == x + y);
    assert forall|k: int| 0 <= k < x.len() implies #[trigger] x[k] == segments(all)[k] by {}
    assert forall|k: int| 0 <= k < y.len() implies #[trigger] y[k] == segments(all)[x.len() + k] by {}
    assert forall|k: int| 0 <= k < segments(all).len() implies #[trigger] segments(all)[k] == (if k
        < x.len() {
        x[k]
    } else {
        y[k - x.len()]
    }) by {}
    assert forall|bin: Seq<char>| #[trigger]
        invokes(bin, all) == (invokes(bin, a) || invokes(bin, b)) by {}
    assert forall|verbs: Seq<Seq<char>>| #[trigger]
        runs_git(all, verbs) == (runs_git(a, verbs) || runs_git(b, verbs)) by {}
}

proof fn lemma_words_behind(a: Seq<char>, b: Seq<char>, i: int, quote: Option<char>, cur: Seq<char>)
    requires
        0 <= i,
    ensures
        words_from(a + b, a.len() + i, quote, cur) == words_from(b, i, quote, cur),
    decreases b.len() - i,
{
    if i < b.len() {
        let c = b[i];
        assert((a + b)[a.len() + i] == c);
        lemma_words_behind(a, b, i + 1, None, cur);
        lemma_words_behind(a, b, i + 1, quote, cur.push(c));
        lemma_words_behind(a, b, i + 1, Some(c), cur);
        lemma_words_behind(a, b, i + 1, None, Seq::empty());
        lemma_words_behind(a, b, i + 1, None, cur.push(c));
    }
}

proof fn lemma_plain_run(plain: Seq<char>, rest: Seq<char>, i: int)
    requires
        0 <= i <= plain.len(),
        forall|j: int|
            0 <= j < plain.len() ==> !white_space(#[trigger] plain[j]) && plain[j] != '\'' && plain[j]
                != '"',
    ensures
        words_from(plain + rest, i, None, plain.take(i)) == words_from(
            plain + rest,
            plain.len() as int,
            None,
            plain,
        ),
    decreases plain.len() - i,
{
    if i < plain.len() {
        assert((plain + rest)[i] == plain[i]);
        assert(plain.take(i).push(plain[i]) == plain.take(i + 1));
        lemma_plain_run(plain, rest, i + 1);
    } else {
        assert(plain.take(i) == plain);
    }
}

proof fn lemma_quoted_run(
    open: Seq<char>,
    inner: Seq<char>,
    q: char,
    rest: Seq<char>,
    cur: Seq<char>,
    i: int,
)
    requires
        0 <= i <= inner.len(),
        !inner.contains(q),
    ensures
        words_from(open + inner + rest, open.len() + i, Some(q), cur + inner.take(i)) == words_from(
            open + inner + rest,
            (open.len() + inner.len()) as int,
            Some(q),
            cur + inner,
        ),
    decreases inner.len() - i,
{
    if i < inner.len() {
        let s = open + inner + rest;
        assert(s[open.len() + i] == inner[i]);
        assert(inner.contains(inner[i]));
        assert((cur + inner.take(i)).push(inner[i]) == cur + inner.take(i + 1));
        lemma_quoted_run(open, inner, q, rest, cur, i + 1);
    } else {
        assert(inner.take(i) == inner);
    }
}

/// A word ends at white space: a run of plain characters is one word, and what follows the
/// white space behind it is read on its own. White space in front does not matter.
pub proof fn words_end_at_white_space(plain: Seq<char>, gap: char, rest: Seq<char>)
    requires
        plain.len() > 0,
        forall|j: int|
            0 <= j < plain.len() ==> !white_space(#[trigger] plain[j]) && plain[j] != '\'' && plain[j]
                != '"',
        white_space(gap),
    ensures
        words(Seq::empty()) == Seq::<Seq<char>>::empty(),
        words(plain) == seq![plain],
        words(plain.push(gap) + rest) == seq![plain] + words(rest),
        words(seq![gap] + rest) == words(rest),
{
    let none = Seq::<char>::empty();
    assert(plain + none == plain);
    assert(plain.take(0) == none);
    lemma_plain_run(plain, none, 0);
    let s = plain.push(gap) + rest;
    let tail = seq![gap] + rest;
    assert(s == plain + tail);
    lemma_plain_run(plain, tail, 0);
    assert(s[plain.len() as int] == gap);
    assert(gap != '\'' && gap != '"');
    lemma_words_behind(plain.push(gap), rest, 0, None, none);
    assert(tail[0] == gap);
    lemma_words_behind(seq![gap], rest, 0, None, none);
    assert(word(none) + words(rest) == words(rest));
    assert(words_from(tail, 0, None, none) == word(none) + words_from(tail, 1, None, none));
}

/// Quotes keep what stands between them together as one word, and are not part of it.
pub proof fn quotes_keep_words_together(q: char, inner: Seq<char>)
    requires
        q == '\'' || q == '"',
        inner.len() > 0,
        !inner.contains(q),
    ensures
        words(seq![q] + inner + seq![q]) == seq![inner],
{
    let none = Seq::<char>::empty();
    let open = seq![q];
    let s = open + inner + seq![q];
    assert(s[0] == q);
    assert(words(s) == words_from(s, 1, Some(q), none));
    assert(none + inner.take(0) == none);
    lemma_quoted_run(open, inner, q, seq![q], none, 0);
    assert(s[1 + inner.len() as int] == q);
    assert(none + inner == inner);
    assert(words_from(s, s.len() as int, None, inner) == seq![inner]);
}

/// A command line without quotes and separators is one segment, without the space around it.
pub proof fn plain_lines_are_one_segment(s: Seq<char>)
    requires
        forall|j: int|
            0 <= j < s.len() ==> s[j] != '\'' && s[j] != '"' && s[j] != ';' && s[j] != '\n' && s[j]
                != '&' && (#[trigger] s[j]) != '|',
    ensures
        trimmed(s).len() > 0 ==> segments(s) == seq![trimmed(s)],
        trimmed(s).len() == 0 ==> segments(s) == Seq::<Seq<char>>::empty(),
{
    assert(s.take(0) == Seq::<char>::empty());
    lemma_plain_segment(s, 0);
}

proof fn lemma_plain_segment(s: Seq<char>, i: int)
    requires
        0 <= i <= s.len(),
        forall|j: int|
            0 <= j < s.len() ==> s[j] != '\'' && s[j] != '"' && s[j] != ';' && s[j] != '\n' && s[j]
                != '&' && (#[trigger] s[j]) != '|',
    ensures
        segments_from(s, i, None, s.take(i)) == flushed(s),
    decreases s.len() - i,
{
    if i < s.len() {
        assert(s.take(i).push(s[i]) == s.take(i + 1));
        lemma_plain_segment(s, i + 1);
    } else {
        assert(s.take(i) == s);
    }
}

/// A program is known by its own name, whichever directory it is called from.
pub proof fn programs_are_known_by_their_name(directory: Seq<char>, part: char, name: Seq<char>)
    requires
        part == '/' || part == '\\',
        forall|j: int| 0 <= j < name.len() ==> name[j] != '/' && (#[trigger] name[j]) != '\\',
    ensures
        base_name(name) == name,
        base_name(directory.push(part) + name) == name,
    decreases name.len(),
{
    let s = directory.push(part) + name;
    if name.len() > 0 {
        let rest = name.drop_last();
        assert forall|j: int| 0 <= j < rest.len() implies rest[j] != '/' && (#[trigger] rest[j])
            != '\\' by {
            assert(rest[j] == name[j]);
        }
        programs_are_known_by_their_name(directory, part, rest);
        assert(s.last() == name.last());
        assert(name.last() == name[name.len() - 1]);
        assert(s.drop_last() == directory.push(part) + rest);
        assert(rest.push(name.last()) == name);
    } else {
        assert(s == directory.push(part));
        assert(s.last() == part);
        assert(base_name(s) == name);
    }
}

/// The words that stand in front of a command without being it are assignments and the
/// wrappers `sudo`, `command`, `env`, `nice` and `nohup`, and no others.
pub proof fn lead_ins_are_assignments_and_wrappers(t: Seq<char>)
    ensures
        is_lead_in("sudo"@) && is_lead_in("command"@) && is_lead_in("env"@) && is_lead_in("nice"@)
            && is_lead_in("nohup"@),
        t.contains('=') && t[0] != '-' && t[0] != '/' ==> is_lead_in(t),
        !t.contains('=') && t != "sudo"@ && t != "command"@ && t != "env"@ && t != "nice"@ && t
            != "nohup"@ ==> !is_lead_in(t),
        t.len() > 0 && (t[0] == '-' || t[0] == '/') && t != "sudo"@ && t != "command"@ && t != "env"@
            && t != "nice"@ && t != "nohup"@ ==> !is_lead_in(t),
{
    reveal_strlit("-");
    reveal_strlit("/");
    assert("-"@ == seq!['-'] && "/"@ == seq!['/']);
    if has_prefix(t, "-"@) {
        assert(t.subrange(0, 1)[0] == '-');
    }
    if has_prefix(t, "/"@) {
        assert(t.subrange(0, 1)[0] == '/');
    }
    if t.len() > 0 && t[0] == '-' {
        assert(t.subrange(0, 1) == "-"@);
    }
    if t.len() > 0 && t[0] == '/' {
        assert(t.subrange(0, 1) == "/"@);
    }
}

/// The program of a command is its first word that is no assignment and no wrapper.
pub proof fn the_first_real_word_is_the_program(s: Seq<char>, k: int)
    requires
        0 <= k < words(s).len(),
        forall|i: int| 0 <= i < k ==> is_lead_in(#[trigger] words(s)[i]),
        !is_lead_in(words(s)[k]),
    ensures
        program(s) == Some(base_name(words(s)[k])),
        remote_part(s) == remote_command(words(s).skip(k + 1)),
        command_at(words(s), 0) == k,
{
    lemma_first_real_word(words(s), 0, k);
}

proof fn lemma_first_real_word(ws: Seq<Seq<char>>, i: int, k: int)
    requires
        0 <= i <= k < ws.len(),
        forall|j: int| 0 <= j < k ==> is_lead_in(#[trigger] ws[j]),
        !is_lead_in(ws[k]),
    ensures
        command_at(ws, i) == k,
    decreases k - i,
{
    if i < k {
        lemma_first_real_word(ws, i + 1, k);
    }
}

/// A line pushes if one of its segments runs `git` with `push`, `send-pack` or
/// `request-pull` as the first word that is neither an option nor the value of one. The
/// options `-C`, `-c`, `--git-dir` and `--work-tree` take the next word as their value.
pub proof fn pushes_are_blocked(command: Seq<char>, k: int, at: int)
    requires
        0 <= k < segments(command).len(),
        ({
            let ws = words(segments(command)[k]);
            &&& 0 <= at
            &&& at + 1 < ws.len()
            &&& forall|i: int| 0 <= i < at ==> is_lead_in(#[trigger] ws[i])
            &&& !is_lead_in(ws[at])
            &&& base_name(ws[at]) == "git"@
        }),
    ensures
        ({
            let ws = words(segments(command)[k]);
            let verb = ws[at + 1];
            &&& verb == "push"@ || verb == "send-pack"@ || verb == "request-pull"@ ==> blocked(command)
                == Some("git push"@)
            &&& at + 3 < ws.len() && (verb == "-C"@ || verb == "-c"@ || verb == "--git-dir"@ || verb
                == "--work-tree"@) && (ws[at + 3] == "push"@ || ws[at + 3] == "send-pack"@
                || ws[at + 3] == "request-pull"@) ==> blocked(command) == Some("git push"@)
        }),
{
    reveal_strlit("git");
    reveal_strlit("ssh");
    reveal_strlit("push");
    reveal_strlit("send-pack");
    reveal_strlit("request-pull");
    reveal_strlit("-");
    reveal_strlit("-C");
    reveal_strlit("-c");
    reveal_strlit("--git-dir");
    reveal_strlit("--work-tree");
    let segment = segments(command)[k];
    let ws = words(segment);
    assert("git"@[0] == 'g' && "ssh"@[0] == 's');
    the_first_real_word_is_the_program(segment, at);
    assert(git_verb(segment) == git_operand(ws, at + 1));
    lemma_pushing_verb_is_an_operand(ws, at + 1);
    lemma_pushing_verb_is_an_operand(ws, at + 3);
    assert(pushing_verbs()[0] == "push"@ && pushing_verbs()[1] == "send-pack"@
        && pushing_verbs()[2] == "request-pull"@);
    if git_verb(segment) is Some && pushing_verbs().contains(git_verb(segment)->0) {
        assert(segment_runs_git(segment, pushing_verbs()));
    }
}

proof fn lemma_pushing_verb_is_an_operand(ws: Seq<Seq<char>>, i: int)
    requires
        0 <= i,
    ensures
        i < ws.len() && (ws[i] == "push"@ || ws[i] == "send-pack"@ || ws[i] == "request-pull"@)
            ==> git_operand(ws, i) == Some(ws[i]),
{
    reveal_strlit("push");
    reveal_strlit("send-pack");
    reveal_strlit("request-pull");
    reveal_strlit("-");
    reveal_strlit("-C");
    reveal_strlit("-c");
    reveal_strlit("--git-dir");
    reveal_strlit("--work-tree");
    assert("-"@ == seq!['-']);
    if i < ws.len() && (ws[i] == "push"@ || ws[i] == "send-pack"@ || ws[i] == "request-pull"@) {
        assert(ws[i][0] == 'p' || ws[i][0] == 's' || ws[i][0] == 'r');
        assert("-C"@[0] == '-' && "-c"@[0] == '-' && "--git-dir"@[0] == '-' && "--work-tree"@[0]
            == '-');
        if has_prefix(ws[i], "-"@) {
            assert(ws[i].subrange(0, 1)[0] == '-');
        }
    }
}

/// A line that runs `gh` or `hub` in one of its segments is blocked.
pub proof fn publishing_programs_are_blocked(command: Seq<char>, k: int)
    requires
        0 <= k < segments(command).len(),
        program(segments(command)[k]) == Some("gh"@) || program(segments(command)[k]) == Some(
            "hub"@,
        ),
    ensures
        blocked(command) is Some,
{
    let segment = segments(command)[k];
    assert(segment_invokes("gh"@, segment) || segment_invokes("hub"@, segment));
}

/// What runs through `ssh` counts: a line one of whose segments runs `ssh` is blocked where
/// the remote command would be for its programs, and where it is a single command also for
/// its pushes.
pub proof fn remote_commands_count(command: Seq<char>, k: int)
    requires
        0 <= k < segments(command).len(),
        program(segments(command)[k]) == Some("ssh"@),
    ensures
        ({
            let remote = remote_part(segments(command)[k]);
            &&& invokes("gh"@, remote) || invokes("hub"@, remote) ==> blocked(command) is Some
            &&& git_verb(remote) == Some("push"@) || git_verb(remote) == Some("send-pack"@) || git_verb(
                remote,
            ) == Some("request-pull"@) ==> blocked(command) == Some("git push"@)
        }),
{
    let segment = segments(command)[k];
    let remote = remote_part(segment);
    assert(git_verb(segment) == git_verb(remote));
    assert(pushing_verbs()[0] == "push"@ && pushing_verbs()[1] == "send-pack"@
        && pushing_verbs()[2] == "request-pull"@);
    if git_verb(remote) is Some && pushing_verbs().contains(git_verb(remote)->0) {
        assert(segment_runs_git(segment, pushing_verbs()));
    }
    if invokes("gh"@, remote) {
        assert(segment_invokes("gh"@, segment));
    }
    if invokes("hub"@, remote) {
        assert(segment_invokes("hub"@, segment));
    }
}

/// Behind `ssh`, the first word that is neither an option nor the value of one is the host,
/// and what follows it is the remote command; a `--` in front of the command is not part of
/// it.
pub proof fn the_host_comes_before_the_remote_command(args: Seq<Seq<char>>, host: Seq<char>)
    requires
        host.len() > 0,
        host[0] != '-',
    ensures
        args.len() == 0 || args[0] != "--"@ ==> remote_command(seq![host] + args) == joined(args, " "@),
        remote_command(seq![host, "--"@] + args) == joined(args, " "@),
        remote_command(seq!["-p"@, host, host] + args) == remote_command(seq![host] + args),
        remote_command(seq!["-v"@, host] + args) == remote_command(seq![host] + args),
        remote_command(seq!["--"@] + args) == joined(args, " "@),
{
    reveal_strlit("-");
    reveal_strlit("--");
    reveal_strlit("-p");
    reveal_strlit("-i");
    reveal_strlit("-l");
    reveal_strlit("-o");
    reveal_strlit("-F");
    reveal_strlit("-J");
    reveal_strlit("-W");
    reveal_strlit("-v");
    assert("-"@ == seq!['-']);
    assert("--"@[0] == '-' && "-p"@[0] == '-' && "-i"@[0] == '-' && "-l"@[0] == '-' && "-o"@[0] == '-'
        && "-F"@[0] == '-' && "-J"@[0] == '-' && "-W"@[0] == '-' && "-v"@[0] == '-');
    assert("-p"@ != "--"@) by {
        assert("-p"@[1] == 'p' && "--"@[1] == '-');
    }
    assert("-v"@[1] == 'v' && "-p"@[1] == 'p' && "-i"@[1] == 'i' && "-l"@[1] == 'l' && "-o"@[1] == 'o'
        && "-F"@[1] == 'F' && "-J"@[1] == 'J' && "-W"@[1] == 'W' && "--"@[1] == '-');
    assert("-v"@.subrange(0, 1) == "-"@);
    assert(has_prefix("-v"@, "-"@));
    if has_prefix(host, "-"@) {
        assert(host.subrange(0, 1)[0] == '-');
    }
    let one = seq![host] + args;
    assert(one[0] == host);
    if args.len() > 0 {
        assert(one[1] == args[0]);
    }
    assert(one.skip(1) == args);
    let two = seq![host, "--"@] + args;
    assert(two[0] == host && two[1] == "--"@);
    assert(two.skip(2) == args);
    let dashed = seq!["--"@] + args;
    assert(dashed[0] == "--"@);
    assert(dashed.skip(1) == args);
    let valued = seq!["-p"@, host, host] + args;
    assert(valued[0] == "-p"@ && valued[2] == host);
    assert(remote_start(valued, 0) == remote_start(valued, 2));
    if args.len() > 0 {
        assert(valued[3] == args[0]);
    }
    assert(remote_start(valued, 2) == remote_start(one, 0) + 2);
    assert(remote_start(one, 0) <= one.len());
    assert(valued.skip(remote_start(one, 0) + 2) == one.skip(remote_start(one, 0)));
    let flagged = seq!["-v"@, host] + args;
    assert(flagged[0] == "-v"@ && flagged[1] == host);
    if args.len() > 0 {
        assert(flagged[2] == args[0]);
    }
    assert(remote_start(flagged, 0) == remote_start(flagged, 1));
    assert(remote_start(flagged, 1) == remote_start(one, 0) + 1);
    assert(flagged.skip(remote_start(one, 0) + 1) == one.skip(remote_start(one, 0)));
}

/// Each non-empty text between two quotes of a kind counts as a part of its own.
pub proof fn quoted_texts_are_found(before: Seq<char>, q: char, inner: Seq<char>, rest: Seq<char>)
    requires
        q == '\'' || q == '"',
        inner.len() > 0,
        !inner.contains(q),
        forall|j: int| 0 <= j < before.len() ==> before[j] != '\'' && (#[trigger] before[j]) != '"',
    ensures
        quoted_from(before, 0) == Seq::<Seq<char>>::empty(),
        quoted_from(before.push(q) + inner.push(q) + rest, 0).len() > 0,
        quoted_from(before.push(q) + inner.push(q) + rest, 0)[0] == inner,
{
    lemma_no_quotes(before, Seq::empty(), 0);
    assert(before + Seq::empty() == before);
    let s = before.push(q) + inner.push(q) + rest;
    let tail = seq![q] + inner.push(q) + rest;
    assert(s == before + tail);
    lemma_no_quotes(before, tail, 0);
    let at = before.len() as int;
    assert(s[at] == q);
    lemma_position_from(s, at + 1, q);
    let end = at + 1 + inner.len();
    assert(s[end] == q);
    assert forall|j: int| at + 1 <= j < end implies s[j] != q by {
        assert(s[j] == inner[j - at - 1]);
        assert(inner.contains(inner[j - at - 1]));
    }
    lemma_next_quote(s, at + 1, q, end);
    assert(s.subrange(at + 1, end) == inner);
}

proof fn lemma_no_quotes(before: Seq<char>, rest: Seq<char>, i: int)
    requires
        0 <= i <= before.len(),
        forall|j: int| 0 <= j < before.len() ==> before[j] != '\'' && (#[trigger] before[j]) != '"',
    ensures
        quoted_from(before + rest, i) == quoted_from(before + rest, before.len() as int),
    decreases before.len() - i,
{
    if i < before.len() {
        assert((before + rest)[i] == before[i]);
        lemma_no_quotes(before, rest, i + 1);
    }
}

proof fn lemma_next_quote(s: Seq<char>, i: int, q: char, end: int)
    requires
        0 <= i <= end < s.len(),
        s[end] == q,
        forall|j: int| i <= j < end ==> s[j] != q,
    ensures
        position_from(s, i, q) == end,
    decreases end - i,
{
    if i < end {
        lemma_next_quote(s, i + 1, q, end);
    }
}

/// A line without quotes that runs neither `git`, `gh` and `hub` nor `ssh` is not blocked,
/// and neither is one whose `git` commands do not push.
pub proof fn harmless_lines_are_not_blocked(command: Seq<char>)
    requires
        forall|k: int|
            0 <= k < segments(command).len() ==> {
                let segment = #[trigger] segments(command)[k];
                &&& quoted_from(segment, 0).len() == 0
                &&& program(segment) != Some("gh"@)
                &&& program(segment) != Some("hub"@)
                &&& program(segment) != Some("ssh"@)
                &&& program(segment) == Some("git"@) ==> git_verb(segment) != Some("push"@)
                    && git_verb(segment) != Some("send-pack"@) && git_verb(segment) != Some(
                    "request-pull"@,
                )
            },
    ensures
        blocked(command) is None,
{
    assert forall|k: int| 0 <= k < segments(command).len() implies {
        let segment = #[trigger] segments(command)[k];
        &&& !segment_runs_git(segment, pushing_verbs())
        &&& !segment_invokes("gh"@, segment)
        &&& !segment_invokes("hub"@, segment)
    } by {
        let segment = segments(command)[k];
        lemma_command_at(words(segment), 0);
        if git_verb(segment) is Some {
            assert(program(segment) == Some("git"@));
        }
        if pushing_verbs().contains(git_verb(segment)->0) {
            let i = choose|i: int| 0 <= i < 3 && pushing_verbs()[i] == git_verb(segment)->0;
            assert(i == 0 || i == 1 || i == 2);
        }
    }
}

/// A refusal names what was blocked and says why, and there is one exactly where something is
/// blocked.
pub proof fn refusals_name_what_was_blocked(command: &str, message: &str, r: Option<String>)
    requires
        call_ensures(deny_git_cli_with_message, (command, message), r),
    ensures
        r is Some <==> blocked(command@) is Some,
        r matches Some(text) ==> has_part(text@, blocked(command@)->0) && has_suffix(text@, message@),
{
    if let Some(text) = r {
        let kind = blocked(command@)->0;
        let at = "Policy denied `"@.len() as int;
        assert(text@.subrange(at, at + kind.len()) == kind);
        assert(occurs_at(text@, kind, at));
        assert(text@.subrange(text@.len() - message@.len(), text@.len() as int) == message@);
    }
}

/// A refusal tells what was blocked and what to do in its place.
pub proof fn refusals_carry_their_message(command: &str, message: &str, r: Option<String>)
    requires
        call_ensures(deny_git_cli_with_message, (command, message), r),
    ensures
        r is Some <==> blocked(command@) is Some,
        r matches Some(text) ==> text@ == "Policy denied `"@ + blocked(command@)->0 + "`: "@ + message@,
{
}

/// What is said where no message is given tells what must not be run and what may.
pub proof fn default_refusals_say_what_may_run(command: &str, r: Option<String>)
    requires
        call_ensures(deny_git_cli, (command,), r),
    ensures
        r is Some <==> blocked(command@) is Some,
        r matches Some(text) ==> text@ == "Policy denied `"@ + blocked(command@)->0 + "`: "@
            + "Remote Git push or publish is restricted in this environment. Do not run `git push` or `gh`. Local `git status` / `diff` / `log` / `add` / `commit` is allowed. Keep changes in this workspace."@,
{
}

proof fn lemma_plain_characters(s: Seq<char>, i: int, j: int)
    requires
        0 <= i <= j <= s.len(),
        forall|k: int|
            i <= k < j ==> s[k] != '\'' && s[k] != '"' && s[k] != ';' && s[k] != '\n' && s[k]
                != '&' && (#[trigger] s[k]) != '|',
    ensures
        segments_from(s, i, None, s.take(i)) == segments_from(s, j, None, s.take(j)),
    decreases j - i,
{
    if i < j {
        assert(s.take(i).push(s[i]) == s.take(i + 1));
        lemma_plain_characters(s, i + 1, j);
    }
}

proof fn lemma_quoted_characters(s: Seq<char>, i: int, j: int, q: char)
    requires
        0 <= i <= j <= s.len(),
        forall|k: int| i <= k < j ==> s[k] != q && (#[trigger] s[k]) != '\\',
    ensures
        segments_from(s, i, Some(q), s.take(i)) == segments_from(s, j, Some(q), s.take(j)),
    decreases j - i,
{
    if i < j {
        assert(s.take(i).push(s[i]) == s.take(i + 1));
        lemma_quoted_characters(s, i + 1, j, q);
    }
}

/// Separators between quotes do not part a command line, and behind the closing quote they do
/// again: the quoted text belongs to the command that it stands in.
pub proof fn quoted_separators_do_not_part(a: Seq<char>, q: char, inner: Seq<char>, b: Seq<char>)
    requires
        forall|j: int|
            0 <= j < a.len() ==> a[j] != '\'' && a[j] != '"' && a[j] != ';' && a[j] != '\n' && a[j]
                != '&' && (#[trigger] a[j]) != '|',
        q == '\'' || q == '"',
        forall|j: int| 0 <= j < inner.len() ==> inner[j] != q && (#[trigger] inner[j]) != '\\',
    ensures
        ({
            let quoted = a.push(q) + inner.push(q);
            &&& trimmed(quoted).len() > 0 ==> segments(quoted) == seq![trimmed(quoted)]
            &&& trimmed(quoted).len() > 0 ==> segments(quoted.push(';') + b) == seq![
                trimmed(quoted),
            ] + segments(b)
        }),
{
    let quoted = a.push(q) + inner.push(q);
    let tail = quoted.push(';') + b;
    lemma_reads_quoted(a, q, inner, quoted, Seq::empty());
    assert(quoted + Seq::<char>::empty() == quoted);
    assert(quoted.take(quoted.len() as int) == quoted);
    assert(tail == quoted + (seq![';'] + b));
    lemma_reads_quoted(a, q, inner, tail, seq![';'] + b);
    let n = quoted.len() as int;
    assert(tail[n] == ';');
    assert(tail.take(n) == quoted);
    let none = Seq::<char>::empty();
    lemma_segments_behind(quoted.push(';'), b, 0, None, none);
    assert(segments_from(tail, n + 1, None, none) == segments(b));
}

proof fn lemma_reads_quoted(a: Seq<char>, q: char, inner: Seq<char>, s: Seq<char>, rest: Seq<char>)
    requires
        forall|j: int|
            0 <= j < a.len() ==> a[j] != '\'' && a[j] != '"' && a[j] != ';' && a[j] != '\n' && a[j]
                != '&' && (#[trigger] a[j]) != '|',
        q == '\'' || q == '"',
        forall|j: int| 0 <= j < inner.len() ==> inner[j] != q && (#[trigger] inner[j]) != '\\',
        s == a.push(q) + inner.push(q) + rest,
    ensures
        segments(s) == segments_from(
            s,
            (a.len() + inner.len() + 2) as int,
            None,
            s.take((a.len() + inner.len() + 2) as int),
        ),
{
    let n = a.len() as int;
    let m = n + 1 + inner.len();
    assert(s.take(0) == Seq::<char>::empty());
    assert forall|k: int| 0 <= k < n implies s[k] != '\'' && s[k] != '"' && s[k] != ';' && s[k]
        != '\n' && s[k] != '&' && (#[trigger] s[k]) != '|' by {
        assert(s[k] == a[k]);
    }
    lemma_plain_characters(s, 0, n);
    assert(s[n] == q);
    assert(s.take(n).push(q) == s.take(n + 1));
    assert forall|k: int| n + 1 <= k < m implies s[k] != q && (#[trigger] s[k]) != '\\' by {
        assert(s[k] == inner[k - n - 1]);
    }
    lemma_quoted_characters(s, n + 1, m, q);
    assert(s[m] == q);
    assert(s.take(m).push(q) == s.take(m + 1));
}

/// A backslash between quotes takes the next character along, also a quote.
pub proof fn escaped_quotes_stay_quoted(s: Seq<char>, i: int, q: char, cur: Seq<char>)
    requires
        0 <= i,
        i + 1 < s.len(),
        s[i] == '\\',
        q == '\'' || q == '"',
    ensures
        segments_from(s, i, Some(q), cur) == segments_from(
            s,
            i + 2,
            Some(q),
            cur.push('\\').push(s[i + 1]),
        ),
{
}

} // verus!
