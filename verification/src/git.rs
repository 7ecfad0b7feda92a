//! What is asked of `git` and what is made of its answers. The program is
//! run elsewhere; here are the arguments it is run with, the reading of
//! what it prints, and the rules by which repositories are found.

use vstd::prelude::*;
use crate::active::lemma_filter_push;
use crate::commits::{models, total_commits, CommitData, RepoCommits, RepoModel};
use crate::text::{split_lines, split_text, trim_chars, trim_text, trimmed, trimmed_of, views};
use crate::text::{lines_of, pieces_from};

verus! {

/// What ends the block of a commit where commits are logged with their
/// body.
pub const BLOCK_END: &'static str = "---GITBLOCK---";

/// What to do with an entry of a directory while repositories are looked
/// for.
#[derive(Clone, Copy, PartialEq, Eq, Debug)]
pub enum Discovery {
    /// Not a directory: pass it over.
    Skip,
    /// A repository: take it, and do not look inside.
    Collect,
    /// Another directory: look inside.
    Descend,
}

/// What to do with an entry: a directory that holds `.git` is a repository,
/// any other directory is searched in turn.
pub fn discovery_step(is_dir: bool, has_git: bool) -> (step: Discovery)
    ensures
        step == if !is_dir {
            Discovery::Skip
        } else if has_git {
            Discovery::Collect
        } else {
            Discovery::Descend
        },
{
    if !is_dir {
        Discovery::Skip
    } else if has_git {
        Discovery::Collect
    } else {
        Discovery::Descend
    }
}

/// The user that `git config user.email` names: what it printed, without
/// the white space around it; no user where the call failed.
pub fn git_user_from(success: bool, stdout: &str) -> (user: Option<String>)
    ensures
        user is Some <==> success,
        user matches Some(name) ==> name@ == trimmed(stdout@),
{
    if success {
        Some(trim_text(stdout))
    } else {
        None
    }
}

/// The arguments of `git` that come after the path of the repository and
/// the time since which commits are asked for. With their body, commits are
/// logged in blocks; else one to a line, of the current user only or of
/// everyone together with the author's name.
pub open spec fn format_arguments(detailed: bool, filter_by_user: bool, user: Option<Seq<char>>) -> Seq<
    Seq<char>,
> {
    if detailed {
        seq!["--date=format:'%Y-%m-%d %H:%M'"@, "--format=%h %ad%n%B (%an)%n---GITBLOCK---"@]
    } else if filter_by_user {
        match user {
            Some(name) => seq!["--pretty=format:%h %ar %s"@, "--author"@, name],
            None => seq!["--pretty=format:%h %ar %s"@],
        }
    } else {
        seq!["--pretty=format:%h %an %ar %s"@]
    }
}

/// The text that an optional string holds.
pub open spec fn text_of(value: Option<&String>) -> Option<Seq<char>> {
    match value {
        Some(text) => Some(text@),
        None => None,
    }
}

/// The arguments that bound the time window: its start, and its end where
/// one is given.
pub open spec fn window_arguments(since: Seq<char>, until: Option<Seq<char>>) -> Seq<Seq<char>> {
    match until {
        Some(end) => seq!["--since"@, since, "--until"@, end],
        None => seq!["--since"@, since],
    }
}

/// The arguments with which `git` logs the commits of a repository in a
/// time window.
pub open spec fn log_arguments_of(
    repo: Seq<char>,
    since: Seq<char>,
    until: Option<Seq<char>>,
    detailed: bool,
    filter_by_user: bool,
    user: Option<Seq<char>>,
) -> Seq<Seq<char>> {
    seq!["-C"@, repo, "log"@] + window_arguments(since, until) + format_arguments(
        detailed,
        filter_by_user,
        user,
    )
}

/// The arguments with which `git` logs the commits of the repository at
/// `repo` since `since` and, where it is given, until `until`.
pub fn log_arguments(
    repo: &str,
    since: &str,
    until: Option<&String>,
    detailed: bool,
    filter_by_user: bool,
    user: Option<&String>,
) -> (arguments: Vec<String>)
    ensures
        views(arguments@) == log_arguments_of(
            repo@,
            since@,
            text_of(until),
            detailed,
            filter_by_user,
            text_of(user),
        ),
{
    let mut arguments: Vec<String> = Vec::new();
    arguments.push("-C".to_owned());
    arguments.push(repo.to_owned());
    arguments.push("log".to_owned());
    arguments.push("--since".to_owned());
    arguments.push(since.to_owned());
    match until {
        Some(end) => {
            arguments.push("--until".to_owned());
            arguments.push(end.clone());
        },
        None => {},
    }
    if detailed {
        arguments.push("--date=format:'%Y-%m-%d %H:%M'".to_owned());
        arguments.push("--format=%h %ad%n%B (%an)%n---GITBLOCK---".to_owned());
    } else if filter_by_user {
        arguments.push("--pretty=format:%h %ar %s".to_owned());
        match user {
            Some(name) => {
                arguments.push("--author".to_owned());
                arguments.push(name.clone());
            },
            None => {},
        }
    } else {
        arguments.push("--pretty=format:%h %an %ar %s".to_owned());
    }
    assert(views(arguments@) =~= log_arguments_of(
        repo@,
        since@,
        text_of(until),
        detailed,
        filter_by_user,
        text_of(user),
    ));
    arguments
}

/// The arguments with which `git` shows one commit with the files it
/// touched.
pub fn details_arguments(repo: &str, commit_hash: &str) -> (arguments: Vec<String>)
    ensures
        views(arguments@) == seq![
            "-C"@,
            repo@,
            "show"@,
            "--pretty=fuller"@,
            "--name-status"@,
            commit_hash@,
        ],
{
    let mut arguments: Vec<String> = Vec::new();
    arguments.push("-C".to_owned());
    arguments.push(repo.to_owned());
    arguments.push("show".to_owned());
    arguments.push("--pretty=fuller".to_owned());
    arguments.push("--name-status".to_owned());
    arguments.push(commit_hash.to_owned());
    assert(views(arguments@) =~= seq![
        "-C"@,
        repo@,
        "show"@,
        "--pretty=fuller"@,
        "--name-status"@,
        commit_hash@,
    ]);
    arguments
}

/// The characters that surround the block of a commit.
pub open spec fn block_padding() -> Seq<char> {
    seq!['\n', '\r', ' ']
}

/// The texts of a sequence that are not empty, in their order.
pub open spec fn non_empty(parts: Seq<Seq<char>>) -> Seq<Seq<char>> {
    parts.filter(|part: Seq<char>| part.len() > 0)
}

/// The blocks of a log of commits with their body: what stands between the
/// block ends, each without the padding around it.
pub open spec fn blocks_of(stdout: Seq<char>) -> Seq<Seq<char>> {
    pieces_from(stdout, BLOCK_END@, 0).map_values(|part: Seq<char>| trimmed_of(part, block_padding()))
}

/// The commits that a log holds: its blocks that are not empty where
/// commits are logged with their body, else its lines.
pub open spec fn commits_of(stdout: Seq<char>, detailed: bool) -> Seq<Seq<char>> {
    if detailed {
        non_empty(blocks_of(stdout))
    } else {
        lines_of(stdout)
    }
}

/// Reads what `git log` printed.
pub fn parse_log(stdout: &str, detailed: bool) -> (commits: Vec<String>)
    ensures
        views(commits@) == commits_of(stdout@, detailed),
{
    if !detailed {
        return split_lines(stdout);
    }
    proof {
        reveal_strlit("---GITBLOCK---");
    }
    let parts = split_text(stdout, BLOCK_END);
    let mut padding: Vec<char> = Vec::new();
    padding.push('\n');
    padding.push('\r');
    padding.push(' ');
    assert(padding@ =~= block_padding());
    let ghost keep = |part: Seq<char>| part.len() > 0;
    let ghost blocks = blocks_of(stdout@);
    let mut commits: Vec<String> = Vec::new();
    let mut i: usize = 0;
    assert(blocks.take(0).filter(keep) =~= Seq::<Seq<char>>::empty()) by {
        reveal(Seq::filter);
    }
    assert(views(commits@) =~= Seq::<Seq<char>>::empty());
    while i < parts.len()
        invariant
            i <= parts.len(),
            padding@ == block_padding(),
            views(parts@) == pieces_from(stdout@, BLOCK_END@, 0),
            blocks == blocks_of(stdout@),
            blocks.len() == parts.len(),
            keep == |part: Seq<char>| part.len() > 0,
            views(commits@) == blocks.take(i as int).filter(keep),
        decreases parts.len() - i,
    {
        let block = trim_chars(parts[i].as_str(), &padding);
        proof {
            assert(views(parts@)[i as int] == parts@[i as int]@);
            assert(blocks[i as int] == block@);
            assert(blocks.take(i as int + 1) == blocks.take(i as int).push(block@));
            lemma_filter_push(blocks.take(i as int), keep, block@);
        }
        if block.as_str().unicode_len() > 0 {
            let ghost before = commits@;
            commits.push(block);
            assert(views(commits@) =~= views(before).push(block@));
        }
        i = i + 1;
    }
    assert(blocks.take(parts.len() as int) == blocks);
    commits
}

/// The commits that a call of `git log` gave: what it printed, read as a
/// log, where the call succeeded; none where it failed, whatever it
/// printed.
pub fn commits_from(success: bool, stdout: &str, detailed: bool) -> (commits: Option<Vec<String>>)
    ensures
        commits is Some <==> success,
        commits matches Some(c) ==> views(c@) == commits_of(stdout@, detailed),
{
    if success {
        Some(parse_log(stdout, detailed))
    } else {
        None
    }
}

/// The repositories that have commits, in their order.
pub open spec fn with_commits(repos: Seq<RepoModel>) -> Seq<RepoModel> {
    repos.filter(|r: RepoModel| r.commits.len() > 0)
}

/// Builds the data of a time window from what was loaded for each
/// repository: a repository without commits is left out, the others keep
/// their order. `None` where the commits and repositories that are kept
/// number `usize::MAX` or more together.
pub fn reload_commits(loaded: Vec<RepoCommits>) -> (data: Option<CommitData>)
    ensures
        data is Some <==> total_commits(with_commits(models(loaded@))) + with_commits(
            models(loaded@),
        ).len() < usize::MAX,
        data matches Some(d) ==> d@ == with_commits(models(loaded@)),
{
    let ghost keep = |r: RepoModel| r.commits.len() > 0;
    let ghost all = models(loaded@);
    let mut kept: Vec<RepoCommits> = Vec::new();
    assert(all.take(0).filter(keep) =~= Seq::<RepoModel>::empty()) by {
        reveal(Seq::filter);
    }
    assert(models(kept@) =~= Seq::<RepoModel>::empty());
    for entry in it: loaded
        invariant
            all == models(it.seq()),
            keep == |r: RepoModel| r.commits.len() > 0,
            models(kept@) == all.take(it.index() as int).filter(keep),
    {
        let ghost i = it.index() as int;
        proof {
            assert(all[i] == entry@);
            assert(all.take(i + 1) == all.take(i).push(entry@));
            lemma_filter_push(all.take(i), keep, entry@);
        }
        if entry.commits.len() > 0 {
            let ghost before = kept@;
            kept.push(entry);
            assert(models(kept@) =~= models(before).push(entry@));
        }
    }
    assert(all.take(all.len() as int) == all);
    CommitData::new(kept)
}

} // verus!
