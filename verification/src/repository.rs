//! The tag repository: the `git` commands that read and write tags, and what
//! their replies mean.

use crate::command::{run, run_outcome, Command, CommandView, Reply};
use crate::error::{result_view, ErrorView, TagError};
use crate::text::{lines, split_lines, views};
use crate::version::{parse_outcome, parsed_version, Version, VersionView};
use vstd::prelude::*;

verus! {

/// What an operation asks of its caller next.
#[derive(Debug, PartialEq, Eq)]
pub enum Step<T> {
    /// Run this command and call again with its reply added to the replies.
    Run(Command),
    /// The operation is over, with this result.
    Done(Result<T, TagError>),
}

/// The mathematical content of a [`Step`].
pub enum StepView<V> {
    Run(CommandView),
    Done(Result<V, ErrorView>),
}

impl<T: DeepView> DeepView for Step<T> {
    type V = StepView<T::V>;

    open spec fn deep_view(&self) -> StepView<T::V> {
        match self {
            Step::Run(command) => StepView::Run(command@),
            Step::Done(result) => StepView::Done(result_view(*result)),
        }
    }
}

/// `git` with these arguments and no input.
pub open spec fn git_request(args: Seq<Seq<char>>) -> CommandView {
    CommandView { program: "git"@, args, stdin: None }
}

/// The command that names the nearest tag.
pub open spec fn describe_request() -> CommandView {
    git_request(seq!["describe"@, "--abbrev=0"@, "--tags"@])
}

/// The command that lists all tags, by name and backwards.
pub open spec fn list_request() -> CommandView {
    git_request(seq!["tag"@, "--sort=-refname"@])
}

/// The command that pushes `tag` to the remote `origin`.
pub open spec fn push_request(tag: Seq<char>) -> CommandView {
    git_request(seq!["push"@, "origin"@, tag])
}

/// The command that deletes `tag`.
pub open spec fn delete_request(tag: Seq<char>) -> CommandView {
    git_request(seq!["tag"@, "-d"@, tag])
}

/// The command that lists the commits after `from` up to `to`, one line
/// each, merges left out.
pub open spec fn log_request(from: Seq<char>, to: Seq<char>) -> CommandView {
    git_request(seq!["log"@, from + ".."@ + to, "--oneline"@, "--no-merges"@])
}

/// The command that creates the annotated tag `name` and reads its message
/// from standard input.
pub open spec fn annotate_request(name: Seq<char>, message: Seq<char>) -> CommandView {
    CommandView {
        program: "git"@,
        args: seq!["tag"@, "-a"@, name, "-F"@, "-"@],
        stdin: Some(message),
    }
}

/// The command that creates the annotated tag `name` with the short message
/// `message`, given as an argument.
pub open spec fn short_tag_request(name: Seq<char>, message: Seq<char>) -> CommandView {
    git_request(seq!["tag"@, "-a"@, name, "-m"@, message])
}

/// The command that creates a repository's first tag, `v0.1.0`, with its own
/// name as message.
pub open spec fn first_tag_request() -> CommandView {
    short_tag_request("v0.1.0"@, "v0.1.0"@)
}

/// `git` with these arguments and no input.
fn git(args: Vec<String>) -> (r: Command)
    ensures
        r@ == git_request(views(args@)),
{
    Command { program: "git".to_owned(), args, stdin: None }
}

/// The command that names the nearest tag.
pub fn describe_command() -> (r: Command)
    ensures
        r@ == describe_request(),
{
    let mut args: Vec<String> = Vec::new();
    args.push("describe".to_owned());
    args.push("--abbrev=0".to_owned());
    args.push("--tags".to_owned());
    assert(views(args@) =~= seq!["describe"@, "--abbrev=0"@, "--tags"@]);
    git(args)
}

/// The command that lists all tags, by name and backwards.
pub fn list_command() -> (r: Command)
    ensures
        r@ == list_request(),
{
    let mut args: Vec<String> = Vec::new();
    args.push("tag".to_owned());
    args.push("--sort=-refname".to_owned());
    assert(views(args@) =~= seq!["tag"@, "--sort=-refname"@]);
    git(args)
}

/// The command that pushes `tag` to the remote `origin`.
pub fn push_command(tag: &str) -> (r: Command)
    ensures
        r@ == push_request(tag@),
{
    let mut args: Vec<String> = Vec::new();
    args.push("push".to_owned());
    args.push("origin".to_owned());
    args.push(tag.to_owned());
    assert(views(args@) =~= seq!["push"@, "origin"@, tag@]);
    git(args)
}

/// The command that deletes `tag`.
pub fn delete_command(tag: &str) -> (r: Command)
    ensures
        r@ == delete_request(tag@),
{
    let mut args: Vec<String> = Vec::new();
    args.push("tag".to_owned());
    args.push("-d".to_owned());
    args.push(tag.to_owned());
    assert(views(args@) =~= seq!["tag"@, "-d"@, tag@]);
    git(args)
}

/// The command that lists the commits after `from_ref` up to `to_ref`, one
/// line each, merges left out.
pub fn get_commit_log_between(from_ref: &str, to_ref: &str) -> (r: Command)
    ensures
        r@ == log_request(from_ref@, to_ref@),
{
    let mut range = from_ref.to_owned();
    range.append("..");
    range.append(to_ref);
    let mut args: Vec<String> = Vec::new();
    args.push("log".to_owned());
    args.push(range);
    args.push("--oneline".to_owned());
    args.push("--no-merges".to_owned());
    assert(views(args@) =~= seq![
        "log"@,
        from_ref@ + ".."@ + to_ref@,
        "--oneline"@,
        "--no-merges"@,
    ]);
    git(args)
}

/// The command that creates the annotated tag `name`. The message goes
/// through the program's standard input, never through its arguments.
pub fn create_annotated_tag(name: &str, message: &str) -> (r: Command)
    ensures
        r@ == annotate_request(name@, message@),
{
    let mut args: Vec<String> = Vec::new();
    args.push("tag".to_owned());
    args.push("-a".to_owned());
    args.push(name.to_owned());
    args.push("-F".to_owned());
    args.push("-".to_owned());
    assert(views(args@) =~= seq!["tag"@, "-a"@, name@, "-F"@, "-"@]);
    Command { program: "git".to_owned(), args, stdin: Some(message.to_owned()) }
}

/// The command that creates the annotated tag `name` with the short message
/// `message`. The message goes through the program's arguments, so this is
/// for messages of a few words.
pub fn create_short_tag(name: &str, message: &str) -> (r: Command)
    ensures
        r@ == short_tag_request(name@, message@),
{
    let mut args: Vec<String> = Vec::new();
    args.push("tag".to_owned());
    args.push("-a".to_owned());
    args.push(name.to_owned());
    args.push("-m".to_owned());
    args.push(message.to_owned());
    assert(views(args@) =~= seq!["tag"@, "-a"@, name@, "-m"@, message@]);
    git(args)
}

/// The command that creates a repository's first tag, `v0.1.0`, with its own
/// name as message.
pub fn first_tag_command() -> (r: Command)
    ensures
        r@ == first_tag_request(),
{
    create_short_tag("v0.1.0", "v0.1.0")
}

/// The latest tag as the output of the describe command tells it. Where the
/// program exited with a failure status, no tag is within reach.
pub open spec fn latest_of(output: Result<Seq<char>, ErrorView>) -> Result<
    VersionView,
    ErrorView,
> {
    match output {
        Ok(text) => parse_outcome(text),
        Err(ErrorView::Command { command, diagnostic }) => Err(
            ErrorView::NotFound { command, diagnostic },
        ),
        Err(e) => Err(e),
    }
}

/// The latest tag as the reply to the describe command tells it.
pub open spec fn latest_tag_of(reply: Reply) -> Result<VersionView, ErrorView> {
    latest_of(run_outcome(describe_request(), reply))
}

/// Reads the output of the describe command, as [`run`] gives it: the
/// version that the output names. A program that exited with a failure
/// status means that there is no tag, and gives `TagError::NotFound`.
pub fn read_latest(output: Result<String, TagError>) -> (r: Result<Version, TagError>)
    ensures
        result_view(r) == latest_of(result_view(output)),
{
    match output {
        Ok(text) => Version::parse(text.as_str()),
        Err(TagError::Command { command, diagnostic }) => Err(
            TagError::NotFound { command, diagnostic },
        ),
        Err(e) => Err(e),
    }
}

/// Reads the reply to the describe command.
pub fn latest_tag(reply: &Reply) -> (r: Result<Version, TagError>)
    ensures
        result_view(r) == latest_tag_of(*reply),
{
    read_latest(run(&describe_command(), reply))
}

/// The steps of [`get_latest_tag`].
pub open spec fn latest_tag_step(replies: Seq<Reply>) -> StepView<VersionView> {
    if replies.len() == 0 {
        StepView::Run(describe_request())
    } else {
        StepView::Done(latest_tag_of(replies[0]))
    }
}

/// The version of the nearest tag. Asks for the describe command, then reads
/// its reply: `TagError::NotFound` where the program reports failure,
/// `TagError::Parse` where the tag's name is no version.
pub fn get_latest_tag(replies: &[Reply]) -> (r: Step<Version>)
    ensures
        r.deep_view() == latest_tag_step(replies@),
{
    if replies.len() == 0 {
        Step::Run(describe_command())
    } else {
        Step::Done(latest_tag(&replies[0]))
    }
}

/// The members of `lines` that are not empty, in their order.
pub open spec fn nonempty(lines: Seq<Seq<char>>) -> Seq<Seq<char>> {
    lines.filter(|line: Seq<char>| line.len() > 0)
}

/// The names in a list of tags: the lines of `text` that are not empty.
pub open spec fn tag_names(text: Seq<char>) -> Seq<Seq<char>> {
    nonempty(lines(text))
}

/// The names in a list of tags, one to a line. Empty lines name nothing and
/// are left out.
pub fn tag_lines<'a>(text: &'a str) -> (r: Vec<&'a str>)
    ensures
        views(r@) == tag_names(text@),
{
    let found = split_lines(text);
    let mut out: Vec<&str> = Vec::new();
    let mut i: usize = 0;
    proof {
        reveal(Seq::filter);
    }
    while i < found.len()
        invariant
            i <= found.len(),
            views(out@) == nonempty(views(found@).subrange(0, i as int)),
        decreases found.len() - i,
    {
        proof {
            reveal(Seq::filter);
            assert(views(found@).subrange(0, i + 1).drop_last() =~= views(found@).subrange(
                0,
                i as int,
            ));
        }
        let line = found[i];
        if !line.is_empty() {
            out.push(line);
        }
        i += 1;
    }
    assert(views(found@).subrange(0, found.len() as int) =~= views(found@));
    out
}

/// The versions that `names` name, in their order, or the first of them that
/// names none.
pub open spec fn tags_of(names: Seq<Seq<char>>) -> Result<Seq<VersionView>, ErrorView>
    decreases names.len(),
{
    if names.len() == 0 {
        Ok(Seq::empty())
    } else {
        match tags_of(names.drop_last()) {
            Err(e) => Err(e),
            Ok(before) => match parsed_version(names.last()) {
                Some(v) => Ok(before.push(v)),
                None => Err(ErrorView::Parse { text: names.last() }),
            },
        }
    }
}

/// Once a list of names has failed, more names do not mend it.
proof fn lemma_tags_fail_for_good(names: Seq<Seq<char>>, n: int)
    requires
        0 <= n <= names.len(),
        tags_of(names.subrange(0, n)) is Err,
    ensures
        tags_of(names) == tags_of(names.subrange(0, n)),
    decreases names.len() - n,
{
    if n < names.len() {
        let longer = names.subrange(0, n + 1);
        assert(longer.drop_last() =~= names.subrange(0, n));
        lemma_tags_fail_for_good(names, n + 1);
    } else {
        assert(names.subrange(0, n) =~= names);
    }
}

/// Reads the version that each of `names` names. One name that names none
/// fails the whole, with that name.
pub fn parse_all(names: &[&str]) -> (r: Result<Vec<Version>, TagError>)
    ensures
        result_view(r) == tags_of(views(names@)),
{
    let mut out: Vec<Version> = Vec::new();
    let mut i: usize = 0;
    assert(out.deep_view() =~= Seq::<VersionView>::empty());
    while i < names.len()
        invariant
            i <= names.len(),
            tags_of(views(names@).subrange(0, i as int)) == Ok::<Seq<VersionView>, ErrorView>(
                out.deep_view(),
            ),
        decreases names.len() - i,
    {
        let ghost parsed = out.deep_view();
        assert(views(names@).subrange(0, i + 1).drop_last() =~= views(names@).subrange(
            0,
            i as int,
        ));
        match Version::parse(names[i]) {
            Ok(version) => {
                out.push(version);
                assert(out.deep_view() =~= parsed.push(version@));
            },
            Err(e) => {
                proof {
                    lemma_tags_fail_for_good(views(names@), i + 1);
                }
                return Err(e);
            },
        }
        i += 1;
    }
    assert(views(names@).subrange(0, names.len() as int) =~= views(names@));
    Ok(out)
}

/// Reads a list of tags, one to a line. Empty lines are passed over. One
/// line that is neither empty nor a version fails the whole.
pub fn parse_tags(text: &str) -> (r: Result<Vec<Version>, TagError>)
    ensures
        result_view(r) == tags_of(tag_names(text@)),
{
    let names = tag_lines(text);
    parse_all(names.as_slice())
}

/// All tags as the reply to the list command tells them.
pub open spec fn all_tags_of(reply: Reply) -> Result<Seq<VersionView>, ErrorView> {
    match run_outcome(list_request(), reply) {
        Ok(text) => tags_of(tag_names(text)),
        Err(e) => Err(e),
    }
}

/// The steps of [`get_all_tags`].
pub open spec fn all_tags_step(replies: Seq<Reply>) -> StepView<Seq<VersionView>> {
    if replies.len() == 0 {
        StepView::Run(list_request())
    } else {
        StepView::Done(all_tags_of(replies[0]))
    }
}

/// The versions of all tags, in the order in which the list command gives
/// them. Asks for the list command, then reads its reply. One tag whose name
/// is no version fails the whole with `TagError::Parse`.
pub fn get_all_tags(replies: &[Reply]) -> (r: Step<Vec<Version>>)
    ensures
        r.deep_view() == all_tags_step(replies@),
{
    if replies.len() == 0 {
        Step::Run(list_command())
    } else {
        Step::Done(
            match run(&list_command(), &replies[0]) {
                Ok(text) => parse_tags(text.as_str()),
                Err(e) => Err(e),
            },
        )
    }
}

} // verus!
