//! The operations that change the repository: bumping the version, pushing
//! and deleting the latest tag, and creating the first one.

use crate::command::{
    run, run_outcome, run_with_stdin, run_with_stdin_outcome, Command, CommandView, Reply,
};
use crate::error::{result_view, ErrorView, TagError};
use crate::repository::{
    annotate_request, create_annotated_tag, delete_command, delete_request, describe_command,
    describe_request, first_tag_command, first_tag_request, get_commit_log_between, latest_tag,
    latest_tag_of, log_request, push_command, push_request, Step, StepView,
};
use crate::version::{
    tag_message, tag_message_text, tag_name, tag_name_text, Bump, PartType, Version, VersionView,
};
use vstd::prelude::*;

verus! {

/// The name of the tag that a bump of `previous` creates, or the overflow
/// that keeps it from creating one.
pub open spec fn next_tag_text(
    previous: VersionView,
    part: PartType,
    number: u64,
    suffix: Seq<char>,
) -> Result<Seq<char>, ErrorView> {
    if previous.can_bump(part, number) {
        Ok(tag_name_text(previous.bumped(part, number), suffix))
    } else {
        Err(ErrorView::Overflow)
    }
}

/// The name of the tag that the bump `b` of `previous` creates: the name of
/// the bumped version, with `b.suffix` behind a hyphen unless it is empty.
/// A version number that would leave 64 bits gives `TagError::Overflow`.
pub fn next_tag(previous: &Version, b: &Bump) -> (r: Result<String, TagError>)
    ensures
        result_view(r) == next_tag_text(previous@, b.version_type, b.number, b.suffix@),
{
    match previous.bumped(b) {
        Some(next) => Ok(tag_name(&next, b.suffix)),
        None => Err(TagError::Overflow),
    }
}

/// The command that lists the commits since the tag of `previous`.
pub open spec fn commits_since_request(previous: VersionView) -> CommandView {
    log_request(previous.text(), "HEAD"@)
}

/// The command that lists the commits between the tag of `previous` and the
/// head of the current branch.
pub fn commits_since(previous: &Version) -> (r: Command)
    ensures
        r@ == commits_since_request(previous@),
{
    get_commit_log_between(previous.to_string().as_str(), "HEAD")
}

/// The command that creates the tag `name` for a release with `commits`.
pub open spec fn release_request(name: Seq<char>, commits: Seq<char>) -> CommandView {
    annotate_request(name, tag_message_text(name, commits))
}

/// The command that creates the annotated tag `name`, whose message names
/// the release and lists `commits`.
pub fn release_tag(name: &str, commits: &str) -> (r: Command)
    ensures
        r@ == release_request(name@, commits@),
{
    create_annotated_tag(name, tag_message(name, commits).as_str())
}

/// The steps of [`bump`]: find the latest tag, list the commits since, then
/// create the new tag over that list.
pub open spec fn bump_step(
    part: PartType,
    number: u64,
    suffix: Seq<char>,
    replies: Seq<Reply>,
) -> StepView<()> {
    if replies.len() == 0 {
        StepView::Run(describe_request())
    } else {
        match latest_tag_of(replies[0]) {
            Err(e) => StepView::Done(Err(e)),
            Ok(previous) => match next_tag_text(previous, part, number, suffix) {
                Err(e) => StepView::Done(Err(e)),
                Ok(name) => if replies.len() == 1 {
                    StepView::Run(commits_since_request(previous))
                } else {
                    match run_outcome(commits_since_request(previous), replies[1]) {
                        Err(e) => StepView::Done(Err(e)),
                        Ok(commits) => if replies.len() == 2 {
                            StepView::Run(release_request(name, commits))
                        } else {
                            StepView::Done(
                                run_with_stdin_outcome(release_request(name, commits), replies[2]),
                            )
                        },
                    }
                },
            },
        }
    }
}

/// Records the next version as a new annotated tag.
///
/// `replies` holds the replies to the commands that this operation has asked
/// for so far, oldest first. With none, it asks for the latest tag. With
/// that, it computes the next version and the new tag's name and asks for
/// the commits since the latest tag. With those, it asks for the new tag,
/// whose message names the release and lists the commits. With the reply to
/// that, it is done. Any failure on the way ends the operation before the
/// next command: no tag is created unless the latest tag and the commits
/// were read. A version number that would leave 64 bits ends it with
/// `TagError::Overflow`.
pub fn bump(b: &Bump, replies: &[Reply]) -> (r: Step<()>)
    ensures
        r.deep_view() == bump_step(b.version_type, b.number, b.suffix@, replies@),
{
    if replies.len() == 0 {
        return Step::Run(describe_command());
    }
    let previous = match latest_tag(&replies[0]) {
        Ok(version) => version,
        Err(e) => { return Step::Done(Err(e)); },
    };
    let name = match next_tag(&previous, b) {
        Ok(name) => name,
        Err(e) => { return Step::Done(Err(e)); },
    };
    let log = commits_since(&previous);
    if replies.len() == 1 {
        return Step::Run(log);
    }
    let commits = match run(&log, &replies[1]) {
        Ok(text) => text,
        Err(e) => { return Step::Done(Err(e)); },
    };
    let tag = release_tag(name.as_str(), commits.as_str());
    if replies.len() == 2 {
        return Step::Run(tag);
    }
    Step::Done(run_with_stdin(&tag, &replies[2]))
}

/// The steps of [`push_latest`].
pub open spec fn push_latest_step(replies: Seq<Reply>) -> StepView<Seq<char>> {
    if replies.len() == 0 {
        StepView::Run(describe_request())
    } else {
        match latest_tag_of(replies[0]) {
            Err(e) => StepView::Done(Err(e)),
            Ok(latest) => if replies.len() == 1 {
                StepView::Run(push_request(latest.text()))
            } else {
                StepView::Done(run_outcome(push_request(latest.text()), replies[1]))
            },
        }
    }
}

/// Pushes the latest tag to the remote `origin`. Asks for the latest tag,
/// then for the push, and ends with what the push printed.
pub fn push_latest(replies: &[Reply]) -> (r: Step<String>)
    ensures
        r.deep_view() == push_latest_step(replies@),
{
    if replies.len() == 0 {
        return Step::Run(describe_command());
    }
    let latest = match latest_tag(&replies[0]) {
        Ok(version) => version,
        Err(e) => { return Step::Done(Err(e)); },
    };
    let push = push_command(latest.to_string().as_str());
    if replies.len() == 1 {
        return Step::Run(push);
    }
    Step::Done(run(&push, &replies[1]))
}

/// The steps of [`delete_latest`].
pub open spec fn delete_latest_step(replies: Seq<Reply>) -> StepView<Seq<char>> {
    if replies.len() == 0 {
        StepView::Run(describe_request())
    } else {
        match latest_tag_of(replies[0]) {
            Err(e) => StepView::Done(Err(e)),
            Ok(latest) => if replies.len() == 1 {
                StepView::Run(delete_request(latest.text()))
            } else {
                StepView::Done(run_outcome(delete_request(latest.text()), replies[1]))
            },
        }
    }
}

/// Deletes the latest tag. Asks for the latest tag, then for its deletion,
/// and ends with what the deletion printed.
pub fn delete_latest(replies: &[Reply]) -> (r: Step<String>)
    ensures
        r.deep_view() == delete_latest_step(replies@),
{
    if replies.len() == 0 {
        return Step::Run(describe_command());
    }
    let latest = match latest_tag(&replies[0]) {
        Ok(version) => version,
        Err(e) => { return Step::Done(Err(e)); },
    };
    let delete = delete_command(latest.to_string().as_str());
    if replies.len() == 1 {
        return Step::Run(delete);
    }
    Step::Done(run(&delete, &replies[1]))
}

/// What [`init`] reports where the repository has the tag `latest` already.
pub open spec fn already_initialized_text(latest: VersionView) -> Seq<char> {
    "tag already initialized: "@ + latest.text()
}

/// The steps of [`init`].
pub open spec fn init_step(replies: Seq<Reply>) -> StepView<Seq<char>> {
    if replies.len() == 0 {
        StepView::Run(describe_request())
    } else {
        match latest_tag_of(replies[0]) {
            Ok(latest) => StepView::Done(Ok(already_initialized_text(latest))),
            Err(_) => if replies.len() == 1 {
                StepView::Run(first_tag_request())
            } else {
                match run_outcome(first_tag_request(), replies[1]) {
                    Ok(_) => StepView::Done(Ok("tag initialized with v0.1.0"@)),
                    Err(e) => StepView::Done(Err(e)),
                }
            },
        }
    }
}

/// Gives the repository its first tag, `v0.1.0`, unless it has a tag
/// already. Asks for the latest tag; where that yields a version, it is done
/// and reports the tag. Where it yields none, for whatever reason, it asks
/// for the first tag and reports that. The result is the line to show.
pub fn init(replies: &[Reply]) -> (r: Step<String>)
    ensures
        r.deep_view() == init_step(replies@),
{
    if replies.len() == 0 {
        return Step::Run(describe_command());
    }
    match latest_tag(&replies[0]) {
        Ok(latest) => {
            let mut line = "tag already initialized: ".to_owned();
            line.append(latest.to_string().as_str());
            Step::Done(Ok(line))
        },
        Err(_) => {
            let first = first_tag_command();
            if replies.len() == 1 {
                Step::Run(first)
            } else {
                match run(&first, &replies[1]) {
                    Ok(_) => Step::Done(Ok("tag initialized with v0.1.0".to_owned())),
                    Err(e) => Step::Done(Err(e)),
                }
            }
        },
    }
}

} // verus!
