//! What holds of the library as a whole, proved from its definitions.

use crate::command::{run_outcome, CommandView, Reply};
use crate::engine::{
    already_initialized_text, bump_step, commits_since_request, delete_latest_step, init_step,
    push_latest_step, release_request,
};
use crate::error::ErrorView;
use crate::numeral::{
    decimal, ends_numeral, lemma_decimal_digits, lemma_triple_prefix, triple_text,
};
use crate::repository::{
    all_tags_of, all_tags_step, first_tag_request, latest_tag_of, latest_tag_step, list_request,
    nonempty, tag_names, tags_of, StepView,
};
use crate::text::{is_blank, is_white, lemma_white_space_trims_to_nothing, lines, trimmed};
use crate::trusted::lossy_text;
use crate::version::{marked, parsed_version, tag_name_text, PartType, VersionView};
use vstd::prelude::*;

verus! {

/// A bump of the major number sets the minor and the patch to zero. A bump
/// of the minor number sets the patch to zero and leaves the major number.
/// A bump of the patch leaves everything else. No bump touches the labels or
/// the `v`.
pub proof fn lemma_bump_resets_lower_parts(version: VersionView, number: u64)
    ensures
        version.bumped(PartType::Major, number) == (VersionView {
            major: version.bumped(PartType::Major, number).major,
            minor: 0,
            patch: 0,
            ..version
        }),
        version.bumped(PartType::Minor, number) == (VersionView {
            minor: version.bumped(PartType::Minor, number).minor,
            patch: 0,
            ..version
        }),
        version.bumped(PartType::Patch, number) == (VersionView {
            patch: version.bumped(PartType::Patch, number).patch,
            ..version
        }),
{
}

/// A bump by `number` adds `number` to the part it names, as long as the sum
/// fits in 64 bits.
pub proof fn lemma_bump_adds(version: VersionView, part: PartType, number: u64)
    requires
        version.can_bump(part, number),
    ensures
        part == PartType::Major ==> version.bumped(part, number).major == version.major + number,
        part == PartType::Minor ==> version.bumped(part, number).minor == version.minor + number,
        part == PartType::Patch ==> version.bumped(part, number).patch == version.patch + number,
{
}

/// A bump by more than nothing moves the version forward.
pub proof fn lemma_bump_moves_forward(version: VersionView, part: PartType, number: u64)
    requires
        number > 0,
        version.can_bump(part, number),
    ensures
        version.precedes(version.bumped(part, number)),
        !version.bumped(part, number).precedes(version),
{
}

/// A bump by more than nothing gives the new tag a name other than the
/// previous tag's, whatever part is bumped and whatever suffix is asked for.
pub proof fn lemma_new_tag_differs(
    previous: VersionView,
    part: PartType,
    number: u64,
    suffix: Seq<char>,
)
    requires
        number > 0,
        previous.can_bump(part, number),
    ensures
        tag_name_text(previous.bumped(part, number), suffix) != previous.text(),
{
    let next = previous.bumped(part, number);
    let new_name = tag_name_text(next, suffix);
    let old_name = previous.text();
    let old_triple = triple_text(previous.major, previous.minor, previous.patch);
    let new_triple = triple_text(next.major, next.minor, next.patch);
    let old_rest = marked('-', previous.pre) + marked('+', previous.build);
    let new_rest = marked('-', suffix);
    if new_name == old_name {
        // The new name begins with `v`, so the old one does: a numeral begins
        // with a digit. Behind the `v` both hold three numbers and a rest that
        // begins with no digit, so the numbers are the same.
        lemma_decimal_digits(previous.major as nat);
        assert(new_name[0] == 'v');
        assert(old_triple + old_rest =~= old_name.subrange(1, old_name.len() as int));
        assert(new_triple + new_rest =~= new_name.subrange(1, new_name.len() as int));
        lemma_triple_prefix(
            (previous.major, previous.minor, previous.patch),
            old_rest,
            (next.major, next.minor, next.patch),
            new_rest,
        );
    }
}

/// A list of names yields tags exactly where every name names a version.
pub proof fn lemma_tags_need_every_name(names: Seq<Seq<char>>)
    ensures
        tags_of(names) is Ok <==> forall|k: int|
            0 <= k < names.len() ==> parsed_version(#[trigger] names[k]) is Some,
    decreases names.len(),
{
    if names.len() > 0 {
        let before = names.drop_last();
        lemma_tags_need_every_name(before);
        assert(forall|k: int| 0 <= k < before.len() ==> before[k] == names[k]);
    }
}

/// The versions that `names` name, one for one; arbitrary for a name that
/// names none.
pub open spec fn versions_of(names: Seq<Seq<char>>) -> Seq<VersionView> {
    names.map_values(|name: Seq<char>| parsed_version(name)->Some_0)
}

/// The tags of a list of names, where it has tags, are the versions that the
/// names name: one for each, in their order.
pub proof fn lemma_tags_are_the_versions(names: Seq<Seq<char>>)
    ensures
        tags_of(names) matches Ok(tags) ==> tags == versions_of(names),
    decreases names.len(),
{
    if names.len() > 0 {
        let before = names.drop_last();
        lemma_tags_are_the_versions(before);
        assert(versions_of(names) =~= versions_of(before).push(
            parsed_version(names.last())->Some_0,
        ));
    }
}

/// A list of names fails with the first of them that names no version, and
/// with nothing else.
pub proof fn lemma_tags_fail_at_first_bad_name(names: Seq<Seq<char>>)
    ensures
        tags_of(names) matches Err(e) ==> exists|k: int|
            0 <= k < names.len() && parsed_version(#[trigger] names[k]) is None && e == (
            ErrorView::Parse { text: names[k] }) && forall|j: int|
                0 <= j < k ==> parsed_version(#[trigger] names[j]) is Some,
    decreases names.len(),
{
    if names.len() > 0 {
        let before = names.drop_last();
        lemma_tags_fail_at_first_bad_name(before);
        lemma_tags_need_every_name(before);
        assert(forall|k: int| 0 <= k < before.len() ==> before[k] == names[k]);
        if tags_of(names) is Err {
            let e = tags_of(names)->Err_0;
            // The first bad name of the shorter list, or else the last name.
            let k = if tags_of(before) is Err {
                choose|k: int|
                    0 <= k < before.len() && parsed_version(#[trigger] before[k]) is None && e == (
                    ErrorView::Parse { text: before[k] }) && forall|j: int|
                        0 <= j < k ==> parsed_version(#[trigger] before[j]) is Some
            } else {
                names.len() - 1
            };
            assert(parsed_version(names[k]) is None);
            assert(forall|j: int| 0 <= j < k ==> parsed_version(#[trigger] names[j]) is Some);
        }
    }
}

/// One line of a list of tags that is neither empty nor a version fails the
/// whole list: no part of it is returned.
pub proof fn lemma_bad_tag_fails_list(text: Seq<char>, k: int)
    requires
        0 <= k < lines(text).len(),
        lines(text)[k].len() > 0,
        parsed_version(lines(text)[k]) is None,
    ensures
        tags_of(tag_names(text)) is Err,
{
    let names = tag_names(text);
    lines(text).lemma_filter_contains(|line: Seq<char>| line.len() > 0, k);
    let at = choose|at: int| 0 <= at < names.len() && names[at] == lines(text)[k];
    lemma_tags_need_every_name(names);
    assert(parsed_version(names[at]) is None);
}

/// Lines that are all empty hold no names.
pub proof fn lemma_empty_lines_no_names(lines: Seq<Seq<char>>)
    requires
        forall|k: int| 0 <= k < lines.len() ==> (#[trigger] lines[k]).len() == 0,
    ensures
        nonempty(lines) == Seq::<Seq<char>>::empty(),
{
    let kept = nonempty(lines);
    if kept.len() > 0 {
        // What is kept is not empty, and is one of the lines.
        lines.lemma_filter_pred(|line: Seq<char>| line.len() > 0, 0);
        lines.lemma_filter_contains_rev(|line: Seq<char>| line.len() > 0, kept[0]);
        let at = choose|at: int| 0 <= at < lines.len() && lines[at] == kept[0];
        assert(lines[at].len() == 0);
    }
}

/// A text that holds newline characters only has empty lines only.
pub proof fn lemma_blank_text_lines(text: Seq<char>)
    requires
        is_blank(text),
    ensures
        forall|k: int| 0 <= k < lines(text).len() ==> (#[trigger] lines(text)[k]).len() == 0,
    decreases text.len(),
{
    if text.len() > 0 {
        lemma_blank_text_lines(text.drop_last());
        assert(lines(text) == lines(text.drop_last()).push(Seq::empty()));
    }
}

/// A list of tags that is empty, or holds nothing but newline characters,
/// yields no tags and no error.
pub proof fn lemma_blank_list_no_tags(text: Seq<char>)
    requires
        is_blank(text),
    ensures
        tags_of(tag_names(text)) == Ok::<Seq<VersionView>, ErrorView>(Seq::empty()),
{
    lemma_blank_text_lines(text);
    lemma_empty_lines_no_names(lines(text));
}

/// A successful reply to the list command whose output is empty, or holds
/// nothing but newline characters, or nothing but white space, yields no tags
/// and no error.
pub proof fn lemma_blank_reply_no_tags(reply: Reply)
    requires
        reply matches Reply::Exited { success, stdout, .. } && success && (is_blank(
            lossy_text(stdout@),
        ) || is_white(lossy_text(stdout@))),
    ensures
        all_tags_of(reply) == Ok::<Seq<VersionView>, ErrorView>(Seq::empty()),
{
    let output = lossy_text(reply->stdout@);
    lemma_white_space_trims_to_nothing(output);
    lemma_blank_list_no_tags(trimmed(output));
}

/// A reply to the list command with one tag whose name is no version fails
/// as a whole.
pub proof fn lemma_bad_tag_fails_reply(reply: Reply, k: int)
    requires
        run_outcome(list_request(), reply) matches Ok(text) && 0 <= k < lines(text).len()
            && lines(text)[k].len() > 0 && parsed_version(lines(text)[k]) is None,
    ensures
        all_tags_of(reply) is Err,
{
    lemma_bad_tag_fails_list(run_outcome(list_request(), reply)->Ok_0, k);
}

/// A bump is over once it has three replies.
pub proof fn lemma_bump_ends(part: PartType, number: u64, suffix: Seq<char>, replies: Seq<Reply>)
    requires
        replies.len() >= 3,
    ensures
        bump_step(part, number, suffix, replies) is Done,
{
}

/// A bump asks for the new tag last of all: only when the latest tag and
/// the commits since have been read without failure. The tag it asks for is
/// the one that the bumped version names, with the release and the commits
/// as its message, and, for a bump by more than nothing, it is not the
/// latest tag's name. No other command of a bump writes to the repository.
pub proof fn lemma_bump_creates_tag_last(
    part: PartType,
    number: u64,
    suffix: Seq<char>,
    replies: Seq<Reply>,
    command: CommandView,
)
    requires
        bump_step(part, number, suffix, replies) == StepView::<()>::Run(command),
        command.stdin is Some || (command.args.len() > 0 && command.args[0] == "tag"@),
    ensures
        replies.len() == 2,
        latest_tag_of(replies[0]) matches Ok(previous) && previous.can_bump(part, number) && ({
            let name = tag_name_text(previous.bumped(part, number), suffix);
            &&& run_outcome(commits_since_request(previous), replies[1]) matches Ok(commits)
            &&& command == release_request(name, commits)
            &&& number > 0 ==> name != previous.text()
        }),
{
    // The commands that read begin with `describe` and `log`, not `tag`.
    reveal_strlit("tag");
    reveal_strlit("describe");
    reveal_strlit("log");
    assert("describe"@[0] != "tag"@[0]);
    assert("log"@[0] != "tag"@[0]);
    if number > 0 {
        lemma_new_tag_differs(latest_tag_of(replies[0])->Ok_0, part, number, suffix);
    }
}

/// Once a bump is over, further replies change nothing.
pub proof fn lemma_bump_stays_done(
    part: PartType,
    number: u64,
    suffix: Seq<char>,
    replies: Seq<Reply>,
    more: Seq<Reply>,
)
    requires
        bump_step(part, number, suffix, replies) is Done,
    ensures
        bump_step(part, number, suffix, replies + more) == bump_step(part, number, suffix, replies),
{
    // The longer list begins with the same replies.
    let longer = replies + more;
    assert(forall|i: int| 0 <= i < replies.len() ==> longer[i] == replies[i]);
}

/// Reading the latest tag or all tags is over with one reply; pushing or
/// deleting the latest tag, or creating the first one, with two.
pub proof fn lemma_operations_end(replies: Seq<Reply>)
    ensures
        replies.len() >= 1 ==> latest_tag_step(replies) is Done && all_tags_step(replies) is Done,
        replies.len() >= 2 ==> push_latest_step(replies) is Done && delete_latest_step(replies)
            is Done && init_step(replies) is Done,
{
}

/// Once an operation is over, further replies change nothing.
pub proof fn lemma_operations_stay_done(replies: Seq<Reply>, more: Seq<Reply>)
    ensures
        latest_tag_step(replies) is Done ==> latest_tag_step(replies + more) == latest_tag_step(
            replies,
        ),
        all_tags_step(replies) is Done ==> all_tags_step(replies + more) == all_tags_step(replies),
        push_latest_step(replies) is Done ==> push_latest_step(replies + more) == push_latest_step(
            replies,
        ),
        delete_latest_step(replies) is Done ==> delete_latest_step(replies + more)
            == delete_latest_step(replies),
        init_step(replies) is Done ==> init_step(replies + more) == init_step(replies),
{
    // The longer list begins with the same replies.
    let longer = replies + more;
    assert(forall|i: int| 0 <= i < replies.len() ==> longer[i] == replies[i]);
}

/// The first tag is created only where no latest tag could be read, and a
/// repository that has a tag is left as it is.
pub proof fn lemma_init_spares_tagged_repository(replies: Seq<Reply>)
    requires
        replies.len() >= 1,
    ensures
        latest_tag_of(replies[0]) is Ok ==> init_step(replies) == StepView::Done(
            Ok::<Seq<char>, ErrorView>(already_initialized_text(latest_tag_of(replies[0])->Ok_0)),
        ),
        init_step(replies) is Run ==> latest_tag_of(replies[0]) is Err && init_step(replies)
            == StepView::<Seq<char>>::Run(first_tag_request()),
{
}

} // verus!
