use verbump::engine::{commits_since, next_tag, release_tag};
use verbump::repository::{
    create_annotated_tag, delete_command, describe_command, first_tag_command, list_command,
    push_command,
};
use verbump::{
    bump, delete_latest, get_all_tags, get_commit_log_between, get_latest_tag, init, push_latest,
    Bump, PartType, Reply, Step, TagError, Version,
};

fn ok(stdout: &str) -> Reply {
    Reply::Exited { success: true, stdout: stdout.as_bytes().to_vec(), stderr: Vec::new() }
}

fn failed(stderr: &str) -> Reply {
    Reply::Exited { success: false, stdout: Vec::new(), stderr: stderr.as_bytes().to_vec() }
}

fn no_tags() -> Reply {
    failed("fatal: No names found, cannot describe anything.\n")
}

/// The name of the tag that an operation ended with.
fn found(step: Step<Version>) -> String {
    match step {
        Step::Done(Ok(version)) => version.to_string(),
        other => panic!("gave {:?}", other),
    }
}

/// The names of the tags that an operation ended with.
fn found_all(step: Step<Vec<Version>>) -> Vec<String> {
    match step {
        Step::Done(Ok(tags)) => tags.iter().map(Version::to_string).collect(),
        other => panic!("gave {:?}", other),
    }
}

fn bump_request(version_type: PartType, number: u64, suffix: &str) -> Bump<'_> {
    Bump { version_type, number, suffix }
}

/// The tag that a bump asks for, given the latest tag and the commits since.
fn bumped_tag(latest: &str, b: &Bump, log: &str) -> Step<()> {
    bump(b, &[ok(latest), ok(log)])
}

#[test]
fn latest_tag_starts_with_describe() {
    assert!(matches!(get_latest_tag(&[]), Step::Run(command) if command == describe_command()));
}

#[test]
fn latest_tag_reads_the_reply() {
    match get_latest_tag(&[ok("v1.2.3\n")]) {
        Step::Done(Ok(latest)) => {
            assert_eq!((latest.major, latest.minor, latest.patch), (1, 2, 3));
            assert!(latest.v_prefix);
            assert_eq!((latest.pre.as_str(), latest.build.as_str()), ("", ""));
        }
        other => panic!("gave {:?}", other),
    }
    match get_latest_tag(&[ok("0.4.0-rc1\n")]) {
        Step::Done(Ok(latest)) => {
            assert_eq!((latest.major, latest.minor, latest.patch), (0, 4, 0));
            assert!(!latest.v_prefix);
            assert_eq!((latest.pre.as_str(), latest.build.as_str()), ("rc1", ""));
        }
        other => panic!("gave {:?}", other),
    }
}

#[test]
fn latest_tag_without_tags_is_not_found() {
    match get_latest_tag(&[no_tags()]) {
        Step::Done(Err(error)) => assert_eq!(
            error,
            TagError::NotFound {
                command: describe_command(),
                diagnostic: "fatal: No names found, cannot describe anything.\n".to_string(),
            }
        ),
        other => panic!("gave {:?}", other),
    }
}

#[test]
fn latest_tag_that_is_no_version_is_a_parse_error() {
    match get_latest_tag(&[ok("nightly\n")]) {
        Step::Done(Err(TagError::Parse { text, .. })) => assert_eq!(text, "nightly"),
        other => panic!("gave {:?}", other),
    }
    match get_latest_tag(&[ok("")]) {
        Step::Done(Err(TagError::Parse { text, .. })) => assert_eq!(text, ""),
        other => panic!("gave {:?}", other),
    }
}

#[test]
fn latest_tag_passes_on_a_program_that_could_not_run() {
    match get_latest_tag(&[Reply::Failed("not found".to_string())]) {
        Step::Done(Err(error)) => {
            assert_eq!(error, TagError::Io { message: "not found".to_string() })
        }
        other => panic!("gave {:?}", other),
    }
}

#[test]
fn all_tags_starts_with_the_list() {
    assert!(matches!(get_all_tags(&[]), Step::Run(command) if command == list_command()));
}

#[test]
fn all_tags_reads_the_list_in_its_order() {
    assert_eq!(
        found_all(get_all_tags(&[ok("v9.0.0\nv10.0.0\nv1.0.0\n")])),
        vec!["v9.0.0", "v10.0.0", "v1.0.0"]
    );
}

#[test]
fn all_tags_of_empty_output_is_empty() {
    assert!(found_all(get_all_tags(&[ok("")])).is_empty());
}

#[test]
fn all_tags_of_blank_lines_is_empty() {
    assert!(found_all(get_all_tags(&[ok("\n\n\n")])).is_empty());
    assert!(found_all(get_all_tags(&[ok(" \n\t\n  ")])).is_empty());
}

#[test]
fn all_tags_fails_as_a_whole_on_one_bad_tag() {
    match get_all_tags(&[ok("v2.0.0\nrelease-candidate\nv1.0.0\n")]) {
        Step::Done(Err(TagError::Parse { text, .. })) => assert_eq!(text, "release-candidate"),
        other => panic!("gave {:?}", other),
    }
}

#[test]
fn all_tags_passes_on_a_failed_list() {
    match get_all_tags(&[failed("fatal: not a git repository\n")]) {
        Step::Done(Err(error)) => assert_eq!(
            error,
            TagError::Command {
                command: list_command(),
                diagnostic: "fatal: not a git repository\n".to_string(),
            }
        ),
        other => panic!("gave {:?}", other),
    }
}

fn release(major: u64, minor: u64, patch: u64) -> Version {
    Version { major, minor, patch, pre: String::new(), build: String::new(), v_prefix: true }
}

#[test]
fn next_tag_names_the_bumped_version() {
    let patch = bump_request(PartType::Patch, 1, "");
    assert_eq!(next_tag(&release(1, 2, 3), &patch), Ok("v1.2.4".to_string()));
    let minor = bump_request(PartType::Minor, 1, "");
    assert_eq!(next_tag(&release(1, 2, 3), &minor), Ok("v1.3.0".to_string()));
    let major = bump_request(PartType::Major, 1, "");
    assert_eq!(next_tag(&release(1, 9, 9), &major), Ok("v2.0.0".to_string()));
    let labelled = bump_request(PartType::Patch, 1, "rc1");
    assert_eq!(next_tag(&release(1, 0, 0), &labelled), Ok("v1.0.1-rc1".to_string()));
}

#[test]
fn next_tag_leaves_the_labels_of_the_previous_tag_behind() {
    let mut previous = release(1, 0, 0);
    previous.pre = "rc1".to_string();
    previous.build = "b5".to_string();
    previous.v_prefix = false;
    let patch = bump_request(PartType::Patch, 1, "");
    assert_eq!(next_tag(&previous, &patch), Ok("v1.0.1".to_string()));
}

#[test]
fn next_tag_beyond_64_bits_is_an_overflow() {
    let patch = bump_request(PartType::Patch, 2, "");
    assert_eq!(next_tag(&release(0, 0, u64::MAX - 1), &patch), Err(TagError::Overflow));
}

#[test]
fn commits_since_starts_at_the_previous_tag_as_it_was_written() {
    assert_eq!(
        commits_since(&release(1, 2, 3)),
        get_commit_log_between("v1.2.3", "HEAD")
    );
    let mut bare = release(1, 2, 3);
    bare.v_prefix = false;
    bare.pre = "rc1".to_string();
    assert_eq!(commits_since(&bare), get_commit_log_between("1.2.3-rc1", "HEAD"));
}

#[test]
fn release_tag_carries_the_release_message() {
    assert_eq!(
        release_tag("v1.2.4", "abc fix"),
        create_annotated_tag("v1.2.4", "Latest release: v1.2.4\n\nabc fix")
    );
}

#[test]
fn bump_starts_with_describe() {
    let b = bump_request(PartType::Patch, 1, "");
    assert_eq!(bump(&b, &[]), Step::Run(describe_command()));
}

#[test]
fn bump_asks_for_the_commits_since_the_latest_tag() {
    let b = bump_request(PartType::Patch, 1, "");
    assert_eq!(
        bump(&b, &[ok("v1.2.3\n")]),
        Step::Run(get_commit_log_between("v1.2.3", "HEAD"))
    );
    assert_eq!(
        bump(&b, &[ok("1.2.3-rc1\n")]),
        Step::Run(get_commit_log_between("1.2.3-rc1", "HEAD"))
    );
}

#[test]
fn bump_patch_from_v1_2_3_creates_v1_2_4() {
    let b = bump_request(PartType::Patch, 1, "");
    assert_eq!(
        bumped_tag("v1.2.3\n", &b, "abc1234 fix\n"),
        Step::Run(create_annotated_tag("v1.2.4", "Latest release: v1.2.4\n\nabc1234 fix"))
    );
}

#[test]
fn bump_minor_from_v1_2_3_creates_v1_3_0() {
    let b = bump_request(PartType::Minor, 1, "");
    assert_eq!(
        bumped_tag("v1.2.3\n", &b, ""),
        Step::Run(create_annotated_tag("v1.3.0", "Latest release: v1.3.0\n\n"))
    );
}

#[test]
fn bump_major_from_v1_9_9_creates_v2_0_0() {
    let b = bump_request(PartType::Major, 1, "");
    assert_eq!(
        bumped_tag("v1.9.9\n", &b, "one\ntwo\n"),
        Step::Run(create_annotated_tag("v2.0.0", "Latest release: v2.0.0\n\none\ntwo"))
    );
}

#[test]
fn bump_patch_with_suffix_creates_v1_0_1_rc1() {
    let b = bump_request(PartType::Patch, 1, "rc1");
    assert_eq!(
        bumped_tag("v1.0.0\n", &b, "abc fix"),
        Step::Run(create_annotated_tag("v1.0.1-rc1", "Latest release: v1.0.1-rc1\n\nabc fix"))
    );
}

#[test]
fn bump_names_the_new_tag_with_v_whatever_the_latest_had() {
    let b = bump_request(PartType::Minor, 2, "");
    assert_eq!(
        bumped_tag("0.4.1\n", &b, "abc"),
        Step::Run(create_annotated_tag("v0.6.0", "Latest release: v0.6.0\n\nabc"))
    );
}

#[test]
fn bump_ends_when_the_tag_is_created() {
    let b = bump_request(PartType::Patch, 1, "");
    assert_eq!(
        bump(&b, &[ok("v1.2.3\n"), ok("abc fix\n"), ok("")]),
        Step::Done(Ok(()))
    );
}

#[test]
fn bump_without_a_prior_tag_fails_before_any_other_command() {
    let b = bump_request(PartType::Patch, 1, "");
    assert_eq!(
        bump(&b, &[no_tags()]),
        Step::Done(Err(TagError::NotFound {
            command: describe_command(),
            diagnostic: "fatal: No names found, cannot describe anything.\n".to_string(),
        }))
    );
}

#[test]
fn bump_fails_on_a_latest_tag_that_is_no_version() {
    let b = bump_request(PartType::Patch, 1, "");
    match bump(&b, &[ok("nightly\n")]) {
        Step::Done(Err(TagError::Parse { text, .. })) => assert_eq!(text, "nightly"),
        other => panic!("gave {:?}", other),
    }
}

#[test]
fn bump_creates_no_tag_when_the_log_fails() {
    let b = bump_request(PartType::Patch, 1, "");
    let replies = vec![ok("v1.2.3\n"), failed("fatal: bad revision\n")];
    assert_eq!(
        bump(&b, &replies),
        Step::Done(Err(TagError::Command {
            command: get_commit_log_between("v1.2.3", "HEAD"),
            diagnostic: "fatal: bad revision\n".to_string(),
        }))
    );
}

#[test]
fn bump_by_nothing_asks_for_the_same_tag_and_fails_with_git() {
    let b = bump_request(PartType::Patch, 0, "");
    let tag = create_annotated_tag("v1.2.3", "Latest release: v1.2.3\n\n");
    assert_eq!(bumped_tag("v1.2.3\n", &b, ""), Step::Run(tag.duplicate()));
    let replies = vec![ok("v1.2.3\n"), ok(""), failed("fatal: tag 'v1.2.3' already exists\n")];
    assert_eq!(
        bump(&b, &replies),
        Step::Done(Err(TagError::Command {
            command: tag,
            diagnostic: "fatal: tag 'v1.2.3' already exists\n".to_string(),
        }))
    );
}

#[test]
fn bump_reports_a_missing_input_stream() {
    let b = bump_request(PartType::Patch, 1, "");
    assert_eq!(
        bump(&b, &[ok("v1.2.3\n"), ok(""), Reply::NoInput]),
        Step::Done(Err(TagError::Io {
            message: "Failed to open stdin for command: `git tag -a v1.2.4 -F -`".to_string()
        }))
    );
}

#[test]
fn bump_beyond_64_bits_is_an_overflow() {
    let b = bump_request(PartType::Major, 1, "");
    assert_eq!(
        bump(&b, &[ok("v18446744073709551615.0.0\n")]),
        Step::Done(Err(TagError::Overflow))
    );
}

#[test]
fn bump_does_not_validate_the_suffix() {
    let b = bump_request(PartType::Patch, 1, "not a/valid~suffix");
    assert_eq!(
        bumped_tag("v1.0.0\n", &b, ""),
        Step::Run(create_annotated_tag(
            "v1.0.1-not a/valid~suffix",
            "Latest release: v1.0.1-not a/valid~suffix\n\n"
        ))
    );
}

#[test]
fn push_latest_pushes_the_latest_tag() {
    assert_eq!(push_latest(&[]), Step::Run(describe_command()));
    assert_eq!(push_latest(&[ok("v1.2.3\n")]), Step::Run(push_command("v1.2.3")));
    assert_eq!(
        push_latest(&[ok("v1.2.3\n"), ok(" * [new tag] v1.2.3 -> v1.2.3\n")]),
        Step::Done(Ok("* [new tag] v1.2.3 -> v1.2.3".to_string()))
    );
}

#[test]
fn push_latest_fails_without_a_tag() {
    assert!(matches!(
        push_latest(&[no_tags()]),
        Step::Done(Err(TagError::NotFound { .. }))
    ));
}

#[test]
fn push_latest_reports_a_failed_push() {
    assert_eq!(
        push_latest(&[ok("v1.2.3\n"), failed("fatal: no remote\n")]),
        Step::Done(Err(TagError::Command {
            command: push_command("v1.2.3"),
            diagnostic: "fatal: no remote\n".to_string(),
        }))
    );
}

#[test]
fn delete_latest_deletes_the_latest_tag() {
    assert_eq!(delete_latest(&[]), Step::Run(describe_command()));
    assert_eq!(delete_latest(&[ok("1.2.3\n")]), Step::Run(delete_command("1.2.3")));
    assert_eq!(
        delete_latest(&[ok("1.2.3\n"), ok("Deleted tag '1.2.3' (was abc1234)\n")]),
        Step::Done(Ok("Deleted tag '1.2.3' (was abc1234)".to_string()))
    );
}

#[test]
fn delete_latest_fails_without_a_tag() {
    assert!(matches!(
        delete_latest(&[no_tags()]),
        Step::Done(Err(TagError::NotFound { .. }))
    ));
}

#[test]
fn init_without_tags_creates_v0_1_0() {
    assert_eq!(init(&[]), Step::Run(describe_command()));
    assert_eq!(init(&[no_tags()]), Step::Run(first_tag_command()));
    assert_eq!(
        init(&[no_tags(), ok("")]),
        Step::Done(Ok("tag initialized with v0.1.0".to_string()))
    );
}

#[test]
fn init_with_a_tag_reports_it() {
    assert_eq!(
        init(&[ok("v1.2.3\n")]),
        Step::Done(Ok("tag already initialized: v1.2.3".to_string()))
    );
}

#[test]
fn init_creates_the_first_tag_after_any_failure_to_read_one() {
    assert_eq!(init(&[ok("nightly\n")]), Step::Run(first_tag_command()));
    assert_eq!(
        init(&[Reply::Failed("not found".to_string())]),
        Step::Run(first_tag_command())
    );
}

#[test]
fn init_reports_a_failed_creation() {
    assert_eq!(
        init(&[no_tags(), failed("fatal: no commits\n")]),
        Step::Done(Err(TagError::Command {
            command: first_tag_command(),
            diagnostic: "fatal: no commits\n".to_string(),
        }))
    );
}

#[test]
fn replies_beyond_the_last_step_change_nothing() {
    let b = bump_request(PartType::Patch, 1, "");
    assert_eq!(
        bump(&b, &[ok("v1.2.3\n"), ok(""), ok(""), failed("late")]),
        Step::Done(Ok(()))
    );
    assert_eq!(found(get_latest_tag(&[ok("v1.2.3\n"), failed("late")])), "v1.2.3");
}
