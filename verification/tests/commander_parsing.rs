use lazyjj::commander::bookmarks::{
    bookmark_show_args, parse_bookmark, parse_bookmark_lines, parse_bookmarks_list, Bookmark,
    BookmarkLine,
};
use lazyjj::commander::branches::parse_branch;
use lazyjj::commander::files::{
    conflicts_from_outcome, parse_conflicts, parse_files, DiffType,
};
use lazyjj::commander::ids::{ChangeId, CommitId};
use lazyjj::commander::jj::{describe_args, git_fetch_args, new_args, rename_branch_args};
use lazyjj::commander::log::{
    bookmark_head_args, is_immutable_output, latest_head_step, obslog_mentions, parse_head,
    parse_log_output, Head, HeadParseError, LatestHeadStep,
};
use lazyjj::commander::version::{check_jj_version_output, JjVersionError};
use lazyjj::commander::{command_output_result, get_output_args, jj_command_args, CommandError};
use lazyjj::env::{Color, DiffFormat};

fn head(change: &str, commit: &str, divergent: bool, immutable: bool) -> Head {
    Head {
        change_id: ChangeId(change.to_owned()),
        commit_id: CommitId(commit.to_owned()),
        divergent,
        immutable,
    }
}

fn strings(v: &[&str]) -> Vec<String> {
    v.iter().map(|s| s.to_string()).collect()
}

#[test]
fn parse_head_reads_template_line() {
    let h = parse_head("[kzvqxyz|1a2b3c|false|true]").unwrap();
    assert!(h.same_as(&head("kzvqxyz", "1a2b3c", false, true)));
}

#[test]
fn parse_head_rejects_other_text() {
    match parse_head("not a head") {
        Err(HeadParseError(t)) => assert_eq!(t, "not a head"),
        Ok(_) => panic!("parsed a head from plain text"),
    }
    // a field other than `true` reads as false
    assert!(parse_head("[a|b|maybe|false]").unwrap().same_as(&head("a", "b", false, false)));
    assert!(parse_head("[a|b|false]").is_err());
}

#[test]
fn parse_log_output_maps_lines_and_dedups_heads() {
    let out = parse_log_output(
        "graph".to_owned(),
        "[aaa|111|false|false]\nno head here\n[bbb|222|false|true]\n[aaa|111|false|false]",
    );
    assert_eq!(out.graph, "graph");
    assert_eq!(out.graph_heads.len(), 4);
    assert!(out.graph_heads[0].as_ref().unwrap().same_as(&head("aaa", "111", false, false)));
    assert!(out.graph_heads[1].is_none());
    assert!(out.graph_heads[2].as_ref().unwrap().same_as(&head("bbb", "222", false, true)));
    assert_eq!(out.heads.len(), 2);
    assert!(out.heads[0].same_as(&head("aaa", "111", false, false)));
    assert!(out.heads[1].same_as(&head("bbb", "222", false, true)));
}

#[test]
fn latest_head_steps() {
    let h = head("aaa", "111", false, false);
    assert!(matches!(latest_head_step(&h, ""), LatestHeadStep::UseCurrentHead));
    match latest_head_step(&h, "[aaa|111|false|false]\n") {
        LatestHeadStep::Unchanged(u) => assert!(u.same_as(&h)),
        _ => panic!("expected the head unchanged"),
    }
    match latest_head_step(&h, "[aaa|999|false|false]\n[aaa|888|true|false]") {
        LatestHeadStep::Candidates(c) => {
            assert_eq!(c.len(), 2);
            assert!(c[0].same_as(&head("aaa", "999", false, false)));
        }
        _ => panic!("expected candidates"),
    }
    assert!(matches!(latest_head_step(&h, "junk"), LatestHeadStep::ParseFailed(_)));
}

#[test]
fn immutable_output_and_obslog() {
    assert!(is_immutable_output("true\n".to_owned()));
    assert!(!is_immutable_output("false\n".to_owned()));
    assert!(obslog_mentions("abc\nxyz\n", &ChangeId("xyz".to_owned())));
    assert!(!obslog_mentions("abc\nxyz1\n", &ChangeId("xyz".to_owned())));
}

#[test]
fn parse_bookmark_reads_name_remote_presence() {
    let b = parse_bookmark("[main@origin|true]").unwrap();
    assert_eq!(b.name, "main");
    assert_eq!(b.remote, Some("origin".to_owned()));
    assert!(b.present);
    assert_eq!(b.to_string(), "main@origin");
    let local = parse_bookmark("[feature@|false]").unwrap();
    assert_eq!(local.remote, None);
    assert!(!local.present);
    assert_eq!(local.to_string(), "feature");
    assert!(parse_bookmark("main").is_none());
}

#[test]
fn parse_bookmark_lines_pairs_plain_and_colored() {
    let lines = parse_bookmark_lines("[main@|true]\nnot a ref", "MAIN\nOTHER");
    assert_eq!(lines.len(), 2);
    match &lines[0] {
        BookmarkLine::Parsed { text, bookmark } => {
            assert_eq!(text, "MAIN");
            assert_eq!(bookmark.name, "main");
        }
        _ => panic!("first line should be read"),
    }
    match &lines[1] {
        BookmarkLine::Unparsable(t) => assert_eq!(t, "OTHER"),
        _ => panic!("second line cannot be read"),
    }
}

#[test]
fn parse_bookmarks_list_skips_other_lines() {
    let list = parse_bookmarks_list("[a@|true]\ngarbage\n[b@origin|true]\n");
    assert_eq!(list.len(), 2);
    assert_eq!(list[0].name, "a");
    assert_eq!(list[1].remote, Some("origin".to_owned()));
}

#[test]
fn parse_branch_reads_like_bookmark() {
    let b = parse_branch("[dev@upstream|true]").unwrap();
    assert_eq!(b.name, "dev");
    assert_eq!(b.to_string(), "dev@upstream");
}

#[test]
fn bookmark_show_arguments() {
    let b = Bookmark { name: "main".to_owned(), remote: None, present: true };
    assert_eq!(bookmark_show_args(&b, &DiffFormat::Git), strings(&["show", "main", "--git"]));
    assert_eq!(
        bookmark_head_args(&b),
        strings(&[
            "log",
            "--no-graph",
            "--template",
            "\"[\" ++ change_id ++ \"|\" ++ commit_id ++ \"|\" ++ divergent ++ \"|\" ++ immutable ++ \"]\" ++ \"\\n\"",
            "-r",
            "main",
            "--limit",
            "1",
        ])
    );
}

#[test]
fn parse_files_reads_summary_lines() {
    let files = parse_files("A README\nM src/lib.rs\nR {a => b}\n");
    assert_eq!(files.len(), 3);
    assert_eq!(files[0].path, Some("README".to_owned()));
    assert_eq!(files[0].diff_type, Some(DiffType::Added));
    assert_eq!(files[1].diff_type, Some(DiffType::Modified));
    assert_eq!(files[2].path, Some("{a => b}".to_owned()));
    assert_eq!(files[2].diff_type, Some(DiffType::Renamed));
    assert_eq!(DiffType::Deleted.color(), Color::Red);
    assert_eq!(DiffType::parse("A"), Some(DiffType::Added));
    assert_eq!(DiffType::parse("X"), None);
    assert_eq!(DiffType::parse("AA"), None);
}

#[test]
fn conflicts_from_resolve_list() {
    let c = parse_conflicts("file.txt    2-sided conflict\nno conflict here\n");
    assert_eq!(c.len(), 1);
    assert_eq!(c[0].path, "file.txt");
    let none = conflicts_from_outcome(Err(CommandError::Status("no conflicts".to_owned(), Some(2))));
    assert_eq!(none.unwrap().len(), 0);
    assert!(conflicts_from_outcome(Err(CommandError::Status("boom".to_owned(), Some(1)))).is_err());
}

#[test]
fn output_and_call_arguments() {
    assert_eq!(get_output_args(true, false), strings(&["--no-pager", "--color", "always"]));
    assert_eq!(get_output_args(false, true), strings(&["--no-pager", "--color", "never", "--quiet"]));
    let args = jj_command_args(strings(&["status"]), true, false, true, &Some(strings(&["a=1"])));
    assert_eq!(args, strings(&["status", "--no-pager", "--color", "never", "--config", "a=1"]));
    assert_eq!(DiffFormat::ColorWords.get_args(), strings(&["--color-words"]));
    assert_eq!(DiffFormat::DiffTool.get_args(), Vec::<String>::new());
}

#[test]
fn jj_command_arguments() {
    assert_eq!(new_args("abc"), strings(&["new", "abc"]));
    assert_eq!(describe_args("abc", "msg"), strings(&["describe", "abc", "-m", "msg"]));
    assert_eq!(rename_branch_args("a", "b"), strings(&["branch", "rename", "a", "b"]));
    assert_eq!(git_fetch_args(true), strings(&["git", "fetch", "--all-remotes"]));
}

#[test]
fn command_output_decoding() {
    let ok = command_output_result(true, Some(0), "héllo".as_bytes().to_vec(), &Vec::new());
    assert_eq!(ok.unwrap(), "héllo");
    match command_output_result(false, Some(1), Vec::new(), &b"bad thing".to_vec()) {
        Err(CommandError::Status(e, code)) => {
            assert_eq!(e, "bad thing");
            assert_eq!(code, Some(1));
        }
        _ => panic!("expected a status error"),
    }
    match command_output_result(true, Some(0), vec![0xff, 0xfe], &Vec::new()) {
        Err(CommandError::FromUtf8(e)) => assert!(e.contains("utf-8")),
        _ => panic!("expected a UTF-8 error"),
    }
}

#[test]
fn command_error_messages() {
    assert_eq!(CommandError::Output("gone".to_owned()).message(), "Error getting output: gone");
    assert_eq!(CommandError::Status("stderr".to_owned(), None).message(), "stderr");
    assert_eq!(
        CommandError::FromUtf8("bad".to_owned()).message(),
        "Error parsing UTF-8 output: bad"
    );
}

#[test]
fn jj_version_checks() {
    assert!(check_jj_version_output("jj 0.40.1\n").is_ok());
    assert!(check_jj_version_output("jj 0.33.0").is_ok());
    match check_jj_version_output("jj 0.20.0\n") {
        Err(JjVersionError::TooOld(v)) => assert_eq!(v, "0.20.0"),
        _ => panic!("expected too old"),
    }
    assert!(matches!(check_jj_version_output("git 2.0"), Err(JjVersionError::NotRecognized)));
    // a version with no number in it cannot be compared
    match check_jj_version_output("jj  dev-build \n") {
        Err(JjVersionError::Incomparable(v)) => {
            assert_eq!(v, "dev-build");
            assert_eq!(
                JjVersionError::Incomparable(v).message(),
                "Unable to compare version 'dev-build' to '0.33.0'\nIf you want to continue anyway, use --ignore-jj-version"
            );
        }
        _ => panic!("expected incomparable"),
    }
    assert_eq!(
        JjVersionError::NotRecognized.message(),
        "jj version string was not recognized"
    );
}

#[test]
fn bookmark_template_reads_back() {
    let cases = [
        ("main", "origin", true),
        ("feat@x", "", false),
        ("a|b", "up", true),
    ];
    for (name, remote, present) in cases {
        let line = format!("[{name}@{remote}|{present}]");
        let b = parse_bookmark(&line).unwrap();
        assert_eq!(b.name, name);
        assert_eq!(b.remote, if remote.is_empty() { None } else { Some(remote.to_owned()) });
        assert_eq!(b.present, present);
    }
}
