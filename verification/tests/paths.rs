use derecrypt::classes::Derecrypt;
use derecrypt::paths::{PathPrompt, PathReply};

#[test]
fn filename_unset_is_none() {
    let dc = Derecrypt::new();
    assert!(dc.filename().is_none());
}

#[test]
fn filename_after_adoption_is_base_name() {
    let mut dc = Derecrypt::new();
    let next = dc.get_desired_path_step(
        false,
        PathPrompt::AwaitingPath,
        PathReply::Picked(Some(String::from("/tmp/out.txt"))),
    );
    match next {
        PathPrompt::Finished { outcome: Some(p) } => assert_eq!(p.as_str(), "/tmp/out.txt"),
        _ => panic!("a first path should be adopted outright"),
    }
    assert_eq!(dc.outfile.as_deref(), Some("/tmp/out.txt"));
    assert_eq!(dc.filename().as_deref(), Some("out.txt"));
}

#[test]
fn filename_edge_shapes() {
    let mut dc = Derecrypt::new();
    dc.outfile = Some(String::from("out.txt"));
    assert_eq!(dc.filename().as_deref(), Some("out.txt"));
    dc.outfile = Some(String::from("a/b/c.bin"));
    assert_eq!(dc.filename().as_deref(), Some("c.bin"));
    dc.outfile = Some(String::from("/tmp/"));
    assert_eq!(dc.filename().as_deref(), Some("tmp"));
    dc.outfile = Some(String::from("/tmp/out/"));
    assert_eq!(dc.filename().as_deref(), Some("out"));
    dc.outfile = Some(String::from("foo/."));
    assert_eq!(dc.filename().as_deref(), Some("foo"));
    dc.outfile = Some(String::from("foo/./"));
    assert_eq!(dc.filename().as_deref(), Some("foo"));
    dc.outfile = Some(String::from("./foo"));
    assert_eq!(dc.filename().as_deref(), Some("foo"));
    dc.outfile = Some(String::from("foo.."));
    assert_eq!(dc.filename().as_deref(), Some("foo.."));
    dc.outfile = Some(String::from(""));
    assert!(dc.filename().is_none());
    dc.outfile = Some(String::from("/"));
    assert!(dc.filename().is_none());
    dc.outfile = Some(String::from("."));
    assert!(dc.filename().is_none());
    dc.outfile = Some(String::from(".."));
    assert!(dc.filename().is_none());
    dc.outfile = Some(String::from("foo/.."));
    assert!(dc.filename().is_none());
    dc.outfile = Some(String::from("foo/../"));
    assert!(dc.filename().is_none());
}

#[test]
fn first_path_adopted_without_confirmation() {
    let mut dc = Derecrypt::new();
    let next = dc.get_desired_path_step(
        false,
        PathPrompt::AwaitingPath,
        PathReply::Picked(Some(String::from("/a/b.txt"))),
    );
    assert!(matches!(next, PathPrompt::Finished { outcome: Some(_) }));
    assert_eq!(dc.outfile.as_deref(), Some("/a/b.txt"));
}

#[test]
fn declined_confirmation_keeps_old_path_but_returns_new() {
    let mut dc = Derecrypt::new();
    dc.outfile = Some(String::from("/a/b.txt"));
    let next = dc.get_desired_path_step(
        false,
        PathPrompt::AwaitingPath,
        PathReply::Picked(Some(String::from("/c/d.txt"))),
    );
    let chosen = match next {
        PathPrompt::AwaitingConfirm { chosen } => {
            assert_eq!(chosen.as_str(), "/c/d.txt");
            chosen
        }
        _ => panic!("a second path needs confirmation"),
    };
    assert_eq!(dc.outfile.as_deref(), Some("/a/b.txt"));
    let next = dc.get_desired_path_step(
        false,
        PathPrompt::AwaitingConfirm { chosen },
        PathReply::Confirm(false),
    );
    match next {
        PathPrompt::Finished { outcome: Some(p) } => assert_eq!(p.as_str(), "/c/d.txt"),
        _ => panic!("the picked path is still handed back"),
    }
    assert_eq!(dc.outfile.as_deref(), Some("/a/b.txt"));
}

#[test]
fn accepted_confirmation_replaces_path() {
    let mut dc = Derecrypt::new();
    dc.outfile = Some(String::from("/a/b.txt"));
    let next = dc.get_desired_path_step(
        false,
        PathPrompt::AwaitingPath,
        PathReply::Picked(Some(String::from("/c/d.txt"))),
    );
    let chosen = match next {
        PathPrompt::AwaitingConfirm { chosen } => chosen,
        _ => panic!("a second path needs confirmation"),
    };
    dc.get_desired_path_step(false, PathPrompt::AwaitingConfirm { chosen }, PathReply::Confirm(true));
    assert_eq!(dc.outfile.as_deref(), Some("/c/d.txt"));
}

#[test]
fn forced_overwrite_skips_confirmation() {
    let mut dc = Derecrypt::new();
    dc.outfile = Some(String::from("/a/b.txt"));
    let next = dc.get_desired_path_step(
        true,
        PathPrompt::AwaitingPath,
        PathReply::Picked(Some(String::from("/c/d.txt"))),
    );
    assert!(matches!(next, PathPrompt::Finished { outcome: Some(_) }));
    assert_eq!(dc.outfile.as_deref(), Some("/c/d.txt"));
}

#[test]
fn declining_all_retries_yields_nothing_and_keeps_path() {
    let mut dc = Derecrypt::new();
    dc.outfile = Some(String::from("/kept/old.txt"));
    let next = dc.get_desired_path_step(false, PathPrompt::AwaitingPath, PathReply::Picked(None));
    assert!(matches!(next, PathPrompt::AwaitingRetry));
    let next = dc.get_desired_path_step(false, next, PathReply::Retry(true));
    assert!(matches!(next, PathPrompt::AwaitingPath));
    let next = dc.get_desired_path_step(false, next, PathReply::Picked(None));
    assert!(matches!(next, PathPrompt::AwaitingRetry));
    let next = dc.get_desired_path_step(false, next, PathReply::Retry(false));
    match next {
        PathPrompt::Finished { outcome } => assert!(outcome.is_none()),
        _ => panic!("declining the retry must end the exchange"),
    }
    assert_eq!(dc.outfile.as_deref(), Some("/kept/old.txt"));
}

#[test]
fn mismatched_reply_changes_nothing() {
    let mut dc = Derecrypt::new();
    let next = dc.get_desired_path_step(false, PathPrompt::AwaitingPath, PathReply::Confirm(true));
    assert!(matches!(next, PathPrompt::AwaitingPath));
    assert!(dc.outfile.is_none());
}
