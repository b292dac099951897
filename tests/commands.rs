use svn_wrapper::{CommandOutput, SvnError, SvnInfo, SvnStatus, SvnWrapper};

fn detail(e: &SvnError) -> String {
    match e {
        SvnError::CommandFailed(s) => s.clone(),
    }
}

fn failed(stderr: &[u8]) -> CommandOutput {
    CommandOutput { success: false, stdout: b"ignored".to_vec(), stderr: stderr.to_vec() }
}

fn succeeded(stdout: &[u8]) -> CommandOutput {
    CommandOutput { success: true, stdout: stdout.to_vec(), stderr: b"warning".to_vec() }
}

#[test]
fn argument_vectors() {
    let svn = SvnWrapper::new();
    assert_eq!(svn.commit_args("wc"), vec!["commit", "-m", "\"Committed changes\"", "wc"]);
    assert_eq!(svn.checkout_args("svn://h/r", "wc"), vec!["checkout", "svn://h/r", "wc"]);
    assert_eq!(svn.update_args("wc"), vec!["update", "wc"]);
    assert_eq!(svn.log_args("wc"), vec!["log", "wc"]);
    assert_eq!(svn.info_args("wc"), vec!["info", "wc"]);
    assert_eq!(svn.status_args("wc"), vec!["status", "--show-updates", "wc"]);
    assert_eq!(svn.version_args(), vec!["--version"]);
}

#[test]
fn failing_run_keeps_stderr() {
    let svn = SvnWrapper::new();
    let out = failed(b"svn: E155007: not a working copy\n");
    assert_eq!(detail(&svn.finish(&out).unwrap_err()), "svn: E155007: not a working copy\n");
    assert_eq!(detail(&svn.log(&out).unwrap_err()), "svn: E155007: not a working copy\n");
    assert_eq!(detail(&SvnInfo::new(&out).err().unwrap()), "svn: E155007: not a working copy\n");
    assert_eq!(detail(&SvnStatus::new(&out).err().unwrap()), "svn: E155007: not a working copy\n");
}

#[test]
fn successful_run_gives_stdout() {
    let svn = SvnWrapper::new();
    let out = succeeded(b"r1 | alice\n");
    assert!(svn.finish(&out).is_ok());
    assert_eq!(svn.log(&out).unwrap(), "r1 | alice\n");
    assert_eq!(out.checked().unwrap(), "r1 | alice\n");
}

#[test]
fn invalid_bytes_are_replaced() {
    let svn = SvnWrapper::new();
    let out = succeeded(&[b'o', b'k', 0xff, b'!']);
    assert_eq!(svn.log(&out).unwrap(), "ok\u{FFFD}!");
    let bad = failed(&[0xc3, b'x']);
    assert_eq!(detail(&svn.finish(&bad).unwrap_err()), "\u{FFFD}x");
}

#[test]
fn info_from_run() {
    let out = succeeded(b"URL: u\nRepository Root: r\nLast Changed Author: a\nLast Changed Rev: 5\nLast Changed Date: d\n");
    let info = SvnInfo::new(&out).unwrap();
    assert_eq!(info.url, "u");
    assert_eq!(info.last_changed_rev, 5);
    let e = SvnInfo::new(&succeeded(b"URL: u\n")).err().unwrap();
    assert_eq!(detail(&e), "Unable to parse svn info output");
}

#[test]
fn status_from_run() {
    let out = succeeded(b"M       wc/a.txt\n        *        wc/b.txt\nStatus against revision:      3\n");
    let entries = SvnStatus::new(&out).ok().unwrap();
    assert_eq!(entries.len(), 3);
    assert_eq!(entries[0].item, "wc/a.txt");
    assert_eq!(entries[1].status, "*");
    assert_eq!(entries[1].item, "wc/b.txt");
}

#[test]
fn error_message_has_lead_in() {
    let e = SvnError::CommandFailed("boom".to_string());
    assert_eq!(e.message(), "Failed to run svn command: boom");
    assert_eq!(e.detail(), "boom");
}
