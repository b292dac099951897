use svn_wrapper::{SvnError, SvnInfo, SvnStatus};

const FULL_INFO: &str = "URL: https://example/repo\nRepository Root: https://example\nLast Changed Author: alice\nLast Changed Rev: 42\nLast Changed Date: 2024-01-01";

fn detail(e: &SvnError) -> String {
    match e {
        SvnError::CommandFailed(s) => s.clone(),
    }
}

#[test]
fn info_reads_all_five_fields() {
    let info = SvnInfo::parse(FULL_INFO).unwrap();
    assert_eq!(info.url, "https://example/repo");
    assert_eq!(info.repository_root, "https://example");
    assert_eq!(info.last_changed_author, "alice");
    assert_eq!(info.last_changed_rev, 42);
    assert_eq!(info.last_changed_date, "2024-01-01");
}

#[test]
fn info_keeps_values_verbatim_among_other_lines() {
    let text = "Path: .\nWorking Copy Root Path: /home/a/wc\nURL: svn://h/r/trunk  \nRelative URL: ^/trunk\nRepository Root: svn://h/r\nRevision: 7\nLast Changed Author:  bob\nLast Changed Rev: 0\nLast Changed Date: 2024-02-03 10:00:00 +0000 (Sat, 03 Feb 2024)\n\n";
    let info = SvnInfo::parse(text).unwrap();
    assert_eq!(info.url, "svn://h/r/trunk  ");
    assert_eq!(info.repository_root, "svn://h/r");
    assert_eq!(info.last_changed_author, " bob");
    assert_eq!(info.last_changed_rev, 0);
    assert_eq!(info.last_changed_date, "2024-02-03 10:00:00 +0000 (Sat, 03 Feb 2024)");
}

#[test]
fn info_first_labeled_line_wins() {
    let text = "URL: first\nURL: second\nRepository Root: r\nLast Changed Author: a\nLast Changed Rev: 1\nLast Changed Rev: 2\nLast Changed Date: d";
    let info = SvnInfo::parse(text).unwrap();
    assert_eq!(info.url, "first");
    assert_eq!(info.last_changed_rev, 1);
}

#[test]
fn info_strips_carriage_returns() {
    let text = "URL: u\r\nRepository Root: r\r\nLast Changed Author: a\r\nLast Changed Rev: 9\r\nLast Changed Date: d\r\n";
    let info = SvnInfo::parse(text).unwrap();
    assert_eq!(info.url, "u");
    assert_eq!(info.last_changed_rev, 9);
    assert_eq!(info.last_changed_date, "d");
}

#[test]
fn info_missing_any_label_fails() {
    let labels = ["URL: ", "Repository Root: ", "Last Changed Author: ", "Last Changed Rev: ", "Last Changed Date: "];
    for label in labels {
        let text: String = FULL_INFO
            .lines()
            .filter(|l| !l.starts_with(label))
            .collect::<Vec<_>>()
            .join("\n");
        let e = SvnInfo::parse(&text).err().unwrap();
        assert_eq!(detail(&e), "Unable to parse svn info output");
    }
}

#[test]
fn info_label_is_case_sensitive() {
    let text = FULL_INFO.replace("URL: ", "url: ");
    assert!(SvnInfo::parse(&text).is_err());
}

#[test]
fn info_non_numeric_revision_fails() {
    let text = FULL_INFO.replace("Rev: 42", "Rev: 4x2");
    let e = SvnInfo::parse(&text).err().unwrap();
    assert_eq!(detail(&e), "Unable to parse svn info output");
    assert!(SvnInfo::parse(&FULL_INFO.replace("Rev: 42", "Rev: ")).is_err());
    assert!(SvnInfo::parse(&FULL_INFO.replace("Rev: 42", "Rev: -1")).is_err());
    assert!(SvnInfo::parse(&FULL_INFO.replace("Rev: 42", "Rev: +")).is_err());
}

#[test]
fn info_revision_bounds() {
    let max = SvnInfo::parse(&FULL_INFO.replace("Rev: 42", "Rev: 4294967295")).unwrap();
    assert_eq!(max.last_changed_rev, 4294967295);
    assert!(SvnInfo::parse(&FULL_INFO.replace("Rev: 42", "Rev: 4294967296")).is_err());
    let plus = SvnInfo::parse(&FULL_INFO.replace("Rev: 42", "Rev: +17")).unwrap();
    assert_eq!(plus.last_changed_rev, 17);
}

#[test]
fn info_empty_text_fails() {
    assert!(SvnInfo::parse("").is_err());
}

#[test]
fn status_collapses_runs_of_spaces() {
    let entries = SvnStatus::parse("M       foo/bar.txt        *");
    assert_eq!(entries.len(), 1);
    assert_eq!(entries[0].status, "M");
    assert_eq!(entries[0].item, "foo/bar.txt");
    assert_eq!(entries[0].repository_status, "*");
    assert_eq!(entries[0].working_copy_status, "");
}

#[test]
fn status_absent_columns_are_empty() {
    let entries = SvnStatus::parse("A new.txt\n");
    assert_eq!(entries.len(), 1);
    assert_eq!(entries[0].status, "A");
    assert_eq!(entries[0].item, "new.txt");
    assert_eq!(entries[0].repository_status, "");
    assert_eq!(entries[0].working_copy_status, "");
}

#[test]
fn status_reads_four_columns_and_ignores_more() {
    let entries = SvnStatus::parse("  M a.c * 12 extra");
    assert_eq!(entries.len(), 1);
    assert_eq!(entries[0].status, "M");
    assert_eq!(entries[0].item, "a.c");
    assert_eq!(entries[0].repository_status, "*");
    assert_eq!(entries[0].working_copy_status, "12");
}

#[test]
fn status_drops_lines_with_fewer_than_two_fields() {
    let text = "M a.txt\n\n   \nsummary\n? b.txt\nStatus against revision:     7\n";
    let entries = SvnStatus::parse(text);
    assert_eq!(entries.len(), 3);
    assert_eq!(entries[0].item, "a.txt");
    assert_eq!(entries[1].status, "?");
    assert_eq!(entries[1].item, "b.txt");
    assert_eq!(entries[2].status, "Status");
    assert_eq!(entries[2].item, "against");
    assert_eq!(entries[2].repository_status, "revision:");
    assert_eq!(entries[2].working_copy_status, "7");
}

#[test]
fn status_empty_text_gives_no_entries() {
    assert!(SvnStatus::parse("").is_empty());
    assert!(SvnStatus::parse("\n\n").is_empty());
}
