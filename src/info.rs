use vstd::prelude::*;
use crate::command::{lossy_text, CommandOutput};
use crate::decimal::{all_digits, decimal_u32, is_digit, parse_u32, unsigned_digits};
use crate::error::{fails_with, SvnError};
use crate::text::{chars_of, line_ranges, lines, spans, string_of};

verus! {

/// The label of the line that gives the working copy's URL.
pub const URL_LABEL: &'static str = "URL: ";

/// The label of the line that gives the repository root.
pub const ROOT_LABEL: &'static str = "Repository Root: ";

/// The label of the line that gives the last author.
pub const AUTHOR_LABEL: &'static str = "Last Changed Author: ";

/// The label of the line that gives the last changed revision.
pub const REV_LABEL: &'static str = "Last Changed Rev: ";

/// The label of the line that gives the date of the last change.
pub const DATE_LABEL: &'static str = "Last Changed Date: ";

/// The text of the error for `info` output that lacks a field.
pub const INFO_PARSE_FAILURE: &'static str = "Unable to parse svn info output";

/// What `svn info` reports of a working copy.
pub struct SvnInfo {
    pub url: String,
    pub repository_root: String,
    pub last_changed_author: String,
    pub last_changed_rev: u32,
    pub last_changed_date: String,
}

/// `l` begins with `label`.
pub open spec fn starts_with(l: Seq<char>, label: Seq<char>) -> bool {
    label.len() <= l.len() && l.take(label.len() as int) == label
}

/// The rest of the first line at or after number `k` of `ls` that begins
/// with `label`, if there is one.
pub open spec fn labeled_from(ls: Seq<Seq<char>>, label: Seq<char>, k: nat) -> Option<Seq<char>>
    decreases ls.len() - k,
{
    if k >= ls.len() {
        None
    } else if starts_with(ls[k as int], label) {
        Some(ls[k as int].skip(label.len() as int))
    } else {
        labeled_from(ls, label, k + 1)
    }
}

/// The rest of the first line of `ls` that begins with `label`, if any.
pub open spec fn labeled(ls: Seq<Seq<char>>, label: Seq<char>) -> Option<Seq<char>> {
    labeled_from(ls, label, 0)
}

/// The lines `ls` hold all five labels, and the revision is a `u32`.
pub open spec fn info_parses(ls: Seq<Seq<char>>) -> bool {
    &&& labeled(ls, URL_LABEL@) is Some
    &&& labeled(ls, ROOT_LABEL@) is Some
    &&& labeled(ls, AUTHOR_LABEL@) is Some
    &&& labeled(ls, REV_LABEL@) is Some
    &&& parse_u32(labeled(ls, REV_LABEL@)->0) is Some
    &&& labeled(ls, DATE_LABEL@) is Some
}

/// Each field of `i` is the rest of the first line of `ls` with its label.
pub open spec fn info_of(i: SvnInfo, ls: Seq<Seq<char>>) -> bool {
    &&& i.url@ == labeled(ls, URL_LABEL@)->0
    &&& i.repository_root@ == labeled(ls, ROOT_LABEL@)->0
    &&& i.last_changed_author@ == labeled(ls, AUTHOR_LABEL@)->0
    &&& i.last_changed_rev == parse_u32(labeled(ls, REV_LABEL@)->0)->0
    &&& i.last_changed_date@ == labeled(ls, DATE_LABEL@)->0
}

proof fn lemma_unlabeled_from(ls: Seq<Seq<char>>, label: Seq<char>, k: nat)
    requires
        forall|j: int| 0 <= j < ls.len() ==> !starts_with(#[trigger] ls[j], label),
    ensures
        labeled_from(ls, label, k) is None,
    decreases ls.len() - k,
{
    if k < ls.len() {
        assert(!starts_with(ls[k as int], label));
        lemma_unlabeled_from(ls, label, k + 1);
    }
}

/// The five labels that `info` output must hold.
pub open spec fn is_info_label(label: Seq<char>) -> bool {
    label == URL_LABEL@ || label == ROOT_LABEL@ || label == AUTHOR_LABEL@ || label
        == REV_LABEL@ || label == DATE_LABEL@
}

/// Output in which no line begins with one of the five labels does not
/// parse, whichever label it is.
pub proof fn missing_label_fails(text: Seq<char>, label: Seq<char>)
    requires
        is_info_label(label),
        forall|j: int| 0 <= j < lines(text).len() ==> !starts_with(#[trigger] lines(text)[j], label),
    ensures
        !info_parses(lines(text)),
{
    lemma_unlabeled_from(lines(text), label, 0);
}

/// Text holding a character that is not a digit, other than a leading plus
/// sign: it does not read as a number.
pub open spec fn non_numeric(s: Seq<char>) -> bool {
    exists|i: int| 0 <= i < s.len() && !is_digit(#[trigger] s[i]) && !(i == 0 && s[i] == '+')
}

/// Output whose first revision line holds a non-numeric rest does not parse.
pub proof fn non_numeric_revision_fails(text: Seq<char>)
    requires
        labeled(lines(text), REV_LABEL@) is Some,
        non_numeric(labeled(lines(text), REV_LABEL@)->0),
    ensures
        !info_parses(lines(text)),
{
    let s = labeled(lines(text), REV_LABEL@)->0;
    let i = choose|i: int| 0 <= i < s.len() && !is_digit(#[trigger] s[i]) && !(i == 0 && s[i] == '+');
    let d = unsigned_digits(s);
    if s.len() > 0 && s[0] == '+' {
        assert(d[i - 1] == s[i]);
        assert(!is_digit(d[i - 1]));
    } else {
        assert(!is_digit(d[i]));
    }
    assert(!all_digits(d));
}

/// Finds the first line of `ls` that begins with `label` and gives where
/// the rest of it lies in `v`.
fn labeled_range(
    v: &Vec<char>,
    ranges: &Vec<(usize, usize)>,
    label: &str,
    Ghost(ls): Ghost<Seq<Seq<char>>>,
) -> (r: Option<(usize, usize)>)
    requires
        ranges@.len() == ls.len(),
        forall|k: int|
            0 <= k < ranges@.len() ==> {
                &&& (#[trigger] ranges@[k]).0 <= ranges@[k].1 <= v@.len()
                &&& v@.subrange(ranges@[k].0 as int, ranges@[k].1 as int) == ls[k]
            },
    ensures
        r is None <==> labeled(ls, label@) is None,
        r is Some ==> spans(v@, r->0, labeled(ls, label@)->0),
{
    let lc = chars_of(label);
    let mut k: usize = 0;
    while k < ranges.len()
        invariant
            k <= ranges@.len() == ls.len(),
            lc@ == label@,
            labeled_from(ls, label@, k as nat) == labeled(ls, label@),
            forall|j: int|
                0 <= j < ranges@.len() ==> {
                    &&& (#[trigger] ranges@[j]).0 <= ranges@[j].1 <= v@.len()
                    &&& v@.subrange(ranges@[j].0 as int, ranges@[j].1 as int) == ls[j]
                },
        decreases ranges@.len() - k,
    {
        let (from, to) = ranges[k];
        let ghost l = ls[k as int];
        let mut matched = lc.len() <= to - from;
        let mut j: usize = 0;
        while matched && j < lc.len()
            invariant
                from <= to <= v@.len(),
                l == v@.subrange(from as int, to as int),
                matched ==> lc@.len() <= l.len(),
                j <= lc@.len(),
                matched ==> l.take(j as int) == lc@.take(j as int),
                !matched ==> !starts_with(l, lc@),
            decreases lc@.len() - j + (if matched { 1int } else { 0int }),
        {
            if v[from + j] != lc[j] {
                assert(l.take(lc@.len() as int)[j as int] == l[j as int]);
                matched = false;
            } else {
                assert(l.take(j + 1) =~= l.take(j as int).push(l[j as int]));
                assert(lc@.take(j + 1) =~= lc@.take(j as int).push(lc@[j as int]));
                j = j + 1;
            }
        }
        if matched {
            assert(lc@.take(j as int) =~= lc@);
            assert(v@.subrange(from + j, to as int) =~= l.skip(lc@.len() as int));
            return Some((from + j, to));
        }
        k = k + 1;
    }
    None
}

impl SvnInfo {
    /// Reads a finished run of `svn info`: on a zero exit status its standard
    /// output as `parse` does, else a failure that carries the standard error.
    pub fn new(output: &CommandOutput) -> (r: Result<SvnInfo, SvnError>)
        ensures
            !output.success ==> r is Err && fails_with(r->Err_0, lossy_text(output.stderr@)),
            output.success ==> {
                let ls = lines(lossy_text(output.stdout@));
                &&& r is Ok <==> info_parses(ls)
                &&& r is Ok ==> info_of(r->Ok_0, ls)
                &&& r is Err ==> fails_with(r->Err_0, INFO_PARSE_FAILURE@)
            },
    {
        match output.checked() {
            Ok(text) => SvnInfo::parse(text.as_str()),
            Err(e) => Err(e),
        }
    }

    /// Reads the output of `svn info`. Each field is what follows its label on
    /// the first line that begins with that label; the revision must read as
    /// a `u32`. Without all five labels, or with a revision that does not
    /// read, the result is the one parse failure.
    pub fn parse(text: &str) -> (r: Result<SvnInfo, SvnError>)
        ensures
            r is Ok <==> info_parses(lines(text@)),
            r is Ok ==> info_of(r->Ok_0, lines(text@)),
            r is Err ==> fails_with(r->Err_0, INFO_PARSE_FAILURE@),
    {
        let v = chars_of(text);
        let ranges = line_ranges(&v);
        let ghost ls = lines(text@);
        let url = labeled_range(&v, &ranges, URL_LABEL, Ghost(ls));
        let root = labeled_range(&v, &ranges, ROOT_LABEL, Ghost(ls));
        let author = labeled_range(&v, &ranges, AUTHOR_LABEL, Ghost(ls));
        let rev = labeled_range(&v, &ranges, REV_LABEL, Ghost(ls));
        let date = labeled_range(&v, &ranges, DATE_LABEL, Ghost(ls));
        match (url, root, author, rev, date) {
            (Some(url), Some(root), Some(author), Some(rev), Some(date)) => {
                match decimal_u32(&v, rev.0, rev.1) {
                    Some(n) => Ok(SvnInfo {
                        url: string_of(&v, url.0, url.1),
                        repository_root: string_of(&v, root.0, root.1),
                        last_changed_author: string_of(&v, author.0, author.1),
                        last_changed_rev: n,
                        last_changed_date: string_of(&v, date.0, date.1),
                    }),
                    None => Err(SvnError::CommandFailed(String::from_str(INFO_PARSE_FAILURE))),
                }
            },
            _ => Err(SvnError::CommandFailed(String::from_str(INFO_PARSE_FAILURE))),
        }
    }
}

} // verus!
