use vstd::prelude::*;
use crate::command::{lossy_text, CommandOutput};
use crate::error::{fails_with, SvnError};
use crate::text::{chars_of, field_ranges, fields, line_ranges, lines, string_of};

verus! {

/// One line of `svn status --show-updates` output.
pub struct SvnStatus {
    pub item: String,
    pub status: String,
    pub repository_status: String,
    pub working_copy_status: String,
}

/// A line that makes an entry: it has at least two fields.
pub open spec fn is_entry_line(l: Seq<char>) -> bool {
    fields(l).len() >= 2
}

/// The lines of `ls` that make entries, in order.
pub open spec fn entry_lines(ls: Seq<Seq<char>>) -> Seq<Seq<char>> {
    ls.filter(|l: Seq<char>| is_entry_line(l))
}

/// Field number `k` of `f`, or the empty text where `f` has fewer fields.
pub open spec fn field_or_empty(f: Seq<Seq<char>>, k: int) -> Seq<char> {
    if k < f.len() {
        f[k]
    } else {
        Seq::empty()
    }
}

/// `e` is read from the line `l`: its first field is the status, the second
/// the item, the third and fourth, where present, the repository and working
/// copy status.
pub open spec fn status_of(e: SvnStatus, l: Seq<char>) -> bool {
    let f = fields(l);
    &&& e.status@ == f[0]
    &&& e.item@ == f[1]
    &&& e.repository_status@ == field_or_empty(f, 2)
    &&& e.working_copy_status@ == field_or_empty(f, 3)
}

/// The entries read from `text`, as `SvnStatus::parse` states them.
pub open spec fn statuses_of(r: Seq<SvnStatus>, text: Seq<char>) -> bool {
    let es = entry_lines(lines(text));
    &&& r.len() == es.len()
    &&& forall|k: int| 0 <= k < r.len() ==> status_of(#[trigger] r[k], es[k])
}

impl SvnStatus {
    /// Reads a finished run of `svn status --show-updates`: on a zero exit
    /// status its standard output as `parse` does, else a failure that
    /// carries the standard error.
    pub fn new(output: &CommandOutput) -> (r: Result<Vec<SvnStatus>, SvnError>)
        ensures
            !output.success ==> r is Err && fails_with(r->Err_0, lossy_text(output.stderr@)),
            output.success ==> r is Ok && statuses_of(r->Ok_0@, lossy_text(output.stdout@)),
    {
        match output.checked() {
            Ok(text) => Ok(SvnStatus::parse(text.as_str())),
            Err(e) => Err(e),
        }
    }

    /// Reads the output of `svn status --show-updates`: one entry for each
    /// line with at least two fields, in the order of the lines. Fields are
    /// separated by spaces, a run of spaces counting as one separator.
    pub fn parse(text: &str) -> (r: Vec<SvnStatus>)
        ensures
            statuses_of(r@, text@),
    {
        let v = chars_of(text);
        let ranges = line_ranges(&v);
        let ghost ls = lines(text@);
        let mut r: Vec<SvnStatus> = Vec::new();
        let mut k: usize = 0;
        while k < ranges.len()
            invariant
                k <= ranges@.len() == ls.len(),
                ls == lines(v@),
                forall|j: int|
                    0 <= j < ranges@.len() ==> {
                        &&& (#[trigger] ranges@[j]).0 <= ranges@[j].1 <= v@.len()
                        &&& v@.subrange(ranges@[j].0 as int, ranges@[j].1 as int) == ls[j]
                    },
                r@.len() == entry_lines(ls.take(k as int)).len(),
                forall|j: int|
                    0 <= j < r@.len() ==> status_of(
                        #[trigger] r@[j],
                        entry_lines(ls.take(k as int))[j],
                    ),
            decreases ranges@.len() - k,
        {
            let ghost before = ls.take(k as int);
            assert(ls.take(k + 1).drop_last() =~= before);
            assert(ls.take(k + 1).last() == ls[k as int]);
            reveal(Seq::filter);
            let (from, to) = ranges[k];
            let fs = field_ranges(&v, from, to);
            if fs.len() >= 2 {
                let entry = SvnStatus {
                    status: string_of(&v, fs[0].0, fs[0].1),
                    item: string_of(&v, fs[1].0, fs[1].1),
                    repository_status: if fs.len() > 2 {
                        string_of(&v, fs[2].0, fs[2].1)
                    } else {
                        String::new()
                    },
                    working_copy_status: if fs.len() > 3 {
                        string_of(&v, fs[3].0, fs[3].1)
                    } else {
                        String::new()
                    },
                };
                r.push(entry);
            }
            k = k + 1;
        }
        assert(ls.take(k as int) =~= ls);
        r
    }
}

} // verus!
