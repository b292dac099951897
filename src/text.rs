use vstd::prelude::*;

verus! {

/// Drops one trailing carriage return, as a `\r\n` line ending leaves it.
pub open spec fn without_cr(l: Seq<char>) -> Seq<char> {
    if l.len() > 0 && l.last() == '\r' {
        l.drop_last()
    } else {
        l
    }
}

/// Reads `t` left to right: the lines already ended by `\n`, and the
/// characters of the line still open.
pub open spec fn line_scan(t: Seq<char>) -> (Seq<Seq<char>>, Seq<char>)
    decreases t.len(),
{
    if t.len() == 0 {
        (Seq::empty(), Seq::empty())
    } else {
        let (done, open) = line_scan(t.drop_last());
        if t.last() == '\n' {
            (done.push(without_cr(open)), Seq::empty())
        } else {
            (done, open.push(t.last()))
        }
    }
}

/// The lines of `t`: split at `\n`, a `\r` before the `\n` removed, and no
/// empty line after a final `\n`.
pub open spec fn lines(t: Seq<char>) -> Seq<Seq<char>> {
    let (done, open) = line_scan(t);
    if open.len() == 0 {
        done
    } else {
        done.push(open)
    }
}

/// Reads `t` left to right: the non-empty runs already ended by a space,
/// and the run still open.
pub open spec fn field_scan(t: Seq<char>) -> (Seq<Seq<char>>, Seq<char>)
    decreases t.len(),
{
    if t.len() == 0 {
        (Seq::empty(), Seq::empty())
    } else {
        let (done, open) = field_scan(t.drop_last());
        if t.last() == ' ' {
            (if open.len() == 0 { done } else { done.push(open) }, Seq::empty())
        } else {
            (done, open.push(t.last()))
        }
    }
}

/// The fields of a line: its maximal runs of characters other than a space,
/// in order. Several spaces in a row separate two fields like one.
pub open spec fn fields(t: Seq<char>) -> Seq<Seq<char>> {
    let (done, open) = field_scan(t);
    if open.len() == 0 {
        done
    } else {
        done.push(open)
    }
}

/// The part `p.0 .. p.1` of `v` lies within `v` and is `s`.
pub open spec fn spans(v: Seq<char>, p: (usize, usize), s: Seq<char>) -> bool {
    p.0 <= p.1 <= v.len() && v.subrange(p.0 as int, p.1 as int) == s
}

/// The views of a vector of strings.
pub open spec fn views(v: Seq<String>) -> Seq<Seq<char>> {
    v.map_values(|s: String| s@)
}

/// Relies on `String::push`: appends one character.
pub assume_specification[ String::push ](s: &mut String, ch: char)
    ensures
        final(s)@ == old(s)@.push(ch),
;

/// The characters of `s`, in order.
pub fn chars_of(s: &str) -> (r: Vec<char>)
    ensures
        r@ == s@,
{
    let mut r: Vec<char> = Vec::new();
    for c in it: s.chars()
        invariant
            it.seq() == s@,
            r@ == s@.take(it.index() as int),
    {
        r.push(c);
    }
    r
}

/// The string made of `v[from..to]`.
pub fn string_of(v: &Vec<char>, from: usize, to: usize) -> (r: String)
    requires
        from <= to <= v@.len(),
    ensures
        r@ == v@.subrange(from as int, to as int),
{
    let mut r = String::new();
    let mut i: usize = from;
    while i < to
        invariant
            from <= i <= to <= v@.len(),
            r@ == v@.subrange(from as int, i as int),
        decreases to - i,
    {
        r.push(v[i]);
        i = i + 1;
    }
    r
}

/// Where each line of `v@` lies in `v`: the line numbered `k` is
/// `v@.subrange(r[k].0, r[k].1)`.
pub fn line_ranges(v: &Vec<char>) -> (r: Vec<(usize, usize)>)
    ensures
        r@.len() == lines(v@).len(),
        forall|k: int|
            0 <= k < r@.len() ==> {
                &&& (#[trigger] r@[k]).0 <= r@[k].1 <= v@.len()
                &&& v@.subrange(r@[k].0 as int, r@[k].1 as int) == lines(v@)[k]
            },
{
    let mut r: Vec<(usize, usize)> = Vec::new();
    let mut start: usize = 0;
    let mut i: usize = 0;
    while i < v.len()
        invariant
            start <= i <= v@.len(),
            r@.len() == line_scan(v@.take(i as int)).0.len(),
            line_scan(v@.take(i as int)).1 == v@.subrange(start as int, i as int),
            forall|k: int|
                0 <= k < r@.len() ==> {
                    &&& (#[trigger] r@[k]).0 <= r@[k].1 <= v@.len()
                    &&& v@.subrange(r@[k].0 as int, r@[k].1 as int) == line_scan(
                        v@.take(i as int),
                    ).0[k]
                },
        decreases v@.len() - i,
    {
        assert(v@.take(i + 1).drop_last() =~= v@.take(i as int));
        if v[i] == '\n' {
            let end: usize = if i > start && v[i - 1] == '\r' {
                i - 1
            } else {
                i
            };
            assert(v@.subrange(start as int, end as int) =~= without_cr(
                v@.subrange(start as int, i as int),
            ));
            r.push((start, end));
            start = i + 1;
        } else {
            assert(v@.subrange(start as int, i + 1) =~= v@.subrange(start as int, i as int).push(
                v@[i as int],
            ));
        }
        i = i + 1;
    }
    assert(v@.take(i as int) =~= v@);
    if start < i {
        r.push((start, i));
    }
    r
}

/// Where each field of the line `v@.subrange(from, to)` lies in `v`: the field
/// numbered `k` is `v@.subrange(r[k].0, r[k].1)`.
pub fn field_ranges(v: &Vec<char>, from: usize, to: usize) -> (r: Vec<(usize, usize)>)
    requires
        from <= to <= v@.len(),
    ensures
        r@.len() == fields(v@.subrange(from as int, to as int)).len(),
        forall|k: int|
            0 <= k < r@.len() ==> {
                &&& (#[trigger] r@[k]).0 <= r@[k].1 <= v@.len()
                &&& v@.subrange(r@[k].0 as int, r@[k].1 as int) == fields(
                    v@.subrange(from as int, to as int),
                )[k]
            },
{
    let ghost line = v@.subrange(from as int, to as int);
    let mut r: Vec<(usize, usize)> = Vec::new();
    let mut start: usize = from;
    let mut i: usize = from;
    while i < to
        invariant
            from <= start <= i <= to <= v@.len(),
            line == v@.subrange(from as int, to as int),
            r@.len() == field_scan(line.take(i - from)).0.len(),
            field_scan(line.take(i - from)).1 == v@.subrange(start as int, i as int),
            forall|k: int|
                0 <= k < r@.len() ==> {
                    &&& (#[trigger] r@[k]).0 <= r@[k].1 <= v@.len()
                    &&& v@.subrange(r@[k].0 as int, r@[k].1 as int) == field_scan(
                        line.take(i - from),
                    ).0[k]
                },
        decreases to - i,
    {
        assert(line.take(i + 1 - from).drop_last() =~= line.take(i - from));
        assert(line.take(i + 1 - from).last() == v@[i as int]);
        if v[i] == ' ' {
            if start < i {
                r.push((start, i));
            }
            start = i + 1;
        } else {
            assert(v@.subrange(start as int, i + 1) =~= v@.subrange(start as int, i as int).push(
                v@[i as int],
            ));
        }
        i = i + 1;
    }
    assert(line.take(i - from) =~= line);
    if start < i {
        r.push((start, i));
    }
    r
}

} // verus!
