//! A parser for the column-aligned tables that command-line tools print.
//!
//! A table is a text whose first lines are a header and whose other lines are
//! rows. The columns of a row are set apart by runs of blanks; a run counts as
//! a column break when it is at least as wide as the table's column gap, or
//! when it reaches the end of the line. Blanks at the start of a line are
//! indentation. A line with fewer fields than the table has columns is no
//! row, nor is a line without any field: rules, titles and blank lines are
//! passed over.

use crate::text::{chars_of, lines, split_lines, text_of};
use vstd::prelude::*;

verus! {

/// Number of blanks in a row from index `from` on.
pub open spec fn gap_len(s: Seq<char>, from: int) -> nat
    decreases s.len() - from,
{
    if from < 0 || from >= s.len() || s[from] != ' ' {
        0
    } else {
        1 + gap_len(s, from + 1)
    }
}

/// A column break begins at index `at`: the line ends there, or a run of
/// blanks begins there that is at least `width` wide or reaches the end of
/// the line.
pub open spec fn breaks_at(s: Seq<char>, at: int, width: nat) -> bool {
    at >= s.len() || (s[at] == ' ' && (gap_len(s, at) >= width || at + gap_len(s, at)
        >= s.len()))
}

/// Number of characters from index `from` up to the next column break.
pub open spec fn field_len(s: Seq<char>, from: int, width: nat) -> nat
    decreases s.len() - from,
{
    if from < 0 || breaks_at(s, from, width) {
        0
    } else {
        1 + field_len(s, from + 1, width)
    }
}

/// The fields of a line that begin at or after index `from`.
pub open spec fn fields_from(s: Seq<char>, from: int, width: nat) -> Seq<Seq<char>>
    decreases s.len() - from,
{
    let start = from + gap_len(s, from);
    if from < 0 || start >= s.len() {
        Seq::empty()
    } else {
        let end = start + 1 + field_len(s, start + 1, width);
        if end >= s.len() {
            seq![s.subrange(start, end)]
        } else {
            seq![s.subrange(start, end)] + fields_from(s, end, width)
        }
    }
}

/// The fields of a line, from left to right.
pub open spec fn fields(s: Seq<char>, width: nat) -> Seq<Seq<char>> {
    fields_from(s, 0, width)
}

/// The fields make a row of a table with `columns` columns: there is at least
/// one, and there are no fewer than the table has columns.
pub open spec fn is_row(row: Seq<Seq<char>>, columns: nat) -> bool {
    row.len() > 0 && row.len() >= columns
}

/// The rows that a list of lines holds: the fields of each line that makes a
/// row.
pub open spec fn rows_of(ls: Seq<Seq<char>>, width: nat, columns: nat) -> Seq<Seq<Seq<char>>>
    decreases ls.len(),
{
    if ls.len() == 0 {
        Seq::empty()
    } else {
        let before = rows_of(ls.drop_last(), width, columns);
        let row = fields(ls.last(), width);
        if is_row(row, columns) {
            before.push(row)
        } else {
            before
        }
    }
}

/// The rows of a table whose first `header` lines are its header.
pub open spec fn table(text: Seq<char>, header: nat, width: nat, columns: nat) -> Seq<
    Seq<Seq<char>>,
> {
    let ls = lines(text);
    if header >= ls.len() {
        Seq::empty()
    } else {
        rows_of(ls.subrange(header as int, ls.len() as int), width, columns)
    }
}

/// A run of blanks and a field both end inside the line.
pub proof fn lemma_lengths(s: Seq<char>, from: int, width: nat)
    requires
        0 <= from <= s.len(),
    ensures
        from + gap_len(s, from) <= s.len(),
        from + field_len(s, from, width) <= s.len(),
    decreases s.len() - from,
{
    if from < s.len() {
        lemma_lengths(s, from + 1, width);
    }
}

/// No field is empty.
pub proof fn lemma_fields_are_not_empty(s: Seq<char>, from: int, width: nat)
    requires
        0 <= from <= s.len(),
    ensures
        forall|i: int|
            0 <= i < fields_from(s, from, width).len() ==> (#[trigger] fields_from(
                s,
                from,
                width,
            )[i]).len() > 0,
    decreases s.len() - from,
{
    lemma_lengths(s, from, width);
    let start = from + gap_len(s, from);
    if start < s.len() {
        lemma_lengths(s, start + 1, width);
        let end = start + 1 + field_len(s, start + 1, width);
        assert(s.subrange(start, end).len() > 0);
        if end < s.len() {
            lemma_fields_are_not_empty(s, end, width);
            let rest = fields_from(s, end, width);
            assert forall|i: int| 0 <= i < fields_from(s, from, width).len() implies (
            #[trigger] fields_from(s, from, width)[i]).len() > 0 by {
                if i > 0 {
                    assert(fields_from(s, from, width)[i] == rest[i - 1]);
                }
            }
        }
    }
}

/// No field of a row is empty.
pub proof fn lemma_rows_hold_texts(ls: Seq<Seq<char>>, width: nat, columns: nat)
    ensures
        forall|i: int, j: int|
            0 <= i < rows_of(ls, width, columns).len() && 0 <= j < rows_of(ls, width, columns)[i].len()
                ==> (#[trigger] rows_of(ls, width, columns)[i][j]).len() > 0,
    decreases ls.len(),
{
    if ls.len() > 0 {
        lemma_rows_hold_texts(ls.drop_last(), width, columns);
        lemma_fields_are_not_empty(ls.last(), 0, width);
        let before = rows_of(ls.drop_last(), width, columns);
        let now = rows_of(ls, width, columns);
        assert forall|i: int, j: int| 0 <= i < now.len() && 0 <= j < now[i].len() implies (
        #[trigger] now[i][j]).len() > 0 by {
            if i < before.len() {
                assert(now[i] == before[i]);
                assert(before[i][j].len() > 0);
            } else {
                assert(now[i] == fields(ls.last(), width));
                assert(fields_from(ls.last(), 0, width)[j].len() > 0);
            }
        }
    }
}

/// Every row of a table has at least one field, and as many as the table has
/// columns.
pub proof fn lemma_rows_have_fields(ls: Seq<Seq<char>>, width: nat, columns: nat)
    ensures
        forall|i: int|
            0 <= i < rows_of(ls, width, columns).len() ==> is_row(
                #[trigger] rows_of(ls, width, columns)[i],
                columns,
            ),
        rows_of(ls, width, columns).len() <= ls.len(),
    decreases ls.len(),
{
    if ls.len() > 0 {
        lemma_rows_have_fields(ls.drop_last(), width, columns);
    }
}

/// Index of the first character at or after `from` that is no blank.
pub(crate) fn gap_end(cs: &Vec<char>, from: usize) -> (end: usize)
    requires
        from <= cs.len(),
    ensures
        end == from + gap_len(cs@, from as int),
        end <= cs.len(),
{
    let mut i: usize = from;
    while i < cs.len() && cs[i] == ' '
        invariant
            from <= i <= cs.len(),
            gap_len(cs@, from as int) == (i - from) + gap_len(cs@, i as int),
        decreases cs.len() - i,
    {
        i += 1;
    }
    i
}

/// Index of the next column break at or after `from`.
pub(crate) fn field_end(cs: &Vec<char>, from: usize, width: usize) -> (end: usize)
    requires
        from <= cs.len(),
    ensures
        end == from + field_len(cs@, from as int, width as nat),
        end <= cs.len(),
{
    let mut i: usize = from;
    while i < cs.len()
        invariant
            from <= i <= cs.len(),
            field_len(cs@, from as int, width as nat) == (i - from) + field_len(
                cs@,
                i as int,
                width as nat,
            ),
        decreases cs.len() - i,
    {
        if cs[i] == ' ' {
            let after = gap_end(cs, i);
            if after - i >= width || after >= cs.len() {
                return i;
            }
        }
        i += 1;
    }
    i
}

/// Splits a line into its fields.
pub fn split_fields(line: &Vec<char>, width: usize) -> (out: Vec<String>)
    ensures
        out.deep_view() == fields(line@, width as nat),
{
    let mut out: Vec<String> = Vec::new();
    let mut pos: usize = 0;
    while pos < line.len()
        invariant
            pos <= line.len(),
            fields(line@, width as nat) == out.deep_view() + fields_from(
                line@,
                pos as int,
                width as nat,
            ),
        decreases line.len() - pos,
    {
        let start = gap_end(line, pos);
        if start >= line.len() {
            proof {
                assert(fields_from(line@, pos as int, width as nat) =~= fields_from(
                    line@,
                    line.len() as int,
                    width as nat,
                ));
            }
            pos = line.len();
        } else {
            let end = field_end(line, start + 1, width);
            let field = text_of(line, start, end);
            let ghost before = out.deep_view();
            out.push(field);
            proof {
                let rest = fields_from(line@, end as int, width as nat);
                assert(out.deep_view() =~= before.push(field@));
                assert(before + (seq![field@] + rest) =~= before.push(field@) + rest);
                assert(before + seq![field@] =~= before.push(field@));
                if end >= line.len() {
                    assert(rest =~= Seq::<Seq<char>>::empty());
                }
            }
            pos = end;
        }
    }
    proof {
        assert(out.deep_view() + fields_from(line@, pos as int, width as nat) =~= out.deep_view());
    }
    out
}

/// The rows of a table: skips the first `header` lines, splits every other
/// line into its fields with the column gap `width`, and leaves out the lines
/// that hold no field or fewer fields than `columns`.
pub fn parse_table(text: &str, header: usize, width: usize, columns: usize) -> (out: Vec<
    Vec<String>,
>)
    ensures
        out.deep_view() == table(text@, header as nat, width as nat, columns as nat),
{
    let cs = chars_of(text);
    let ls = split_lines(&cs);
    let mut out: Vec<Vec<String>> = Vec::new();
    assert(ls.deep_view().len() == ls.len());
    if header >= ls.len() {
        assert(out.deep_view() =~= Seq::<Seq<Seq<char>>>::empty());
        return out;
    }
    let ghost all = lines(text@);
    let mut i: usize = header;
    assert(all.subrange(header as int, header as int) =~= Seq::<Seq<char>>::empty());
    assert(out.deep_view() =~= Seq::<Seq<Seq<char>>>::empty());
    while i < ls.len()
        invariant
            header <= i <= ls.len(),
            ls.deep_view() == all,
            all.len() == ls.len(),
            out.deep_view() == rows_of(
                all.subrange(header as int, i as int),
                width as nat,
                columns as nat,
            ),
        decreases ls.len() - i,
    {
        let row = split_fields(&ls[i], width);
        proof {
            let next = all.subrange(header as int, i + 1);
            assert(next.drop_last() =~= all.subrange(header as int, i as int));
            assert(all[i as int] == ls[i as int].deep_view());
            assert(ls[i as int].deep_view() =~= ls[i as int]@);
            assert(next.last() == ls[i as int]@);
        }
        assert(row.deep_view().len() == row.len());
        if row.len() > 0 && row.len() >= columns {
            let ghost before = out.deep_view();
            let ghost fields = row.deep_view();
            out.push(row);
            assert(out.deep_view() =~= before.push(fields));
        }
        i += 1;
    }
    out
}

} // verus!
