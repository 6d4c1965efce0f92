//! Text tables for the prompt: columns padded to their widest entry.

use vstd::prelude::*;
use crate::text::to_owned;

verus! {

/// The length in bytes of a text, as UTF-8, as the machine counts it.
pub open spec fn byte_len(s: Seq<char>) -> nat {
    (vstd::utf8::encode_utf8(s).len() as usize) as nat
}

/// The widest entry of a column, in bytes.
pub open spec fn col_width(col: Seq<String>) -> nat
    decreases col.len(),
{
    if col.len() == 0 {
        0
    } else {
        let w = col_width(col.drop_last());
        let l = byte_len(col.last()@);
        if l > w {
            l
        } else {
            w
        }
    }
}

/// `k` spaces.
pub open spec fn spaces(k: int) -> Seq<char> {
    Seq::new(if k > 0 { k as nat } else { 0 }, |i: int| ' ')
}

/// An entry padded with spaces to `w` characters, on the right in the first row and on the left below it.
pub open spec fn cell(s: Seq<char>, w: int, first: bool) -> Seq<char> {
    if first {
        s + spaces(w - s.len())
    } else {
        spaces(w - s.len()) + s
    }
}

/// The cells of row `y` for the first `n` columns, each behind the row's separator.
pub open spec fn row_cells(table: Seq<Seq<String>>, y: int, sep: Seq<char>, n: int) -> Seq<char>
    decreases n,
{
    if n <= 0 {
        Seq::empty()
    } else {
        row_cells(table, y, sep, n - 1) + sep + " "@ + cell(table[n - 1][y]@, col_width(table[n - 1]) as int, y == 0)
            + " "@
    }
}

/// The separator of row `y`.
pub open spec fn row_sep(y: int, first_sep: Seq<char>, sep: Seq<char>) -> Seq<char> {
    if y == 0 {
        first_sep
    } else {
        sep
    }
}

/// The text of the first `rows` rows of a table given as columns.
pub open spec fn table_text(table: Seq<Seq<String>>, first_sep: Seq<char>, sep: Seq<char>, rows: int) -> Seq<char>
    decreases rows,
{
    if rows <= 0 {
        Seq::empty()
    } else {
        let s = row_sep(rows - 1, first_sep, sep);
        table_text(table, first_sep, sep, rows - 1) + row_cells(table, rows - 1, s, table.len() as int) + s + "\n"@
    }
}

fn column_width(col: &Vec<String>) -> (r: usize)
    ensures
        r == col_width(col@),
{
    let mut w: usize = 0;
    let mut i: usize = 0;
    while i < col.len()
        invariant
            i <= col@.len(),
            w == col_width(col@.take(i as int)),
        decreases col@.len() - i,
    {
        let l = col[i].as_str().len();
        proof {
            assert(col@.take(i + 1).drop_last() =~= col@.take(i as int));
            assert(col@.take(i + 1).last() == col@[i as int]);
        }
        if l > w {
            w = l;
        }
        i += 1;
    }
    assert(col@.take(col@.len() as int) =~= col@);
    w
}

fn push_spaces(out: &mut String, k: usize)
    ensures
        final(out)@ == old(out)@ + spaces(k as int),
{
    let mut i: usize = 0;
    while i < k
        invariant
            i <= k,
            out@ == old(out)@ + spaces(i as int),
        decreases k - i,
    {
        out.append(" ");
        proof {
            reveal_strlit(" ");
            assert(spaces(i + 1) =~= spaces(i as int) + " "@);
        }
        i += 1;
    }
}

/// The text that printing a table shows: one line per row, each entry between the row's
/// separator and padded to the widest entry of its column; the first row uses `first_separator`
/// and is padded on the right, the others use `separator` and are padded on the left.
/// The table is given as columns, each as long as the first one or longer.
pub fn print_table_with_strings(table: Vec<Vec<String>>, first_separator: &str, separator: &str) -> (r: String)
    requires
        forall|x: int| 0 <= x < table@.len() ==> (#[trigger] table@[x])@.len() >= table@[0]@.len(),
    ensures
        r@ == (if table@.len() > 0 {
            table_text(table@.map_values(|c: Vec<String>| c@), first_separator@, separator@, table@[0]@.len() as int)
        } else {
            Seq::empty()
        }),
{
    let ghost t = table@.map_values(|c: Vec<String>| c@);
    let mut out = String::new();
    if table.len() == 0 {
        return out;
    }
    let mut widths: Vec<usize> = Vec::new();
    let mut x: usize = 0;
    while x < table.len()
        invariant
            x <= table@.len(),
            t == table@.map_values(|c: Vec<String>| c@),
            widths@.len() == x,
            forall|k: int| 0 <= k < x ==> widths@[k] == col_width(#[trigger] t[k]),
        decreases table@.len() - x,
    {
        let w = column_width(&table[x]);
        widths.push(w);
        x += 1;
    }
    let rows = table[0].len();
    let mut y: usize = 0;
    while y < rows
        invariant
            y <= rows,
            rows == table@[0]@.len(),
            t == table@.map_values(|c: Vec<String>| c@),
            widths@.len() == table@.len(),
            forall|k: int| 0 <= k < table@.len() ==> widths@[k] == col_width(#[trigger] t[k]),
            forall|k: int| 0 <= k < table@.len() ==> (#[trigger] table@[k])@.len() >= table@[0]@.len(),
            out@ == table_text(t, first_separator@, separator@, y as int),
        decreases rows - y,
    {
        let s = if y == 0 { first_separator } else { separator };
        let ghost line_start = out@;
        let mut x: usize = 0;
        while x < table.len()
            invariant
                x <= table@.len(),
                y < rows,
                rows == table@[0]@.len(),
                t == table@.map_values(|c: Vec<String>| c@),
                widths@.len() == table@.len(),
                forall|k: int| 0 <= k < table@.len() ==> widths@[k] == col_width(#[trigger] t[k]),
                forall|k: int| 0 <= k < table@.len() ==> (#[trigger] table@[k])@.len() >= table@[0]@.len(),
                s@ == row_sep(y as int, first_separator@, separator@),
                out@ == line_start + row_cells(t, y as int, s@, x as int),
            decreases table@.len() - x,
        {
            let entry = &table[x][y];
            let n = entry.as_str().unicode_len();
            let w = widths[x];
            let ghost before = out@;
            out.append(s);
            out.append(" ");
            assert(t[x as int] == table@[x as int]@);
            assert(t[x as int][y as int] == table@[x as int]@[y as int]);
            let pad: usize = if n < w { w - n } else { 0 };
            assert(spaces(pad as int) =~= spaces(w - n));
            if y == 0 {
                out.append(entry.as_str());
                push_spaces(&mut out, pad);
            } else {
                push_spaces(&mut out, pad);
                out.append(entry.as_str());
            }
            out.append(" ");
            proof {
                reveal_strlit(" ");
                assert(out@ =~= before + s@ + " "@ + cell(t[x as int][y as int]@, col_width(t[x as int]) as int, y == 0) + " "@);
            }
            x += 1;
        }
        out.append(s);
        out.append("\n");
        y += 1;
    }
    out
}

} // verus!
