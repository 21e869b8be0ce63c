//! Ascii table display for data: rows of cells padded to their column's
//! width and joined with configurable separators. Widths count
//! characters.

use vstd::prelude::*;
use crate::config::TableConfig;
use crate::text::{char_text, join_strings, join_texts, repeat_string, repeat_text, views_of};

verus! {

/// The larger of two numbers.
pub open spec fn max_int(a: int, b: int) -> int {
    if a >= b {
        a
    } else {
        b
    }
}

/// True when no row is longer than the first: the first row fixes the
/// columns, and a later row may leave trailing columns empty.
pub open spec fn rows_fit(rows: Seq<Vec<String>>) -> bool {
    forall|i: int| 0 <= i < rows.len() ==> (#[trigger] rows[i])@.len() <= rows[0]@.len()
}

/// The number of columns: those of the first row.
pub open spec fn num_cols(rows: Seq<Vec<String>>) -> int {
    if rows.len() == 0 {
        0
    } else {
        rows[0]@.len() as int
    }
}

/// The widest cell of a column among the first `n` rows, over the rows
/// that reach the column.
pub open spec fn col_width_upto(rows: Seq<Vec<String>>, j: int, n: int) -> int
    decreases n,
{
    if n <= 0 {
        0
    } else if j < rows[n - 1]@.len() {
        max_int(col_width_upto(rows, j, n - 1), rows[n - 1]@[j]@.len() as int)
    } else {
        col_width_upto(rows, j, n - 1)
    }
}

/// The width a column is padded to: its widest cell.
pub open spec fn col_width(rows: Seq<Vec<String>>, j: int) -> int {
    col_width_upto(rows, j, rows.len() as int)
}

/// No cell is wider than its column.
pub proof fn lemma_cell_le_col_width(rows: Seq<Vec<String>>, j: int, i: int, n: int)
    requires
        0 <= i < n <= rows.len(),
        0 <= j < rows[i]@.len(),
    ensures
        rows[i]@[j]@.len() <= col_width_upto(rows, j, n),
    decreases n,
{
    if i < n - 1 {
        lemma_cell_le_col_width(rows, j, i, n - 1);
    }
}

/// A cell padded to one more than its column's width.
pub open spec fn padded_cell(s: Seq<char>, w: int) -> Seq<char> {
    s + repeat_text(" "@, (w + 1 - s.len()) as nat)
}

/// One row's cells, each padded to its column's width.
pub open spec fn padded_row(rows: Seq<Vec<String>>, i: int) -> Seq<Seq<char>> {
    Seq::new(rows[i]@.len(), |j: int| padded_cell(rows[i]@[j]@, col_width(rows, j)))
}

/// The separator between two cells of a row.
pub open spec fn col_sep_text(t: TableConfig, sep_cols: bool) -> Seq<char> {
    if sep_cols {
        seq![t.vertical] + " "@
    } else {
        " "@
    }
}

/// The crossing piece between two columns of a separator line.
pub open spec fn cross_text(t: TableConfig, sep_cols: bool) -> Seq<char> {
    if sep_cols {
        seq![t.vertical_horizontal] + seq![t.horizontal]
    } else {
        repeat_text(seq![t.horizontal], 2)
    }
}

/// The horizontal line drawn between two rows.
pub open spec fn sep_line_text(rows: Seq<Vec<String>>, t: TableConfig, sep_cols: bool) -> Seq<
    char,
> {
    join_texts(
        Seq::new(
            num_cols(rows) as nat,
            |j: int| repeat_text(seq![t.horizontal], (col_width(rows, j) + 1) as nat),
        ),
        cross_text(t, sep_cols),
    )
}

/// The separator between two rows of the table.
pub open spec fn row_sep_text(
    rows: Seq<Vec<String>>,
    t: TableConfig,
    sep_cols: bool,
    sep_rows: bool,
) -> Seq<char> {
    if sep_rows {
        "\n"@ + sep_line_text(rows, t, sep_cols) + "\n"@
    } else {
        "\n"@
    }
}

/// The complete table text: every row's padded cells joined with the
/// column separator, and the rows joined with the row separator.
pub open spec fn table_text(
    rows: Seq<Vec<String>>,
    t: TableConfig,
    sep_cols: bool,
    sep_rows: bool,
) -> Seq<char> {
    join_texts(
        Seq::new(rows.len(), |i: int| join_texts(padded_row(rows, i), col_sep_text(t, sep_cols))),
        row_sep_text(rows, t, sep_cols, sep_rows),
    )
}

/// Ascii table display for data.
pub struct AsciiTable {
    pub rows: Vec<Vec<String>>,
    pub seperate_cols: bool,
    pub seperate_rows: bool,
    pub config: TableConfig,
}

impl AsciiTable {
    /// Creates an AsciiTable: columns separated, rows not, until a
    /// builder method says otherwise.
    pub fn new(rows: Vec<Vec<String>>, config: &TableConfig) -> (r: AsciiTable)
        ensures
            r.rows == rows,
            r.seperate_cols == true,
            r.seperate_rows == false,
            r.config == *config,
    {
        AsciiTable { rows, seperate_cols: true, seperate_rows: false, config: *config }
    }

    /// Sets whether rows will be seperated by a line.
    pub fn seperate_rows(self, enable: bool) -> (r: Self)
        ensures
            r == (AsciiTable { seperate_rows: enable, ..self }),
    {
        AsciiTable { seperate_rows: enable, ..self }
    }

    /// Sets whether columns will be seperated by a line.
    pub fn seperate_cols(self, enable: bool) -> (r: Self)
        ensures
            r == (AsciiTable { seperate_cols: enable, ..self }),
    {
        AsciiTable { seperate_cols: enable, ..self }
    }

    /// Calculates the width of the widest value in each column of the
    /// table. Returns vector of said values.
    pub fn calc_col_lengths(rows: &Vec<Vec<String>>) -> (r: Vec<usize>)
        requires
            rows_fit(rows@),
        ensures
            r@.len() == num_cols(rows@),
            forall|j: int| 0 <= j < r@.len() ==> (#[trigger] r@[j]) as int == col_width(rows@, j),
    {
        if rows.len() == 0 {
            return Vec::new();
        }
        let ncols = rows[0].len();
        let mut widths: Vec<usize> = Vec::new();
        let mut j: usize = 0;
        while j < ncols
            invariant
                0 <= j <= ncols,
                rows@.len() > 0,
                ncols == rows@[0]@.len(),
                widths@.len() == j,
                forall|k: int|
                    0 <= k < j ==> (#[trigger] widths@[k]) as int == col_width_upto(rows@, k, 1),
            decreases ncols - j,
        {
            widths.push(rows[0][j].as_str().unicode_len());
            proof {
                assert(col_width_upto(rows@, j as int, 0) == 0);
                assert(col_width_upto(rows@, j as int, 1) == rows@[0]@[j as int]@.len());
            }
            j += 1;
        }
        let mut i: usize = 1;
        while i < rows.len()
            invariant
                1 <= i <= rows@.len(),
                rows_fit(rows@),
                ncols == rows@[0]@.len(),
                widths@.len() == ncols,
                forall|k: int|
                    0 <= k < ncols ==> (#[trigger] widths@[k]) as int == col_width_upto(
                        rows@,
                        k,
                        i as int,
                    ),
            decreases rows@.len() - i,
        {
            let row_len = rows[i].len();
            let mut j2: usize = 0;
            while j2 < row_len
                invariant
                    0 <= j2 <= row_len,
                    1 <= i < rows@.len(),
                    rows_fit(rows@),
                    ncols == rows@[0]@.len(),
                    row_len == rows@[i as int]@.len(),
                    widths@.len() == ncols,
                    forall|k: int|
                        j2 <= k < ncols ==> (#[trigger] widths@[k]) as int == col_width_upto(
                            rows@,
                            k,
                            i as int,
                        ),
                    forall|k: int|
                        0 <= k < j2 ==> (#[trigger] widths@[k]) as int == col_width_upto(
                            rows@,
                            k,
                            i + 1,
                        ),
                decreases row_len - j2,
            {
                let l = rows[i][j2].as_str().unicode_len();
                if l > widths[j2] {
                    widths.set(j2, l);
                }
                j2 += 1;
            }
            proof {
                assert forall|k: int| row_len <= k < ncols implies (#[trigger] widths@[k]) as int
                    == col_width_upto(rows@, k, i + 1) by {
                    assert(col_width_upto(rows@, k, i + 1) == col_width_upto(rows@, k, i as int));
                }
            }
            i += 1;
        }
        widths
    }

    /// Renders the table as its complete text.
    pub fn render(&self) -> (r: String)
        requires
            rows_fit(self.rows@),
            forall|j: int| 0 <= j < num_cols(self.rows@) ==> col_width(self.rows@, j) < usize::MAX,
        ensures
            r@ == table_text(self.rows@, self.config, self.seperate_cols, self.seperate_rows),
    {
        let widths = Self::calc_col_lengths(&self.rows);
        let col_sep = if self.seperate_cols {
            char_text(self.config.vertical).concat(" ")
        } else {
            " ".to_owned()
        };
        let row_sep = if self.seperate_rows {
            let cross = if self.seperate_cols {
                char_text(self.config.vertical_horizontal).concat(
                    char_text(self.config.horizontal).as_str(),
                )
            } else {
                repeat_string(char_text(self.config.horizontal).as_str(), 2)
            };
            proof {
                assert(repeat_text(seq![self.config.horizontal], 2) =~= repeat_text(
                    seq![self.config.horizontal],
                    1,
                ) + seq![self.config.horizontal]);
                assert(cross@ == cross_text(self.config, self.seperate_cols));
            }
            let mut parts: Vec<String> = Vec::new();
            let mut j: usize = 0;
            while j < widths.len()
                invariant
                    0 <= j <= widths@.len(),
                    widths@.len() == num_cols(self.rows@),
                    forall|k: int|
                        0 <= k < widths@.len() ==> (#[trigger] widths@[k]) as int == col_width(
                            self.rows@,
                            k,
                        ),
                    forall|k: int|
                        0 <= k < widths@.len() ==> col_width(self.rows@, k) < usize::MAX,
                    parts@.len() == j,
                    forall|k: int|
                        0 <= k < j ==> (#[trigger] parts@[k])@ == repeat_text(
                            seq![self.config.horizontal],
                            (col_width(self.rows@, k) + 1) as nat,
                        ),
                decreases widths@.len() - j,
            {
                parts.push(repeat_string(char_text(self.config.horizontal).as_str(), widths[j] + 1));
                j += 1;
            }
            let mut rs = "\n".to_owned();
            rs.append(join_strings(&parts, cross.as_str()).as_str());
            rs.append("\n");
            proof {
                assert(views_of(parts@) =~= Seq::new(
                    num_cols(self.rows@) as nat,
                    |k: int| repeat_text(seq![self.config.horizontal], (col_width(self.rows@, k) + 1) as nat),
                ));
                assert(rs@ == row_sep_text(
                    self.rows@,
                    self.config,
                    self.seperate_cols,
                    self.seperate_rows,
                ));
            }
            rs
        } else {
            "\n".to_owned()
        };
        let mut row_strings: Vec<String> = Vec::new();
        let mut i: usize = 0;
        while i < self.rows.len()
            invariant
                0 <= i <= self.rows@.len(),
                rows_fit(self.rows@),
                forall|j: int|
                    0 <= j < num_cols(self.rows@) ==> col_width(self.rows@, j) < usize::MAX,
                widths@.len() == num_cols(self.rows@),
                forall|k: int|
                    0 <= k < widths@.len() ==> (#[trigger] widths@[k]) as int == col_width(
                        self.rows@,
                        k,
                    ),
                col_sep@ == col_sep_text(self.config, self.seperate_cols),
                row_strings@.len() == i,
                forall|k: int|
                    0 <= k < i ==> (#[trigger] row_strings@[k])@ == join_texts(
                        padded_row(self.rows@, k),
                        col_sep_text(self.config, self.seperate_cols),
                    ),
            decreases self.rows@.len() - i,
        {
            let mut cells: Vec<String> = Vec::new();
            let row_len = self.rows[i].len();
            let mut j: usize = 0;
            while j < row_len
                invariant
                    0 <= j <= row_len,
                    0 <= i < self.rows@.len(),
                    rows_fit(self.rows@),
                    row_len == self.rows@[i as int]@.len(),
                    row_len <= num_cols(self.rows@),
                    forall|k: int|
                        0 <= k < num_cols(self.rows@) ==> col_width(self.rows@, k) < usize::MAX,
                    widths@.len() == num_cols(self.rows@),
                    forall|k: int|
                        0 <= k < widths@.len() ==> (#[trigger] widths@[k]) as int == col_width(
                            self.rows@,
                            k,
                        ),
                    cells@.len() == j,
                    forall|k: int|
                        0 <= k < j ==> (#[trigger] cells@[k])@ == padded_cell(
                            self.rows@[i as int]@[k]@,
                            col_width(self.rows@, k),
                        ),
                decreases row_len - j,
            {
                let mut cell = self.rows[i][j].clone();
                let len = self.rows[i][j].as_str().unicode_len();
                proof {
                    lemma_cell_le_col_width(self.rows@, j as int, i as int, self.rows@.len() as int);
                }
                cell.append(repeat_string(" ", widths[j] - len + 1).as_str());
                cells.push(cell);
                j += 1;
            }
            proof {
                assert(views_of(cells@) =~= padded_row(self.rows@, i as int));
            }
            row_strings.push(join_strings(&cells, col_sep.as_str()));
            i += 1;
        }
        proof {
            assert(views_of(row_strings@) =~= Seq::new(
                self.rows@.len(),
                |k: int| join_texts(
                    padded_row(self.rows@, k),
                    col_sep_text(self.config, self.seperate_cols),
                ),
            ));
        }
        join_strings(&row_strings, row_sep.as_str())
    }
}

} // verus!
