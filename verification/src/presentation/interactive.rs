//! Interactive terminal output: colored, human-readable lines. Console
//! writes are best-effort; what is verified here is the layout — column
//! widths and padding computed from the cell texts.

use vstd::prelude::*;
use vstd::string::StrSliceExecFns;
use vstd::string::StringExecFns;
use colored::Colorize;
use std::io::Write;
use crate::errors::AppError;
use crate::presentation::{Output, OutputMode};

verus! {

/// Write one line to standard output.
///
/// Relies on `writeln!` over `std::io::Stdout`: writes the text and a
/// newline; console failures are swallowed, not propagated (best-effort
/// display).
#[verifier::external_body]
pub(crate) fn print_line(s: &str) {
    let mut out = std::io::stdout();
    let _ = writeln!(out, "{}", s);
}

/// Style the text red and bold for the terminal.
///
/// Relies on colored's `Colorize::red` and `bold`; the result depends on the
/// terminal environment, so nothing more is claimed.
#[verifier::external_body]
fn paint_red_bold(s: &str) -> String {
    s.red().bold().to_string()
}

/// Style the text red. Relies on colored's `Colorize::red`; the result
/// depends on the terminal environment.
#[verifier::external_body]
fn paint_red(s: &str) -> String {
    s.red().to_string()
}

/// Style the text yellow. Relies on colored's `Colorize::yellow`; the result
/// depends on the terminal environment.
#[verifier::external_body]
fn paint_yellow(s: &str) -> String {
    s.yellow().to_string()
}

/// Style the text cyan. Relies on colored's `Colorize::cyan`; the result
/// depends on the terminal environment.
#[verifier::external_body]
fn paint_cyan(s: &str) -> String {
    s.cyan().to_string()
}

/// Style the text cyan and bold. Relies on colored's `Colorize::cyan` and
/// `bold`; the result depends on the terminal environment.
#[verifier::external_body]
fn paint_cyan_bold(s: &str) -> String {
    s.cyan().bold().to_string()
}

/// Style the text green. Relies on colored's `Colorize::green`; the result
/// depends on the terminal environment.
#[verifier::external_body]
fn paint_green(s: &str) -> String {
    s.green().to_string()
}

/// Style the text blue. Relies on colored's `Colorize::blue`; the result
/// depends on the terminal environment.
#[verifier::external_body]
fn paint_blue(s: &str) -> String {
    s.blue().to_string()
}

/// Style the text dimmed. Relies on colored's `Colorize::dimmed`; the result
/// depends on the terminal environment.
#[verifier::external_body]
fn paint_dimmed(s: &str) -> String {
    s.dimmed().to_string()
}

/// Style the text bold. Relies on colored's `Colorize::bold`; the result
/// depends on the terminal environment.
#[verifier::external_body]
fn paint_bold(s: &str) -> String {
    s.bold().to_string()
}

/// A run of spaces.
pub open spec fn spaces(n: int) -> Seq<char>
    decreases n,
{
    if n <= 0 {
        Seq::empty()
    } else {
        spaces(n - 1).push(' ')
    }
}

/// The text padded with spaces on the right to the given width; text at or
/// beyond the width stands as it is.
pub open spec fn spec_pad_right(s: Seq<char>, w: int) -> Seq<char> {
    if s.len() >= w {
        s
    } else {
        s + spaces(w - s.len())
    }
}

/// Pad the text with spaces on the right to the given width.
#[verifier::loop_isolation(false)]
pub fn pad_right(s: &str, w: usize) -> (r: String)
    ensures
        r@ == spec_pad_right(s@, w as int),
{
    proof {
        reveal_strlit(" ");
        assert(" "@ =~= seq![' ']);
    }
    let mut out = s.to_owned();
    let mut k = s.unicode_len();
    proof {
        assert(s@ + spaces(0) =~= s@);
    }
    while k < w
        invariant
            s@.len() <= k,
            k <= w || k == s@.len(),
            out@ == s@ + spaces(k - s@.len()),
        decreases w - k,
    {
        out.append(" ");
        proof {
            assert((s@ + spaces(k - s@.len())).push(' ') =~= s@ + spaces(k + 1 - s@.len()));
        }
        k += 1;
    }
    out
}

/// The text repeated `n` times.
pub open spec fn repeat_seq(s: Seq<char>, n: int) -> Seq<char>
    decreases n,
{
    if n <= 0 {
        Seq::empty()
    } else {
        repeat_seq(s, n - 1) + s
    }
}

/// Repeat the text `n` times.
pub fn repeat_str(s: &str, n: usize) -> (r: String)
    ensures
        r@ == repeat_seq(s@, n as int),
{
    let mut out = String::new();
    let mut k: usize = 0;
    while k < n
        invariant
            0 <= k <= n,
            out@ == repeat_seq(s@, k as int),
        decreases n - k,
    {
        out.append(s);
        k += 1;
    }
    out
}

/// Each column is wide enough for its header and for every cell in it.
pub open spec fn widths_cover(headers: Seq<String>, rows: Seq<Vec<String>>, w: Seq<usize>) -> bool {
    &&& w.len() == headers.len()
    &&& (forall|k: int| 0 <= k < w.len() ==> w[k] >= headers[k]@.len())
    &&& (forall|j: int, k: int|
        0 <= j < rows.len() && 0 <= k < w.len() && k < rows[j]@.len() ==> w[k]
            >= rows[j]@[k]@.len())
}

/// Each column's width is the length of its header or of one of its cells:
/// together with `widths_cover`, the width is the widest entry.
pub open spec fn widths_tight(headers: Seq<String>, rows: Seq<Vec<String>>, w: Seq<usize>) -> bool {
    forall|k: int|
        0 <= k < w.len() ==> (w[k] == headers[k]@.len() || exists|j: int|
            0 <= j < rows.len() && k < rows[j]@.len() && w[k] == rows[j]@[k]@.len())
}

/// Compute each column's width: the widest of its header and its cells.
#[verifier::loop_isolation(false)]
pub fn column_widths(headers: &Vec<String>, rows: &Vec<Vec<String>>) -> (w: Vec<usize>)
    ensures
        widths_cover(headers@, rows@, w@),
        widths_tight(headers@, rows@, w@),
{
    let mut w: Vec<usize> = Vec::new();
    let mut k: usize = 0;
    while k < headers.len()
        invariant
            0 <= k <= headers@.len(),
            w@.len() == k,
            forall|l: int| 0 <= l < k ==> w@[l] >= headers@[l]@.len(),
            forall|j: int, l: int|
                0 <= j < rows@.len() && 0 <= l < k && l < rows@[j]@.len() ==> w@[l]
                    >= rows@[j]@[l]@.len(),
            forall|l: int|
                0 <= l < k ==> (w@[l] == headers@[l]@.len() || exists|j: int|
                    0 <= j < rows@.len() && l < rows@[j]@.len() && w@[l] == rows@[j]@[l]@.len()),
        decreases headers@.len() - k,
    {
        let mut best = headers[k].as_str().unicode_len();
        let mut j: usize = 0;
        while j < rows.len()
            invariant
                0 <= j <= rows@.len(),
                best >= headers@[k as int]@.len(),
                forall|l: int|
                    0 <= l < j && k < rows@[l]@.len() ==> best >= rows@[l]@[k as int]@.len(),
                best == headers@[k as int]@.len() || exists|l: int|
                    0 <= l < j && k < rows@[l]@.len() && best == rows@[l]@[k as int]@.len(),
            decreases rows@.len() - j,
        {
            let row = &rows[j];
            if k < row.len() {
                let len = row[k].as_str().unicode_len();
                if len > best {
                    best = len;
                }
            }
            j += 1;
        }
        w.push(best);
        k += 1;
    }
    w
}

/// The texts of a row of cells.
pub open spec fn views_of_cells(cells: Seq<String>) -> Seq<Seq<char>> {
    cells.map_values(|s: String| s@)
}

/// The row's cell texts padded to their column widths, joined by two
/// spaces, from column `i` on.
pub open spec fn spec_row_line_from(cells: Seq<Seq<char>>, widths: Seq<usize>, i: int) -> Seq<char>
    decreases cells.len() - i,
{
    if i < 0 || i >= cells.len() {
        Seq::empty()
    } else if i == cells.len() - 1 {
        spec_pad_right(cells[i], widths[i] as int)
    } else {
        spec_pad_right(cells[i], widths[i] as int) + "  "@ + spec_row_line_from(
            cells,
            widths,
            i + 1,
        )
    }
}

/// Render the row's cells from column `i` on, each padded to its column
/// width, joined by two spaces.
fn render_row_from(cells: &Vec<String>, widths: &Vec<usize>, i: usize) -> (r: String)
    requires
        widths@.len() == cells@.len(),
        i <= cells@.len(),
    ensures
        r@ == spec_row_line_from(views_of_cells(cells@), widths@, i as int),
    decreases cells@.len() - i,
{
    proof {
        reveal_strlit("  ");
    }
    if i >= cells.len() {
        String::new()
    } else if i == cells.len() - 1 {
        pad_right(cells[i].as_str(), widths[i])
    } else {
        let rest = render_row_from(cells, widths, i + 1);
        pad_right(cells[i].as_str(), widths[i]).concat("  ").concat(rest.as_str())
    }
}

/// Render a whole row: cells padded to the column widths, joined by two
/// spaces.
pub fn render_row(cells: &Vec<String>, widths: &Vec<usize>) -> (r: String)
    requires
        widths@.len() == cells@.len(),
    ensures
        r@ == spec_row_line_from(views_of_cells(cells@), widths@, 0),
{
    render_row_from(cells, widths, 0)
}

/// A row's cell texts brought to the table's column count: its own cells
/// first, a dash for each column the row lacks.
pub open spec fn spec_dash_cells(row: Seq<String>, ncols: int) -> Seq<Seq<char>>
    recommends
        ncols >= 0,
{
    Seq::new(ncols as nat, |k: int| if 0 <= k < row.len() { row[k]@ } else { "-"@ })
}

/// The printed line of one table row: a leading space, then the row's cell
/// texts — dashes where the row is short — padded to the column widths and
/// joined by two spaces.
pub open spec fn spec_table_line(row: Seq<String>, widths: Seq<usize>, ncols: int) -> Seq<char> {
    " "@ + spec_row_line_from(spec_dash_cells(row, ncols), widths, 0)
}

/// Bring a row to the table's column count: clone its cells, a dash for
/// each missing one.
fn normalized_row(row: &Vec<String>, ncols: usize) -> (cells: Vec<String>)
    ensures
        cells@.len() == ncols,
        views_of_cells(cells@) == spec_dash_cells(row@, ncols as int),
{
    let mut cells: Vec<String> = Vec::new();
    let mut k: usize = 0;
    while k < ncols
        invariant
            0 <= k <= ncols,
            cells@.len() == k,
            forall|l: int| 0 <= l < k ==> #[trigger] cells@[l]@ == spec_dash_cells(
                row@,
                ncols as int,
            )[l],
        decreases ncols - k,
    {
        if k < row.len() {
            cells.push(row[k].clone());
        } else {
            cells.push("-".to_owned());
        }
        k += 1;
    }
    proof {
        assert(views_of_cells(cells@) =~= spec_dash_cells(row@, ncols as int));
    }
    cells
}

/// Assemble every line the table prints, in order: a separator of `total`
/// dashes, the header row behind a leading space, the separator again, one
/// line per row — cells padded to the column widths, dashes where a row is
/// short — and the separator last.
#[verifier::loop_isolation(false)]
pub fn table_lines(
    headers: &Vec<String>,
    rows: &Vec<Vec<String>>,
    widths: &Vec<usize>,
    total: usize,
) -> (lines: Vec<String>)
    requires
        widths@.len() == headers@.len(),
    ensures
        lines@.len() == rows@.len() + 4,
        lines@[0]@ == repeat_seq("\u{2500}"@, total as int),
        lines@[1]@ == " "@ + spec_row_line_from(views_of_cells(headers@), widths@, 0),
        lines@[2]@ == lines@[0]@,
        forall|j: int|
            0 <= j < rows@.len() ==> (#[trigger] lines@[3 + j])@ == spec_table_line(
                rows@[j]@,
                widths@,
                headers@.len() as int,
            ),
        lines@[lines@.len() - 1]@ == lines@[0]@,
{
    let separator = repeat_str("\u{2500}", total);
    let mut lines: Vec<String> = Vec::new();
    lines.push(separator.clone());
    let header_line = " ".to_owned().concat(render_row(headers, widths).as_str());
    lines.push(header_line);
    lines.push(separator.clone());
    let ncols = headers.len();
    let mut j: usize = 0;
    while j < rows.len()
        invariant
            0 <= j <= rows@.len(),
            lines@.len() == 3 + j,
            lines@[0]@ == repeat_seq("\u{2500}"@, total as int),
            lines@[1]@ == " "@ + spec_row_line_from(views_of_cells(headers@), widths@, 0),
            lines@[2]@ == lines@[0]@,
            forall|l: int|
                0 <= l < j ==> (#[trigger] lines@[3 + l])@ == spec_table_line(
                    rows@[l]@,
                    widths@,
                    ncols as int,
                ),
        decreases rows@.len() - j,
    {
        let cells = normalized_row(&rows[j], ncols);
        let line = " ".to_owned().concat(render_row(&cells, widths).as_str());
        lines.push(line);
        j += 1;
    }
    lines.push(separator);
    lines
}

/// Interactive terminal output with colored formatting.
pub struct InteractiveOutput;

impl InteractiveOutput {
    /// Create a new InteractiveOutput instance.
    pub fn new() -> (r: InteractiveOutput) {
        InteractiveOutput
    }
}

impl Output for InteractiveOutput {
    /// Print the result in green behind a check mark.
    fn success(&self, value_json: &str, _request_id: Option<i64>) {
        let line = paint_green("\u{2713} ").concat(paint_green(value_json).as_str());
        print_line(line.as_str());
    }

    /// Print a classified error as What/Why/Fix lines, with its context when
    /// present; an unclassified one as a single red line.
    fn error(&self, err: &AppError, _code: i32, _request_id: Option<i64>) {
        match err {
            AppError::Cli(e) => {
                print_line(paint_red_bold("Error").concat(": ").concat(e.what.as_str()).as_str());
                match &e.context {
                    Some(c) => {
                        let line = "  ".to_owned().concat(paint_dimmed("Context").as_str()).concat(
                            ": ",
                        ).concat(c.as_str());
                        print_line(line.as_str());
                    },
                    None => {},
                }
                print_line("");
                print_line(paint_yellow("Why").concat(": ").concat(e.why.as_str()).as_str());
                print_line(paint_cyan("Fix").concat(": ").concat(e.suggestion.as_str()).as_str());
            },
            AppError::Unexpected(m) => {
                print_line(paint_red("# ").concat(paint_red(m.as_str()).as_str()).as_str());
            },
        }
    }

    /// Print the message behind a blue plus sign.
    fn progress(&self, message: &str) {
        print_line(paint_blue("+ ").concat(message).as_str());
    }

    /// Render aligned columns computed from the widest cell per column:
    /// separator lines around a bold header row, one line per row. Cells a
    /// ragged row lacks show a dash. The printed lines are exactly what
    /// `table_lines` assembles — widths by `column_widths`, padding by the
    /// row spec — with color applied to a whole line at a time, so styling
    /// never disturbs the layout.
    fn table(&self, title: Option<&str>, headers: &Vec<String>, rows: &Vec<Vec<String>>) {
        match title {
            Some(t) => print_line(paint_cyan_bold(t).as_str()),
            None => {},
        }
        if rows.len() == 0 {
            return ;
        }
        let widths = column_widths(headers, rows);
        let mut total: usize = 2;
        let mut k: usize = 0;
        while k < widths.len()
            decreases widths@.len() - k,
        {
            total = total.saturating_add(widths[k]);
            if k > 0 {
                total = total.saturating_add(2);
            }
            k += 1;
        }
        let lines = table_lines(headers, rows, &widths, total);
        let mut i: usize = 0;
        while i < lines.len()
            decreases lines@.len() - i,
        {
            if i == 1 {
                print_line(paint_bold(lines[i].as_str()).as_str());
            } else {
                print_line(lines[i].as_str());
            }
            i += 1;
        }
    }

    /// This renderer serves the interactive mode.
    open spec fn spec_mode(&self) -> OutputMode {
        OutputMode::Interactive
    }

    /// This renderer serves the interactive mode.
    fn mode(&self) -> OutputMode {
        OutputMode::Interactive
    }
}

} // verus!
