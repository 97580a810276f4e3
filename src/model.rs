use vstd::prelude::*;

verus! {

/// Horizontal alignment of a paragraph.
#[derive(Clone, Copy, Debug, PartialEq, Eq, Structural)]
pub enum Alignment {
    Left,
    Center,
    Right,
    Justify,
}

/// Alignment selected by an already lower-cased name; anything unknown is left.
pub open spec fn alignment_of(name: Seq<char>) -> Alignment {
    if name == "center"@ {
        Alignment::Center
    } else if name == "right"@ {
        Alignment::Right
    } else if name == "justify"@ {
        Alignment::Justify
    } else {
        Alignment::Left
    }
}

/// Reference to one of the two predefined lists, at an indent level.
#[derive(Clone, Copy, Debug, PartialEq, Eq, Structural)]
pub struct NumberingRef {
    pub list_id: usize,
    pub level: usize,
}

/// List id of the predefined bulleted list.
pub const BULLET_LIST_ID: usize = 1;

/// List id of the predefined numbered list.
pub const NUMBERED_LIST_ID: usize = 2;

/// A run of styled text. `size` is in half-points.
#[derive(Clone, Debug)]
pub struct TextRun {
    pub text: String,
    pub bold: bool,
    pub italic: bool,
    pub underline: bool,
    pub size: Option<u64>,
    pub color: Option<String>,
}

/// An embedded picture with its declared layout size.
#[derive(Clone, Debug)]
pub struct ImageRun {
    pub bytes: Vec<u8>,
    pub width: u32,
    pub height: u32,
}

/// The smallest unit of content of a paragraph.
#[derive(Clone, Debug)]
pub enum DocRun {
    Text(TextRun),
    Image(ImageRun),
}

#[derive(Clone, Debug)]
pub struct DocParagraph {
    pub runs: Vec<DocRun>,
    pub alignment: Option<Alignment>,
    pub numbering: Option<NumberingRef>,
}

#[derive(Clone, Debug)]
pub struct Cell {
    pub paragraphs: Vec<DocParagraph>,
}

/// A grid of cells, row by row.
#[derive(Clone, Debug)]
pub struct DocTable {
    pub rows: Vec<Vec<Cell>>,
}

/// A top-level element of a document.
#[derive(Clone, Debug)]
pub enum Block {
    DocParagraph(DocParagraph),
    DocTable(DocTable),
}

/// A run without styling holding `text`.
pub open spec fn is_plain_run(r: DocRun, text: Seq<char>) -> bool {
    match r {
        DocRun::Text(t) => t.text@ == text && !t.bold && !t.italic && !t.underline
            && t.size.is_none() && t.color.is_none(),
        DocRun::Image(_) => false,
    }
}

/// A paragraph made of one plain run of `text`, with the given attributes.
pub open spec fn is_text_paragraph(
    p: DocParagraph,
    text: Seq<char>,
    alignment: Option<Alignment>,
    numbering: Option<NumberingRef>,
) -> bool {
    &&& p.runs@.len() == 1
    &&& is_plain_run(p.runs@[0], text)
    &&& p.alignment == alignment
    &&& p.numbering == numbering
}

/// A paragraph with no runs and no attributes.
pub open spec fn is_empty_paragraph(p: DocParagraph) -> bool {
    p.runs@.len() == 0 && p.alignment.is_none() && p.numbering.is_none()
}

/// A cell holding exactly one empty paragraph.
pub open spec fn is_fresh_cell(c: Cell) -> bool {
    c.paragraphs@.len() == 1 && is_empty_paragraph(c.paragraphs@[0])
}

/// A row of `cols` fresh cells.
pub open spec fn is_fresh_row(row: Seq<Cell>, cols: nat) -> bool {
    row.len() == cols && forall|j: int| 0 <= j < row.len() ==> is_fresh_cell(#[trigger] row[j])
}

/// A `rows` by `cols` grid of fresh cells.
pub open spec fn is_fresh_table(t: DocTable, rows: nat, cols: nat) -> bool {
    t.rows@.len() == rows && forall|i: int|
        0 <= i < t.rows@.len() ==> is_fresh_row(#[trigger] t.rows@[i]@, cols)
}

/// Number of cells in a sequence of rows.
pub open spec fn cell_count(rows: Seq<Vec<Cell>>) -> nat
    decreases rows.len(),
{
    if rows.len() == 0 {
        0
    } else {
        cell_count(rows.drop_last()) + rows.last()@.len()
    }
}

/// A grid of `rows` rows of `cols` cells each has `rows * cols` cells.
pub proof fn lemma_grid_cell_count(grid: Seq<Vec<Cell>>, cols: nat)
    requires
        forall|i: int| 0 <= i < grid.len() ==> (#[trigger] grid[i])@.len() == cols,
    ensures
        cell_count(grid) == grid.len() * cols,
    decreases grid.len(),
{
    if grid.len() > 0 {
        let init = grid.drop_last();
        assert forall|i: int| 0 <= i < init.len() implies (#[trigger] init[i])@.len() == cols by {
            assert(init[i] == grid[i]);
        }
        lemma_grid_cell_count(init, cols);
        assert(grid.last() == grid[grid.len() - 1]);
        assert(cell_count(grid) == (grid.len() - 1) * cols + cols) by (nonlinear_arith)
            requires
                cell_count(grid) == cell_count(init) + cols,
                cell_count(init) == init.len() * cols,
                init.len() == grid.len() - 1,
        ;
        assert((grid.len() - 1) * cols + cols == grid.len() * cols) by (nonlinear_arith)
            requires grid.len() > 0,
        ;
    }
}

impl DocParagraph {
    /// A paragraph with no runs and no attributes.
    pub fn empty() -> (r: DocParagraph)
        ensures
            is_empty_paragraph(r),
    {
        DocParagraph { runs: Vec::new(), alignment: None, numbering: None }
    }

    /// A paragraph of one plain run.
    pub fn plain(text: &str, alignment: Option<Alignment>, numbering: Option<NumberingRef>) -> (r: DocParagraph)
        ensures
            is_text_paragraph(r, text@, alignment, numbering),
    {
        let run = DocRun::Text(TextRun {
            text: text.to_string(),
            bold: false,
            italic: false,
            underline: false,
            size: None,
            color: None,
        });
        let mut runs: Vec<DocRun> = Vec::new();
        runs.push(run);
        DocParagraph { runs, alignment, numbering }
    }
}

impl Cell {
    /// A cell holding one empty paragraph.
    pub fn fresh() -> (r: Cell)
        ensures
            is_fresh_cell(r),
    {
        let mut paragraphs: Vec<DocParagraph> = Vec::new();
        paragraphs.push(DocParagraph::empty());
        Cell { paragraphs }
    }
}

impl DocTable {
    /// A grid of `rows` by `cols` cells, each holding one empty paragraph.
    pub fn grid(rows: u32, cols: u32) -> (r: DocTable)
        ensures
            is_fresh_table(r, rows as nat, cols as nat),
            cell_count(r.rows@) == rows as nat * cols as nat,
    {
        let mut grid: Vec<Vec<Cell>> = Vec::new();
        let mut i: u32 = 0;
        while i < rows
            invariant
                i <= rows,
                grid@.len() == i,
                forall|k: int| 0 <= k < grid@.len() ==> is_fresh_row(#[trigger] grid@[k]@, cols as nat),
            decreases rows - i,
        {
            let mut row: Vec<Cell> = Vec::new();
            let mut j: u32 = 0;
            while j < cols
                invariant
                    j <= cols,
                    row@.len() == j,
                    forall|m: int| 0 <= m < row@.len() ==> is_fresh_cell(#[trigger] row@[m]),
                decreases cols - j,
            {
                row.push(Cell::fresh());
                j = j + 1;
            }
            grid.push(row);
            i = i + 1;
        }
        let t = DocTable { rows: grid };
        proof {
            assert forall|k: int| 0 <= k < t.rows@.len() implies (#[trigger] t.rows@[k])@.len() == cols as nat by {
                assert(is_fresh_row(t.rows@[k]@, cols as nat));
            }
            lemma_grid_cell_count(t.rows@, cols as nat);
        }
        t
    }
}

} // verus!
