use vstd::prelude::*;
use crate::model::{Alignment, Block, NumberingRef, DocParagraph, DocRun, DocTable};
use crate::builder::AndroidDocBuilder;

verus! {

#[verifier::external_type_specification]
#[verifier::external_body]
pub struct ExDocx(docx_rs::Docx);

#[verifier::external_type_specification]
#[verifier::external_body]
pub struct ExDocxParagraph(docx_rs::Paragraph);

#[verifier::external_type_specification]
#[verifier::external_body]
pub struct ExDocxRun(docx_rs::Run);

#[verifier::external_type_specification]
#[verifier::external_body]
pub struct ExDocxPic(docx_rs::Pic);

#[verifier::external_type_specification]
#[verifier::external_body]
pub struct ExDocxTable(docx_rs::Table);

#[verifier::external_type_specification]
#[verifier::external_body]
pub struct ExDocxTableRow(docx_rs::TableRow);

#[verifier::external_type_specification]
#[verifier::external_body]
pub struct ExDocxTableCell(docx_rs::TableCell);

/// Kind of a top-level element of a document body.
#[derive(Clone, Copy, Debug, PartialEq, Eq, Structural)]
pub enum BodyKind {
    TextBlock,
    TableBlock,
}

/// The kind of each block.
pub open spec fn body_kind(b: Block) -> BodyKind {
    match b {
        Block::DocParagraph(_) => BodyKind::TextBlock,
        Block::DocTable(_) => BodyKind::TableBlock,
    }
}

/// The kinds of the children of a `docx_rs::Docx` body, in order.
pub uninterp spec fn docx_body(d: docx_rs::Docx) -> Seq<BodyKind>;

/// Relies on docx_rs::Docx::new: an empty document with the default parts.
#[verifier::external_body]
fn docx_new() -> (r: docx_rs::Docx)
    ensures
        docx_body(r) == Seq::<BodyKind>::empty(),
{
    docx_rs::Docx::new()
}

/// Relies on docx_rs::Docx::add_paragraph: appends a paragraph to the body.
#[verifier::external_body]
fn docx_add_paragraph(doc: docx_rs::Docx, p: docx_rs::Paragraph) -> (r: docx_rs::Docx)
    ensures
        docx_body(r) == docx_body(doc).push(BodyKind::TextBlock),
{
    doc.add_paragraph(p)
}

/// Relies on docx_rs::Docx::add_table: appends a table to the body.
#[verifier::external_body]
fn docx_add_table(doc: docx_rs::Docx, t: docx_rs::Table) -> (r: docx_rs::Docx)
    ensures
        docx_body(r) == docx_body(doc).push(BodyKind::TableBlock),
{
    doc.add_table(t)
}

/// Relies on docx_rs::Paragraph::new: a paragraph without runs.
#[verifier::external_body]
fn paragraph_new() -> (r: docx_rs::Paragraph) {
    docx_rs::Paragraph::new()
}

/// Relies on docx_rs::Paragraph::add_run: appends a run.
#[verifier::external_body]
fn paragraph_add_run(p: docx_rs::Paragraph, run: docx_rs::Run) -> (r: docx_rs::Paragraph) {
    p.add_run(run)
}

/// Relies on docx_rs::Paragraph::align: sets the paragraph's alignment.
#[verifier::external_body]
fn paragraph_align(p: docx_rs::Paragraph, alignment: Alignment) -> (r: docx_rs::Paragraph) {
    p.align(match alignment {
        Alignment::Left => docx_rs::AlignmentType::Left,
        Alignment::Center => docx_rs::AlignmentType::Center,
        Alignment::Right => docx_rs::AlignmentType::Right,
        Alignment::Justify => docx_rs::AlignmentType::Justified,
    })
}

/// Relies on docx_rs::Paragraph::numbering: places the paragraph in a list.
#[verifier::external_body]
fn paragraph_numbering(p: docx_rs::Paragraph, list_id: usize, level: usize) -> (r: docx_rs::Paragraph) {
    p.numbering(docx_rs::NumberingId::new(list_id), docx_rs::IndentLevel::new(level))
}

/// Relies on docx_rs::Run::new: an empty run.
#[verifier::external_body]
fn run_new() -> (r: docx_rs::Run) {
    docx_rs::Run::new()
}

/// Relies on docx_rs::Run::add_text: appends text to the run.
#[verifier::external_body]
fn run_add_text(run: docx_rs::Run, text: &str) -> (r: docx_rs::Run) {
    run.add_text(text)
}

/// Relies on docx_rs::Run::bold: marks the run bold.
#[verifier::external_body]
fn run_bold(run: docx_rs::Run) -> (r: docx_rs::Run) {
    run.bold()
}

/// Relies on docx_rs::Run::italic: marks the run italic.
#[verifier::external_body]
fn run_italic(run: docx_rs::Run) -> (r: docx_rs::Run) {
    run.italic()
}

/// Relies on docx_rs::Run::size: sets the font size in half-points.
#[verifier::external_body]
fn run_size(run: docx_rs::Run, half_points: u64) -> (r: docx_rs::Run) {
    run.size(half_points as usize)
}

/// Relies on docx_rs::Run::color: sets the text color.
#[verifier::external_body]
fn run_color(run: docx_rs::Run, color: &str) -> (r: docx_rs::Run) {
    run.color(color)
}

/// Relies on docx_rs::Pic::new_with_dimensions: a picture holding the bytes
/// as they are, without decoding them; its size is set afterwards.
#[verifier::external_body]
fn pic_new(bytes: &[u8]) -> (r: docx_rs::Pic) {
    docx_rs::Pic::new_with_dimensions(bytes.to_vec(), 0, 0)
}

/// Relies on docx_rs::Pic::size: sets the picture's layout size, stored as
/// given.
#[verifier::external_body]
fn pic_size(pic: docx_rs::Pic, width: u32, height: u32) -> (r: docx_rs::Pic) {
    pic.size(width, height)
}

/// Relies on docx_rs::Run::add_image: embeds a picture in the run.
#[verifier::external_body]
fn run_add_image(run: docx_rs::Run, pic: docx_rs::Pic) -> (r: docx_rs::Run) {
    run.add_image(pic)
}

/// Relies on docx_rs::TableCell::new: a cell without content.
#[verifier::external_body]
fn table_cell_new() -> (r: docx_rs::TableCell) {
    docx_rs::TableCell::new()
}

/// Relies on docx_rs::TableCell::add_paragraph: appends a paragraph to a cell.
#[verifier::external_body]
fn table_cell_add_paragraph(cell: docx_rs::TableCell, p: docx_rs::Paragraph) -> (r: docx_rs::TableCell) {
    cell.add_paragraph(p)
}

/// Relies on docx_rs::TableRow::new: a row of the given cells.
#[verifier::external_body]
fn table_row_new(cells: Vec<docx_rs::TableCell>) -> (r: docx_rs::TableRow) {
    docx_rs::TableRow::new(cells)
}

/// Relies on docx_rs::Table::new: a table of the given rows.
#[verifier::external_body]
fn table_new(rows: Vec<docx_rs::TableRow>) -> (r: docx_rs::Table) {
    docx_rs::Table::new(rows)
}

/// Relies on docx_rs::Docx::pack: writes the zip package into memory; `None`
/// where packing failed.
#[verifier::external_body]
fn pack_docx(doc: docx_rs::Docx) -> (r: Option<Vec<u8>>) {
    let mut cursor = std::io::Cursor::new(Vec::new());
    match doc.pack(&mut cursor) {
        Ok(()) => Some(cursor.into_inner()),
        Err(_) => None,
    }
}

fn convert_run(run: &DocRun) -> (r: docx_rs::Run) {
    let mut out = run_new();
    match run {
        DocRun::Text(t) => {
            out = run_add_text(out, t.text.as_str());
            if t.bold {
                out = run_bold(out);
            }
            if t.italic {
                out = run_italic(out);
            }
            match t.size {
                Some(size) => {
                    out = run_size(out, size);
                },
                None => {},
            }
            match &t.color {
                Some(color) => {
                    out = run_color(out, color.as_str());
                },
                None => {},
            }
        },
        DocRun::Image(img) => {
            let pic = pic_size(pic_new(img.bytes.as_slice()), img.width, img.height);
            out = run_add_image(out, pic);
        },
    }
    out
}

fn convert_paragraph(p: &DocParagraph) -> (r: docx_rs::Paragraph) {
    let mut out = paragraph_new();
    let mut i: usize = 0;
    while i < p.runs.len()
        invariant
            i <= p.runs@.len(),
        decreases p.runs@.len() - i,
    {
        out = paragraph_add_run(out, convert_run(&p.runs[i]));
        i = i + 1;
    }
    match p.alignment {
        Some(a) => {
            out = paragraph_align(out, a);
        },
        None => {},
    }
    match p.numbering {
        Some(NumberingRef { list_id, level }) => {
            out = paragraph_numbering(out, list_id, level);
        },
        None => {},
    }
    out
}

fn convert_table(t: &DocTable) -> (r: docx_rs::Table) {
    let mut rows: Vec<docx_rs::TableRow> = Vec::new();
    let mut i: usize = 0;
    while i < t.rows.len()
        invariant
            i <= t.rows@.len(),
        decreases t.rows@.len() - i,
    {
        let row = &t.rows[i];
        let mut cells: Vec<docx_rs::TableCell> = Vec::new();
        let mut j: usize = 0;
        while j < row.len()
            invariant
                j <= row@.len(),
            decreases row@.len() - j,
        {
            let cell = &row[j];
            let mut out = table_cell_new();
            let mut k: usize = 0;
            while k < cell.paragraphs.len()
                invariant
                    k <= cell.paragraphs@.len(),
                decreases cell.paragraphs@.len() - k,
            {
                out = table_cell_add_paragraph(out, convert_paragraph(&cell.paragraphs[k]));
                k = k + 1;
            }
            cells.push(out);
            j = j + 1;
        }
        rows.push(table_row_new(cells));
        i = i + 1;
    }
    table_new(rows)
}

/// Builds the `docx_rs` document for a sequence of blocks, in order.
pub fn to_docx(blocks: &[Block]) -> (r: docx_rs::Docx)
    ensures
        docx_body(r) == blocks@.map_values(|b: Block| body_kind(b)),
{
    let mut doc = docx_new();
    let mut i: usize = 0;
    while i < blocks.len()
        invariant
            i <= blocks@.len(),
            docx_body(doc) == blocks@.take(i as int).map_values(|b: Block| body_kind(b)),
        decreases blocks@.len() - i,
    {
        doc = match &blocks[i] {
            Block::DocParagraph(p) => docx_add_paragraph(doc, convert_paragraph(p)),
            Block::DocTable(t) => docx_add_table(doc, convert_table(t)),
        };
        assert(blocks@.take(i + 1) == blocks@.take(i as int).push(blocks@[i as int]));
        i = i + 1;
    }
    assert(blocks@.take(i as int) == blocks@);
    doc
}

impl AndroidDocBuilder {
    /// Settles the builder after a packaging attempt: on packed bytes the
    /// builder starts over from an empty document and the bytes are handed
    /// back; on `None` the document is kept as it was.
    pub fn finish_packaging(&mut self, packed: Option<Vec<u8>>) -> (r: Option<Vec<u8>>)
        ensures
            r == packed,
            packed.is_some() ==> final(self)@ == Seq::<Block>::empty(),
            packed.is_none() ==> final(self)@ == old(self)@,
    {
        match packed {
            Some(bytes) => {
                let _finished = self.take_blocks();
                Some(bytes)
            },
            None => None,
        }
    }

    /// The bytes of a zip-based word-processing file holding the document, as
    /// built by `to_docx` from the blocks in order; `None` where packing fails.
    /// The builder is left as it is.
    pub fn package(&self) -> (r: Option<Vec<u8>>) {
        let doc = to_docx(self.blocks());
        pack_docx(doc)
    }

    /// Packages the document into the bytes of a zip-based word-processing
    /// file, built by `to_docx` from the blocks in order. On success the
    /// builder starts over from an empty document; where packing fails the
    /// result is `None` and the document is kept as it was.
    pub fn generate_docx(&mut self) -> (r: Option<Vec<u8>>)
        ensures
            r.is_some() ==> final(self)@ == Seq::<Block>::empty(),
            r.is_none() ==> final(self)@ == old(self)@,
    {
        let packed = self.package();
        self.finish_packaging(packed)
    }
}

/// After a successful packaging, the next append builds a new document from
/// nothing: the builder then holds that one block alone, and a packaging at
/// that point hands over a body of that one block's kind.
pub proof fn lemma_fresh_after_generate(after_generate: AndroidDocBuilder, after_append: AndroidDocBuilder)
    requires
        after_generate@ == Seq::<Block>::empty(),
        after_append@.len() == after_generate@.len() + 1,
        after_append@.drop_last() == after_generate@,
    ensures
        after_append@ == seq![after_append@[0]],
        after_append@.map_values(|b: Block| body_kind(b)) == seq![body_kind(after_append@[0])],
{
    assert(after_append@ =~= seq![after_append@[0]]);
    assert(after_append@.map_values(|b: Block| body_kind(b)) =~= seq![body_kind(after_append@[0])]);
}

/// Packaging a builder that holds nothing hands over an empty body; this is
/// the state right after a successful packaging.
pub proof fn lemma_empty_after_generate(after_generate: AndroidDocBuilder)
    requires
        after_generate@ == Seq::<Block>::empty(),
    ensures
        after_generate@.map_values(|b: Block| body_kind(b)) == Seq::<BodyKind>::empty(),
{
    assert(after_generate@.map_values(|b: Block| body_kind(b)) =~= Seq::<BodyKind>::empty());
}

} // verus!
