use vstd::prelude::*;
use crate::model::{
    alignment_of, is_fresh_table, is_text_paragraph, cell_count, Alignment, Block, ImageRun,
    NumberingRef, DocParagraph, DocRun, DocTable, TextRun, BULLET_LIST_ID, NUMBERED_LIST_ID,
};
use crate::imaging::{embedded_bytes, prepare_image};

verus! {

/// What `str::to_lowercase` returns for a string.
pub uninterp spec fn lower_of(s: Seq<char>) -> Seq<char>;

/// Relies on str::to_lowercase: the result depends on the characters alone.
#[verifier::external_body]
fn lowercase(s: &str) -> (r: String)
    ensures
        r@ == lower_of(s@),
{
    s.to_lowercase()
}

/// Whether two strings hold the same characters.
pub fn text_equals(a: &str, b: &str) -> (r: bool)
    ensures
        r == (a@ == b@),
{
    let n = a.unicode_len();
    if n != b.unicode_len() {
        return false;
    }
    let mut i: usize = 0;
    while i < n
        invariant
            n == a@.len(),
            n == b@.len(),
            i <= n,
            forall|k: int| 0 <= k < i ==> a@[k] == b@[k],
        decreases n - i,
    {
        if a.get_char(i) != b.get_char(i) {
            return false;
        }
        i = i + 1;
    }
    assert(a@ =~= b@);
    true
}

/// The alignment named by an already lower-cased string.
pub fn alignment_from_lowercase(name: &str) -> (r: Alignment)
    ensures
        r == alignment_of(name@),
{
    if text_equals(name, "center") {
        Alignment::Center
    } else if text_equals(name, "right") {
        Alignment::Right
    } else if text_equals(name, "justify") {
        Alignment::Justify
    } else {
        Alignment::Left
    }
}

/// The alignment named by `name`, compared without regard to case.
pub fn alignment_from_name(name: &str) -> (r: Alignment)
    ensures
        r == alignment_of(lower_of(name@)),
{
    let lower = lowercase(name);
    alignment_from_lowercase(lower.as_str())
}

/// Font size in half-points for a size in points; zero leaves it unset.
pub open spec fn half_points(font_size: u32) -> Option<u64> {
    if font_size > 0 {
        Some((2 * font_size) as u64)
    } else {
        None
    }
}

/// A paragraph of one run of `text` styled as `add_formatted_text` asks.
pub open spec fn is_formatted_paragraph(
    p: DocParagraph,
    text: Seq<char>,
    bold: bool,
    italic: bool,
    font_size: u32,
    color: Seq<char>,
) -> bool {
    &&& p.runs@.len() == 1
    &&& p.alignment.is_none()
    &&& p.numbering.is_none()
    &&& match p.runs@[0] {
        DocRun::Text(t) => {
            &&& t.text@ == text
            &&& t.bold == bold
            &&& t.italic == italic
            &&& !t.underline
            &&& t.size == half_points(font_size)
            &&& if color.len() == 0 {
                t.color.is_none()
            } else {
                t.color.is_some() && t.color.unwrap()@ == color
            }
        },
        DocRun::Image(_) => false,
    }
}

/// A paragraph of one picture run of `bytes`, laid out at `width` by `height`.
pub open spec fn is_image_paragraph(p: DocParagraph, bytes: Seq<u8>, width: u32, height: u32) -> bool {
    &&& p.runs@.len() == 1
    &&& p.alignment.is_none()
    &&& p.numbering.is_none()
    &&& match p.runs@[0] {
        DocRun::Image(img) => img.bytes@ == bytes && img.width == width && img.height == height,
        DocRun::Text(_) => false,
    }
}

/// Builds a document by appending blocks; the blocks appended so far are
/// never changed, dropped or reordered.
pub struct AndroidDocBuilder {
    blocks: Vec<Block>,
}

impl View for AndroidDocBuilder {
    type V = Seq<Block>;

    closed spec fn view(&self) -> Seq<Block> {
        self.blocks@
    }
}

impl AndroidDocBuilder {
    /// A builder holding an empty document.
    pub fn new() -> (r: AndroidDocBuilder)
        ensures
            r@ == Seq::<Block>::empty(),
    {
        AndroidDocBuilder { blocks: Vec::new() }
    }

    /// The blocks appended so far, in order.
    pub fn blocks(&self) -> (r: &[Block])
        ensures
            r@ == self@,
    {
        self.blocks.as_slice()
    }

    /// Number of blocks appended so far.
    pub fn element_count(&self) -> (r: usize)
        ensures
            r == self@.len(),
    {
        self.blocks.len()
    }

    /// Empties the document and hands back what it held.
    pub fn take_blocks(&mut self) -> (r: Vec<Block>)
        ensures
            r@ == old(self)@,
            final(self)@ == Seq::<Block>::empty(),
    {
        let mut taken: Vec<Block> = Vec::new();
        std::mem::swap(&mut taken, &mut self.blocks);
        taken
    }

    fn append(&mut self, b: Block)
        ensures
            final(self)@ == old(self)@.push(b),
    {
        self.blocks.push(b);
    }

    /// Appends a paragraph of one unstyled run.
    pub fn add_text(&mut self, text: &str) -> (r: bool)
        ensures
            r,
            final(self)@.len() == old(self)@.len() + 1,
            final(self)@.drop_last() == old(self)@,
            match final(self)@.last() {
                Block::DocParagraph(p) => is_text_paragraph(p, text@, None, None),
                Block::DocTable(_) => false,
            },
    {
        self.append(Block::DocParagraph(DocParagraph::plain(text, None, None)));
        proof { assert(final(self)@.drop_last() =~= old(self)@); }
        true
    }

    /// Appends a paragraph of one styled run. A `font_size` of zero and an
    /// empty `color` leave those attributes unset; `underline` is accepted and
    /// not applied.
    pub fn add_formatted_text(
        &mut self,
        text: &str,
        bold: bool,
        italic: bool,
        _underline: bool,
        font_size: u32,
        color: &str,
    ) -> (r: bool)
        ensures
            r,
            final(self)@.len() == old(self)@.len() + 1,
            final(self)@.drop_last() == old(self)@,
            match final(self)@.last() {
                Block::DocParagraph(p) => is_formatted_paragraph(p, text@, bold, italic, font_size, color@),
                Block::DocTable(_) => false,
            },
    {
        let size: Option<u64> = if font_size > 0 {
            Some(2 * font_size as u64)
        } else {
            None
        };
        let color_attr: Option<String> = if color.unicode_len() == 0 {
            None
        } else {
            Some(color.to_string())
        };
        let run = DocRun::Text(TextRun {
            text: text.to_string(),
            bold,
            italic,
            underline: false,
            size,
            color: color_attr,
        });
        let mut runs: Vec<DocRun> = Vec::new();
        runs.push(run);
        self.append(Block::DocParagraph(DocParagraph { runs, alignment: None, numbering: None }));
        proof { assert(final(self)@.drop_last() =~= old(self)@); }
        true
    }

    /// Appends a paragraph aligned by `alignment`, matched without regard to
    /// case against center, right and justify; any other name aligns left.
    pub fn add_paragraph_with_alignment(&mut self, text: &str, alignment: &str) -> (r: bool)
        ensures
            r,
            final(self)@.len() == old(self)@.len() + 1,
            final(self)@.drop_last() == old(self)@,
            match final(self)@.last() {
                Block::DocParagraph(p) => is_text_paragraph(
                    p,
                    text@,
                    Some(alignment_of(lower_of(alignment@))),
                    None,
                ),
                Block::DocTable(_) => false,
            },
    {
        let align = alignment_from_name(alignment);
        self.append(Block::DocParagraph(DocParagraph::plain(text, Some(align), None)));
        proof { assert(final(self)@.drop_last() =~= old(self)@); }
        true
    }

    /// Appends an item of the bulleted list, at indent level zero.
    pub fn add_bullet_item(&mut self, text: &str) -> (r: bool)
        ensures
            r,
            final(self)@.len() == old(self)@.len() + 1,
            final(self)@.drop_last() == old(self)@,
            match final(self)@.last() {
                Block::DocParagraph(p) => is_text_paragraph(
                    p,
                    text@,
                    None,
                    Some(NumberingRef { list_id: BULLET_LIST_ID, level: 0 }),
                ),
                Block::DocTable(_) => false,
            },
    {
        let numbering = NumberingRef { list_id: BULLET_LIST_ID, level: 0 };
        self.append(Block::DocParagraph(DocParagraph::plain(text, None, Some(numbering))));
        proof { assert(final(self)@.drop_last() =~= old(self)@); }
        true
    }

    /// Appends an item of the numbered list, at indent level zero.
    pub fn add_numbered_item(&mut self, text: &str) -> (r: bool)
        ensures
            r,
            final(self)@.len() == old(self)@.len() + 1,
            final(self)@.drop_last() == old(self)@,
            match final(self)@.last() {
                Block::DocParagraph(p) => is_text_paragraph(
                    p,
                    text@,
                    None,
                    Some(NumberingRef { list_id: NUMBERED_LIST_ID, level: 0 }),
                ),
                Block::DocTable(_) => false,
            },
    {
        let numbering = NumberingRef { list_id: NUMBERED_LIST_ID, level: 0 };
        self.append(Block::DocParagraph(DocParagraph::plain(text, None, Some(numbering))));
        proof { assert(final(self)@.drop_last() =~= old(self)@); }
        true
    }

    /// Appends a `rows` by `cols` table whose cells each hold one empty
    /// paragraph; zero rows or columns give an empty table.
    pub fn add_table(&mut self, rows: u32, cols: u32) -> (r: bool)
        ensures
            r,
            final(self)@.len() == old(self)@.len() + 1,
            final(self)@.drop_last() == old(self)@,
            match final(self)@.last() {
                Block::DocTable(t) => is_fresh_table(t, rows as nat, cols as nat)
                    && cell_count(t.rows@) == rows as nat * cols as nat,
                Block::DocParagraph(_) => false,
            },
    {
        self.append(Block::DocTable(DocTable::grid(rows, cols)));
        proof { assert(final(self)@.drop_last() =~= old(self)@); }
        true
    }

    /// Appends a paragraph holding a picture made from a file's contents,
    /// laid out at `width` by `height`. `None` stands for a file that could
    /// not be opened or read: nothing is appended and the result is false.
    /// Contents over the compression threshold are re-encoded to fit the box,
    /// or kept as they are where that fails.
    pub fn add_image(&mut self, contents: Option<Vec<u8>>, width: u32, height: u32) -> (r: bool)
        ensures
            r == contents.is_some(),
            !r ==> final(self)@ == old(self)@,
            r ==> final(self)@.len() == old(self)@.len() + 1,
            r ==> final(self)@.drop_last() == old(self)@,
            r ==> match final(self)@.last() {
                Block::DocParagraph(p) => is_image_paragraph(
                    p,
                    embedded_bytes(contents.unwrap()@, width, height),
                    width,
                    height,
                ),
                Block::DocTable(_) => false,
            },
    {
        match contents {
            None => false,
            Some(buf) => {
                let bytes = prepare_image(buf, width, height);
                let mut runs: Vec<DocRun> = Vec::new();
                runs.push(DocRun::Image(ImageRun { bytes, width, height }));
                self.append(Block::DocParagraph(DocParagraph { runs, alignment: None, numbering: None }));
                proof { assert(final(self)@.drop_last() =~= old(self)@); }
                true
            },
        }
    }
}

/// Appends never drop nor add blocks: starting from an empty document, after
/// `n` appends, each of which grows the document by one block and keeps the
/// earlier ones, the document holds exactly `n` blocks, and each state extends
/// the ones before it.
pub proof fn lemma_count_after_appends(states: Seq<Seq<Block>>)
    requires
        states.len() > 0,
        states[0] == Seq::<Block>::empty(),
        forall|k: int| 0 <= k < states.len() - 1 ==> {
            &&& (#[trigger] states[k + 1]).len() == states[k].len() + 1
            &&& states[k + 1].drop_last() == states[k]
        },
    ensures
        forall|k: int| 0 <= k < states.len() ==> (#[trigger] states[k]).len() == k,
        forall|j: int, k: int| 0 <= j <= k < states.len() ==> (#[trigger] states[j]) == (#[trigger] states[k]).take(j),
    decreases states.len(),
{
    if states.len() > 1 {
        let init = states.drop_last();
        assert forall|k: int| 0 <= k < init.len() - 1 implies {
            &&& (#[trigger] init[k + 1]).len() == init[k].len() + 1
            &&& init[k + 1].drop_last() == init[k]
        } by {
            assert(init[k + 1] == states[k + 1]);
        }
        lemma_count_after_appends(init);
        let n = states.len() - 1;
        assert(states[n - 1] == init[n - 1]);
        let m = n - 1;
        assert(states[m + 1].len() == states[m].len() + 1 && states[m + 1].drop_last() == states[m]);
        assert(m + 1 == n);
        assert forall|k: int| 0 <= k < states.len() implies (#[trigger] states[k]).len() == k by {
            if k < n {
                assert(states[k] == init[k]);
            }
        }
        assert forall|j: int, k: int| 0 <= j <= k < states.len() implies (#[trigger] states[j]) == (#[trigger] states[k]).take(j) by {
            if k < n {
                assert(states[k] == init[k]);
                assert(states[j] == init[j]);
            } else if j == k {
                assert(states[k] =~= states[k].take(k));
            } else {
                assert(states[j] == init[j]);
                assert(init[j] == init[n - 1].take(j));
                assert(states[n].drop_last() == states[n - 1]);
                assert(states[n].take(j) =~= states[n - 1].take(j));
            }
        }
    }
}

} // verus!
