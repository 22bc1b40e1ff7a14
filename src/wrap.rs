use vstd::arithmetic::div_mod::lemma_fundamental_div_mod;
use vstd::arithmetic::mul::lemma_mul_inequality;
use vstd::prelude::*;
use vstd::utf8::encode_utf8;

verus! {

/// An axis-aligned rectangle of pixels: top-left corner and size.
#[derive(Debug, Clone, Copy, PartialEq, Eq, Structural)]
pub struct Region {
    pub x: u32,
    pub y: u32,
    pub width: u32,
    pub height: u32,
}

impl Region {
    /// The rectangle lies within the coordinate space.
    pub open spec fn wf(self) -> bool {
        &&& self.x + self.width <= u32::MAX
        &&& self.y + self.height <= u32::MAX
    }
}

/// The cell of one glyph of a monospace font, in pixels.
#[derive(Debug, Clone, Copy, PartialEq, Eq, Structural)]
pub struct GlyphMetrics {
    pub width: u32,
    pub height: u32,
}

impl GlyphMetrics {
    /// A glyph cell covers at least one pixel each way.
    pub open spec fn wf(self) -> bool {
        self.width > 0 && self.height > 0
    }
}

/// One line of text placed in a region: its text and the top-left corner of
/// its first glyph cell.
#[derive(Debug, Clone, PartialEq, Eq)]
pub struct LayoutLine {
    pub text: String,
    pub x: u32,
    pub y: u32,
}

impl View for LayoutLine {
    type V = (Seq<char>, u32, u32);

    open spec fn view(&self) -> (Seq<char>, u32, u32) {
        (self.text@, self.x, self.y)
    }
}

/// The characters of each string.
pub open spec fn texts(v: Seq<String>) -> Seq<Seq<char>> {
    v.map_values(|s: String| s@)
}

/// The view of each placed line.
pub open spec fn line_views(v: Seq<LayoutLine>) -> Seq<(Seq<char>, u32, u32)> {
    v.map_values(|l: LayoutLine| l@)
}

/// How many glyphs fit side by side across the region.
pub open spec fn columns(region: Region, glyph: GlyphMetrics) -> nat {
    (region.width / glyph.width) as nat
}

/// How many lines fit one below the other in the region.
pub open spec fn rows(region: Region, glyph: GlyphMetrics) -> nat {
    (region.height / glyph.height) as nat
}

/// What textwrap makes of `text` at `width` columns: greedy word wrap, with
/// words longer than a line broken apart.
pub uninterp spec fn wrapped(text: Seq<char>, width: nat) -> Seq<Seq<char>>;

/// `line` cut into pieces of `cols` characters; the last piece holds the
/// rest, and a line that fits stays whole.
pub open spec fn chunks(line: Seq<char>, cols: nat) -> Seq<Seq<char>>
    decreases line.len(),
{
    if cols == 0 || line.len() <= cols {
        seq![line]
    } else {
        seq![line.take(cols as int)] + chunks(line.skip(cols as int), cols)
    }
}

/// Each of `lines` cut into pieces of at most `cols` characters, in order.
pub open spec fn cut_lines(lines: Seq<Seq<char>>, cols: nat) -> Seq<Seq<char>>
    decreases lines.len(),
{
    if lines.len() == 0 {
        seq![]
    } else {
        cut_lines(lines.drop_last(), cols) + chunks(lines.last(), cols)
    }
}

/// The lines of one text at `cols` columns: word-wrapped, then any line still
/// too long is cut at the column limit. An empty text, or a region too narrow
/// for one glyph, has no lines.
pub open spec fn text_lines(text: Seq<char>, cols: nat) -> Seq<Seq<char>> {
    if text.len() == 0 || cols == 0 {
        seq![]
    } else {
        cut_lines(wrapped(text, cols), cols)
    }
}

/// The lines of a list: each entry laid out on its own, the entries in order.
pub open spec fn list_lines(items: Seq<Seq<char>>, cols: nat) -> Seq<Seq<char>>
    decreases items.len(),
{
    if items.len() == 0 {
        seq![]
    } else {
        list_lines(items.drop_last(), cols) + text_lines(items.last(), cols)
    }
}

/// How many lines the region holds when the first starts one glyph height
/// below its top edge and each must fit whole above its bottom edge.
pub open spec fn capacity(region: Region, glyph: GlyphMetrics) -> nat {
    if rows(region, glyph) == 0 {
        0
    } else {
        (rows(region, glyph) - 1) as nat
    }
}

/// How many of `n` lines are drawn: those whose whole cell fits in the region.
pub open spec fn shown(n: nat, region: Region, glyph: GlyphMetrics) -> nat {
    if n <= capacity(region, glyph) {
        n
    } else {
        capacity(region, glyph)
    }
}

/// The lines that fit in the region, one glyph height apart, the first one
/// glyph height below its top edge: line `i`'s glyph cell starts
/// `(i + 1)` glyph heights down. The first line that would reach below the
/// bottom edge, and every line after it, is dropped.
pub open spec fn placed(lines: Seq<Seq<char>>, region: Region, glyph: GlyphMetrics) -> Seq<
    (Seq<char>, u32, u32),
> {
    Seq::new(
        shown(lines.len(), region, glyph),
        |i: int| (lines[i], region.x, (region.y + (i + 1) * glyph.height) as u32),
    )
}

/// A line that needs no wrapping: not empty, without a line break or a
/// trailing space, and shorter in UTF-8 bytes than `width`.
pub open spec fn fits_whole(line: Seq<char>, width: nat) -> bool {
    &&& line.len() > 0
    &&& !line.contains('\n')
    &&& line.last() != ' '
    &&& encode_utf8(line).len() < width
}

/// Relies on textwrap::wrap with the first-fit algorithm: the lines of `text`
/// wrapped at `width` columns, which depend on the text and the width alone;
/// a single line shorter in bytes than the width comes back as it is, less
/// its trailing spaces.
#[verifier::external_body]
fn wrap_words(text: &str, width: usize) -> (r: Vec<String>)
    ensures
        texts(r@) == wrapped(text@, width as nat),
        fits_whole(text@, width as nat) ==> texts(r@) == seq![text@],
{
    let options = textwrap::Options::new(width).wrap_algorithm(textwrap::WrapAlgorithm::FirstFit);
    textwrap::wrap(text, options).into_iter().map(|line| line.into_owned()).collect()
}

/// Cuts `line` into pieces of `cols` characters, the last holding the rest.
pub fn split_to_width(line: &str, cols: usize) -> (r: Vec<String>)
    requires
        cols > 0,
    ensures
        texts(r@) == chunks(line@, cols as nat),
{
    let n = line.unicode_len();
    let mut out: Vec<String> = Vec::new();
    let mut start: usize = 0;
    assert(line@.skip(0) =~= line@);
    assert(texts(out@) + chunks(line@, cols as nat) =~= chunks(line@, cols as nat));
    while n - start > cols
        invariant
            start <= n,
            n == line@.len(),
            cols > 0,
            texts(out@) + chunks(line@.skip(start as int), cols as nat) == chunks(
                line@,
                cols as nat,
            ),
        decreases n - start,
    {
        let piece = String::from_str(line.substring_char(start, start + cols));
        proof {
            let rest = line@.skip(start as int);
            assert(rest.take(cols as int) =~= line@.subrange(start as int, start + cols));
            assert(rest.skip(cols as int) =~= line@.skip(start + cols));
            assert(texts(out@.push(piece)) =~= texts(out@).push(piece@));
            assert(chunks(rest, cols as nat) == seq![rest.take(cols as int)] + chunks(
                rest.skip(cols as int),
                cols as nat,
            ));
            assert(texts(out@).push(piece@) + chunks(line@.skip(start + cols), cols as nat)
                =~= texts(out@) + chunks(rest, cols as nat));
        }
        out.push(piece);
        start = start + cols;
    }
    let last = String::from_str(line.substring_char(start, n));
    proof {
        let rest = line@.skip(start as int);
        assert(rest =~= line@.subrange(start as int, n as int));
        assert(texts(out@.push(last)) =~= texts(out@).push(last@));
        assert(texts(out@).push(last@) =~= texts(out@) + chunks(rest, cols as nat));
    }
    out.push(last);
    out
}

/// Cuts each of `lines` to at most `cols` characters, keeping their order.
pub fn cut_to_width(lines: &Vec<String>, cols: usize) -> (r: Vec<String>)
    requires
        cols > 0,
    ensures
        texts(r@) == cut_lines(texts(lines@), cols as nat),
{
    let mut out: Vec<String> = Vec::new();
    let mut i: usize = 0;
    while i < lines.len()
        invariant
            i <= lines@.len(),
            cols > 0,
            texts(out@) == cut_lines(texts(lines@.take(i as int)), cols as nat),
        decreases lines@.len() - i,
    {
        let mut pieces = split_to_width(lines[i].as_str(), cols);
        proof {
            let before = texts(lines@.take(i as int));
            let after = texts(lines@.take(i + 1));
            assert(after.drop_last() =~= before);
            assert(after.last() == lines@[i as int]@);
            assert(texts(out@ + pieces@) =~= texts(out@) + texts(pieces@));
        }
        out.append(&mut pieces);
        i = i + 1;
    }
    assert(lines@.take(i as int) =~= lines@);
    out
}

/// Places the first lines that fit in `region` at its left edge, one glyph
/// height apart, the first one glyph height below its top edge.
pub fn place_lines(lines: &Vec<String>, region: Region, glyph: GlyphMetrics) -> (r: Vec<LayoutLine>)
    requires
        region.wf(),
        glyph.wf(),
    ensures
        line_views(r@) == placed(texts(lines@), region, glyph),
{
    let rows = region.height / glyph.height;
    let cap: u32 = if rows == 0 {
        0
    } else {
        rows - 1
    };
    let n = if lines.len() <= cap as usize {
        lines.len()
    } else {
        cap as usize
    };
    let mut out: Vec<LayoutLine> = Vec::new();
    let mut i: usize = 0;
    while i < n
        invariant
            region.wf(),
            glyph.wf(),
            rows == region.height / glyph.height,
            cap == capacity(region, glyph),
            n == shown(lines@.len(), region, glyph),
            n <= lines@.len(),
            i <= n,
            line_views(out@) =~= placed(texts(lines@), region, glyph).take(i as int),
        decreases n - i,
    {
        proof {
            lemma_fundamental_div_mod(region.height as int, glyph.height as int);
            lemma_mul_inequality(i + 1, rows as int, glyph.height as int);
            assert((i + 1) * glyph.height <= rows * glyph.height);
            assert(rows * glyph.height <= region.height) by (nonlinear_arith)
                requires
                    region.height == glyph.height * rows + region.height % glyph.height,
                    region.height % glyph.height >= 0,
            ;
        }
        let y = region.y + (i as u32 + 1) * glyph.height;
        let line = LayoutLine { text: lines[i].clone(), x: region.x, y };
        proof {
            assert(line.text@ == lines@[i as int]@);
            assert(line@ == placed(texts(lines@), region, glyph)[i as int]);
            assert(line_views(out@.push(line)) =~= line_views(out@).push(line@));
        }
        out.push(line);
        i = i + 1;
    }
    out
}

/// Every character takes at least one byte in UTF-8.
proof fn lemma_encoding_not_shorter(line: Seq<char>)
    ensures
        line.len() <= encode_utf8(line).len(),
    decreases line.len(),
{
    if line.len() > 0 {
        lemma_encoding_not_shorter(line.drop_first());
    }
}

/// The lines of one text at `cols` columns.
fn lines_of_text(text: &str, cols: usize) -> (r: Vec<String>)
    ensures
        texts(r@) == text_lines(text@, cols as nat),
        fits_whole(text@, cols as nat) ==> texts(r@) == seq![text@],
{
    if cols == 0 || text.unicode_len() == 0 {
        return Vec::new();
    }
    let wrapped = wrap_words(text, cols);
    let r = cut_to_width(&wrapped, cols);
    proof {
        if fits_whole(text@, cols as nat) {
            lemma_encoding_not_shorter(text@);
            let one = seq![text@];
            assert(one.drop_last() =~= Seq::<Seq<char>>::empty());
            assert(cut_lines(one, cols as nat) == cut_lines(one.drop_last(), cols as nat) + chunks(
                text@,
                cols as nat,
            ));
            assert(cut_lines(one, cols as nat) =~= one);
        }
    }
    r
}

/// Lays `text` out in `region`: word-wrapped to the glyphs that fit across,
/// cut where a word is still too long, and clipped to the lines that fit
/// down.
pub fn wrap_and_clip(text: &str, region: Region, glyph: GlyphMetrics) -> (r: Vec<LayoutLine>)
    requires
        region.wf(),
        glyph.wf(),
    ensures
        line_views(r@) == placed(text_lines(text@, columns(region, glyph)), region, glyph),
        fits_whole(text@, columns(region, glyph)) ==> line_views(r@) == placed(
            seq![text@],
            region,
            glyph,
        ),
{
    let cols = (region.width / glyph.width) as usize;
    let lines = lines_of_text(text, cols);
    place_lines(&lines, region, glyph)
}

/// Lays a list out in `region`: each entry wrapped on its own, the entries in
/// order, clipped to the lines that fit.
pub fn wrap_and_clip_list(items: &Vec<String>, region: Region, glyph: GlyphMetrics) -> (r: Vec<
    LayoutLine,
>)
    requires
        region.wf(),
        glyph.wf(),
    ensures
        line_views(r@) == placed(
            list_lines(texts(items@), columns(region, glyph)),
            region,
            glyph,
        ),
        (forall|j: int|
            0 <= j < items@.len() ==> fits_whole(#[trigger] items@[j]@, columns(region, glyph)))
            ==> line_views(r@) == placed(texts(items@), region, glyph),
{
    let cols = (region.width / glyph.width) as usize;
    let mut lines: Vec<String> = Vec::new();
    let mut i: usize = 0;
    while i < items.len()
        invariant
            i <= items@.len(),
            cols == columns(region, glyph),
            texts(lines@) == list_lines(texts(items@.take(i as int)), cols as nat),
            (forall|j: int| 0 <= j < i ==> fits_whole(#[trigger] items@[j]@, cols as nat))
                ==> texts(lines@) == texts(items@.take(i as int)),
        decreases items@.len() - i,
    {
        let mut more = lines_of_text(items[i].as_str(), cols);
        proof {
            let before = texts(items@.take(i as int));
            let after = texts(items@.take(i + 1));
            assert(after.drop_last() =~= before);
            assert(after.last() == items@[i as int]@);
            assert(texts(lines@ + more@) =~= texts(lines@) + texts(more@));
            assert(texts(items@.take(i + 1)) =~= texts(items@.take(i as int)).push(
                items@[i as int]@,
            ));
            assert(texts(lines@) + seq![items@[i as int]@] =~= texts(lines@).push(
                items@[i as int]@,
            ));
            if forall|j: int| 0 <= j < i + 1 ==> fits_whole(#[trigger] items@[j]@, cols as nat) {
                assert(fits_whole(items@[i as int]@, cols as nat));
            }
        }
        lines.append(&mut more);
        i = i + 1;
    }
    assert(items@.take(i as int) =~= items@);
    place_lines(&lines, region, glyph)
}

/// Every placed line lies inside the region: no wider than it, and with its
/// whole glyph cell between its top and bottom edges.
pub open spec fn within(lines: Seq<(Seq<char>, u32, u32)>, region: Region, glyph: GlyphMetrics) -> bool {
    forall|i: int|
        0 <= i < lines.len() ==> {
            &&& #[trigger] lines[i].0.len() * glyph.width <= region.width
            &&& lines[i].1 == region.x
            &&& region.y <= lines[i].2
            &&& lines[i].2 + glyph.height <= region.y + region.height
        }
}

/// Every line of `lines` has at most `cols` characters.
pub open spec fn all_fit(lines: Seq<Seq<char>>, cols: nat) -> bool {
    forall|j: int| 0 <= j < lines.len() ==> #[trigger] lines[j].len() <= cols
}

proof fn lemma_chunks_fit(line: Seq<char>, cols: nat)
    requires
        cols > 0,
    ensures
        all_fit(chunks(line, cols), cols),
    decreases line.len(),
{
    if line.len() > cols {
        lemma_chunks_fit(line.skip(cols as int), cols);
        let rest = chunks(line.skip(cols as int), cols);
        assert forall|j: int| 0 <= j < chunks(line, cols).len() implies #[trigger] chunks(
            line,
            cols,
        )[j].len() <= cols by {
            if j > 0 {
                assert(chunks(line, cols)[j] == rest[j - 1]);
            }
        }
    }
}

proof fn lemma_cut_lines_fit(lines: Seq<Seq<char>>, cols: nat)
    requires
        cols > 0,
    ensures
        all_fit(cut_lines(lines, cols), cols),
    decreases lines.len(),
{
    if lines.len() > 0 {
        lemma_cut_lines_fit(lines.drop_last(), cols);
        lemma_chunks_fit(lines.last(), cols);
        let a = cut_lines(lines.drop_last(), cols);
        let b = chunks(lines.last(), cols);
        assert forall|j: int| 0 <= j < (a + b).len() implies #[trigger] (a + b)[j].len()
            <= cols by {
            if j >= a.len() {
                assert((a + b)[j] == b[j - a.len()]);
            }
        }
    }
}

proof fn lemma_text_lines_fit(text: Seq<char>, cols: nat)
    ensures
        all_fit(text_lines(text, cols), cols),
{
    if text.len() > 0 && cols > 0 {
        lemma_cut_lines_fit(wrapped(text, cols), cols);
    }
}

proof fn lemma_list_lines_fit(items: Seq<Seq<char>>, cols: nat)
    ensures
        all_fit(list_lines(items, cols), cols),
    decreases items.len(),
{
    if items.len() > 0 {
        lemma_list_lines_fit(items.drop_last(), cols);
        lemma_text_lines_fit(items.last(), cols);
        let a = list_lines(items.drop_last(), cols);
        let b = text_lines(items.last(), cols);
        assert forall|j: int| 0 <= j < (a + b).len() implies #[trigger] (a + b)[j].len()
            <= cols by {
            if j >= a.len() {
                assert((a + b)[j] == b[j - a.len()]);
            }
        }
    }
}

/// A line longer than `cols` is hard-split at the column limit: it becomes at
/// least two pieces, every piece but the last exactly `cols` characters long,
/// and the pieces joined give the line back.
pub proof fn lemma_chunks_rejoin(line: Seq<char>, cols: nat)
    requires
        cols > 0,
    ensures
        chunks(line, cols).flatten() == line,
        forall|j: int|
            0 <= j < chunks(line, cols).len() - 1 ==> #[trigger] chunks(line, cols)[j].len()
                == cols,
        line.len() > cols ==> chunks(line, cols).len() >= 2,
    decreases line.len(),
{
    if line.len() > cols {
        let rest = line.skip(cols as int);
        lemma_chunks_rejoin(rest, cols);
        let c = chunks(line, cols);
        assert(c.drop_first() =~= chunks(rest, cols));
        assert(c.first() == line.take(cols as int));
        assert(c.flatten() == c.first() + c.drop_first().flatten());
        assert(line.take(cols as int) + rest =~= line);
        assert forall|j: int| 0 <= j < c.len() - 1 implies #[trigger] c[j].len() == cols by {
            if j > 0 {
                assert(c[j] == chunks(rest, cols)[j - 1]);
            }
        }
    } else {
        let c = chunks(line, cols);
        assert(c.drop_first() =~= Seq::<Seq<char>>::empty());
        assert(c.drop_first().flatten() == Seq::<char>::empty());
        assert(c.flatten() == c.first() + c.drop_first().flatten());
        assert(line + Seq::<char>::empty() =~= line);
    }
}

/// Lines no longer than the columns of the region are placed inside it.
pub proof fn lemma_placed_within(lines: Seq<Seq<char>>, region: Region, glyph: GlyphMetrics)
    requires
        region.wf(),
        glyph.wf(),
        all_fit(lines, columns(region, glyph)),
    ensures
        within(placed(lines, region, glyph), region, glyph),
{
    let p = placed(lines, region, glyph);
    let cols = columns(region, glyph);
    let rows = rows(region, glyph);
    lemma_fundamental_div_mod(region.width as int, glyph.width as int);
    lemma_fundamental_div_mod(region.height as int, glyph.height as int);
    assert(cols * glyph.width <= region.width) by (nonlinear_arith)
        requires
            region.width == glyph.width * cols + region.width % glyph.width,
            region.width % glyph.width >= 0,
    ;
    assert(rows * glyph.height <= region.height) by (nonlinear_arith)
        requires
            region.height == glyph.height * rows + region.height % glyph.height,
            region.height % glyph.height >= 0,
    ;
    assert forall|i: int| 0 <= i < p.len() implies {
        &&& #[trigger] p[i].0.len() * glyph.width <= region.width
        &&& p[i].1 == region.x
        &&& region.y <= p[i].2
        &&& p[i].2 + glyph.height <= region.y + region.height
    } by {
        assert(lines[i].len() <= cols);
        lemma_mul_inequality(lines[i].len() as int, cols as int, glyph.width as int);
        lemma_mul_inequality(i + 2, rows as int, glyph.height as int);
        assert((i + 2) * glyph.height == (i + 1) * glyph.height + glyph.height) by (nonlinear_arith);
        assert(0 <= (i + 1) * glyph.height) by (nonlinear_arith)
            requires
                0 <= i,
        ;
    }
}

/// Whatever the text and the region, each line laid out for one text is no
/// wider than the region and lies between its top and bottom edges.
pub proof fn lemma_text_within_region(text: Seq<char>, region: Region, glyph: GlyphMetrics)
    requires
        region.wf(),
        glyph.wf(),
    ensures
        within(placed(text_lines(text, columns(region, glyph)), region, glyph), region, glyph),
{
    lemma_text_lines_fit(text, columns(region, glyph));
    lemma_placed_within(text_lines(text, columns(region, glyph)), region, glyph);
}

/// Whatever the entries and the region, each line laid out for a list is no
/// wider than the region and lies between its top and bottom edges.
pub proof fn lemma_list_within_region(items: Seq<Seq<char>>, region: Region, glyph: GlyphMetrics)
    requires
        region.wf(),
        glyph.wf(),
    ensures
        within(placed(list_lines(items, columns(region, glyph)), region, glyph), region, glyph),
{
    lemma_list_lines_fit(items, columns(region, glyph));
    lemma_placed_within(list_lines(items, columns(region, glyph)), region, glyph);
}

/// An empty text lays out to no line at all.
pub proof fn lemma_empty_text(region: Region, glyph: GlyphMetrics)
    ensures
        placed(text_lines(Seq::empty(), columns(region, glyph)), region, glyph).len() == 0,
{
}

} // verus!
