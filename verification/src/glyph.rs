//! Quantization of escape counts into a small palette of glyphs.

use vstd::prelude::*;

verus! {

/// The glyph that stands for an escape count.
///
/// The palette is a step function: counts that escape almost at once are
/// blank, counts that resist longest are dense.
pub open spec fn glyph_of(count: nat) -> char {
    if count <= 2 {
        ' '
    } else if count <= 5 {
        '.'
    } else if count <= 10 {
        '\u{2022}'
    } else if count <= 30 {
        '*'
    } else if count <= 100 {
        '+'
    } else if count <= 200 {
        'x'
    } else if count <= 400 {
        '$'
    } else if count <= 700 {
        '#'
    } else {
        '%'
    }
}

/// Maps one escape count to its glyph.
pub fn glyph_for(count: usize) -> (glyph: char)
    ensures
        glyph == glyph_of(count as nat),
{
    if count <= 2 {
        ' '
    } else if count <= 5 {
        '.'
    } else if count <= 10 {
        '\u{2022}'
    } else if count <= 30 {
        '*'
    } else if count <= 100 {
        '+'
    } else if count <= 200 {
        'x'
    } else if count <= 400 {
        '$'
    } else if count <= 700 {
        '#'
    } else {
        '%'
    }
}

/// The glyphs of one row of escape counts, in column order.
pub open spec fn row_glyphs(row: Seq<usize>) -> Seq<char> {
    Seq::new(row.len(), |x: int| glyph_of(row[x] as nat))
}

/// The text lines of a whole field, in row order.
pub open spec fn field_glyphs(field: Seq<Seq<usize>>) -> Seq<Seq<char>> {
    Seq::new(field.len(), |y: int| row_glyphs(field[y]))
}

/// The text of each line in a list of lines.
pub open spec fn line_texts(lines: Seq<String>) -> Seq<Seq<char>> {
    Seq::new(lines.len(), |y: int| lines[y]@)
}

/// Calls `String::push` of the standard library: the character is
/// appended at the end of the line and nothing else changes.
#[verifier::external_body]
fn push_char(line: &mut String, glyph: char)
    ensures
        final(line)@ == old(line)@.push(glyph),
{
    line.push(glyph)
}

/// Renders one row of escape counts as a line of text, one glyph per count.
pub fn render_line(row: &Vec<usize>) -> (line: String)
    ensures
        line@ == row_glyphs(row@),
{
    let mut line = String::new();
    let mut x: usize = 0;
    while x < row.len()
        invariant
            x <= row.len(),
            line@ == row_glyphs(row@.take(x as int)),
        decreases row.len() - x,
    {
        push_char(&mut line, glyph_for(row[x]));
        x += 1;
        assert(line@ =~= row_glyphs(row@.take(x as int)));
    }
    assert(row@.take(x as int) =~= row@);
    line
}

/// Renders a field of escape counts as text: one line per row, in row
/// order, each line holding one glyph per count of its row.
///
/// The result depends on the counts alone, so a field always renders to
/// the same lines.
pub fn render_mandelbrot(escape_values: &Vec<Vec<usize>>) -> (lines: Vec<String>)
    ensures
        line_texts(lines@) == field_glyphs(escape_values.deep_view()),
{
    let mut lines: Vec<String> = Vec::new();
    let mut y: usize = 0;
    while y < escape_values.len()
        invariant
            y <= escape_values.len(),
            lines.len() == y,
            forall|k: int| 0 <= k < y ==> (#[trigger] lines[k])@ == row_glyphs(escape_values[k]@),
        decreases escape_values.len() - y,
    {
        let line = render_line(&escape_values[y]);
        lines.push(line);
        y += 1;
    }
    proof {
        let field = escape_values.deep_view();
        assert(field.len() == escape_values.len());
        assert forall|k: int| 0 <= k < field.len() implies field[k] == escape_values[k]@ by {
            assert(field[k] =~= escape_values[k]@);
        }
        assert(line_texts(lines@) =~= field_glyphs(field));
    }
    lines
}

/// Rendering is a function of the counts alone: two renderings of fields
/// that hold the same counts have the same number of lines and the same
/// text in each line.
pub proof fn lemma_render_deterministic(
    first: Vec<Vec<usize>>,
    second: Vec<Vec<usize>>,
    first_lines: Vec<String>,
    second_lines: Vec<String>,
)
    requires
        first.deep_view() == second.deep_view(),
        line_texts(first_lines@) == field_glyphs(first.deep_view()),
        line_texts(second_lines@) == field_glyphs(second.deep_view()),
    ensures
        first_lines.len() == second_lines.len(),
        forall|y: int| 0 <= y < first_lines.len() ==> (#[trigger] first_lines[y])@ == second_lines[y]@,
{
    assert(line_texts(first_lines@).len() == first_lines.len());
    assert(line_texts(second_lines@).len() == second_lines.len());
    assert forall|y: int| 0 <= y < first_lines.len() implies (#[trigger] first_lines[y])@
        == second_lines[y]@ by {
        assert(line_texts(first_lines@)[y] == first_lines[y]@);
        assert(line_texts(second_lines@)[y] == second_lines[y]@);
    }
}

/// A rendered field has one line per row and one glyph per count.
pub proof fn lemma_render_shape(field: Seq<Seq<usize>>, width: nat, height: nat)
    requires
        field.len() == height,
        forall|y: int| 0 <= y < field.len() ==> (#[trigger] field[y]).len() == width,
    ensures
        field_glyphs(field).len() == height,
        forall|y: int| 0 <= y < height ==> (#[trigger] field_glyphs(field)[y]).len() == width,
{
}

} // verus!
