//! The tangram letters as text: each letter is a template of rows in which the
//! pieces are marked `A` to `G`; at stage `k` the pieces `A` up to the `k`-th one
//! are shown and the rest are left blank.
use vstd::prelude::*;
use vstd::string::StringSliceAdditionalSpecFns;

verus! {

/// The two letters that the tangram demo builds.
#[derive(Clone, Copy, Debug, PartialEq, Eq, Structural)]
pub enum Shape {
    O,
    S,
}

/// Number of pieces in each letter.
pub const PIECES: usize = 7;

/// The template byte that marks an empty cell (`.`).
pub const EMPTY_CELL: u8 = 46;
/// The byte printed for a cell that shows nothing (a space).
pub const BLANK: u8 = 32;
/// The mark of the first piece (`A`).
pub const FIRST_PIECE: u8 = 65;
/// The mark of the last piece (`G`).
pub const LAST_PIECE: u8 = 71;

/// The template of the letter O.
pub open spec fn o_template() -> Seq<&'static str> {
    seq![
        "........AAAABBBB........",
        "......AAAAAABBBBBB......",
        "....CCCC........DDDD....",
        "...CCCCC........DDDDD...",
        "..CCCC............DDDD..",
        "..CCCC............DDDD..",
        "..EEEE............FFFF..",
        "..EEEE............FFFF..",
        "..EEEE............FFFF..",
        "...EEEEE........FFFFF...",
        "....GGGG........GGGG....",
        "......GGGGGGGGGGGG......",
        "........GGGGGGGG........",
    ]
}

/// The template of the letter S.
pub open spec fn s_template() -> Seq<&'static str> {
    seq![
        ".......AAAABBBB.........",
        ".....AAAAAABBBBBB.......",
        "...CCCCCC...DDDDDD......",
        "..CCCCCCC.....DDDDD.....",
        "..CCCCC..................",
        "...CCCC.................",
        ".....EEEEEEEEE..........",
        ".......EEEEEEEE.........",
        "..............FFFF......",
        "...............FFFFF....",
        "................FFFFF...",
        "........GGGGGGGFFFF.....",
        "......GGGGGGGGFFFF......",
        "....GGGGGG..............",
        "......GGGG................",
    ]
}

/// The template of a letter.
pub open spec fn template_spec(shape: Shape) -> Seq<&'static str> {
    match shape {
        Shape::O => o_template(),
        Shape::S => s_template(),
    }
}

/// The name under which a letter is announced.
pub open spec fn shape_name_spec(shape: Shape) -> &'static str {
    match shape {
        Shape::O => "O",
        Shape::S => "S",
    }
}

/// Each letter is announced by its own name: O as `"O"`, S as `"S"`, and the two names
/// differ.
pub proof fn lemma_letter_names()
    ensures
        shape_name_spec(Shape::O) == "O",
        shape_name_spec(Shape::S) == "S",
        shape_name_spec(Shape::O)@ != shape_name_spec(Shape::S)@,
        shape_name_spec(Shape::O)@ == seq!['O'],
        shape_name_spec(Shape::S)@ == seq!['S'],
{
    reveal_strlit("O");
    reveal_strlit("S");
    assert("O"@[0] != "S"@[0]);
}

/// The rows of the template of `shape`.
pub fn template(shape: Shape) -> (rows: Vec<&'static str>)
    ensures
        rows@ == template_spec(shape),
{
    match shape {
        Shape::O => {
            let rows = vec![
                "........AAAABBBB........",
                "......AAAAAABBBBBB......",
                "....CCCC........DDDD....",
                "...CCCCC........DDDDD...",
                "..CCCC............DDDD..",
                "..CCCC............DDDD..",
                "..EEEE............FFFF..",
                "..EEEE............FFFF..",
                "..EEEE............FFFF..",
                "...EEEEE........FFFFF...",
                "....GGGG........GGGG....",
                "......GGGGGGGGGGGG......",
                "........GGGGGGGG........",
            ];
            assert(rows@ =~= o_template());
            rows
        },
        Shape::S => {
            let rows = vec![
                ".......AAAABBBB.........",
                ".....AAAAAABBBBBB.......",
                "...CCCCCC...DDDDDD......",
                "..CCCCCCC.....DDDDD.....",
                "..CCCCC..................",
                "...CCCC.................",
                ".....EEEEEEEEE..........",
                ".......EEEEEEEE.........",
                "..............FFFF......",
                "...............FFFFF....",
                "................FFFFF...",
                "........GGGGGGGFFFF.....",
                "......GGGGGGGGFFFF......",
                "....GGGGGG..............",
                "......GGGG................",
            ];
            assert(rows@ =~= s_template());
            rows
        },
    }
}

/// How one template byte shows at `stage`: a dot is blank, a piece letter shows
/// itself when it is one of the first `stage + 1` pieces and is blank otherwise, and
/// any other byte shows itself.
pub open spec fn render_byte(b: u8, stage: int) -> u8 {
    if b == EMPTY_CELL {
        BLANK
    } else if FIRST_PIECE <= b <= LAST_PIECE {
        if b - FIRST_PIECE <= stage {
            b
        } else {
            BLANK
        }
    } else {
        b
    }
}

/// Batches are cumulative: a byte that shows at one stage shows the same at every
/// later stage.
pub proof fn lemma_render_byte_cumulative(b: u8, stage: int, later: int)
    requires
        stage <= later,
        render_byte(b, stage) != BLANK,
    ensures
        render_byte(b, later) == render_byte(b, stage),
{
}

/// Byte by byte: a dot (46) shows as a space (32); a piece letter `A` to `G` (65 to 71)
/// shows itself when its piece number (`b - 65`) is at most the stage and as a space
/// otherwise; every other byte shows itself.
pub proof fn lemma_render_byte_values(b: u8, stage: int)
    ensures
        b == 46 ==> render_byte(b, stage) == 32,
        65 <= b <= 71 && b - 65 <= stage ==> render_byte(b, stage) == b,
        65 <= b <= 71 && b - 65 > stage ==> render_byte(b, stage) == 32,
        b != 46 && !(65 <= b <= 71) ==> render_byte(b, stage) == b,
{
}

/// The letter O has 13 rows and the letter S 15.
pub proof fn lemma_template_sizes()
    ensures
        template_spec(Shape::O).len() == 13,
        template_spec(Shape::S).len() == 15,
{
}

/// At the last stage every piece shows: only the empty cells are blank.
pub proof fn lemma_render_byte_complete(b: u8)
    ensures
        render_byte(b, (PIECES - 1) as int) == (if b == EMPTY_CELL {
            BLANK
        } else {
            b
        }),
{
}

/// The bytes that a template row shows at `stage`, one for each byte of the row.
pub open spec fn render_line_spec(line: Seq<u8>, stage: int) -> Seq<u8> {
    Seq::new(line.len(), |i: int| render_byte(line[i], stage))
}

/// The bytes that template row `line` shows at `stage`.
pub fn render_line(line: &str, stage: usize) -> (shown: Vec<u8>)
    ensures
        shown@ == render_line_spec(line.spec_bytes(), stage as int),
{
    let bytes = line.as_bytes();
    let mut shown: Vec<u8> = Vec::new();
    let mut i: usize = 0;
    while i < bytes.len()
        invariant
            i <= bytes@.len(),
            bytes@ == line.spec_bytes(),
            shown@ == render_line_spec(bytes@.subrange(0, i as int), stage as int),
        decreases bytes@.len() - i,
    {
        let byte = bytes[i];
        let out: u8 = if byte == EMPTY_CELL {
            BLANK
        } else if FIRST_PIECE <= byte && byte <= LAST_PIECE {
            if ((byte - FIRST_PIECE) as usize) <= stage {
                byte
            } else {
                BLANK
            }
        } else {
            byte
        };
        shown.push(out);
        i = i + 1;
        assert(shown@ =~= render_line_spec(bytes@.subrange(0, i as int), stage as int));
    }
    assert(bytes@.subrange(0, i as int) =~= bytes@);
    shown
}

/// One batch of the text tangram: the heading values and the rows to print.
pub struct TangramFrame {
    /// Name of the letter.
    pub name: &'static str,
    /// Number of this batch, counted from 1.
    pub batch: usize,
    /// Number of batches, one for each piece.
    pub total: usize,
    /// The piece that this batch adds.
    pub piece: u8,
    /// The rows of the letter as they show in this batch.
    pub rows: Vec<Vec<u8>>,
}

/// The stage that is shown: stages past the last piece show the last piece.
pub open spec fn clamp_stage(stage: int) -> int {
    if stage < PIECES - 1 {
        stage
    } else {
        PIECES - 1
    }
}

/// The batch of `shape` at `stage`; a stage past the last piece shows the whole letter.
pub fn render(shape: Shape, stage: usize) -> (frame: TangramFrame)
    ensures
        frame.name == shape_name_spec(shape),
        shape == Shape::O ==> frame.name == "O",
        shape == Shape::S ==> frame.name == "S",
        frame.batch == clamp_stage(stage as int) + 1,
        frame.total == PIECES,
        frame.piece == FIRST_PIECE + clamp_stage(stage as int),
        frame.rows@.len() == template_spec(shape).len(),
        forall|i: int|
            0 <= i < frame.rows@.len() ==> #[trigger] frame.rows@[i]@ == render_line_spec(
                template_spec(shape)[i].spec_bytes(),
                clamp_stage(stage as int),
            ),
{
    let stage = if stage < PIECES - 1 {
        stage
    } else {
        PIECES - 1
    };
    let name = match shape {
        Shape::O => "O",
        Shape::S => "S",
    };
    let lines = template(shape);
    let mut rows: Vec<Vec<u8>> = Vec::new();
    let mut i: usize = 0;
    while i < lines.len()
        invariant
            i <= lines@.len(),
            lines@ == template_spec(shape),
            rows@.len() == i,
            forall|j: int|
                0 <= j < i ==> #[trigger] rows@[j]@ == render_line_spec(
                    lines@[j].spec_bytes(),
                    stage as int,
                ),
        decreases lines@.len() - i,
    {
        let row = render_line(lines[i], stage);
        rows.push(row);
        i = i + 1;
    }
    TangramFrame { name, batch: stage + 1, total: PIECES, piece: FIRST_PIECE + (stage as u8), rows }
}

} // verus!
