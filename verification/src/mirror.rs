//! The terminal mirror: raw shell output replayed into a queryable screen.
//!
//! The emulation itself is done by `vt100`. This module feeds it, keeps its
//! geometry within what it can take, never lets its grid shrink in place,
//! and turns what it renders into a trimmed snapshot.

use vstd::prelude::*;

verus! {

#[verifier::external_type_specification]
#[verifier::external_body]
pub struct ExParser(vt100::Parser);

/// One thing a terminal parser was given, in the order it was given.
pub enum MirrorInput {
    /// The grid was created with, or resized to, this geometry.
    Resize { rows: u16, cols: u16 },
    /// These raw output bytes were processed.
    Bytes(Seq<u8>),
}

/// Everything a `vt100::Parser` has absorbed since it was created, oldest
/// first. A parser's screen is a function of this history alone.
pub uninterp spec fn parser_inputs(parser: vt100::Parser) -> Seq<MirrorInput>;

/// What `vt100::Screen::rows_formatted(0, width)` yields for a parser with
/// the given history: one byte string per grid row, top to bottom.
pub uninterp spec fn formatted_rows(inputs: Seq<MirrorInput>, width: u16) -> Seq<Seq<u8>>;

/// What `vt100::Screen::cursor_position()` yields for a parser with the given
/// history, as `(row, column)`.
pub uninterp spec fn cursor_position(inputs: Seq<MirrorInput>) -> (u16, u16);

/// What `vt100::Screen::contents_formatted()` yields for a parser with the
/// given history: the bytes that redraw its screen on another terminal.
pub uninterp spec fn formatted_contents(inputs: Seq<MirrorInput>) -> Seq<u8>;

/// A geometry that `vt100` can work with. Its arithmetic underflows on a
/// grid without rows or columns, when a line wraps on a grid of one row, and
/// when a double-width character meets a grid of one column; and a tab stop
/// past column 65527 overflows. So a grid has at least two rows and from two
/// to 65527 columns.
pub open spec fn usable(rows: u16, cols: u16) -> bool {
    rows >= 2 && 2 <= cols <= 65527
}

/// Whether the mirror can take a grid of this size.
pub fn size_is_usable(rows: u16, cols: u16) -> (fits: bool)
    ensures
        fits == usable(rows, cols),
{
    rows >= 2 && cols >= 2 && cols <= 65527
}

/// The geometry a history ends with, as `(rows, columns)`.
pub open spec fn last_geometry(inputs: Seq<MirrorInput>) -> (u16, u16)
    decreases inputs.len(),
{
    if inputs.len() == 0 {
        (0, 0)
    } else {
        match inputs.last() {
            MirrorInput::Resize { rows, cols } => (rows, cols),
            MirrorInput::Bytes(_) => last_geometry(inputs.drop_last()),
        }
    }
}

/// Of two inputs, the later is no geometry with fewer rows or fewer columns
/// than the earlier.
pub open spec fn no_smaller(earlier: MirrorInput, later: MirrorInput) -> bool {
    match (earlier, later) {
        (
            MirrorInput::Resize { rows: rows_before, cols: cols_before },
            MirrorInput::Resize { rows, cols },
        ) => rows_before <= rows && cols_before <= cols,
        _ => true,
    }
}

/// The history starts with the geometry the grid was created with, every
/// geometry in it is usable, and no geometry is smaller in rows or columns
/// than one before it: the grid has never shrunk.
pub open spec fn geometry_valid(inputs: Seq<MirrorInput>) -> bool {
    &&& inputs.len() > 0
    &&& inputs[0] is Resize
    &&& forall|i: int|
        0 <= i < inputs.len() ==> (#[trigger] inputs[i] matches MirrorInput::Resize { rows, cols }
            ==> usable(rows, cols))
    &&& forall|i: int, j: int|
        0 <= i <= j < inputs.len() ==> no_smaller(#[trigger] inputs[i], #[trigger] inputs[j])
}

/// The history after a resize. A grid that does not shrink is resized in
/// place. A grid that would lose rows or columns is started afresh at the
/// new size, and the old screen is redrawn on it.
pub open spec fn resized(inputs: Seq<MirrorInput>, rows: u16, cols: u16) -> Seq<MirrorInput> {
    if rows >= last_geometry(inputs).0 && cols >= last_geometry(inputs).1 {
        inputs.push(MirrorInput::Resize { rows, cols })
    } else {
        seq![MirrorInput::Resize { rows, cols }, MirrorInput::Bytes(formatted_contents(inputs))]
    }
}

/// In a valid history the last geometry is usable, and no geometry in it is
/// larger.
pub proof fn lemma_last_geometry(inputs: Seq<MirrorInput>)
    requires
        geometry_valid(inputs),
    ensures
        usable(last_geometry(inputs).0, last_geometry(inputs).1),
        forall|i: int|
            0 <= i < inputs.len() ==> no_smaller(
                #[trigger] inputs[i],
                MirrorInput::Resize {
                    rows: last_geometry(inputs).0,
                    cols: last_geometry(inputs).1,
                },
            ),
    decreases inputs.len(),
{
    let end = inputs.len() - 1;
    if inputs.last() is Bytes {
        let prefix = inputs.drop_last();
        assert(prefix.len() > 0) by {
            assert(inputs[0] is Resize);
        }
        assert forall|i: int| 0 <= i < prefix.len() implies #[trigger] prefix[i] == inputs[i] by {}
        assert(geometry_valid(prefix)) by {
            assert forall|i: int, j: int| 0 <= i <= j < prefix.len() implies no_smaller(
                #[trigger] prefix[i],
                #[trigger] prefix[j],
            ) by {
                assert(no_smaller(inputs[i], inputs[j]));
            }
        }
        lemma_last_geometry(prefix);
        assert forall|i: int| 0 <= i < inputs.len() implies no_smaller(
            #[trigger] inputs[i],
            MirrorInput::Resize { rows: last_geometry(inputs).0, cols: last_geometry(inputs).1 },
        ) by {
            if i < end {
                assert(prefix[i] == inputs[i]);
            }
        }
    } else {
        assert forall|i: int| 0 <= i < inputs.len() implies no_smaller(
            #[trigger] inputs[i],
            MirrorInput::Resize { rows: last_geometry(inputs).0, cols: last_geometry(inputs).1 },
        ) by {
            assert(no_smaller(inputs[i], inputs[end]));
        }
    }
}

/// A valid history stays valid when bytes are appended, and when a usable
/// geometry that is no smaller than the last one is appended; and the
/// history after any resize to a usable geometry is valid.
pub proof fn lemma_history_grows(inputs: Seq<MirrorInput>, bytes: Seq<u8>, rows: u16, cols: u16)
    requires
        geometry_valid(inputs),
    ensures
        geometry_valid(inputs.push(MirrorInput::Bytes(bytes))),
        last_geometry(inputs.push(MirrorInput::Bytes(bytes))) == last_geometry(inputs),
        usable(rows, cols) ==> geometry_valid(resized(inputs, rows, cols)) && last_geometry(
            resized(inputs, rows, cols),
        ) == (rows, cols),
{
    lemma_last_geometry(inputs);
    let fed = inputs.push(MirrorInput::Bytes(bytes));
    assert(fed.drop_last() =~= inputs);
    assert forall|i: int, j: int| 0 <= i <= j < fed.len() implies no_smaller(
        #[trigger] fed[i],
        #[trigger] fed[j],
    ) by {
        if j < inputs.len() {
            assert(no_smaller(inputs[i], inputs[j]));
        }
    }
    if usable(rows, cols) {
        let geometry = MirrorInput::Resize { rows, cols };
        if rows >= last_geometry(inputs).0 && cols >= last_geometry(inputs).1 {
            let grown = inputs.push(geometry);
            assert forall|i: int, j: int| 0 <= i <= j < grown.len() implies no_smaller(
                #[trigger] grown[i],
                #[trigger] grown[j],
            ) by {
                if j < inputs.len() {
                    assert(no_smaller(inputs[i], inputs[j]));
                } else if i < inputs.len() {
                    assert(no_smaller(
                        inputs[i],
                        MirrorInput::Resize {
                            rows: last_geometry(inputs).0,
                            cols: last_geometry(inputs).1,
                        },
                    ));
                }
            }
        } else {
            let fresh = seq![geometry, MirrorInput::Bytes(formatted_contents(inputs))];
            assert(fresh.drop_last() =~= seq![geometry]);
            assert(seq![geometry].drop_last() =~= Seq::<MirrorInput>::empty());
            assert(last_geometry(seq![geometry]) == (rows, cols));
        }
    }
}

/// `vt100::Parser::new` with no scrollback. The new parser's history is the
/// one geometry it was created with.
#[verifier::external_body]
fn parser_new(rows: u16, cols: u16) -> (parser: vt100::Parser)
    requires
        usable(rows, cols),
    ensures
        parser_inputs(parser) == seq![MirrorInput::Resize { rows, cols }],
{
    vt100::Parser::new(rows, cols, 0)
}

/// `vt100::Parser::set_size` for a grid that does not shrink: appends the
/// new geometry to the history. Version 0.15 leaves a saved cursor and
/// double-width cells out of bounds when a grid loses rows or columns, and
/// panics on later output; so this is never called to make a grid smaller.
#[verifier::external_body]
fn parser_set_size(parser: &mut vt100::Parser, rows: u16, cols: u16)
    requires
        geometry_valid(parser_inputs(*old(parser))),
        usable(rows, cols),
        rows >= last_geometry(parser_inputs(*old(parser))).0,
        cols >= last_geometry(parser_inputs(*old(parser))).1,
    ensures
        parser_inputs(*final(parser)) == parser_inputs(*old(parser)).push(
            MirrorInput::Resize { rows, cols },
        ),
{
    parser.set_size(rows, cols)
}

/// `vt100::Parser::process` on a parser whose grid has never shrunk: appends
/// the bytes to the history.
#[verifier::external_body]
fn parser_process(parser: &mut vt100::Parser, bytes: &[u8])
    requires
        geometry_valid(parser_inputs(*old(parser))),
    ensures
        parser_inputs(*final(parser)) == parser_inputs(*old(parser)).push(
            MirrorInput::Bytes(bytes@),
        ),
{
    parser.process(bytes)
}

/// `vt100::Screen::rows_formatted(0, width)` on the parser's screen,
/// collected: the rows named by `formatted_rows`, one for each row of the
/// grid.
#[verifier::external_body]
fn parser_rows_formatted(parser: &vt100::Parser, width: u16) -> (rows: Vec<Vec<u8>>)
    requires
        geometry_valid(parser_inputs(*parser)),
    ensures
        bytes_of(rows@) == formatted_rows(parser_inputs(*parser), width),
        rows@.len() == last_geometry(parser_inputs(*parser)).0,
{
    parser.screen().rows_formatted(0, width).collect()
}

/// `vt100::Screen::cursor_position` on the parser's screen: `(row, column)`.
/// The row is one of the grid's; the column is one of the grid's or, after a
/// character in the last column, the one past it.
#[verifier::external_body]
fn parser_cursor_position(parser: &vt100::Parser) -> (position: (u16, u16))
    requires
        geometry_valid(parser_inputs(*parser)),
    ensures
        position == cursor_position(parser_inputs(*parser)),
        position.0 < last_geometry(parser_inputs(*parser)).0,
        position.1 <= last_geometry(parser_inputs(*parser)).1,
{
    parser.screen().cursor_position()
}

/// `vt100::Screen::contents_formatted` on the parser's screen: the bytes
/// named by `formatted_contents`.
#[verifier::external_body]
fn parser_contents_formatted(parser: &vt100::Parser) -> (contents: Vec<u8>)
    requires
        geometry_valid(parser_inputs(*parser)),
    ensures
        contents@ == formatted_contents(parser_inputs(*parser)),
{
    parser.screen().contents_formatted()
}

/// A terminal grid that absorbs raw output and can be snapshotted.
pub struct TerminalMirror {
    parser: vt100::Parser,
    rows: u16,
    cols: u16,
}

impl View for TerminalMirror {
    type V = Seq<MirrorInput>;

    closed spec fn view(&self) -> Seq<MirrorInput> {
        parser_inputs(self.parser)
    }
}

impl TerminalMirror {
    /// The grid has only ever had usable geometries, has never shrunk, and
    /// its size is known.
    pub closed spec fn wf(&self) -> bool {
        &&& geometry_valid(self@)
        &&& (self.rows, self.cols) == last_geometry(self@)
    }

    /// A well-formed mirror has a valid history.
    pub proof fn lemma_wf(&self)
        requires
            self.wf(),
        ensures
            geometry_valid(self@),
            usable(last_geometry(self@).0, last_geometry(self@).1),
    {
        lemma_last_geometry(self@);
    }

    /// A blank grid of the given geometry.
    pub fn new(rows: u16, cols: u16) -> (mirror: TerminalMirror)
        requires
            usable(rows, cols),
        ensures
            mirror.wf(),
            mirror@ == seq![MirrorInput::Resize { rows, cols }],
    {
        let mirror = TerminalMirror { parser: parser_new(rows, cols), rows, cols };
        proof {
            let history = seq![MirrorInput::Resize { rows, cols }];
            assert(history.drop_last() =~= Seq::<MirrorInput>::empty());
        }
        mirror
    }

    /// The size of the grid, as `(rows, columns)`.
    pub fn size(&self) -> (size: (u16, u16))
        requires
            self.wf(),
        ensures
            size == last_geometry(self@),
            usable(size.0, size.1),
    {
        proof {
            lemma_last_geometry(self@);
        }
        (self.rows, self.cols)
    }

    /// Resizes the grid. A grid that gains rows or columns, or keeps them,
    /// is resized in place. A grid that would lose rows or columns is
    /// started afresh at the new size, and what the old screen showed is
    /// redrawn on it.
    pub fn set_size(&mut self, rows: u16, cols: u16)
        requires
            old(self).wf(),
            usable(rows, cols),
        ensures
            final(self).wf(),
            final(self)@ == resized(old(self)@, rows, cols),
    {
        proof {
            lemma_history_grows(self@, Seq::empty(), rows, cols);
        }
        if rows >= self.rows && cols >= self.cols {
            parser_set_size(&mut self.parser, rows, cols);
        } else {
            let contents = parser_contents_formatted(&self.parser);
            let mut fresh = parser_new(rows, cols);
            proof {
                let start = seq![MirrorInput::Resize { rows, cols }];
                assert(start.drop_last() =~= Seq::<MirrorInput>::empty());
                assert(geometry_valid(start));
                assert(start.push(MirrorInput::Bytes(contents@)) =~= resized(
                    old(self)@,
                    rows,
                    cols,
                ));
            }
            parser_process(&mut fresh, contents.as_slice());
            self.parser = fresh;
        }
        self.rows = rows;
        self.cols = cols;
    }

    /// Feeds raw output bytes to the grid.
    pub fn process(&mut self, bytes: &[u8])
        requires
            old(self).wf(),
        ensures
            final(self).wf(),
            final(self)@ == old(self)@.push(MirrorInput::Bytes(bytes@)),
    {
        proof {
            lemma_history_grows(self@, bytes@, 2, 2);
        }
        parser_process(&mut self.parser, bytes);
    }
}

/// The bytes of each row.
pub open spec fn bytes_of(rows: Seq<Vec<u8>>) -> Seq<Seq<u8>> {
    Seq::new(rows.len(), |i: int| rows[i]@)
}

/// The rows without the run of empty rows at their end.
pub open spec fn trimmed(rows: Seq<Seq<u8>>) -> Seq<Seq<u8>>
    decreases rows.len(),
{
    if rows.len() > 0 && rows.last().len() == 0 {
        trimmed(rows.drop_last())
    } else {
        rows
    }
}

/// What trimming keeps: a prefix of the rows that is empty or ends in a row
/// with content, and such that every row it leaves out is empty.
pub proof fn lemma_trimmed(rows: Seq<Seq<u8>>)
    ensures
        trimmed(rows).len() <= rows.len(),
        trimmed(rows) == rows.take(trimmed(rows).len() as int),
        trimmed(rows).len() > 0 ==> trimmed(rows).last().len() > 0,
        forall|i: int| trimmed(rows).len() <= i < rows.len() ==> (#[trigger] rows[i]).len() == 0,
    decreases rows.len(),
{
    if rows.len() > 0 && rows.last().len() == 0 {
        let shorter = rows.drop_last();
        lemma_trimmed(shorter);
        let kept = trimmed(shorter).len() as int;
        assert(shorter.take(kept) =~= rows.take(kept));
        assert forall|i: int| kept <= i < rows.len() implies (#[trigger] rows[i]).len() == 0 by {
            if i < shorter.len() {
                assert(shorter[i] == rows[i]);
            }
        }
    } else {
        assert(rows.take(rows.len() as int) =~= rows);
    }
}

/// A point-in-time picture of a shell's screen: the rows that hold
/// something, top to bottom, and the cursor as `(column, row)`, both counted
/// from zero.
#[derive(Debug, PartialEq, Eq)]
pub struct ShellBuffer {
    pub rows: Vec<Vec<u8>>,
    pub cursor: (u16, u16),
}

impl Clone for ShellBuffer {
    fn clone(&self) -> (copy: ShellBuffer)
        ensures
            copy.lines() == self.lines(),
            copy.cursor == self.cursor,
    {
        let mut rows: Vec<Vec<u8>> = Vec::new();
        let mut i: usize = 0;
        while i < self.rows.len()
            invariant
                i <= self.rows@.len(),
                rows@.len() == i,
                forall|j: int| 0 <= j < i ==> (#[trigger] rows@[j])@ == self.rows@[j]@,
            decreases self.rows@.len() - i,
        {
            rows.push(vstd::slice::slice_to_vec(self.rows[i].as_slice()));
            i = i + 1;
        }
        assert(bytes_of(rows@) =~= bytes_of(self.rows@));
        ShellBuffer { rows, cursor: (self.cursor.0, self.cursor.1) }
    }
}

impl ShellBuffer {
    /// The rows as byte strings.
    pub open spec fn lines(&self) -> Seq<Seq<u8>> {
        bytes_of(self.rows@)
    }

    /// The snapshot for a screen that renders as `rows` and whose cursor
    /// stands at `position`, given as `(row, column)`: the trailing empty rows
    /// are dropped and the cursor is turned into `(column, row)`.
    pub fn from_screen(rows: Vec<Vec<u8>>, position: (u16, u16)) -> (buffer: ShellBuffer)
        ensures
            buffer.lines() == trimmed(bytes_of(rows@)),
            buffer.cursor == (position.1, position.0),
    {
        ShellBuffer { rows: trim_trailing_empty(rows), cursor: (position.1, position.0) }
    }
}

/// Drops the contiguous run of empty rows at the end.
pub fn trim_trailing_empty(rows: Vec<Vec<u8>>) -> (kept: Vec<Vec<u8>>)
    ensures
        bytes_of(kept@) == trimmed(bytes_of(rows@)),
{
    let mut kept = rows;
    while kept.len() > 0 && kept[kept.len() - 1].len() == 0
        invariant
            trimmed(bytes_of(kept@)) == trimmed(bytes_of(rows@)),
        decreases kept.len(),
    {
        let ghost before = kept@;
        kept.pop();
        assert(bytes_of(kept@) =~= bytes_of(before).drop_last());
    }
    kept
}

/// The rows of a snapshot taken at the given width of a mirror with the
/// given history.
pub open spec fn snapshot_rows(inputs: Seq<MirrorInput>, width: u16) -> Seq<Seq<u8>> {
    trimmed(formatted_rows(inputs, width))
}

/// The cursor of a snapshot of a mirror with the given history, as
/// `(column, row)`.
pub open spec fn snapshot_cursor(inputs: Seq<MirrorInput>) -> (u16, u16) {
    (cursor_position(inputs).1, cursor_position(inputs).0)
}

impl TerminalMirror {
    /// The current screen: each row formatted up to `cols` columns, the
    /// trailing empty rows dropped, and the cursor. The snapshot has no more
    /// rows than the grid, and its cursor stands on a row of the grid, in one
    /// of its columns or just past the last.
    pub fn snapshot(&self, cols: u16) -> (buffer: ShellBuffer)
        requires
            self.wf(),
        ensures
            buffer.lines() == snapshot_rows(self@, cols),
            buffer.cursor == snapshot_cursor(self@),
            buffer.lines().len() <= last_geometry(self@).0,
            buffer.cursor.1 < last_geometry(self@).0,
            buffer.cursor.0 <= last_geometry(self@).1,
    {
        let rows = parser_rows_formatted(&self.parser, cols);
        let position = parser_cursor_position(&self.parser);
        proof {
            lemma_trimmed(bytes_of(rows@));
        }
        ShellBuffer::from_screen(rows, position)
    }
}

} // verus!
