//! The audio bloom effect's keyboard geometry and frame delivery.
//!
//! The keyboard is drawn as a mirrored equaliser: bass at the centre columns,
//! treble at both edges, six rows mirrored about a horizontal axis and a bass
//! bar along the bottom row. A frame is a row-major grid of colours; only the
//! rows that moved since the last frame are sent, with a periodic full
//! refresh. The effect owns the keyboard only while it is active, and each
//! start or stop opens a new generation so a worker left over from an earlier
//! run can tell that it has been superseded.

use vstd::prelude::*;

verus! {

/// Rows the lighting protocol addresses.
pub const MATRIX_ROWS: usize = 7;
/// Columns the lighting protocol addresses at most.
pub const MATRIX_COLUMNS: usize = 19;
/// Rows making up the mirrored equaliser; the last row carries the bar.
pub const VISUALIZER_ROWS: usize = 6;
/// Rows in each quadrant; the mirror axis sits below the third row.
pub const QUADRANT_ROWS: usize = 3;
/// The row carrying the bass bar.
pub const BAR_ROW: usize = 6;
/// Width of the block of keys at the centre that mirrors the bar.
pub const CENTRE_BLOCK_WIDTH: usize = 4;
/// Height of that block; it straddles the mirror axis.
pub const CENTRE_BLOCK_HEIGHT: usize = 2;
/// Every this many frames all rows are sent, changed or not.
pub const FULL_REFRESH_FRAMES: u64 = 30;
/// Frames that may wait on the device before the effect starts skipping.
pub const MAX_FRAMES_IN_FLIGHT: u32 = 2;
/// The seed of the side-picking generator.
pub const RNG_SEED: u32 = 0x9E37_79B9;
/// Largest width (and column) accepted: up to it a column's distance from
/// the centre is exact in single precision, so the band agrees with one
/// measured in floating point.
pub const EXACT_COLUMN_LIMIT: usize = 0x80_0000;

/// One key's colour.
#[derive(Clone, Copy, Debug, Default, PartialEq, Eq, Structural)]
pub struct ThemeColor {
    pub r: u8,
    pub g: u8,
    pub b: u8,
}

impl ThemeColor {
    pub fn new(r: u8, g: u8, b: u8) -> (color: Self)
        ensures
            color == (ThemeColor { r, g, b }),
    {
        ThemeColor { r, g, b }
    }
}

// -- Column geometry ----------------------------------------------------------

/// How many bands fit across half the keyboard: half the columns, rounded up,
/// since an odd width has a single shared centre column.
pub open spec fn spec_band_count(columns: int) -> int {
    (columns + 1) / 2
}

pub fn band_count(columns: usize) -> (bands: usize)
    ensures
        bands == spec_band_count(columns as int),
{
    columns / 2 + columns % 2
}

/// Twice a column's distance from the keyboard's centre line.
pub open spec fn twice_distance(column: int, columns: int) -> int {
    let offset = 2 * column - (columns - 1);
    if offset < 0 { -offset } else { offset }
}

/// The band a column shows: its whole distance from the centre line, capped at
/// the highest band. 0 at the centre, rising towards both edges.
pub open spec fn spec_band_for_column(column: int, columns: int) -> int {
    let band = twice_distance(column, columns) / 2;
    let top = spec_band_count(columns) - 1;
    if band < top { band } else { top }
}

pub fn band_for_column(column: usize, columns: usize) -> (band: usize)
    requires
        1 <= columns <= EXACT_COLUMN_LIMIT,
        column <= EXACT_COLUMN_LIMIT,
    ensures
        band == spec_band_for_column(column as int, columns as int),
{
    let twice: usize = 2 * column;
    let centre: usize = columns - 1;
    let distance: usize = if twice >= centre { twice - centre } else { centre - twice };
    let band = distance / 2;
    let top = band_count(columns) - 1;
    if band < top {
        band
    } else {
        top
    }
}

/// The two halves of the keyboard mirror each other: a column and its
/// reflection about the centre line show the same band.
pub proof fn columns_mirror(column: int, columns: int)
    requires
        1 <= columns,
        0 <= column < columns,
    ensures
        spec_band_for_column(column, columns) == spec_band_for_column(columns - 1 - column, columns),
{
}

/// Both edges carry the highest band and the centre column the bass band.
pub proof fn edges_and_centre(columns: int)
    requires
        1 <= columns,
    ensures
        spec_band_for_column(0, columns) == spec_band_count(columns) - 1,
        spec_band_for_column(columns - 1, columns) == spec_band_count(columns) - 1,
        spec_band_for_column(columns / 2, columns) == 0,
{
}

/// Moving out from the centre the band never falls.
pub proof fn bands_rise_from_the_centre(near: int, far: int, columns: int)
    requires
        1 <= columns,
        columns / 2 <= near <= far < columns,
    ensures
        spec_band_for_column(near, columns) <= spec_band_for_column(far, columns),
{
}

/// Every band is shown: band `b` sits `b` columns right of the centre column.
pub proof fn every_band_is_drawn(band: int, columns: int)
    requires
        1 <= columns,
        0 <= band < spec_band_count(columns),
    ensures
        columns / 2 + band < columns,
        spec_band_for_column(columns / 2 + band, columns) == band,
{
}

/// The columns the centre block spans, as `(start, end)` with `end` exclusive:
/// centred on an even width, half a column left of centre on an odd one.
pub open spec fn spec_centre_block_columns(columns: int) -> (int, int) {
    let spare = if columns >= CENTRE_BLOCK_WIDTH { columns - CENTRE_BLOCK_WIDTH } else { 0 };
    let start = spare / 2;
    let end = if start + CENTRE_BLOCK_WIDTH < columns { start + CENTRE_BLOCK_WIDTH } else { columns };
    (start, end)
}

/// The centre block never runs off the keyboard, spans its full width
/// whenever the keyboard is that wide, and sits exactly on the centre line of
/// an even width.
pub proof fn the_centre_block_fits_and_is_centred(columns: int)
    requires
        columns >= 1,
    ensures
        spec_centre_block_columns(columns).0 <= spec_centre_block_columns(columns).1 <= columns,
        columns >= CENTRE_BLOCK_WIDTH ==> spec_centre_block_columns(columns).1
            - spec_centre_block_columns(columns).0 == CENTRE_BLOCK_WIDTH,
        columns >= CENTRE_BLOCK_WIDTH && columns % 2 == 0 ==> spec_centre_block_columns(columns).0
            + spec_centre_block_columns(columns).1 - 1 == columns - 1,
{
}

pub fn centre_block_columns(columns: usize) -> (span: (usize, usize))
    ensures
        span.0 == spec_centre_block_columns(columns as int).0,
        span.1 == spec_centre_block_columns(columns as int).1,
{
    let start = columns.saturating_sub(CENTRE_BLOCK_WIDTH) / 2;
    let end = if start + CENTRE_BLOCK_WIDTH < columns { start + CENTRE_BLOCK_WIDTH } else { columns };
    (start, end)
}

/// Whether a key belongs to the centre block: the rows either side of the
/// mirror axis, within the block's columns.
pub open spec fn spec_in_centre_block(row: int, column: int, columns: int) -> bool {
    let half = CENTRE_BLOCK_HEIGHT / 2;
    let span = spec_centre_block_columns(columns);
    &&& QUADRANT_ROWS - half <= row < QUADRANT_ROWS + half
    &&& span.0 <= column < span.1
}

pub fn in_centre_block(row: usize, column: usize, columns: usize) -> (inside: bool)
    ensures
        inside == spec_in_centre_block(row as int, column as int, columns as int),
{
    let half = CENTRE_BLOCK_HEIGHT / 2;
    let (start, end) = centre_block_columns(columns);
    QUADRANT_ROWS - half <= row && row < QUADRANT_ROWS + half && start <= column && column < end
}

/// Whether a key is lit, given each band's lit rows above and below the axis
/// and how many columns of the bar are lit. Bands grow outward from the axis.
pub open spec fn spec_is_key_lit(
    row: int,
    column: int,
    band_rows: Seq<(usize, usize)>,
    bar: int,
    columns: int,
) -> bool {
    if row == BAR_ROW {
        column < bar
    } else if row >= VISUALIZER_ROWS {
        false
    } else {
        let rows = band_rows[spec_band_for_column(column, columns)];
        if row < QUADRANT_ROWS {
            QUADRANT_ROWS - 1 - row < rows.0
        } else {
            row - QUADRANT_ROWS < rows.1
        }
    }
}

pub fn is_key_lit(
    row: usize,
    column: usize,
    band_rows: &[(usize, usize)],
    bar: usize,
    columns: usize,
) -> (lit: bool)
    requires
        1 <= columns <= EXACT_COLUMN_LIMIT,
        column <= EXACT_COLUMN_LIMIT,
        band_rows@.len() == spec_band_count(columns as int),
    ensures
        lit == spec_is_key_lit(row as int, column as int, band_rows@, bar as int, columns as int),
{
    if row == BAR_ROW {
        return column < bar;
    }
    if row >= VISUALIZER_ROWS {
        return false;
    }
    let (top_rows, bottom_rows) = band_rows[band_for_column(column, columns)];
    if row < QUADRANT_ROWS {
        QUADRANT_ROWS - 1 - row < top_rows
    } else {
        row - QUADRANT_ROWS < bottom_rows
    }
}

/// The keys above, below, left and right of a key, in that order, leaving out
/// those that fall off the matrix.
pub open spec fn spec_neighbours(row: int, column: int, columns: int) -> Seq<(usize, usize)> {
    let inside = |r: int, c: int| 0 <= r < MATRIX_ROWS && 0 <= c < columns;
    let up = if inside(row - 1, column) { seq![((row - 1) as usize, column as usize)] } else { seq![] };
    let down = if inside(row + 1, column) { seq![((row + 1) as usize, column as usize)] } else { seq![] };
    let left = if inside(row, column - 1) { seq![(row as usize, (column - 1) as usize)] } else { seq![] };
    let right = if inside(row, column + 1) { seq![(row as usize, (column + 1) as usize)] } else { seq![] };
    up + down + left + right
}

pub fn neighbours(row: usize, column: usize, columns: usize) -> (keys: Vec<(usize, usize)>)
    requires
        row < i32::MAX,
        column < i32::MAX,
        columns <= i32::MAX,
    ensures
        keys@ == spec_neighbours(row as int, column as int, columns as int),
{
    let mut keys: Vec<(usize, usize)> = Vec::new();
    if row >= 1 && row - 1 < MATRIX_ROWS && column < columns {
        keys.push((row - 1, column));
    }
    if row + 1 < MATRIX_ROWS && column < columns {
        keys.push((row + 1, column));
    }
    if row < MATRIX_ROWS && column >= 1 && column - 1 < columns {
        keys.push((row, column - 1));
    }
    if row < MATRIX_ROWS && column + 1 < columns {
        keys.push((row, column + 1));
    }
    proof {
        let spec_up = spec_neighbours(row as int, column as int, columns as int);
        assert(keys@ =~= spec_up);
    }
    keys
}

// -- Side picking ---------------------------------------------------------------

/// One xorshift32 step.
pub open spec fn xorshift32(x: u32) -> u32 {
    let a = x ^ (x << 13u32);
    let b = a ^ (a >> 17u32);
    b ^ (b << 5u32)
}

/// The scatter used to pick which side of the mirror shows a half row.
#[derive(Clone, Copy, Debug, PartialEq, Eq, Structural)]
pub struct BloomRng {
    pub state: u32,
}

impl BloomRng {
    pub fn new() -> (rng: Self)
        ensures
            rng.state == RNG_SEED,
    {
        BloomRng { state: RNG_SEED }
    }

    pub fn next_random(&mut self) -> (value: u32)
        ensures
            value == xorshift32(old(self).state),
            final(self).state == value,
    {
        let mut x = self.state;
        x = x ^ (x << 13u32);
        x = x ^ (x >> 17u32);
        x = x ^ (x << 5u32);
        self.state = x;
        x
    }
}

// -- Frame delivery ---------------------------------------------------------------

/// Whether row `row` of `frame` is to be sent: always on a full refresh, and
/// otherwise when it was not sent before or its colours moved.
pub open spec fn row_changed(
    frame: Seq<Vec<ThemeColor>>,
    previous: Seq<Vec<ThemeColor>>,
    full_refresh: bool,
    row: int,
) -> bool {
    full_refresh || row >= previous.len() || previous[row]@ != frame[row]@
}

/// The rows among the first `n` of `frame` that are to be sent, in order,
/// each with its index.
pub open spec fn changed_rows_upto(
    frame: Seq<Vec<ThemeColor>>,
    previous: Seq<Vec<ThemeColor>>,
    full_refresh: bool,
    n: int,
) -> Seq<(u8, Seq<ThemeColor>)>
    decreases n,
{
    if n <= 0 {
        seq![]
    } else {
        let before = changed_rows_upto(frame, previous, full_refresh, n - 1);
        if row_changed(frame, previous, full_refresh, n - 1) {
            before.push(((n - 1) as u8, frame[n - 1]@))
        } else {
            before
        }
    }
}

/// The rows of `frame` that are to be sent.
pub open spec fn spec_changed_rows(
    frame: Seq<Vec<ThemeColor>>,
    previous: Seq<Vec<ThemeColor>>,
    full_refresh: bool,
) -> Seq<(u8, Seq<ThemeColor>)> {
    changed_rows_upto(frame, previous, full_refresh, frame.len() as int)
}

/// The rows as sent, each row by its colours.
pub open spec fn sent_view(rows: Seq<(u8, Vec<ThemeColor>)>) -> Seq<(u8, Seq<ThemeColor>)> {
    rows.map_values(|entry: (u8, Vec<ThemeColor>)| (entry.0, entry.1@))
}

fn same_colors(a: &Vec<ThemeColor>, b: &Vec<ThemeColor>) -> (same: bool)
    ensures
        same == (a@ == b@),
{
    if a.len() != b.len() {
        return false;
    }
    let mut i: usize = 0;
    while i < a.len()
        invariant
            a.len() == b.len(),
            i <= a.len(),
            forall|k: int| 0 <= k < i ==> a@[k] == b@[k],
        decreases a.len() - i,
    {
        if a[i] != b[i] {
            return false;
        }
        i += 1;
    }
    assert(a@ =~= b@);
    true
}

fn copy_colors(row: &Vec<ThemeColor>) -> (copy: Vec<ThemeColor>)
    ensures
        copy@ == row@,
{
    let mut copy: Vec<ThemeColor> = Vec::new();
    let mut i: usize = 0;
    while i < row.len()
        invariant
            i <= row.len(),
            copy@ =~= row@.take(i as int),
        decreases row.len() - i,
    {
        copy.push(row[i]);
        i += 1;
        assert(copy@ =~= row@.take(i as int));
    }
    assert(row@.take(row.len() as int) =~= row@);
    copy
}

/// Picks out the rows whose colours moved since the last frame, or every row
/// on a full refresh, each with its row number.
pub fn changed_rows(
    frame: &[Vec<ThemeColor>],
    previous: &[Vec<ThemeColor>],
    full_refresh: bool,
) -> (rows: Vec<(u8, Vec<ThemeColor>)>)
    ensures
        sent_view(rows@) == spec_changed_rows(frame@, previous@, full_refresh),
{
    let mut rows: Vec<(u8, Vec<ThemeColor>)> = Vec::new();
    let mut row: usize = 0;
    while row < frame.len()
        invariant
            row <= frame@.len(),
            sent_view(rows@) == changed_rows_upto(frame@, previous@, full_refresh, row as int),
        decreases frame@.len() - row,
    {
        let changed = full_refresh || row >= previous.len() || !same_colors(&previous[row], &frame[row]);
        if changed {
            let colors = copy_colors(&frame[row]);
            let index: u8 = (row % 256) as u8;
            assert(index == row as u8) by (bit_vector)
                requires
                    index == (row % 256) as u8,
            ;
            let ghost before = rows@;
            rows.push((index, colors));
            proof {
                assert(sent_view(rows@) =~= sent_view(before).push((row as u8, frame@[row as int]@)));
            }
        }
        row += 1;
    }
    rows
}

proof fn lemma_sent_rows(
    frame: Seq<Vec<ThemeColor>>,
    previous: Seq<Vec<ThemeColor>>,
    full_refresh: bool,
    n: int,
)
    requires
        0 <= n <= frame.len(),
        frame.len() <= 256,
    ensures
        forall|i: int| 0 <= i < changed_rows_upto(frame, previous, full_refresh, n).len() ==> {
            let entry = #[trigger] changed_rows_upto(frame, previous, full_refresh, n)[i];
            &&& (entry.0 as int) < n
            &&& entry.1 == frame[entry.0 as int]@
            &&& row_changed(frame, previous, full_refresh, entry.0 as int)
        },
        forall|r: int| 0 <= r < n && #[trigger] row_changed(frame, previous, full_refresh, r)
            ==> exists|i: int| 0 <= i < changed_rows_upto(frame, previous, full_refresh, n).len()
                && (#[trigger] changed_rows_upto(frame, previous, full_refresh, n)[i]).0 as int == r,
    decreases n,
{
    if n > 0 {
        lemma_sent_rows(frame, previous, full_refresh, n - 1);
        let before = changed_rows_upto(frame, previous, full_refresh, n - 1);
        let out = changed_rows_upto(frame, previous, full_refresh, n);
        assert(((n - 1) as u8) as int == n - 1);
        assert forall|i: int| 0 <= i < before.len() implies #[trigger] out[i] == before[i] by {}
        assert forall|r: int| 0 <= r < n && #[trigger] row_changed(frame, previous, full_refresh, r)
            implies exists|i: int| 0 <= i < out.len() && (#[trigger] out[i]).0 as int == r by {
            if r < n - 1 {
                let i = choose|i: int| 0 <= i < before.len() && (#[trigger] before[i]).0 as int == r;
                assert(out[i] == before[i]);
            } else {
                assert(out[before.len() as int].0 as int == r);
            }
        }
    }
}

/// The rows sent for a frame are exactly those that moved: a row goes out
/// when the frame is a full refresh, when nothing was sent for it before, or
/// when any of its colours differs from what was sent, and never otherwise;
/// each goes out with the frame's colours for it, under its own number.
pub proof fn exactly_the_moved_rows_are_sent(
    frame: Seq<Vec<ThemeColor>>,
    previous: Seq<Vec<ThemeColor>>,
    full_refresh: bool,
    r: int,
)
    requires
        frame.len() <= 256,
        0 <= r < frame.len(),
    ensures
        (exists|i: int| 0 <= i < spec_changed_rows(frame, previous, full_refresh).len()
            && (#[trigger] spec_changed_rows(frame, previous, full_refresh)[i]).0 as int == r)
            <==> (full_refresh || r >= previous.len() || previous[r]@ != frame[r]@),
        forall|i: int| 0 <= i < spec_changed_rows(frame, previous, full_refresh).len()
            ==> (#[trigger] spec_changed_rows(frame, previous, full_refresh)[i]).1
            == frame[spec_changed_rows(frame, previous, full_refresh)[i].0 as int]@,
{
    let out = spec_changed_rows(frame, previous, full_refresh);
    lemma_sent_rows(frame, previous, full_refresh, frame.len() as int);
    assert(row_changed(frame, previous, full_refresh, r) == (full_refresh || r >= previous.len()
        || previous[r]@ != frame[r]@));
    if exists|i: int| 0 <= i < out.len() && (#[trigger] out[i]).0 as int == r {
        let i = choose|i: int| 0 <= i < out.len() && (#[trigger] out[i]).0 as int == r;
        assert(row_changed(frame, previous, full_refresh, out[i].0 as int));
    }
}

/// On a full refresh every row is sent, in order.
pub proof fn a_full_refresh_resends_every_row(
    frame: Seq<Vec<ThemeColor>>,
    previous: Seq<Vec<ThemeColor>>,
    n: int,
)
    requires
        0 <= n <= frame.len(),
    ensures
        changed_rows_upto(frame, previous, true, n).len() == n,
        forall|i: int| 0 <= i < n ==> #[trigger] changed_rows_upto(frame, previous, true, n)[i]
            == (i as u8, frame[i]@),
    decreases n,
{
    if n > 0 {
        a_full_refresh_resends_every_row(frame, previous, n - 1);
    }
}

/// A frame identical to the one sent before costs nothing.
pub proof fn an_unchanged_frame_sends_nothing(
    frame: Seq<Vec<ThemeColor>>,
    previous: Seq<Vec<ThemeColor>>,
    n: int,
)
    requires
        0 <= n <= frame.len(),
        frame.len() <= previous.len(),
        forall|i: int| 0 <= i < frame.len() ==> #[trigger] previous[i]@ == frame[i]@,
    ensures
        changed_rows_upto(frame, previous, false, n).len() == 0,
    decreases n,
{
    if n > 0 {
        an_unchanged_frame_sends_nothing(frame, previous, n - 1);
    }
}

/// The rows of the last frame handed over, and how many frames have been.
pub struct BloomFrames {
    pub previous: Vec<Vec<ThemeColor>>,
    pub frames: u64,
}

/// What to send for one frame: the rows to write and whether this was a full
/// refresh. Nothing is sent when `rows` is empty.
pub struct FrameRows {
    pub rows: Vec<(u8, Vec<ThemeColor>)>,
    pub full_refresh: bool,
}

impl BloomFrames {
    pub fn new() -> (frames: Self)
        ensures
            frames.previous@.len() == 0,
            frames.frames == 0,
    {
        BloomFrames { previous: Vec::new(), frames: 0 }
    }

    /// Takes a rendered frame: every `FULL_REFRESH_FRAMES`-th frame, from the
    /// first, is a full refresh; otherwise only changed rows go out. The frame
    /// becomes the one the next is compared with.
    pub fn next_frame(&mut self, frame: Vec<Vec<ThemeColor>>) -> (out: FrameRows)
        requires
            old(self).frames < u64::MAX,
        ensures
            out.full_refresh == (old(self).frames % FULL_REFRESH_FRAMES == 0),
            sent_view(out.rows@) == spec_changed_rows(frame@, old(self).previous@, out.full_refresh),
            final(self).previous@ == frame@,
            final(self).frames == old(self).frames + 1,
    {
        let full_refresh = self.frames % FULL_REFRESH_FRAMES == 0;
        let rows = changed_rows(frame.as_slice(), self.previous.as_slice(), full_refresh);
        self.previous = frame;
        self.frames = self.frames + 1;
        FrameRows { rows, full_refresh }
    }
}

// -- Lifecycle ----------------------------------------------------------------------

/// Whether the effect owns the keyboard, which run is current, and how many
/// frames wait on the device.
#[derive(Clone, Copy, Debug, Default, PartialEq, Eq, Structural)]
pub struct AudioBloomEffect {
    pub active: bool,
    pub generation: u32,
    pub frames_in_flight: u32,
}

impl AudioBloomEffect {
    pub fn new() -> (effect: Self)
        ensures
            effect == (AudioBloomEffect { active: false, generation: 0, frames_in_flight: 0 }),
    {
        AudioBloomEffect { active: false, generation: 0, frames_in_flight: 0 }
    }

    /// Stops any earlier run, then takes the keyboard with an empty queue
    /// under a new generation, which is returned for the new run to hold.
    pub fn start(&mut self) -> (generation: u32)
        ensures
            final(self).active,
            final(self).frames_in_flight == 0,
            final(self).generation == old(self).generation.wrapping_add(1).wrapping_add(1),
            generation == final(self).generation,
    {
        self.stop();
        self.frames_in_flight = 0;
        self.active = true;
        self.generation = self.generation.wrapping_add(1);
        self.generation
    }

    /// Gives up the keyboard before anything else, so frames still queued are
    /// dropped rather than drawn, and retires the running generation.
    pub fn stop(&mut self)
        ensures
            !final(self).active,
            final(self).generation == old(self).generation.wrapping_add(1),
            final(self).generation != old(self).generation,
            final(self).frames_in_flight == old(self).frames_in_flight,
    {
        self.active = false;
        self.generation = self.generation.wrapping_add(1);
    }

    /// Whether queued frames should still be drawn.
    pub fn is_active(&self) -> (active: bool)
        ensures
            active == self.active,
    {
        self.active
    }

    /// Whether the run holding `generation` is still the current one.
    pub fn is_current(&self, generation: u32) -> (current: bool)
        ensures
            current == (generation == self.generation),
    {
        generation == self.generation
    }

    /// Whether a new frame may be rendered and queued now.
    pub fn may_queue_frame(&self) -> (may: bool)
        ensures
            may == (self.frames_in_flight < MAX_FRAMES_IN_FLIGHT),
    {
        self.frames_in_flight < MAX_FRAMES_IN_FLIGHT
    }

    /// Counts a frame handed to the device.
    pub fn frame_queued(&mut self)
        requires
            old(self).frames_in_flight < MAX_FRAMES_IN_FLIGHT,
        ensures
            *final(self) == (AudioBloomEffect {
                frames_in_flight: (old(self).frames_in_flight + 1) as u32,
                ..*old(self)
            }),
    {
        self.frames_in_flight = self.frames_in_flight + 1;
    }

    /// Called once the device has written a frame; never counts below zero.
    pub fn frame_written(&mut self)
        ensures
            *final(self) == (AudioBloomEffect {
                frames_in_flight: if old(self).frames_in_flight > 0 {
                    (old(self).frames_in_flight - 1) as u32
                } else {
                    0
                },
                ..*old(self)
            }),
    {
        if self.frames_in_flight > 0 {
            self.frames_in_flight = self.frames_in_flight - 1;
        }
    }
}

/// One tick of the bloom loop once the audio has been analysed and a frame
/// rendered. While the device still has its full quota of frames in flight
/// the frame is dropped and nothing changes; otherwise the frame is taken
/// ([`BloomFrames::next_frame`]) and, when it changed any row, it is counted
/// in flight and its rows are returned for sending.
pub fn bloom_tick(
    effect: &mut AudioBloomEffect,
    frames: &mut BloomFrames,
    frame: Vec<Vec<ThemeColor>>,
) -> (sent: Option<FrameRows>)
    requires
        old(frames).frames < u64::MAX,
    ensures
        old(effect).frames_in_flight >= MAX_FRAMES_IN_FLIGHT ==> {
            &&& sent is None
            &&& *final(effect) == *old(effect)
            &&& final(frames).previous@ == old(frames).previous@
            &&& final(frames).frames == old(frames).frames
        },
        old(effect).frames_in_flight < MAX_FRAMES_IN_FLIGHT ==> {
            let full_refresh = old(frames).frames % FULL_REFRESH_FRAMES == 0;
            let rows = spec_changed_rows(frame@, old(frames).previous@, full_refresh);
            &&& final(frames).previous@ == frame@
            &&& final(frames).frames == old(frames).frames + 1
            &&& rows.len() == 0 ==> sent is None && *final(effect) == *old(effect)
            &&& rows.len() > 0 ==> {
                &&& sent matches Some(out) && out.full_refresh == full_refresh && sent_view(out.rows@)
                    == rows
                &&& *final(effect) == (AudioBloomEffect {
                    frames_in_flight: (old(effect).frames_in_flight + 1) as u32,
                    ..*old(effect)
                })
            }
        },
{
    if !effect.may_queue_frame() {
        return None;
    }
    let out = frames.next_frame(frame);
    assert(sent_view(out.rows@).len() == out.rows@.len());
    if out.rows.len() == 0 {
        return None;
    }
    effect.frame_queued();
    Some(out)
}

} // verus!
