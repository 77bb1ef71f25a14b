//! Bookkeeping for reading rendered frames back from the GPU: row padding for
//! buffer copies, stripping that padding again, and the capture toggle that
//! numbers the frames written to disk.

use vstd::prelude::*;
use vstd::string::StringExecFns;

verus! {

/// Alignment that a texture-to-buffer copy requires of `bytes_per_row`.
pub const COPY_BYTES_PER_ROW_ALIGNMENT: u32 = 256;

/// Size in bytes of one RGBA8 pixel.
pub const RGBA_BYTES_PER_PIXEL: u32 = 4;

/// Unpadded length in bytes of one row of RGBA8 pixels.
pub open spec fn spec_unpadded_bytes_per_row(width: u32) -> int {
    4 * width
}

/// Row length rounded up to the copy alignment.
pub open spec fn spec_padded_bytes_per_row(width: u32) -> int {
    let unpadded = spec_unpadded_bytes_per_row(width);
    unpadded + (256 - unpadded % 256) % 256
}

/// Length in bytes of one row of RGBA8 pixels, before any padding.
pub fn unpadded_bytes_per_row(width: u32) -> (r: u32)
    requires
        4 * width <= u32::MAX,
    ensures
        r == spec_unpadded_bytes_per_row(width),
{
    RGBA_BYTES_PER_PIXEL * width
}

/// Row length for a texture-to-buffer copy: the unpadded length rounded up to
/// the next multiple of the copy alignment (the least such multiple).
pub fn padded_bytes_per_row(width: u32) -> (r: u32)
    requires
        4 * width + 255 <= u32::MAX,
    ensures
        r == spec_padded_bytes_per_row(width),
        r % 256 == 0,
        spec_unpadded_bytes_per_row(width) <= r < spec_unpadded_bytes_per_row(width) + 256,
{
    let unpadded = RGBA_BYTES_PER_PIXEL * width;
    let align = COPY_BYTES_PER_ROW_ALIGNMENT;
    let padding = (align - unpadded % align) % align;
    unpadded + padding
}

/// What it means for `out` to be `rows` rows of `unpadded` bytes, each copied
/// from the start of the corresponding `padded`-byte row of `data`: byte `k`
/// of `out` lies in row `k / unpadded` at column `k % unpadded`.
pub open spec fn rows_stripped(
    data: Seq<u8>,
    padded: int,
    unpadded: int,
    rows: int,
    out: Seq<u8>,
) -> bool {
    &&& out.len() == rows * unpadded
    &&& forall|k: int|
        0 <= k < out.len() ==> out[k] == data[(k / unpadded) * padded + (k % unpadded)]
}

/// Drops the copy-alignment padding from a mapped read-back buffer: keeps the
/// first `unpadded_bytes_per_row` bytes of each of the `rows` rows and discards
/// the rest, returning the rows concatenated.
pub fn strip_row_padding(
    data: &Vec<u8>,
    padded_bytes_per_row: usize,
    unpadded_bytes_per_row: usize,
    rows: usize,
) -> (out: Vec<u8>)
    requires
        unpadded_bytes_per_row <= padded_bytes_per_row,
        rows * padded_bytes_per_row <= data@.len(),
    ensures
        rows_stripped(
            data@,
            padded_bytes_per_row as int,
            unpadded_bytes_per_row as int,
            rows as int,
            out@,
        ),
{
    let total: usize = data.len();
    let mut out: Vec<u8> = Vec::new();
    let mut i: usize = 0;
    while i < rows
        invariant
            i <= rows,
            unpadded_bytes_per_row <= padded_bytes_per_row,
            total == data@.len(),
            rows * padded_bytes_per_row <= total,
            out@.len() == i * unpadded_bytes_per_row,
            forall|k: int|
                0 <= k < out@.len() ==> out@[k] == data@[(k / (unpadded_bytes_per_row as int))
                    * padded_bytes_per_row + (k % (unpadded_bytes_per_row as int))],
        decreases rows - i,
    {
        proof {
            lemma_row_bounds(
                i as int,
                rows as int,
                unpadded_bytes_per_row as int,
                padded_bytes_per_row as int,
            );
        }
        let row_start = i * padded_bytes_per_row;
        let mut j: usize = 0;
        while j < unpadded_bytes_per_row
            invariant
                i < rows,
                j <= unpadded_bytes_per_row,
                unpadded_bytes_per_row <= padded_bytes_per_row,
                total == data@.len(),
                row_start == i * padded_bytes_per_row,
                row_start + padded_bytes_per_row <= total,
                out@.len() == i * unpadded_bytes_per_row + j,
                forall|k: int|
                    0 <= k < out@.len() ==> out@[k] == data@[(k / (unpadded_bytes_per_row as int))
                        * padded_bytes_per_row + (k % (unpadded_bytes_per_row as int))],
            decreases unpadded_bytes_per_row - j,
        {
            out.push(data[row_start + j]);
            proof {
                lemma_flat_index(
                    i as int,
                    j as int,
                    unpadded_bytes_per_row as int,
                );
            }
            j = j + 1;
        }
        i = i + 1;
    }
    out
}

/// Position `i * width + j` with `j < width` flattens row `i`, column `j`.
proof fn lemma_flat_index(i: int, j: int, width: int) by (nonlinear_arith)
    requires
        0 <= i,
        0 <= j < width,
    ensures
        (i * width + j) / width == i,
        (i * width + j) % width == j,
{
}

/// For a row index `i < rows`: the row `[i * padded, i * padded + padded)` lies
/// inside a buffer of `rows * padded` bytes, and the output prefix stays in
/// bounds as well.
proof fn lemma_row_bounds(i: int, rows: int, unpadded: int, padded: int) by (nonlinear_arith)
    requires
        0 <= i < rows,
        0 <= unpadded <= padded,
    ensures
        i * padded + padded <= rows * padded,
        i * unpadded + unpadded <= rows * unpadded,
        i * unpadded <= i * padded,
        (i + 1) * unpadded == i * unpadded + unpadded,
{
}

/// Capture toggle of the interactive demos: the space bar starts and stops
/// capturing, and the frame counter at the first start becomes the base that
/// later frame numbers are counted from.
pub struct CaptureState {
    pub is_capturing: bool,
    pub capture_begin_frame: u64,
}

impl CaptureState {
    /// Initially nothing is captured and no base frame is recorded.
    pub fn new() -> (s: CaptureState)
        ensures
            !s.is_capturing,
            s.capture_begin_frame == 0,
    {
        CaptureState { is_capturing: false, capture_begin_frame: 0 }
    }

    /// Flips the capture flag; on the very first start the current frame
    /// counter is remembered, afterwards the old base is kept.
    pub fn toggle(&mut self, elapsed_frames: u64)
        ensures
            final (self).is_capturing == !old(self).is_capturing,
            final (self).capture_begin_frame == if !old(self).is_capturing
                && old(self).capture_begin_frame == 0 {
                elapsed_frames
            } else {
                old(self).capture_begin_frame
            },
    {
        self.is_capturing = !self.is_capturing;
        if self.is_capturing {
            if self.capture_begin_frame == 0 {
                self.capture_begin_frame = elapsed_frames;
            }
        }
    }

    /// Number of the frame about to be written: frames elapsed since capture
    /// began.
    pub fn frame_number(&self, elapsed_frames: u64) -> (n: u64)
        requires
            self.capture_begin_frame <= elapsed_frames,
        ensures
            n == elapsed_frames - self.capture_begin_frame,
    {
        elapsed_frames - self.capture_begin_frame
    }
}

/// Number of bytes in one RGBA frame of a square animation of this size.
pub open spec fn spec_frame_len(size: u16) -> int {
    4 * size * size
}

/// Whether one frame holds exactly the RGBA bytes of a square image of this
/// size — what the animation encoder requires of every frame.
pub fn frame_well_formed(frame: &Vec<u8>, size: u16) -> (r: bool)
    ensures
        r == (frame@.len() == spec_frame_len(size)),
{
    proof {
        assert((size as int) * (size as int) <= 65535 * 65535) by (nonlinear_arith)
            requires
                size <= 65535,
        ;
    }
    let expected: u64 = 4 * ((size as u64) * (size as u64));
    proof {
        assert(4 * ((size as int) * (size as int)) == 4 * (size as int) * (size as int))
            by (nonlinear_arith);
    }
    (frame.len() as u64) == expected
}

/// Whether every queued frame has the RGBA bytes of a square image of this
/// size.
pub fn frames_well_formed(frames: &Vec<Vec<u8>>, size: u16) -> (r: bool)
    ensures
        r == forall|i: int|
            0 <= i < frames@.len() ==> (#[trigger] frames@[i])@.len() == spec_frame_len(size),
{
    let mut i: usize = 0;
    while i < frames.len()
        invariant
            i <= frames@.len(),
            forall|k: int|
                0 <= k < i ==> (#[trigger] frames@[k])@.len() == spec_frame_len(size),
        decreases frames@.len() - i,
    {
        if !frame_well_formed(&frames[i], size) {
            return false;
        }
        i = i + 1;
    }
    true
}

/// Whether a frame delay is one the animation encoder accepts.
pub fn speed_valid(speed: i32) -> (r: bool)
    ensures
        r == (1 <= speed <= 30),
{
    1 <= speed && speed <= 30
}

/// Decimal digit as a character.
pub open spec fn spec_digit(d: int) -> char {
    if d == 0 {
        '0'
    } else if d == 1 {
        '1'
    } else if d == 2 {
        '2'
    } else if d == 3 {
        '3'
    } else if d == 4 {
        '4'
    } else if d == 5 {
        '5'
    } else if d == 6 {
        '6'
    } else if d == 7 {
        '7'
    } else if d == 8 {
        '8'
    } else {
        '9'
    }
}

/// Decimal notation of `n`, most significant digit first, no leading zeros.
pub open spec fn spec_decimal(n: nat) -> Seq<char>
    decreases n,
{
    if n < 10 {
        seq![spec_digit(n as int)]
    } else {
        spec_decimal(n / 10).push(spec_digit((n % 10) as int))
    }
}

/// Decimal notation of `n` left-padded with zeros to at least five characters,
/// the way captured frames are numbered on disk.
pub open spec fn spec_padded5(n: nat) -> Seq<char> {
    if spec_decimal(n).len() >= 5 {
        spec_decimal(n)
    } else {
        Seq::new((5 - spec_decimal(n).len()) as nat, |i: int| '0') + spec_decimal(n)
    }
}

/// Numeric value of a decimal digit character; other characters count as
/// zero.
pub open spec fn digit_value(c: char) -> int {
    if c == '0' {
        0
    } else if c == '1' {
        1
    } else if c == '2' {
        2
    } else if c == '3' {
        3
    } else if c == '4' {
        4
    } else if c == '5' {
        5
    } else if c == '6' {
        6
    } else if c == '7' {
        7
    } else if c == '8' {
        8
    } else if c == '9' {
        9
    } else {
        0
    }
}

/// Numeric value of a digit string, most significant digit first.
pub open spec fn decimal_value(s: Seq<char>) -> int
    decreases s.len(),
{
    if s.len() == 0 {
        0
    } else {
        10 * decimal_value(s.drop_last()) + digit_value(s.last())
    }
}

/// A digit character reads back as the digit it was made from.
proof fn lemma_digit_value(d: int)
    requires
        0 <= d < 10,
    ensures
        digit_value(spec_digit(d)) == d,
{
    if d == 0 {
    } else if d == 1 {
    } else if d == 2 {
    } else if d == 3 {
    } else if d == 4 {
    } else if d == 5 {
    } else if d == 6 {
    } else if d == 7 {
    } else if d == 8 {
    } else {
    }
}

/// Reading the decimal notation of `n` back as a number yields `n`: the
/// rendering loses nothing.
pub proof fn lemma_decimal_round_trip(n: nat)
    ensures
        decimal_value(spec_decimal(n)) == n,
    decreases n,
{
    assert(decimal_value(Seq::<char>::empty()) == 0);
    if n < 10 {
        lemma_digit_value(n as int);
        assert(spec_decimal(n).drop_last() =~= Seq::<char>::empty());
        assert(spec_decimal(n).last() == spec_digit(n as int));
    } else {
        lemma_decimal_round_trip(n / 10);
        lemma_digit_value((n % 10) as int);
        assert(spec_decimal(n).drop_last() =~= spec_decimal(n / 10));
        assert(spec_decimal(n).last() == spec_digit((n % 10) as int));
    }
}

fn digit_str(d: u64) -> (s: &'static str)
    requires
        d < 10,
    ensures
        s@.len() == 1,
        s@[0] == spec_digit(d as int),
{
    proof {
        reveal_strlit("0");
        reveal_strlit("1");
        reveal_strlit("2");
        reveal_strlit("3");
        reveal_strlit("4");
        reveal_strlit("5");
        reveal_strlit("6");
        reveal_strlit("7");
        reveal_strlit("8");
        reveal_strlit("9");
    }
    if d == 0 {
        "0"
    } else if d == 1 {
        "1"
    } else if d == 2 {
        "2"
    } else if d == 3 {
        "3"
    } else if d == 4 {
        "4"
    } else if d == 5 {
        "5"
    } else if d == 6 {
        "6"
    } else if d == 7 {
        "7"
    } else if d == 8 {
        "8"
    } else {
        "9"
    }
}

/// Renders `n` in decimal, the way frame indices appear in file names.
pub fn format_decimal(n: u64) -> (s: String)
    ensures
        s@ == spec_decimal(n as nat),
    decreases n,
{
    if n < 10 {
        let s = String::from_str(digit_str(n));
        proof {
            assert(s@ =~= spec_decimal(n as nat));
        }
        s
    } else {
        let mut s = format_decimal(n / 10);
        s.append(digit_str(n % 10));
        proof {
            assert(s@ =~= spec_decimal(n as nat));
        }
        s
    }
}

/// `spec_decimal(n)` has as many digits as the decimal magnitude of `n`.
proof fn lemma_decimal_len(n: nat)
    ensures
        n < 10 ==> spec_decimal(n).len() == 1,
        10 <= n < 100 ==> spec_decimal(n).len() == 2,
        100 <= n < 1000 ==> spec_decimal(n).len() == 3,
        1000 <= n < 10000 ==> spec_decimal(n).len() == 4,
        10000 <= n ==> spec_decimal(n).len() >= 5,
    decreases n,
{
    if n >= 10 {
        lemma_decimal_len(n / 10);
    }
}

/// Name under which a captured frame is saved: its number zero-padded to five
/// digits, with a `.png` extension.
pub fn capture_file_name(frame_number: u64) -> (s: String)
    ensures
        s@ == spec_padded5(frame_number as nat) + ".png"@,
{
    proof {
        reveal_strlit("");
        reveal_strlit("0");
        reveal_strlit("00");
        reveal_strlit("000");
        reveal_strlit("0000");
        lemma_decimal_len(frame_number as nat);
    }
    let mut s = if frame_number < 10 {
        String::from_str("0000")
    } else if frame_number < 100 {
        String::from_str("000")
    } else if frame_number < 1000 {
        String::from_str("00")
    } else if frame_number < 10000 {
        String::from_str("0")
    } else {
        String::from_str("")
    };
    let digits = format_decimal(frame_number);
    s.append(digits.as_str());
    s.append(".png");
    proof {
        assert(s@ =~= spec_padded5(frame_number as nat) + ".png"@);
    }
    s
}

/// Name under which a numbered offline render is saved.
pub fn image_file_name(index: u64) -> (s: String)
    ensures
        s@ == "image_"@ + spec_decimal(index as nat) + ".png"@,
{
    let mut s = String::from_str("image_");
    let digits = format_decimal(index);
    s.append(digits.as_str());
    s.append(".png");
    proof {
        assert(s@ =~= "image_"@ + spec_decimal(index as nat) + ".png"@);
    }
    s
}

} // verus!
