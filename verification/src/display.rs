//! The display: the colours of the platform in RGB565, the adjustment of the
//! column and row address commands for panels whose visible area is offset,
//! the chunking of repeated pixels, and the JD9853 panel's start-up sequence.
use vstd::prelude::*;

verus! {

/// The colours of the platform.
#[derive(Clone, Copy, PartialEq, Eq, Structural, Debug)]
pub enum Color {
    Black,
    Red,
    Green,
    Blue,
    Yellow,
    Magenta,
    Cyan,
    White,
}

/// An RGB565 colour by its channels: red and blue in 0..=31, green in 0..=63.
#[derive(Clone, Copy, PartialEq, Eq, Structural, Debug)]
pub struct Rgb565Color {
    pub r: u8,
    pub g: u8,
    pub b: u8,
}

/// The largest value of the red and blue channels.
pub const MAX_RB: u8 = 31;

/// The largest value of the green channel.
pub const MAX_G: u8 = 63;

/// The RGB565 colour of each platform colour: each channel off or full.
pub open spec fn rgb565_of(color: Color) -> Rgb565Color {
    match color {
        Color::Black => Rgb565Color { r: 0, g: 0, b: 0 },
        Color::Red => Rgb565Color { r: MAX_RB, g: 0, b: 0 },
        Color::Green => Rgb565Color { r: 0, g: MAX_G, b: 0 },
        Color::Blue => Rgb565Color { r: 0, g: 0, b: MAX_RB },
        Color::Yellow => Rgb565Color { r: MAX_RB, g: MAX_G, b: 0 },
        Color::Magenta => Rgb565Color { r: MAX_RB, g: 0, b: MAX_RB },
        Color::Cyan => Rgb565Color { r: 0, g: MAX_G, b: MAX_RB },
        Color::White => Rgb565Color { r: MAX_RB, g: MAX_G, b: MAX_RB },
    }
}

/// The RGB565 colour of a platform colour.
pub fn to_rgb565(color: Color) -> (c: Rgb565Color)
    ensures
        c == rgb565_of(color),
{
    match color {
        Color::Black => Rgb565Color { r: 0, g: 0, b: 0 },
        Color::Red => Rgb565Color { r: MAX_RB, g: 0, b: 0 },
        Color::Green => Rgb565Color { r: 0, g: MAX_G, b: 0 },
        Color::Blue => Rgb565Color { r: 0, g: 0, b: MAX_RB },
        Color::Yellow => Rgb565Color { r: MAX_RB, g: MAX_G, b: 0 },
        Color::Magenta => Rgb565Color { r: MAX_RB, g: 0, b: MAX_RB },
        Color::Cyan => Rgb565Color { r: 0, g: MAX_G, b: MAX_RB },
        Color::White => Rgb565Color { r: MAX_RB, g: MAX_G, b: MAX_RB },
    }
}

// ------------------------------------------------- address window offsets

/// The column address set command (CASET).
pub const CMD_CASET: u8 = 0x2A;

/// The row address set command (RASET).
pub const CMD_RASET: u8 = 0x2B;

/// A coordinate moved by `offset`, saturating at 0 and at 65535.
pub open spec fn shift_coord(v: u16, offset: i16) -> u16 {
    if v + offset > u16::MAX {
        u16::MAX
    } else if v + offset < 0 {
        0
    } else {
        (v + offset) as u16
    }
}

/// The big-endian 16-bit value of two bytes.
pub open spec fn be16(hi: u8, lo: u8) -> u16 {
    (hi * 256 + lo) as u16
}

/// The four bytes (start and end, big-endian) of an address command with both
/// coordinates moved by `offset`.
pub open spec fn shifted_window(args: Seq<u8>, offset: i16) -> Seq<u8> {
    let start = shift_coord(be16(args[0], args[1]), offset);
    let end = shift_coord(be16(args[2], args[3]), offset);
    seq![(start / 256) as u8, (start % 256) as u8, (end / 256) as u8, (end % 256) as u8]
}

/// The offset that applies to a command: the X offset to CASET, the Y
/// offset to RASET, none to any other.
pub open spec fn command_offset(cmd: u8, xoffset: i16, yoffset: i16) -> i16 {
    if cmd == CMD_CASET {
        xoffset
    } else if cmd == CMD_RASET {
        yoffset
    } else {
        0
    }
}

/// The parameter bytes sent after a command: the arguments, with the window
/// moved when an offset applies.
pub open spec fn command_payload_spec(cmd: u8, args: Seq<u8>, xoffset: i16, yoffset: i16) -> Seq<u8> {
    let offset = command_offset(cmd, xoffset, yoffset);
    if offset == 0 {
        args
    } else {
        shifted_window(args, offset)
    }
}

fn shift(v: u16, offset: i16) -> (r: u16)
    requires
        offset != i16::MIN,
    ensures
        r == shift_coord(v, offset),
{
    if offset >= 0 {
        v.saturating_add(offset as u16)
    } else {
        v.saturating_sub((-offset) as u16)
    }
}

/// The parameter bytes to send after a command, or nothing when it has no
/// arguments (then only the command byte is sent). An address command that
/// is moved must carry exactly four argument bytes.
pub fn command_payload(cmd: u8, args: &[u8], xoffset: i16, yoffset: i16) -> (p: Option<Vec<u8>>)
    requires
        args@.len() > 0 && command_offset(cmd, xoffset, yoffset) != 0 ==> args@.len() == 4,
        args@.len() > 0 ==> command_offset(cmd, xoffset, yoffset) != i16::MIN,
    ensures
        args@.len() == 0 ==> p is None,
        args@.len() > 0 ==> (p matches Some(v) && v@ == command_payload_spec(cmd, args@, xoffset, yoffset)),
{
    if args.len() == 0 {
        return None;
    }
    let offset: i16 = if cmd == CMD_CASET {
        xoffset
    } else if cmd == CMD_RASET {
        yoffset
    } else {
        0
    };
    let mut out: Vec<u8> = Vec::new();
    if offset == 0 {
        let mut i: usize = 0;
        while i < args.len()
            invariant
                i <= args@.len(),
                out@ == args@.subrange(0, i as int),
            decreases args@.len() - i,
        {
            out.push(args[i]);
            i = i + 1;
        }
        assert(args@.subrange(0, args@.len() as int) =~= args@);
    } else {
        let start = shift((args[0] as u16) * 256 + args[1] as u16, offset);
        let end = shift((args[2] as u16) * 256 + args[3] as u16, offset);
        out.push((start / 256) as u8);
        out.push((start % 256) as u8);
        out.push((end / 256) as u8);
        out.push((end % 256) as u8);
        assert(out@ =~= shifted_window(args@, offset));
    }
    Some(out)
}

// -------------------------------------------------------- repeated pixels

/// The size of the buffer that repeated pixels are written through.
pub const PIXEL_BUFFER_LEN: usize = 64;

/// `pixel` repeated `n` times.
pub open spec fn repeat_pixel(pixel: Seq<u8>, n: nat) -> Seq<u8>
    decreases n,
{
    if n == 0 {
        Seq::empty()
    } else {
        repeat_pixel(pixel, (n - 1) as nat) + pixel
    }
}

/// How many pixels of `len` bytes one write carries when `remaining` are left.
pub open spec fn chunk_pixels(len: nat, remaining: u32) -> u32 {
    let fit = (PIXEL_BUFFER_LEN as nat / len) as u32;
    if remaining < fit {
        remaining
    } else {
        fit
    }
}

/// The next write of a run of `remaining` equal pixels: as many as fit in the
/// buffer, and how many remain after it.
pub fn repeated_pixel_chunk(pixel: &[u8], remaining: u32) -> (res: (Vec<u8>, u32))
    requires
        1 <= pixel@.len() <= PIXEL_BUFFER_LEN,
    ensures
        res.0@ == repeat_pixel(pixel@, chunk_pixels(pixel@.len(), remaining) as nat),
        res.1 == remaining - chunk_pixels(pixel@.len(), remaining),
        res.0@.len() <= PIXEL_BUFFER_LEN,
        remaining > 0 ==> res.1 < remaining,
{
    let len = pixel.len();
    let fit = (PIXEL_BUFFER_LEN / len) as u32;
    let n = if remaining < fit {
        remaining
    } else {
        fit
    };
    let mut out: Vec<u8> = Vec::new();
    let mut k: u32 = 0;
    while k < n
        invariant
            k <= n,
            n as int <= PIXEL_BUFFER_LEN as int / len as int,
            len == pixel@.len(),
            1 <= len <= PIXEL_BUFFER_LEN,
            out@ == repeat_pixel(pixel@, k as nat),
            out@.len() == k * len,
        decreases n - k,
    {
        let mut j: usize = 0;
        let ghost before = out@;
        while j < len
            invariant
                j <= len,
                len == pixel@.len(),
                out@ == before + pixel@.subrange(0, j as int),
            decreases len - j,
        {
            out.push(pixel[j]);
            j = j + 1;
        }
        assert(pixel@.subrange(0, len as int) =~= pixel@);
        assert((k + 1) * len == k * len + len) by (nonlinear_arith);
        k = k + 1;
        assert(out@ =~= repeat_pixel(pixel@, k as nat));
    }
    assert(n * len <= PIXEL_BUFFER_LEN) by (nonlinear_arith)
        requires
            n as int <= PIXEL_BUFFER_LEN as int / len as int,
            len >= 1,
    ;
    assert(1 <= fit) by (nonlinear_arith)
        requires
            fit == PIXEL_BUFFER_LEN as int / len as int,
            1 <= len <= PIXEL_BUFFER_LEN,
    ;
    (out, remaining - n)
}

} // verus!

verus! {

// ------------------------------------------------- JD9853 start-up sequence

/// One step of a panel's start-up: a command with its parameter bytes, or a
/// pause in nanoseconds.
#[derive(Debug)]
pub enum InitStep {
    Command(u8, Vec<u8>),
    DelayNs(u32),
}

/// A start-up step as data.
pub enum InitStepView {
    Command(u8, Seq<u8>),
    DelayNs(u32),
}

impl InitStep {
    pub open spec fn view(&self) -> InitStepView {
        match self {
            InitStep::Command(c, d) => InitStepView::Command(*c, d@),
            InitStep::DelayNs(n) => InitStepView::DelayNs(*n),
        }
    }
}

/// The start-up sequence of the JD9853 panel: sleep out and a 120 ms pause,
/// the vendor unlock and power, gamma and timing settings, RGB565 pixels, the
/// row range, and display on. The column range is left to the driver.
pub open spec fn jd9853_init_steps() -> Seq<InitStepView> {
    seq![
        InitStepView::Command(0x11, seq![]),
        InitStepView::DelayNs(120_000_000),
        InitStepView::Command(0xDF, seq![0x98u8, 0x53u8]),
        InitStepView::Command(0xDF, seq![0x98u8, 0x53u8]),
        InitStepView::Command(0xB2, seq![0x23u8]),
        InitStepView::Command(0xB7, seq![0x00u8, 0x47u8, 0x00u8, 0x6Fu8]),
        InitStepView::Command(0xBB, seq![0x1Cu8, 0x1Au8, 0x55u8, 0x73u8, 0x63u8, 0xF0u8]),
        InitStepView::Command(0xC0, seq![0x44u8, 0xA4u8]),
        InitStepView::Command(0xC1, seq![0x16u8]),
        InitStepView::Command(0xC3, seq![0x7Du8, 0x07u8, 0x14u8, 0x06u8, 0xCFu8, 0x71u8, 0x72u8, 0x77u8]),
        InitStepView::Command(0xC4, seq![0x00u8, 0x00u8, 0xA0u8, 0x79u8, 0x0Bu8, 0x0Au8, 0x16u8, 0x79u8, 0x0Bu8, 0x0Au8, 0x16u8, 0x82u8]),
        InitStepView::Command(0xC8, seq![0x3Fu8, 0x32u8, 0x29u8, 0x29u8, 0x27u8, 0x2Bu8, 0x27u8, 0x28u8, 0x28u8, 0x26u8, 0x25u8, 0x17u8, 0x12u8, 0x0Du8, 0x04u8, 0x00u8, 0x3Fu8, 0x32u8, 0x29u8, 0x29u8, 0x27u8, 0x2Bu8, 0x27u8, 0x28u8, 0x28u8, 0x26u8, 0x25u8, 0x17u8, 0x12u8, 0x0Du8, 0x04u8, 0x00u8]),
        InitStepView::Command(0xD0, seq![0x04u8, 0x06u8, 0x6Bu8, 0x0Fu8, 0x00u8]),
        InitStepView::Command(0xD7, seq![0x00u8, 0x30u8]),
        InitStepView::Command(0xE6, seq![0x14u8]),
        InitStepView::Command(0xDE, seq![0x01u8]),
        InitStepView::Command(0xB7, seq![0x03u8, 0x13u8, 0xEFu8, 0x35u8, 0x35u8]),
        InitStepView::Command(0xC1, seq![0x14u8, 0x15u8, 0xC0u8]),
        InitStepView::Command(0xC2, seq![0x06u8, 0x3Au8]),
        InitStepView::Command(0xC4, seq![0x72u8, 0x12u8]),
        InitStepView::Command(0xBE, seq![0x00u8]),
        InitStepView::Command(0xDE, seq![0x02u8]),
        InitStepView::Command(0xE5, seq![0x00u8, 0x02u8, 0x00u8]),
        InitStepView::Command(0xE5, seq![0x01u8, 0x02u8, 0x00u8]),
        InitStepView::Command(0xDE, seq![0x00u8]),
        InitStepView::Command(0x35, seq![0x00u8]),
        InitStepView::Command(0x3A, seq![0x05u8]),
        InitStepView::Command(0x2B, seq![0x00u8, 0x00u8, 0x01u8, 0x3Fu8]),
        InitStepView::Command(0x29, seq![]),
    ]
}

fn bytes_of(s: &[u8]) -> (v: Vec<u8>)
    ensures
        v@ == s@,
{
    let mut v: Vec<u8> = Vec::new();
    let mut i: usize = 0;
    while i < s.len()
        invariant
            i <= s@.len(),
            v@ == s@.subrange(0, i as int),
        decreases s@.len() - i,
    {
        v.push(s[i]);
        i = i + 1;
    }
    assert(s@.subrange(0, s@.len() as int) =~= s@);
    v
}

/// The start-up sequence of the JD9853 panel.
pub fn jd9853_init() -> (steps: Vec<InitStep>)
    ensures
        steps@.map_values(|s: InitStep| s.view()) == jd9853_init_steps(),
{
    let mut steps: Vec<InitStep> = Vec::new();
    steps.push(InitStep::Command(0x11, Vec::new()));
    steps.push(InitStep::DelayNs(120_000_000));
    let d: [u8; 2] = [0x98, 0x53];
    assert(d@ =~= seq![0x98u8, 0x53u8]);
    steps.push(InitStep::Command(0xDF, bytes_of(&d)));
    let d: [u8; 2] = [0x98, 0x53];
    assert(d@ =~= seq![0x98u8, 0x53u8]);
    steps.push(InitStep::Command(0xDF, bytes_of(&d)));
    let d: [u8; 1] = [0x23];
    assert(d@ =~= seq![0x23u8]);
    steps.push(InitStep::Command(0xB2, bytes_of(&d)));
    let d: [u8; 4] = [0x00, 0x47, 0x00, 0x6F];
    assert(d@ =~= seq![0x00u8, 0x47u8, 0x00u8, 0x6Fu8]);
    steps.push(InitStep::Command(0xB7, bytes_of(&d)));
    let d: [u8; 6] = [0x1C, 0x1A, 0x55, 0x73, 0x63, 0xF0];
    assert(d@ =~= seq![0x1Cu8, 0x1Au8, 0x55u8, 0x73u8, 0x63u8, 0xF0u8]);
    steps.push(InitStep::Command(0xBB, bytes_of(&d)));
    let d: [u8; 2] = [0x44, 0xA4];
    assert(d@ =~= seq![0x44u8, 0xA4u8]);
    steps.push(InitStep::Command(0xC0, bytes_of(&d)));
    let d: [u8; 1] = [0x16];
    assert(d@ =~= seq![0x16u8]);
    steps.push(InitStep::Command(0xC1, bytes_of(&d)));
    let d: [u8; 8] = [0x7D, 0x07, 0x14, 0x06, 0xCF, 0x71, 0x72, 0x77];
    assert(d@ =~= seq![0x7Du8, 0x07u8, 0x14u8, 0x06u8, 0xCFu8, 0x71u8, 0x72u8, 0x77u8]);
    steps.push(InitStep::Command(0xC3, bytes_of(&d)));
    let d: [u8; 12] = [0x00, 0x00, 0xA0, 0x79, 0x0B, 0x0A, 0x16, 0x79, 0x0B, 0x0A, 0x16, 0x82];
    assert(d@ =~= seq![0x00u8, 0x00u8, 0xA0u8, 0x79u8, 0x0Bu8, 0x0Au8, 0x16u8, 0x79u8, 0x0Bu8, 0x0Au8, 0x16u8, 0x82u8]);
    steps.push(InitStep::Command(0xC4, bytes_of(&d)));
    let d: [u8; 32] = [0x3F, 0x32, 0x29, 0x29, 0x27, 0x2B, 0x27, 0x28, 0x28, 0x26, 0x25, 0x17, 0x12, 0x0D, 0x04, 0x00, 0x3F, 0x32, 0x29, 0x29, 0x27, 0x2B, 0x27, 0x28, 0x28, 0x26, 0x25, 0x17, 0x12, 0x0D, 0x04, 0x00];
    assert(d@ =~= seq![0x3Fu8, 0x32u8, 0x29u8, 0x29u8, 0x27u8, 0x2Bu8, 0x27u8, 0x28u8, 0x28u8, 0x26u8, 0x25u8, 0x17u8, 0x12u8, 0x0Du8, 0x04u8, 0x00u8, 0x3Fu8, 0x32u8, 0x29u8, 0x29u8, 0x27u8, 0x2Bu8, 0x27u8, 0x28u8, 0x28u8, 0x26u8, 0x25u8, 0x17u8, 0x12u8, 0x0Du8, 0x04u8, 0x00u8]);
    steps.push(InitStep::Command(0xC8, bytes_of(&d)));
    let d: [u8; 5] = [0x04, 0x06, 0x6B, 0x0F, 0x00];
    assert(d@ =~= seq![0x04u8, 0x06u8, 0x6Bu8, 0x0Fu8, 0x00u8]);
    steps.push(InitStep::Command(0xD0, bytes_of(&d)));
    let d: [u8; 2] = [0x00, 0x30];
    assert(d@ =~= seq![0x00u8, 0x30u8]);
    steps.push(InitStep::Command(0xD7, bytes_of(&d)));
    let d: [u8; 1] = [0x14];
    assert(d@ =~= seq![0x14u8]);
    steps.push(InitStep::Command(0xE6, bytes_of(&d)));
    let d: [u8; 1] = [0x01];
    assert(d@ =~= seq![0x01u8]);
    steps.push(InitStep::Command(0xDE, bytes_of(&d)));
    let d: [u8; 5] = [0x03, 0x13, 0xEF, 0x35, 0x35];
    assert(d@ =~= seq![0x03u8, 0x13u8, 0xEFu8, 0x35u8, 0x35u8]);
    steps.push(InitStep::Command(0xB7, bytes_of(&d)));
    let d: [u8; 3] = [0x14, 0x15, 0xC0];
    assert(d@ =~= seq![0x14u8, 0x15u8, 0xC0u8]);
    steps.push(InitStep::Command(0xC1, bytes_of(&d)));
    let d: [u8; 2] = [0x06, 0x3A];
    assert(d@ =~= seq![0x06u8, 0x3Au8]);
    steps.push(InitStep::Command(0xC2, bytes_of(&d)));
    let d: [u8; 2] = [0x72, 0x12];
    assert(d@ =~= seq![0x72u8, 0x12u8]);
    steps.push(InitStep::Command(0xC4, bytes_of(&d)));
    let d: [u8; 1] = [0x00];
    assert(d@ =~= seq![0x00u8]);
    steps.push(InitStep::Command(0xBE, bytes_of(&d)));
    let d: [u8; 1] = [0x02];
    assert(d@ =~= seq![0x02u8]);
    steps.push(InitStep::Command(0xDE, bytes_of(&d)));
    let d: [u8; 3] = [0x00, 0x02, 0x00];
    assert(d@ =~= seq![0x00u8, 0x02u8, 0x00u8]);
    steps.push(InitStep::Command(0xE5, bytes_of(&d)));
    let d: [u8; 3] = [0x01, 0x02, 0x00];
    assert(d@ =~= seq![0x01u8, 0x02u8, 0x00u8]);
    steps.push(InitStep::Command(0xE5, bytes_of(&d)));
    let d: [u8; 1] = [0x00];
    assert(d@ =~= seq![0x00u8]);
    steps.push(InitStep::Command(0xDE, bytes_of(&d)));
    let d: [u8; 1] = [0x00];
    assert(d@ =~= seq![0x00u8]);
    steps.push(InitStep::Command(0x35, bytes_of(&d)));
    let d: [u8; 1] = [0x05];
    assert(d@ =~= seq![0x05u8]);
    steps.push(InitStep::Command(0x3A, bytes_of(&d)));
    let d: [u8; 4] = [0x00, 0x00, 0x01, 0x3F];
    assert(d@ =~= seq![0x00u8, 0x00u8, 0x01u8, 0x3Fu8]);
    steps.push(InitStep::Command(0x2B, bytes_of(&d)));
    steps.push(InitStep::Command(0x29, Vec::new()));
    assert(steps@.map_values(|s: InitStep| s.view()) =~= jd9853_init_steps());
    steps
}

} // verus!

verus! {

/// Moving a coordinate by an offset and back restores it when the first move
/// does not saturate.
pub proof fn law_shift_roundtrip(v: u16, offset: i16)
    requires
        offset != i16::MIN,
        0 <= v + offset <= u16::MAX,
    ensures
        shift_coord(shift_coord(v, offset), (-offset) as i16) == v,
{
}

/// `repeat_pixel` over a sum of counts is the concatenation of the parts.
pub proof fn lemma_repeat_add(pixel: Seq<u8>, a: nat, b: nat)
    ensures
        repeat_pixel(pixel, a) + repeat_pixel(pixel, b) == repeat_pixel(pixel, a + b),
    decreases b,
{
    if b == 0 {
        assert(repeat_pixel(pixel, a) + repeat_pixel(pixel, 0) =~= repeat_pixel(pixel, a));
    } else {
        lemma_repeat_add(pixel, a, (b - 1) as nat);
        assert(repeat_pixel(pixel, a) + repeat_pixel(pixel, b) =~= (repeat_pixel(pixel, a)
            + repeat_pixel(pixel, (b - 1) as nat)) + pixel);
    }
}

/// The bytes that writing a run of `remaining` pixels chunk by chunk sends.
pub open spec fn chunked_run(pixel: Seq<u8>, remaining: u32) -> Seq<u8>
    decreases remaining,
{
    if remaining == 0 || pixel.len() == 0 || pixel.len() > PIXEL_BUFFER_LEN {
        Seq::empty()
    } else {
        let n = chunk_pixels(pixel.len(), remaining);
        if n == 0 {
            Seq::empty()
        } else {
            repeat_pixel(pixel, n as nat) + chunked_run(pixel, (remaining - n) as u32)
        }
    }
}

/// Writing a run chunk by chunk sends the pixel exactly `count` times.
pub proof fn law_chunks_repeat_pixel(pixel: Seq<u8>, count: u32)
    requires
        1 <= pixel.len() <= PIXEL_BUFFER_LEN,
    ensures
        chunked_run(pixel, count) == repeat_pixel(pixel, count as nat),
    decreases count,
{
    if count > 0 {
        let n = chunk_pixels(pixel.len(), count);
        assert(1 <= PIXEL_BUFFER_LEN as nat / pixel.len()) by (nonlinear_arith)
            requires
                1 <= pixel.len() <= PIXEL_BUFFER_LEN,
        ;
        law_chunks_repeat_pixel(pixel, (count - n) as u32);
        lemma_repeat_add(pixel, n as nat, (count - n) as nat);
    } else {
        assert(repeat_pixel(pixel, 0) =~= Seq::<u8>::empty());
    }
}

/// The platform colours map to distinct RGB565 colours.
pub proof fn law_colours_distinct(a: Color, b: Color)
    requires
        a != b,
    ensures
        rgb565_of(a) != rgb565_of(b),
{
}

} // verus!
