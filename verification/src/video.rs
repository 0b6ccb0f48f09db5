//! The video sink's bookkeeping, and the exact RGBA-to-YUV conversion the
//! encoder is fed with.
//!
//! The sink itself (container, codec, file output) lives outside the
//! library; here its observable state is tracked: whether a stream is open,
//! its geometry and rate, and the presentation timestamp counter that
//! advances once per written frame.

use vstd::prelude::*;

verus! {

use vstd::arithmetic::div_mod::{lemma_div_is_ordered, lemma_div_multiples_vanish};

/// The geometry and rate a video stream was opened with.
#[derive(Clone, Debug)]
pub struct VideoConfig {
    pub path: String,
    pub fps: i32,
    pub width: i32,
    pub height: i32,
}

/// The state of the video sink.
pub struct Video {
    /// Whether a stream is open and frames are being accepted.
    pub writing: bool,
    /// The presentation timestamp of the next frame: how many frames have
    /// been written so far.
    pub pts: i64,
    /// The open stream's parameters, absent before `make` is called.
    pub config: Option<VideoConfig>,
}

/// An open stream implies a configuration, and a configuration holds a
/// usable frame rate and an even extent the converter accepts.
pub open spec fn video_wf(v: Video) -> bool {
    &&& (v.writing ==> v.config is Some)
    &&& (v.config matches Some(c) ==> {
        &&& 0 < c.fps <= 240
        &&& 0 < c.width <= 4096 &&& c.width % 2 == 0
        &&& 0 < c.height <= 4096 &&& c.height % 2 == 0
    })
    &&& 0 <= v.pts
}

/// One frame of planar YUV 4:2:0 pixels, as handed to the encoder.
pub struct YuvFrame {
    pub width: i32,
    pub height: i32,
    pub y: Vec<u8>,
    pub cb: Vec<u8>,
    pub cr: Vec<u8>,
}

/// The luma of a pixel, by the integer formula the encoder path uses.
pub open spec fn spec_luma(r: u8, g: u8, b: u8) -> int {
    (16 + 66 * (r as int) + 129 * (g as int) + 25 * (b as int)) / 256
}

/// The blue-difference chroma of a pixel.
pub open spec fn spec_cb(r: u8, g: u8, b: u8) -> int {
    128 + ((112 * (b as int) - 38 * (r as int) - 74 * (g as int)) / 256)
}

/// The red-difference chroma of a pixel.
pub open spec fn spec_cr(r: u8, g: u8, b: u8) -> int {
    128 + ((112 * (r as int) - 94 * (g as int) - 18 * (b as int)) / 256)
}

/// Flooring division by 256, as the encoder's shift performs it.
fn shr8_floor(v: i32) -> (r: i32)
    requires
        -0x10_0000 <= v <= 0x10_0000,
    ensures
        r as int == v as int / 256,
{
    v.checked_div_euclid(256).unwrap()
}

/// Every division by 256 of a value between two multiples of 256 lands
/// between the multipliers.
proof fn lemma_div256_bounds(x: int, lo: int, hi: int)
    requires
        lo * 256 <= x <= hi * 256,
    ensures
        lo <= x / 256 <= hi,
{
    lemma_div_is_ordered(lo * 256, x, 256);
    lemma_div_is_ordered(x, hi * 256, 256);
    assert(lo * 256 == 256 * lo) by (nonlinear_arith);
    assert(hi * 256 == 256 * hi) by (nonlinear_arith);
    lemma_div_multiples_vanish(lo, 256);
    lemma_div_multiples_vanish(hi, 256);
}

/// The luma of one pixel.
pub fn luma(r: u8, g: u8, b: u8) -> (v: u8)
    ensures
        v as int == spec_luma(r, g, b),
{
    let sum: i32 = 16 + 66 * (r as i32) + 129 * (g as i32) + 25 * (b as i32);
    proof {
        lemma_div256_bounds(sum as int, 0, 220);
    }
    shr8_floor(sum) as u8
}

/// The blue-difference chroma of one pixel.
pub fn chroma_b(r: u8, g: u8, b: u8) -> (v: u8)
    ensures
        v as int == spec_cb(r, g, b),
{
    let ri = r as i32;
    let gi = g as i32;
    let bi = b as i32;
    let sum: i32 = 112 * bi - 38 * ri - 74 * gi;
    proof {
        lemma_div256_bounds(sum as int, -112, 112);
    }
    (128 + shr8_floor(sum)) as u8
}

/// The red-difference chroma of one pixel.
pub fn chroma_r(r: u8, g: u8, b: u8) -> (v: u8)
    ensures
        v as int == spec_cr(r, g, b),
{
    let ri = r as i32;
    let gi = g as i32;
    let bi = b as i32;
    let sum: i32 = 112 * ri - 94 * gi - 18 * bi;
    proof {
        lemma_div256_bounds(sum as int, -112, 112);
    }
    (128 + shr8_floor(sum)) as u8
}

/// The frame is sized for its geometry: a full luma plane and
/// quarter-sized chroma planes.
pub open spec fn yuv_frame_wf(f: YuvFrame) -> bool {
    &&& 0 < f.width &&& 0 < f.height
    &&& f.width % 2 == 0 &&& f.height % 2 == 0
    &&& f.y@.len() == f.width * f.height
    &&& f.cb@.len() == (f.width / 2) * (f.height / 2)
    &&& f.cr@.len() == (f.width / 2) * (f.height / 2)
}

/// The luma of the `i`th pixel of a packed RGBA frame.
pub open spec fn spec_luma_at(frame: Seq<u8>, i: int) -> int {
    spec_luma(frame[4 * i], frame[4 * i + 1], frame[4 * i + 2])
}

/// The blue-difference chroma of the `i`th pixel of a packed RGBA frame.
pub open spec fn spec_cb_at(frame: Seq<u8>, i: int) -> int {
    spec_cb(frame[4 * i], frame[4 * i + 1], frame[4 * i + 2])
}

/// The red-difference chroma of the `i`th pixel of a packed RGBA frame.
pub open spec fn spec_cr_at(frame: Seq<u8>, i: int) -> int {
    spec_cr(frame[4 * i], frame[4 * i + 1], frame[4 * i + 2])
}

/// Which pixel the `i`th chroma cell samples: chroma is taken at every
/// even row and column, so cell `i` of the half-resolution grid reads the
/// pixel two cells right and down per unit.
pub open spec fn chroma_src(i: int, w: int) -> int {
    2 * (i / (w / 2)) * w + 2 * (i % (w / 2))
}

/// Converts one packed RGBA frame into planar YUV 4:2:0: every pixel's
/// luma in row-major order, and for every cell of the half-resolution
/// chroma planes the chroma of its even-coordinate source pixel, by the
/// exact integer formulas.  The alpha channel is discarded, and so is
/// anything past the frame's `4 * width * height` bytes.
pub fn yuv_frame(frame: &Vec<u8>, width: i32, height: i32) -> (f: YuvFrame)
    requires
        0 < width <= 4096,
        0 < height <= 4096,
        width % 2 == 0,
        height % 2 == 0,
        frame@.len() >= 4 * (width * height),
    ensures
        yuv_frame_wf(f),
        f.width == width,
        f.height == height,
        forall|i: int| 0 <= i < width * height ==>
            #[trigger] f.y@[i] as int == spec_luma_at(frame@, i),
        forall|i: int| 0 <= i < (width / 2) * (height / 2) ==>
            #[trigger] f.cb@[i] as int == spec_cb_at(frame@, chroma_src(i, width as int)),
        forall|i: int| 0 <= i < (width / 2) * (height / 2) ==>
            #[trigger] f.cr@[i] as int == spec_cr_at(frame@, chroma_src(i, width as int)),
{
    let w = width as usize;
    let h = height as usize;
    let mut ybuf: Vec<u8> = Vec::new();
    let mut cbbuf: Vec<u8> = Vec::new();
    let mut crbuf: Vec<u8> = Vec::new();

    let mut row: usize = 0;
    while row < h
        invariant
            0 < width <= 4096, 0 < height <= 4096,
            w == width, h == height,
            frame@.len() >= 4 * (width * height),
            row <= h,
            ybuf@.len() == row * w,
            forall|i: int| 0 <= i < ybuf@.len() ==>
                #[trigger] ybuf@[i] as int == spec_luma_at(frame@, i),
        decreases h - row,
    {
        let mut col: usize = 0;
        while col < w
            invariant
                0 < width <= 4096, 0 < height <= 4096,
                w == width, h == height,
                frame@.len() >= 4 * (width * height),
                row < h, col <= w,
                ybuf@.len() == row * w + col,
                forall|i: int| 0 <= i < ybuf@.len() ==>
                    #[trigger] ybuf@[i] as int == spec_luma_at(frame@, i),
            decreases w - col,
        {
            proof {
                assert(row * width + col < width * height
                    && 4 * (row * width + col) + 3 < 4 * (width * height)
                    && width * height <= 16777216)
                    by (nonlinear_arith)
                    requires 0 <= row < height && 0 <= col < width
                        && width <= 4096 && height <= 4096,
                ;
            }
            let base = 4 * (row * w + col);
            let r = frame[base];
            let g = frame[base + 1];
            let b = frame[base + 2];
            ybuf.push(luma(r, g, b));
            col = col + 1;
        }
        proof {
            assert(row * width + width == (row + 1) * width) by (nonlinear_arith);
        }
        row = row + 1;
    }

    let hw = w / 2;
    let hh = h / 2;
    let mut crow: usize = 0;
    while crow < hh
        invariant
            0 < width <= 4096, 0 < height <= 4096,
            width % 2 == 0, height % 2 == 0,
            w == width, h == height,
            hw == width / 2, hh == height / 2,
            frame@.len() >= 4 * (width * height),
            crow <= hh,
            cbbuf@.len() == crow * hw,
            crbuf@.len() == crow * hw,
            forall|i: int| 0 <= i < cbbuf@.len() ==>
                #[trigger] cbbuf@[i] as int == spec_cb_at(frame@, chroma_src(i, width as int)),
            forall|i: int| 0 <= i < crbuf@.len() ==>
                #[trigger] crbuf@[i] as int == spec_cr_at(frame@, chroma_src(i, width as int)),
        decreases hh - crow,
    {
        let mut ccol: usize = 0;
        while ccol < hw
            invariant
                0 < width <= 4096, 0 < height <= 4096,
                width % 2 == 0, height % 2 == 0,
                w == width, h == height,
                hw == width / 2, hh == height / 2,
                frame@.len() >= 4 * (width * height),
                crow < hh, ccol <= hw,
                cbbuf@.len() == crow * hw + ccol,
                crbuf@.len() == crow * hw + ccol,
                forall|i: int| 0 <= i < cbbuf@.len() ==>
                    #[trigger] cbbuf@[i] as int == spec_cb_at(frame@, chroma_src(i, width as int)),
                forall|i: int| 0 <= i < crbuf@.len() ==>
                    #[trigger] crbuf@[i] as int == spec_cr_at(frame@, chroma_src(i, width as int)),
            decreases hw - ccol,
        {
            proof {
                let n = crow * (width as int / 2) + ccol;
                vstd::arithmetic::div_mod::lemma_div_multiples_vanish_fancy(
                    crow as int, ccol as int, width as int / 2);
                vstd::arithmetic::div_mod::lemma_mod_multiples_vanish(
                    crow as int, ccol as int, width as int / 2);
                vstd::arithmetic::div_mod::lemma_small_mod(
                    ccol as nat, (width as int / 2) as nat);
                assert((width as int / 2) * crow == crow * (width as int / 2))
                    by (nonlinear_arith);
                assert(n / (width as int / 2) == crow && n % (width as int / 2) == ccol);
                assert(chroma_src(n, width as int) == 2 * crow * width + 2 * ccol);
                assert(2 * crow * width + 2 * ccol == (2 * crow) * width + 2 * ccol)
                    by (nonlinear_arith);
                assert((2 * crow) * width + 2 * ccol < width * height
                    && 4 * ((2 * crow) * width + 2 * ccol) + 3 < 4 * (width * height)
                    && width * height <= 16777216)
                    by (nonlinear_arith)
                    requires 0 <= crow < height / 2 && 0 <= ccol < width / 2
                        && width % 2 == 0 && height % 2 == 0 && width > 0 && height > 0
                        && width <= 4096 && height <= 4096,
                ;
            }
            let base = 4 * ((2 * crow) * w + 2 * ccol);
            let r = frame[base];
            let g = frame[base + 1];
            let b = frame[base + 2];
            cbbuf.push(chroma_b(r, g, b));
            crbuf.push(chroma_r(r, g, b));
            ccol = ccol + 1;
        }
        proof {
            assert(crow * (width as int / 2) + (width as int / 2)
                == (crow + 1) * (width as int / 2)) by (nonlinear_arith);
        }
        crow = crow + 1;
    }

    proof {
        assert((height as int) * (width as int) == (width as int) * (height as int))
            by (nonlinear_arith);
        assert((height as int / 2) * (width as int / 2)
            == (width as int / 2) * (height as int / 2)) by (nonlinear_arith);
    }
    YuvFrame { width, height, y: ybuf, cb: cbbuf, cr: crbuf }
}

impl Video {
    /// A sink with no open stream.
    pub fn new() -> (v: Video)
        ensures
            video_wf(v),
            !v.writing,
            v.pts == 0,
            v.config is None,
    {
        Video { writing: false, pts: 0, config: None }
    }

    /// The open stream's width, or nothing when no stream is open.
    pub fn get_width(&self) -> (r: Option<i32>)
        ensures
            self.config is Some ==> r == Some(self.config->Some_0.width),
            self.config is None ==> r is None,
    {
        match &self.config {
            Some(c) => Some(c.width),
            None => None,
        }
    }

    /// The open stream's height, or nothing when no stream is open.
    pub fn get_height(&self) -> (r: Option<i32>)
        ensures
            self.config is Some ==> r == Some(self.config->Some_0.height),
            self.config is None ==> r is None,
    {
        match &self.config {
            Some(c) => Some(c.height),
            None => None,
        }
    }

    /// The open stream's frame rate, or nothing when no stream is open.
    pub fn get_fps(&self) -> (r: Option<i32>)
        ensures
            self.config is Some ==> r == Some(self.config->Some_0.fps),
            self.config is None ==> r is None,
    {
        match &self.config {
            Some(c) => Some(c.fps),
            None => None,
        }
    }

    /// Opens a stream: records its parameters and starts accepting frames.
    /// The timestamp counter carries on from where it stood.  The frame
    /// rate is capped at two hundred and forty, and the extent at 4096
    /// with both sides even, since 4:2:0 chroma halves them.
    pub fn make(&mut self, filename: &str, fps: i32, width: i32, height: i32)
        requires
            video_wf(*old(self)),
            0 < fps <= 240,
            0 < width <= 4096,
            0 < height <= 4096,
            width % 2 == 0,
            height % 2 == 0,
        ensures
            video_wf(*final(self)),
            final(self).writing,
            final(self).pts == old(self).pts,
            final(self).config is Some,
            final(self).config->Some_0.fps == fps,
            final(self).config->Some_0.width == width,
            final(self).config->Some_0.height == height,
            final(self).config->Some_0.path@ == filename@,
    {
        self.writing = true;
        self.config = Some(VideoConfig {
            path: filename.to_owned(),
            fps,
            width,
            height,
        });
    }

    /// Accounts for one rasterized frame written `t` times over: the
    /// timestamp counter advances once per written frame.  The conversion
    /// of the pixels themselves is [`yuv_frame`]; the sink must be open.
    pub fn write(&mut self, t: i32)
        requires
            video_wf(*old(self)),
            old(self).writing,
            old(self).config is Some,
            old(self).pts + t <= 0x7fff_ffff_ffff_ffff,
        ensures
            video_wf(*final(self)),
            final(self).writing == old(self).writing,
            final(self).config == old(self).config,
            t > 0 ==> final(self).pts == old(self).pts + t,
            t <= 0 ==> final(self).pts == old(self).pts,
    {
        if t > 0 {
            self.pts = self.pts + (t as i64);
        }
    }

    /// Closes the stream: no more frames are accepted until another `make`.
    pub fn free(&mut self)
        requires
            video_wf(*old(self)),
        ensures
            video_wf(*final(self)),
            !final(self).writing,
            final(self).pts == old(self).pts,
            final(self).config == old(self).config,
    {
        self.writing = false;
    }
}

} // verus!
