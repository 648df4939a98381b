//! The compositor's state: frame geometry, the rotating pixel-transfer
//! buffers, and a model of the UI layer that the browser paints into.
//!
//! GPU objects are created and driven by the host; this module decides
//! what is copied where and when the GPU storage has to grow.
use vstd::prelude::*;

verus! {

/// Bytes per BGRA pixel.
pub const BYTES_PER_PIXEL: usize = 4;

/// Handles of the GPU objects that belong to one renderer.
#[derive(Clone, Copy, Debug, PartialEq, Eq)]
pub struct GlObjects {
    pub program: u32,
    pub front_texture: u32,
    pub front_uniform: i32,
    pub back_texture: u32,
    pub back_uniform: i32,
    pub vao: u32,
    pub vbo: u32,
    pub fbo: u32,
    pub pbos: (u32, u32),
}

/// A partial texture update for the host to perform: the rectangle, and the
/// pixel-transfer buffer (0 or 1) that holds its tightly packed rows.
#[derive(Clone, Copy, Debug, PartialEq, Eq)]
pub struct Upload {
    pub x: i32,
    pub y: i32,
    pub width: i32,
    pub height: i32,
    pub buffer: usize,
    pub pbo: u32,
    pub texture: u32,
}

/// What one full-screen draw binds: the video layer on texture unit 0, the
/// UI layer on unit 1, and the viewport it covers.
#[derive(Clone, Copy, Debug, PartialEq, Eq)]
pub struct DrawPass {
    pub program: u32,
    pub vao: u32,
    pub video_texture: u32,
    pub video_uniform: i32,
    pub ui_texture: u32,
    pub ui_uniform: i32,
    pub width: i32,
    pub height: i32,
}

/// Abstract state of a renderer.
pub struct RendererView {
    pub width: int,
    pub height: int,
    pub refresh_rate: nat,
    pub capacity: nat,
    /// UI layer, row-major, `width * 4` bytes per row.
    pub layer: Seq<u8>,
    /// The buffer filled by the latest paint.
    pub last_transfer: Seq<u8>,
    /// Index of the pixel-transfer buffer the next paint fills.
    pub next_buffer: nat,
}

/// The compositor. Its UI layer mirrors what the paints have put into the UI
/// texture, so the drawn frame can be stated pixel by pixel.
pub struct Renderer {
    gl: GlObjects,
    width: i32,
    height: i32,
    refresh_rate: u32,
    capacity: usize,
    staging: Vec<u8>,
    in_flight: Vec<u8>,
    next_buffer: usize,
    layer: Vec<u8>,
}

/// Bytes needed for a frame of the given size.
pub open spec fn frame_bytes(width: int, height: int) -> int {
    width * height * 4
}

/// The capacity after a resize to `width` x `height`: grown to the frame's
/// bytes when it needs more, else kept.
pub open spec fn capacity_after(capacity: nat, width: int, height: int) -> nat {
    if frame_bytes(width, height) > capacity {
        frame_bytes(width, height) as nat
    } else {
        capacity
    }
}

/// The capacity after a run of resizes, in order.
pub open spec fn capacity_after_all(capacity: nat, sizes: Seq<(int, int)>) -> nat
    decreases sizes.len(),
{
    if sizes.len() == 0 {
        capacity
    } else {
        let before = capacity_after_all(capacity, sizes.drop_last());
        capacity_after(before, sizes.last().0, sizes.last().1)
    }
}

/// Over any run of resizes the capacity never decreases, and after each one
/// it holds the whole current frame, so a paint that follows needs no
/// reallocation.
pub proof fn lemma_capacity_monotone(capacity: nat, sizes: Seq<(int, int)>)
    requires
        forall|i: int| 0 <= i < sizes.len() ==> 0 <= #[trigger] sizes[i].0 && 0 <= sizes[i].1,
    ensures
        capacity_after_all(capacity, sizes) >= capacity,
        forall|k: int|
            0 < k <= sizes.len() ==> capacity_after_all(capacity, #[trigger] sizes.take(k))
                >= capacity_after_all(capacity, sizes.take(k - 1)),
        sizes.len() > 0 ==> capacity_after_all(capacity, sizes) >= frame_bytes(
            sizes.last().0,
            sizes.last().1,
        ),
    decreases sizes.len(),
{
    if sizes.len() > 0 {
        lemma_capacity_monotone(capacity, sizes.drop_last());
        assert forall|k: int|
            0 < k <= sizes.len() implies capacity_after_all(capacity, #[trigger] sizes.take(k))
            >= capacity_after_all(capacity, sizes.take(k - 1)) by {
            if k < sizes.len() {
                assert(sizes.take(k) =~= sizes.drop_last().take(k));
                assert(sizes.take(k - 1) =~= sizes.drop_last().take(k - 1));
            } else {
                assert(sizes.take(k) =~= sizes);
                assert(sizes.take(k - 1) =~= sizes.drop_last());
            }
        }
    }
}

/// Offset of byte `c` of row `r` in a row-major buffer with `row_len` bytes per row.
pub open spec fn at(row_len: int, r: int, c: int) -> int {
    r * row_len + c
}

/// Whether a paint of `(x, y, w, h)` from a buffer of `len` bytes and
/// `full_width` pixels per row lands inside a `width` x `height` frame, and
/// the buffer holds at least one full row and every byte that is read.
pub open spec fn paint_fits(
    width: int,
    height: int,
    x: int,
    y: int,
    w: int,
    h: int,
    len: int,
    full_width: int,
) -> bool {
    &&& 0 <= x && 0 <= y && 0 < w && 0 < h
    &&& x + w <= width && y + h <= height
    &&& x + w <= full_width
    &&& full_width * 4 <= len
    &&& at(full_width * 4, y + h - 1, (x + w) * 4) <= len
}

/// Whether byte `c` of row `r` lies in the rectangle `(x, y, w, h)`.
pub open spec fn in_rect(x: int, y: int, w: int, h: int, r: int, c: int) -> bool {
    y <= r < y + h && x * 4 <= c < (x + w) * 4
}

/// The premultiplied-over blend of one colour channel: `ui + video * (1 - alpha)`.
pub open spec fn blend_spec(ui: u8, alpha: u8, video: u8) -> int {
    let v = ui as int + (video as int * (255 - alpha as int)) / 255;
    if v > 255 { 255 } else { v }
}

/// The pixel that the draw produces from a UI pixel over a video pixel (BGRA).
pub open spec fn composite_spec(ui: [u8; 4], video: [u8; 4]) -> [u8; 4] {
    [
        blend_spec(ui[0], ui[3], video[0]) as u8,
        blend_spec(ui[1], ui[3], video[1]) as u8,
        blend_spec(ui[2], ui[3], video[2]) as u8,
        blend_spec(ui[3], ui[3], video[3]) as u8,
    ]
}

proof fn lemma_row_major(row_len: int, r1: int, c1: int, r2: int, c2: int)
    requires
        0 <= r1,
        0 <= r2,
        0 <= c1 < row_len,
        0 <= c2 < row_len,
    ensures
        at(row_len, r1, c1) == at(row_len, r2, c2) <==> (r1 == r2 && c1 == c2),
        r1 < r2 ==> at(row_len, r1, c1) < at(row_len, r2, c2),
{
    if r1 < r2 {
        assert(r1 * row_len + row_len <= r2 * row_len) by (nonlinear_arith)
            requires r1 < r2, 0 <= c1 < row_len;
    } else if r2 < r1 {
        assert(r2 * row_len + row_len <= r1 * row_len) by (nonlinear_arith)
            requires r2 < r1, 0 <= c2 < row_len;
    }
}

proof fn lemma_mul_mono(a: int, b: int, n: int)
    requires
        0 <= a <= b,
        0 <= n,
    ensures
        a * n <= b * n,
{
    assert(a * n <= b * n) by (nonlinear_arith)
        requires 0 <= a <= b, 0 <= n;
}

fn zeroed(n: usize) -> (v: Vec<u8>)
    ensures
        v@.len() == n,
        forall|i: int| 0 <= i < n ==> v@[i] == 0,
{
    let mut v: Vec<u8> = Vec::new();
    let mut i: usize = 0;
    while i < n
        invariant
            i <= n,
            v@.len() == i,
            forall|j: int| 0 <= j < i ==> v@[j] == 0,
        decreases n - i,
    {
        v.push(0);
        i = i + 1;
    }
    v
}

fn blend(ui: u8, alpha: u8, video: u8) -> (r: u8)
    ensures
        r == blend_spec(ui, alpha, video),
{
    proof {
        lemma_mul_mono(video as int, 255, 255 - alpha as int);
        lemma_mul_mono(255 - alpha as int, 255, 255);
    }
    let scaled: u32 = video as u32 * (255 - alpha as u32) / 255;
    let v: u32 = ui as u32 + scaled;
    if v > 255 {
        255
    } else {
        v as u8
    }
}

/// The pixel that the draw produces where the UI pixel `ui` lies over the
/// video pixel `video` (both BGRA, the UI premultiplied).
pub fn composite(ui: [u8; 4], video: [u8; 4]) -> (r: [u8; 4])
    ensures
        r == composite_spec(ui, video),
{
    [
        blend(ui[0], ui[3], video[0]),
        blend(ui[1], ui[3], video[1]),
        blend(ui[2], ui[3], video[2]),
        blend(ui[3], ui[3], video[3]),
    ]
}

/// An opaque UI pixel hides the video beneath it: the drawn pixel is the UI
/// pixel itself, whatever the video holds.
pub proof fn lemma_opaque_ui_hides_video(ui: [u8; 4], video: [u8; 4])
    requires
        ui[3] == 255,
    ensures
        composite_spec(ui, video) == ui,
{
    assert(composite_spec(ui, video)@ =~= ui@);
}

impl View for Renderer {
    type V = RendererView;

    closed spec fn view(&self) -> RendererView {
        RendererView {
            width: self.width as int,
            height: self.height as int,
            refresh_rate: self.refresh_rate as nat,
            capacity: self.capacity as nat,
            layer: self.layer@,
            last_transfer: self.in_flight@,
            next_buffer: self.next_buffer as nat,
        }
    }
}

impl Renderer {
    pub closed spec fn wf(&self) -> bool {
        &&& 0 <= self.width && 0 <= self.height
        &&& self.layer@.len() == frame_bytes(self.width as int, self.height as int)
        &&& frame_bytes(self.width as int, self.height as int) <= self.capacity
        &&& self.staging@.len() == self.capacity
        &&& self.in_flight@.len() == self.capacity
        &&& self.next_buffer < 2
    }

    pub closed spec fn gl_spec(&self) -> GlObjects {
        self.gl
    }

    /// A renderer for a frame of `size`, over GPU objects made for that size.
    pub fn new(gl: GlObjects, size: (i32, i32), refresh_rate: u32) -> (r: Renderer)
        requires
            size.0 >= 0,
            size.1 >= 0,
            frame_bytes(size.0 as int, size.1 as int) <= usize::MAX,
        ensures
            r.wf(),
            r.gl_spec() == gl,
            r@.width == size.0,
            r@.height == size.1,
            r@.refresh_rate == refresh_rate,
            r@.capacity == frame_bytes(size.0 as int, size.1 as int),
            r@.next_buffer == 0,
            forall|i: int| 0 <= i < r@.layer.len() ==> r@.layer[i] == 0,
    {
        let (width, height) = size;
        proof {
            lemma_mul_mono(0, width as int, height as int);
        }
        let bytes = width as usize * height as usize * BYTES_PER_PIXEL;
        Renderer {
            gl,
            width,
            height,
            refresh_rate,
            capacity: bytes,
            staging: zeroed(bytes),
            in_flight: zeroed(bytes),
            next_buffer: 0,
            layer: zeroed(bytes),
        }
    }

    /// Adopts a new frame size. The pixel-transfer buffers and textures are
    /// reallocated only when the frame needs more bytes than they hold, so
    /// the capacity never shrinks. Returns whether they grew, in which case
    /// the host reallocates the GPU storage. The UI layer is cleared until
    /// the browser paints the new frame.
    pub fn resize(&mut self, width: i32, height: i32) -> (grown: bool)
        requires
            old(self).wf(),
            width >= 0,
            height >= 0,
            frame_bytes(width as int, height as int) <= usize::MAX,
        ensures
            final(self).wf(),
            final(self).gl_spec() == old(self).gl_spec(),
            final(self)@.width == width,
            final(self)@.height == height,
            final(self)@.refresh_rate == old(self)@.refresh_rate,
            grown == (frame_bytes(width as int, height as int) > old(self)@.capacity),
            final(self)@.capacity == capacity_after(old(self)@.capacity, width as int, height as int),
            final(self)@.next_buffer == old(self)@.next_buffer,
            forall|i: int| 0 <= i < final(self)@.layer.len() ==> final(self)@.layer[i] == 0,
    {
        proof {
            lemma_mul_mono(0, width as int, height as int);
        }
        let bytes = width as usize * height as usize * BYTES_PER_PIXEL;
        let grown = bytes > self.capacity;
        if grown {
            self.capacity = bytes;
            self.staging = zeroed(bytes);
            self.in_flight = zeroed(bytes);
        }
        self.width = width;
        self.height = height;
        self.layer = zeroed(bytes);
        grown
    }

    /// Copies the rectangle `(x, y, width, height)` out of `buffer`, whose
    /// rows are `full_width` pixels apart, into the next pixel-transfer
    /// buffer (rows tightly packed) and into the UI layer, and returns the
    /// partial texture update for the host. A rectangle that is empty, leaves
    /// the frame, or reads past the buffer changes nothing and gives `None`.
    pub fn paint(
        &mut self,
        x: i32,
        y: i32,
        width: i32,
        height: i32,
        buffer: &[u8],
        full_width: i32,
    ) -> (r: Option<Upload>)
        requires
            old(self).wf(),
        ensures
            final(self).wf(),
            final(self).gl_spec() == old(self).gl_spec(),
            final(self)@.width == old(self)@.width,
            final(self)@.height == old(self)@.height,
            final(self)@.refresh_rate == old(self)@.refresh_rate,
            final(self)@.capacity == old(self)@.capacity,
            !paint_fits(
                old(self)@.width,
                old(self)@.height,
                x as int,
                y as int,
                width as int,
                height as int,
                buffer@.len() as int,
                full_width as int,
            ) ==> r is None && final(self)@ == old(self)@,
            paint_fits(
                old(self)@.width,
                old(self)@.height,
                x as int,
                y as int,
                width as int,
                height as int,
                buffer@.len() as int,
                full_width as int,
            ) ==> {
                &&& r == Some(Upload {
                    x,
                    y,
                    width,
                    height,
                    buffer: old(self)@.next_buffer as usize,
                    pbo: if old(self)@.next_buffer == 0 {
                        old(self).gl_spec().pbos.0
                    } else {
                        old(self).gl_spec().pbos.1
                    },
                    texture: old(self).gl_spec().front_texture,
                })
                &&& final(self)@.next_buffer == 1 - old(self)@.next_buffer
                &&& final(self)@.layer.len() == old(self)@.layer.len()
                &&& forall|r: int, c: int|
                    0 <= r < old(self)@.height && 0 <= c < old(self)@.width * 4 ==> (
                    #[trigger] final(self)@.layer[at(old(self)@.width * 4, r, c)] == if in_rect(
                        x as int,
                        y as int,
                        width as int,
                        height as int,
                        r,
                        c,
                    ) {
                        buffer@[at(full_width * 4, r, c)]
                    } else {
                        old(self)@.layer[at(old(self)@.width * 4, r, c)]
                    })
                &&& forall|r: int, c: int|
                    0 <= r < height && 0 <= c < width * 4
                        ==> #[trigger] final(self)@.last_transfer[at(width * 4, r, c)] == buffer@[at(
                        full_width * 4,
                        y + r,
                        x * 4 + c,
                    )]
            },
    {
        if x < 0 || y < 0 || width <= 0 || height <= 0 || full_width < 0 {
            return None;
        }
        if x as i64 + width as i64 > self.width as i64 || y as i64 + height as i64
            > self.height as i64 || x as i64 + width as i64 > full_width as i64 {
            return None;
        }
        let len = buffer.len();
        if full_width as u128 * 4 > len as u128 {
            return None;
        }
        proof {
            lemma_mul_mono(y as int + height as int - 1, 0x1_0000_0000, full_width as int * 4);
            lemma_mul_mono(full_width as int * 4, 0x4_0000_0000, 0x1_0000_0000);
        }
        if (y as u128 + height as u128 - 1) * (full_width as u128 * 4) + (x as u128
            + width as u128) * 4 > len as u128 {
            return None;
        }
        let ghost old_layer = self.layer@;
        let ghost fw4 = full_width as int * 4;
        let ghost hh = self.height as int;
        let xs = x as usize;
        let ys = y as usize;
        let ws = width as usize;
        let hs = height as usize;
        let stride = full_width as usize * BYTES_PER_PIXEL;
        proof {
            lemma_mul_mono(ys as int + hs as int, hh, self.width as int * 4);
            lemma_mul_mono(1, ys as int + hs as int, self.width as int * 4);
            assert(self.width as int * hh * 4 == hh * (self.width as int * 4)) by (nonlinear_arith);
        }
        let row_len = self.width as usize * BYTES_PER_PIXEL;
        let packed = ws * BYTES_PER_PIXEL;
        proof {
            lemma_mul_mono(hs as int, hh, packed as int);
            lemma_mul_mono(packed as int, row_len as int, hh);
            assert(hh * packed as int == packed as int * hh) by (nonlinear_arith);
            assert(row_len as int * hh == self.width as int * hh * 4) by (nonlinear_arith)
                requires row_len == self.width * 4;
        }
        let mut row: usize = 0;
        while row < hs
            invariant
                self.wf(),
                0 <= xs && 0 <= ys && 0 < ws && 0 < hs,
                xs + ws <= self.width,
                ys + hs <= self.height,
                hh == self.height,
                len == buffer@.len(),
                self.layer@.len() == row_len * hh,
                row <= hs,
                row_len == self.width * 4,
                packed == ws * 4,
                stride == fw4,
                fw4 <= buffer@.len(),
                xs + ws <= full_width,
                at(fw4, ys + hs - 1, (xs + ws) * 4) <= buffer@.len(),
                hs * packed <= self.capacity,
                self.capacity == old(self).capacity,
                self.gl == old(self).gl,
                self.next_buffer == old(self).next_buffer,
                self.refresh_rate == old(self).refresh_rate,
                self.width == old(self).width,
                self.height == old(self).height,
                old_layer == old(self).layer@,
                forall|r: int, c: int|
                    0 <= r < hh && 0 <= c < row_len ==> (#[trigger] self.layer@[at(
                        row_len as int,
                        r,
                        c,
                    )] == if in_rect(xs as int, ys as int, ws as int, row as int, r, c) {
                        buffer@[at(fw4, r, c)]
                    } else {
                        old_layer[at(row_len as int, r, c)]
                    }),
                forall|r: int, c: int|
                    0 <= r < row && 0 <= c < packed ==> #[trigger] self.staging@[at(
                        packed as int,
                        r,
                        c,
                    )] == buffer@[at(fw4, ys + r, xs * 4 + c)],
            decreases hs - row,
        {
            proof {
                lemma_mul_mono(ys as int + row as int, ys as int + hs as int - 1, fw4);
                lemma_mul_mono(ys as int + row as int, hh - 1, row_len as int);
                assert((hh - 1) * row_len + row_len == row_len * hh) by (nonlinear_arith);
                lemma_mul_mono(row as int, hs as int - 1, packed as int);
                assert((hs - 1) * packed + packed == hs * packed) by (nonlinear_arith);
            }
            let src_base = (ys + row) * stride + xs * BYTES_PER_PIXEL;
            let layer_base = (ys + row) * row_len + xs * BYTES_PER_PIXEL;
            let pack_base = row * packed;
            let mut k: usize = 0;
            while k < packed
                invariant
                    self.wf(),
                    0 <= xs && 0 <= ys && 0 < ws && 0 < hs,
                    xs + ws <= self.width,
                    ys + hs <= self.height,
                    hh == self.height,
                    len == buffer@.len(),
                    self.layer@.len() == row_len * hh,
                    row < hs,
                    k <= packed,
                    row_len == self.width * 4,
                    packed == ws * 4,
                    stride == fw4,
                    src_base == at(fw4, ys + row, xs * 4),
                    layer_base == at(row_len as int, ys + row, xs * 4),
                    pack_base == at(packed as int, row as int, 0),
                    (ys + row) * fw4 <= (ys + hs - 1) * fw4,
                    (ys + row) * row_len <= (hh - 1) * row_len,
                    row * packed <= (hs - 1) * packed,
                    fw4 <= buffer@.len(),
                    at(fw4, ys + hs - 1, (xs + ws) * 4) <= buffer@.len(),
                    hs * packed <= self.capacity,
                    self.capacity == old(self).capacity,
                    self.gl == old(self).gl,
                    self.next_buffer == old(self).next_buffer,
                    self.refresh_rate == old(self).refresh_rate,
                    self.width == old(self).width,
                    self.height == old(self).height,
                    old_layer == old(self).layer@,
                    forall|r: int, c: int|
                        0 <= r < hh && 0 <= c < row_len ==> (#[trigger] self.layer@[at(
                            row_len as int,
                            r,
                            c,
                        )] == if in_rect(xs as int, ys as int, ws as int, row as int, r, c) || (r
                            == ys + row && xs * 4 <= c < xs * 4 + k) {
                            buffer@[at(fw4, r, c)]
                        } else {
                            old_layer[at(row_len as int, r, c)]
                        }),
                    forall|r: int, c: int|
                        (0 <= r < row && 0 <= c < packed) || (r == row && 0 <= c < k)
                            ==> #[trigger] self.staging@[at(packed as int, r, c)]
                            == buffer@[at(fw4, ys + r, xs * 4 + c)],
                decreases packed - k,
            {
                proof {
                    lemma_row_major(row_len as int, ys + row, xs * 4 + k, hh, 0);
                    lemma_row_major(packed as int, row as int, k as int, hs as int, 0);
                    lemma_mul_mono(hs as int, hh, packed as int);
                }
                let byte = buffer[src_base + k];
                let ghost pos = at(row_len as int, ys + row, xs * 4 + k);
                let ghost ppos = at(packed as int, row as int, k as int);
                let ghost before_layer = self.layer@;
                let ghost before_staging = self.staging@;
                self.layer.set(layer_base + k, byte);
                self.staging.set(pack_base + k, byte);
                proof {
                    assert forall|r: int, c: int|
                        0 <= r < hh && 0 <= c < row_len implies (#[trigger] self.layer@[at(
                            row_len as int,
                            r,
                            c,
                        )] == if in_rect(xs as int, ys as int, ws as int, row as int, r, c) || (r
                            == ys + row && xs * 4 <= c < xs * 4 + k + 1) {
                            buffer@[at(fw4, r, c)]
                        } else {
                            old_layer[at(row_len as int, r, c)]
                        }) by {
                        lemma_row_major(row_len as int, r, c, ys + row, xs * 4 + k);
                        lemma_row_major(row_len as int, r, c, hh, 0);
                        if r == ys + row && c == xs * 4 + k {
                        } else {
                            assert(before_layer[at(row_len as int, r, c)] == self.layer@[at(
                                row_len as int,
                                r,
                                c,
                            )]);
                        }
                    }
                    assert forall|r: int, c: int|
                        (0 <= r < row && 0 <= c < packed) || (r == row && 0 <= c < k + 1)
                            implies #[trigger] self.staging@[at(packed as int, r, c)]
                            == buffer@[at(fw4, ys + r, xs * 4 + c)] by {
                        lemma_row_major(packed as int, r, c, row as int, k as int);
                        lemma_row_major(packed as int, r, c, hs as int, 0);
                        if r == row && c == k {
                        } else {
                            assert(before_staging[at(packed as int, r, c)]
                                == self.staging@[at(packed as int, r, c)]);
                        }
                    }
                }
                k = k + 1;
            }
            proof {
                assert forall|r: int, c: int|
                    0 <= r < hh && 0 <= c < row_len implies (#[trigger] self.layer@[at(
                        row_len as int,
                        r,
                        c,
                    )] == if in_rect(xs as int, ys as int, ws as int, row + 1, r, c) {
                        buffer@[at(fw4, r, c)]
                    } else {
                        old_layer[at(row_len as int, r, c)]
                    }) by {}
            }
            row = row + 1;
        }
        let buffer_index = self.next_buffer;
        std::mem::swap(&mut self.staging, &mut self.in_flight);
        proof {
            assert forall|r: int, c: int|
                0 <= r < height && 0 <= c < width * 4 implies #[trigger] self.in_flight@[at(
                width * 4,
                r,
                c,
            )] == buffer@[at(full_width * 4, y + r, x * 4 + c)] by {
                assert(self.in_flight@[at(packed as int, r, c)] == buffer@[at(
                    fw4,
                    ys + r,
                    xs * 4 + c,
                )]);
            }
            assert forall|r: int, c: int|
                0 <= r < hh && 0 <= c < row_len implies (#[trigger] self.layer@[at(
                row_len as int,
                r,
                c,
            )] == if in_rect(x as int, y as int, width as int, height as int, r, c) {
                buffer@[at(full_width * 4, r, c)]
            } else {
                old_layer[at(row_len as int, r, c)]
            }) by {}
        }
        self.next_buffer = 1 - self.next_buffer;
        let pbo = if buffer_index == 0 {
            self.gl.pbos.0
        } else {
            self.gl.pbos.1
        };
        Some(Upload { x, y, width, height, buffer: buffer_index, pbo, texture: self.gl.front_texture })
    }

    /// The full-screen pass: the video layer (written by the media engine
    /// through the framebuffer that wraps it) on unit 0, the UI layer on
    /// unit 1, blended premultiplied-over, across the whole frame.
    pub fn draw(&self) -> (r: DrawPass)
        ensures
            r == (DrawPass {
                program: self.gl_spec().program,
                vao: self.gl_spec().vao,
                video_texture: self.gl_spec().back_texture,
                video_uniform: self.gl_spec().back_uniform,
                ui_texture: self.gl_spec().front_texture,
                ui_uniform: self.gl_spec().front_uniform,
                width: self@.width as i32,
                height: self@.height as i32,
            }),
    {
        DrawPass {
            program: self.gl.program,
            vao: self.gl.vao,
            video_texture: self.gl.back_texture,
            video_uniform: self.gl.back_uniform,
            ui_texture: self.gl.front_texture,
            ui_uniform: self.gl.front_uniform,
            width: self.width,
            height: self.height,
        }
    }

    /// The BGRA pixel of the UI layer at `(px, py)`, if that is in the frame.
    pub fn pixel(&self, px: i32, py: i32) -> (r: Option<[u8; 4]>)
        requires
            self.wf(),
        ensures
            (0 <= px < self@.width && 0 <= py < self@.height) ==> r == Some(
                [
                    self@.layer[at(self@.width * 4, py as int, px * 4)],
                    self@.layer[at(self@.width * 4, py as int, px * 4 + 1)],
                    self@.layer[at(self@.width * 4, py as int, px * 4 + 2)],
                    self@.layer[at(self@.width * 4, py as int, px * 4 + 3)],
                ],
            ),
            !(0 <= px < self@.width && 0 <= py < self@.height) ==> r is None,
    {
        if px < 0 || py < 0 || px >= self.width || py >= self.height {
            return None;
        }
        let ghost hh = self.height as int;
        proof {
            lemma_mul_mono(1, hh, self.width as int * 4);
            assert(self.width as int * hh * 4 == hh * (self.width as int * 4)) by (nonlinear_arith);
            lemma_row_major(self.width as int * 4, py as int, px * 4 + 3, hh, 0);
            lemma_mul_mono(py as int, hh, self.width as int * 4);
        }
        let row_len = self.width as usize * BYTES_PER_PIXEL;
        let base = py as usize * row_len + px as usize * BYTES_PER_PIXEL;
        Some([self.layer[base], self.layer[base + 1], self.layer[base + 2], self.layer[base + 3]])
    }

    pub fn width(&self) -> (r: i32)
        ensures
            r == self@.width,
    {
        self.width
    }

    pub fn height(&self) -> (r: i32)
        ensures
            r == self@.height,
    {
        self.height
    }

    pub fn refresh_rate(&self) -> (r: u32)
        ensures
            r == self@.refresh_rate,
    {
        self.refresh_rate
    }

    /// Bytes that each pixel-transfer buffer and texture can hold.
    pub fn capacity(&self) -> (r: usize)
        ensures
            r == self@.capacity,
    {
        self.capacity
    }

    /// The tightly packed rows of the latest paint, for the host to upload.
    pub fn last_transfer(&self) -> (r: &[u8])
        ensures
            r@ == self@.last_transfer,
    {
        self.in_flight.as_slice()
    }

    pub fn gl(&self) -> (r: GlObjects)
        ensures
            r == self.gl_spec(),
    {
        self.gl
    }
}

/// The place of the process's single renderer: it is created once, after
/// the window is ready, and dropped once, at shutdown.
pub struct RendererSlot {
    renderer: Option<Renderer>,
    created: bool,
}

impl RendererSlot {
    pub closed spec fn renderer_spec(&self) -> Option<Renderer> {
        self.renderer
    }

    /// Whether a renderer was ever made in this slot.
    pub closed spec fn created_spec(&self) -> bool {
        self.created
    }

    pub closed spec fn wf(&self) -> bool {
        &&& self.renderer is Some ==> self.created
        &&& self.renderer matches Some(r) ==> r.wf()
    }

    pub fn new() -> (r: RendererSlot)
        ensures
            r.wf(),
            r.renderer_spec() is None,
            !r.created_spec(),
    {
        RendererSlot { renderer: None, created: false }
    }

    /// Whether a renderer was ever made in this slot.
    pub fn created(&self) -> (r: bool)
        ensures
            r == self.created_spec(),
    {
        self.created
    }

    pub fn renderer(&self) -> (r: Option<&Renderer>)
        ensures
            match self.renderer_spec() {
                Some(x) => r == Some(&x),
                None => r is None,
            },
    {
        self.renderer.as_ref()
    }

    pub fn renderer_mut(&mut self) -> (r: Option<&mut Renderer>)
        ensures
            match old(self).renderer_spec() {
                Some(x) => r matches Some(m) && *m == x && final(self).renderer_spec() == Some(*final(m)),
                None => r is None && final(self).renderer_spec() is None,
            },
            final(self).created_spec() == old(self).created_spec(),
    {
        self.renderer.as_mut()
    }
}

/// Creates the renderer, once: a slot that has ever had one (even one that
/// was dropped since) is left as it is, and the arguments are ignored.
pub fn create_renderer(
    slot: &mut RendererSlot,
    gl: GlObjects,
    default_size: (i32, i32),
    refresh_rate: u32,
) -> (created: bool)
    requires
        old(slot).wf(),
        !old(slot).created_spec() ==> {
            &&& default_size.0 >= 0
            &&& default_size.1 >= 0
            &&& frame_bytes(default_size.0 as int, default_size.1 as int) <= usize::MAX
        },
    ensures
        final(slot).wf(),
        created == !old(slot).created_spec(),
        final(slot).created_spec(),
        !created ==> final(slot).renderer_spec() == old(slot).renderer_spec(),
        created ==> match final(slot).renderer_spec() {
            Some(r) => {
                &&& r.wf()
                &&& r.gl_spec() == gl
                &&& r@.width == default_size.0
                &&& r@.height == default_size.1
                &&& r@.refresh_rate == refresh_rate
                &&& r@.capacity == frame_bytes(default_size.0 as int, default_size.1 as int)
                &&& r@.next_buffer == 0
                &&& forall|i: int| 0 <= i < r@.layer.len() ==> r@.layer[i] == 0
            },
            None => false,
        },
{
    if slot.created {
        false
    } else {
        slot.renderer = Some(Renderer::new(gl, default_size, refresh_rate));
        slot.created = true;
        true
    }
}

/// Takes the renderer out of its slot, giving back the GPU objects that the
/// host must delete while the context is still alive. The slot stays marked
/// as having had a renderer.
pub fn drop_renderer(slot: &mut RendererSlot) -> (r: Option<GlObjects>)
    requires
        old(slot).wf(),
    ensures
        final(slot).wf(),
        final(slot).renderer_spec() is None,
        final(slot).created_spec() == old(slot).created_spec(),
        match old(slot).renderer_spec() {
            Some(old_renderer) => r == Some(old_renderer.gl_spec()),
            None => r is None,
        },
{
    match slot.renderer.take() {
        Some(renderer) => Some(renderer.gl()),
        None => None,
    }
}

} // verus!
