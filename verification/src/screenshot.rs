//! Frame readback: the layout of the padded buffer a rendered frame is
//! copied into, the one-capture-at-a-time protocol around it, and the way
//! from the mapped buffer to an encoded image.

use vstd::prelude::*;
use image::ImageEncoder;

verus! {

/// Why a readback operation was refused or failed.
#[derive(Copy, Clone, Debug, PartialEq, Eq, Structural)]
pub enum ReadbackError {
    /// A padded row of this width does not fit a 32-bit row pitch.
    RowTooWide,
    /// A copy was asked for while the previous capture was not yet saved.
    CaptureInFlight,
    /// A save was asked for with no copy queued before it.
    NoCapturePending,
    /// The buffer could not be mapped for reading; the capture is lost.
    MapFailed,
    /// The mapped bytes are not as many as the buffer holds.
    WrongBufferSize,
    /// The image encoder refused the frame.
    Encoding,
}

/// The least multiple of 256, the row pitch granularity of a
/// texture-to-buffer copy, that is not below `n`.
pub open spec fn aligned_up(n: nat) -> nat {
    ((n + 255) / 256) * 256
}

/// Bytes of one buffer row for frames `width` pixels wide, at four bytes a
/// pixel, padding included.
pub open spec fn padded_row_bytes(width: nat) -> nat {
    aligned_up(4 * width)
}

/// The pixel bytes of a padded buffer: of each of the `rows` rows, `stride`
/// bytes apart, the first `row_bytes` bytes.
pub open spec fn unpadded(data: Seq<u8>, row_bytes: nat, stride: nat, rows: nat) -> Seq<u8> {
    Seq::new(row_bytes * rows, |k: int| data[(k / (row_bytes as int)) * stride + k % (row_bytes as int)])
}

/// The eight bytes every PNG stream starts with.
pub open spec fn png_signature() -> Seq<u8> {
    seq![137u8, 80u8, 78u8, 71u8, 13u8, 10u8, 26u8, 10u8]
}

/// What the encoder makes of an image of `width` by `height` RGBA pixels:
/// the PNG stream, or `None` where it refuses the image.
pub uninterp spec fn png_encoding(pixels: Seq<u8>, width: u32, height: u32) -> Option<Seq<u8>>;

/// Rounding up to the alignment gives a multiple of it and adds less than
/// one alignment step.
pub proof fn lemma_aligned_up(n: nat)
    ensures
        aligned_up(n) % 256 == 0,
        n <= aligned_up(n) < n + 256,
{
    let m: int = (n + 255) as int;
    vstd::arithmetic::div_mod::lemma_fundamental_div_mod(m, 256);
    vstd::arithmetic::div_mod::lemma_mod_bound(m, 256);
    vstd::arithmetic::div_mod::lemma_mod_multiples_basic(m / 256, 256);
}

/// Rounds `num` up to the next multiple of the row alignment.
pub fn round_to_next_byte_stride(num: u32) -> (r: u64)
    ensures
        r == aligned_up(num as nat),
        r % 256 == 0,
        num <= r < num + 256,
{
    proof {
        lemma_aligned_up(num as nat);
    }
    ((num as u64 + 255) / 256) * 256
}

/// What a texture-to-buffer copy of one frame has to be told.
#[derive(Copy, Clone, Debug, PartialEq, Eq, Structural)]
pub struct CopyLayout {
    pub bytes_per_row: u32,
    pub rows_per_image: u32,
}

/// The readback state as a mathematical value.
pub struct ReadbackModel {
    pub width: u32,
    pub height: u32,
    /// A copy was queued and its frame not yet saved.
    pub pending: bool,
}

impl ReadbackModel {
    pub open spec fn stride(self) -> nat {
        padded_row_bytes(self.width as nat)
    }

    /// Size in bytes of the readback buffer.
    pub open spec fn buffer_len(self) -> nat {
        self.stride() * (self.height as nat)
    }

    /// The frame's pixel bytes, given the mapped buffer.
    pub open spec fn pixels(self, data: Seq<u8>) -> Seq<u8> {
        unpadded(data, 4 * (self.width as nat), self.stride(), self.height as nat)
    }
}

/// Describes the buffer a frame is read back through and keeps track of
/// whether a capture is under way. One value stands for one buffer; after a
/// resize a new one is made.
pub struct Screenshotter {
    width: u32,
    height: u32,
    stride: u32,
    pending: bool,
}

impl View for Screenshotter {
    type V = ReadbackModel;

    closed spec fn view(&self) -> ReadbackModel {
        ReadbackModel { width: self.width, height: self.height, pending: self.pending }
    }
}

impl Screenshotter {
    /// The invariant of every value handed out by this module.
    pub closed spec fn wf(&self) -> bool {
        self.stride == padded_row_bytes(self.width as nat)
    }

    /// Describes the buffer for frames of `width` by `height` pixels. Fails
    /// when a padded row is longer than a row pitch can say.
    pub fn new(width: u32, height: u32) -> (r: Result<Self, ReadbackError>)
        ensures
            padded_row_bytes(width as nat) <= u32::MAX ==> r is Ok && r->Ok_0.wf() && r->Ok_0@ == (
            ReadbackModel { width, height, pending: false }),
            padded_row_bytes(width as nat) > u32::MAX ==> r is Err && r->Err_0
                == ReadbackError::RowTooWide,
    {
        let row: u64 = width as u64 * 4;
        let stride: u64 = ((row + 255) / 256) * 256;
        if stride > u32::MAX as u64 {
            return Err(ReadbackError::RowTooWide);
        }
        Ok(Screenshotter { width, height, stride: stride as u32, pending: false })
    }

    pub fn width(&self) -> (w: u32)
        ensures
            w == self@.width,
    {
        self.width
    }

    pub fn height(&self) -> (h: u32)
        ensures
            h == self@.height,
    {
        self.height
    }

    /// Bytes of one buffer row, padding included.
    pub fn bytes_per_row(&self) -> (n: u32)
        requires
            self.wf(),
        ensures
            n == self@.stride(),
    {
        self.stride
    }

    /// Size in bytes of the buffer to allocate.
    pub fn buffer_size(&self) -> (n: u64)
        requires
            self.wf(),
        ensures
            n == self@.buffer_len(),
    {
        assert(self.stride * self.height <= 0xFFFF_FFFF * 0xFFFF_FFFF) by (nonlinear_arith)
            requires
                self.stride <= 0xFFFF_FFFF,
                self.height <= 0xFFFF_FFFF,
        ;
        self.stride as u64 * self.height as u64
    }

    pub fn is_pending(&self) -> (pending: bool)
        ensures
            pending == self@.pending,
    {
        self.pending
    }

    /// Claims the buffer for a copy of the current frame and says how the
    /// copy is laid out. Refused, with nothing changed, while an earlier
    /// capture has not been saved.
    pub fn screenshot(&mut self) -> (r: Result<CopyLayout, ReadbackError>)
        requires
            old(self).wf(),
        ensures
            final(self).wf(),
            !old(self)@.pending ==> r is Ok && r->Ok_0.bytes_per_row == old(self)@.stride()
                && r->Ok_0.rows_per_image == old(self)@.height && final(self)@ == (ReadbackModel {
                pending: true,
                ..old(self)@
            }),
            old(self)@.pending ==> r == Err::<CopyLayout, ReadbackError>(
                ReadbackError::CaptureInFlight,
            ) && final(self)@ == old(self)@,
    {
        if self.pending {
            return Err(ReadbackError::CaptureInFlight);
        }
        self.pending = true;
        Ok(CopyLayout { bytes_per_row: self.stride, rows_per_image: self.height })
    }

    /// The frame's pixel bytes without the padding at the end of each row:
    /// `4 * width * height` of them, whatever the row pitch. Fails when
    /// `data` is not a whole buffer.
    pub fn unpad(&self, data: &[u8]) -> (r: Result<Vec<u8>, ReadbackError>)
        requires
            self.wf(),
        ensures
            data@.len() == self@.buffer_len() ==> r is Ok && r->Ok_0@ == self@.pixels(data@)
                && r->Ok_0@.len() == 4 * self@.width * self@.height,
            data@.len() != self@.buffer_len() ==> r is Err && r->Err_0
                == ReadbackError::WrongBufferSize,
    {
        if data.len() as u64 != self.buffer_size() {
            return Err(ReadbackError::WrongBufferSize);
        }
        let row_bytes: u64 = self.width as u64 * 4;
        let stride: u64 = self.stride as u64;
        let rows: u64 = self.height as u64;
        proof {
            lemma_aligned_up(row_bytes as nat);
        }
        let mut out: Vec<u8> = Vec::new();
        let mut row: u64 = 0;
        while row < rows
            invariant
                row <= rows,
                rows == self.height,
                row_bytes == 4 * self.width,
                stride == self@.stride(),
                row_bytes <= stride,
                data@.len() == stride * rows,
                data@.len() <= usize::MAX,
                out@ == unpadded(data@, row_bytes as nat, stride as nat, row as nat),
            decreases rows - row,
        {
            let mut col: u64 = 0;
            proof {
                lemma_row_in_buffer(row as int, rows as int, stride as int);
            }
            while col < row_bytes
                invariant
                    col <= row_bytes,
                    row < rows,
                    row_bytes <= stride,
                    data@.len() == stride * rows,
                    data@.len() <= usize::MAX,
                    0 <= row * stride,
                    row * stride + stride <= data@.len(),
                    out@.len() == row_bytes * row + col,
                    forall|k: int| 0 <= k < row_bytes * row ==> #[trigger] out@[k] == unpadded(
                        data@,
                        row_bytes as nat,
                        stride as nat,
                        row as nat,
                    )[k],
                    forall|c: int| 0 <= c < col ==> #[trigger] out@[row_bytes * row + c] == data@[row
                        * stride + c],
                decreases row_bytes - col,
            {
                out.push(data[(row * stride + col) as usize]);
                col += 1;
            }
            proof {
                lemma_unpadded_extend(data@, row_bytes as nat, stride as nat, row as nat, out@);
            }
            row += 1;
        }
        proof {
            assert(row_bytes * rows == 4 * self@.width * self@.height) by (nonlinear_arith)
                requires
                    row_bytes == 4 * self@.width,
                    rows == self@.height,
            ;
        }
        Ok(out)
    }

    /// Ends the capture that `screenshot` began: takes the mapped buffer, or
    /// `None` when mapping failed, strips the row padding and encodes the
    /// frame as PNG. With a capture pending and a whole buffer, the result is
    /// the encoder's stream wherever the encoder gives one, and `Encoding`
    /// only where it refuses the frame, as it does for a frame without
    /// pixels. Whatever the outcome, the buffer is free for the next capture
    /// afterwards.
    pub fn save_screenshot_to_disk(&mut self, mapped: Option<&[u8]>) -> (r: Result<
        Vec<u8>,
        ReadbackError,
    >)
        requires
            old(self).wf(),
        ensures
            final(self).wf(),
            final(self)@ == (ReadbackModel { pending: false, ..old(self)@ }),
            !old(self)@.pending ==> r is Err && r->Err_0 == ReadbackError::NoCapturePending,
            old(self)@.pending && mapped is None ==> r is Err && r->Err_0
                == ReadbackError::MapFailed,
            old(self)@.pending && mapped is Some && mapped->Some_0@.len() != old(self)@.buffer_len()
                ==> r is Err && r->Err_0 == ReadbackError::WrongBufferSize,
            old(self)@.pending && mapped is Some && mapped->Some_0@.len() == old(self)@.buffer_len()
                ==> match png_encoding(
                old(self)@.pixels(mapped->Some_0@),
                old(self)@.width,
                old(self)@.height,
            ) {
                Some(stream) => r is Ok && r->Ok_0@ == stream,
                None => r is Err && r->Err_0 == ReadbackError::Encoding,
            },
            old(self)@.width == 0 || old(self)@.height == 0 ==> r is Err,
            r is Ok ==> r->Ok_0@.len() >= 8 && r->Ok_0@.subrange(0, 8) == png_signature(),
    {
        if !self.pending {
            return Err(ReadbackError::NoCapturePending);
        }
        self.pending = false;
        match mapped {
            None => Err(ReadbackError::MapFailed),
            Some(data) => match self.unpad(data) {
                Err(e) => Err(e),
                Ok(pixels) => encoded_frame(encode_png(&pixels, self.width, self.height)),
            },
        }
    }
}

/// What a save returns once the encoder has answered: the stream it
/// produced, or `Encoding` for any failure it reports.
pub fn encoded_frame(encoded: Result<Vec<u8>, image::ImageError>) -> (r: Result<
    Vec<u8>,
    ReadbackError,
>)
    ensures
        encoded is Ok ==> r is Ok && r->Ok_0 == encoded->Ok_0,
        encoded is Err ==> r is Err && r->Err_0 == ReadbackError::Encoding,
{
    match encoded {
        Ok(png) => Ok(png),
        Err(_) => Err(ReadbackError::Encoding),
    }
}

/// Row `row` of a buffer of `rows` rows lies inside the buffer.
proof fn lemma_row_in_buffer(row: int, rows: int, stride: int)
    requires
        0 <= row < rows,
        0 <= stride,
    ensures
        0 <= row * stride,
        row * stride + stride <= stride * rows,
{
    assert(0 <= row * stride && row * stride + stride <= stride * rows) by (nonlinear_arith)
        requires
            0 <= row,
            row + 1 <= rows,
            0 <= stride,
    ;
}

/// Appending the pixel bytes of row `rows` to the pixel bytes of the rows
/// before it gives the pixel bytes of one row more.
proof fn lemma_unpadded_extend(data: Seq<u8>, row_bytes: nat, stride: nat, rows: nat, out: Seq<u8>)
    requires
        out.len() == row_bytes * rows + row_bytes,
        forall|k: int| 0 <= k < row_bytes * rows ==> #[trigger] out[k] == unpadded(
            data,
            row_bytes,
            stride,
            rows,
        )[k],
        forall|c: int| 0 <= c < row_bytes ==> #[trigger] out[row_bytes * rows + c] == data[rows * stride
            + c],
    ensures
        out == unpadded(data, row_bytes, stride, rows + 1),
{
    let next = unpadded(data, row_bytes, stride, rows + 1);
    assert(row_bytes * (rows + 1) == row_bytes * rows + row_bytes) by (nonlinear_arith);
    assert forall|k: int| 0 <= k < out.len() implies out[k] == next[k] by {
        if k >= row_bytes * rows {
            let c = k - row_bytes * rows;
            assert(out[row_bytes * rows + c] == data[rows * stride + c]);
            assert(k == rows * row_bytes + c) by (nonlinear_arith)
                requires
                    c == k - row_bytes * rows,
            ;
            vstd::arithmetic::div_mod::lemma_fundamental_div_mod_converse(
                k,
                row_bytes as int,
                rows as int,
                c,
            );
        }
    }
}

/// The outside type of the encoder's failures.
#[verifier::external_type_specification]
#[verifier::external_body]
pub struct ExImageError(image::ImageError);

/// `image::codecs::png::PngEncoder::write_image` into memory, for 8-bit
/// RGBA. Trusted: whether the encoder gives a stream or refuses, and which
/// stream it gives, depends on the pixels and the size alone, since it
/// writes to memory with its fixed compression and filter; a stream starts
/// with the PNG signature; and an image without pixels is refused. The
/// encoder panics on a pixel count other than `width * height`, which the
/// precondition rules out.
#[verifier::external_body]
fn encode_png(pixels: &Vec<u8>, width: u32, height: u32) -> (r: Result<Vec<u8>, image::ImageError>)
    requires
        pixels@.len() == 4 * width * height,
    ensures
        match r {
            Ok(stream) => png_encoding(pixels@, width, height) == Some(stream@) && stream@.len() >= 8
                && stream@.subrange(0, 8) == png_signature(),
            Err(_) => png_encoding(pixels@, width, height) is None,
        },
        width == 0 || height == 0 ==> r is Err,
{
    let mut stream: Vec<u8> = Vec::new();
    let encoder = image::codecs::png::PngEncoder::new(&mut stream);
    let written = encoder.write_image(pixels, width, height, image::ColorType::Rgba8);
    written.map(|_| stream)
}

} // verus!
