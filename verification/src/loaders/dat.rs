//! The DAT volume format: a text header of `Key: value` lines that names a
//! raw file of big-endian samples, x fastest and z slowest.

use vstd::prelude::*;
use crate::index3::Index3;
use crate::voxel::grid::{GridError, RaymarchTransferFunctionColors, VoxelGrid};
use crate::voxel::voxel::Voxel;

verus! {

/// Why a DAT header or its raw data was refused.
#[derive(Copy, Clone, Debug, PartialEq, Eq, Structural)]
pub enum DatError {
    /// A line holds no colon.
    MissingSeparator,
    /// The resolution is not three unsigned 32-bit numbers separated by
    /// single spaces.
    BadResolution,
    /// No line names the raw file.
    MissingFileName,
    /// No line gives the resolution.
    MissingResolution,
    /// The raw data holds fewer samples than the resolution asks for.
    Truncated,
    /// No grid of the header's resolution can be made.
    Grid(GridError),
}

/// How wide the samples of the raw file are.
#[derive(Copy, Clone, Debug, PartialEq, Eq, Structural)]
pub enum SampleFormat {
    /// One byte per sample.
    Byte,
    /// Two bytes per sample, the high byte first.
    Short,
}

impl SampleFormat {
    /// Bytes per sample.
    pub open spec fn width(self) -> nat {
        match self {
            SampleFormat::Byte => 1,
            SampleFormat::Short => 2,
        }
    }

    /// The largest value a sample can have.
    pub open spec fn spec_max_value(self) -> nat {
        match self {
            SampleFormat::Byte => 255,
            SampleFormat::Short => 65535,
        }
    }

    pub fn bytes(self) -> (n: usize)
        ensures
            n == self.width(),
    {
        match self {
            SampleFormat::Byte => 1,
            SampleFormat::Short => 2,
        }
    }

    pub fn max_value(self) -> (n: u16)
        ensures
            n == self.spec_max_value(),
    {
        match self {
            SampleFormat::Byte => 255,
            SampleFormat::Short => 65535,
        }
    }
}

/// A DAT header as a mathematical value.
pub struct HeaderModel {
    pub raw_file_name: Seq<u8>,
    pub resolution: Index3,
    pub format: SampleFormat,
}

/// What a DAT header says: the name of the raw file, the size of the
/// volume and the width of its samples.
#[derive(Debug)]
pub struct DatHeader {
    pub raw_file_name: Vec<u8>,
    pub resolution: Index3,
    pub format: SampleFormat,
}

impl View for DatHeader {
    type V = HeaderModel;

    open spec fn view(&self) -> HeaderModel {
        HeaderModel {
            raw_file_name: self.raw_file_name@,
            resolution: self.resolution,
            format: self.format,
        }
    }
}

/// What the lines read so far have said.
pub struct HeaderFields {
    pub raw_file_name: Option<Seq<u8>>,
    pub resolution: Option<Index3>,
    pub format: SampleFormat,
}

/// The key `ObjectFileName`.
pub open spec fn key_object_file_name() -> Seq<u8> {
    seq![79u8, 98u8, 106u8, 101u8, 99u8, 116u8, 70u8, 105u8, 108u8, 101u8, 78u8, 97u8, 109u8, 101u8]
}

/// The key `Resolution`.
pub open spec fn key_resolution() -> Seq<u8> {
    seq![82u8, 101u8, 115u8, 111u8, 108u8, 117u8, 116u8, 105u8, 111u8, 110u8]
}

/// The key `Format`.
pub open spec fn key_format() -> Seq<u8> {
    seq![70u8, 111u8, 114u8, 109u8, 97u8, 116u8]
}

/// The format name `USHORT`.
pub open spec fn format_ushort() -> Seq<u8> {
    seq![85u8, 83u8, 72u8, 79u8, 82u8, 84u8]
}

/// The resolution written in `s[from..to]`: three numbers with a single
/// space after the first and after the second. What follows a space after
/// the third is not looked at.
pub open spec fn spec_resolution(s: Seq<u8>, from: int, to: int) -> Option<Index3> {
    let e0 = find_in(s, 32, from, to);
    let e1 = find_in(s, 32, e0 + 1, to);
    let e2 = find_in(s, 32, e1 + 1, to);
    if e0 >= to || e1 >= to {
        None
    } else {
        match (spec_parse_u32(s, from, e0), spec_parse_u32(s, e0 + 1, e1), spec_parse_u32(s, e1 + 1, e2)) {
            (Some(x), Some(y), Some(z)) => Some(Index3 { x, y, z }),
            _ => None,
        }
    }
}

/// The effect of the line `s[from..to]`. The key is what stands before the
/// first colon, taken as it is; the value is what stands between the first
/// colon and the second, or the end of the line, without the white space
/// around it. A later line overrides an earlier one with the same key,
/// except that two-byte samples, once announced, stay. Lines with other
/// keys are passed over.
pub open spec fn apply_line(s: Seq<u8>, from: int, to: int, f: HeaderFields) -> Result<
    HeaderFields,
    DatError,
> {
    let sep = find_in(s, 58, from, to);
    if sep >= to {
        Err(DatError::MissingSeparator)
    } else {
        let end = find_in(s, 58, sep + 1, to);
        let a = skip_spaces(s, sep + 1, end);
        let b = skip_spaces_back(s, a, end);
        let key = s.subrange(from, sep);
        if key == key_object_file_name() {
            Ok(HeaderFields { raw_file_name: Some(s.subrange(a, b)), ..f })
        } else if key == key_resolution() {
            match spec_resolution(s, a, b) {
                Some(r) => Ok(HeaderFields { resolution: Some(r), ..f }),
                None => Err(DatError::BadResolution),
            }
        } else if key == key_format() {
            if s.subrange(a, b) == format_ushort() {
                Ok(HeaderFields { format: SampleFormat::Short, ..f })
            } else {
                Ok(f)
            }
        } else {
            Ok(f)
        }
    }
}

/// The effect of the lines of `text` from `pos` on, stopping at the first
/// line that is refused. Lines end at a line feed; a last line need not
/// have one.
pub open spec fn apply_lines(text: Seq<u8>, pos: int, f: HeaderFields) -> Result<
    HeaderFields,
    DatError,
>
    decreases text.len() - pos,
{
    if pos >= text.len() {
        Ok(f)
    } else {
        let eol = find_in(text, 10, pos, text.len() as int);
        let line = apply_line(text, pos, eol, f);
        if line is Ok && pos <= eol < text.len() {
            apply_lines(text, eol + 1, line->Ok_0)
        } else {
            line
        }
    }
}

/// What the header `text` says, or why it is refused.
pub open spec fn spec_parse_header(text: Seq<u8>) -> Result<HeaderModel, DatError> {
    let start = HeaderFields { raw_file_name: None, resolution: None, format: SampleFormat::Byte };
    match apply_lines(text, 0, start) {
        Err(e) => Err(e),
        Ok(f) => if f.raw_file_name is None {
            Err(DatError::MissingFileName)
        } else if f.resolution is None {
            Err(DatError::MissingResolution)
        } else {
            Ok(
                HeaderModel {
                    raw_file_name: f.raw_file_name->Some_0,
                    resolution: f.resolution->Some_0,
                    format: f.format,
                },
            )
        },
    }
}

/// The 8-bit density a sample stands for: the sample's share of the largest
/// value, as a share of 255, rounded down. A value above the largest counts
/// as the largest.
pub open spec fn spec_density(value: int, format: SampleFormat) -> int {
    let max = format.spec_max_value() as int;
    if value > max {
        255
    } else {
        value * 255 / max
    }
}

/// The cells of the volume that `raw` holds for a header `h`: each cell has
/// its sample's density in all four channels.
pub open spec fn spec_cells(h: HeaderModel, raw: Seq<u8>) -> Seq<Voxel> {
    Seq::new(
        h.resolution.volume(),
        |i: int|
            {
                let g = spec_density(spec_sample(raw, h.format, i), h.format) as u8;
                Voxel { color: [g, g, g, g] }
            },
    )
}

/// What loading the volume of header `h` from `raw` gives: the grid cannot
/// be made, or the data is too short, or the cells are there.
pub open spec fn spec_open(h: HeaderModel, raw: Seq<u8>) -> Result<Seq<Voxel>, DatError> {
    match VoxelGrid::spec_check(h.resolution) {
        Err(e) => Err(DatError::Grid(e)),
        Ok(_) => if h.resolution.volume() * h.format.width() > raw.len() {
            Err(DatError::Truncated)
        } else {
            Ok(spec_cells(h, raw))
        },
    }
}

/// Sample `i` of the raw data: one byte, or two with the high byte first.
pub open spec fn spec_sample(raw: Seq<u8>, format: SampleFormat, i: int) -> int {
    match format {
        SampleFormat::Byte => raw[i] as int,
        SampleFormat::Short => raw[2 * i] * 256 + raw[2 * i + 1],
    }
}

/// Position of the first `b` in `s[from..to]`, or `to` if there is none.
pub open spec fn find_in(s: Seq<u8>, b: u8, from: int, to: int) -> int
    decreases to - from,
{
    if from >= to {
        to
    } else if s[from] == b {
        from
    } else {
        find_in(s, b, from + 1, to)
    }
}

/// ASCII white space: space, tab, line feed, vertical tab, form feed and
/// carriage return.
pub open spec fn is_space(b: u8) -> bool {
    b == 32 || (9 <= b <= 13)
}

/// Position of the first byte of `s[from..to]` that is not white space, or
/// `to` if all of it is.
pub open spec fn skip_spaces(s: Seq<u8>, from: int, to: int) -> int
    decreases to - from,
{
    if from >= to {
        to
    } else if is_space(s[from]) {
        skip_spaces(s, from + 1, to)
    } else {
        from
    }
}

/// End of `s[from..to]` without its trailing white space.
pub open spec fn skip_spaces_back(s: Seq<u8>, from: int, to: int) -> int
    decreases to - from,
{
    if from >= to {
        from
    } else if is_space(s[to - 1]) {
        skip_spaces_back(s, from, to - 1)
    } else {
        to
    }
}

/// Whether `b` is a decimal digit.
pub open spec fn is_digit(b: u8) -> bool {
    48 <= b <= 57
}

/// The number written by the decimal digits `s[from..to]`.
pub open spec fn digits_value(s: Seq<u8>, from: int, to: int) -> int
    decreases to - from,
{
    if from >= to {
        0
    } else {
        digits_value(s, from, to - 1) * 10 + (s[to - 1] - 48)
    }
}

/// Whether `s[from..to]` holds decimal digits only.
pub open spec fn all_digits(s: Seq<u8>, from: int, to: int) -> bool {
    forall|i: int| from <= i < to ==> is_digit(#[trigger] s[i])
}

/// The unsigned 32-bit number written in `s[from..to]`: an optional plus
/// sign and at least one decimal digit, with a value that fits.
pub open spec fn spec_parse_u32(s: Seq<u8>, from: int, to: int) -> Option<u32> {
    let start = if from < to && s[from] == 43 {
        from + 1
    } else {
        from
    };
    if start < to && all_digits(s, start, to) && digits_value(s, start, to) <= u32::MAX {
        Some(digits_value(s, start, to) as u32)
    } else {
        None
    }
}

/// A number does not shrink when a digit is appended, and is never
/// negative.
proof fn lemma_digits_grow(s: Seq<u8>, from: int, mid: int, to: int)
    requires
        from <= mid <= to,
        all_digits(s, from, to),
    ensures
        0 <= digits_value(s, from, mid) <= digits_value(s, from, to),
    decreases to - mid,
{
    if mid < to {
        lemma_digits_grow(s, from, mid + 1, to);
        lemma_digits_nonneg(s, from, mid);
    } else {
        lemma_digits_nonneg(s, from, mid);
    }
}

proof fn lemma_digits_nonneg(s: Seq<u8>, from: int, to: int)
    requires
        from <= to,
        all_digits(s, from, to),
    ensures
        0 <= digits_value(s, from, to),
    decreases to - from,
{
    if from < to {
        lemma_digits_nonneg(s, from, to - 1);
    }
}

/// Position of the first `b` in `s[from..to]`, or `to`.
fn find_byte(s: &[u8], b: u8, from: usize, to: usize) -> (at: usize)
    requires
        from <= to <= s@.len(),
    ensures
        at == find_in(s@, b, from as int, to as int),
        from <= at <= to,
{
    let mut i: usize = from;
    while i < to && s[i] != b
        invariant
            from <= i <= to <= s@.len(),
            find_in(s@, b, from as int, to as int) == find_in(s@, b, i as int, to as int),
        decreases to - i,
    {
        i += 1;
    }
    i
}

/// The bounds of `s[from..to]` without leading and trailing white space.
fn trim_range(s: &[u8], from: usize, to: usize) -> (r: (usize, usize))
    requires
        from <= to <= s@.len(),
    ensures
        r.0 == skip_spaces(s@, from as int, to as int),
        r.1 == skip_spaces_back(s@, r.0 as int, to as int),
        from <= r.0 <= r.1 <= to,
{
    let mut lo: usize = from;
    while lo < to && byte_is_space(s[lo])
        invariant
            from <= lo <= to <= s@.len(),
            skip_spaces(s@, from as int, to as int) == skip_spaces(s@, lo as int, to as int),
        decreases to - lo,
    {
        lo += 1;
    }
    let mut hi: usize = to;
    while lo < hi && byte_is_space(s[hi - 1])
        invariant
            lo <= hi <= to <= s@.len(),
            skip_spaces_back(s@, lo as int, to as int) == skip_spaces_back(s@, lo as int, hi as int),
        decreases hi - lo,
    {
        hi -= 1;
    }
    (lo, hi)
}

fn byte_is_space(b: u8) -> (r: bool)
    ensures
        r == is_space(b),
{
    b == 32 || (9 <= b && b <= 13)
}

/// Reads the unsigned 32-bit number written in `s[from..to]`.
fn parse_u32(s: &[u8], from: usize, to: usize) -> (r: Option<u32>)
    requires
        from <= to <= s@.len(),
    ensures
        r == spec_parse_u32(s@, from as int, to as int),
{
    let start: usize = if from < to && s[from] == 43 {
        from + 1
    } else {
        from
    };
    if start >= to {
        return None;
    }
    let mut value: u64 = 0;
    let mut i: usize = start;
    while i < to
        invariant
            start <= i <= to <= s@.len(),
            start == (if from < to && s@[from as int] == 43 {
                from + 1
            } else {
                from as int
            }),
            all_digits(s@, start as int, i as int),
            value == digits_value(s@, start as int, i as int),
            value <= u32::MAX,
        decreases to - i,
    {
        let b: u8 = s[i];
        if b < 48 || b > 57 {
            return None;
        }
        let next: u64 = value * 10 + (b - 48) as u64;
        if next > u32::MAX as u64 {
            proof {
                if all_digits(s@, start as int, to as int) {
                    lemma_digits_grow(s@, start as int, i + 1, to as int);
                }
            }
            return None;
        }
        value = next;
        i += 1;
    }
    Some(value as u32)
}

/// Whether `s[from..to]` is exactly `word`.
fn range_is(s: &[u8], from: usize, to: usize, word: &[u8]) -> (r: bool)
    requires
        from <= to <= s@.len(),
    ensures
        r == (s@.subrange(from as int, to as int) == word@),
{
    if to - from != word.len() {
        return false;
    }
    let n: usize = word.len();
    let mut i: usize = 0;
    while i < n
        invariant
            i <= n,
            n == word@.len(),
            to - from == n,
            from <= to <= s@.len(),
            forall|k: int| 0 <= k < i ==> s@[from + k] == word@[k],
        decreases n - i,
    {
        if s[from + i] != word[i] {
            return false;
        }
        i += 1;
    }
    assert(s@.subrange(from as int, to as int) =~= word@);
    true
}

/// A copy of `s[from..to]`.
fn copy_range(s: &[u8], from: usize, to: usize) -> (v: Vec<u8>)
    requires
        from <= to <= s@.len(),
    ensures
        v@ == s@.subrange(from as int, to as int),
{
    let mut v: Vec<u8> = Vec::new();
    let mut i: usize = from;
    while i < to
        invariant
            from <= i <= to <= s@.len(),
            v@ == s@.subrange(from as int, i as int),
        decreases to - i,
    {
        v.push(s[i]);
        i += 1;
    }
    v
}

/// Reads the resolution written in `s[from..to]`.
fn parse_resolution(s: &[u8], from: usize, to: usize) -> (r: Option<Index3>)
    requires
        from <= to <= s@.len(),
    ensures
        r == spec_resolution(s@, from as int, to as int),
{
    let e0: usize = find_byte(s, 32, from, to);
    if e0 >= to {
        return None;
    }
    let e1: usize = find_byte(s, 32, e0 + 1, to);
    if e1 >= to {
        return None;
    }
    let e2: usize = find_byte(s, 32, e1 + 1, to);
    let x: u32 = match parse_u32(s, from, e0) {
        Some(x) => x,
        None => {
            return None;
        },
    };
    let y: u32 = match parse_u32(s, e0 + 1, e1) {
        Some(y) => y,
        None => {
            return None;
        },
    };
    let z: u32 = match parse_u32(s, e1 + 1, e2) {
        Some(z) => z,
        None => {
            return None;
        },
    };
    Some(Index3 { x, y, z })
}

/// Reads a DAT header. The header is refused when a line holds no colon,
/// when a resolution cannot be read, or when, after the last line, the name
/// of the raw file or the resolution is still missing.
pub fn parse_header(text: &[u8]) -> (r: Result<DatHeader, DatError>)
    ensures
        match r {
            Ok(header) => spec_parse_header(text@) == Ok::<HeaderModel, DatError>(header@),
            Err(e) => spec_parse_header(text@) == Err::<HeaderModel, DatError>(e),
        },
{
    let key_name: [u8; 14] = KEY_NAME;
    let key_resolution_bytes: [u8; 10] = KEY_RESOLUTION;
    let key_format_bytes: [u8; 6] = KEY_FORMAT;
    let ushort: [u8; 6] = USHORT;
    assert(key_resolution_bytes@ =~= key_resolution());
    assert(key_format_bytes@ =~= key_format());
    let len: usize = text.len();
    let mut name: Option<(usize, usize)> = None;
    let mut resolution: Option<Index3> = None;
    let mut format = SampleFormat::Byte;
    let ghost start = HeaderFields {
        raw_file_name: None,
        resolution: None,
        format: SampleFormat::Byte,
    };
    let ghost mut fields = start;
    let mut pos: usize = 0;
    while pos < len
        invariant
            pos <= len,
            len == text@.len(),
            key_name@ == key_object_file_name(),
            key_resolution_bytes@ == key_resolution(),
            key_format_bytes@ == key_format(),
            ushort@ == format_ushort(),
            start == (HeaderFields {
                raw_file_name: None,
                resolution: None,
                format: SampleFormat::Byte,
            }),
            apply_lines(text@, 0, start) == apply_lines(text@, pos as int, fields),
            fields.resolution == resolution,
            fields.format == format,
            match name {
                Some((a, b)) => a <= b <= len && fields.raw_file_name == Some(
                    text@.subrange(a as int, b as int),
                ),
                None => fields.raw_file_name is None,
            },
        decreases len - pos,
    {
        let eol: usize = find_byte(text, 10, pos, len);
        let sep: usize = find_byte(text, 58, pos, eol);
        if sep >= eol {
            return Err(DatError::MissingSeparator);
        }
        let end: usize = find_byte(text, 58, sep + 1, eol);
        let (a, b) = trim_range(text, sep + 1, end);
        if range_is(text, pos, sep, key_name.as_slice()) {
            name = Some((a, b));
            proof {
                fields = HeaderFields {
                    raw_file_name: Some(text@.subrange(a as int, b as int)),
                    ..fields
                };
            }
        } else if range_is(text, pos, sep, key_resolution_bytes.as_slice()) {
            match parse_resolution(text, a, b) {
                Some(r) => {
                    resolution = Some(r);
                    proof {
                        fields = HeaderFields { resolution: Some(r), ..fields };
                    }
                },
                None => {
                    return Err(DatError::BadResolution);
                },
            }
        } else if range_is(text, pos, sep, key_format_bytes.as_slice()) {
            if range_is(text, a, b, ushort.as_slice()) {
                format = SampleFormat::Short;
                proof {
                    fields = HeaderFields { format: SampleFormat::Short, ..fields };
                }
            }
        }
        pos = if eol < len {
            eol + 1
        } else {
            len
        };
    }
    match (name, resolution) {
        (None, _) => Err(DatError::MissingFileName),
        (Some(_), None) => Err(DatError::MissingResolution),
        (Some((a, b)), Some(resolution)) => Ok(
            DatHeader { raw_file_name: copy_range(text, a, b), resolution, format },
        ),
    }
}

/// The samples of a volume, in the order they stand in the raw data. Fails
/// with `Truncated` when `raw` is too short for a volume of this
/// resolution; what follows the last sample is not looked at.
pub fn sample_values(header: &DatHeader, raw: &[u8]) -> (r: Result<Vec<u16>, DatError>)
    ensures
        header@.resolution.volume() * header@.format.width() <= raw@.len() ==> r is Ok
            && r->Ok_0@.len() == header@.resolution.volume() && forall|i: int|
            0 <= i < r->Ok_0@.len() ==> #[trigger] r->Ok_0@[i] == spec_sample(
                raw@,
                header@.format,
                i,
            ),
        header@.resolution.volume() * header@.format.width() > raw@.len() ==> r == Err::<
            Vec<u16>,
            DatError,
        >(DatError::Truncated),
{
    let d = header.resolution;
    assert(d.x * d.y <= 0xFFFF_FFFF * 0xFFFF_FFFF) by (nonlinear_arith)
        requires
            d.x <= 0xFFFF_FFFF,
            d.y <= 0xFFFF_FFFF,
    ;
    let wide: u128 = d.x as u128 * d.y as u128;
    assert(wide * d.z <= 0xFFFF_FFFF * 0xFFFF_FFFF * 0xFFFF_FFFF) by (nonlinear_arith)
        requires
            0 <= wide <= 0xFFFF_FFFF * 0xFFFF_FFFF,
            d.z <= 0xFFFF_FFFF,
    ;
    let count: u128 = wide * d.z as u128;
    let needed: u128 = match header.format {
        SampleFormat::Byte => count,
        SampleFormat::Short => count * 2,
    };
    assert(needed == d.volume() * header@.format.width()) by (nonlinear_arith)
        requires
            count == d.volume(),
            header@.format.width() == 1 && needed == count || header@.format.width() == 2 && needed
                == count * 2,
    ;
    if needed > raw.len() as u128 {
        return Err(DatError::Truncated);
    }
    let n: usize = count as usize;
    let mut values: Vec<u16> = Vec::new();
    let mut i: usize = 0;
    while i < n
        invariant
            i <= n,
            raw@.len() <= usize::MAX,
            header@.format == SampleFormat::Byte ==> n <= raw@.len(),
            header@.format == SampleFormat::Short ==> 2 * n <= raw@.len(),
            values@.len() == i,
            forall|k: int| 0 <= k < i ==> #[trigger] values@[k] == spec_sample(raw@, header@.format, k),
        decreases n - i,
    {
        let value: u16 = match header.format {
            SampleFormat::Byte => raw[i] as u16,
            SampleFormat::Short => raw[2 * i] as u16 * 256 + raw[2 * i + 1] as u16,
        };
        values.push(value);
        i += 1;
    }
    Ok(values)
}

/// The 8-bit density that `value` stands for.
pub fn density(value: u16, format: SampleFormat) -> (g: u8)
    ensures
        g == spec_density(value as int, format),
{
    let max: u32 = format.max_value() as u32;
    if value as u32 > max {
        return 255;
    }
    assert(value * 255 / (max as int) <= 255) by (nonlinear_arith)
        requires
            0 <= value <= max,
            max > 0,
    ;
    (value as u32 * 255 / max) as u8
}

/// Loads the volume that the header describes from the bytes of its raw
/// file into a new grid with the default transfer function parameters. The
/// grid has not been uploaded yet.
pub fn open_voxel_grid(header: &DatHeader, raw: &[u8]) -> (r: Result<VoxelGrid, DatError>)
    ensures
        match r {
            Ok(grid) => grid.wf() && grid@.dimensions == header@.resolution && spec_open(
                header@,
                raw@,
            ) == Ok::<Seq<Voxel>, DatError>(grid@.cells) && !grid.in_sync() && grid.colors().words()
                == RaymarchTransferFunctionColors::default_words(),
            Err(e) => spec_open(header@, raw@) == Err::<Seq<Voxel>, DatError>(e),
        },
{
    let mut grid = match VoxelGrid::new(header.resolution) {
        Ok(grid) => grid,
        Err(e) => {
            return Err(DatError::Grid(e));
        },
    };
    let values = match sample_values(header, raw) {
        Ok(values) => values,
        Err(e) => {
            return Err(e);
        },
    };
    let n: usize = values.len();
    let mut colors: Vec<[u8; 4]> = Vec::new();
    let mut i: usize = 0;
    while i < n
        invariant
            i <= n,
            n == values@.len(),
            n == header@.resolution.volume(),
            colors@.len() == i,
            forall|k: int| 0 <= k < n ==> #[trigger] values@[k] == spec_sample(raw@, header@.format, k),
            forall|k: int| 0 <= k < i ==> (Voxel { color: #[trigger] colors@[k] }) == spec_cells(
                header@,
                raw@,
            )[k],
        decreases n - i,
    {
        let value: u16 = values[i];
        let g: u8 = density(value, header.format);
        colors.push([g, g, g, g]);
        i += 1;
    }
    proof {
        grid.lemma_wf();
    }
    match grid.fill(&colors) {
        Ok(()) => {
            assert(grid@.cells =~= spec_cells(header@, raw@));
            Ok(grid)
        },
        Err(e) => Err(DatError::Grid(e)),
    }
}

/// The bytes of the key `ObjectFileName`.
const KEY_NAME: [u8; 14] = [79, 98, 106, 101, 99, 116, 70, 105, 108, 101, 78, 97, 109, 101];

/// The bytes of the key `Resolution`.
const KEY_RESOLUTION: [u8; 10] = [82, 101, 115, 111, 108, 117, 116, 105, 111, 110];

/// The bytes of the key `Format`.
const KEY_FORMAT: [u8; 6] = [70, 111, 114, 109, 97, 116];

/// The bytes of the format name `USHORT`.
const USHORT: [u8; 6] = [85, 83, 72, 79, 82, 84];

} // verus!
