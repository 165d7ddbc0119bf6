//! Caching a raw notification image as a PNG: which color type the raw layout maps to, the
//! pixel rows without their rowstride padding, the PNG bytes that are written to the cache,
//! and which cached files the restored notifications still reference.
use vstd::prelude::*;
use crate::model::{Alert, Image};
use crate::notification::Notification;

verus! {

/// The PNG color type of a raw image.
#[derive(Debug, Clone, Copy, PartialEq, Eq, Structural)]
pub enum ColorType {
    /// Three 8-bit channels.
    Rgb,
    /// Four 8-bit channels.
    Rgba,
}

/// The color type of 8-bit RGB or RGBA pixels; `None` for any other layout.
pub open spec fn color_type_spec(bits_per_sample: i32, channels: i32) -> Option<ColorType> {
    if bits_per_sample != 8 {
        None
    } else if channels == 3 {
        Some(ColorType::Rgb)
    } else if channels == 4 {
        Some(ColorType::Rgba)
    } else {
        None
    }
}

/// The PNG color type of a raw image layout (see [`color_type_spec`]).
pub fn png_color_type(bits_per_sample: i32, channels: i32) -> (r: Option<ColorType>)
    ensures
        r == color_type_spec(bits_per_sample, channels),
{
    if bits_per_sample != 8 {
        return None;
    }
    match channels {
        3 => Some(ColorType::Rgb),
        4 => Some(ColorType::Rgba),
        _ => None,
    }
}

/// The smaller of two numbers.
pub open spec fn min_nat(a: nat, b: nat) -> nat {
    if a < b {
        a
    } else {
        b
    }
}

/// The pixel rows of `data` cut into `stride`-byte rows (the last possibly shorter), each
/// keeping its first `row` bytes.
pub open spec fn stripped(data: Seq<u8>, row: nat, stride: nat) -> Seq<u8>
    decreases data.len(),
{
    if data.len() == 0 || stride == 0 {
        Seq::empty()
    } else {
        let end = min_nat(stride, data.len());
        let chunk = data.take(end as int);
        chunk.take(min_nat(row, chunk.len()) as int) + stripped(data.skip(end as int), row, stride)
    }
}

/// The bytes of a row (`channels * width`) and the row stride, as the machine sees them.
pub open spec fn row_bytes(width: i32, channels: i32) -> usize {
    (channels * width) as usize
}

/// The pixel data without rowstride padding: unchanged when the stride is exactly a row,
/// else each `rowstride`-byte row cut to its `channels * width` pixel bytes.
pub fn strip_rowstride_padding(width: i32, channels: i32, rowstride: i32, data: &[u8]) -> (r: Vec<u8>)
    requires
        i32::MIN <= channels * width <= i32::MAX,
        rowstride != 0 || channels * width == 0,
    ensures
        r@ == if (rowstride as usize) == row_bytes(width, channels) {
            data@
        } else {
            stripped(data@, row_bytes(width, channels) as nat, (rowstride as usize) as nat)
        },
{
    let product: i32 = channels * width;
    let row: usize = product as usize;
    let stride: usize = rowstride as usize;
    let mut out: Vec<u8> = Vec::new();
    if stride == row {
        let mut k: usize = 0;
        while k < data.len()
            invariant
                k <= data@.len(),
                out@ == data@.take(k as int),
            decreases data@.len() - k,
        {
            out.push(data[k]);
            proof {
                assert(out@ =~= data@.take(k + 1));
            }
            k = k + 1;
        }
        proof {
            assert(data@.take(data@.len() as int) =~= data@);
        }
        return out;
    }
    if stride == 0 {
        assert(rowstride == 0) by (bit_vector)
            requires
                rowstride as usize == 0usize,
        ;
        assert(false);
    }
    let mut i: usize = 0;
    proof {
        assert(data@.skip(0) =~= data@);
        assert(out@ + stripped(data@.skip(0), row as nat, stride as nat) =~= stripped(data@, row as nat, stride as nat));
    }
    while i < data.len()
        invariant
            i <= data@.len(),
            stride > 0,
            out@ + stripped(data@.skip(i as int), row as nat, stride as nat) == stripped(data@, row as nat, stride as nat),
        decreases data@.len() - i,
    {
        let end: usize = if stride > data.len() - i {
            data.len()
        } else {
            i + stride
        };
        let avail: usize = end - i;
        let take: usize = if row < avail {
            row
        } else {
            avail
        };
        let ghost before = out@;
        let mut k: usize = 0;
        while k < take
            invariant
                k <= take,
                i + take <= data.len(),
                out@ == before + data@.subrange(i as int, i + k),
            decreases take - k,
        {
            out.push(data[i + k]);
            proof {
                assert(out@ =~= before + data@.subrange(i as int, i + k + 1));
            }
            k = k + 1;
        }
        proof {
            let rest = data@.skip(i as int);
            assert(rest.len() > 0);
            let e = min_nat(stride as nat, rest.len());
            assert(e == avail);
            let chunk = rest.take(e as int);
            assert(chunk.take(min_nat(row as nat, chunk.len()) as int) =~= data@.subrange(i as int, i + take));
            assert(rest.skip(e as int) =~= data@.skip(end as int));
            assert(stripped(rest, row as nat, stride as nat) == data@.subrange(i as int, i + take) + stripped(data@.skip(end as int), row as nat, stride as nat));
            assert(out@ + stripped(data@.skip(end as int), row as nat, stride as nat) =~= before + stripped(rest, row as nat, stride as nat));
        }
        i = end;
    }
    proof {
        assert(data@.skip(i as int).len() == 0);
        assert(out@ + stripped(data@.skip(i as int), row as nat, stride as nat) =~= out@);
    }
    out
}

/// The bytes of the PNG file that the `png` crate encodes for `width` x `height` 8-bit pixels
/// (RGBA when `alpha`, else RGB) with fast compression.
pub uninterp spec fn png_encoding(width: u32, height: u32, alpha: bool, pixels: Seq<u8>) -> Seq<u8>;

/// The samples per pixel of a color type.
pub open spec fn samples(color: ColorType) -> int {
    match color {
        ColorType::Rgb => 3,
        ColorType::Rgba => 4,
    }
}

/// What encoding `pixels` as a PNG gives: nothing for an empty dimension or a buffer whose
/// length is not exactly `width * samples * height`; else the encoded file.
pub open spec fn png_outcome(width: u32, height: u32, color: ColorType, pixels: Seq<u8>) -> Option<
    Seq<u8>,
> {
    if width == 0 || height == 0 || pixels.len() != (width as int) * samples(color) * (height as int) {
        None
    } else {
        Some(png_encoding(width, height, color == ColorType::Rgba, pixels))
    }
}

/// Encodes 8-bit pixels as a PNG file in memory with `png::Encoder` (header, image data,
/// trailer). The encoder refuses a zero width or height and a buffer whose length is not
/// `width * samples * height`; writing into a `Vec` cannot fail otherwise. The file's bytes
/// are named by [`png_encoding`], not stated.
#[verifier::external_body]
fn encode_png(width: u32, height: u32, color: ColorType, pixels: &[u8]) -> (r: Option<Vec<u8>>)
    requires
        (width as int) * (height as int) * samples(color) <= usize::MAX,
    ensures
        r is Some <==> (width != 0 && height != 0 && pixels@.len() == (width as int) * samples(color)
            * (height as int)),
        r matches Some(b) ==> b@ == png_encoding(width, height, color == ColorType::Rgba, pixels@),
{
    let mut out: Vec<u8> = Vec::new();
    let mut encoder = png::Encoder::new(&mut out, width, height);
    encoder.set_color(match color {
        ColorType::Rgb => png::ColorType::Rgb,
        ColorType::Rgba => png::ColorType::Rgba,
    });
    encoder.set_depth(png::BitDepth::Eight);
    encoder.set_compression(png::Compression::Fast);
    let mut writer = encoder.write_header().ok()?;
    writer.write_image_data(pixels).ok()?;
    writer.finish().ok()?;
    Some(out)
}

/// The pixel bytes of a raw image as the PNG receives them (see
/// [`strip_rowstride_padding`]).
pub open spec fn png_pixels(width: i32, channels: i32, rowstride: i32, data: Seq<u8>) -> Seq<u8> {
    if (rowstride as usize) == row_bytes(width, channels) {
        data
    } else {
        stripped(data, row_bytes(width, channels) as nat, (rowstride as usize) as nat)
    }
}

/// The PNG file to cache for a raw `(iiibiiay)` image: nothing for a layout other than 8-bit
/// RGB or RGBA; else the encoding of its pixels without rowstride padding, at its width and
/// height taken as unsigned (see [`png_outcome`]).
pub fn png_for_raw_image(
    width: i32,
    height: i32,
    rowstride: i32,
    bits_per_sample: i32,
    channels: i32,
    data: &[u8],
) -> (r: Option<Vec<u8>>)
    requires
        color_type_spec(bits_per_sample, channels) is Some ==> i32::MIN <= channels * width
            <= i32::MAX && (rowstride != 0 || channels * width == 0),
    ensures
        match color_type_spec(bits_per_sample, channels) {
            None => r is None,
            Some(c) => match r {
                Some(b) => png_outcome(width as u32, height as u32, c, png_pixels(width, channels, rowstride, data@))
                    == Some(b@),
                None => png_outcome(width as u32, height as u32, c, png_pixels(width, channels, rowstride, data@)) is None,
            },
        },
{
    let color = match png_color_type(bits_per_sample, channels) {
        Some(c) => c,
        None => return None,
    };
    let pixels = strip_rowstride_padding(width, channels, rowstride, data);
    let w: u32 = width as u32;
    let h: u32 = height as u32;
    let per_pixel: u64 = if channels == 3 { 3 } else { 4 };
    assert(per_pixel == samples(color));
    let area = (w as u64).checked_mul(h as u64);
    let total = match area {
        Some(a) => a.checked_mul(per_pixel),
        None => None,
    };
    let len: usize = pixels.len();
    proof {
        let wi = w as int;
        let hi = h as int;
        let si = per_pixel as int;
        assert(wi * si * hi == wi * hi * si) by (nonlinear_arith);
        assert(wi * hi * si >= wi * hi) by (nonlinear_arith)
            requires
                si >= 3,
                wi >= 0,
                hi >= 0,
        ;
        if total is None {
            assert(wi * hi * si > u64::MAX);
            assert(len as int <= u64::MAX);
            assert(pixels@.len() != wi * si * hi);
        }
    }
    match total {
        None => return None,
        Some(t) => {
            if t > len as u64 {
                return None;
            }
        },
    }
    encode_png(w, h, color, pixels.as_slice())
}

/// The cached files a notification points at: its origin icon and its image when they are
/// files, and its alert when it is a sound file, in that order.
pub open spec fn paths_of(n: Notification) -> Seq<Seq<char>> {
    (match n.view.origin.icon {
        Some(Image::Path(p)) => seq![p@],
        _ => Seq::empty(),
    }) + (match n.view.image {
        Some(Image::Path(p)) => seq![p@],
        _ => Seq::empty(),
    }) + (match n.view.alert {
        Alert::File(p) => seq![p@],
        _ => Seq::empty(),
    })
}

/// The cached files the notifications of `list` point at, notification by notification.
pub open spec fn referenced(list: Seq<Notification>) -> Seq<Seq<char>>
    decreases list.len(),
{
    if list.len() == 0 {
        Seq::empty()
    } else {
        referenced(list.drop_last()) + paths_of(list.last())
    }
}

/// Whether `n` points at the file `x`: as its origin icon, its image or its alert's sound.
pub open spec fn points_at(n: Notification, x: Seq<char>) -> bool {
    ||| (n.view.origin.icon matches Some(Image::Path(p)) && p@ == x)
    ||| (n.view.image matches Some(Image::Path(p)) && p@ == x)
    ||| (n.view.alert matches Alert::File(p) && p@ == x)
}

proof fn lemma_paths_of(n: Notification, x: Seq<char>)
    ensures
        paths_of(n).contains(x) <==> points_at(n, x),
{
    let a: Seq<Seq<char>> = match n.view.origin.icon {
        Some(Image::Path(p)) => seq![p@],
        _ => Seq::empty(),
    };
    let b: Seq<Seq<char>> = match n.view.image {
        Some(Image::Path(p)) => seq![p@],
        _ => Seq::empty(),
    };
    let c: Seq<Seq<char>> = match n.view.alert {
        Alert::File(p) => seq![p@],
        _ => Seq::empty(),
    };
    let all = a + b + c;
    assert(all == paths_of(n));
    if points_at(n, x) {
        if n.view.origin.icon matches Some(Image::Path(p)) && p@ == x {
            assert(all[0] == x);
        } else if n.view.image matches Some(Image::Path(p)) && p@ == x {
            assert(all[a.len() as int] == x);
        } else {
            assert(all[(a.len() + b.len()) as int] == x);
        }
    }
    if all.contains(x) {
        let k = choose|k: int| 0 <= k < all.len() && all[k] == x;
        if k < a.len() {
            assert(all[k] == a[k]);
        } else if k < a.len() + b.len() {
            assert(all[k] == b[k - a.len()]);
        } else {
            assert(all[k] == c[k - a.len() - b.len()]);
        }
    }
}

/// Nothing a notification still shows is pruned, and nothing else is kept: a file is among
/// the referenced files exactly when some notification of the list points at it, as its
/// origin icon, its image or its alert's sound file.
pub proof fn law_referenced_files_are_what_notifications_point_at(list: Seq<Notification>, x: Seq<char>)
    ensures
        referenced(list).contains(x) <==> exists|i: int| 0 <= i < list.len() && points_at(#[trigger] list[i], x),
    decreases list.len(),
{
    if list.len() > 0 {
        let prev = list.drop_last();
        law_referenced_files_are_what_notifications_point_at(prev, x);
        lemma_paths_of(list.last(), x);
        let a = referenced(prev);
        let b = paths_of(list.last());
        assert(referenced(list) == a + b);
        if referenced(list).contains(x) {
            let k = choose|k: int| 0 <= k < (a + b).len() && (a + b)[k] == x;
            if k < a.len() {
                assert((a + b)[k] == a[k]);
                assert(a.contains(x));
                let i = choose|i: int| 0 <= i < prev.len() && points_at(#[trigger] prev[i], x);
                assert(list[i] == prev[i]);
            } else {
                assert((a + b)[k] == b[k - a.len()]);
                assert(b.contains(x));
                assert(list[list.len() - 1] == list.last());
            }
        }
        if exists|i: int| 0 <= i < list.len() && points_at(#[trigger] list[i], x) {
            let i = choose|i: int| 0 <= i < list.len() && points_at(#[trigger] list[i], x);
            if i < list.len() - 1 {
                assert(prev[i] == list[i]);
                assert(a.contains(x));
                let k = choose|k: int| 0 <= k < a.len() && a[k] == x;
                assert((a + b)[k] == x);
            } else {
                assert(b.contains(x));
                let k = choose|k: int| 0 <= k < b.len() && b[k] == x;
                assert((a + b)[a.len() + k] == x);
            }
        }
    }
}

/// The cached files the restored notifications still reference (every other cached blob can
/// be pruned).
pub fn referenced_paths(list: &[Notification]) -> (r: Vec<String>)
    ensures
        r@.map_values(|p: String| p@) == referenced(list@),
        forall|x: Seq<char>|
            #![trigger referenced(list@).contains(x)]
            r@.map_values(|p: String| p@).contains(x) <==> exists|i: int|
                0 <= i < list@.len() && points_at(#[trigger] list@[i], x),
{
    let mut out: Vec<String> = Vec::new();
    let mut i: usize = 0;
    while i < list.len()
        invariant
            i <= list@.len(),
            out@.map_values(|p: String| p@) == referenced(list@.take(i as int)),
        decreases list@.len() - i,
    {
        let n = &list[i];
        let ghost before = out@;
        if let Some(Image::Path(p)) = &n.view.origin.icon {
            out.push(p.clone());
        }
        if let Some(Image::Path(p)) = &n.view.image {
            out.push(p.clone());
        }
        if let Alert::File(p) = &n.view.alert {
            out.push(p.clone());
        }
        proof {
            assert(list@.take(i + 1).drop_last() =~= list@.take(i as int));
            assert(list@.take(i + 1).last() == list@[i as int]);
            assert(out@.map_values(|p: String| p@) =~= before.map_values(|p: String| p@) + paths_of(list@[i as int]));
        }
        i = i + 1;
    }
    proof {
        assert(list@.take(list@.len() as int) =~= list@);
        assert forall|x: Seq<char>| #![trigger referenced(list@).contains(x)] out@.map_values(|p: String| p@).contains(x)
            <==> exists|i: int| 0 <= i < list@.len() && points_at(#[trigger] list@[i], x) by {
            law_referenced_files_are_what_notifications_point_at(list@, x);
        }
    }
    out
}

} // verus!
