//! The hints of an incoming freedesktop `Notify`: the raw-pixel image structures
//! (`image-data`, the legacy `image_data` and `icon_data`) are decoded and taken out of the
//! vardict, and once the pixels have been cached the file takes their place as `image-path`.
use vstd::prelude::*;
use crate::hints::{Variant, Vardict, lookup};
use crate::text::{owned, str_eq};

verus! {

/// The three keys under which a raw-pixel image may arrive, in order of preference.
pub open spec fn image_keys() -> Seq<Seq<char>> {
    seq!["image-data"@, "image_data"@, "icon_data"@]
}

/// An `(iiibiiay)` raw image structure, as the notification spec defines it.
pub struct RawImage {
    /// Width in pixels.
    pub width: i32,
    /// Height in pixels.
    pub height: i32,
    /// Distance in bytes between row starts.
    pub rowstride: i32,
    /// Whether there is an alpha channel.
    pub has_alpha: bool,
    /// Bits per sample.
    pub bits_per_sample: i32,
    /// Channels per pixel.
    pub channels: i32,
    /// The pixel bytes, row by row.
    pub data: Vec<u8>,
}

/// The `i32` a variant holds (0 for any other variant).
pub open spec fn i32_of(v: Variant) -> i32 {
    match v {
        Variant::I32(x) => x,
        _ => 0,
    }
}

/// The `u8` a variant holds (0 for any other variant).
pub open spec fn u8_of(v: Variant) -> u8 {
    match v {
        Variant::U8(x) => x,
        _ => 0,
    }
}

/// The bytes of an array of `y` variants.
pub open spec fn bytes_of(items: Seq<Variant>) -> Seq<u8> {
    items.map_values(|v: Variant| u8_of(v))
}

/// `v` has the signature `(iiibiiay)`.
pub open spec fn is_raw_image(v: Variant) -> bool {
    v matches Variant::Structure(f) && f@.len() == 7 && f@[0] is I32 && f@[1] is I32 && f@[2] is I32
        && f@[3] is Bool && f@[4] is I32 && f@[5] is I32 && (f@[6] matches Variant::Array(sig, a)
        && sig@ == "y"@ && all_bytes(a@))
}

/// Every element is a `y` variant.
pub open spec fn all_bytes(items: Seq<Variant>) -> bool {
    forall|i: int| 0 <= i < items.len() ==> #[trigger] items[i] is U8
}

/// `img` holds the fields of the `(iiibiiay)` structure `v`.
pub open spec fn decodes_to(v: Variant, img: RawImage) -> bool {
    v matches Variant::Structure(f) && f@.len() == 7 && img.width == i32_of(f@[0]) && img.height
        == i32_of(f@[1]) && img.rowstride == i32_of(f@[2]) && f@[3] == Variant::Bool(img.has_alpha)
        && img.bits_per_sample == i32_of(f@[4]) && img.channels == i32_of(f@[5]) && (f@[6] matches Variant::Array(
        _,
        a,
    ) && img.data@ == bytes_of(a@))
}

/// Decodes an `(iiibiiay)` raw image structure; `None` when `v` has another signature.
#[verifier::loop_isolation(false)]
pub fn decode_raw_image(v: &Variant) -> (r: Option<RawImage>)
    ensures
        r is Some <==> is_raw_image(*v),
        r matches Some(img) ==> decodes_to(*v, img),
{
    let f = match v {
        Variant::Structure(f) => f,
        _ => return None,
    };
    if f.len() != 7 {
        return None;
    }
    let width = match &f[0] {
        Variant::I32(x) => *x,
        _ => return None,
    };
    let height = match &f[1] {
        Variant::I32(x) => *x,
        _ => return None,
    };
    let rowstride = match &f[2] {
        Variant::I32(x) => *x,
        _ => return None,
    };
    let has_alpha = match &f[3] {
        Variant::Bool(x) => *x,
        _ => return None,
    };
    let bits_per_sample = match &f[4] {
        Variant::I32(x) => *x,
        _ => return None,
    };
    let channels = match &f[5] {
        Variant::I32(x) => *x,
        _ => return None,
    };
    let items = match &f[6] {
        Variant::Array(sig, items) => {
            if !str_eq(sig.as_str(), "y") {
                return None;
            }
            items
        },
        _ => return None,
    };
    let mut data: Vec<u8> = Vec::new();
    let mut i: usize = 0;
    while i < items.len()
        invariant
            i <= items@.len(),
            forall|j: int| 0 <= j < i ==> #[trigger] items@[j] is U8,
            data@ == bytes_of(items@.take(i as int)),
        decreases items@.len() - i,
    {
        match &items[i] {
            Variant::U8(b) => data.push(*b),
            _ => {
                proof {
                    assert(!(items@[i as int] is U8));
                    assert(!all_bytes(items@));
                }
                return None;
            },
        }
        proof {
            assert(bytes_of(items@.take(i + 1)) =~= bytes_of(items@.take(i as int)).push(
                u8_of(items@[i as int]),
            ));
        }
        i = i + 1;
    }
    proof {
        assert(items@.take(items@.len() as int) =~= items@);
    }
    Some(RawImage { width, height, rowstride, has_alpha, bits_per_sample, channels, data })
}

/// Returned when an incoming image hint is not an `(iiibiiay)` structure: the whole `Notify`
/// call is rejected.
pub struct MalformedImageHint;

/// The hints of an incoming `Notify`, with its raw-pixel images decoded.
pub struct IncomingHints {
    image_data: Option<RawImage>,
    image_data_legacy: Option<RawImage>,
    icon_data: Option<RawImage>,
    hints: Vardict,
}

/// Whether `key` is one of the raw-pixel image keys.
pub open spec fn is_image_key(key: Seq<char>) -> bool {
    key == image_keys()[0] || key == image_keys()[1] || key == image_keys()[2]
}

/// The entries of `raw` other than the raw-pixel images, in order.
pub open spec fn other_hints(raw: Seq<(String, Variant)>) -> Seq<(String, Variant)>
    decreases raw.len(),
{
    if raw.len() == 0 {
        Seq::empty()
    } else if is_image_key(raw.last().0@) {
        other_hints(raw.drop_last())
    } else {
        other_hints(raw.drop_last()).push(raw.last())
    }
}

/// Whether every raw-pixel image entry of `raw` is an `(iiibiiay)` structure.
pub open spec fn images_well_formed(raw: Seq<(String, Variant)>) -> bool {
    forall|i: int| 0 <= i < raw.len() && is_image_key(#[trigger] raw[i].0@) ==> is_raw_image(raw[i].1)
}

/// Whether `key` is one of the raw-pixel image keys.
fn image_key(key: &str) -> (r: bool)
    ensures
        r == is_image_key(key@),
{
    str_eq(key, "image-data") || str_eq(key, "image_data") || str_eq(key, "icon_data")
}

impl IncomingHints {
    /// The decoded image under `key` (the first entry with that key).
    pub closed spec fn image_at(&self, k: int) -> Option<RawImage> {
        if k == 0 {
            self.image_data
        } else if k == 1 {
            self.image_data_legacy
        } else {
            self.icon_data
        }
    }

    /// The remaining hints.
    pub closed spec fn rest(&self) -> Seq<(String, Variant)> {
        self.hints@
    }

    /// Decodes the hints of a `Notify` call; fails when a raw-pixel image entry has another
    /// signature.
    #[verifier::loop_isolation(false)]
    pub fn decode(raw: Vardict) -> (r: Result<IncomingHints, MalformedImageHint>)
        ensures
            r is Ok <==> images_well_formed(raw@),
            r matches Ok(h) ==> h.rest() == other_hints(raw@) && forall|k: int|
                0 <= k < 3 ==> match #[trigger] h.image_at(k) {
                    Some(img) => lookup(raw@, image_keys()[k]) matches Some(v) && decodes_to(v, img),
                    None => lookup(raw@, image_keys()[k]) is None,
                },
    {
        let mut image_data: Option<RawImage> = None;
        let mut image_data_legacy: Option<RawImage> = None;
        let mut icon_data: Option<RawImage> = None;
        let mut hints: Vardict = Vec::new();
        let ghost keys = image_keys();
        proof {
            reveal_strlit("image-data");
            reveal_strlit("image_data");
            reveal_strlit("icon_data");
            assert(keys[0].len() == 10 && keys[1].len() == 10 && keys[2].len() == 9);
            assert(keys[0][5] != keys[1][5]);
            assert(keys[0] != keys[1]);
            assert(keys[0] != keys[2]);
            assert(keys[1] != keys[2]);
        }
        let ghost orig = raw@;
        let mut raw = raw;
        let ghost mut i: int = 0;
        while raw.len() > 0
            invariant
                0 <= i <= orig.len(),
                raw@ == orig.skip(i),
                keys == image_keys(),
                images_well_formed(orig.take(i)),
                hints@ == other_hints(orig.take(i)),
                match image_data {
                    Some(img) => lookup(orig.take(i), keys[0]) matches Some(v) && decodes_to(v, img),
                    None => lookup(orig.take(i), keys[0]) is None,
                },
                match image_data_legacy {
                    Some(img) => lookup(orig.take(i), keys[1]) matches Some(v) && decodes_to(v, img),
                    None => lookup(orig.take(i), keys[1]) is None,
                },
                match icon_data {
                    Some(img) => lookup(orig.take(i), keys[2]) matches Some(v) && decodes_to(v, img),
                    None => lookup(orig.take(i), keys[2]) is None,
                },
            decreases raw@.len(),
        {
            let ghost prefix = orig.take(i);
            let ghost next = orig.take(i + 1);
            let entry = raw.remove(0);
            proof {
                assert(entry == orig[i]);
                assert(next =~= prefix.push(orig[i]));
                assert(next.drop_last() =~= prefix);
                assert(raw@ =~= orig.skip(i + 1));
                lemma_lookup_push(prefix, orig[i], keys[0]);
                lemma_lookup_push(prefix, orig[i], keys[1]);
                lemma_lookup_push(prefix, orig[i], keys[2]);
            }
            if image_key(entry.0.as_str()) {
                let img = match decode_raw_image(&entry.1) {
                    Some(img) => img,
                    None => {
                        proof {
                            assert(is_image_key(orig[i].0@) && !is_raw_image(orig[i].1));
                        }
                        return Err(MalformedImageHint);
                    },
                };
                if str_eq(entry.0.as_str(), "image-data") {
                    if image_data.is_none() {
                        image_data = Some(img);
                    }
                } else if str_eq(entry.0.as_str(), "image_data") {
                    if image_data_legacy.is_none() {
                        image_data_legacy = Some(img);
                    }
                } else {
                    if icon_data.is_none() {
                        icon_data = Some(img);
                    }
                }
                proof {
                    assert(other_hints(next) =~= other_hints(prefix));
                }
            } else {
                hints.push(entry);
                proof {
                    assert(other_hints(next) =~= other_hints(prefix).push(orig[i]));
                }
            }
            proof {
                i = i + 1;
            }
        }
        proof {
            assert(orig.take(i) =~= orig);
        }
        Ok(IncomingHints { image_data, image_data_legacy, icon_data, hints })
    }
}

/// Looking up in `s` with one more entry finds the earlier match, else the new entry.
proof fn lemma_lookup_push(s: Seq<(String, Variant)>, e: (String, Variant), key: Seq<char>)
    ensures
        lookup(s.push(e), key) == match lookup(s, key) {
            Some(v) => Some(v),
            None => if e.0@ == key {
                Some(e.1)
            } else {
                None
            },
        },
    decreases s.len(),
{
    if s.len() > 0 {
        assert(s.push(e).drop_first() =~= s.drop_first().push(e));
        assert(s.push(e)[0] == s[0]);
        lemma_lookup_push(s.drop_first(), e, key);
    } else {
        assert(s.push(e).drop_first() =~= Seq::<(String, Variant)>::empty());
        assert(s.push(e)[0] == e);
        assert(lookup(Seq::<(String, Variant)>::empty(), key) is None);
        assert(lookup(s, key) is None);
    }
}

/// `s` without its entries keyed `key`, in order.
pub open spec fn without_key(s: Seq<(String, Variant)>, key: Seq<char>) -> Seq<(String, Variant)>
    decreases s.len(),
{
    if s.len() == 0 {
        Seq::empty()
    } else if s[0].0@ == key {
        without_key(s.drop_first(), key)
    } else {
        seq![s[0]] + without_key(s.drop_first(), key)
    }
}

/// Dropping the entries keyed `key` from `s` with one more entry.
proof fn lemma_without_key_push(s: Seq<(String, Variant)>, e: (String, Variant), key: Seq<char>)
    ensures
        without_key(s.push(e), key) == if e.0@ == key {
            without_key(s, key)
        } else {
            without_key(s, key).push(e)
        },
    decreases s.len(),
{
    if s.len() == 0 {
        assert(s.push(e).drop_first() =~= Seq::<(String, Variant)>::empty());
        assert(without_key(Seq::<(String, Variant)>::empty(), key) =~= Seq::empty());
        assert(s.push(e)[0] == e);
        if e.0@ != key {
            assert(seq![e] + Seq::<(String, Variant)>::empty() =~= Seq::<(String, Variant)>::empty().push(e));
        }
    } else {
        assert(s.push(e).drop_first() =~= s.drop_first().push(e));
        assert(s.push(e)[0] == s[0]);
        lemma_without_key_push(s.drop_first(), e, key);
        if s[0].0@ != key && e.0@ != key {
            assert(seq![s[0]] + without_key(s.drop_first(), key).push(e) =~= (seq![s[0]]
                + without_key(s.drop_first(), key)).push(e));
        }
    }
}

/// Looking up any other key is unaffected by dropping `key`; `key` itself is gone.
pub proof fn lemma_lookup_without_key(s: Seq<(String, Variant)>, key: Seq<char>, other: Seq<char>)
    ensures
        lookup(without_key(s, key), other) == if other == key {
            None
        } else {
            lookup(s, other)
        },
    decreases s.len(),
{
    if s.len() > 0 {
        lemma_lookup_without_key(s.drop_first(), key, other);
        if s[0].0@ != key {
            let w = seq![s[0]] + without_key(s.drop_first(), key);
            assert(w[0] == s[0]);
            assert(w.drop_first() =~= without_key(s.drop_first(), key));
        }
    }
}

/// `map` with `key` set to `value`: earlier entries for `key` are dropped and the new one is
/// appended, so a lookup of `key` finds `value` and every other key is unaffected.
pub fn set_entry(map: Vardict, key: &str, value: Variant) -> (r: Vardict)
    ensures
        r@ == without_key(map@, key@).push((r@.last().0, value)),
        r@.last().0@ == key@,
{
    let ghost orig = map@;
    let mut rest = map;
    let mut out: Vardict = Vec::new();
    let ghost mut i: int = 0;
    while rest.len() > 0
        invariant
            0 <= i <= orig.len(),
            rest@ == orig.skip(i),
            out@ == without_key(orig.take(i), key@),
        decreases rest@.len(),
    {
        let entry = rest.remove(0);
        proof {
            assert(entry == orig[i]);
            assert(orig.take(i + 1) =~= orig.take(i).push(orig[i]));
            assert(rest@ =~= orig.skip(i + 1));
            lemma_without_key_push(orig.take(i), orig[i], key@);
        }
        if !str_eq(entry.0.as_str(), key) {
            out.push(entry);
        }
        proof {
            i = i + 1;
        }
    }
    proof {
        assert(orig.take(i) =~= orig);
    }
    out.push((owned(key), value));
    out
}

/// A lookup in `set_entry`'s result: `key` finds `value`, every other key what it found before.
pub proof fn lemma_lookup_set_entry(
    map: Seq<(String, Variant)>,
    key: String,
    value: Variant,
    other: Seq<char>,
)
    ensures
        lookup(without_key(map, key@).push((key, value)), other) == if other == key@ {
            Some(value)
        } else {
            lookup(map, other)
        },
{
    lemma_lookup_push(without_key(map, key@), (key, value), other);
    lemma_lookup_without_key(map, key@, other);
}

impl IncomingHints {
    /// The raw-pixel image to cache: `image-data`, else the legacy `image_data`, else
    /// `icon_data`.
    pub fn image_data(&self) -> (r: Option<&RawImage>)
        ensures
            r == match self.image_at(0) {
                Some(img) => Some(&img),
                None => match self.image_at(1) {
                    Some(img) => Some(&img),
                    None => match self.image_at(2) {
                        Some(img) => Some(&img),
                        None => None,
                    },
                },
            },
    {
        match &self.image_data {
            Some(img) => Some(img),
            None => match &self.image_data_legacy {
                Some(img) => Some(img),
                None => self.icon_data.as_ref(),
            },
        }
    }

    /// The hints other than the raw-pixel images, in the order they arrived.
    pub fn into_owned(self) -> (r: Vardict)
        ensures
            r@ == self.rest(),
    {
        self.hints
    }

    /// The hints without the raw-pixel images; when the image was cached to a file, its path
    /// as the `image-path` hint.
    pub fn normalize(self, cached_path: Option<String>) -> (r: Vardict)
        ensures
            match cached_path {
                None => r@ == self.rest(),
                Some(p) => r@ == without_key(self.rest(), "image-path"@).push((r@.last().0, Variant::Str(p)))
                    && r@.last().0@ == "image-path"@,
            },
    {
        let hints = self.into_owned();
        match cached_path {
            None => hints,
            Some(p) => set_entry(hints, "image-path", Variant::Str(p)),
        }
    }
}

} // verus!
