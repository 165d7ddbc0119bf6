//! Reading GLib's `g_notification_serialize()` vardict, which both the `org.gtk.Notifications`
//! and the portal backends receive: taking values out by key, the `buttons` rows, the
//! serialized `GIcon`, the portal `sound` and its `display-hint` list.
use vstd::prelude::*;
use crate::freedesktop::{strip_file_scheme, strip_file_uri};
use crate::hints::{Variant, Vardict, lookup, peel};
use crate::model::Image;
use crate::text::str_eq;

verus! {

/// The string a value holds, after peeling one variant layer.
pub open spec fn string_value(v: Variant) -> Option<String> {
    match peel(v) {
        Variant::Str(s) => Some(s),
        _ => None,
    }
}

/// The string an optional value holds.
pub open spec fn opt_string_value(v: Option<Variant>) -> Option<String> {
    match v {
        Some(v) => string_value(v),
        None => None,
    }
}

/// Takes the string a value holds, after peeling one variant layer.
pub fn into_string(v: Variant) -> (r: Option<String>)
    ensures
        r == string_value(v),
{
    match v {
        Variant::Str(s) => Some(s),
        Variant::Value(inner) => match *inner {
            Variant::Str(s) => Some(s),
            _ => None,
        },
        _ => None,
    }
}

/// Takes the string an optional value holds.
pub fn into_opt_string(v: Option<Variant>) -> (r: Option<String>)
    ensures
        r == opt_string_value(v),
{
    match v {
        Some(v) => into_string(v),
        None => None,
    }
}

/// Looking up a key other than the removed entry's is unaffected by removing it.
pub proof fn lemma_lookup_remove(s: Seq<(String, Variant)>, i: int, key: Seq<char>)
    requires
        0 <= i < s.len(),
        s[i].0@ != key || forall|j: int| 0 <= j < i ==> s[j].0@ != key,
    ensures
        s[i].0@ != key ==> lookup(s.remove(i), key) == lookup(s, key),
    decreases s.len(),
{
    if s[i].0@ != key {
        if i == 0 {
            assert(s.remove(0) =~= s.drop_first());
        } else {
            assert(s.remove(i)[0] == s[0]);
            assert(s.remove(i).drop_first() =~= s.drop_first().remove(i - 1));
            lemma_lookup_remove(s.drop_first(), i - 1, key);
        }
    }
}

/// The position of the first entry keyed `key`.
fn position(map: &Vardict, key: &str) -> (r: Option<usize>)
    ensures
        match r {
            Some(i) => i < map@.len() && map@[i as int].0@ == key@ && lookup(map@, key@) == Some(
                map@[i as int].1,
            ) && forall|j: int| 0 <= j < i ==> map@[j].0@ != key@,
            None => lookup(map@, key@) is None,
        },
{
    let mut i: usize = 0;
    assert(map@.skip(0) =~= map@);
    while i < map.len()
        invariant
            i <= map@.len(),
            forall|j: int| 0 <= j < i ==> map@[j].0@ != key@,
            lookup(map@, key@) == lookup(map@.skip(i as int), key@),
        decreases map@.len() - i,
    {
        proof {
            assert(map@.skip(i as int).drop_first() =~= map@.skip(i + 1));
        }
        if str_eq(map[i].0.as_str(), key) {
            return Some(i);
        }
        i = i + 1;
    }
    None
}

/// Takes out the value of the first entry keyed `key`; lookups of other keys are unaffected.
pub fn take(map: &mut Vardict, key: &str) -> (r: Option<Variant>)
    ensures
        r == lookup(old(map)@, key@),
        forall|k: Seq<char>| k != key@ ==> #[trigger] lookup(final(map)@, k) == lookup(old(map)@, k),
{
    match position(map, key) {
        Some(i) => {
            let ghost s = map@;
            let entry = map.remove(i);
            proof {
                assert forall|k: Seq<char>| k != key@ implies #[trigger] lookup(map@, k) == lookup(
                    s,
                    k,
                ) by {
                    lemma_lookup_remove(s, i as int, k);
                }
            }
            Some(entry.1)
        },
        None => None,
    }
}

/// A button of the `buttons` array.
pub struct ParsedButton {
    /// The label.
    pub label: String,
    /// The action name.
    pub action: String,
    /// The action's parameter, if any.
    pub target: Option<Variant>,
    /// The raw `purpose` string (portal v2), if any.
    pub purpose: Option<String>,
}

/// The entries of a dictionary keyed by strings, when every key is a string.
pub open spec fn str_keyed(entries: Seq<(Variant, Variant)>) -> Option<Seq<(String, Variant)>>
    decreases entries.len(),
{
    if entries.len() == 0 {
        Some(Seq::empty())
    } else {
        match str_keyed(entries.drop_last()) {
            Some(prev) => match entries.last().0 {
                Variant::Str(k) => Some(prev.push((k, entries.last().1))),
                _ => None,
            },
            None => None,
        }
    }
}

/// The button a row of the `buttons` array describes: a string-keyed dictionary with a string
/// `label` and `action`; anything else is skipped.
pub open spec fn button_of(row: Variant) -> Option<ParsedButton> {
    match row {
        Variant::Dict(_, _, entries) => match str_keyed(entries@) {
            Some(m) => match (opt_string_value(lookup(m, "label"@)), opt_string_value(
                lookup(m, "action"@),
            )) {
                (Some(label), Some(action)) => Some(
                    ParsedButton {
                        label,
                        action,
                        target: lookup(m, "target"@),
                        purpose: opt_string_value(lookup(m, "purpose"@)),
                    },
                ),
                _ => None,
            },
            None => None,
        },
        _ => None,
    }
}

/// The buttons the rows describe, in order.
pub open spec fn buttons_of(rows: Seq<Variant>) -> Seq<ParsedButton>
    decreases rows.len(),
{
    if rows.len() == 0 {
        Seq::empty()
    } else {
        match button_of(rows.last()) {
            Some(b) => buttons_of(rows.drop_last()).push(b),
            None => buttons_of(rows.drop_last()),
        }
    }
}

/// The buttons of a `buttons` value (`aa{sv}`); nothing when it is absent or not an array.
pub open spec fn buttons_value(value: Option<Variant>) -> Seq<ParsedButton> {
    match value {
        Some(Variant::Array(_, rows)) => buttons_of(rows@),
        _ => Seq::empty(),
    }
}

/// Re-keys a dictionary by strings; `None` when some key is not a string.
#[verifier::loop_isolation(false)]
fn into_vardict(entries: Vec<(Variant, Variant)>) -> (r: Option<Vardict>)
    ensures
        match r {
            Some(m) => str_keyed(entries@) == Some(m@),
            None => str_keyed(entries@) is None,
        },
{
    let ghost orig = entries@;
    let mut rest = entries;
    let mut out: Vardict = Vec::new();
    let ghost mut i: int = 0;
    while rest.len() > 0
        invariant
            0 <= i <= orig.len(),
            rest@ == orig.skip(i),
            str_keyed(orig.take(i)) == Some(out@),
        decreases rest@.len(),
    {
        let (k, v) = rest.remove(0);
        proof {
            assert(orig.take(i + 1).drop_last() =~= orig.take(i));
            assert(orig.take(i + 1).last() == orig[i]);
            assert((k, v) == orig[i]);
            assert(rest@ =~= orig.skip(i + 1));
        }
        match k {
            Variant::Str(name) => out.push((name, v)),
            _ => {
                proof {
                    lemma_str_keyed_prefix(orig, i + 1);
                }
                return None;
            },
        }
        proof {
            i = i + 1;
        }
    }
    proof {
        assert(orig.take(i) =~= orig);
    }
    Some(out)
}

/// Once a prefix has a non-string key, so has the whole.
proof fn lemma_str_keyed_prefix(s: Seq<(Variant, Variant)>, n: int)
    requires
        0 <= n <= s.len(),
        str_keyed(s.take(n)) is None,
    ensures
        str_keyed(s) is None,
    decreases s.len() - n,
{
    if n < s.len() {
        assert(s.take(n + 1).drop_last() =~= s.take(n));
        lemma_str_keyed_prefix(s, n + 1);
    } else {
        assert(s.take(n) =~= s);
    }
}

/// Parses one row of the `buttons` array.
fn parse_button(row: Variant) -> (r: Option<ParsedButton>)
    ensures
        r == button_of(row),
{
    let entries = match row {
        Variant::Dict(_, _, entries) => entries,
        _ => return None,
    };
    let mut m = match into_vardict(entries) {
        Some(m) => m,
        None => return None,
    };
    let ghost m0 = m@;
    proof {
        reveal_strlit("label");
        reveal_strlit("action");
        reveal_strlit("target");
        reveal_strlit("purpose");
        assert("label"@.len() == 5 && "action"@.len() == 6 && "target"@.len() == 6
            && "purpose"@.len() == 7);
        assert("action"@[0] != "target"@[0]);
    }
    let label = into_opt_string(take(&mut m, "label"));
    let action = into_opt_string(take(&mut m, "action"));
    let target = take(&mut m, "target");
    let purpose = into_opt_string(take(&mut m, "purpose"));
    match (label, action) {
        (Some(label), Some(action)) => Some(ParsedButton { label, action, target, purpose }),
        _ => None,
    }
}

/// Parses the `buttons` value (`aa{sv}`) into label/action/target/purpose rows; malformed
/// rows (not a string-keyed dictionary, or missing a string label or action) are skipped.
#[verifier::loop_isolation(false)]
pub fn parse_buttons(value: Option<Variant>) -> (r: Vec<ParsedButton>)
    ensures
        r@ == buttons_value(value),
{
    let rows = match value {
        Some(Variant::Array(_, rows)) => rows,
        _ => return Vec::new(),
    };
    let ghost orig = rows@;
    let mut rest = rows;
    let mut out: Vec<ParsedButton> = Vec::new();
    let ghost mut i: int = 0;
    while rest.len() > 0
        invariant
            0 <= i <= orig.len(),
            rest@ == orig.skip(i),
            out@ == buttons_of(orig.take(i)),
        decreases rest@.len(),
    {
        let row = rest.remove(0);
        proof {
            assert(orig.take(i + 1).drop_last() =~= orig.take(i));
            assert(orig.take(i + 1).last() == orig[i]);
            assert(row == orig[i]);
            assert(rest@ =~= orig.skip(i + 1));
        }
        if let Some(b) = parse_button(row) {
            out.push(b);
        }
        proof {
            i = i + 1;
        }
    }
    proof {
        assert(orig.take(i) =~= orig);
    }
    out
}

/// Where a serialized icon's image comes from.
pub enum IconSource {
    /// A themed icon name.
    Named(String),
    /// A file on disk.
    Path(String),
    /// An encoded image blob, to be cached to a file.
    Bytes(Vec<u8>),
    /// A file descriptor to read an encoded image from, then cache it.
    Fd(i32),
}

/// The view of an icon source.
pub enum IconView {
    /// A themed icon name.
    Named(Seq<char>),
    /// A file on disk.
    Path(Seq<char>),
    /// An encoded image blob.
    Bytes(Seq<u8>),
    /// A file descriptor.
    Fd(i32),
}

/// The view of an optional icon source.
pub open spec fn icon_view(s: Option<IconSource>) -> Option<IconView> {
    match s {
        Some(IconSource::Named(n)) => Some(IconView::Named(n@)),
        Some(IconSource::Path(p)) => Some(IconView::Path(p@)),
        Some(IconSource::Bytes(b)) => Some(IconView::Bytes(b@)),
        Some(IconSource::Fd(fd)) => Some(IconView::Fd(fd)),
        None => None,
    }
}

/// The bytes of the `y` elements of an array (others skipped).
pub open spec fn byte_elements(items: Seq<Variant>) -> Seq<u8>
    decreases items.len(),
{
    if items.len() == 0 {
        Seq::empty()
    } else {
        match items.last() {
            Variant::U8(b) => byte_elements(items.drop_last()).push(b),
            _ => byte_elements(items.drop_last()),
        }
    }
}

/// The icon a serialized `GIcon` `(sv)` names: `themed` → its first name; `file` → the path
/// (without a `file://` scheme); `bytes` → the blob; `file-descriptor` → the fd; `emblemed` →
/// its base icon; anything else → none.
pub open spec fn icon_of(v: Variant) -> Option<IconView>
    decreases v,
{
    match v {
        Variant::Structure(fields) => if fields@.len() == 2 {
            match fields@[0] {
                Variant::Str(tag) => match fields@[1] {
                    Variant::Value(payload) => if tag@ == "themed"@ {
                        match *payload {
                            Variant::Array(_, names) => if names@.len() > 0 {
                                match names@[0] {
                                    Variant::Str(n) => Some(IconView::Named(n@)),
                                    _ => None,
                                }
                            } else {
                                None
                            },
                            _ => None,
                        }
                    } else if tag@ == "file"@ {
                        match *payload {
                            Variant::Str(p) => Some(IconView::Path(strip_file_scheme(p@))),
                            _ => None,
                        }
                    } else if tag@ == "bytes"@ {
                        match *payload {
                            Variant::Array(_, items) => Some(IconView::Bytes(byte_elements(items@))),
                            _ => None,
                        }
                    } else if tag@ == "file-descriptor"@ {
                        match *payload {
                            Variant::Fd(fd) => Some(IconView::Fd(fd)),
                            _ => None,
                        }
                    } else if tag@ == "emblemed"@ {
                        match *payload {
                            Variant::Structure(inner) => if inner@.len() > 0 {
                                match inner@[0] {
                                    Variant::Value(base) => icon_of(*base),
                                    _ => None,
                                }
                            } else {
                                None
                            },
                            _ => None,
                        }
                    } else {
                        None
                    },
                    _ => None,
                },
                _ => None,
            }
        } else {
            None
        },
        _ => None,
    }
}

/// The bytes of an array's `y` elements.
fn collect_bytes(items: &Vec<Variant>) -> (r: Vec<u8>)
    ensures
        r@ == byte_elements(items@),
{
    let mut out: Vec<u8> = Vec::new();
    let mut i: usize = 0;
    while i < items.len()
        invariant
            i <= items@.len(),
            out@ == byte_elements(items@.take(i as int)),
        decreases items@.len() - i,
    {
        proof {
            assert(items@.take(i + 1).drop_last() =~= items@.take(i as int));
        }
        if let Variant::U8(b) = &items[i] {
            out.push(*b);
        }
        i = i + 1;
    }
    proof {
        assert(items@.take(items@.len() as int) =~= items@);
    }
    out
}

/// Parses a serialized `GIcon` / portal icon `(sv)` into where its image comes from.
pub fn parse_icon(v: &Variant) -> (r: Option<IconSource>)
    ensures
        icon_view(r) == icon_of(*v),
    decreases v,
{
    let fields = match v {
        Variant::Structure(fields) => fields,
        _ => return None,
    };
    if fields.len() != 2 {
        return None;
    }
    let tag = match &fields[0] {
        Variant::Str(tag) => tag,
        _ => return None,
    };
    let payload = match &fields[1] {
        Variant::Value(payload) => payload,
        _ => return None,
    };
    if str_eq(tag.as_str(), "themed") {
        match &**payload {
            Variant::Array(_, names) => {
                if names.len() > 0 {
                    match &names[0] {
                        Variant::Str(n) => Some(IconSource::Named(n.clone())),
                        _ => None,
                    }
                } else {
                    None
                }
            },
            _ => None,
        }
    } else if str_eq(tag.as_str(), "file") {
        match &**payload {
            Variant::Str(p) => Some(IconSource::Path(strip_file_uri(p.as_str()))),
            _ => None,
        }
    } else if str_eq(tag.as_str(), "bytes") {
        match &**payload {
            Variant::Array(_, items) => Some(IconSource::Bytes(collect_bytes(items))),
            _ => None,
        }
    } else if str_eq(tag.as_str(), "file-descriptor") {
        match &**payload {
            Variant::Fd(fd) => Some(IconSource::Fd(*fd)),
            _ => None,
        }
    } else if str_eq(tag.as_str(), "emblemed") {
        match &**payload {
            Variant::Structure(inner) => {
                if inner.len() > 0 {
                    match &inner[0] {
                        Variant::Value(base) => {
                            assert(decreases_to!(*v => **base));
                            parse_icon(&**base)
                        },
                        _ => None,
                    }
                } else {
                    None
                }
            },
            _ => None,
        }
    } else {
        None
    }
}

/// What the portal `sound` value asks for.
pub enum SoundSource {
    /// No intent (absent or unrecognized).
    Unspecified,
    /// `"silent"`.
    Silent,
    /// `"default"`.
    Default,
    /// `('file-descriptor', <h>)`: read the fd and cache the sound to a file.
    Fd(i32),
}

/// The sound intent of a portal `sound` value.
pub open spec fn sound_of(v: Option<Variant>) -> SoundSource {
    match v {
        Some(Variant::Str(name)) => if name@ == "silent"@ {
            SoundSource::Silent
        } else if name@ == "default"@ {
            SoundSource::Default
        } else {
            SoundSource::Unspecified
        },
        Some(Variant::Structure(fields)) => if fields@.len() == 2 && (fields@[0] matches Variant::Str(
            tag,
        ) && tag@ == "file-descriptor"@) && (fields@[1] matches Variant::Value(payload) && (*payload matches Variant::Fd(
            _,
        ))) {
            match fields@[1] {
                Variant::Value(payload) => match *payload {
                    Variant::Fd(fd) => SoundSource::Fd(fd),
                    _ => SoundSource::Unspecified,
                },
                _ => SoundSource::Unspecified,
            }
        } else {
            SoundSource::Unspecified
        },
        _ => SoundSource::Unspecified,
    }
}

/// Parses the portal `sound` value.
pub fn parse_sound(v: Option<&Variant>) -> (r: SoundSource)
    ensures
        r == sound_of(match v {
            Some(x) => Some(*x),
            None => None,
        }),
{
    match v {
        Some(Variant::Str(name)) => {
            if str_eq(name.as_str(), "silent") {
                SoundSource::Silent
            } else if str_eq(name.as_str(), "default") {
                SoundSource::Default
            } else {
                SoundSource::Unspecified
            }
        },
        Some(Variant::Structure(fields)) => {
            if fields.len() != 2 {
                return SoundSource::Unspecified;
            }
            let is_fd_tag = match &fields[0] {
                Variant::Str(tag) => str_eq(tag.as_str(), "file-descriptor"),
                _ => false,
            };
            if !is_fd_tag {
                return SoundSource::Unspecified;
            }
            match &fields[1] {
                Variant::Value(payload) => match &**payload {
                    Variant::Fd(fd) => SoundSource::Fd(*fd),
                    _ => SoundSource::Unspecified,
                },
                _ => SoundSource::Unspecified,
            }
        },
        _ => SoundSource::Unspecified,
    }
}

/// Whether the `display-hint` value (`as`) lists `hint`.
pub open spec fn has_hint(v: Option<Variant>, hint: Seq<char>) -> bool {
    match v {
        Some(Variant::Array(_, items)) => exists|i: int|
            0 <= i < items@.len() && (#[trigger] items@[i] matches Variant::Str(s) && s@ == hint),
        _ => false,
    }
}

/// Whether the `display-hint` value lists `hint`.
#[verifier::loop_isolation(false)]
pub fn has_display_hint(v: Option<&Variant>, hint: &str) -> (r: bool)
    ensures
        r == has_hint(
            match v {
                Some(x) => Some(*x),
                None => None,
            },
            hint@,
        ),
{
    let items = match v {
        Some(Variant::Array(_, items)) => items,
        _ => return false,
    };
    let mut i: usize = 0;
    while i < items.len()
        invariant
            i <= items@.len(),
            forall|j: int|
                0 <= j < i ==> !(#[trigger] items@[j] matches Variant::Str(s) && s@ == hint@),
        decreases items@.len() - i,
    {
        if let Variant::Str(s) = &items[i] {
            if str_eq(s.as_str(), hint) {
                proof {
                    assert(items@[i as int] matches Variant::Str(s2) && s2@ == hint@);
                }
                return true;
            }
        }
        i = i + 1;
    }
    false
}

/// The image an icon source is without any caching: a themed name or a file path as such;
/// a blob or an fd is handed back, to be cached to a file first.
pub fn direct_image(source: IconSource) -> (r: Result<Image, IconSource>)
    ensures
        match source {
            IconSource::Named(n) => r == Ok::<Image, IconSource>(Image::Named(n)),
            IconSource::Path(p) => r == Ok::<Image, IconSource>(Image::Path(p)),
            _ => r == Err::<Image, IconSource>(source),
        },
{
    match source {
        IconSource::Named(n) => Ok(Image::Named(n)),
        IconSource::Path(p) => Ok(Image::Path(p)),
        other => Err(other),
    }
}

} // verus!
