//! XDG Desktop Portal backend hosting: the static `.portal` manifest that tells
//! xdg-desktop-portal which interfaces a backend serves, its validation against what is
//! registered at runtime, and the well-known-name check of the backend's bus name.
use vstd::prelude::*;
use crate::text::{chars_of, owned, push_char, str_eq};
use vstd::string::StringExecFns;

verus! {

/// Errors produced while hosting an XDG Desktop Portal backend.
#[derive(Debug)]
pub enum PortalError {
    /// The provided bus name is not a valid D-Bus well-known name.
    InvalidName(String),
    /// The interfaces registered on the connection do not match the manifest.
    InterfaceMismatch {
        /// Interfaces declared in the manifest, sorted and without duplicates.
        expected: Vec<String>,
        /// Interfaces actually registered, sorted and without duplicates.
        registered: Vec<String>,
    },
}

/// Builds the static `.portal` file: the backend's bus name, the interfaces it serves and
/// (legacy) the desktops it applies to.
#[derive(Debug, Clone)]
pub struct PortalManifest {
    dbus_name: String,
    interfaces: Vec<String>,
    use_in: Vec<String>,
}

/// The characters of each string of a list.
pub open spec fn views(v: Seq<String>) -> Seq<Seq<char>> {
    v.map_values(|s: String| s@)
}

/// The characters of each string slice of a list.
pub open spec fn str_views(v: Seq<&str>) -> Seq<Seq<char>> {
    v.map_values(|s: &str| s@)
}

/// A manifest as characters: bus name, interfaces and desktops, in insertion order.
pub struct ManifestView {
    /// The backend's bus name.
    pub dbus_name: Seq<char>,
    /// The declared interfaces.
    pub interfaces: Seq<Seq<char>>,
    /// The `UseIn=` desktops.
    pub use_in: Seq<Seq<char>>,
}

impl View for PortalManifest {
    type V = ManifestView;

    closed spec fn view(&self) -> ManifestView {
        ManifestView {
            dbus_name: self.dbus_name@,
            interfaces: views(self.interfaces@),
            use_in: views(self.use_in@),
        }
    }
}

/// A freedesktop string list: every item followed by `;`.
pub open spec fn render_list_spec(items: Seq<Seq<char>>) -> Seq<char>
    decreases items.len(),
{
    if items.len() == 0 {
        seq![]
    } else {
        render_list_spec(items.drop_last()) + items.last() + seq![';']
    }
}

/// The `.portal` file a manifest renders to.
pub open spec fn file_contents(m: ManifestView) -> Seq<char> {
    let head = "[portal]\n"@ + "DBusName="@ + m.dbus_name + seq!['\n'] + "Interfaces="@
        + render_list_spec(m.interfaces) + seq!['\n'];
    if m.use_in.len() == 0 {
        head
    } else {
        head + "UseIn="@ + render_list_spec(m.use_in) + seq!['\n']
    }
}

impl PortalManifest {
    /// Starts a manifest for the backend owning `dbus_name`.
    pub fn new(dbus_name: &str) -> (r: Self)
        ensures
            r@.dbus_name == dbus_name@,
            r@.interfaces.len() == 0,
            r@.use_in.len() == 0,
    {
        let r = PortalManifest { dbus_name: owned(dbus_name), interfaces: Vec::new(), use_in: Vec::new() };
        assert(views(r.interfaces@) =~= seq![]);
        assert(views(r.use_in@) =~= seq![]);
        r
    }

    /// Adds one implemented interface.
    pub fn interface(self, interface: &str) -> (r: Self)
        ensures
            r@.dbus_name == self@.dbus_name,
            r@.interfaces == self@.interfaces.push(interface@),
            r@.use_in == self@.use_in,
    {
        let mut m = self;
        m.interfaces.push(owned(interface));
        assert(views(m.interfaces@) =~= views(self.interfaces@).push(interface@));
        m
    }

    /// Adds several implemented interfaces at once, in order.
    pub fn interfaces(self, interfaces: &[&str]) -> (r: Self)
        ensures
            r@.dbus_name == self@.dbus_name,
            r@.interfaces == self@.interfaces + str_views(interfaces@),
            r@.use_in == self@.use_in,
    {
        let mut m = self;
        let mut i: usize = 0;
        while i < interfaces.len()
            invariant
                i <= interfaces.len(),
                m.dbus_name == self.dbus_name,
                m.use_in == self.use_in,
                views(m.interfaces@) == views(self.interfaces@) + str_views(interfaces@.take(i as int)),
            decreases interfaces.len() - i,
        {
            let ghost before = m.interfaces@;
            m.interfaces.push(owned(interfaces[i]));
            assert(views(m.interfaces@) =~= views(before).push(interfaces@[i as int]@));
            assert(str_views(interfaces@.take(i + 1)) =~= str_views(interfaces@.take(
                i as int,
            )).push(interfaces@[i as int]@));
            assert(views(m.interfaces@) =~= views(self.interfaces@) + str_views(interfaces@.take(
                i + 1,
            )));
            i = i + 1;
        }
        assert(interfaces@.take(interfaces.len() as int) == interfaces@);
        m
    }

    /// Adds a desktop name to the legacy `UseIn=` key.
    pub fn use_in(self, desktop: &str) -> (r: Self)
        ensures
            r@.dbus_name == self@.dbus_name,
            r@.interfaces == self@.interfaces,
            r@.use_in == self@.use_in.push(desktop@),
    {
        let mut m = self;
        m.use_in.push(owned(desktop));
        assert(views(m.use_in@) =~= views(self.use_in@).push(desktop@));
        m
    }

    /// The interfaces declared in this manifest.
    pub fn declared_interfaces(&self) -> (r: &[String])
        ensures
            views(r@) == self@.interfaces,
    {
        self.interfaces.as_slice()
    }

    /// Renders a freedesktop string list: semicolon-separated and semicolon-terminated.
    pub fn render_list(items: &[String]) -> (r: String)
        ensures
            r@ == render_list_spec(views(items@)),
    {
        let mut out = String::new();
        let mut i: usize = 0;
        while i < items.len()
            invariant
                i <= items.len(),
                out@ == render_list_spec(views(items@.take(i as int))),
            decreases items.len() - i,
        {
            out.append(items[i].as_str());
            push_char(&mut out, ';');
            assert(views(items@.take(i + 1)).drop_last() == views(items@.take(i as int)));
            i = i + 1;
        }
        assert(items@.take(items.len() as int) == items@);
        out
    }

    /// Renders the `[portal]` file contents.
    pub fn to_file_contents(&self) -> (r: String)
        ensures
            r@ == file_contents(self@),
    {
        let mut out = owned("[portal]\n");
        out.append("DBusName=");
        out.append(self.dbus_name.as_str());
        push_char(&mut out, '\n');
        out.append("Interfaces=");
        out.append(PortalManifest::render_list(self.interfaces.as_slice()).as_str());
        push_char(&mut out, '\n');
        if self.use_in.len() > 0 {
            out.append("UseIn=");
            out.append(PortalManifest::render_list(self.use_in.as_slice()).as_str());
            push_char(&mut out, '\n');
        }
        out
    }

    /// Checks that the interfaces registered at runtime are, as a set, those declared in
    /// the manifest.
    pub fn validate(&self, registered: &[&str]) -> (r: Result<(), PortalError>)
        ensures
            r is Ok <==> self@.interfaces.to_set() == str_views(registered@).to_set(),
            r matches Err(e) ==> (e matches PortalError::InterfaceMismatch { expected, registered: got }
                && strictly_sorted(views(expected@)) && views(expected@).to_set()
                == self@.interfaces.to_set() && strictly_sorted(views(got@)) && views(got@).to_set()
                == str_views(registered@).to_set()),
    {
        let mut reg: Vec<String> = Vec::new();
        let mut i: usize = 0;
        while i < registered.len()
            invariant
                i <= registered.len(),
                views(reg@) == str_views(registered@.take(i as int)),
            decreases registered.len() - i,
        {
            let ghost before = reg@;
            reg.push(owned(registered[i]));
            assert(views(reg@) =~= views(before).push(registered@[i as int]@));
            assert(str_views(registered@.take(i + 1)) =~= str_views(registered@.take(i as int)).push(
                registered@[i as int]@,
            ));
            i = i + 1;
        }
        assert(registered@.take(registered.len() as int) == registered@);
        let same = subset_of(self.interfaces.as_slice(), reg.as_slice()) && subset_of(
            reg.as_slice(),
            self.interfaces.as_slice(),
        );
        proof {
            let a = self@.interfaces.to_set();
            let b = views(reg@).to_set();
            if same {
                assert(a =~= b);
            } else {
                if a == b {
                    if !subset_of_spec(self@.interfaces, views(reg@)) {
                        let x = choose|x: Seq<char>|
                            self@.interfaces.contains(x) && !views(reg@).contains(x);
                        assert(a.contains(x));
                    } else {
                        let x = choose|x: Seq<char>|
                            views(reg@).contains(x) && !self@.interfaces.contains(x);
                        assert(b.contains(x));
                    }
                }
            }
        }
        if same {
            Ok(())
        } else {
            Err(
                PortalError::InterfaceMismatch {
                    expected: sorted_unique(self.interfaces.as_slice()),
                    registered: sorted_unique(reg.as_slice()),
                },
            )
        }
    }
}

/// Whether every element of `a` occurs in `b`.
pub open spec fn subset_of_spec(a: Seq<Seq<char>>, b: Seq<Seq<char>>) -> bool {
    forall|x: Seq<char>| a.contains(x) ==> b.contains(x)
}

/// Whether `x` occurs in `items`.
fn contains_str(items: &[String], x: &str) -> (r: bool)
    ensures
        r == views(items@).contains(x@),
{
    let mut i: usize = 0;
    while i < items.len()
        invariant
            i <= items.len(),
            forall|j: int| 0 <= j < i ==> items@[j]@ != x@,
        decreases items.len() - i,
    {
        if str_eq(items[i].as_str(), x) {
            assert(views(items@)[i as int] == x@);
            return true;
        }
        i = i + 1;
    }
    assert forall|j: int| 0 <= j < views(items@).len() implies views(items@)[j] != x@ by {
        assert(views(items@)[j] == items@[j]@);
    }
    false
}

/// Whether every element of `a` occurs in `b`.
fn subset_of(a: &[String], b: &[String]) -> (r: bool)
    ensures
        r == subset_of_spec(views(a@), views(b@)),
{
    let mut i: usize = 0;
    while i < a.len()
        invariant
            i <= a.len(),
            forall|j: int| 0 <= j < i ==> views(b@).contains(#[trigger] a@[j]@),
        decreases a.len() - i,
    {
        if !contains_str(b, a[i].as_str()) {
            assert(views(a@).contains(a@[i as int]@)) by {
                assert(views(a@)[i as int] == a@[i as int]@);
            }
            return false;
        }
        i = i + 1;
    }
    assert forall|x: Seq<char>| views(a@).contains(x) implies views(b@).contains(x) by {
        let j = choose|j: int| 0 <= j < views(a@).len() && views(a@)[j] == x;
        assert(views(a@)[j] == a@[j]@);
    }
    true
}

/// `a` sorts before `b`: lexicographically by code point, a proper prefix first (the order
/// of `str`, whose UTF-8 bytes sort as their code points do).
pub open spec fn lex_less(a: Seq<char>, b: Seq<char>) -> bool
    decreases a.len(),
{
    if a.len() == 0 {
        b.len() > 0
    } else if b.len() == 0 {
        false
    } else if a[0] != b[0] {
        (a[0] as int) < (b[0] as int)
    } else {
        lex_less(a.drop_first(), b.drop_first())
    }
}

/// The strings are in strictly ascending order (so none occurs twice).
pub open spec fn strictly_sorted(s: Seq<Seq<char>>) -> bool {
    forall|i: int, j: int| 0 <= i < j < s.len() ==> lex_less(#[trigger] s[i], #[trigger] s[j])
}

/// No string sorts before itself.
proof fn lemma_lex_irreflexive(a: Seq<char>)
    ensures
        !lex_less(a, a),
    decreases a.len(),
{
    if a.len() > 0 {
        lemma_lex_irreflexive(a.drop_first());
    }
}

/// Of two different strings, one sorts before the other.
proof fn lemma_lex_total(a: Seq<char>, b: Seq<char>)
    requires
        a != b,
    ensures
        lex_less(a, b) || lex_less(b, a),
    decreases a.len(),
{
    if a.len() == 0 && b.len() == 0 {
        assert(a =~= b);
    } else if a.len() > 0 && b.len() > 0 && a[0] != b[0] {
        assert((a[0] as int) != (b[0] as int));
    } else if a.len() > 0 && b.len() > 0 && a[0] == b[0] {
        if a.drop_first() == b.drop_first() {
            assert(a =~= seq![a[0]] + a.drop_first());
            assert(b =~= seq![b[0]] + b.drop_first());
        } else {
            lemma_lex_total(a.drop_first(), b.drop_first());
        }
    }
}

/// The order is transitive.
proof fn lemma_lex_transitive(a: Seq<char>, b: Seq<char>, c: Seq<char>)
    requires
        lex_less(a, b),
        lex_less(b, c),
    ensures
        lex_less(a, c),
    decreases a.len(),
{
    if a.len() > 0 && b.len() > 0 && c.len() > 0 && a[0] == b[0] && b[0] == c[0] {
        lemma_lex_transitive(a.drop_first(), b.drop_first(), c.drop_first());
    }
}

/// Whether `a` sorts before `b` (see [`lex_less`]).
fn str_less(a: &str, b: &str) -> (r: bool)
    ensures
        r == lex_less(a@, b@),
{
    let x = crate::text::chars_of(a);
    let y = crate::text::chars_of(b);
    let mut i: usize = 0;
    proof {
        assert(x@.skip(0) =~= x@);
        assert(y@.skip(0) =~= y@);
    }
    while i < x.len() && i < y.len()
        invariant
            i <= x.len(),
            i <= y.len(),
            x@ == a@,
            y@ == b@,
            lex_less(a@, b@) == lex_less(x@.skip(i as int), y@.skip(i as int)),
        decreases x.len() - i,
    {
        if x[i] != y[i] {
            proof {
                assert(x@.skip(i as int)[0] == x@[i as int]);
                assert(y@.skip(i as int)[0] == y@[i as int]);
            }
            return x[i] < y[i];
        }
        proof {
            assert(x@.skip(i as int).drop_first() =~= x@.skip(i + 1));
            assert(y@.skip(i as int).drop_first() =~= y@.skip(i + 1));
        }
        i = i + 1;
    }
    x.len() < y.len()
}

/// The distinct strings of `items`, in ascending order.
fn sorted_unique(items: &[String]) -> (r: Vec<String>)
    ensures
        views(r@).to_set() == views(items@).to_set(),
        strictly_sorted(views(r@)),
{
    let mut out: Vec<String> = Vec::new();
    let mut i: usize = 0;
    while i < items.len()
        invariant
            i <= items.len(),
            views(out@).to_set() == views(items@.take(i as int)).to_set(),
            strictly_sorted(views(out@)),
        decreases items.len() - i,
    {
        let x = items[i].clone();
        let ghost before = views(out@);
        if !contains_str(out.as_slice(), x.as_str()) {
            let mut pos: usize = 0;
            while pos < out.len() && str_less(out[pos].as_str(), x.as_str())
                invariant
                    pos <= out.len(),
                    forall|j: int| 0 <= j < pos ==> lex_less(#[trigger] views(out@)[j], x@),
                decreases out.len() - pos,
            {
                pos = pos + 1;
            }
            proof {
                if pos < out.len() {
                    assert(views(out@)[pos as int] != x@) by {
                        assert(!views(out@).contains(x@));
                    }
                    lemma_lex_total(views(out@)[pos as int], x@);
                    assert forall|k: int| pos <= k < views(out@).len() implies lex_less(x@, #[trigger] views(out@)[k]) by {
                        if k > pos {
                            lemma_lex_transitive(x@, views(out@)[pos as int], views(out@)[k]);
                        }
                    }
                }
            }
            out.insert(pos, x);
            proof {
                let v = views(out@);
                assert(strictly_sorted(before));
                assert(v.len() == before.len() + 1);
                assert forall|j: int| 0 <= j < v.len() implies #[trigger] v[j] == if j < pos {
                    before[j]
                } else if j == pos {
                    items@[i as int]@
                } else {
                    before[j - 1]
                } by {}
                assert forall|a: int, b: int| 0 <= a < b < v.len() implies lex_less(#[trigger] v[a], #[trigger] v[b]) by {
                    if b < pos {
                        assert(lex_less(before[a], before[b]));
                    } else if a < pos && b == pos {
                    } else if a < pos && b > pos {
                        assert(lex_less(before[a], before[b - 1]));
                    } else if a == pos {
                    } else {
                        assert(lex_less(before[a - 1], before[b - 1]));
                    }
                }
            }
            assert(views(out@).to_set() =~= before.to_set().insert(items@[i as int]@)) by {
                assert forall|s: Seq<char>| views(out@).contains(s) implies before.contains(s)
                    || s == items@[i as int]@ by {
                    let j = choose|j: int| 0 <= j < views(out@).len() && views(out@)[j] == s;
                    if j < pos {
                        assert(views(out@)[j] == before[j]);
                    } else if j > pos {
                        assert(views(out@)[j] == before[j - 1]);
                    }
                }
                assert forall|s: Seq<char>| before.contains(s) implies views(out@).contains(s) by {
                    let j = choose|j: int| 0 <= j < before.len() && before[j] == s;
                    if j < pos {
                        assert(views(out@)[j] == s);
                    } else {
                        assert(views(out@)[j + 1] == s);
                    }
                }
                assert(views(out@)[pos as int] == items@[i as int]@);
            }
        }
        assert(views(items@.take(i + 1)) =~= views(items@.take(i as int)).push(items@[i as int]@));
        assert(views(items@.take(i + 1)).to_set() =~= views(items@.take(i as int)).to_set().insert(
            items@[i as int]@,
        )) by {
            views(items@.take(i as int)).lemma_push_to_set_commute(items@[i as int]@);
        }
        i = i + 1;
    }
    assert(items@.take(items.len() as int) == items@);
    out
}

/// An ASCII decimal digit.
pub open spec fn is_digit(c: char) -> bool {
    '0' <= c <= '9'
}

/// A character allowed inside an element of a well-known bus name: an ASCII letter or
/// digit, `_` or `-`.
pub open spec fn name_char(c: char) -> bool {
    ('a' <= c <= 'z') || ('A' <= c <= 'Z') || is_digit(c) || c == '_' || c == '-'
}

/// `s` is a valid D-Bus well-known bus name: at most 255 characters, made of two or more
/// non-empty `.`-separated elements of letters, digits, `_` and `-`, none of which starts
/// with a digit.
pub open spec fn well_known(s: Seq<char>) -> bool {
    &&& 0 < s.len() <= 255
    &&& forall|i: int| 0 <= i < s.len() ==> s[i] == '.' || name_char(s[i])
    &&& s[0] != '.' && !is_digit(s[0])
    &&& s.last() != '.'
    &&& exists|i: int| 0 <= i < s.len() && s[i] == '.'
    &&& forall|i: int| 1 <= i < s.len() && #[trigger] s[i - 1] == '.' ==> s[i] != '.' && !is_digit(s[i])
}

/// Whether `name` is a valid well-known bus name (see [`well_known`]): the validation that
/// `zbus::names::WellKnownName` applies, which accepts exactly those names.
fn is_well_known_name(name: &str) -> (r: bool)
    ensures
        r == well_known(name@),
{
    let chars = chars_of(name);
    let n = chars.len();
    if n == 0 || n > 255 {
        return false;
    }
    if chars[0] == '.' || ('0' <= chars[0] && chars[0] <= '9') || chars[n - 1] == '.' {
        return false;
    }
    let mut dotted = false;
    let mut i: usize = 0;
    while i < n
        invariant
            n == chars@.len(),
            chars@ == name@,
            0 < n <= 255,
            chars@[0] != '.' && !is_digit(chars@[0]),
            chars@.last() != '.',
            i <= n,
            forall|j: int| 0 <= j < i ==> chars@[j] == '.' || name_char(chars@[j]),
            forall|j: int| 1 <= j < i && #[trigger] chars@[j - 1] == '.' ==> chars@[j] != '.' && !is_digit(chars@[j]),
            dotted <==> exists|j: int| 0 <= j < i && chars@[j] == '.',
        decreases n - i,
    {
        let c = chars[i];
        let letter = ('a' <= c && c <= 'z') || ('A' <= c && c <= 'Z');
        let digit = '0' <= c && c <= '9';
        if !(c == '.' || letter || digit || c == '_' || c == '-') {
            assert(!(chars@[i as int] == '.' || name_char(chars@[i as int])));
            return false;
        }
        if i >= 1 && chars[i - 1] == '.' && (c == '.' || digit) {
            assert(chars@[i - 1] == '.');
            return false;
        }
        if c == '.' {
            dotted = true;
        }
        i = i + 1;
    }
    dotted
}

/// Checks the backend's bus name before anything is served under it: a name that is not a
/// valid well-known name is refused with [`PortalError::InvalidName`].
pub fn validate_bus_name(name: &str) -> (r: Result<(), PortalError>)
    ensures
        r is Ok <==> well_known(name@),
        r matches Err(e) ==> (e matches PortalError::InvalidName(n) && n@ == name@),
{
    if is_well_known_name(name) {
        Ok(())
    } else {
        Err(PortalError::InvalidName(owned(name)))
    }
}

} // verus!
