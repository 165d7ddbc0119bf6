//! Finding an application's `.desktop` file and reading its display name.
use vstd::prelude::*;
use crate::model::strings_view;
use crate::text::{
    chars_eq, chars_of, find_char_from, first_index_of, lemma_first_index_bounds, lemma_lines_step,
    lines_of, opt_view, owned, slice_range, string_from_chars, strip_cr_chars, strip_prefix, trim,
    trim_chars,
};

verus! {

/// The group name of a `[Group]` header line, if `line` is one.
pub open spec fn group_header(line: Seq<char>) -> Option<Seq<char>> {
    let t = trim(line);
    if t.len() >= 2 && t[0] == '[' && t.last() == ']' {
        Some(t.subrange(1, t.len() - 1))
    } else {
        None
    }
}

/// Scans `lines` for the first base `Name=` entry inside a `[Desktop Entry]` group;
/// `in_entry` tells whether the scan starts inside that group.
pub open spec fn scan_name(lines: Seq<Seq<char>>, in_entry: bool) -> Option<Seq<char>>
    decreases lines.len(),
{
    if lines.len() == 0 {
        None
    } else {
        match group_header(lines[0]) {
            Some(g) => scan_name(lines.drop_first(), g == "Desktop Entry"@),
            None => {
                let t = trim(lines[0]);
                if in_entry && "Name="@.is_prefix_of(t) {
                    Some(t.skip("Name="@.len() as int))
                } else {
                    scan_name(lines.drop_first(), in_entry)
                }
            },
        }
    }
}

/// The base `Name=` value of the `[Desktop Entry]` group of a desktop file.
pub open spec fn desktop_name(contents: Seq<char>) -> Option<Seq<char>> {
    scan_name(lines_of(contents), false)
}

/// The group name if `line` (untrimmed) is a `[Group]` header.
fn header_of(line: &[char]) -> (r: Option<Vec<char>>)
    ensures
        opt_chars(r) == group_header(line@),
{
    let t = trim_chars(line);
    if t.len() >= 2 && t[0] == '[' && t[t.len() - 1] == ']' {
        Some(slice_range(t.as_slice(), 1, t.len() - 1))
    } else {
        None
    }
}

/// The characters held by an optional character vector.
pub open spec fn opt_chars(o: Option<Vec<char>>) -> Option<Seq<char>> {
    match o {
        Some(v) => Some(v@),
        None => None,
    }
}

/// Extracts the base `Name=` value from the `[Desktop Entry]` group, ignoring localized
/// `Name[xx]=` variants and keys in other groups.
pub fn parse_name(contents: &str) -> (r: Option<String>)
    ensures
        opt_view(r) == desktop_name(contents@),
{
    let s = chars_of(contents);
    let entry = chars_of("Desktop Entry");
    let key = chars_of("Name=");
    let mut in_entry = false;
    let mut at: usize = 0;
    assert(s@.skip(0) == s@);
    while at < s.len()
        invariant
            at <= s.len(),
            s@ == contents@,
            entry@ == "Desktop Entry"@,
            key@ == "Name="@,
            desktop_name(contents@) == scan_name(lines_of(s@.skip(at as int)), in_entry),
        decreases s.len() - at,
    {
        let k = find_char_from(s.as_slice(), '\n', at);
        proof {
            lemma_lines_step(s@, at as int, k as int);
        }
        let raw = slice_range(s.as_slice(), at, k);
        let line = if k < s.len() { strip_cr_chars(raw) } else { raw };
        let ghost lines = lines_of(s@.skip(at as int));
        assert(lines[0] == line@);
        assert(lines.drop_first() == lines_of(s@.skip(if k < s.len() { k + 1 } else { k as int })))
            by {
            if k == s.len() {
                assert(s@.skip(k as int).len() == 0);
            }
        }
        match header_of(line.as_slice()) {
            Some(group) => {
                in_entry = chars_eq(group.as_slice(), entry.as_slice());
            },
            None => {
                let t = trim_chars(line.as_slice());
                if in_entry {
                    if let Some(value) = strip_prefix(t.as_slice(), key.as_slice()) {
                        return Some(string_from_chars(value.as_slice()));
                    }
                }
            },
        }
        at = if k < s.len() { k + 1 } else { k };
    }
    assert(s@.skip(at as int).len() == 0);
    None
}

/// `name` appended to the path `base` (what `Path::join` gives for a relative name): no
/// separator after an empty base or one that already ends in `/`.
pub open spec fn path_join(base: Seq<char>, name: Seq<char>) -> Seq<char> {
    if base.len() == 0 {
        name
    } else if base.last() == '/' {
        base + name
    } else {
        base + seq!['/'] + name
    }
}

/// The non-empty `:`-separated fields of `s`, in order.
pub open spec fn colon_fields(s: Seq<char>) -> Seq<Seq<char>>
    decreases s.len(),
{
    if s.len() == 0 {
        seq![]
    } else {
        let k = first_index_of(s, ':');
        proof {
            lemma_first_index_bounds(s, ':');
        }
        if k < s.len() {
            (if k > 0 {
                seq![s.take(k)]
            } else {
                seq![]
            }) + colon_fields(s.skip(k + 1))
        } else {
            seq![s]
        }
    }
}

/// The `applications` directory of each data directory.
pub open spec fn applications_of(dirs: Seq<Seq<char>>) -> Seq<Seq<char>> {
    dirs.map_values(|d: Seq<char>| path_join(d, "applications"@))
}

/// The XDG applications directories, most-preferred first: `$XDG_DATA_HOME/applications`
/// (the data home falling back to `$HOME/.local/share` when unset or empty), then the
/// `applications` directory of each non-empty entry of `$XDG_DATA_DIRS` (by default
/// `/usr/local/share:/usr/share`).
pub open spec fn applications_dirs_spec(
    data_home: Option<Seq<char>>,
    home: Option<Seq<char>>,
    data_dirs: Option<Seq<char>>,
) -> Seq<Seq<char>> {
    let first = match data_home {
        Some(d) if d.len() > 0 => seq![path_join(d, "applications"@)],
        _ => match home {
            Some(h) => seq![path_join(h + "/.local/share"@, "applications"@)],
            None => seq![],
        },
    };
    let dirs = match data_dirs {
        Some(d) if d.len() > 0 => d,
        _ => "/usr/local/share:/usr/share"@,
    };
    first + applications_of(colon_fields(dirs))
}

/// `name` appended to the path `base` (see [`path_join`]).
fn join_path(base: &[char], name: &str) -> (r: String)
    ensures
        r@ == path_join(base@, name@),
{
    let mut out = string_from_chars(base);
    if base.len() > 0 && base[base.len() - 1] != '/' {
        out.append("/");
    }
    out.append(name);
    proof {
        reveal_strlit("/");
        assert(base@.len() > 0 && base@.last() != '/' ==> out@ =~= base@ + seq!['/'] + name@);
    }
    out
}

/// Unfolds `colon_fields` once at position `at`, whose first `:` is at `k`.
proof fn lemma_fields_step(s: Seq<char>, at: int, k: int)
    requires
        0 <= at < s.len(),
        at <= k <= s.len(),
        k == at + first_index_of(s.skip(at), ':'),
    ensures
        k < s.len() ==> colon_fields(s.skip(at)) == (if k > at {
            seq![s.subrange(at, k)]
        } else {
            seq![]
        }) + colon_fields(s.skip(k + 1)),
        k == s.len() ==> colon_fields(s.skip(at)) == seq![s.skip(at)],
{
    let t = s.skip(at);
    assert(t.take(k - at) == s.subrange(at, k));
    if k < s.len() {
        assert(t.skip(k - at + 1) == s.skip(k + 1));
    }
}

/// The XDG applications directories from the values of `XDG_DATA_HOME`, `HOME` and
/// `XDG_DATA_DIRS` (see [`applications_dirs_spec`]).
pub fn applications_dirs(
    data_home: Option<String>,
    home: Option<String>,
    data_dirs: Option<String>,
) -> (r: Vec<String>)
    ensures
        strings_view(r@) == applications_dirs_spec(opt_view(data_home), opt_view(home), opt_view(data_dirs)),
{
    let mut out: Vec<String> = Vec::new();
    let usable_home = match &data_home {
        Some(d) => !d.as_str().is_empty(),
        None => false,
    };
    if usable_home {
        let d = chars_of(data_home.as_ref().unwrap().as_str());
        out.push(join_path(d.as_slice(), "applications"));
    } else if let Some(h) = &home {
        let mut base = owned(h.as_str());
        base.append("/.local/share");
        let b = chars_of(base.as_str());
        out.push(join_path(b.as_slice(), "applications"));
    }
    let ghost first = strings_view(out@);
    let dirs_string = match data_dirs {
        Some(d) if !d.as_str().is_empty() => d,
        _ => owned("/usr/local/share:/usr/share"),
    };
    let s = chars_of(dirs_string.as_str());
    let ghost total = applications_of(colon_fields(s@));
    let mut at: usize = 0;
    proof {
        assert(s@.skip(0) =~= s@);
        assert(strings_view(out@) =~= first + Seq::<Seq<char>>::empty());
    }
    while at < s.len()
        invariant
            at <= s.len(),
            first + total == first + applications_of(colon_fields(s@)),
            strings_view(out@) + applications_of(colon_fields(s@.skip(at as int))) == first + total,
        decreases s.len() - at,
    {
        let k = find_char_from(s.as_slice(), ':', at);
        proof {
            lemma_fields_step(s@, at as int, k as int);
        }
        let ghost before = strings_view(out@);
        if k > at {
            let field = slice_range(s.as_slice(), at, k);
            out.push(join_path(field.as_slice(), "applications"));
            proof {
                assert(strings_view(out@) =~= before.push(path_join(s@.subrange(at as int, k as int), "applications"@)));
            }
        }
        let next: usize = if k < s.len() { k + 1 } else { k };
        proof {
            let f = |d: Seq<char>| path_join(d, "applications"@);
            if k < s.len() {
                let head: Seq<Seq<char>> = if k > at { seq![s@.subrange(at as int, k as int)] } else { seq![] };
                assert(applications_of(head + colon_fields(s@.skip(k + 1))) =~= applications_of(head) + applications_of(colon_fields(s@.skip(k + 1))));
                assert(strings_view(out@) =~= before + applications_of(head));
            } else {
                assert(s@.skip(k as int).len() == 0);
                assert(colon_fields(s@.skip(k as int)) =~= seq![]);
                assert(applications_of(seq![s@.skip(at as int)]) =~= seq![path_join(s@.skip(at as int), "applications"@)]);
                assert(s@.subrange(at as int, k as int) =~= s@.skip(at as int));
                assert(strings_view(out@) =~= before + applications_of(colon_fields(s@.skip(at as int))));
                assert(applications_of(seq![]) =~= Seq::<Seq<char>>::empty());
            }
        }
        at = next;
    }
    proof {
        assert(s@.skip(at as int).len() == 0);
        assert(colon_fields(s@.skip(at as int)) =~= seq![]);
        assert(applications_of(seq![]) =~= Seq::<Seq<char>>::empty());
        assert(strings_view(out@) =~= strings_view(out@) + Seq::<Seq<char>>::empty());
        reveal_strlit("/.local/share");
        reveal_strlit("/usr/local/share:/usr/share");
    }
    out
}

} // verus!
