use vstd::prelude::*;
use crate::text::{chars_of, find_char_from, first_index_of, is_whitespace, is_ws, trim_end, trim_end_len};

verus! {

/// The end of the run of white space that starts at `i`.
pub open spec fn ws_end(s: Seq<char>, i: int) -> int
    decreases s.len() - i,
{
    if 0 <= i < s.len() && is_ws(s[i]) {
        ws_end(s, i + 1)
    } else {
        i
    }
}

/// Whether `k` occurs in `s` at position `i`.
pub open spec fn occurs_at(s: Seq<char>, i: int, k: Seq<char>) -> bool {
    0 <= i && i + k.len() <= s.len() && s.subrange(i, i + k.len()) == k
}

/// The bounds of the quoted value of an assignment `key = "value"` (white
/// space allowed around `=`) that starts at `i`; with `nonempty`, an empty
/// value does not count.
pub open spec fn assignment_at(s: Seq<char>, key: Seq<char>, i: int, nonempty: bool) -> Option<
    (int, int),
> {
    if occurs_at(s, i, key) {
        let p = ws_end(s, i + key.len());
        if p < s.len() && s[p] == '=' {
            let q = ws_end(s, p + 1);
            if q < s.len() && s[q] == '"' {
                match first_index_of(s.subrange(q + 1, s.len() as int), '"') {
                    Some(k) => if nonempty && k == 0 {
                        None
                    } else {
                        Some((q + 1, q + 1 + k))
                    },
                    None => None,
                }
            } else {
                None
            }
        } else {
            None
        }
    } else {
        None
    }
}

/// The first assignment of `key` that starts at or after `i`.
pub open spec fn first_assignment_from(s: Seq<char>, key: Seq<char>, i: int, nonempty: bool) -> Option<
    (int, int),
>
    decreases s.len() + 1 - i,
{
    if i < 0 || i > s.len() {
        None
    } else {
        match assignment_at(s, key, i, nonempty) {
            Some(b) => Some(b),
            None => first_assignment_from(s, key, i + 1, nonempty),
        }
    }
}

/// The name of the configuration field that holds the modpack version.
pub open spec fn version_key() -> Seq<char> {
    "modpackVersion"@
}

/// The value of the first `modpackVersion = "..."` assignment in a
/// configuration text.
pub open spec fn version_field(s: Seq<char>, nonempty: bool) -> Option<Seq<char>> {
    match first_assignment_from(s, version_key(), 0, nonempty) {
        Some(b) => Some(s.subrange(b.0, b.1)),
        None => None,
    }
}

fn ws_end_exec(cs: &Vec<char>, i: usize) -> (r: usize)
    requires
        i <= cs@.len(),
    ensures
        r == ws_end(cs@, i as int),
        i <= r <= cs@.len(),
{
    let mut j: usize = i;
    while j < cs.len() && is_whitespace(cs[j])
        invariant
            i <= j <= cs@.len(),
            ws_end(cs@, i as int) == ws_end(cs@, j as int),
        decreases cs@.len() - j,
    {
        j = j + 1;
    }
    j
}

fn occurs_at_exec(cs: &Vec<char>, i: usize, k: &Vec<char>) -> (r: bool)
    ensures
        r == occurs_at(cs@, i as int, k@),
{
    if i > cs.len() || k.len() > cs.len() - i {
        return false;
    }
    let mut j: usize = 0;
    while j < k.len()
        invariant
            i + k@.len() <= cs@.len() <= usize::MAX,
            j <= k@.len(),
            forall|t: int| 0 <= t < j ==> cs@[i + t] == k@[t],
        decreases k@.len() - j,
    {
        if cs[i + j] != k[j] {
            assert(cs@.subrange(i as int, i + k@.len())[j as int] != k@[j as int]);
            return false;
        }
        j = j + 1;
    }
    assert(cs@.subrange(i as int, i + k@.len()) =~= k@);
    true
}

fn assignment_at_exec(cs: &Vec<char>, key: &Vec<char>, i: usize, nonempty: bool) -> (r: Option<
    (usize, usize),
>)
    requires
        i <= cs@.len(),
    ensures
        match r {
            Some(b) => assignment_at(cs@, key@, i as int, nonempty) == Some(
                (b.0 as int, b.1 as int),
            ) && b.0 <= b.1 <= cs@.len(),
            None => assignment_at(cs@, key@, i as int, nonempty) is None,
        },
{
    if !occurs_at_exec(cs, i, key) {
        return None;
    }
    let n: usize = cs.len();
    assert(i + key@.len() <= n);
    let p: usize = ws_end_exec(cs, i + key.len());
    if p >= cs.len() || cs[p] != '=' {
        return None;
    }
    let q: usize = ws_end_exec(cs, p + 1);
    if q >= cs.len() || cs[q] != '"' {
        return None;
    }
    match find_char_from(cs, '"', q + 1) {
        Some(k) => {
            if nonempty && k == 0 {
                None
            } else {
                Some((q + 1, q + 1 + k))
            }
        },
        None => None,
    }
}

fn first_assignment_exec(cs: &Vec<char>, key: &Vec<char>, nonempty: bool) -> (r: Option<
    (usize, usize),
>)
    ensures
        match r {
            Some(b) => first_assignment_from(cs@, key@, 0, nonempty) == Some(
                (b.0 as int, b.1 as int),
            ) && b.0 <= b.1 <= cs@.len(),
            None => first_assignment_from(cs@, key@, 0, nonempty) is None,
        },
{
    let n: usize = cs.len();
    let mut i: usize = 0;
    while i < n
        invariant
            n == cs@.len(),
            i <= n,
            first_assignment_from(cs@, key@, 0, nonempty) == first_assignment_from(
                cs@,
                key@,
                i as int,
                nonempty,
            ),
        decreases n - i,
    {
        match assignment_at_exec(cs, key, i, nonempty) {
            Some(b) => {
                return Some(b);
            },
            None => {},
        }
        i = i + 1;
    }
    assert(ws_end(cs@, n as int) == n);
    assert(assignment_at(cs@, key@, n as int, nonempty) is None);
    assert(first_assignment_from(cs@, key@, n + 1, nonempty) is None);
    None
}

/// Reads the modpack version from a configuration text: the value of the
/// first `modpackVersion = "..."` assignment; with `nonempty`, assignments
/// of an empty value are passed over.
pub fn modpack_version(contents: &str, nonempty: bool) -> (r: Option<String>)
    ensures
        match r {
            Some(v) => version_field(contents@, nonempty) == Some(v@),
            None => version_field(contents@, nonempty) is None,
        },
{
    let cs = chars_of(contents);
    let key = chars_of("modpackVersion");
    match first_assignment_exec(&cs, &key, nonempty) {
        Some(b) => Some(contents.substring_char(b.0, b.1).to_owned()),
        None => None,
    }
}

/// Whether a line starts at position `i` of `s`.
pub open spec fn is_line_start(s: Seq<char>, i: int) -> bool {
    i == 0 || (0 < i <= s.len() && s[i - 1] == '\n')
}

/// The end of the line that holds position `j`: the next line break, or
/// the end of `s`.
pub open spec fn line_end(s: Seq<char>, j: int) -> int {
    match first_index_of(s.subrange(j, s.len() as int), '\n') {
        Some(k) => j + k,
        None => s.len() as int,
    }
}

/// The name of the server property that holds the message of the day.
pub open spec fn motd_key() -> Seq<char> {
    "motd"@
}

/// The end of a `motd = ...` setting that starts a line at `i`, if one does.
pub open spec fn motd_line_at(s: Seq<char>, i: int) -> Option<int> {
    if is_line_start(s, i) && occurs_at(s, i, motd_key()) {
        let p = ws_end(s, i + motd_key().len());
        if p < s.len() && s[p] == '=' {
            Some(line_end(s, p + 1))
        } else {
            None
        }
    } else {
        None
    }
}

/// The bounds of the first `motd = ...` setting that starts at or after `i`.
pub open spec fn first_motd_from(s: Seq<char>, i: int) -> Option<(int, int)>
    decreases s.len() + 1 - i,
{
    if i < 0 || i > s.len() {
        None
    } else {
        match motd_line_at(s, i) {
            Some(e) => Some((i, e)),
            None => first_motd_from(s, i + 1),
        }
    }
}

/// The message-of-the-day setting for a modpack version.
pub open spec fn motd_setting(version: Seq<char>) -> Seq<char> {
    "motd=V"@ + version + " + extras"@
}

/// Server properties with the message of the day set for `version`: the
/// first `motd` setting is replaced; where there is none, the setting is
/// added on a line of its own after the text, trailing white space dropped.
pub open spec fn patched_properties(s: Seq<char>, version: Seq<char>) -> Seq<char> {
    match first_motd_from(s, 0) {
        Some(b) => s.subrange(0, b.0) + motd_setting(version) + s.subrange(b.1, s.len() as int),
        None => trim_end(s) + seq!['\n'] + motd_setting(version),
    }
}

/// Writes the message-of-the-day setting for a modpack version.
pub fn motd_setting_text(version: &str) -> (r: String)
    ensures
        r@ == motd_setting(version@),
{
    let mut r = String::from_str("motd=V");
    r.append(version);
    r.append(" + extras");
    r
}

fn motd_line_at_exec(cs: &Vec<char>, key: &Vec<char>, i: usize) -> (r: Option<usize>)
    requires
        i <= cs@.len(),
        key@ == motd_key(),
    ensures
        match r {
            Some(e) => motd_line_at(cs@, i as int) == Some(e as int) && i <= e <= cs@.len(),
            None => motd_line_at(cs@, i as int) is None,
        },
{
    if i > 0 && cs[i - 1] != '\n' {
        return None;
    }
    if !occurs_at_exec(cs, i, key) {
        return None;
    }
    let n: usize = cs.len();
    assert(i + key@.len() <= n);
    let p: usize = ws_end_exec(cs, i + key.len());
    if p >= cs.len() || cs[p] != '=' {
        return None;
    }
    match find_char_from(cs, '\n', p + 1) {
        Some(k) => Some(p + 1 + k),
        None => Some(cs.len()),
    }
}

/// Sets the message of the day in a server-properties text to announce
/// `version`.
pub fn patch_motd(properties: &str, version: &str) -> (r: String)
    ensures
        r@ == patched_properties(properties@, version@),
{
    let cs = chars_of(properties);
    let key = chars_of("motd");
    proof {
        reveal_strlit("motd");
    }
    let n: usize = cs.len();
    let setting = motd_setting_text(version);
    let mut i: usize = 0;
    while i < n
        invariant
            n == cs@.len() == properties@.len(),
            cs@ == properties@,
            setting@ == motd_setting(version@),
            key@ == motd_key(),
            i <= n,
            first_motd_from(cs@, 0) == first_motd_from(cs@, i as int),
        decreases n - i,
    {
        match motd_line_at_exec(&cs, &key, i) {
            Some(e) => {
                assert(first_motd_from(cs@, i as int) == Some((i as int, e as int)));
                let mut r = properties.substring_char(0, i).to_owned();
                r.append(setting.as_str());
                r.append(properties.substring_char(e, n));
                assert(r@ =~= patched_properties(properties@, version@));
                return r;
            },
            None => {},
        }
        i = i + 1;
    }
    assert(motd_line_at(cs@, n as int) is None);
    assert(first_motd_from(cs@, n + 1) is None);
    let j: usize = trim_end_len(properties);
    let mut r = properties.substring_char(0, j).to_owned();
    proof {
        reveal_strlit("\n");
    }
    r.append("\n");
    r.append(setting.as_str());
    assert(r@ =~= patched_properties(properties@, version@));
    r
}

/// The server properties after a restore: where the configuration names a
/// modpack version, the message of the day announces it; `None` where it
/// names none and the properties stay as they are.
pub fn restored_properties(config: &str, properties: &str) -> (r: Option<String>)
    ensures
        match version_field(config@, false) {
            Some(v) => r matches Some(p) && p@ == patched_properties(properties@, v),
            None => r is None,
        },
{
    match modpack_version(config, false) {
        Some(v) => Some(patch_motd(properties, v.as_str())),
        None => None,
    }
}

/// The server properties that a restore writes, if any: nothing where
/// the configuration or the properties could not be read, or where the
/// configuration names no modpack version.
pub fn motd_update(config: Option<String>, properties: Option<String>) -> (r: Option<String>)
    ensures
        match (config, properties) {
            (Some(c), Some(p)) => match version_field(c@, false) {
                Some(v) => r matches Some(t) && t@ == patched_properties(p@, v),
                None => r is None,
            },
            _ => r is None,
        },
{
    match (config, properties) {
        (Some(c), Some(p)) => restored_properties(c.as_str(), p.as_str()),
        _ => None,
    }
}

} // verus!
