use vstd::prelude::*;
use crate::workflow::Step;
use crate::text::{
    is_ws, trim_start,
    chars_of, find_char_from, first_index_of, lemma_first_index_at, lemma_first_index_none, trim,
    trim_bounds,
};

verus! {

/// The texts held by a vector of strings.
pub open spec fn views(v: Seq<String>) -> Seq<Seq<char>> {
    v.map_values(|s: String| s@)
}

/// Whether a file name ends in `.jar`.
pub open spec fn is_jar(name: Seq<char>) -> bool {
    name.len() >= 4 && name.subrange(name.len() - 4, name.len() as int) == seq!['.', 'j', 'a', 'r']
}

/// Whether `name` is a mod file name, as `.jar` files are recognised.
pub fn is_jar_name(name: &str) -> (r: bool)
    ensures
        r == is_jar(name@),
{
    let n: usize = name.unicode_len();
    if n < 4 {
        return false;
    }
    let r = name.get_char(n - 4) == '.' && name.get_char(n - 3) == 'j' && name.get_char(n - 2)
        == 'a' && name.get_char(n - 1) == 'r';
    assert(r == (name@.subrange(n - 4, n as int) =~= seq!['.', 'j', 'a', 'r']));
    r
}

/// The `.jar` files among `names`, in order.
pub open spec fn jar_only(names: Seq<Seq<char>>) -> Seq<Seq<char>> {
    names.filter(|n: Seq<char>| is_jar(n))
}

/// Keeps the `.jar` files among `names`, in order.
pub fn jar_names(names: &Vec<String>) -> (r: Vec<String>)
    ensures
        views(r@) == jar_only(views(names@)),
{
    let ghost all = views(names@);
    let ghost jar_pred = |n: Seq<char>| is_jar(n);
    let mut out: Vec<String> = Vec::new();
    let mut k: usize = 0;
    while k < names.len()
        invariant
            k <= names@.len(),
            all == views(names@),
            jar_pred == (|n: Seq<char>| is_jar(n)),
            views(out@) == all.take(k as int).filter(jar_pred),
        decreases names@.len() - k,
    {
        assert(all.take(k + 1) =~= all.take(k as int).push(all[k as int]));
        proof {
            all.take(k as int).lemma_filter_push(all[k as int], jar_pred);
        }
        if is_jar_name(names[k].as_str()) {
            out.push(names[k].clone());
        }
        assert(views(out@) =~= all.take(k + 1).filter(jar_pred));
        k = k + 1;
    }
    assert(all.take(names@.len() as int) =~= all);
    out
}

/// The manifest text of the installed mods, from the names of the files
/// in the mods directory: its `.jar` files, one per line.
pub fn mods_manifest(file_names: &Vec<String>) -> (r: String)
    ensures
        r@ == join_lines(jar_only(views(file_names@))),
{
    let jars = jar_names(file_names);
    render_manifest(&jars)
}

/// The names joined by line breaks, with none after the last.
pub open spec fn join_lines(names: Seq<Seq<char>>) -> Seq<char>
    decreases names.len(),
{
    if names.len() == 0 {
        Seq::empty()
    } else if names.len() == 1 {
        names[0]
    } else {
        join_lines(names.drop_last()) + seq!['\n'] + names.last()
    }
}

/// A trimmed line as a manifest entry: none where it is blank.
pub open spec fn entry_of(line: Seq<char>) -> Seq<Seq<char>> {
    if trim(line).len() == 0 {
        Seq::empty()
    } else {
        seq![trim(line)]
    }
}

/// The entries of a manifest text: each line trimmed, blank lines left out.
pub open spec fn parse_entries(s: Seq<char>) -> Seq<Seq<char>>
    decreases s.len(),
{
    match first_index_of(s, '\n') {
        Some(i) => if 0 <= i < s.len() {
            entry_of(s.subrange(0, i)) + parse_entries(s.subrange(i + 1, s.len() as int))
        } else {
            Seq::empty()
        },
        None => entry_of(s),
    }
}

/// A name that a manifest holds as it is: not blank, no line break, no
/// white space around it.
pub open spec fn is_manifest_name(name: Seq<char>) -> bool {
    &&& name.len() > 0
    &&& trim(name) == name
    &&& !name.contains('\n')
}

/// Writes a list of mod file names as a manifest text: one per line.
pub fn render_manifest(names: &Vec<String>) -> (r: String)
    ensures
        r@ == join_lines(views(names@)),
{
    let mut r = String::new();
    let mut i: usize = 0;
    while i < names.len()
        invariant
            i <= names@.len(),
            r@ == join_lines(views(names@).take(i as int)),
        decreases names@.len() - i,
    {
        let ghost t = views(names@).take(i + 1);
        let ghost prev = r@;
        proof {
            assert(t.drop_last() =~= views(names@).take(i as int));
            assert(t.last() == names@[i as int]@);
        }
        if i > 0 {
            proof {
                reveal_strlit("\n");
                assert("\n"@ =~= seq!['\n']);
            }
            r.append("\n");
            r.append(names[i].as_str());
            assert(r@ =~= prev + seq!['\n'] + t.last());
        } else {
            r.append(names[i].as_str());
            assert(views(names@).take(0) =~= Seq::<Seq<char>>::empty());
            assert(r@ =~= t[0]);
        }
        i = i + 1;
    }
    assert(views(names@).take(names@.len() as int) =~= views(names@));
    r
}

/// Reads a manifest text: each line trimmed, blank lines left out.
pub fn parse_manifest(contents: &str) -> (r: Vec<String>)
    ensures
        views(r@) == parse_entries(contents@),
{
    let cs = chars_of(contents);
    let n: usize = cs.len();
    let mut out: Vec<String> = Vec::new();
    let mut pos: usize = 0;
    assert(contents@.subrange(0, n as int) =~= contents@);
    loop
        invariant
            pos <= n == contents@.len(),
            cs@ == contents@,
            views(out@) + parse_entries(contents@.subrange(pos as int, n as int))
                == parse_entries(contents@),
        decreases n - pos,
    {
        let ghost rest = contents@.subrange(pos as int, n as int);
        let end: usize = match find_char_from(&cs, '\n', pos) {
            Some(i) => pos + i,
            None => n,
        };
        let (a, b) = trim_bounds(contents, pos, end);
        let ghost line = contents@.subrange(pos as int, end as int);
        let ghost before = views(out@);
        assert(rest.subrange(0, (end - pos) as int) =~= line);
        if a < b {
            out.push(contents.substring_char(a, b).to_owned());
        }
        assert(views(out@) =~= before + entry_of(line));
        if end == n {
            assert(rest =~= line);
            assert(views(out@) =~= parse_entries(contents@));
            return out;
        }
        assert(rest.subrange((end - pos) + 1, rest.len() as int) =~= contents@.subrange(
            end + 1,
            n as int,
        ));
        pos = end + 1;
    }
}

proof fn lemma_parse_single(a: Seq<char>)
    requires
        !a.contains('\n'),
    ensures
        parse_entries(a) == entry_of(a),
{
    assert forall|j: int| 0 <= j < a.len() implies a[j] != '\n' by {
        if a[j] == '\n' {
            assert(a.contains('\n'));
        }
    }
    lemma_first_index_none(a, '\n');
}

proof fn lemma_parse_after_line(a: Seq<char>, u: Seq<char>)
    requires
        !a.contains('\n'),
    ensures
        parse_entries(a + seq!['\n'] + u) == entry_of(a) + parse_entries(u),
{
    let s = a + seq!['\n'] + u;
    assert forall|j: int| 0 <= j < a.len() implies s[j] != '\n' by {
        assert(s[j] == a[j]);
        if a[j] == '\n' {
            assert(a.contains('\n'));
        }
    }
    lemma_first_index_at(s, '\n', a.len() as int);
    assert(s.subrange(0, a.len() as int) =~= a);
    assert(s.subrange(a.len() as int + 1, s.len() as int) =~= u);
}

proof fn lemma_entry_of_name(name: Seq<char>)
    requires
        is_manifest_name(name),
    ensures
        entry_of(name) == seq![name],
{
}

proof fn lemma_parse_joined_then(names: Seq<Seq<char>>, u: Seq<char>)
    requires
        names.len() >= 1,
        forall|i: int| 0 <= i < names.len() ==> is_manifest_name(#[trigger] names[i]),
    ensures
        parse_entries(join_lines(names) + seq!['\n'] + u) == names + parse_entries(u),
    decreases names.len(),
{
    let last = names.last();
    lemma_entry_of_name(last);
    if names.len() == 1 {
        lemma_entry_of_name(names[0]);
        lemma_parse_after_line(names[0], u);
        assert(names =~= seq![names[0]]);
    } else {
        let init = names.drop_last();
        let tail = last + seq!['\n'] + u;
        assert(join_lines(names) + seq!['\n'] + u =~= join_lines(init) + seq!['\n'] + tail);
        lemma_parse_joined_then(init, tail);
        lemma_parse_after_line(last, u);
        assert(init + (seq![last] + parse_entries(u)) =~= names + parse_entries(u));
    }
}

/// A list of mod file names written as a manifest reads back as the same
/// list, in the same order, whether or not the text ends in a line break.
pub proof fn lemma_manifest_round_trip(names: Seq<Seq<char>>)
    requires
        forall|i: int| 0 <= i < names.len() ==> is_manifest_name(#[trigger] names[i]),
    ensures
        parse_entries(join_lines(names)) == names,
        parse_entries(join_lines(names) + seq!['\n']) == names,
{
    let empty = Seq::<char>::empty();
    assert(trim(empty) == empty);
    lemma_parse_single(empty);
    if names.len() == 0 {
        lemma_parse_after_line(empty, empty);
        assert(empty + seq!['\n'] + empty =~= seq!['\n']);
        assert(join_lines(names) + seq!['\n'] =~= seq!['\n']);
        assert(names =~= Seq::<Seq<char>>::empty());
    } else {
        lemma_parse_joined_then(names, empty);
        assert(join_lines(names) + seq!['\n'] + empty =~= join_lines(names) + seq!['\n']);
        assert(names + Seq::<Seq<char>>::empty() =~= names);
        let last = names.last();
        lemma_entry_of_name(last);
        lemma_parse_single(last);
        if names.len() == 1 {
            assert(names =~= seq![last]);
        } else {
            let init = names.drop_last();
            lemma_parse_joined_then(init, last);
            assert(init + seq![last] =~= names);
        }
    }
}

proof fn lemma_trim_start_blank(s: Seq<char>)
    requires
        forall|j: int| 0 <= j < s.len() ==> is_ws(#[trigger] s[j]),
    ensures
        trim_start(s).len() == 0,
    decreases s.len(),
{
    if s.len() > 0 {
        lemma_trim_start_blank(s.drop_first());
    }
}

proof fn lemma_first_index_bounds(s: Seq<char>, c: char)
    ensures
        first_index_of(s, c) matches Some(i) ==> 0 <= i < s.len(),
    decreases s.len(),
{
    if s.len() > 0 {
        lemma_first_index_bounds(s.drop_first(), c);
    }
}

proof fn lemma_parse_blank(u: Seq<char>)
    requires
        forall|j: int| 0 <= j < u.len() ==> is_ws(#[trigger] u[j]),
    ensures
        parse_entries(u) == Seq::<Seq<char>>::empty(),
    decreases u.len(),
{
    lemma_first_index_bounds(u, '\n');
    match first_index_of(u, '\n') {
        Some(i) => {
            let line = u.subrange(0, i);
            let rest = u.subrange(i + 1, u.len() as int);
            assert forall|j: int| 0 <= j < line.len() implies is_ws(#[trigger] line[j]) by {
                assert(line[j] == u[j]);
            }
            assert forall|j: int| 0 <= j < rest.len() implies is_ws(#[trigger] rest[j]) by {
                assert(rest[j] == u[i + 1 + j]);
            }
            lemma_trim_start_blank(line);
            lemma_parse_blank(rest);
            assert(entry_of(line) =~= Seq::<Seq<char>>::empty());
            assert(parse_entries(u) =~= Seq::<Seq<char>>::empty());
        },
        None => {
            lemma_trim_start_blank(u);
        },
    }
}

/// A list of mod file names written as a manifest, followed by a line
/// break and any run of blank or white-space-only lines, reads back as the
/// same list, in the same order.
pub proof fn lemma_manifest_trailing_blank_lines(names: Seq<Seq<char>>, tail: Seq<char>)
    requires
        forall|i: int| 0 <= i < names.len() ==> is_manifest_name(#[trigger] names[i]),
        forall|j: int| 0 <= j < tail.len() ==> is_ws(#[trigger] tail[j]),
    ensures
        parse_entries(join_lines(names) + seq!['\n'] + tail) == names,
{
    lemma_parse_blank(tail);
    let empty = Seq::<char>::empty();
    if names.len() == 0 {
        assert(trim(empty) == empty);
        lemma_parse_after_line(empty, tail);
        assert(empty + seq!['\n'] + tail =~= join_lines(names) + seq!['\n'] + tail);
        assert(names =~= Seq::<Seq<char>>::empty());
    } else {
        lemma_parse_joined_then(names, tail);
        assert(names + Seq::<Seq<char>>::empty() =~= names);
    }
}

/// The manifest text that a manifest step writes, if any: nothing where
/// the mods directory could not be listed, nor where the step only fills
/// in a missing manifest and one exists; otherwise the manifest of the
/// listed files.
pub fn manifest_to_write(step: Step, manifest_exists: bool, mod_files: Option<Vec<String>>) -> (r:
    Option<String>)
    ensures
        match mod_files {
            None => r is None,
            Some(files) => if step == Step::RegenerateManifest && manifest_exists {
                r is None
            } else {
                r matches Some(t) && t@ == join_lines(jar_only(views(files@)))
            },
        },
{
    match mod_files {
        None => None,
        Some(files) => {
            if step == Step::RegenerateManifest && manifest_exists {
                None
            } else {
                Some(mods_manifest(&files))
            }
        },
    }
}

} // verus!
