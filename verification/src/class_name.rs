//! Deriving a script's class name from the path of its source file:
//! `res://scripts/my_script.rs` names the class `MyScript`.
use vstd::prelude::*;

use crate::text::{str_chars, string_from_chars};

verus! {

/// The characters that `char::to_uppercase` yields for `c`.
pub uninterp spec fn char_uppercase(c: char) -> Seq<char>;

/// The upper-case mapping of one character (`char::to_uppercase`).
/// The standard library documents that the mapping yields one or more
/// characters and that it maps the ASCII letters `a`..`z` to `A`..`Z` and
/// leaves every other ASCII character unchanged.
#[verifier::external_body]
fn uppercase_chars(c: char) -> (r: Vec<char>)
    ensures
        r@ == char_uppercase(c),
        r@.len() >= 1,
        ('a' <= c && c <= 'z') ==> r@ == seq![((c as u32) - 32) as char],
        ((c as u32) < 128 && !('a' <= c && c <= 'z')) ==> r@ == seq![c],
{
    c.to_uppercase().collect()
}

/// The part of `path` after its last `/`; all of it when it holds no `/`.
pub open spec fn after_last_slash(path: Seq<char>) -> Seq<char>
    decreases path.len(),
{
    if path.len() == 0 {
        path
    } else if path.last() == '/' {
        Seq::empty()
    } else {
        after_last_slash(path.drop_last()).push(path.last())
    }
}

/// The final component of `path` where every platform's path syntax reads
/// it the same way: the path holds no `\` and does not start with `//`
/// (which may open a server or device prefix), and what follows its last
/// `/` is a name that is not empty, not `.` or `..`, and holds no `:`.
/// Other paths give `None` here, which says nothing of their final
/// component.
pub open spec fn plain_final_component(path: Seq<char>) -> Option<Seq<char>> {
    let last = after_last_slash(path);
    if !path.contains('\\') && !crate::text::is_prefix(seq!['/', '/'], path) && last.len() > 0 && last != seq!['.'] && last != seq!['.', '.']
        && !last.contains(':') {
        Some(last)
    } else {
        None
    }
}

/// The final component of a file system path, if there is one
/// (`Path::file_name`). Which characters separate components, and which
/// path prefixes exist, depend on the platform; `/` separates components
/// on every platform. The contract states the final component only for
/// paths that every platform reads alike (`plain_final_component`): there
/// it is the name after the last `/`. Of other paths nothing is stated.
#[verifier::external_body]
fn path_file_name(path: &str) -> (r: Option<String>)
    ensures
        plain_final_component(path@) is Some ==> r is Some && r->0@ == plain_final_component(path@)->0,
{
    std::path::Path::new(path).file_name().map(|name| name.to_string_lossy().into_owned())
}

/// The part of `name` before its last `.`, or `None` when it holds no `.`.
pub open spec fn stem_before_last_dot(name: Seq<char>) -> Option<Seq<char>>
    decreases name.len(),
{
    if name.len() == 0 {
        None
    } else if name.last() == '.' {
        Some(name.drop_last())
    } else {
        stem_before_last_dot(name.drop_last())
    }
}

/// `s` cut at every `sep`, as `str::split` cuts it: `n` separators give
/// `n + 1` parts, some of them possibly empty.
pub open spec fn split_on(s: Seq<char>, sep: char) -> Seq<Seq<char>>
    decreases s.len(),
{
    if s.len() == 0 {
        seq![Seq::empty()]
    } else {
        let parts = split_on(s.drop_last(), sep);
        if s.last() == sep {
            parts.push(Seq::empty())
        } else {
            parts.update(parts.len() - 1, parts.last().push(s.last()))
        }
    }
}

/// `part` with its first character in upper case.
pub open spec fn capitalize(part: Seq<char>) -> Seq<char> {
    char_uppercase(part[0]) + part.drop_first()
}

/// The capitalized parts, concatenated.
pub open spec fn join_capitalized(parts: Seq<Seq<char>>) -> Seq<char>
    decreases parts.len(),
{
    if parts.len() == 0 {
        Seq::empty()
    } else {
        join_capitalized(parts.drop_last()) + capitalize(parts.last())
    }
}

pub open spec fn all_nonempty(parts: Seq<Seq<char>>) -> bool {
    forall|i: int| 0 <= i < parts.len() ==> #[trigger] parts[i].len() > 0
}

/// The class name that a script file named `file_name` declares: the name
/// before its last `.`, cut at every `_`, each part capitalized and the
/// parts joined. There is none when the name has no `.` or when a part is
/// empty.
pub open spec fn class_name_of_file(file_name: Seq<char>) -> Option<Seq<char>> {
    match stem_before_last_dot(file_name) {
        None => None,
        Some(stem) => {
            let parts = split_on(stem, '_');
            if all_nonempty(parts) {
                Some(join_capitalized(parts))
            } else {
                None
            }
        },
    }
}

proof fn lemma_split_parts_nonempty_len(s: Seq<char>, sep: char)
    ensures
        split_on(s, sep).len() >= 1,
    decreases s.len(),
{
    if s.len() > 0 {
        lemma_split_parts_nonempty_len(s.drop_last(), sep);
    }
}

/// Finds the stem of a file name: the characters before its last `.`.
fn stem_of(name: &Vec<char>) -> (r: Option<Vec<char>>)
    ensures
        match r {
            None => stem_before_last_dot(name@) is None,
            Some(stem) => stem_before_last_dot(name@) == Some(stem@),
        },
{
    let mut i: usize = name.len();
    assert(name@.take(i as int) == name@);
    while i > 0
        invariant
            i <= name.len(),
            stem_before_last_dot(name@) == stem_before_last_dot(name@.take(i as int)),
        decreases i,
    {
        let j = i - 1;
        assert(name@.take(i as int).drop_last() == name@.take(j as int));
        if name[j] == '.' {
            let mut stem: Vec<char> = Vec::new();
            let mut k: usize = 0;
            while k < j
                invariant
                    k <= j,
                    j < name.len(),
                    stem@ == name@.take(k as int),
                decreases j - k,
            {
                stem.push(name[k]);
                k = k + 1;
                assert(name@.take(k as int) == name@.take(k - 1).push(name@[k - 1]));
            }
            return Some(stem);
        }
        i = j;
    }
    None
}

/// What `char::to_uppercase` is known to do with the ASCII character `c`:
/// a lower-case letter becomes its upper-case letter, any other ASCII
/// character stays as it is.
pub open spec fn ascii_upper(c: char) -> char {
    if 'a' <= c && c <= 'z' {
        ((c as u32) - 32) as char
    } else {
        c
    }
}

/// The upper-case mapping of `c` is known: `c` is ASCII and its mapping is
/// `ascii_upper(c)`.
pub open spec fn upper_known(c: char) -> bool {
    (c as u32) < 128 ==> char_uppercase(c) == seq![ascii_upper(c)]
}

/// The upper-case mappings of the initials of all parts are known.
pub open spec fn initials_known(parts: Seq<Seq<char>>) -> bool {
    forall|k: int| 0 <= k < parts.len() && parts[k].len() > 0 ==> upper_known(#[trigger] parts[k][0])
}

/// The upper-case mappings of the initials of the parts of a file name's
/// stem are known.
pub open spec fn file_initials_known(file_name: Seq<char>) -> bool {
    match stem_before_last_dot(file_name) {
        Some(stem) => initials_known(split_on(stem, '_')),
        None => true,
    }
}

/// `part` with its first character upper-cased by `ascii_upper`.
pub open spec fn ascii_capitalize(part: Seq<char>) -> Seq<char> {
    seq![ascii_upper(part[0])] + part.drop_first()
}

/// The parts capitalized by `ascii_upper`, concatenated.
pub open spec fn join_ascii_capitalized(parts: Seq<Seq<char>>) -> Seq<char>
    decreases parts.len(),
{
    if parts.len() == 0 {
        Seq::empty()
    } else {
        join_ascii_capitalized(parts.drop_last()) + ascii_capitalize(parts.last())
    }
}

/// Where the initials of all parts are ASCII and their upper-case mappings
/// are known, the class name is built with `ascii_upper`: `player` and
/// `controller` give `PlayerController`.
pub proof fn lemma_ascii_class_name(parts: Seq<Seq<char>>)
    requires
        all_nonempty(parts),
        initials_known(parts),
        forall|k: int| 0 <= k < parts.len() ==> ((#[trigger] parts[k])[0] as u32) < 128,
    ensures
        join_capitalized(parts) == join_ascii_capitalized(parts),
    decreases parts.len(),
{
    if parts.len() > 0 {
        let rest = parts.drop_last();
        assert forall|k: int| 0 <= k < rest.len() implies #[trigger] rest[k].len() > 0 by {
            assert(rest[k] == parts[k]);
        }
        assert forall|k: int| 0 <= k < rest.len() && rest[k].len() > 0 implies upper_known(#[trigger] rest[k][0]) by {
            assert(rest[k] == parts[k]);
        }
        assert forall|k: int| 0 <= k < rest.len() implies ((#[trigger] rest[k])[0] as u32) < 128 by {
            assert(rest[k] == parts[k]);
        }
        lemma_ascii_class_name(rest);
        let last = parts.last();
        assert(parts[parts.len() - 1] == last);
        assert(upper_known(last[0]));
    }
}

/// Appends the capitalized form of a nonempty part to `out`.
fn push_capitalized(out: &mut Vec<char>, part: &Vec<char>)
    requires
        part@.len() > 0,
    ensures
        final(out)@ == old(out)@ + capitalize(part@),
        upper_known(part@[0]),
{
    let mut upper = uppercase_chars(part[0]);
    out.append(&mut upper);
    let mut k: usize = 1;
    let ghost base = out@;
    while k < part.len()
        invariant
            1 <= k <= part.len(),
            out@ == base + part@.subrange(1, k as int),
        decreases part.len() - k,
    {
        out.push(part[k]);
        k = k + 1;
        assert(part@.subrange(1, k as int) == part@.subrange(1, k - 1).push(part@[k - 1]));
    }
    assert(part@.subrange(1, part@.len() as int) == part@.drop_first());
}

/// The class name that the stem of a script file declares, or `None` when
/// a `_`-separated part of it is empty.
fn class_name_of_stem(stem: &Vec<char>) -> (r: Option<Vec<char>>)
    ensures
        match r {
            None => !all_nonempty(split_on(stem@, '_')),
            Some(c) => all_nonempty(split_on(stem@, '_')) && c@ == join_capitalized(split_on(stem@, '_'))
                && initials_known(split_on(stem@, '_')),
        },
{
    let mut out: Vec<char> = Vec::new();
    let mut current: Vec<char> = Vec::new();
    let ghost mut done: Seq<Seq<char>> = Seq::empty();
    let mut i: usize = 0;
    assert(stem@.take(0) == Seq::<char>::empty());
    while i < stem.len()
        invariant
            i <= stem.len(),
            split_on(stem@.take(i as int), '_') == done.push(current@),
            all_nonempty(done),
            initials_known(done),
            out@ == join_capitalized(done),
        decreases stem.len() - i,
    {
        let c = stem[i];
        assert(stem@.take(i + 1).drop_last() == stem@.take(i as int));
        assert(stem@.take(i + 1).last() == c);
        if c == '_' {
            if current.len() == 0 {
                proof {
                    let parts = split_on(stem@.take(i as int), '_');
                    assert(parts[done.len() as int].len() == 0);
                    lemma_split_prefix_parts(stem@, i as int, done.len() as int);
                }
                return None;
            }
            push_capitalized(&mut out, &current);
            proof {
                let old_done = done;
                done = done.push(current@);
                assert(done.drop_last() == old_done);
                assert(all_nonempty(done));
                assert forall|k: int| 0 <= k < done.len() && done[k].len() > 0 implies upper_known(#[trigger] done[k][0]) by {
                    if k < old_done.len() {
                        assert(done[k] == old_done[k]);
                    }
                }
            }
            current = Vec::new();
            assert(split_on(stem@.take(i + 1), '_') =~= done.push(current@));
        } else {
            current.push(c);
            assert(split_on(stem@.take(i + 1), '_') =~= done.push(current@));
        }
        i = i + 1;
    }
    assert(stem@.take(stem.len() as int) == stem@);
    if current.len() == 0 {
        assert(split_on(stem@, '_')[done.len() as int].len() == 0);
        return None;
    }
    push_capitalized(&mut out, &current);
    proof {
        let parts = done.push(current@);
        assert(parts.drop_last() == done);
        assert(all_nonempty(parts));
        assert forall|k: int| 0 <= k < parts.len() && parts[k].len() > 0 implies upper_known(#[trigger] parts[k][0]) by {
            if k < done.len() {
                assert(parts[k] == done[k]);
            }
        }
    }
    Some(out)
}

/// The first `done.len() + 1` parts of `s.take(i)` are parts of `s` too:
/// every part but the last of a prefix is also a part of the whole.
proof fn lemma_split_prefix_parts(s: Seq<char>, i: int, k: int)
    requires
        0 <= i <= s.len(),
        i < s.len() ==> s[i] == '_',
        0 <= k < split_on(s.take(i), '_').len(),
    ensures
        k < split_on(s, '_').len(),
        split_on(s, '_')[k] == split_on(s.take(i), '_')[k],
    decreases s.len() - i,
{
    lemma_split_parts_nonempty_len(s.take(i), '_');
    if i == s.len() {
        assert(s.take(i) == s);
    } else {
        lemma_split_extend(s, i, k);
    }
}

/// Extending a prefix that ends before a separator keeps its completed
/// parts, and the part in progress is completed by the separator.
proof fn lemma_split_extend(s: Seq<char>, i: int, k: int)
    requires
        0 <= i < s.len(),
        s[i] == '_',
        0 <= k < split_on(s.take(i), '_').len(),
    ensures
        k < split_on(s, '_').len(),
        split_on(s, '_')[k] == split_on(s.take(i), '_')[k],
    decreases s.len() - i,
{
    let n = split_on(s.take(i), '_').len();
    assert(s.take(i + 1).drop_last() == s.take(i));
    assert(split_on(s.take(i + 1), '_') == split_on(s.take(i), '_').push(Seq::empty()));
    lemma_split_grow(s, i + 1, k);
}

/// Parts below index `k` of a prefix stay fixed as the prefix grows, as
/// long as `k` is not the prefix's last part.
proof fn lemma_split_grow(s: Seq<char>, i: int, k: int)
    requires
        0 <= i <= s.len(),
        0 <= k < split_on(s.take(i), '_').len() - 1,
    ensures
        k < split_on(s, '_').len() - 1,
        split_on(s, '_')[k] == split_on(s.take(i), '_')[k],
    decreases s.len() - i,
{
    if i == s.len() {
        assert(s.take(i) == s);
    } else {
        assert(s.take(i + 1).drop_last() == s.take(i));
        let prev = split_on(s.take(i), '_');
        let next = split_on(s.take(i + 1), '_');
        if s[i] == '_' {
            assert(next == prev.push(Seq::empty()));
        } else {
            assert(next == prev.update(prev.len() - 1, prev.last().push(s[i])));
        }
        assert(next[k] == prev[k]);
        lemma_split_grow(s, i + 1, k);
    }
}

/// A name made of `stem`, a `.` and an extension without `.` has `stem`
/// before its last `.`.
proof fn lemma_stem_with_extension(stem: Seq<char>, ext: Seq<char>)
    requires
        !ext.contains('.'),
    ensures
        stem_before_last_dot(stem + seq!['.'] + ext) == Some(stem),
    decreases ext.len(),
{
    let s = stem + seq!['.'] + ext;
    if ext.len() == 0 {
        assert(s.drop_last() =~= stem);
    } else {
        assert(s.drop_last() =~= stem + seq!['.'] + ext.drop_last());
        assert(ext[ext.len() - 1] != '.');
        assert(!ext.drop_last().contains('.')) by {
            if ext.drop_last().contains('.') {
                let k = choose|k: int| 0 <= k < ext.drop_last().len() && ext.drop_last()[k] == '.';
                assert(ext[k] == '.');
            }
        }
        lemma_stem_with_extension(stem, ext.drop_last());
    }
}

/// The class name comes from the file's name before its extension: files
/// that differ in the extension only declare the same class name.
pub proof fn law_class_name_ignores_extension(stem: Seq<char>, ext: Seq<char>, other_ext: Seq<char>)
    requires
        !ext.contains('.'),
        !other_ext.contains('.'),
    ensures
        class_name_of_file(stem + seq!['.'] + ext) == class_name_of_file(stem + seq!['.'] + other_ext),
{
    lemma_stem_with_extension(stem, ext);
    lemma_stem_with_extension(stem, other_ext);
}

/// The class name that a script file named `file_name` declares, or
/// `None` when it declares none.
pub fn class_name_from_file_name(file_name: &str) -> (r: Option<String>)
    ensures
        match r {
            None => class_name_of_file(file_name@) is None,
            Some(c) => class_name_of_file(file_name@) == Some(c@) && file_initials_known(file_name@),
        },
{
    let chars = str_chars(file_name);
    match stem_of(&chars) {
        None => None,
        Some(stem) => match class_name_of_stem(&stem) {
            None => None,
            Some(name) => Some(string_from_chars(&name)),
        },
    }
}

/// The class name that the script file at `path` declares: that of the
/// path's final component. `None` is the error case: the path has no final
/// component, or the component has no `.` or an empty `_`-separated part
/// before its last `.`, so that no class name can be formed. The error is
/// returned rather than raised, so that callers decide: the script
/// language stops with a panic on it. The contract fixes the result for
/// paths whose final component every platform reads alike; what the
/// platform's path rules make the final component of any other path is
/// not stated.
pub fn path_to_class_name(path: &str) -> (r: Option<String>)
    ensures
        plain_final_component(path@) matches Some(last) ==> match r {
            None => class_name_of_file(last) is None,
            Some(c) => class_name_of_file(last) == Some(c@) && file_initials_known(last),
        },
        r matches Some(c) ==> exists|file_name: Seq<char>| class_name_of_file(file_name) == Some(c@),
{
    match path_file_name(path) {
        None => None,
        Some(file_name) => {
            let r = class_name_from_file_name(file_name.as_str());
            r
        },
    }
}

} // verus!
