//! What the service does with the name of an uploaded file: the clean-up
//! that the `sanitize-filename` crate performs, and the parts of a path that
//! `std::path::Path` calls the file name, the extension and the stem (Unix
//! separator `/`).
use vstd::prelude::*;
use vstd::utf8::encode_utf8;

verus! {

// ---------------------------------------------------------------------------
// Sanitizing
// ---------------------------------------------------------------------------

/// Characters that may not appear in a file name on any common platform.
pub open spec fn is_illegal_file_char(c: char) -> bool {
    ||| c == '/'
    ||| c == '?'
    ||| c == '<'
    ||| c == '>'
    ||| c == '\\'
    ||| c == ':'
    ||| c == '*'
    ||| c == '|'
    ||| c == '"'
}

/// C0 and C1 control characters (U+0000..=U+001F and U+0080..=U+009F).
pub open spec fn is_control_file_char(c: char) -> bool {
    ||| (c as u32) <= 0x1f
    ||| 0x80 <= (c as u32) && (c as u32) <= 0x9f
}

pub open spec fn is_kept_file_char(c: char) -> bool {
    !is_illegal_file_char(c) && !is_control_file_char(c)
}

/// A non-empty name made of dots alone (`.`, `..`, `...`, ...).
pub open spec fn is_only_dots(s: Seq<char>) -> bool {
    s.len() > 0 && forall|i: int| 0 <= i < s.len() ==> s[i] == '.'
}

/// The longest prefix of `s` whose UTF-8 encoding has at most `limit` bytes.
pub open spec fn utf8_prefix_within(s: Seq<char>, limit: nat) -> Seq<char>
    decreases s.len(),
{
    if s.len() == 0 || encode_utf8(s).len() <= limit {
        s
    } else {
        utf8_prefix_within(s.drop_last(), limit)
    }
}

/// What `sanitize_filename::sanitize` keeps of a name on a non-Windows
/// target (its default options there: Windows rules off, truncation on,
/// empty replacement): illegal and control characters are removed, a name
/// made of dots alone becomes empty, and the result is cut to at most 255
/// bytes at a character boundary.
pub open spec fn sanitized_name(name: Seq<char>) -> Seq<char> {
    let kept = name.filter(|c: char| is_kept_file_char(c));
    let named = if is_only_dots(kept) {
        Seq::<char>::empty()
    } else {
        kept
    };
    utf8_prefix_within(named, 255)
}

/// `c` is the ASCII letter `lower` in either case.
pub open spec fn is_ascii_letter_either_case(c: char, lower: char) -> bool {
    c == lower || (c as u32) + 32 == (lower as u32)
}

/// The first three characters of `s` spell `word` (three lower-case ASCII
/// letters), in either case.
pub open spec fn starts_with_word(s: Seq<char>, word: Seq<char>) -> bool {
    &&& s.len() >= 3
    &&& is_ascii_letter_either_case(s[0], word[0])
    &&& is_ascii_letter_either_case(s[1], word[1])
    &&& is_ascii_letter_either_case(s[2], word[2])
}

pub open spec fn is_ascii_digit(c: char) -> bool {
    '0' <= c && c <= '9'
}

/// The whole name is a Windows device name, with or without an extension:
/// what the crate's pattern `(?i)^(con|prn|aux|nul|com[0-9]|lpt[0-9])(\..*)?$`
/// matches (`.` matches any character but a line feed).
pub open spec fn is_windows_reserved_name(s: Seq<char>) -> bool {
    let head: int = if starts_with_word(s, seq!['c', 'o', 'n']) || starts_with_word(
        s,
        seq!['p', 'r', 'n'],
    ) || starts_with_word(s, seq!['a', 'u', 'x']) || starts_with_word(s, seq!['n', 'u', 'l']) {
        3
    } else if (starts_with_word(s, seq!['c', 'o', 'm']) || starts_with_word(
        s,
        seq!['l', 'p', 't'],
    )) && s.len() >= 4 && is_ascii_digit(s[3]) {
        4
    } else {
        -1
    };
    &&& head > 0
    &&& (s.len() == head || (s[head] == '.' && forall|i: int|
        head < i < s.len() ==> #[trigger] s[i] != '\n'))
}

/// `s` without its trailing run of dots and spaces.
pub open spec fn without_trailing_dots_and_spaces(s: Seq<char>) -> Seq<char>
    decreases s.len(),
{
    if s.len() > 0 && (s.last() == '.' || s.last() == ' ') {
        without_trailing_dots_and_spaces(s.drop_last())
    } else {
        s
    }
}

/// What `sanitize_filename::sanitize` keeps of a name on a Windows target,
/// where its option `windows` is on: after the clean-up of `sanitized_name`
/// and before the cut to 255 bytes, a device name becomes empty and trailing
/// dots and spaces are removed.
pub open spec fn windows_sanitized_name(name: Seq<char>) -> Seq<char> {
    let kept = name.filter(|c: char| is_kept_file_char(c));
    let named = if is_only_dots(kept) {
        Seq::<char>::empty()
    } else {
        kept
    };
    let unreserved = if is_windows_reserved_name(named) {
        Seq::<char>::empty()
    } else {
        named
    };
    utf8_prefix_within(without_trailing_dots_and_spaces(unreserved), 255)
}

/// Calls `sanitize_filename::sanitize`.
///
/// Trusted: the crate's default option `windows` is `cfg!(windows)`, so the
/// result is `windows_sanitized_name` of the name on a Windows target and
/// `sanitized_name` of it on any other; the contract states that it is one of
/// the two, as restated from the crate's source (version 0.6.0).
#[verifier::external_body]
pub(crate) fn sanitize_file_name(name: &str) -> (sanitized: String)
    ensures
        sanitized@ == sanitized_name(name@) || sanitized@ == windows_sanitized_name(name@),
{
    sanitize_filename::sanitize(name)
}

/// The cut-down name is a prefix of the name and fits the byte limit.
pub proof fn lemma_utf8_prefix_within(s: Seq<char>, limit: nat)
    ensures
        utf8_prefix_within(s, limit).len() <= s.len(),
        forall|i: int|
            0 <= i < utf8_prefix_within(s, limit).len() ==> #[trigger] utf8_prefix_within(
                s,
                limit,
            )[i] == s[i],
        encode_utf8(utf8_prefix_within(s, limit)).len() <= limit,
    decreases s.len(),
{
    if s.len() == 0 {
        assert(encode_utf8(s) =~= Seq::<u8>::empty());
    } else if encode_utf8(s).len() <= limit {
    } else {
        let t = s.drop_last();
        lemma_utf8_prefix_within(t, limit);
        assert forall|i: int| 0 <= i < utf8_prefix_within(s, limit).len() implies #[trigger] utf8_prefix_within(
            s,
            limit,
        )[i] == s[i] by {
            assert(utf8_prefix_within(s, limit)[i] == t[i]);
        }
    }
}

/// Removing trailing dots and spaces leaves a prefix.
pub proof fn lemma_without_trailing_is_prefix(s: Seq<char>)
    ensures
        without_trailing_dots_and_spaces(s).len() <= s.len(),
        forall|i: int|
            0 <= i < without_trailing_dots_and_spaces(s).len() ==> #[trigger] without_trailing_dots_and_spaces(
                s,
            )[i] == s[i],
    decreases s.len(),
{
    if s.len() > 0 && (s.last() == '.' || s.last() == ' ') {
        let t = s.drop_last();
        lemma_without_trailing_is_prefix(t);
        assert forall|i: int| 0 <= i < without_trailing_dots_and_spaces(s).len() implies #[trigger] without_trailing_dots_and_spaces(
            s,
        )[i] == s[i] by {
            assert(without_trailing_dots_and_spaces(s)[i] == t[i]);
        }
    }
}

/// Every character of `out` is a kept one, when `out` is a prefix of `s`
/// and every character of `s` is kept.
proof fn lemma_prefix_of_kept(s: Seq<char>, out: Seq<char>)
    requires
        out.len() <= s.len(),
        forall|i: int| 0 <= i < out.len() ==> out[i] == s[i],
        forall|i: int| 0 <= i < s.len() ==> is_kept_file_char(#[trigger] s[i]),
    ensures
        forall|i: int| 0 <= i < out.len() ==> is_kept_file_char(#[trigger] out[i]),
{
    assert forall|i: int| 0 <= i < out.len() implies is_kept_file_char(#[trigger] out[i]) by {
        assert(out[i] == s[i]);
    }
}

/// Law: on every target, a sanitized name holds neither illegal nor control
/// characters (so no `/`), and its UTF-8 encoding has at most 255 bytes.
pub proof fn law_sanitized_name_is_clean(name: Seq<char>)
    ensures
        forall|i: int|
            0 <= i < sanitized_name(name).len() ==> is_kept_file_char(
                #[trigger] sanitized_name(name)[i],
            ),
        has_no_char(sanitized_name(name), '/'),
        encode_utf8(sanitized_name(name)).len() <= 255,
        forall|i: int|
            0 <= i < windows_sanitized_name(name).len() ==> is_kept_file_char(
                #[trigger] windows_sanitized_name(name)[i],
            ),
        has_no_char(windows_sanitized_name(name), '/'),
        encode_utf8(windows_sanitized_name(name)).len() <= 255,
{
    broadcast use vstd::seq_lib::group_filter_ensures;

    let pred = |c: char| is_kept_file_char(c);
    let kept = name.filter(pred);
    assert forall|i: int| 0 <= i < kept.len() implies is_kept_file_char(#[trigger] kept[i]) by {
        assert(pred(kept[i]));
    }
    let named = if is_only_dots(kept) {
        Seq::<char>::empty()
    } else {
        kept
    };
    lemma_prefix_of_kept(kept, named);
    lemma_utf8_prefix_within(named, 255);
    let out = sanitized_name(name);
    lemma_prefix_of_kept(named, out);
    let unreserved = if is_windows_reserved_name(named) {
        Seq::<char>::empty()
    } else {
        named
    };
    lemma_prefix_of_kept(named, unreserved);
    let trimmed = without_trailing_dots_and_spaces(unreserved);
    lemma_without_trailing_is_prefix(unreserved);
    lemma_prefix_of_kept(unreserved, trimmed);
    lemma_utf8_prefix_within(trimmed, 255);
    let wout = windows_sanitized_name(name);
    lemma_prefix_of_kept(trimmed, wout);
    assert forall|i: int| 0 <= i < out.len() implies out[i] != '/' by {
        assert(is_kept_file_char(out[i]));
    }
    assert forall|i: int| 0 <= i < wout.len() implies wout[i] != '/' by {
        assert(is_kept_file_char(wout[i]));
    }
}

// ---------------------------------------------------------------------------
// Parts of a path
// ---------------------------------------------------------------------------

/// Index of the last occurrence of `c` in `s`, or -1.
pub open spec fn last_index_of(s: Seq<char>, c: char) -> int
    decreases s.len(),
{
    if s.len() == 0 {
        -1
    } else if s.last() == c {
        s.len() - 1
    } else {
        last_index_of(s.drop_last(), c)
    }
}

pub proof fn lemma_last_index_of(s: Seq<char>, c: char)
    ensures
        -1 <= last_index_of(s, c) < s.len(),
        last_index_of(s, c) >= 0 ==> s[last_index_of(s, c)] == c,
        forall|j: int| last_index_of(s, c) < j < s.len() ==> s[j] != c,
    decreases s.len(),
{
    if s.len() > 0 && s.last() != c {
        let t = s.drop_last();
        lemma_last_index_of(t, c);
        assert forall|j: int| last_index_of(s, c) < j < s.len() implies s[j] != c by {
            if j < s.len() - 1 {
                assert(s[j] == t[j]);
            }
        }
    }
}

/// The final component of `path` as `std::path::Path::file_name` sees it on
/// Unix: components are separated by `/`, empty components and `.`
/// components are skipped, and a final `..` (or no component at all) gives
/// no file name. (On Windows std also splits at `\` and reads drive, UNC
/// and verbatim prefixes; this library follows the Unix rule on every
/// target. The names the service splits are sanitized first and hold
/// neither separator nor `:`, so on them the two rules agree.)
pub open spec fn path_file_name(path: Seq<char>) -> Option<Seq<char>>
    decreases path.len(),
{
    if path.len() == 0 {
        None
    } else if path.last() == '/' {
        path_file_name(path.drop_last())
    } else {
        let start = last_index_of(path, '/') + 1;
        let component = path.subrange(start, path.len() as int);
        if component == seq!['.'] {
            proof {
                lemma_last_index_of(path, '/');
            }
            path_file_name(path.subrange(0, start))
        } else if component == seq!['.', '.'] {
            None
        } else {
            Some(component)
        }
    }
}

/// `std::path::Path::extension`: the part of the file name after its last
/// `.`, unless the file name has no `.` or its only `.` is the first
/// character.
pub open spec fn path_extension(path: Seq<char>) -> Option<Seq<char>> {
    match path_file_name(path) {
        None => None,
        Some(name) => {
            let k = last_index_of(name, '.');
            if k > 0 {
                Some(name.subrange(k + 1, name.len() as int))
            } else {
                None
            }
        },
    }
}

/// `std::path::Path::file_stem`: the part of the file name before its last
/// `.`, or the whole file name where `path_extension` finds no extension.
pub open spec fn path_file_stem(path: Seq<char>) -> Option<Seq<char>> {
    match path_file_name(path) {
        None => None,
        Some(name) => {
            let k = last_index_of(name, '.');
            if k > 0 {
                Some(name.subrange(0, k))
            } else {
                Some(name)
            }
        },
    }
}

pub open spec fn has_no_char(s: Seq<char>, c: char) -> bool {
    forall|i: int| 0 <= i < s.len() ==> s[i] != c
}

/// A file name is never empty and never holds the separator `/`.
pub proof fn lemma_file_name_has_no_separator(path: Seq<char>)
    ensures
        path_file_name(path) matches Some(name) ==> name.len() > 0 && has_no_char(name, '/'),
    decreases path.len(),
{
    if path.len() == 0 {
    } else if path.last() == '/' {
        lemma_file_name_has_no_separator(path.drop_last());
    } else {
        lemma_last_index_of(path, '/');
        let start = last_index_of(path, '/') + 1;
        let component = path.subrange(start, path.len() as int);
        if component == seq!['.'] {
            lemma_file_name_has_no_separator(path.subrange(0, start));
        } else if component == seq!['.', '.'] {
        } else {
            assert forall|i: int| 0 <= i < component.len() implies component[i] != '/' by {
                assert(component[i] == path[start + i]);
            }
        }
    }
}

/// Law: the extension and the stem that a path yields never hold the
/// separator `/`, so neither can lead out of the directory it is put in.
pub proof fn law_extension_and_stem_have_no_separator(path: Seq<char>)
    ensures
        path_extension(path) matches Some(ext) ==> has_no_char(ext, '/'),
        path_file_stem(path) matches Some(stem) ==> stem.len() > 0 && has_no_char(stem, '/'),
{
    lemma_file_name_has_no_separator(path);
    if let Some(name) = path_file_name(path) {
        lemma_last_index_of(name, '.');
        let k = last_index_of(name, '.');
        if k > 0 {
            let ext = name.subrange(k + 1, name.len() as int);
            let stem = name.subrange(0, k);
            assert forall|i: int| 0 <= i < ext.len() implies ext[i] != '/' by {
                assert(ext[i] == name[k + 1 + i]);
            }
            assert forall|i: int| 0 <= i < stem.len() implies stem[i] != '/' by {
                assert(stem[i] == name[i]);
            }
        }
    }
}

/// Law: where a path has an extension, its file name is the stem, a `.` and
/// the extension; where it has none, the stem is the whole file name.
pub proof fn law_file_name_is_stem_dot_extension(path: Seq<char>)
    ensures
        path_extension(path) matches Some(ext) ==> {
            &&& path_file_stem(path) matches Some(stem)
            &&& path_file_name(path) == Some(stem + seq!['.'] + ext)
        },
        path_extension(path) is None ==> path_file_stem(path) == path_file_name(path),
{
    if let Some(name) = path_file_name(path) {
        lemma_last_index_of(name, '.');
        let k = last_index_of(name, '.');
        if k > 0 {
            assert(name =~= name.subrange(0, k) + seq!['.'] + name.subrange(k + 1, name.len() as int));
        }
    }
}

/// The last `c` of a text without `c` is at -1.
pub proof fn lemma_last_index_absent(s: Seq<char>, c: char)
    requires
        has_no_char(s, c),
    ensures
        last_index_of(s, c) == -1,
{
    lemma_last_index_of(s, c);
}

/// In `a + [c] + b` with no `c` in `b`, the last `c` is the one after `a`.
pub proof fn lemma_last_index_at(a: Seq<char>, c: char, b: Seq<char>)
    requires
        has_no_char(b, c),
    ensures
        last_index_of(a + seq![c] + b, c) == a.len(),
{
    let t = a + seq![c] + b;
    lemma_last_index_of(t, c);
    let r = last_index_of(t, c);
    assert(t[a.len() as int] == c);
    if r > a.len() {
        assert(t[r] == b[r - a.len() - 1]);
    }
}

/// Law: the file name of a path is what follows its last `/`, when that is
/// neither empty, `.` nor `..`.
pub proof fn law_file_name_follows_last_separator(dir: Seq<char>, name: Seq<char>)
    requires
        name.len() > 0,
        has_no_char(name, '/'),
        name != seq!['.'],
        name != seq!['.', '.'],
    ensures
        path_file_name(dir + seq!['/'] + name) == Some(name),
        path_file_name(name) == Some(name),
{
    let t = dir + seq!['/'] + name;
    lemma_last_index_at(dir, '/', name);
    assert(t.last() == name.last());
    assert(t.subrange(dir.len() + 1int, t.len() as int) =~= name);
    lemma_last_index_absent(name, '/');
    assert(name.subrange(0, name.len() as int) =~= name);
}

/// Law: a file name `stem.ext` with a non-empty stem splits at its last `.`
/// into that stem and that extension, whatever the extension's length
/// (it may be empty).
pub proof fn law_name_splits_at_last_dot(stem: Seq<char>, ext: Seq<char>)
    requires
        stem.len() > 0,
        has_no_char(stem, '/'),
        has_no_char(ext, '/'),
        has_no_char(ext, '.'),
        stem + seq!['.'] + ext != seq!['.', '.'],
    ensures
        path_file_name(stem + seq!['.'] + ext) == Some(stem + seq!['.'] + ext),
        path_extension(stem + seq!['.'] + ext) == Some(ext),
        path_file_stem(stem + seq!['.'] + ext) == Some(stem),
{
    let t = stem + seq!['.'] + ext;
    assert forall|i: int| 0 <= i < t.len() implies t[i] != '/' by {
        if i < stem.len() {
            assert(t[i] == stem[i]);
        } else if i > stem.len() {
            assert(t[i] == ext[i - stem.len() - 1]);
        }
    }
    assert(t != seq!['.']);
    law_file_name_follows_last_separator(Seq::<char>::empty(), t);
    lemma_last_index_at(stem, '.', ext);
    assert(t.subrange(stem.len() + 1int, t.len() as int) =~= ext);
    assert(t.subrange(0, stem.len() as int) =~= stem);
}

/// Law: a file name without `.`, or whose only `.` is its first character,
/// has no extension, and its stem is the whole name.
pub proof fn law_name_without_inner_dot_has_no_extension(name: Seq<char>)
    requires
        name.len() > 0,
        has_no_char(name, '/'),
        name != seq!['.'],
        name != seq!['.', '.'],
        has_no_char(name.drop_first(), '.'),
    ensures
        path_extension(name) is None,
        path_file_stem(name) == Some(name),
{
    law_file_name_follows_last_separator(Seq::<char>::empty(), name);
    lemma_last_index_of(name, '.');
    let k = last_index_of(name, '.');
    if k > 0 {
        assert(name[k] == name.drop_first()[k - 1]);
    }
}

} // verus!
