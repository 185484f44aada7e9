//! The names of executables.

use vstd::prelude::*;
use vstd::slice::slice_subrange;

verus! {

/// The text of an optional string.
pub open spec fn text(s: Option<String>) -> Option<Seq<char>> {
    match s {
        Some(s) => Some(s@),
        None => None,
    }
}

/// Whether every character is ASCII.
pub open spec fn ascii(s: Seq<char>) -> bool {
    forall|i: int| 0 <= i < s.len() ==> (#[trigger] s[i] as u32) < 128
}

/// The lower case form of an ASCII letter; any other character itself.
pub open spec fn ascii_lower_char(c: char) -> char {
    if 'A' <= c && c <= 'Z' {
        ((c as u32) + 32) as char
    } else {
        c
    }
}

/// `s` with its ASCII letters in lower case.
pub open spec fn ascii_lower(s: Seq<char>) -> Seq<char> {
    s.map_values(|c: char| ascii_lower_char(c))
}

/// Whether `path` is a file name alone: nothing in it separates components or
/// marks a drive on any system, and it is neither of the two directory entries
/// that stand for the directory itself and its parent.
pub open spec fn bare_name(path: Seq<char>) -> bool {
    &&& path.len() > 0
    &&& path != seq!['.']
    &&& path != seq!['.', '.']
    &&& !path.contains('/')
    &&& !path.contains('\\')
    &&& !path.contains(':')
}

/// A file name without its extension: what stands before the last dot, or the
/// whole name where there is no dot but a leading one.
pub open spec fn bare_stem(name: Seq<char>) -> Seq<char> {
    match name.index_of_last('.') {
        Some(dot) if dot > 0 => name.take(dot),
        _ => name,
    }
}

/// Whether two ASCII texts are the same but for the case of their letters.
pub open spec fn same_but_for_case(one: Seq<char>, other: Seq<char>) -> bool {
    ascii(one) && ascii(other) && ascii_lower(one) == ascii_lower(other)
}

/// Whether `path` begins with two characters that separate components on some
/// system, as the path of a share or a device does.
pub open spec fn begins_with_two_separators(path: Seq<char>) -> bool {
    &&& path.len() > 1
    &&& path[0] == '/' || path[0] == '\\'
    &&& path[1] == '/' || path[1] == '\\'
}

/// Whether `dir` and a slash stand for a directory, and not for the beginning of
/// a share's path. An empty `dir` stands for the root.
pub open spec fn directory(dir: Seq<char>) -> bool {
    !begins_with_two_separators(dir + seq!['/'])
}

/// The path of the file called `name` in `dir`.
pub open spec fn in_directory(dir: Seq<char>, name: Seq<char>) -> Seq<char> {
    dir + seq!['/'] + name
}

/// Whether `path` leads to a file called `name`, in whatever directory.
pub open spec fn leads_to(path: Seq<char>, name: Seq<char>) -> bool {
    bare_name(name) && (path == name || exists|dir: Seq<char>|
        directory(dir) && path == #[trigger] in_directory(dir, name))
}

/// Whether `extension` can follow the last dot of a file name.
pub open spec fn plain_extension(extension: Seq<char>) -> bool {
    &&& !extension.contains('.')
    &&& !extension.contains('/')
    &&& !extension.contains('\\')
    &&& !extension.contains(':')
}

/// `name` with an extension.
pub open spec fn with_extension(name: Seq<char>, extension: Seq<char>) -> Seq<char> {
    name + seq!['.'] + extension
}

/// The stem that [`std::path::Path::file_stem`] finds in a path.
pub uninterp spec fn path_file_stem(path: Seq<char>) -> Option<Seq<char>>;

/// The text that [`str::to_lowercase`] makes of a text.
pub uninterp spec fn lowercase(s: Seq<char>) -> Seq<char>;

/// The name of the executable at `path`, without directories or extension, in
/// lower case.
pub open spec fn stem_of(path: Seq<char>) -> Option<Seq<char>> {
    match path_file_stem(path) {
        Some(stem) => Some(lowercase(stem)),
        None => None,
    }
}

/// The name by which the windows of `program` are known: its executable's, or
/// the whole text in lower case where it names no file.
pub open spec fn known_as(program: Seq<char>) -> Seq<char> {
    match stem_of(program) {
        Some(stem) => stem,
        None => lowercase(program),
    }
}

/// Whether `unit` is one half of a surrogate pair.
pub open spec fn surrogate(unit: u16) -> bool {
    0xD800 <= unit && unit <= 0xDFFF
}

/// Whether `unit` is the first half of a surrogate pair.
pub open spec fn high_surrogate(unit: u16) -> bool {
    0xD800 <= unit && unit <= 0xDBFF
}

/// Whether `unit` is the second half of a surrogate pair.
pub open spec fn low_surrogate(unit: u16) -> bool {
    0xDC00 <= unit && unit <= 0xDFFF
}

/// The text that `units` encode in UTF-16, with U+FFFD for each half of a
/// surrogate pair that stands without the other.
pub open spec fn decode_utf16(units: Seq<u16>) -> Seq<char>
    decreases units.len(),
{
    if units.len() == 0 {
        seq![]
    } else if !surrogate(units[0]) {
        seq![units[0] as char] + decode_utf16(units.skip(1))
    } else if high_surrogate(units[0]) && units.len() > 1 && low_surrogate(units[1]) {
        seq![(0x10000 + (units[0] - 0xD800) * 0x400 + (units[1] - 0xDC00)) as char] + decode_utf16(
            units.skip(2),
        )
    } else {
        seq!['\u{FFFD}'] + decode_utf16(units.skip(1))
    }
}

/// Calls [`std::path::Path::file_stem`]. Its result depends on the path alone
/// and has the name [`path_file_stem`]. On Windows and Unix alike the stem of a
/// file name is the part before its last dot, directories before it and a slash
/// make no difference, and neither an empty path nor the parent directory has a
/// stem. Which letters an ASCII path holds does not decide where its stem lies,
/// so with letters of the other case it has the same stem but for the case; only
/// where a path begins with two separators can a word in it have a meaning. What
/// backslashes mean is fixed by the system that the library is built for and not
/// spelled out, nor are shares and devices.
#[verifier::external_body]
fn file_stem(path: &str) -> (stem: Option<String>)
    ensures
        text(stem) == path_file_stem(path@),
        bare_name(path@) ==> text(stem) == Some(bare_stem(path@)),
        forall|dir: Seq<char>, name: Seq<char>|
            directory(dir) && bare_name(name) && path@ == #[trigger] in_directory(dir, name)
                ==> text(stem) == Some(bare_stem(name)) && text(stem) == path_file_stem(name),
        forall|other: Seq<char>| #[trigger]
            same_but_for_case(path@, other) && !begins_with_two_separators(path@) ==> match (
                text(stem),
                path_file_stem(other),
            ) {
                (Some(one), Some(two)) => same_but_for_case(one, two),
                (None, None) => true,
                _ => false,
            },
        path@.len() == 0 || path@ == seq!['.', '.'] ==> stem is None,
{
    std::path::Path::new(path).file_stem().map(|stem| stem.to_string_lossy().into_owned())
}

/// Calls [`str::to_lowercase`]. Its result depends on the text alone and has the
/// name [`lowercase`]; in a text of ASCII characters the letters become their
/// lower case forms and nothing else changes, so two that differ in case alone
/// have one result. What Unicode makes of any other text is not spelled out.
#[verifier::external_body]
fn to_lowercase(s: &str) -> (lower: String)
    ensures
        lower@ == lowercase(s@),
        ascii(s@) ==> lower@ == ascii_lower(s@),
        forall|other: Seq<char>| #[trigger]
            same_but_for_case(s@, other) ==> lower@ == lowercase(other),
{
    s.to_lowercase()
}

/// Calls [`String::from_utf16_lossy`], which decodes UTF-16 and puts U+FFFD in
/// the place of what is not valid.
#[verifier::external_body]
fn from_utf16_lossy(units: &[u16]) -> (s: String)
    ensures
        s@ == decode_utf16(units@),
{
    String::from_utf16_lossy(units)
}

/// A stem as it is compared: in lower case, where there is one.
pub fn lowered_stem(stem: Option<String>) -> (lowered: Option<String>)
    ensures
        lowered is Some <==> stem is Some,
        stem matches Some(s) ==> text(lowered) == Some(lowercase(s@)),
        stem matches Some(s) ==> ascii(s@) ==> text(lowered) == Some(ascii_lower(s@)),
        stem matches Some(s) ==> forall|other: Seq<char>| #[trigger]
            same_but_for_case(s@, other) ==> text(lowered) == Some(lowercase(other)),
{
    match stem {
        Some(stem) => Some(to_lowercase(stem.as_str())),
        None => None,
    }
}

/// The name of the executable that `program` runs, without directories or
/// extension, in lower case; `None` where the path has no file name.
pub fn exe_stem(program: &str) -> (stem: Option<String>)
    ensures
        text(stem) == stem_of(program@),
        bare_name(program@) ==> stem_of(program@) == Some(lowercase(bare_stem(program@))),
        bare_name(program@) && ascii(program@) ==> text(stem) == Some(
            ascii_lower(bare_stem(program@)),
        ),
        forall|name: Seq<char>| #[trigger]
            leads_to(program@, name) ==> {
                &&& text(stem) == stem_of(name)
                &&& text(stem) == Some(lowercase(bare_stem(name)))
                &&& ascii(name) ==> text(stem) == Some(ascii_lower(bare_stem(name)))
            },
        forall|name: Seq<char>, extension: Seq<char>|
            bare_name(name) && plain_extension(extension) && program@ == #[trigger] with_extension(
                name,
                extension,
            ) ==> text(stem) == Some(lowercase(name)),
        forall|other: Seq<char>| #[trigger]
            same_but_for_case(program@, other) && !begins_with_two_separators(program@)
                ==> text(stem) == stem_of(other),
        program@.len() == 0 || program@ == seq!['.', '.'] ==> stem is None,
{
    let stem = file_stem(program);
    proof {
        program@.index_of_last_ensures('.');
        assert forall|name: Seq<char>| #[trigger] leads_to(program@, name) implies text(stem)
            == Some(bare_stem(name)) && text(stem) == path_file_stem(name) && (ascii(name)
            ==> ascii(bare_stem(name))) by {
            name.index_of_last_ensures('.');
        }
        assert forall|name: Seq<char>, extension: Seq<char>|
            bare_name(name) && plain_extension(extension) && program@ == #[trigger] with_extension(
                name,
                extension,
            ) implies text(stem) == Some(name) by {
            law_last_extension_is_dropped(name, extension);
        }
    }
    lowered_stem(stem)
}

/// The name by which the windows of `program` are looked for when its process
/// shows none: its executable's, or the whole text where it names no file.
pub fn search_stem(program: &str) -> (stem: String)
    ensures
        stem@ == known_as(program@),
        bare_name(program@) ==> stem@ == lowercase(bare_stem(program@)),
        bare_name(program@) && ascii(program@) ==> stem@ == ascii_lower(bare_stem(program@)),
        forall|name: Seq<char>| #[trigger]
            leads_to(program@, name) ==> {
                &&& Some(stem@) == stem_of(name)
                &&& stem@ == lowercase(bare_stem(name))
                &&& ascii(name) ==> stem@ == ascii_lower(bare_stem(name))
            },
        stem_of(program@) is None && ascii(program@) ==> stem@ == ascii_lower(program@),
        forall|other: Seq<char>| #[trigger]
            same_but_for_case(program@, other) && !begins_with_two_separators(program@) ==> stem@
                == known_as(other),
{
    match exe_stem(program) {
        Some(stem) => stem,
        None => to_lowercase(program),
    }
}

/// The name of the executable behind a process. `query` is what the system
/// answered to the query for its image path: a buffer of UTF-16 code units of
/// which the first `length` hold the path, or nothing where the process could
/// not be opened or asked.
pub fn process_exe_stem(query: Option<(&[u16], u32)>) -> (stem: Option<String>)
    requires
        query matches Some((buffer, length)) ==> length <= buffer@.len(),
    ensures
        text(stem) == (match query {
            Some((buffer, length)) => stem_of(decode_utf16(buffer@.take(length as int))),
            None => None,
        }),
        query matches Some((buffer, length)) ==> forall|name: Seq<char>| #[trigger]
            leads_to(decode_utf16(buffer@.take(length as int)), name) ==> {
                &&& text(stem) == stem_of(name)
                &&& text(stem) == Some(lowercase(bare_stem(name)))
                &&& ascii(name) ==> text(stem) == Some(ascii_lower(bare_stem(name)))
            },
        query matches Some((buffer, length)) ==> forall|other: Seq<char>| #[trigger]
            same_but_for_case(decode_utf16(buffer@.take(length as int)), other)
                && !begins_with_two_separators(decode_utf16(buffer@.take(length as int)))
                ==> text(stem) == stem_of(other),
{
    match query {
        Some((buffer, length)) => {
            let path = from_utf16_lossy(slice_subrange(buffer, 0, length as usize));
            assert(buffer@.subrange(0, length as int) =~= buffer@.take(length as int));
            exe_stem(path.as_str())
        },
        None => None,
    }
}

/// The text of a string is all of it, and no string has no text.
pub proof fn law_text_is_the_whole_string(s: String)
    ensures
        text(Some(s)) == Some(s@),
        text(None) is None,
{
}

/// An executable is called by the stem of its path in lower case, has a name
/// exactly where its path has a stem, and a program without one is known by its
/// whole text in lower case.
pub proof fn law_name_is_the_stem_in_lower_case(path: Seq<char>, stem: Seq<char>)
    ensures
        path_file_stem(path) == Some(stem) ==> stem_of(path) == Some(lowercase(stem)) && known_as(
            path,
        ) == lowercase(stem),
        path_file_stem(path) is None ==> stem_of(path) is None && known_as(path) == lowercase(path),
{
}

/// In lower case the capital letters of ASCII move up by 32, everything else
/// stays, and nothing is added or lost.
pub proof fn law_lower_case_moves_capitals_only(s: Seq<char>, i: int)
    requires
        0 <= i < s.len(),
    ensures
        ascii_lower(s).len() == s.len(),
        65 <= s[i] as int <= 90 ==> ascii_lower(s)[i] as int == s[i] as int + 32,
        !(65 <= s[i] as int <= 90) ==> ascii_lower(s)[i] == s[i],
{
}

/// A file name without a dot, or with none but a leading one, is its own stem.
pub proof fn law_name_without_extension_is_its_stem(name: Seq<char>)
    requires
        forall|i: int| 0 < i < name.len() ==> #[trigger] name[i] != '.',
    ensures
        bare_stem(name) == name,
{
    name.index_of_last_ensures('.');
}

/// Exactly one extension is dropped from a file name: the last.
pub proof fn law_last_extension_is_dropped(name: Seq<char>, extension: Seq<char>)
    requires
        bare_name(name),
        plain_extension(extension),
    ensures
        bare_name(with_extension(name, extension)),
        bare_stem(with_extension(name, extension)) == name,
{
    let whole = with_extension(name, extension);
    let dot = name.len() as int;
    assert(whole[dot] == '.');
    assert(forall|i: int| 0 <= i < dot ==> #[trigger] whole[i] == name[i]);
    assert(forall|i: int| dot < i < whole.len() ==> #[trigger] whole[i] == extension[i - dot - 1]);
    whole.index_of_last_ensures('.');
    assert(whole.index_of_last('.') == Some(dot));
    assert(whole.take(dot) =~= name);
    if whole == seq!['.', '.'] {
        assert(name =~= seq!['.']);
    }
}

/// A path leads to the file that it was made for, be it in a directory or not.
pub proof fn law_path_leads_to_its_file(dir: Seq<char>, name: Seq<char>)
    requires
        directory(dir),
        bare_name(name),
    ensures
        leads_to(in_directory(dir, name), name),
        leads_to(name, name),
{
}

/// The case of letters makes no difference to what a file is called: two ASCII
/// paths that differ in case alone lead to files whose stems are one in lower
/// case.
pub proof fn law_case_makes_no_difference(path: Seq<char>, other: Seq<char>, name: Seq<char>)
    requires
        same_but_for_case(path, other),
        leads_to(path, name),
    ensures
        exists|twin: Seq<char>| #[trigger]
            leads_to(other, twin) && same_but_for_case(name, twin) && ascii_lower(bare_stem(twin))
                == ascii_lower(bare_stem(name)),
{
    let start = path.len() - name.len();
    let twin = other.skip(start);
    assert(ascii_lower(path).len() == ascii_lower(other).len());
    assert forall|i: int| 0 <= i < path.len() implies ascii_lower_char(#[trigger] path[i])
        == ascii_lower_char(other[i]) by {
        assert(ascii_lower(path)[i] == ascii_lower(other)[i]);
    }
    assert(forall|i: int| 0 <= i < name.len() ==> #[trigger] name[i] == path[i + start]);
    assert(ascii_lower(name) =~= ascii_lower(twin));
    lemma_twin_is_bare(name, twin);
    if path != name {
        let dir = choose|dir: Seq<char>|
            directory(dir) && path == #[trigger] in_directory(dir, name);
        let twin_dir = other.take(start - 1);
        assert(path[start - 1] == '/');
        assert(other =~= in_directory(twin_dir, twin));
        let (slashed, twin_slashed) = (dir + seq!['/'], twin_dir + seq!['/']);
        assert(forall|i: int| 0 <= i < start ==> #[trigger] slashed[i] == path[i]);
        assert(forall|i: int| 0 <= i < start ==> #[trigger] twin_slashed[i] == other[i]);
        assert(directory(twin_dir));
    } else {
        assert(other =~= twin);
    }
    assert(leads_to(other, twin));
}

proof fn lemma_twin_is_bare(name: Seq<char>, twin: Seq<char>)
    requires
        bare_name(name),
        same_but_for_case(name, twin),
    ensures
        bare_name(twin),
        ascii_lower(bare_stem(twin)) == ascii_lower(bare_stem(name)),
{
    assert(ascii_lower(name).len() == ascii_lower(twin).len());
    assert forall|i: int| 0 <= i < name.len() implies ascii_lower_char(#[trigger] name[i])
        == ascii_lower_char(twin[i]) by {
        assert(ascii_lower(name)[i] == ascii_lower(twin)[i]);
    }
    assert forall|i: int|
        #![trigger name[i]]
        #![trigger twin[i]]
        0 <= i < name.len() implies (name[i] == '.') == (twin[i] == '.') && twin[i] != '/'
        && twin[i] != '\\' && twin[i] != ':' by {
        assert(name.contains(name[i]));
    }
    if twin == seq!['.'] {
        assert(name =~= seq!['.']);
    }
    if twin == seq!['.', '.'] {
        assert(name =~= seq!['.', '.']);
    }
    name.index_of_last_ensures('.');
    twin.index_of_last_ensures('.');
    assert(name.contains('.') == twin.contains('.')) by {
        if name.contains('.') {
            let i = choose|i: int| 0 <= i < name.len() && name[i] == '.';
            assert(twin[i] == '.');
        }
        if twin.contains('.') {
            let i = choose|i: int| 0 <= i < twin.len() && twin[i] == '.';
            assert(name[i] == '.');
        }
    }
    assert(name.index_of_last('.') == twin.index_of_last('.'));
    assert(ascii_lower(bare_stem(twin)) =~= ascii_lower(bare_stem(name)));
}

/// A path leads to one file at most.
pub proof fn law_path_leads_to_one_file(path: Seq<char>, one: Seq<char>, other: Seq<char>)
    requires
        leads_to(path, one),
        leads_to(path, other),
    ensures
        one == other,
{
    lemma_name_is_no_shorter(path, one, other);
    lemma_name_is_no_shorter(path, other, one);
    assert(one =~= path.skip(path.len() - one.len()));
    assert(other =~= path.skip(path.len() - one.len()));
}

proof fn lemma_name_is_no_shorter(path: Seq<char>, one: Seq<char>, other: Seq<char>)
    requires
        leads_to(path, one),
        leads_to(path, other),
    ensures
        one.len() >= other.len(),
{
    if one.len() < other.len() {
        let slash = path.len() - one.len() - 1;
        assert(path[slash] == '/');
        assert(other[slash - (path.len() - other.len())] == path[slash]);
    }
}

} // verus!
