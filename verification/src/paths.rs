//! Path resolution: deriving the final output path and the hidden temporary
//! path from a profile and an input path, and reading a path apart into
//! directory, filename, stem and extension.
//!
//! Paths are treated as plain character strings. The filename is everything
//! after the last `/` (the whole string when there is none); the extension is
//! everything after the last `.` of the filename, provided that dot is not its
//! first character (so a leading-dot name such as `.hidden` has no extension).

use vstd::prelude::*;
use vstd::string::StrSliceExecFns;
use vstd::string::StringExecFns;

use crate::settings::ProfileData;
use crate::types::FileInfoResult;
use crate::types::ImageType;

verus! {

/// The largest index at which `c` occurs in `s`, or -1 when it does not occur.
pub open spec fn last_index_of(s: Seq<char>, c: char) -> int
    decreases s.len(),
{
    if s.len() == 0 {
        -1
    } else if s[s.len() - 1] == c {
        s.len() - 1
    } else {
        last_index_of(s.drop_last(), c)
    }
}

pub proof fn lemma_last_index_of_props(s: Seq<char>, c: char)
    ensures
        -1 <= last_index_of(s, c) < s.len(),
        last_index_of(s, c) >= 0 ==> s[last_index_of(s, c)] == c,
        forall|j: int| last_index_of(s, c) < j < s.len() ==> s[j] != c,
    decreases s.len(),
{
    if s.len() == 0 {
    } else if s[s.len() - 1] == c {
    } else {
        lemma_last_index_of_props(s.drop_last(), c);
        assert forall|j: int| last_index_of(s, c) < j < s.len() implies s[j] != c by {
            if j < s.len() - 1 {
                assert(s.drop_last()[j] == s[j]);
            }
        }
    }
}

pub proof fn lemma_last_index_of_unique(s: Seq<char>, c: char, k: int)
    requires
        0 <= k < s.len(),
        s[k] == c,
        forall|j: int| k < j < s.len() ==> s[j] != c,
    ensures
        last_index_of(s, c) == k,
    decreases s.len(),
{
    if k < s.len() - 1 {
        assert(s[s.len() - 1] != c);
        assert(s.drop_last()[k] == s[k]);
        assert forall|j: int| k < j < s.drop_last().len() implies s.drop_last()[j] != c by {
            assert(s.drop_last()[j] == s[j]);
        }
        lemma_last_index_of_unique(s.drop_last(), c, k);
    }
}

/// A path this module works on: non-empty, and not ending in a separator, so
/// that it names a file rather than a directory.
pub open spec fn valid_path(s: Seq<char>) -> bool {
    s.len() > 0 && s[s.len() - 1] != '/'
}

/// The index at which the filename begins: one past the last `/`.
pub open spec fn file_name_start(s: Seq<char>) -> int {
    last_index_of(s, '/') + 1
}

/// The filename: everything after the last `/`.
pub open spec fn spec_file_name(s: Seq<char>) -> Seq<char> {
    s.subrange(file_name_start(s), s.len() as int)
}

/// The directory prefix: everything up to and including the last `/`.
pub open spec fn spec_dir_prefix(s: Seq<char>) -> Seq<char> {
    s.subrange(0, file_name_start(s))
}

/// Whether the filename `f` carries an extension: a `.` that is not its first
/// character.
pub open spec fn has_extension(f: Seq<char>) -> bool {
    last_index_of(f, '.') > 0
}

/// The filename `f` without its extension (and without the separating dot);
/// all of `f` when it has no extension.
pub open spec fn spec_stem(f: Seq<char>) -> Seq<char> {
    if has_extension(f) {
        f.subrange(0, last_index_of(f, '.'))
    } else {
        f
    }
}

/// The extension of the filename `f`, empty when it has none.
pub open spec fn spec_ext(f: Seq<char>) -> Seq<char> {
    if has_extension(f) {
        f.subrange(last_index_of(f, '.') + 1, f.len() as int)
    } else {
        Seq::<char>::empty()
    }
}

pub proof fn lemma_valid_path_parts(s: Seq<char>)
    requires
        valid_path(s),
    ensures
        0 <= file_name_start(s) < s.len(),
        spec_file_name(s).len() > 0,
        forall|j: int| 0 <= j < spec_file_name(s).len() ==> spec_file_name(s)[j] != '/',
{
    lemma_last_index_of_props(s, '/');
}

/// The path with the filename prefixed by a single dot: the hidden temporary
/// file beside the final output.
pub open spec fn spec_temp_path(s: Seq<char>) -> Seq<char> {
    spec_dir_prefix(s) + seq!['.'] + spec_file_name(s)
}

/// The path with the filename's extension (and its separating dot) removed.
pub open spec fn spec_remove_extension(s: Seq<char>) -> Seq<char> {
    spec_dir_prefix(s) + spec_stem(spec_file_name(s))
}

/// The on-disk extension written for each image format.
pub open spec fn spec_image_ext(t: ImageType) -> Seq<char> {
    match t {
        ImageType::JPEG => "jpg"@,
        ImageType::PNG => "png"@,
        ImageType::WEBP => "webp"@,
        ImageType::GIF => "gif"@,
        ImageType::TIFF => "tiff"@,
    }
}

/// The resolved output path: directory and stem kept, the profile's postfix
/// appended when `add_posfix` is set, and the extension replaced by the
/// conversion target's when `should_convert` is set.
pub open spec fn spec_out_path(p: ProfileData, s: Seq<char>) -> Seq<char> {
    spec_remove_extension(s) + (if p.add_posfix {
        p.postfix@
    } else {
        Seq::<char>::empty()
    }) + seq!['.'] + (if p.should_convert {
        spec_image_ext(p.convert_extension)
    } else {
        spec_ext(spec_file_name(s))
    })
}

/// The index of the last occurrence of `c` in `s`, scanning from the end.
pub fn find_last(s: &str, c: char) -> (r: Option<usize>)
    ensures
        match r {
            Some(i) => last_index_of(s@, c) == i as int && i < s@.len(),
            None => last_index_of(s@, c) == -1,
        },
{
    proof {
        lemma_last_index_of_props(s@, c);
    }
    let mut i: usize = s.unicode_len();
    proof {
        assert(s@.subrange(0, s@.len() as int) =~= s@);
    }
    while i > 0
        invariant
            i <= s@.len(),
            last_index_of(s@, c) == last_index_of(s@.subrange(0, i as int), c),
        decreases i,
    {
        let ch = s.get_char(i - 1);
        if ch == c {
            return Some(i - 1);
        }
        proof {
            assert(s@.subrange(0, i as int).drop_last() =~= s@.subrange(0, i as int - 1));
        }
        i = i - 1;
    }
    None
}

/// The filename slice of `path`: everything after the last `/`.
fn file_name_str<'a>(path: &'a str) -> (r: &'a str)
    requires
        valid_path(path@),
    ensures
        r@ == spec_file_name(path@),
{
    proof {
        lemma_valid_path_parts(path@);
    }
    let len = path.unicode_len();
    let start: usize = match find_last(path, '/') {
        Some(i) => i + 1,
        None => 0,
    };
    path.substring_char(start, len)
}

/// The extension slice of `path`'s filename, empty when it has none.
fn extension_str<'a>(path: &'a str) -> (r: &'a str)
    requires
        valid_path(path@),
    ensures
        r@ == spec_ext(spec_file_name(path@)),
{
    let name = file_name_str(path);
    let name_len = name.unicode_len();
    match find_last(name, '.') {
        Some(d) => {
            if d > 0 {
                name.substring_char(d + 1, name_len)
            } else {
                proof {
                    reveal_strlit("");
                    assert(""@ =~= spec_ext(spec_file_name(path@)));
                }
                ""
            }
        },
        None => {
            proof {
                reveal_strlit("");
                assert(""@ =~= spec_ext(spec_file_name(path@)));
            }
            ""
        },
    }
}

/// Derives the hidden temporary path: the same directory, with the filename
/// prefixed by a single leading dot.
pub fn get_temp_path(path: &str) -> (r: String)
    requires
        valid_path(path@),
    ensures
        r@ == spec_temp_path(path@),
{
    proof {
        lemma_valid_path_parts(path@);
    }
    let len = path.unicode_len();
    let start: usize = match find_last(path, '/') {
        Some(i) => i + 1,
        None => 0,
    };
    let dir = path.substring_char(0, start);
    let name = path.substring_char(start, len);
    let mut r = String::from_str(dir);
    r.append(".");
    r.append(name);
    proof {
        reveal_strlit(".");
        assert("."@ =~= seq!['.']);
        assert(r@ =~= spec_temp_path(path@));
    }
    r
}

/// The path without the filename's extension, directory preserved.
pub fn remove_extension(path: &str) -> (r: String)
    requires
        valid_path(path@),
    ensures
        r@ == spec_remove_extension(path@),
{
    proof {
        lemma_valid_path_parts(path@);
    }
    let len = path.unicode_len();
    let start: usize = match find_last(path, '/') {
        Some(i) => i + 1,
        None => 0,
    };
    let ghost f = spec_file_name(path@);
    let name = path.substring_char(start, len);
    let cut: usize = match find_last(name, '.') {
        Some(d) => {
            if d > 0 {
                start + d
            } else {
                len
            }
        },
        None => len,
    };
    proof {
        assert(path@.subrange(0, cut as int) =~= spec_dir_prefix(path@) + spec_stem(f));
    }
    String::from_str(path.substring_char(0, cut))
}

/// The extension written for each image format when it is a conversion target.
pub fn image_type_to_extension(image_type: ImageType) -> (r: String)
    ensures
        r@ == spec_image_ext(image_type),
{
    match image_type {
        ImageType::JPEG => "jpg".to_owned(),
        ImageType::PNG => "png".to_owned(),
        ImageType::WEBP => "webp".to_owned(),
        ImageType::GIF => "gif".to_owned(),
        ImageType::TIFF => "tiff".to_owned(),
    }
}

/// Resolves the final output path for `path` under the profile: stem plus
/// optional postfix, then a dot and the output extension.
pub fn get_out_path(parameters: &ProfileData, path: &str) -> (r: String)
    requires
        valid_path(path@),
    ensures
        r@ == spec_out_path(*parameters, path@),
{
    let mut r = remove_extension(path);
    if parameters.add_posfix {
        r.append(parameters.postfix.as_str());
    }
    r.append(".");
    if parameters.should_convert {
        let e = image_type_to_extension(parameters.convert_extension);
        r.append(e.as_str());
    } else {
        let e = extension_str(path);
        r.append(e);
    }
    proof {
        reveal_strlit(".");
        assert("."@ =~= seq!['.']);
        assert(r@ =~= spec_out_path(*parameters, path@));
    }
    r
}

/// String equality by contents.
pub(crate) fn str_eq(a: &str, b: &str) -> (r: bool)
    ensures
        r == (a@ == b@),
{
    let sa = String::from_str(a);
    let sb = String::from_str(b);
    sa == sb
}

/// Whether the path's extension is one the pipeline accepts for discovery.
pub open spec fn spec_is_image(s: Seq<char>) -> bool {
    let e = spec_ext(spec_file_name(s));
    ||| e == "png"@
    ||| e == "jpeg"@
    ||| e == "jpg"@
    ||| e == "gif"@
    ||| e == "webp"@
    ||| e == "tiff"@
}

/// Whether the file's extension marks it as a supported image. Discovery
/// trusts the extension; the pipeline itself sniffs the content later.
pub fn is_image(path: &str) -> (r: bool)
    requires
        valid_path(path@),
    ensures
        r == spec_is_image(path@),
{
    let e = extension_str(path);
    str_eq(e, "png") || str_eq(e, "jpeg") || str_eq(e, "jpg") || str_eq(e, "gif") || str_eq(
        e,
        "webp",
    ) || str_eq(e, "tiff")
}

/// Law: path resolution is deterministic. The output path is a function of
/// the profile and the input path alone, and the temporary path a function
/// of the input path alone — no randomness, no timestamp — so any two
/// resolutions of the same pair agree on both.
pub proof fn lemma_resolution_deterministic(
    p: ProfileData,
    s: Seq<char>,
    out1: Seq<char>,
    t1: Seq<char>,
    out2: Seq<char>,
    t2: Seq<char>,
)
    requires
        out1 == spec_out_path(p, s),
        t1 == spec_temp_path(s),
        out2 == spec_out_path(p, s),
        t2 == spec_temp_path(s),
    ensures
        out1 == out2,
        t1 == t2,
{
}

pub proof fn lemma_image_ext_chars(t: ImageType)
    ensures
        1 <= spec_image_ext(t).len() <= 4,
        forall|j: int|
            0 <= j < spec_image_ext(t).len() ==> spec_image_ext(t)[j] != '.' && spec_image_ext(
                t,
            )[j] != '/',
{
    match t {
        ImageType::JPEG => {
            reveal_strlit("jpg");
            assert("jpg"@ =~= seq!['j', 'p', 'g']);
        },
        ImageType::PNG => {
            reveal_strlit("png");
            assert("png"@ =~= seq!['p', 'n', 'g']);
        },
        ImageType::WEBP => {
            reveal_strlit("webp");
            assert("webp"@ =~= seq!['w', 'e', 'b', 'p']);
        },
        ImageType::GIF => {
            reveal_strlit("gif");
            assert("gif"@ =~= seq!['g', 'i', 'f']);
        },
        ImageType::TIFF => {
            reveal_strlit("tiff");
            assert("tiff"@ =~= seq!['t', 'i', 'f', 'f']);
        },
    }
}

/// Law: a resolved output path is itself a valid path — non-empty and not
/// ending in a separator — so a committed output can be handed back to the
/// pipeline as a later run's input.
pub proof fn lemma_out_path_valid(p: ProfileData, s: Seq<char>)
    requires
        valid_path(s),
    ensures
        valid_path(spec_out_path(p, s)),
{
    lemma_valid_path_parts(s);
    let out = spec_out_path(p, s);
    let f = spec_file_name(s);
    if p.should_convert {
        lemma_image_ext_chars(p.convert_extension);
        let e = spec_image_ext(p.convert_extension);
        assert(out[out.len() - 1] == e[e.len() - 1]);
    } else {
        let e = spec_ext(f);
        if e.len() == 0 {
            assert(out[out.len() - 1] == '.');
        } else {
            lemma_last_index_of_props(f, '.');
            assert(out[out.len() - 1] == e[e.len() - 1]);
            assert(e[e.len() - 1] == f[f.len() - 1]);
        }
    }
}

/// Law: the temporary path keeps the directory, hides the filename behind a
/// single leading dot, and never collides with the path it was derived from.
pub proof fn lemma_temp_path_hidden(s: Seq<char>)
    requires
        valid_path(s),
    ensures
        spec_dir_prefix(spec_temp_path(s)) == spec_dir_prefix(s),
        spec_file_name(spec_temp_path(s)) == seq!['.'] + spec_file_name(s),
        spec_temp_path(s) != s,
{
    lemma_valid_path_parts(s);
    lemma_last_index_of_props(s, '/');
    let t = spec_temp_path(s);
    let ls = last_index_of(s, '/');
    assert forall|j: int| ls < j < t.len() implies t[j] != '/' by {
        if j > ls + 1 {
            assert(t[j] == spec_file_name(s)[j - ls - 2]);
        }
    }
    if ls >= 0 {
        assert(t[ls] == s[ls]);
        lemma_last_index_of_unique(t, '/', ls);
    } else {
        lemma_last_index_of_props(t, '/');
        assert(last_index_of(t, '/') == -1) by {
            if last_index_of(t, '/') >= 0 {
                assert(t[last_index_of(t, '/')] == '/');
            }
        }
    }
    assert(spec_dir_prefix(t) =~= spec_dir_prefix(s));
    assert(spec_file_name(t) =~= seq!['.'] + spec_file_name(s));
    assert(t.len() == s.len() + 1);
}

/// Law: resolution preserves the original directory. The output path begins
/// with the same directory prefix as the input, and its filename starts where
/// the input's does (provided the postfix holds no separator).
pub proof fn lemma_resolution_preserves_directory(p: ProfileData, s: Seq<char>)
    requires
        valid_path(s),
        p.add_posfix ==> !p.postfix@.contains('/'),
    ensures
        file_name_start(spec_out_path(p, s)) == file_name_start(s),
        spec_dir_prefix(spec_out_path(p, s)) == spec_dir_prefix(s),
{
    lemma_valid_path_parts(s);
    lemma_last_index_of_props(s, '/');
    let out = spec_out_path(p, s);
    let f = spec_file_name(s);
    let e = if p.should_convert {
        spec_image_ext(p.convert_extension)
    } else {
        spec_ext(f)
    };
    let pf = if p.add_posfix {
        p.postfix@
    } else {
        Seq::<char>::empty()
    };
    let ls = last_index_of(s, '/');
    let stem = spec_stem(f);
    let dotpos = file_name_start(s) + stem.len() + pf.len();
    lemma_last_index_of_props(f, '.');
    if p.should_convert {
        lemma_image_ext_chars(p.convert_extension);
    } else if has_extension(f) {
        assert forall|j: int| 0 <= j < e.len() implies e[j] != '/' by {
            assert(e[j] == f[last_index_of(f, '.') + 1 + j]);
        }
    }
    assert forall|j: int| 0 <= j < pf.len() implies pf[j] != '/' by {
        if p.add_posfix && pf[j] == '/' {
            assert(p.postfix@[j] == '/');
            assert(p.postfix@.contains('/'));
        }
    }
    assert forall|j: int| ls < j < out.len() implies out[j] != '/' by {
        if j < file_name_start(s) {
        } else if j < file_name_start(s) + stem.len() {
            assert(out[j] == stem[j - file_name_start(s)]);
            assert(stem[j - file_name_start(s)] == f[j - file_name_start(s)]);
        } else if j < dotpos {
            assert(out[j] == pf[j - file_name_start(s) - stem.len()]);
        } else if j == dotpos {
        } else {
            assert(out[j] == e[j - dotpos - 1]);
        }
    }
    if ls >= 0 {
        assert(out[ls] == s[ls]);
        lemma_last_index_of_unique(out, '/', ls);
    } else {
        lemma_last_index_of_props(out, '/');
        assert(last_index_of(out, '/') == -1) by {
            if last_index_of(out, '/') >= 0 {
                assert(out[last_index_of(out, '/')] == '/');
            }
        }
    }
    assert(spec_dir_prefix(out) =~= spec_dir_prefix(s));
}

/// Law: with the postfix disabled and no conversion requested, resolving an
/// input path that has an extension returns the input path unchanged.
pub proof fn lemma_no_postfix_no_convert_is_identity(p: ProfileData, s: Seq<char>)
    requires
        valid_path(s),
        !p.add_posfix,
        !p.should_convert,
        has_extension(spec_file_name(s)),
    ensures
        spec_out_path(p, s) == s,
{
    lemma_valid_path_parts(s);
    let f = spec_file_name(s);
    lemma_last_index_of_props(f, '.');
    assert(f[last_index_of(f, '.')] == '.');
    assert(spec_out_path(p, s) =~= s);
}

/// Law: when conversion is requested, the resolved output path's extension is
/// the conversion target's, whatever the postfix settings (provided the
/// postfix holds no separator).
pub proof fn lemma_convert_sets_extension(p: ProfileData, s: Seq<char>)
    requires
        valid_path(s),
        p.should_convert,
        p.add_posfix ==> !p.postfix@.contains('/'),
    ensures
        spec_ext(spec_file_name(spec_out_path(p, s))) == spec_image_ext(p.convert_extension),
{
    lemma_valid_path_parts(s);
    lemma_image_ext_chars(p.convert_extension);
    lemma_resolution_preserves_directory(p, s);
    let out = spec_out_path(p, s);
    let f = spec_file_name(s);
    let e = spec_image_ext(p.convert_extension);
    let pf = if p.add_posfix {
        p.postfix@
    } else {
        Seq::<char>::empty()
    };
    let stem = spec_stem(f);
    let dotpos = file_name_start(s) + stem.len() + pf.len();
    lemma_last_index_of_props(f, '.');
    assert(out[dotpos] == '.');
    let fo = spec_file_name(out);
    let reldot = dotpos - file_name_start(s);
    assert(fo[reldot] == out[dotpos]);
    assert(stem.len() > 0);
    assert forall|j: int| reldot < j < fo.len() implies fo[j] != '.' by {
        assert(fo[j] == out[j + file_name_start(s)]);
        assert(out[j + file_name_start(s)] == e[j + file_name_start(s) - dotpos - 1]);
    }
    lemma_last_index_of_unique(fo, '.', reldot);
    assert(spec_ext(fo) =~= e);
}

/// Size, extension and filename for a file whose byte length is `size`, or an
/// error when the length does not fit the declared numeric range.
pub fn make_file_info(path: &str, size: u64) -> (r: Result<FileInfoResult, String>)
    requires
        valid_path(path@),
    ensures
        match r {
            Ok(info) => size <= u32::MAX && info.size as u64 == size && info.extension@
                == spec_ext(spec_file_name(path@)) && info.filename@ == spec_file_name(path@),
            Err(e) => size > u32::MAX && e@ == "File too large"@,
        },
{
    if size > u32::MAX as u64 {
        return Err("File too large".to_owned());
    }
    let extension = String::from_str(extension_str(path));
    let filename = String::from_str(file_name_str(path));
    Ok(FileInfoResult { size: size as u32, extension, filename })
}

} // verus!
