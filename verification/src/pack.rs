//! Packing helpers: where a plugin's distributable archive goes, what a
//! valid build tree must contain, and the operating-system suffix read
//! from an os-release file for default archive names.
//!
//! Reading the filesystem and writing the archive are I/O and live outside
//! the library; these functions work on path strings and handed-in facts.
use vstd::prelude::*;

use crate::text::{
    ends_with, file_name_of, find_char, is_suffix, lines_spec, lower_seq, path_join,
    path_join_spec, push_char, replace_char, replace_spec, rfind_char, split_lines,
    split_once_char, str_eq, to_lower_string, trailing_matches, trim_ascii, trim_matches_char,
    trim_matches_spec, trim_spec,
};
use crate::PikeError;

verus! {

/// The shared-library file extension of plugin builds on this platform.
pub const LIB_EXT: &'static str = "so";

/// Checks that a pre-built plugin shipping directory holds the required
/// files: the plugin library `lib<name>.<LIB_EXT>` and `manifest.yaml`.
///
/// The three flags carry what the filesystem shows for the directory, the
/// library file and the manifest file.
pub fn validate_plugin_build_tree(
    plugin_build_dir: &str,
    normalized_package_name: &str,
    dir_exists: bool,
    lib_exists: bool,
    manifest_exists: bool,
) -> (r: Result<(), PikeError>)
    ensures
        r is Ok <==> (dir_exists && lib_exists && manifest_exists),
        !dir_exists ==> (r matches Err(e) && e.msg@ == "Build output directory not found: "@
            + plugin_build_dir@ + ". Build the plugin first or remove --no-build."@),
        dir_exists && !lib_exists ==> (r matches Err(e) && e.msg@ == "Missing plugin library '"@
            + "lib"@ + normalized_package_name@ + ".so' in "@ + plugin_build_dir@
            + ". Build the plugin first or remove --no-build."@),
        dir_exists && lib_exists && !manifest_exists ==> (r matches Err(e) && e.msg@
            == "Missing manifest.yaml in "@ + plugin_build_dir@
            + ". Build the plugin first or remove --no-build."@),
{
    if !dir_exists {
        let mut msg: String = "Build output directory not found: ".to_owned();
        msg.append(plugin_build_dir);
        msg.append(". Build the plugin first or remove --no-build.");
        return Err(PikeError { msg });
    }
    if !lib_exists {
        let mut msg: String = "Missing plugin library '".to_owned();
        msg.append("lib");
        msg.append(normalized_package_name);
        msg.append(".so' in ");
        msg.append(plugin_build_dir);
        msg.append(". Build the plugin first or remove --no-build.");
        return Err(PikeError { msg });
    }
    if !manifest_exists {
        let mut msg: String = "Missing manifest.yaml in ".to_owned();
        msg.append(plugin_build_dir);
        msg.append(". Build the plugin first or remove --no-build.");
        return Err(PikeError { msg });
    }
    Ok(())
}

/// The name of a plugin's shared-library file, `lib<name>.<LIB_EXT>`.
pub fn plugin_lib_name(normalized_package_name: &str) -> (r: String)
    ensures
        r@ == "lib"@ + normalized_package_name@ + ".so"@,
{
    let mut s: String = "lib".to_owned();
    s.append(normalized_package_name);
    s.append(".so");
    s
}

/// A path with its trailing slashes removed.
pub open spec fn strip_trailing_slashes(s: Seq<char>) -> Seq<char> {
    s.take(s.len() - trailing_matches(s, '/'))
}

/// Where a user-named archive goes: an absolute name is kept, a relative
/// one goes into the build directory, and the name gets a `.tar.gz`
/// ending if it lacks one.
pub open spec fn create_archive_path_spec(build_dir: Seq<char>, archive_name: Seq<char>) -> Option<
    Seq<char>,
> {
    let dest = strip_trailing_slashes(path_join_spec(build_dir, archive_name));
    let tail = dest.skip(rfind_char(dest, '/') + 1);
    if tail.len() == 0 || tail == seq!['.', '.'] {
        None
    } else if is_suffix(".tar.gz"@, tail) {
        Some(dest)
    } else {
        Some(dest + ".tar.gz"@)
    }
}

/// Resolves a user-given archive name against the build directory,
/// appending `.tar.gz` when the name lacks it; a name without a filename
/// component is rejected.
pub fn create_archive_path(build_dir: &str, archive_name: &str) -> (r: Result<String, PikeError>)
    ensures
        r is Ok <==> create_archive_path_spec(build_dir@, archive_name@) is Some,
        r is Ok ==> r.unwrap()@ == create_archive_path_spec(build_dir@, archive_name@).unwrap(),
        r is Err ==> r->Err_0.msg@ == "invalid archive name (no filename component): "@
            + strip_trailing_slashes(path_join_spec(build_dir@, archive_name@)),
{
    let joined = path_join(build_dir, archive_name);
    let dest = crate::text::trim_trailing_char(joined.as_str(), '/');
    match file_name_of(dest) {
        None => {
            let mut msg: String = "invalid archive name (no filename component): ".to_owned();
            msg.append(dest);
            Err(PikeError { msg })
        },
        Some(tail) => {
            if ends_with(tail, ".tar.gz") {
                Ok(dest.to_owned())
            } else {
                let mut out = dest.to_owned();
                out.append(".tar.gz");
                Ok(out)
            }
        },
    }
}

/// The default archive path: the build directory joined with
/// `<package>_<version>-<os suffix>.tar.gz`.
pub fn generate_archive_path(
    build_dir: &str,
    package_name: &str,
    package_version: &str,
    os_suffix: &str,
) -> (r: String)
    ensures
        r@ == path_join_spec(
            build_dir@,
            package_name@ + "_"@ + package_version@ + "-"@ + os_suffix@ + ".tar.gz"@,
        ),
{
    let mut name: String = package_name.to_owned();
    name.append("_");
    name.append(package_version);
    name.append("-");
    name.append(os_suffix);
    name.append(".tar.gz");
    path_join(build_dir, name.as_str())
}

/// Where the archive of a packed plugin goes: at the user-given name when
/// one was passed, otherwise at the default OS-suffixed name.
pub fn resolve_archive_path(
    build_dir: &str,
    archive_name: Option<&String>,
    package_name: &str,
    package_version: &str,
    os_suffix: &str,
) -> (r: Result<String, PikeError>)
    ensures
        archive_name matches Some(n) ==> {
            &&& r is Ok <==> create_archive_path_spec(build_dir@, n@) is Some
            &&& r is Ok ==> r.unwrap()@ == create_archive_path_spec(build_dir@, n@).unwrap()
        },
        archive_name is None ==> r is Ok && r.unwrap()@ == path_join_spec(
            build_dir@,
            package_name@ + "_"@ + package_version@ + "-"@ + os_suffix@ + ".tar.gz"@,
        ),
{
    match archive_name {
        Some(name) => create_archive_path(build_dir, name.as_str()),
        None => Ok(generate_archive_path(build_dir, package_name, package_version, os_suffix)),
    }
}

// ---------------------------------------------------------------------------
// Operating-system suffix from an os-release file
// ---------------------------------------------------------------------------

/// The key and raw value of one os-release line: comments and lines
/// without `=` carry none; keys and values are trimmed and values lose
/// surrounding double then single quotes.
pub open spec fn parsed_kv(line: Seq<char>) -> Option<(Seq<char>, Seq<char>)> {
    let t = trim_spec(line);
    if t.len() == 0 || t[0] == '#' {
        None
    } else {
        let i = find_char(t, '=');
        if i < t.len() {
            Some(
                (
                    trim_spec(t.take(i)),
                    trim_matches_spec(trim_matches_spec(trim_spec(t.skip(i + 1)), '"'), '\''),
                ),
            )
        } else {
            None
        }
    }
}

/// The value of the last line that assigns `key` (ASCII-case-insensitive),
/// or `None` when no line does: a later assignment wins.
pub open spec fn last_os_release_value(lines: Seq<Seq<char>>, key: Seq<char>) -> Option<Seq<char>>
    decreases lines.len(),
{
    if lines.len() == 0 {
        None
    } else {
        match parsed_kv(lines.last()) {
            Some(kv) => {
                if lower_seq(kv.0) == lower_seq(key) {
                    Some(kv.1)
                } else {
                    last_os_release_value(lines.drop_last(), key)
                }
            },
            None => last_os_release_value(lines.drop_last(), key),
        }
    }
}

/// The variant of a distribution without a version: rolling distributions
/// roll, everything else is unknown.
pub open spec fn linux_variant_spec(id: Seq<char>, rolling: Seq<Seq<char>>) -> Seq<char> {
    if rolling.contains(id) {
        "rolling"@
    } else {
        "unknown"@
    }
}

/// The OS suffix derived from an os-release file: the lower-cased `ID`,
/// `_`, and the version variant — `VERSION_ID` (spaces replaced, lowered)
/// when set and non-empty, else `VERSION_CODENAME` (lowered) when set and
/// non-empty, else the rolling/unknown fallback. `None` without an `ID`.
pub open spec fn os_suffix_spec(content: Seq<char>, rolling: Seq<Seq<char>>) -> Option<Seq<char>> {
    let lines = lines_spec(content);
    match last_os_release_value(lines, "ID"@) {
        None => None,
        Some(raw_id) => {
            let id = lower_seq(raw_id);
            let variant = match last_os_release_value(lines, "VERSION_ID"@) {
                Some(vid) => {
                    let v = lower_seq(replace_spec(vid, ' ', '_'));
                    if v.len() == 0 {
                        linux_variant_spec(id, rolling)
                    } else {
                        v
                    }
                },
                None => match last_os_release_value(lines, "VERSION_CODENAME"@) {
                    Some(code) => {
                        let c = lower_seq(code);
                        if c.len() == 0 {
                            linux_variant_spec(id, rolling)
                        } else {
                            c
                        }
                    },
                    None => linux_variant_spec(id, rolling),
                },
            };
            Some(id + seq!['_'] + variant)
        },
    }
}

/// The distributions that release in a rolling fashion, without versions.
pub fn rolling_distros() -> (r: Vec<String>)
    ensures
        r.deep_view() =~= seq![
            "arch"@,
            "cachyos"@,
            "gentoo"@,
            "void"@,
            "opensuse-tumbleweed"@,
            "artix"@,
            "manjaro"@,
            "endeavouros"@,
            "garuda"@,
            "kaos"@,
        ],
{
    let mut v: Vec<String> = Vec::new();
    v.push("arch".to_owned());
    v.push("cachyos".to_owned());
    v.push("gentoo".to_owned());
    v.push("void".to_owned());
    v.push("opensuse-tumbleweed".to_owned());
    v.push("artix".to_owned());
    v.push("manjaro".to_owned());
    v.push("endeavouros".to_owned());
    v.push("garuda".to_owned());
    v.push("kaos".to_owned());
    v
}

/// Picks `rolling` for a rolling distribution and `unknown` otherwise.
pub fn resolve_linux_variant(id: &str, rolling: &Vec<String>) -> (r: String)
    ensures
        r@ == linux_variant_spec(id@, rolling.deep_view()),
{
    let n = rolling.len();
    let mut i: usize = 0;
    while i < n
        invariant
            n == rolling@.len(),
            0 <= i <= n,
            forall|k: int| 0 <= k < i ==> rolling.deep_view()[k] != id@,
        decreases n - i,
    {
        let d: &String = &rolling[i];
        if str_eq(d.as_str(), id) {
            proof {
                assert(rolling.deep_view()[i as int] == id@);
                assert(rolling.deep_view().contains(id@));
            }
            return "rolling".to_owned();
        }
        i = i + 1;
    }
    proof {
        if rolling.deep_view().contains(id@) {
            let k = choose|k: int|
                0 <= k < rolling.deep_view().len() && rolling.deep_view()[k] == id@;
            assert(false);
        }
    }
    "unknown".to_owned()
}

/// Reads the key and value of one os-release line, as [`parsed_kv`] gives
/// them.
fn parse_os_release_line(line: &str) -> (r: Option<(String, String)>)
    ensures
        r is Some <==> parsed_kv(line@) is Some,
        r matches Some(kv) ==> parsed_kv(line@) matches Some(skv) && kv.0@ == skv.0 && kv.1@
            == skv.1,
{
    let t = trim_ascii(line);
    let tlen = t.unicode_len();
    if tlen == 0 {
        return None;
    }
    if t.get_char(0) == '#' {
        return None;
    }
    match split_once_char(t, '=') {
        None => None,
        Some((rawk, rawv)) => {
            let k = trim_ascii(rawk);
            let v0 = trim_ascii(rawv);
            let v1 = trim_matches_char(v0, '"');
            let v2 = trim_matches_char(v1, '\'');
            Some((k.to_owned(), v2.to_owned()))
        },
    }
}

/// Derives the OS suffix `<id>_<variant>` from the text of an os-release
/// file, as [`os_suffix_spec`] describes; a file without an `ID` line is
/// an error.
pub fn detect_linux_os_suffix(content: &str) -> (r: Result<String, PikeError>)
    ensures
        r is Ok <==> os_suffix_spec(content@, rolling_list_spec()) is Some,
        r is Ok ==> r.unwrap()@ == os_suffix_spec(content@, rolling_list_spec()).unwrap(),
        r is Err ==> r->Err_0.msg@ == "ID not found in /etc/os-release"@,
{
    let lines = split_lines(content);
    let ghost ls = lines_spec(content@);
    let n = lines.len();
    let mut id: Option<String> = None;
    let mut version_id: Option<String> = None;
    let mut version_codename: Option<String> = None;
    let mut i: usize = 0;
    proof {
        assert(ls.take(0) =~= Seq::<Seq<char>>::empty());
    }
    while i < n
        invariant
            n == lines.len(),
            lines.deep_view() == ls,
            ls == lines_spec(content@),
            0 <= i <= n,
            opt_matches(id, last_os_release_value(ls.take(i as int), "ID"@)),
            opt_matches(version_id, last_os_release_value(ls.take(i as int), "VERSION_ID"@)),
            opt_matches(
                version_codename,
                last_os_release_value(ls.take(i as int), "VERSION_CODENAME"@),
            ),
        decreases n - i,
    {
        let line: &String = &lines[i];
        proof {
            assert(line@ == ls[i as int]);
            reveal_strlit("ID");
            reveal_strlit("VERSION_ID");
            reveal_strlit("VERSION_CODENAME");
            assert("ID"@.len() == 2);
            assert("VERSION_ID"@.len() == 10);
            assert("VERSION_CODENAME"@.len() == 16);
            assert(lower_seq("ID"@).len() == 2);
            assert(lower_seq("VERSION_ID"@).len() == 10);
            assert(lower_seq("VERSION_CODENAME"@).len() == 16);
            lemma_take_one_more(ls, i as int);
        }
        match parse_os_release_line(line.as_str()) {
            None => {},
            Some((k, v)) => {
                if crate::text::eq_ignore_case(k.as_str(), "ID") {
                    id = Some(v);
                } else if crate::text::eq_ignore_case(k.as_str(), "VERSION_ID") {
                    version_id = Some(v);
                } else if crate::text::eq_ignore_case(k.as_str(), "VERSION_CODENAME") {
                    version_codename = Some(v);
                }
            },
        }
        i = i + 1;
    }
    proof {
        assert(ls.take(n as int) =~= ls);
    }
    let raw_id = match id {
        Some(s) => s,
        None => {
            return Err(PikeError { msg: "ID not found in /etc/os-release".to_owned() });
        },
    };
    let id_lower = to_lower_string(raw_id.as_str());
    let rolling = rolling_distros();
    let variant: String = match version_id {
        Some(vid) => {
            let replaced = replace_char(vid.as_str(), ' ', '_');
            let v = to_lower_string(replaced.as_str());
            if v.as_str().unicode_len() == 0 {
                resolve_linux_variant(id_lower.as_str(), &rolling)
            } else {
                v
            }
        },
        None => match version_codename {
            Some(code) => {
                let c = to_lower_string(code.as_str());
                if c.as_str().unicode_len() == 0 {
                    resolve_linux_variant(id_lower.as_str(), &rolling)
                } else {
                    c
                }
            },
            None => resolve_linux_variant(id_lower.as_str(), &rolling),
        },
    };
    let mut out = id_lower;
    push_char(&mut out, '_');
    out.append(variant.as_str());
    proof {
        assert(out@ =~= os_suffix_spec(content@, rolling_list_spec()).unwrap());
    }
    Ok(out)
}

/// The rolling-distribution names as a ghost list.
pub open spec fn rolling_list_spec() -> Seq<Seq<char>> {
    seq![
        "arch"@,
        "cachyos"@,
        "gentoo"@,
        "void"@,
        "opensuse-tumbleweed"@,
        "artix"@,
        "manjaro"@,
        "endeavouros"@,
        "garuda"@,
        "kaos"@,
    ]
}

/// An executable optional string carries the same text as a ghost one.
pub open spec fn opt_matches(o: Option<String>, g: Option<Seq<char>>) -> bool {
    match o {
        Some(s) => g is Some && s@ == g.unwrap(),
        None => g is None,
    }
}

/// Takes one more element: the prefix grows by the element at `i`.
proof fn lemma_take_one_more(ls: Seq<Seq<char>>, i: int)
    requires
        0 <= i < ls.len(),
    ensures
        ls.take(i + 1).drop_last() =~= ls.take(i),
        ls.take(i + 1).last() == ls[i],
{
}

/// The OS suffix used in default archive names, derived from the
/// platform's os-release text.
pub fn detect_os_suffix(content: &str) -> (r: Result<String, PikeError>)
    ensures
        r is Ok <==> os_suffix_spec(content@, rolling_list_spec()) is Some,
        r is Ok ==> r.unwrap()@ == os_suffix_spec(content@, rolling_list_spec()).unwrap(),
        r is Err ==> r->Err_0.msg@ == "ID not found in /etc/os-release"@,
{
    detect_linux_os_suffix(content)
}

} // verus!
