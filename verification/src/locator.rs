//! Discovery of the shared library file.
//!
//! The locator works from plain values: the relevant environment variables'
//! values are handed in by the caller, and what comes out is the ordered list
//! of candidate file paths, plus the decision rule over the outcomes of
//! probing them. Nothing here touches the file system.

use vstd::prelude::*;
use vstd::string::*;

use crate::error::Error;

verus! {

/// The platform the binding runs on, fixed once by the caller; it decides
/// the shared-library extension and the search-path separator.
#[derive(Clone, Copy, PartialEq, Eq, Structural, Debug)]
pub enum Platform {
    Linux,
    MacOs,
    Windows,
}

/// The platform's shared-library file extension.
pub open spec fn extension_spec(p: Platform) -> Seq<char> {
    match p {
        Platform::Linux => "so"@,
        Platform::MacOs => "dylib"@,
        Platform::Windows => "dll"@,
    }
}

/// The separator between entries of the platform's library search path.
pub open spec fn path_separator_spec(p: Platform) -> char {
    match p {
        Platform::Windows => ';',
        _ => ':',
    }
}

pub fn extension(p: Platform) -> (r: &'static str)
    ensures
        r@ == extension_spec(p),
{
    match p {
        Platform::Linux => "so",
        Platform::MacOs => "dylib",
        Platform::Windows => "dll",
    }
}

pub fn path_separator(p: Platform) -> (c: char)
    ensures
        c == path_separator_spec(p),
{
    match p {
        Platform::Windows => ';',
        _ => ':',
    }
}

/// The name of the shared library file that is searched for:
/// basename, extension and engine version, dot-separated.
pub open spec fn filename_spec(p: Platform) -> Seq<char> {
    "libyamlstar."@ + extension_spec(p) + ".0.1.0"@
}

pub fn library_filename(p: Platform) -> (r: String)
    ensures
        r@ == filename_spec(p),
{
    String::from_str("libyamlstar.").concat(extension(p)).concat(".0.1.0")
}

/// Splitting a text on a separator character, as the search-path variable is
/// split: the pieces between separators, in order, empty pieces kept; an
/// empty text is one empty piece.
pub open spec fn split_spec(s: Seq<char>, sep: char) -> Seq<Seq<char>>
    decreases s.len(),
{
    if s.len() == 0 {
        seq![Seq::<char>::empty()]
    } else if s[0] == sep {
        seq![Seq::<char>::empty()] + split_spec(s.drop_first(), sep)
    } else {
        let rest = split_spec(s.drop_first(), sep);
        seq![seq![s[0]] + rest[0]] + rest.drop_first()
    }
}

pub proof fn lemma_split_spec_len(s: Seq<char>, sep: char)
    ensures
        split_spec(s, sep).len() >= 1,
    decreases s.len(),
{
    if s.len() == 0 {
    } else {
        lemma_split_spec_len(s.drop_first(), sep);
    }
}

/// A split result with the given prefix glued onto its first piece.
spec fn prepend_first(prefix: Seq<char>, pieces: Seq<Seq<char>>) -> Seq<Seq<char>> {
    seq![prefix + pieces[0]] + pieces.drop_first()
}

/// Splits a text on a separator character, keeping empty pieces.
pub fn split_search_path(s: &str, sep: char) -> (r: Vec<String>)
    ensures
        r@.map_values(|piece: String| piece@) == split_spec(s@, sep),
{
    let n: usize = s.unicode_len();
    let mut pieces: Vec<String> = Vec::new();
    let mut start: usize = 0;
    let mut i: usize = 0;
    proof {
        lemma_split_spec_len(s@, sep);
        assert(s@.subrange(0, n as int) =~= s@);
        assert(split_spec(s@, sep) =~~= pieces@.map_values(|piece: String| piece@)
            + prepend_first(s@.subrange(0, 0), split_spec(s@.subrange(0, n as int), sep)));
    }
    while i < n
        invariant
            n == s@.len(),
            0 <= start <= i <= n,
            split_spec(s@, sep) == pieces@.map_values(|piece: String| piece@) + prepend_first(
                s@.subrange(start as int, i as int),
                split_spec(s@.subrange(i as int, n as int), sep),
            ),
        decreases n - i,
    {
        let ghost rem = s@.subrange(i as int, n as int);
        let ghost rem_next = s@.subrange(i + 1, n as int);
        proof {
            assert(rem.len() > 0);
            assert(rem.drop_first() =~~= rem_next);
            lemma_split_spec_len(rem_next, sep);
        }
        let c = s.get_char(i);
        if c == sep {
            let piece: String = s.substring_char(start, i).to_owned();
            proof {
                assert(prepend_first(s@.subrange(start as int, i as int), split_spec(rem, sep))
                    =~~= seq![s@.subrange(start as int, i as int)] + prepend_first(
                    s@.subrange(i + 1, i + 1),
                    split_spec(rem_next, sep),
                ));
                assert((pieces@ + seq![piece]).map_values(|piece: String| piece@)
                    =~~= pieces@.map_values(|piece: String| piece@) + seq![s@.subrange(
                    start as int,
                    i as int,
                )]);
            }
            pieces.push(piece);
            start = i + 1;
        } else {
            proof {
                assert(s@.subrange(start as int, i + 1) =~~= s@.subrange(start as int, i as int)
                    + seq![s@[i as int]]);
                assert(prepend_first(s@.subrange(start as int, i as int), split_spec(rem, sep))
                    =~~= prepend_first(s@.subrange(start as int, i + 1), split_spec(rem_next, sep)));
            }
        }
        i += 1;
    }
    let last: String = s.substring_char(start, n).to_owned();
    proof {
        assert(s@.subrange(n as int, n as int).len() == 0);
        assert(prepend_first(s@.subrange(start as int, n as int), split_spec(s@.subrange(n as int, n as int), sep))
            =~~= seq![s@.subrange(start as int, n as int)]);
        assert((pieces@ + seq![last]).map_values(|piece: String| piece@)
            =~~= pieces@.map_values(|piece: String| piece@) + seq![s@.subrange(start as int, n as int)]);
    }
    pieces.push(last);
    pieces
}

/// The separator put between a directory and a file name on this platform.
pub open spec fn join_separator_spec(p: Platform) -> Seq<char> {
    match p {
        Platform::Windows => "\\"@,
        _ => "/"@,
    }
}

/// Whether a directory already ends in a path separator: `/` everywhere,
/// and also `\` on Windows.
pub open spec fn ends_with_separator_spec(dir: Seq<char>, p: Platform) -> bool {
    dir.last() == '/' || (p is Windows && dir.last() == '\\')
}

/// Joining a directory and a file name into a path: a single separator is
/// put between them, none when the directory already ends in one, and an
/// empty directory stands for the file name alone.
pub open spec fn join_spec(dir: Seq<char>, file: Seq<char>, p: Platform) -> Seq<char> {
    if dir.len() == 0 {
        file
    } else if ends_with_separator_spec(dir, p) {
        dir + file
    } else {
        dir + join_separator_spec(p) + file
    }
}

pub fn join_candidate(dir: &str, file: &str, p: Platform) -> (r: String)
    ensures
        r@ == join_spec(dir@, file@, p),
{
    let n: usize = dir.unicode_len();
    if n == 0 {
        return file.to_owned();
    }
    let last = dir.get_char(n - 1);
    let ends_with_separator = last == '/' || (matches!(p, Platform::Windows) && last == '\\');
    if ends_with_separator {
        String::from_str(dir).concat(file)
    } else {
        match p {
            Platform::Windows => String::from_str(dir).concat("\\").concat(file),
            _ => String::from_str(dir).concat("/").concat(file),
        }
    }
}

/// The development candidate directory derived from the build-root variable.
pub open spec fn dev_dir_spec(build_root: Seq<char>) -> Seq<char> {
    build_root + "/../libyamlstar/lib"@
}

/// The per-user candidate directory derived from the home variable.
pub open spec fn home_dir_spec(home: Seq<char>) -> Seq<char> {
    home + "/.local/lib"@
}

/// The view of an optional string argument.
pub open spec fn view_opt(o: Option<&str>) -> Option<Seq<char>> {
    match o {
        Some(s) => Some(s@),
        None => None,
    }
}

/// The ordered candidate directories: the development directory when the
/// build-root variable is set, then every entry of the library search-path
/// variable, then the system-wide location, then the per-user location when
/// the home variable is set.
pub open spec fn search_dirs_spec(
    build_root: Option<Seq<char>>,
    search_path: Option<Seq<char>>,
    home: Option<Seq<char>>,
    p: Platform,
) -> Seq<Seq<char>> {
    (match build_root {
        Some(b) => seq![dev_dir_spec(b)],
        None => Seq::<Seq<char>>::empty(),
    }) + (match search_path {
        Some(l) => split_spec(l, path_separator_spec(p)),
        None => Seq::<Seq<char>>::empty(),
    }) + seq!["/usr/local/lib"@] + (match home {
        Some(h) => seq![home_dir_spec(h)],
        None => Seq::<Seq<char>>::empty(),
    })
}

/// The ordered candidate file paths: each candidate directory joined with
/// the library file name.
pub open spec fn candidate_files_spec(
    build_root: Option<Seq<char>>,
    search_path: Option<Seq<char>>,
    home: Option<Seq<char>>,
    p: Platform,
) -> Seq<Seq<char>> {
    search_dirs_spec(build_root, search_path, home, p).map_values(
        |dir: Seq<char>| join_spec(dir, filename_spec(p), p),
    )
}

/// Builds the ordered list of candidate file paths from the environment
/// values the caller read: build root, library search path, home directory.
pub fn candidate_paths(
    build_root: Option<&str>,
    search_path: Option<&str>,
    home: Option<&str>,
    p: Platform,
) -> (r: Vec<String>)
    ensures
        r@.map_values(|path: String| path@) == candidate_files_spec(
            view_opt(build_root),
            view_opt(search_path),
            view_opt(home),
            p,
        ),
{
    let ghost dirs_spec = search_dirs_spec(
        view_opt(build_root),
        view_opt(search_path),
        view_opt(home),
        p,
    );
    let mut dirs: Vec<String> = Vec::new();
    match build_root {
        Some(b) => {
            dirs.push(String::from_str(b).concat("/../libyamlstar/lib"));
        },
        None => {},
    }
    match search_path {
        Some(l) => {
            let mut entries = split_search_path(l, path_separator(p));
            dirs.append(&mut entries);
        },
        None => {},
    }
    dirs.push(String::from_str("/usr/local/lib"));
    match home {
        Some(h) => {
            dirs.push(String::from_str(h).concat("/.local/lib"));
        },
        None => {},
    }
    proof {
        assert(dirs@.map_values(|dir: String| dir@) =~~= dirs_spec);
    }
    let filename = library_filename(p);
    let mut paths: Vec<String> = Vec::new();
    let mut i: usize = 0;
    while i < dirs.len()
        invariant
            dirs@.map_values(|dir: String| dir@) == dirs_spec,
            0 <= i <= dirs@.len(),
            filename@ == filename_spec(p),
            paths@.len() == i,
            forall|j: int|
                0 <= j < i ==> paths@[j]@ == join_spec(dirs_spec[j], filename_spec(p), p),
        decreases dirs@.len() - i,
    {
        let full = join_candidate(dirs[i].as_str(), filename.as_str(), p);
        proof {
            assert(dirs@.map_values(|dir: String| dir@)[i as int] == dirs@[i as int]@);
        }
        paths.push(full);
        i += 1;
    }
    proof {
        assert(paths@.map_values(|path: String| path@) =~~= candidate_files_spec(
            view_opt(build_root),
            view_opt(search_path),
            view_opt(home),
            p,
        ));
    }
    paths
}

/// What happened when one candidate file path was probed: the file did not
/// exist, it existed and the dynamic loader opened it, or it existed and the
/// open failed with the loader's diagnostic.
pub enum ProbeOutcome {
    Missing,
    Opened,
    OpenFailed(String),
}

/// The selection rule over an ordered list of probe outcomes: the first
/// opened candidate wins; with no opened candidate, the first open failure's
/// diagnostic is the error; with no failure either, no candidate file
/// existed at all.
pub fn select_library(outcomes: &Vec<ProbeOutcome>) -> (r: Result<usize, Error>)
    ensures
        r is Ok <==> exists|j: int| 0 <= j < outcomes@.len() && outcomes@[j] is Opened,
        r matches Ok(i) ==> {
            &&& 0 <= i < outcomes@.len()
            &&& outcomes@[i as int] is Opened
            &&& forall|j: int| 0 <= j < i ==> !(outcomes@[j] is Opened)
        },
        r matches Err(e) ==> match e {
            Error::Load(m) => exists|k: int|
                0 <= k < outcomes@.len() && outcomes@[k] is OpenFailed && m@
                    == outcomes@[k]->OpenFailed_0@ && (forall|j: int|
                    0 <= j < k ==> !(outcomes@[j] is OpenFailed)),
            Error::NotFound => forall|j: int|
                0 <= j < outcomes@.len() ==> !(outcomes@[j] is OpenFailed),
            _ => false,
        },
{
    let n: usize = outcomes.len();
    let mut first_failure: Option<String> = None;
    let ghost mut failure_at: int = 0;
    let mut i: usize = 0;
    while i < n
        invariant
            n == outcomes@.len(),
            0 <= i <= n,
            forall|j: int| 0 <= j < i ==> !(outcomes@[j] is Opened),
            match first_failure {
                Some(m) => {
                    &&& 0 <= failure_at < i
                    &&& outcomes@[failure_at] is OpenFailed
                    &&& m@ == outcomes@[failure_at]->OpenFailed_0@
                    &&& forall|j: int| 0 <= j < failure_at ==> !(outcomes@[j] is OpenFailed)
                },
                None => forall|j: int| 0 <= j < i ==> !(outcomes@[j] is OpenFailed),
            },
        decreases n - i,
    {
        match &outcomes[i] {
            ProbeOutcome::Opened => {
                return Ok(i);
            },
            ProbeOutcome::OpenFailed(m) => {
                if first_failure.is_none() {
                    first_failure = Some(m.clone());
                    proof {
                        failure_at = i as int;
                    }
                }
            },
            ProbeOutcome::Missing => {},
        }
        i += 1;
    }
    match first_failure {
        Some(m) => Err(Error::Load(m)),
        None => Err(Error::NotFound),
    }
}

} // verus!
