//! The rendering engine: classifies the entries of a source tree, copies
//! binary files byte for byte, substitutes parameters into text files, and
//! mirrors the tree at a destination — all over an in-memory picture of the
//! tree, so that every decision is verified.

use vstd::prelude::*;
use vstd::string::StrSliceExecFns;
use vstd::string::StringExecFns;
use vstd::utf8::{decode_utf8 as spec_decode_utf8, valid_utf8};

use crate::error::{Error, ErrorV};
use crate::strutil::{
    clone_bytes, clone_strings, join_with, spec_join, spec_lower, str_eq,
    str_eq_ignore_ascii_case,
};
use crate::trusted::{decode_utf8, liquid_apply, liquid_pure, liquid_render, pairs_view};

verus! {

/// Renders a template tree with a map of parameter values.
pub struct Renderer;

/// How one entry of the source tree presents itself.
#[derive(Debug, Clone)]
pub enum EntryKind {
    /// A directory.
    Directory,
    /// A file, with its raw bytes.
    File(Vec<u8>),
}

/// One entry of the source tree, named by its relative path, split into
/// components.
#[derive(Debug, Clone)]
pub struct SourceEntry {
    /// The components of the entry's path relative to the source root.
    pub path: Vec<String>,
    /// Whether the entry is a directory or a file, and the file's bytes.
    pub kind: EntryKind,
}

/// What the renderer asks the caller to materialize for one entry.
#[derive(Debug, Clone)]
pub enum OutputEntry {
    /// Recreate this directory under the destination root.
    Directory {
        /// Path components relative to the destination root.
        path: Vec<String>,
    },
    /// Write these bytes unchanged.
    Binary {
        /// Path components relative to the destination root.
        path: Vec<String>,
        /// The source file's bytes, byte for byte.
        bytes: Vec<u8>,
    },
    /// Write this rendered text.
    Text {
        /// Path components relative to the destination root.
        path: Vec<String>,
        /// The substituted file content.
        text: String,
    },
}

/// Mathematical image of an [`OutputEntry`].
pub ghost enum OutView {
    /// Recreate this directory.
    Directory { path: Seq<Seq<char>> },
    /// Write these bytes unchanged.
    Binary { path: Seq<Seq<char>>, bytes: Seq<u8> },
    /// Write this rendered text.
    Text { path: Seq<Seq<char>>, text: Seq<char> },
}

impl OutView {
    /// The path components of the entry this describes.
    pub open spec fn path(self) -> Seq<Seq<char>> {
        match self {
            OutView::Directory { path } => path,
            OutView::Binary { path, .. } => path,
            OutView::Text { path, .. } => path,
        }
    }
}

impl View for OutputEntry {
    type V = OutView;

    open spec fn view(&self) -> OutView {
        match self {
            OutputEntry::Directory { path } => OutView::Directory { path: path_view(path@) },
            OutputEntry::Binary { path, bytes } => OutView::Binary {
                path: path_view(path@),
                bytes: bytes@,
            },
            OutputEntry::Text { path, text } => OutView::Text {
                path: path_view(path@),
                text: text@,
            },
        }
    }
}

/// The character sequences of a list of path components.
pub open spec fn path_view(p: Seq<String>) -> Seq<Seq<char>> {
    p.map_values(|s: String| s@)
}

/// Whether one path component is excluded from rendering by name: the
/// version-control metadata directory and the manifest file itself.
pub open spec fn spec_excluded_name(name: Seq<char>) -> bool {
    name == ".git"@ || name == "x402.toml"@
}

/// Whether any component of a path is excluded by name.
pub open spec fn spec_excluded_path(path: Seq<Seq<char>>) -> bool {
    exists|i: int| 0 <= i < path.len() && spec_excluded_name(path[i])
}

/// Index of the last occurrence of a character, or -1 when absent.
pub open spec fn spec_find_last(s: Seq<char>, c: char) -> int
    decreases s.len(),
{
    if s.len() == 0 {
        -1
    } else if s[s.len() - 1] == c {
        s.len() - 1
    } else {
        spec_find_last(s.drop_last(), c)
    }
}

/// `spec_find_last` names the last occurrence: it is in range and holds `c`,
/// and nothing after it does; -1 means `c` does not occur at all.
pub proof fn lemma_find_last(s: Seq<char>, c: char)
    ensures
        spec_find_last(s, c) == -1 ==> forall|j: int| 0 <= j < s.len() ==> s[j] != c,
        spec_find_last(s, c) != -1 ==> {
            &&& 0 <= spec_find_last(s, c) < s.len()
            &&& s[spec_find_last(s, c)] == c
            &&& forall|j: int| spec_find_last(s, c) < j < s.len() ==> s[j] != c
        },
    decreases s.len(),
{
    if s.len() > 0 && s[s.len() - 1] != c {
        lemma_find_last(s.drop_last(), c);
        assert(forall|j: int| 0 <= j < s.len() - 1 ==> s[j] == s.drop_last()[j]);
    }
}

/// The file-name extension of a path, as Rust's standard path type reads it:
/// the portion of the last component after its last dot, none when the
/// component has no dot past its first character.
pub open spec fn spec_extension(name: Seq<char>) -> Option<Seq<char>> {
    let start = spec_find_last(name, '/') + 1;
    let dot = spec_find_last(name, '.');
    if dot > start {
        Some(name.subrange(dot + 1, name.len() as int))
    } else {
        None
    }
}

/// Whether a file name carries one of the fixed binary extensions, compared
/// without regard to ASCII case.
pub open spec fn spec_is_binary_name(name: Seq<char>) -> bool {
    match spec_extension(name) {
        Some(ext) => {
            let low = spec_lower(ext);
            ||| low == "png"@
            ||| low == "jpg"@
            ||| low == "jpeg"@
            ||| low == "gif"@
            ||| low == "ico"@
            ||| low == "bin"@
            ||| low == "zip"@
            ||| low == "tar"@
            ||| low == "gz"@
        },
        None => false,
    }
}

/// Each of the nine binary-extension tokens is already in lower case.
proof fn lemma_binary_tokens_are_lower_case()
    ensures
        spec_lower("png"@) == "png"@,
        spec_lower("jpg"@) == "jpg"@,
        spec_lower("jpeg"@) == "jpeg"@,
        spec_lower("gif"@) == "gif"@,
        spec_lower("ico"@) == "ico"@,
        spec_lower("bin"@) == "bin"@,
        spec_lower("zip"@) == "zip"@,
        spec_lower("tar"@) == "tar"@,
        spec_lower("gz"@) == "gz"@,
{
    reveal_strlit("png");
    reveal_strlit("jpg");
    reveal_strlit("jpeg");
    reveal_strlit("gif");
    reveal_strlit("ico");
    reveal_strlit("bin");
    reveal_strlit("zip");
    reveal_strlit("tar");
    reveal_strlit("gz");
    assert(spec_lower("png"@) =~= "png"@);
    assert(spec_lower("jpg"@) =~= "jpg"@);
    assert(spec_lower("jpeg"@) =~= "jpeg"@);
    assert(spec_lower("gif"@) =~= "gif"@);
    assert(spec_lower("ico"@) =~= "ico"@);
    assert(spec_lower("bin"@) =~= "bin"@);
    assert(spec_lower("zip"@) =~= "zip"@);
    assert(spec_lower("tar"@) =~= "tar"@);
    assert(spec_lower("gz"@) =~= "gz"@);
}

/// Finds the last occurrence of a character, scanning from the end.
#[verifier::loop_isolation(false)]
fn find_last(s: &str, c: char) -> (r: Option<usize>)
    ensures
        r matches Some(i) ==> spec_find_last(s@, c) == i as int && i < s@.len(),
        r is None ==> spec_find_last(s@, c) == -1,
{
    let n = s.unicode_len();
    let mut i: usize = n;
    proof {
        lemma_find_last(s@, c);
    }
    while i > 0
        invariant
            i <= n,
            forall|j: int| i <= j < n ==> s@[j] != c,
        decreases i,
    {
        i = i - 1;
        if s.get_char(i) == c {
            proof {
                if spec_find_last(s@, c) > i as int {
                    assert(s@[spec_find_last(s@, c)] != c);
                }
            }
            return Some(i);
        }
    }
    None
}

/// What rendering a text with a parameter map yields: the substituted text,
/// or the engine's parse or render failure wrapped as a render error.
pub open spec fn spec_render_content(content: Seq<char>, params: Seq<(Seq<char>, Seq<char>)>) -> Result<
    Seq<char>,
    ErrorV,
> {
    match liquid_render(content, params) {
        Ok(s) => Ok(s),
        Err((parse_stage, m)) => Err(
            ErrorV::RenderError(
                if parse_stage {
                    "Failed to parse template: "@ + m
                } else {
                    "Failed to render template: "@ + m
                },
            ),
        ),
    }
}

/// The view of a rendered-text-or-error result.
pub open spec fn text_result_view(r: &Result<String, Error>) -> Result<Seq<char>, ErrorV> {
    match r {
        Ok(s) => Ok(s@),
        Err(e) => Err(e@),
    }
}

/// The file name of an entry: its last path component.
pub open spec fn spec_entry_name(e: SourceEntry) -> Seq<char> {
    if e.path@.len() == 0 {
        Seq::empty()
    } else {
        e.path@.last()@
    }
}

/// Whether handling an entry depends on nothing but the entry and the
/// parameter map: everything except a text file whose rendering reaches the
/// engine's clock.
pub open spec fn spec_entry_pure(e: SourceEntry) -> bool {
    match e.kind {
        EntryKind::Directory => true,
        EntryKind::File(bytes) => {
            ||| spec_excluded_path(path_view(e.path@))
            ||| spec_is_binary_name(spec_entry_name(e))
            ||| !valid_utf8(bytes@)
            ||| liquid_pure(spec_decode_utf8(bytes@))
        },
    }
}

/// What handling one source entry yields: nothing for an excluded path, a
/// mirrored directory, identical bytes for a binary file, substituted text
/// for a text file; a render error stops everything.
pub open spec fn spec_render_entry(e: SourceEntry, params: Seq<(Seq<char>, Seq<char>)>) -> Result<
    Option<OutView>,
    ErrorV,
> {
    let pv = path_view(e.path@);
    if spec_excluded_path(pv) {
        Ok(None)
    } else {
        match e.kind {
            EntryKind::Directory => Ok(Some(OutView::Directory { path: pv })),
            EntryKind::File(bytes) => {
                let name = spec_entry_name(e);
                if spec_is_binary_name(name) {
                    Ok(Some(OutView::Binary { path: pv, bytes: bytes@ }))
                } else if !valid_utf8(bytes@) {
                    Err(
                        ErrorV::RenderError(
                            "Cannot read file: "@ + spec_join(e.path@, "/"@)
                                + " is not valid UTF-8"@,
                        ),
                    )
                } else {
                    match spec_render_content(spec_decode_utf8(bytes@), params) {
                        Ok(t) => Ok(Some(OutView::Text { path: pv, text: t })),
                        Err(err) => Err(err),
                    }
                }
            },
        }
    }
}

/// What rendering a whole tree yields: the outputs of its entries in order,
/// or the first error.
pub open spec fn spec_render_tree(
    entries: Seq<SourceEntry>,
    params: Seq<(Seq<char>, Seq<char>)>,
) -> Result<Seq<OutView>, ErrorV>
    decreases entries.len(),
{
    if entries.len() == 0 {
        Ok(Seq::empty())
    } else {
        match spec_render_entry(entries[0], params) {
            Err(e) => Err(e),
            Ok(opt) => match spec_render_tree(entries.drop_first(), params) {
                Err(e) => Err(e),
                Ok(rest) => Ok(
                    match opt {
                        Some(o) => seq![o] + rest,
                        None => rest,
                    },
                ),
            },
        }
    }
}

/// The views of a list of output entries.
pub open spec fn out_views(s: Seq<OutputEntry>) -> Seq<OutView> {
    s.map_values(|o: OutputEntry| o@)
}

/// Whether handling every entry of a tree depends on nothing but the entries
/// and the parameter map.
pub open spec fn spec_tree_pure(entries: Seq<SourceEntry>) -> bool {
    forall|i: int| 0 <= i < entries.len() ==> spec_entry_pure(#[trigger] entries[i])
}

/// The view of a rendered-tree-or-error result.
pub open spec fn tree_result_view(r: &Result<Vec<OutputEntry>, Error>) -> Result<
    Seq<OutView>,
    ErrorV,
> {
    match r {
        Ok(outs) => Ok(out_views(outs@)),
        Err(e) => Err(e@),
    }
}

impl Renderer {
    /// Whether a file name carries one of the fixed binary extensions
    /// (`png, jpg, jpeg, gif, ico, bin, zip, tar, gz`), without regard to
    /// ASCII case. Classification is by extension only, never by content.
    pub fn is_binary_file(path: &str) -> (r: bool)
        ensures
            r == spec_is_binary_name(path@),
    {
        let n = path.unicode_len();
        let start: usize = match find_last(path, '/') {
            Some(i) => i + 1,
            None => 0,
        };
        let dot = match find_last(path, '.') {
            Some(i) => i,
            None => {
                return false;
            },
        };
        if dot <= start {
            return false;
        }
        proof {
            lemma_find_last(path@, '.');
            lemma_binary_tokens_are_lower_case();
        }
        let ext = path.substring_char(dot + 1, n);
        str_eq_ignore_ascii_case(ext, "png") || str_eq_ignore_ascii_case(ext, "jpg")
            || str_eq_ignore_ascii_case(ext, "jpeg") || str_eq_ignore_ascii_case(ext, "gif")
            || str_eq_ignore_ascii_case(ext, "ico") || str_eq_ignore_ascii_case(ext, "bin")
            || str_eq_ignore_ascii_case(ext, "zip") || str_eq_ignore_ascii_case(ext, "tar")
            || str_eq_ignore_ascii_case(ext, "gz")
    }

    /// Whether a path component is excluded from rendering by name.
    pub fn should_exclude(name: &str) -> (r: bool)
        ensures
            r == spec_excluded_name(name@),
    {
        str_eq(name, ".git") || str_eq(name, "x402.toml")
    }

    /// Whether any component of a path is excluded by name.
    #[verifier::loop_isolation(false)]
    pub fn path_is_excluded(path: &Vec<String>) -> (r: bool)
        ensures
            r == spec_excluded_path(path_view(path@)),
    {
        let n = path.len();
        let mut i: usize = 0;
        while i < n
            invariant
                i <= n,
                forall|j: int| 0 <= j < i ==> !spec_excluded_name(path_view(path@)[j]),
            decreases n - i,
        {
            if Self::should_exclude(path[i].as_str()) {
                proof {
                    assert(spec_excluded_name(path_view(path@)[i as int]));
                }
                return true;
            }
            i = i + 1;
        }
        false
    }

    /// Substitutes the parameter map into one text, through the templating
    /// engine; variables absent from the map follow the engine's own policy
    /// for undefined names.
    pub fn render_content(content: &str, parameters: &Vec<(String, String)>) -> (r: Result<
        String,
        Error,
    >)
        ensures
            liquid_pure(content@) ==> text_result_view(&r) == spec_render_content(
                content@,
                pairs_view(parameters@),
            ),
    {
        match liquid_apply(content, parameters) {
            Ok(s) => Ok(s),
            Err((parse_stage, m)) => {
                if parse_stage {
                    Err(
                        Error::RenderError(
                            String::from_str("Failed to parse template: ").concat(m.as_str()),
                        ),
                    )
                } else {
                    Err(
                        Error::RenderError(
                            String::from_str("Failed to render template: ").concat(m.as_str()),
                        ),
                    )
                }
            },
        }
    }

    /// Handles one source entry: skips excluded paths, mirrors directories,
    /// copies binary files byte for byte, and substitutes parameters into
    /// text files. A file that is neither binary by extension nor valid UTF-8
    /// is a render error naming the file.
    pub fn render_entry(entry: &SourceEntry, parameters: &Vec<(String, String)>) -> (r: Result<
        Option<OutputEntry>,
        Error,
    >)
        ensures
            spec_entry_pure(*entry) ==> ({
                let sr = spec_render_entry(*entry, pairs_view(parameters@));
                match r {
                    Ok(opt) => sr matches Ok(so) && (match (opt, so) {
                        (Some(o), Some(s)) => o@ == s,
                        (None, None) => true,
                        _ => false,
                    }),
                    Err(e) => sr == Err::<Option<OutView>, ErrorV>(e@),
                }
            }),
    {
        if Self::path_is_excluded(&entry.path) {
            return Ok(None);
        }
        match &entry.kind {
            EntryKind::Directory => Ok(
                Some(OutputEntry::Directory { path: clone_strings(&entry.path) }),
            ),
            EntryKind::File(bytes) => {
                let name: &str = if entry.path.len() == 0 {
                    ""
                } else {
                    entry.path[entry.path.len() - 1].as_str()
                };
                proof {
                    reveal_strlit("");
                    if entry.path@.len() == 0 {
                        assert(""@ =~= Seq::<char>::empty());
                    }
                }
                if Self::is_binary_file(name) {
                    Ok(
                        Some(
                            OutputEntry::Binary {
                                path: clone_strings(&entry.path),
                                bytes: clone_bytes(bytes),
                            },
                        ),
                    )
                } else {
                    match decode_utf8(bytes) {
                        None => Err(
                            Error::RenderError(
                                String::from_str("Cannot read file: ").concat(
                                    join_with(&entry.path, "/").as_str(),
                                ).concat(" is not valid UTF-8"),
                            ),
                        ),
                        Some(text) => {
                            proof {
                                vstd::utf8::encode_utf8_decode_utf8(text@);
                            }
                            match Self::render_content(text.as_str(), parameters) {
                                Ok(rendered) => Ok(
                                    Some(
                                        OutputEntry::Text {
                                            path: clone_strings(&entry.path),
                                            text: rendered,
                                        },
                                    ),
                                ),
                                Err(e) => Err(e),
                            }
                        },
                    }
                }
            },
        }
    }

    /// Renders a whole source tree against a parameter map: every entry in
    /// order, stopping at the first error. Excluded entries leave no output;
    /// directories are mirrored; binary files pass through byte-identical and
    /// are never handed to the substitution engine; text files are rendered.
    #[verifier::loop_isolation(false)]
    pub fn render(entries: &Vec<SourceEntry>, parameters: &Vec<(String, String)>) -> (r: Result<
        Vec<OutputEntry>,
        Error,
    >)
        ensures
            spec_tree_pure(entries@) ==> tree_result_view(&r) == spec_render_tree(
                entries@,
                pairs_view(parameters@),
            ),
    {
        let ghost pv = pairs_view(parameters@);
        let mut outs: Vec<OutputEntry> = Vec::new();
        let n = entries.len();
        let mut i: usize = 0;
        proof {
            assert(entries@.subrange(0, n as int) =~= entries@);
        }
        while i < n
            invariant
                i <= n,
                spec_tree_pure(entries@) ==> spec_render_tree(entries@, pv) == (match spec_render_tree(
                    entries@.subrange(i as int, n as int),
                    pv,
                ) {
                    Ok(rest) => Ok::<Seq<OutView>, ErrorV>(out_views(outs@) + rest),
                    Err(e) => Err::<Seq<OutView>, ErrorV>(e),
                }),
            decreases n - i,
        {
            let ghost rest_i = entries@.subrange(i as int, n as int);
            proof {
                assert(rest_i[0] == entries@[i as int]);
                assert(rest_i.drop_first() =~= entries@.subrange(i as int + 1, n as int));
            }
            let ghost old_outs = outs@;
            match Self::render_entry(&entries[i], parameters) {
                Err(e) => {
                    return Err(e);
                },
                Ok(None) => {},
                Ok(Some(o)) => {
                    let ghost ov = o@;
                    outs.push(o);
                    proof {
                        assert(out_views(outs@) =~= out_views(old_outs).push(ov));
                        if spec_render_tree(rest_i.drop_first(), pv) is Ok {
                            let rest = spec_render_tree(rest_i.drop_first(), pv)->Ok_0;
                            assert(out_views(old_outs) + (seq![ov] + rest) =~= out_views(outs@)
                                + rest);
                        }
                    }
                },
            }
            i = i + 1;
        }
        proof {
            assert(entries@.subrange(n as int, n as int).len() == 0);
            assert(out_views(outs@) + Seq::<OutView>::empty() =~= out_views(outs@));
        }
        Ok(outs)
    }
}

/// Law: a file whose name carries a binary extension and whose path is not
/// excluded is copied with its bytes unchanged, whatever they hold — its
/// bytes never reach the substitution engine.
pub proof fn lemma_binary_passthrough(
    path: Vec<String>,
    bytes: Vec<u8>,
    params: Seq<(Seq<char>, Seq<char>)>,
)
    requires
        path@.len() > 0,
        spec_is_binary_name(path@.last()@),
        !spec_excluded_path(path_view(path@)),
    ensures
        spec_render_entry(SourceEntry { path, kind: EntryKind::File(bytes) }, params) == Ok::<
            Option<OutView>,
            ErrorV,
        >(Some(OutView::Binary { path: path_view(path@), bytes: bytes@ })),
{
}

/// Law: in a successful render of a whole tree, every non-excluded file whose
/// name carries a binary extension reaches the output with its bytes
/// unchanged, whatever they hold.
pub proof fn lemma_binary_bytes_reach_output(
    entries: Seq<SourceEntry>,
    params: Seq<(Seq<char>, Seq<char>)>,
    outs: Seq<OutView>,
    i: int,
)
    requires
        spec_render_tree(entries, params) == Ok::<Seq<OutView>, ErrorV>(outs),
        0 <= i < entries.len(),
        entries[i].kind is File,
        !spec_excluded_path(path_view(entries[i].path@)),
        spec_is_binary_name(spec_entry_name(entries[i])),
    ensures
        exists|k: int|
            0 <= k < outs.len() && outs[k] == (OutView::Binary {
                path: path_view(entries[i].path@),
                bytes: entries[i].kind->File_0@,
            }),
    decreases entries.len(),
{
    let target = OutView::Binary {
        path: path_view(entries[i].path@),
        bytes: entries[i].kind->File_0@,
    };
    let opt = spec_render_entry(entries[0], params)->Ok_0;
    let rest = spec_render_tree(entries.drop_first(), params)->Ok_0;
    if i == 0 {
        assert(opt == Some(target));
        assert(outs[0] == target);
    } else {
        assert(entries.drop_first()[i - 1] == entries[i]);
        lemma_binary_bytes_reach_output(entries.drop_first(), params, rest, i - 1);
        let k = choose|k: int| 0 <= k < rest.len() && rest[k] == target;
        match opt {
            Some(o) => {
                assert(outs == seq![o] + rest);
                assert(outs[k + 1] == target);
            },
            None => {
                assert(outs == rest);
            },
        }
    }
}

/// Law: whatever a successful render produces, no output path holds an
/// excluded component — the version-control metadata directory and the
/// manifest file never appear in the destination tree.
pub proof fn lemma_excluded_paths_never_rendered(
    entries: Seq<SourceEntry>,
    params: Seq<(Seq<char>, Seq<char>)>,
    outs: Seq<OutView>,
)
    requires
        spec_render_tree(entries, params) == Ok::<Seq<OutView>, ErrorV>(outs),
    ensures
        forall|k: int| 0 <= k < outs.len() ==> !spec_excluded_path(#[trigger] outs[k].path()),
    decreases entries.len(),
{
    if entries.len() > 0 {
        match spec_render_entry(entries[0], params) {
            Err(_) => {},
            Ok(opt) => {
                let tail = spec_render_tree(entries.drop_first(), params);
                match tail {
                    Err(_) => {},
                    Ok(rest) => {
                        lemma_excluded_paths_never_rendered(entries.drop_first(), params, rest);
                        match opt {
                            Some(o) => {
                                assert(outs =~= seq![o] + rest);
                                assert(!spec_excluded_path(o.path()));
                            },
                            None => {
                                assert(outs =~= rest);
                            },
                        }
                    },
                }
            },
        }
    }
}

} // verus!
