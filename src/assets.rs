use vstd::prelude::*;
use vstd::string::StringExecFns;

verus! {

/// What `std::path::Path::with_extension` makes of a path and an extension.
pub uninterp spec fn with_extension_of(path: Seq<char>, ext: Seq<char>) -> Seq<char>;

/// What `std::path::Path::extension` finds in a path.
pub uninterp spec fn extension_of(path: Seq<char>) -> Option<Seq<char>>;

/// `s` holds no path separator, on any target.
pub open spec fn no_separator(s: Seq<char>) -> bool {
    !s.contains('/') && !s.contains('\\')
}

/// Relies on `std::path::Path::with_extension`: the path with its extension
/// replaced by (or extended with) `ext`; the result depends on the two
/// strings alone. It panics when `ext` holds a path separator, so such an
/// extension is ruled out.
#[verifier::external_body]
fn path_with_extension(path: &str, ext: &str) -> (r: String)
    requires
        no_separator(ext@),
    ensures
        r@ == with_extension_of(path@, ext@),
{
    std::path::Path::new(path).with_extension(ext).to_string_lossy().into_owned()
}

/// Relies on `std::path::Path::extension`: the extension of the path's file
/// name, if it has one; the result depends on the string alone. Being part
/// of a file name, it holds no `/`, which is a separator on every target.
#[verifier::external_body]
fn path_extension(path: &str) -> (r: Option<String>)
    ensures
        r matches Some(e) ==> !e@.contains('/'),
        r matches Some(e) ==> extension_of(path@) == Some(e@),
        r is None ==> extension_of(path@) is None,
{
    std::path::Path::new(path).extension().map(|e| e.to_string_lossy().into_owned())
}

/// A separator in `a + b` is a separator in `a` or in `b`.
proof fn lemma_no_separator_concat(a: Seq<char>, b: Seq<char>)
    requires
        no_separator(a),
        no_separator(b),
    ensures
        no_separator(a + b),
{
    assert forall|i: int| 0 <= i < (a + b).len() implies (a + b)[i] != '/' && (a + b)[i] != '\\' by {
        if i < a.len() {
            assert((a + b)[i] == a[i]);
        } else {
            assert((a + b)[i] == b[i - a.len()]);
        }
    }
}

/// How the asset processor treats a source file, by its extension.
#[derive(Clone, Copy, PartialEq, Eq, Structural, Debug)]
pub enum AssetKind {
    /// A vertex or fragment shader: compiled to bytecode.
    Shader,
    /// A binary glTF scene: converted to the renderer's mesh format.
    Model,
    /// An editor's working file: not processed.
    Ignored,
    /// Anything else: copied as it is.
    Other,
}

pub open spec fn asset_kind_of(ext: Option<Seq<char>>) -> AssetKind {
    match ext {
        Some(e) => if e == "vert"@ || e == "frag"@ {
            AssetKind::Shader
        } else if e == "glb"@ {
            AssetKind::Model
        } else if e == "blend"@ || e == "blend1"@ {
            AssetKind::Ignored
        } else {
            AssetKind::Other
        },
        None => AssetKind::Other,
    }
}

/// Where the processor writes the output for a source path: shaders get the
/// extension `spv.` followed by their stage, models the extension `mdl`,
/// everything else keeps its path.
pub open spec fn output_rel_path_of(path: Seq<char>) -> Seq<char> {
    match extension_of(path) {
        Some(e) => if e == "vert"@ || e == "frag"@ {
            with_extension_of(path, "spv."@ + e)
        } else if e == "glb"@ {
            with_extension_of(path, "mdl"@)
        } else {
            path
        },
        None => path,
    }
}

/// The output path of a compiled shader: `path` with the extension `spv.`
/// followed by `ext`, a shader stage name, which holds no path separator.
pub fn get_shader_output_path(path: &str, ext: &str) -> (r: String)
    requires
        no_separator(ext@),
    ensures
        r@ == with_extension_of(path@, "spv."@ + ext@),
{
    let prefix = "spv.".to_owned();
    proof {
        reveal_strlit("spv.");
        assert(no_separator("spv."@));
        lemma_no_separator_concat("spv."@, ext@);
    }
    let full = prefix.concat(ext);
    path_with_extension(path, full.as_str())
}

/// The characters of an optional string.
pub open spec fn opt_chars(o: Option<String>) -> Option<Seq<char>> {
    match o {
        Some(s) => Some(s@),
        None => None,
    }
}

/// Classifies a source file by its extension, if it has one.
pub fn classify_extension(ext: &Option<String>) -> (r: AssetKind)
    ensures
        r == asset_kind_of(opt_chars(*ext)),
{
    proof {
        reveal_strlit("vert");
        reveal_strlit("frag");
        reveal_strlit("glb");
        reveal_strlit("blend");
        reveal_strlit("blend1");
    }
    match ext {
        Some(e) => {
            if *e == "vert".to_owned() || *e == "frag".to_owned() {
                AssetKind::Shader
            } else if *e == "glb".to_owned() {
                AssetKind::Model
            } else if *e == "blend".to_owned() || *e == "blend1".to_owned() {
                AssetKind::Ignored
            } else {
                AssetKind::Other
            }
        },
        None => AssetKind::Other,
    }
}

/// Classifies a source file by the extension of its path.
pub fn asset_kind(path: &str) -> (r: AssetKind)
    ensures
        r == asset_kind_of(extension_of(path@)),
{
    let ext = path_extension(path);
    classify_extension(&ext)
}

/// The output path, relative to the output directory, for a source path
/// relative to the source directory.
pub fn get_output_rel_path(path: &str) -> (r: String)
    ensures
        r@ == output_rel_path_of(path@),
{
    proof {
        reveal_strlit("vert");
        reveal_strlit("frag");
        reveal_strlit("glb");
        reveal_strlit("mdl");
    }
    match path_extension(path) {
        Some(e) => {
            if e == "vert".to_owned() || e == "frag".to_owned() {
                get_shader_output_path(path, e.as_str())
            } else if e == "glb".to_owned() {
                path_with_extension(path, "mdl")
            } else {
                path.to_owned()
            }
        },
        None => path.to_owned(),
    }
}

/// Whether processing can be skipped: the output exists and was modified no
/// earlier than the source.
pub fn should_skip_process(source_mtime: u128, dest_mtime: Option<u128>) -> (r: bool)
    ensures
        r == (dest_mtime matches Some(d) && source_mtime <= d),
{
    match dest_mtime {
        Some(d) => source_mtime <= d,
        None => false,
    }
}

} // verus!
