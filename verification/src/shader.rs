//! Loading a shader: deciding its language from the path's extension,
//! prepending the fixed prelude for that language, and handing the composed
//! text to the shader front-end, which either returns a compiled module or a
//! parse error.
//!
//! The caller reads the file; this module does everything after the read, so
//! the decision of which error a given path and content produce is verified.

use vstd::prelude::*;
use vstd::string::StringExecFns;
use vstd::utf8::{decode_utf8, valid_utf8};

verus! {

/// The shader languages the tool understands, told apart by file extension:
/// `.wgsl` for WGSL, `.frag` for a GLSL fragment shader.
#[derive(Clone, Copy, PartialEq, Eq, Structural, Debug)]
pub enum ShaderLanguage {
    Wgsl,
    Glsl,
}

/// Why loading a shader failed. Each variant but the last carries the
/// diagnostic text of the underlying failure.
#[derive(Debug)]
pub enum LoadShaderError {
    /// The file could not be read.
    Io(String),
    /// The file's bytes are not valid UTF-8.
    Encoding(String),
    /// The WGSL front-end rejected the composed source.
    ParseWgsl(String),
    /// The GLSL front-end rejected the composed source.
    ParseGlsl(String),
    /// The path's extension names no known shader language.
    UnknownLanguage,
}

/// [`LoadShaderError`] with the diagnostic text stripped: what failed, as a
/// plain comparable value.
#[derive(Clone, Copy, PartialEq, Eq, Structural, Debug)]
pub enum LoadShaderErrorKind {
    Io,
    Encoding,
    ParseWgsl,
    ParseGlsl,
    UnknownLanguage,
}

impl LoadShaderError {
    /// Which failure this is, with the diagnostic text stripped.
    pub open spec fn spec_kind(&self) -> LoadShaderErrorKind {
        match self {
            LoadShaderError::Io(_) => LoadShaderErrorKind::Io,
            LoadShaderError::Encoding(_) => LoadShaderErrorKind::Encoding,
            LoadShaderError::ParseWgsl(_) => LoadShaderErrorKind::ParseWgsl,
            LoadShaderError::ParseGlsl(_) => LoadShaderErrorKind::ParseGlsl,
            LoadShaderError::UnknownLanguage => LoadShaderErrorKind::UnknownLanguage,
        }
    }

    /// The diagnostic text carried with the failure.
    pub open spec fn spec_message(&self) -> Seq<char> {
        match self {
            LoadShaderError::Io(m) => m@,
            LoadShaderError::Encoding(m) => m@,
            LoadShaderError::ParseWgsl(m) => m@,
            LoadShaderError::ParseGlsl(m) => m@,
            LoadShaderError::UnknownLanguage => "unable to identify shader language by file extension"@,
        }
    }

    /// Which failure this is, with the diagnostic text stripped.
    pub fn kind(&self) -> (k: LoadShaderErrorKind)
        ensures
            k == self.spec_kind(),
    {
        match self {
            LoadShaderError::Io(_) => LoadShaderErrorKind::Io,
            LoadShaderError::Encoding(_) => LoadShaderErrorKind::Encoding,
            LoadShaderError::ParseWgsl(_) => LoadShaderErrorKind::ParseWgsl,
            LoadShaderError::ParseGlsl(_) => LoadShaderErrorKind::ParseGlsl,
            LoadShaderError::UnknownLanguage => LoadShaderErrorKind::UnknownLanguage,
        }
    }

    /// The diagnostic text carried with the failure.
    pub fn message(&self) -> (m: &str)
        ensures
            m@ == self.spec_message(),
    {
        match self {
            LoadShaderError::Io(m) => m.as_str(),
            LoadShaderError::Encoding(m) => m.as_str(),
            LoadShaderError::ParseWgsl(m) => m.as_str(),
            LoadShaderError::ParseGlsl(m) => m.as_str(),
            LoadShaderError::UnknownLanguage => "unable to identify shader language by file extension",
        }
    }
}

/// The extension of a path, read from its last characters: the text after
/// the last `.`, provided that dot lies inside the path's final `/`-separated
/// component and is not that component's first character (a leading dot marks
/// a hidden file, not an extension). A path whose last character is a
/// separator has no extension.
pub open spec fn extension_of(p: Seq<char>) -> Option<Seq<char>>
    decreases p.len(),
{
    if p.len() == 0 {
        None
    } else if p.last() == '/' {
        None
    } else if p.last() == '.' {
        if p.len() >= 2 && p[p.len() - 2] != '/' {
            Some(Seq::empty())
        } else {
            None
        }
    } else {
        match extension_of(p.drop_last()) {
            Some(e) => Some(e.push(p.last())),
            None => None,
        }
    }
}

/// The language an extension names, if any.
pub open spec fn language_of_extension(e: Seq<char>) -> Option<ShaderLanguage> {
    if e == "wgsl"@ {
        Some(ShaderLanguage::Wgsl)
    } else if e == "frag"@ {
        Some(ShaderLanguage::Glsl)
    } else {
        None
    }
}

/// The shader language a path names through its extension, if any.
pub open spec fn shader_language_of(p: Seq<char>) -> Option<ShaderLanguage> {
    match extension_of(p) {
        Some(e) => language_of_extension(e),
        None => None,
    }
}

/// A suffix free of `.` and `/` passes through [`extension_of`] unchanged:
/// the extension of the whole path is the extension of the prefix with the
/// suffix appended.
proof fn lemma_extension_past_plain_suffix(p: Seq<char>, i: int)
    requires
        0 <= i <= p.len(),
        forall|k: int| i <= k < p.len() ==> p[k] != '.' && p[k] != '/',
    ensures
        extension_of(p) == match extension_of(p.take(i)) {
            Some(e) => Some(e + p.skip(i)),
            None => None::<Seq<char>>,
        },
    decreases p.len() - i,
{
    if i == p.len() {
        assert(p.take(i) =~= p);
        if extension_of(p) is Some {
            let e = extension_of(p)->0;
            assert(e + p.skip(i) =~= e);
        }
    } else {
        let q = p.drop_last();
        lemma_extension_past_plain_suffix(q, i);
        assert(q.take(i) =~= p.take(i));
        if extension_of(p.take(i)) is Some {
            let e = extension_of(p.take(i))->0;
            assert((e + q.skip(i)).push(p.last()) =~= e + p.skip(i));
        }
    }
}

/// Compare two pieces of text character by character.
fn text_equals(a: &str, b: &str) -> (r: bool)
    ensures
        r == (a@ == b@),
{
    let na = a.unicode_len();
    let nb = b.unicode_len();
    if na != nb {
        return false;
    }
    let mut i: usize = 0;
    while i < na
        invariant
            i <= na,
            na == a@.len(),
            nb == b@.len(),
            na == nb,
            forall|k: int| 0 <= k < i ==> a@[k] == b@[k],
        decreases na - i,
    {
        if a.get_char(i) != b.get_char(i) {
            return false;
        }
        i = i + 1;
    }
    proof {
        assert(a@ =~= b@);
    }
    true
}

/// The shader language named by a path's extension, if any.
pub fn shader_language(path: &str) -> (r: Option<ShaderLanguage>)
    ensures
        r == shader_language_of(path@),
{
    let n = path.unicode_len();
    let mut j = n;
    let mut stop = false;
    while j > 0 && !stop
        invariant
            j <= n,
            n == path@.len(),
            forall|k: int| j <= k < n ==> path@[k] != '.' && path@[k] != '/',
            stop ==> j >= 1 && (path@[j - 1] == '.' || path@[j - 1] == '/'),
        decreases j, (if stop { 0int } else { 1int }),
    {
        let c = path.get_char(j - 1);
        if c == '.' || c == '/' {
            stop = true;
        } else {
            j = j - 1;
        }
    }
    proof {
        lemma_extension_past_plain_suffix(path@, j as int);
    }
    if !stop {
        return None;
    }
    let c = path.get_char(j - 1);
    if c == '/' {
        return None;
    }
    if j < 2 {
        return None;
    }
    let prev = path.get_char(j - 2);
    if prev == '/' {
        return None;
    }
    let ext = path.substring_char(j, n);
    proof {
        assert(extension_of(path@.take(j as int)) == Some(Seq::<char>::empty()));
        assert(Seq::<char>::empty() + path@.skip(j as int) =~= path@.skip(j as int));
        assert(ext@ =~= path@.skip(j as int));
    }
    if text_equals(ext, "wgsl") {
        Some(ShaderLanguage::Wgsl)
    } else if text_equals(ext, "frag") {
        Some(ShaderLanguage::Glsl)
    } else {
        None
    }
}

/// The fixed text prepended to every shader of the given language before it
/// is parsed: the per-frame uniform declarations the tool provides, and for
/// GLSL the version directive and the fragment output.
pub open spec fn spec_prelude(lang: ShaderLanguage) -> Seq<char> {
    match lang {
        ShaderLanguage::Wgsl => "struct Uniforms { time: f32, resolution: vec3<f32>, mouse: vec4<f32>, frame: i32, delta_time: f32 }\n@group(0) @binding(0) var<uniform> u: Uniforms;\n"@,
        ShaderLanguage::Glsl => "#version 450\nlayout(location = 0) out vec4 fragColor;\nlayout(set = 0, binding = 0) uniform Uniforms { float time; vec3 resolution; vec4 mouse; int frame; float delta_time; };\n"@,
    }
}

/// The prelude for the given language.
pub fn prelude_for(lang: ShaderLanguage) -> (r: &'static str)
    ensures
        r@ == spec_prelude(lang),
{
    match lang {
        ShaderLanguage::Wgsl => "struct Uniforms { time: f32, resolution: vec3<f32>, mouse: vec4<f32>, frame: i32, delta_time: f32 }\n@group(0) @binding(0) var<uniform> u: Uniforms;\n",
        ShaderLanguage::Glsl => "#version 450\nlayout(location = 0) out vec4 fragColor;\nlayout(set = 0, binding = 0) uniform Uniforms { float time; vec3 resolution; vec4 mouse; int frame; float delta_time; };\n",
    }
}

/// The full text handed to the front-end: the language's prelude followed by
/// the file's content.
pub open spec fn spec_full_source(lang: ShaderLanguage, content: Seq<char>) -> Seq<char> {
    spec_prelude(lang) + content
}

/// Compose the full source for the front-end.
pub fn compose_source(lang: ShaderLanguage, content: &str) -> (r: String)
    ensures
        r@ == spec_full_source(lang, content@),
{
    let mut s = prelude_for(lang).to_owned();
    s.append(content);
    s
}

#[verifier::external_type_specification]
#[verifier::external_body]
pub struct ExNagaModule(naga::Module);

/// Whether the WGSL front-end accepts a source text.
pub uninterp spec fn wgsl_parse_ok(source: Seq<char>) -> bool;

/// Whether the GLSL front-end, set up for a fragment shader, accepts a
/// source text.
pub uninterp spec fn glsl_fragment_parse_ok(source: Seq<char>) -> bool;

/// Whether the front-end for the given language accepts a source text.
pub open spec fn spec_parse_ok(lang: ShaderLanguage, source: Seq<char>) -> bool {
    match lang {
        ShaderLanguage::Wgsl => wgsl_parse_ok(source),
        ShaderLanguage::Glsl => glsl_fragment_parse_ok(source),
    }
}

/// Relies on naga::front::wgsl::parse_str: it parses the source text into a
/// module or reports a parse error, and its outcome depends on the source
/// text alone. The error is rendered as its display message.
#[verifier::external_body]
fn parse_wgsl(source: &str) -> (r: Result<naga::Module, String>)
    ensures
        r is Ok <==> wgsl_parse_ok(source@),
{
    match naga::front::wgsl::parse_str(source) {
        Ok(m) => Ok(m),
        Err(e) => Err(format!("{e}")),
    }
}

/// Relies on naga::front::glsl::Frontend::parse, called on a fresh front-end
/// with the fixed fragment-stage options: it parses the source text into a
/// module or reports parse errors, and under those fixed options its outcome
/// depends on the source text alone. The errors are rendered as their display
/// message.
#[verifier::external_body]
fn parse_glsl_fragment(source: &str) -> (r: Result<naga::Module, String>)
    ensures
        r is Ok <==> glsl_fragment_parse_ok(source@),
{
    let options = naga::front::glsl::Options::from(naga::ShaderStage::Fragment);
    let mut frontend = naga::front::glsl::Frontend::default();
    match frontend.parse(&options, source) {
        Ok(m) => Ok(m),
        Err(e) => Err(format!("{e}")),
    }
}

/// Relies on String::from_utf8: it succeeds exactly on valid UTF-8 input and
/// decodes it. The error is rendered as its display message.
#[verifier::external_body]
fn bytes_to_string(bytes: Vec<u8>) -> (r: Result<String, String>)
    ensures
        r is Ok <==> valid_utf8(bytes@),
        r is Ok ==> r->Ok_0@ == decode_utf8(bytes@),
{
    match String::from_utf8(bytes) {
        Ok(s) => Ok(s),
        Err(e) => Err(format!("{e}")),
    }
}

/// Load a shader from the bytes read at `path`: decode them as UTF-8, pick
/// the language from the path's extension, prepend that language's prelude,
/// and hand the composed text to the front-end.
///
/// The outcome is pinned for every input: non-UTF-8 bytes give an `Encoding`
/// error; then a path naming no language gives `UnknownLanguage`; otherwise
/// the front-end decides, and its rejection is reported as the parse error of
/// the path's language.
pub fn load_shader(path: &str, bytes: Vec<u8>) -> (r: Result<naga::Module, LoadShaderError>)
    ensures
        !valid_utf8(bytes@) ==> r is Err && r->Err_0.spec_kind() == LoadShaderErrorKind::Encoding,
        valid_utf8(bytes@) && shader_language_of(path@) is None ==> r is Err
            && r->Err_0.spec_kind() == LoadShaderErrorKind::UnknownLanguage,
        valid_utf8(bytes@) && shader_language_of(path@) is Some ==> {
            let lang = shader_language_of(path@)->0;
            let source = spec_full_source(lang, decode_utf8(bytes@));
            &&& (r is Ok <==> spec_parse_ok(lang, source))
            &&& (r is Err ==> r->Err_0.spec_kind() == match lang {
                ShaderLanguage::Wgsl => LoadShaderErrorKind::ParseWgsl,
                ShaderLanguage::Glsl => LoadShaderErrorKind::ParseGlsl,
            })
        },
{
    let content = match bytes_to_string(bytes) {
        Ok(s) => s,
        Err(m) => {
            return Err(LoadShaderError::Encoding(m));
        },
    };
    let lang = match shader_language(path) {
        Some(l) => l,
        None => {
            return Err(LoadShaderError::UnknownLanguage);
        },
    };
    let source = compose_source(lang, content.as_str());
    match lang {
        ShaderLanguage::Wgsl => match parse_wgsl(source.as_str()) {
            Ok(m) => Ok(m),
            Err(e) => Err(LoadShaderError::ParseWgsl(e)),
        },
        ShaderLanguage::Glsl => match parse_glsl_fragment(source.as_str()) {
            Ok(m) => Ok(m),
            Err(e) => Err(LoadShaderError::ParseGlsl(e)),
        },
    }
}

} // verus!
