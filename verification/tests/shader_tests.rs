use shader_reload::shader::{
    compose_source, load_shader, prelude_for, shader_language, LoadShaderError,
    LoadShaderErrorKind, ShaderLanguage,
};

const GOOD_FRAG: &str = "void main() { fragColor = vec4(0); }";
const GOOD_WGSL: &str =
    "@fragment fn main() -> @location(0) vec4<f32> { return vec4<f32>(); }";

#[test]
fn language_from_extension() {
    assert_eq!(shader_language("a.wgsl"), Some(ShaderLanguage::Wgsl));
    assert_eq!(shader_language("a.frag"), Some(ShaderLanguage::Glsl));
    assert_eq!(shader_language("dir/sub/scene.frag"), Some(ShaderLanguage::Glsl));
    assert_eq!(shader_language("two.dots.wgsl"), Some(ShaderLanguage::Wgsl));
    assert_eq!(shader_language("a.txt"), None);
    assert_eq!(shader_language("noextension"), None);
    assert_eq!(shader_language(""), None);
    assert_eq!(shader_language("trailing."), None);
}

#[test]
fn hidden_files_have_no_extension() {
    assert_eq!(shader_language(".frag"), None);
    assert_eq!(shader_language("dir/.wgsl"), None);
    assert_eq!(shader_language("dir.v2/plain"), None);
}

#[test]
fn composed_source_is_prelude_then_content() {
    let s = compose_source(ShaderLanguage::Glsl, GOOD_FRAG);
    let mut expected = String::from(prelude_for(ShaderLanguage::Glsl));
    expected.push_str(GOOD_FRAG);
    assert_eq!(s, expected);
    assert!(!prelude_for(ShaderLanguage::Wgsl).is_empty());
    assert!(!prelude_for(ShaderLanguage::Glsl).is_empty());
}

#[test]
fn valid_fragment_shader_loads() {
    let r = load_shader("scene.frag", GOOD_FRAG.as_bytes().to_vec());
    assert!(r.is_ok());
}

#[test]
fn valid_wgsl_shader_loads() {
    let r = load_shader("scene.wgsl", GOOD_WGSL.as_bytes().to_vec());
    assert!(r.is_ok());
}

#[test]
fn broken_fragment_shader_is_a_glsl_parse_error() {
    let r = load_shader("broken.frag", b"void main( {".to_vec());
    match r {
        Err(e) => {
            assert_eq!(e.kind(), LoadShaderErrorKind::ParseGlsl);
            assert!(!e.message().is_empty());
        }
        Ok(_) => panic!("invalid syntax must not compile"),
    }
}

#[test]
fn broken_wgsl_shader_is_a_wgsl_parse_error() {
    let r = load_shader("broken.wgsl", b"fn main( {".to_vec());
    match r {
        Err(e) => assert_eq!(e.kind(), LoadShaderErrorKind::ParseWgsl),
        Ok(_) => panic!("invalid syntax must not compile"),
    }
}

#[test]
fn non_utf8_content_is_an_encoding_error() {
    let r = load_shader("scene.frag", vec![0xff, 0xfe, 0x00]);
    match r {
        Err(e) => assert_eq!(e.kind(), LoadShaderErrorKind::Encoding),
        Ok(_) => panic!("non-UTF-8 bytes must not load"),
    }
}

#[test]
fn unknown_extension_is_rejected() {
    let r = load_shader("scene.txt", GOOD_FRAG.as_bytes().to_vec());
    match r {
        Err(e) => {
            assert_eq!(e.kind(), LoadShaderErrorKind::UnknownLanguage);
            assert!(!e.message().is_empty());
        }
        Ok(_) => panic!("an unknown extension must not load"),
    }
}

#[test]
fn encoding_is_checked_before_the_extension() {
    // Non-UTF-8 bytes under an unknown extension: the encoding error wins,
    // as the content is decoded before the language is chosen.
    let r = load_shader("scene.txt", vec![0xff]);
    match r {
        Err(e) => assert_eq!(e.kind(), LoadShaderErrorKind::Encoding),
        Ok(_) => panic!("non-UTF-8 bytes must not load"),
    }
}

#[test]
fn error_kinds_strip_the_message() {
    assert_eq!(
        LoadShaderError::Io(String::from("file vanished")).kind(),
        LoadShaderErrorKind::Io
    );
    assert_eq!(
        LoadShaderError::Io(String::from("file vanished")).message(),
        "file vanished"
    );
    assert_eq!(LoadShaderError::UnknownLanguage.kind(), LoadShaderErrorKind::UnknownLanguage);
}
