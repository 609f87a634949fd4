use millennium_run::shader::ShaderDecoder;

#[test]
fn valid_shader_text_is_kept() {
    let src = "@vertex fn vs_main() {}";
    assert_eq!(ShaderDecoder::decode(src.as_bytes()), src);
    assert_eq!(ShaderDecoder::decode("한국어".as_bytes()), "한국어");
    assert_eq!(ShaderDecoder::decode(&[]), "");
}

#[test]
fn invalid_bytes_are_replaced() {
    assert_eq!(ShaderDecoder::decode(&[b'a', 0xff, b'b']), "a\u{FFFD}b");
}
