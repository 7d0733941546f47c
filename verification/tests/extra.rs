use x86_decode::decode::decode;
use x86_decode::model::DecodeError;
use x86_decode::render::render;

fn shown(data: &[u8]) -> String {
    let inst = decode(data).expect("decode failed");
    render(&inst)
}

#[test]
fn same_bytes_same_result() {
    let bytes = [0x48u8, 0x89, 0x44, 0x24, 0x08];
    let a = decode(&bytes).expect("decode failed");
    let b = decode(&bytes).expect("decode failed");
    assert_eq!(a, b);
    assert_eq!(render(&a), render(&b));
}

#[test]
fn trailing_bytes_do_not_change_result() {
    let short = [0x48u8, 0x89, 0x43, 0x18];
    let long = [0x48u8, 0x89, 0x43, 0x18, 0x90, 0xcc, 0xff, 0x00];
    let a = decode(&short).expect("decode failed");
    let b = decode(&long).expect("decode failed");
    assert_eq!(a, b);
    assert_eq!(a.length, 4);
    assert_eq!(render(&b), "mov [rbx + 0x18], rax");
}

#[test]
fn consumed_length_is_reported() {
    assert_eq!(decode(&[0xc3]).unwrap().length, 1);
    assert_eq!(decode(&[0x41, 0x5e]).unwrap().length, 2);
    assert_eq!(decode(&[0x81, 0xec, 0x10, 0x03, 0x00, 0x00]).unwrap().length, 6);
    assert_eq!(decode(&[0x62, 0xf2, 0x7d, 0x48, 0x2a, 0x44, 0x40, 0x01]).unwrap().length, 8);
}

#[test]
fn truncated_windows_fail() {
    assert_eq!(decode(&[]), Err(DecodeError::Truncated));
    assert_eq!(decode(&[0x66]), Err(DecodeError::Truncated));
    assert_eq!(decode(&[0x0f]), Err(DecodeError::Truncated));
    assert_eq!(decode(&[0x0f, 0x6e]), Err(DecodeError::Truncated));
    assert_eq!(decode(&[0x81, 0xec, 0x10, 0x03]), Err(DecodeError::Truncated));
    assert_eq!(decode(&[0xff, 0x75]), Err(DecodeError::Truncated));
    assert_eq!(decode(&[0x62, 0xf2, 0x7d]), Err(DecodeError::Truncated));
}

#[test]
fn prefixes_beyond_the_window_fail() {
    let mut bytes = vec![0x66u8; 16];
    bytes.push(0x90);
    assert_eq!(decode(&bytes), Err(DecodeError::Truncated));
}

#[test]
fn vex_prefixes_are_unsupported() {
    assert_eq!(decode(&[0xc5, 0xf8, 0x10, 0x00]), Err(DecodeError::Unsupported));
    assert_eq!(decode(&[0xc4, 0xe2, 0x79, 0x18, 0x00]), Err(DecodeError::Unsupported));
}

#[test]
fn unassigned_opcodes_render_invalid() {
    assert_eq!(shown(&[0x06]), "invalid");
    assert_eq!(decode(&[0x06]).unwrap().length, 1);
    assert_eq!(shown(&[0x0f, 0xff]), "invalid");
    assert_eq!(shown(&[0x0f, 0x71, 0xc8, 0x7f]), "invalid");
}

#[test]
fn movd_forms_decode_with_their_modrm() {
    assert_eq!(shown(&[0x0f, 0x6e, 0x00]), "movd mm0, dword [rax]");
    assert_eq!(shown(&[0x0f, 0x6f, 0x00]), "movd mm0, qword [rax]");
}

#[test]
fn unpack_forms_follow_the_reg_field() {
    assert_eq!(shown(&[0x0f, 0x14, 0x08]), "unpcklps xmm1, xmmword [rax]");
    assert_eq!(shown(&[0x0f, 0x15, 0x08]), "unpckhps xmm1, xmmword [rax]");
    assert_eq!(shown(&[0x0f, 0x14, 0x00]), "unpcklps xmm0, xmmword [rax]");
}

#[test]
fn rex_without_extension_bits_keeps_registers() {
    assert_eq!(shown(&[0x40, 0x0f, 0x22, 0xc8]), shown(&[0x0f, 0x22, 0xc8]));
    assert_eq!(shown(&[0x0f, 0x22, 0xc8]), "mov cr1, rax");
}

#[test]
fn group_one_covers_all_extensions() {
    assert_eq!(shown(&[0x81, 0xc1, 0x10, 0x00, 0x00, 0x00]), "add ecx, 0x10");
    assert_eq!(shown(&[0x81, 0xc9, 0x10, 0x00, 0x00, 0x00]), "or ecx, 0x10");
    assert_eq!(shown(&[0x81, 0xd1, 0x10, 0x00, 0x00, 0x00]), "adc ecx, 0x10");
    assert_eq!(shown(&[0x81, 0xd9, 0x10, 0x00, 0x00, 0x00]), "sbb ecx, 0x10");
    assert_eq!(shown(&[0x81, 0xe1, 0x10, 0x00, 0x00, 0x00]), "and ecx, 0x10");
    assert_eq!(shown(&[0x81, 0xf1, 0x10, 0x00, 0x00, 0x00]), "xor ecx, 0x10");
    assert_eq!(shown(&[0x81, 0xf9, 0x10, 0x00, 0x00, 0x00]), "cmp ecx, 0x10");
}

#[test]
fn rip_relative_negative_displacement() {
    assert_eq!(shown(&[0xff, 0x15, 0xf0, 0xff, 0xff, 0xff]), "call [rip - 0x10]");
}

#[test]
fn a_second_segment_override_replaces_the_first() {
    assert_eq!(shown(&[0x2e, 0x65, 0x48, 0x8b, 0x04, 0x25, 0x08, 0x00, 0x00, 0x00]), "mov rax, gs:[0x8]");
}

#[test]
fn rex_voided_by_later_legacy_prefix() {
    assert_eq!(shown(&[0x4f, 0x66, 0x0f, 0x28, 0x00]), "movapd xmm0, xmmword [rax]");
    assert_eq!(shown(&[0x66, 0x4f, 0x0f, 0x28, 0x00]), "movapd xmm8, xmmword [r8]");
}

#[test]
fn evex_ymm_length_selects_ymm_registers() {
    assert_eq!(shown(&[0x62, 0xf2, 0x7d, 0x28, 0x2a, 0x44, 0x40, 0x01]), "vmovntdqa ymm0, ymmword [rax + rax*2 + 0x20]");
}
