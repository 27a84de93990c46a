use stardust_openxr::error::XrError;
use stardust_openxr::text::push_decimal;
use stardust_openxr::text::push_signed_decimal;
use stardust_openxr::text::same_text;
use stardust_openxr::text::write_padded;
use stardust_openxr::util::copy_str_to_buffer;
use stardust_openxr::util::graphics_binding;
use stardust_openxr::util::has_graphics_binding;
use stardust_openxr::util::read_text;
use stardust_openxr::util::str_from_const_char;

#[test]
fn decimal_of_small_and_large_numbers() {
    for (n, expected) in [(0u64, "0"), (9, "9"), (10, "10"), (101, "101"), (u64::MAX, "18446744073709551615")] {
        let mut out = String::from("n=");
        push_decimal(&mut out, n);
        assert_eq!(out, format!("n={}", expected));
    }
}

#[test]
fn signed_decimal_matches_display() {
    for n in [0i32, 1, -1, 42, -42, 1000, -1000, i32::MAX, i32::MIN] {
        let mut out = String::new();
        push_signed_decimal(&mut out, n);
        assert_eq!(out, format!("{}", n));
    }
}

#[test]
fn same_text_compares_contents() {
    assert!(same_text("", ""));
    assert!(same_text("xrCreateInstance", "xrCreateInstance"));
    assert!(!same_text("xrCreateInstance", "xrCreateInstanc"));
    assert!(!same_text("xrCreateInstance", "xrCreateInstancf"));
    assert!(!same_text("a", "b"));
    assert!(same_text("ß→∞", "ß→∞"));
}

#[test]
fn write_padded_pads_with_zeros() {
    let mut buffer = [5i8; 6];
    write_padded(&mut buffer[..], b"abc");
    assert_eq!(buffer, [97, 98, 99, 0, 0, 0]);
}

#[test]
fn write_padded_cuts_at_the_buffer() {
    let mut buffer = [5i8; 2];
    write_padded(&mut buffer[..], b"abc");
    assert_eq!(buffer, [97, 98]);
}

#[test]
fn write_padded_keeps_the_bits_of_high_bytes() {
    let mut buffer = [5i8; 4];
    write_padded(&mut buffer[..], &[0x7f, 0x80, 0xff]);
    assert_eq!(buffer, [127, -128, -1, 0]);
}

#[test]
fn copy_str_writes_text_and_terminator() {
    let mut buffer = [5i8; 8];
    copy_str_to_buffer("abc", &mut buffer[..]);
    assert_eq!(buffer, [97, 98, 99, 0, 5, 5, 5, 5]);
}

#[test]
fn copy_str_of_empty_text_writes_terminator() {
    let mut buffer = [5i8; 2];
    copy_str_to_buffer("", &mut buffer[..]);
    assert_eq!(buffer, [0, 5]);
}

#[test]
fn copy_str_fills_a_buffer_exactly() {
    let mut buffer = [5i8; 3];
    copy_str_to_buffer("é", &mut buffer[..]);
    assert_eq!(buffer, [-61, -87, 0]);
}

#[test]
fn missing_string_is_a_validation_failure() {
    assert_eq!(str_from_const_char(None), Err(XrError::ValidationFailure));
}

#[test]
fn invalid_utf8_is_a_validation_failure() {
    assert_eq!(str_from_const_char(Some(&[0xff, 0xfe][..])), Err(XrError::ValidationFailure));
    assert_eq!(str_from_const_char(Some(&[0xc3][..])), Err(XrError::ValidationFailure));
}

#[test]
fn valid_utf8_is_read_as_text() {
    assert_eq!(str_from_const_char(Some(&b"Foo"[..])), Ok("Foo"));
    assert_eq!(str_from_const_char(Some(&b""[..])), Ok(""));
    assert_eq!(str_from_const_char(Some("grüß".as_bytes())), Ok("grüß"));
}

#[test]
fn graphics_bindings_are_recognised() {
    let bindings = [
        openxr_sys::StructureType::GRAPHICS_BINDING_OPENGL_WIN32_KHR,
        openxr_sys::StructureType::GRAPHICS_BINDING_OPENGL_XLIB_KHR,
        openxr_sys::StructureType::GRAPHICS_BINDING_OPENGL_XCB_KHR,
        openxr_sys::StructureType::GRAPHICS_BINDING_OPENGL_WAYLAND_KHR,
        openxr_sys::StructureType::GRAPHICS_BINDING_OPENGL_ES_ANDROID_KHR,
        openxr_sys::StructureType::GRAPHICS_BINDING_VULKAN_KHR,
        openxr_sys::StructureType::GRAPHICS_BINDING_D3D11_KHR,
        openxr_sys::StructureType::GRAPHICS_BINDING_D3D12_KHR,
        openxr_sys::StructureType::GRAPHICS_BINDING_METAL_KHR,
        openxr_sys::StructureType::GRAPHICS_BINDING_EGL_MNDX,
    ];
    for binding in bindings {
        assert!(graphics_binding(binding.into_raw()));
    }
    assert!(!graphics_binding(openxr_sys::StructureType::SESSION_CREATE_INFO.into_raw()));
    assert!(!graphics_binding(0));
}

#[test]
fn chain_is_searched_for_a_binding() {
    assert!(!has_graphics_binding(&[]));
    assert!(!has_graphics_binding(&[8]));
    assert!(has_graphics_binding(&[8, 1000025000]));
    assert!(has_graphics_binding(&[1000023001, 8]));
    assert!(has_graphics_binding(&[8, 1000029000]));
    assert!(!has_graphics_binding(&[8, 9, 10]));
}

#[test]
fn kept_argument_is_read_like_a_fresh_one() {
    assert_eq!(read_text(&None), Err(XrError::ValidationFailure));
    assert_eq!(read_text(&Some(vec![0xe2, 0x82])), Err(XrError::ValidationFailure));
    assert_eq!(read_text(&Some(vec![0xe2, 0x82, 0xac])), Ok("€"));
    assert_eq!(read_text(&Some(Vec::new())), Ok(""));
}

#[test]
fn surrogates_and_overlong_forms_are_not_text() {
    assert_eq!(str_from_const_char(Some(&[0xed, 0xa0, 0x80][..])), Err(XrError::ValidationFailure));
    assert_eq!(str_from_const_char(Some(&[0xc0, 0xaf][..])), Err(XrError::ValidationFailure));
    assert_eq!(
        str_from_const_char(Some(&[0xf4, 0x90, 0x80, 0x80][..])),
        Err(XrError::ValidationFailure)
    );
    assert_eq!(str_from_const_char(Some(&[0xf4, 0x8f, 0xbf, 0xbf][..])), Ok("\u{10ffff}"));
}
