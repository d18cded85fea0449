use transparent_text::font::text_texture_from_font_data;

#[test]
fn empty_font_data_is_rejected() {
    let result = text_texture_from_font_data(&[], "text", 48);
    assert!(result.is_err());
}

#[test]
fn malformed_font_data_is_rejected_with_a_message() {
    let garbage = vec![0u8; 64];
    let result = text_texture_from_font_data(&garbage, "text", 48);
    match result {
        Ok(_) => panic!("malformed font data must not parse"),
        Err(message) => assert!(!message.is_empty()),
    }
}
