use diary::ident::{
    invalid_character, is_valid_id, page_file_name, HEAD_FILENAME, PAGES_DIR, PAGE_EXTENSION,
    TEMPORARY_FILE_TO_EDIT,
};

#[test]
fn valid_ids_pass() {
    assert_eq!(is_valid_id("2018-08-15"), Ok(()));
    assert_eq!(is_valid_id("memo"), Ok(()));
    assert_eq!(is_valid_id("null"), Ok(()));
    assert_eq!(is_valid_id("NULL "), Ok(()));
    assert_eq!(is_valid_id("日記"), Ok(()));
    assert_eq!(is_valid_id("a.b-c_d e"), Ok(()));
}

#[test]
fn the_empty_id_is_refused() {
    assert_eq!(is_valid_id(""), Err("empty id is unavaialble".to_string()));
}

#[test]
fn the_null_id_is_refused() {
    assert_eq!(is_valid_id("NULL"), Err("`NULL` is unavailable".to_string()));
}

#[test]
fn ids_with_characters_that_no_file_name_holds_are_refused() {
    let message = "invalid character (\\ / : , ; * ? \" < > |)".to_string();
    for bad in ["\\", "/", ":", ",", ";", "*", "?", "\"", "<", ">", "|"] {
        assert_eq!(is_valid_id(bad), Err(message.clone()));
        assert_eq!(is_valid_id(&format!("a{}b", bad)), Err(message.clone()));
        assert_eq!(is_valid_id(&format!("ab{}", bad)), Err(message.clone()));
    }
    assert_eq!(
        message,
        format!(
            "invalid character ({})",
            ["\\", "/", ":", ",", ";", "*", "?", "\"", "<", ">", "|"].join(" ")
        )
    );
}

#[test]
fn invalid_characters_are_the_eleven() {
    let mut count = 0;
    let mut n: u32 = 0;
    while n <= 0x10FFFF {
        if let Some(c) = char::from_u32(n) {
            if invalid_character(c) {
                count += 1;
                assert!("\\/:,;*?\"<>|".contains(c));
            }
        }
        n += 1;
    }
    assert_eq!(count, 11);
}

#[test]
fn file_names() {
    assert_eq!(page_file_name("2018-08-15"), "2018-08-15.page");
    assert_eq!(page_file_name(""), ".page");
    assert_eq!(PAGES_DIR, "pages");
    assert_eq!(PAGE_EXTENSION, "page");
    assert_eq!(HEAD_FILENAME, "HEAD");
    assert_eq!(TEMPORARY_FILE_TO_EDIT, "EDIT_PAGE");
}
