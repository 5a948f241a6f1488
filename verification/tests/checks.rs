use tokio_browser::checks::{bytes_equal, check_shared_read, check_task_read, read_matches, read_text, str_starts_with};

#[test]
fn equal_bytes() {
    assert!(bytes_equal(b"", b""));
    assert!(bytes_equal(b"abc", b"abc"));
    assert!(!bytes_equal(b"abc", b"abd"));
    assert!(!bytes_equal(b"abc", b"ab"));
}

#[test]
fn prefixes() {
    assert!(str_starts_with("shared_content_task_1_iter_0", "shared_content_task_"));
    assert!(str_starts_with("abc", ""));
    assert!(!str_starts_with("shared", "shared_content_task_"));
    assert!(!str_starts_with("Shared_content_task_1", "shared_content_task_"));
    assert!(str_starts_with("été", "ét"));
}

#[test]
fn read_back_matches_what_was_written() {
    assert!(read_matches(b" s o m e t h i n g ", " s o m e t h i n g "));
    assert!(!read_matches(b" s o m e t h i n g", " s o m e t h i n g "));
    assert!(read_matches("ü".as_bytes(), "ü"));
}

#[test]
fn read_text_of_valid_and_invalid_bytes() {
    assert_eq!(read_text(b"world d d d d"), "world d d d d");
    assert_eq!(read_text(&[0x61, 0xff, 0x62]), "a\u{FFFD}b");
}

#[test]
fn task_read_accepts_exact_content() {
    let r = check_task_read("/stress/task_1/file_0.txt", "content_task_1_iter_0", b"content_task_1_iter_0");
    assert_eq!(r, Ok(()));
}

#[test]
fn task_read_reports_mismatch() {
    let r = check_task_read("/stress/task_1/file_0.txt", "content_task_1_iter_0", b"content_task_2_iter_0");
    assert_eq!(
        r,
        Err("Stress test mismatch in /stress/task_1/file_0.txt: expected 'content_task_1_iter_0', got 'content_task_2_iter_0'".to_string())
    );
    let r = check_task_read("p", "x", b"");
    assert_eq!(r, Err("Stress test mismatch in p: expected 'x', got ''".to_string()));
}

#[test]
fn shared_read_accepts_any_shared_write() {
    let path = "/stress/shared_file.txt";
    assert_eq!(check_shared_read(path, b"shared_content_task_7_iter_3".to_vec()), Ok(()));
    assert_eq!(check_shared_read(path, b"shared_content_task_".to_vec()), Ok(()));
}

#[test]
fn shared_read_reports_corruption() {
    let path = "/stress/shared_file.txt";
    assert_eq!(
        check_shared_read(path, b"shared_content_tas".to_vec()),
        Err("Shared file stress test corruption in /stress/shared_file.txt: got 'shared_content_tas'".to_string())
    );
    assert_eq!(
        check_shared_read(path, Vec::new()),
        Err("Shared file stress test corruption in /stress/shared_file.txt: got ''".to_string())
    );
}

#[test]
fn shared_read_reports_invalid_utf8() {
    let path = "/stress/shared_file.txt";
    let bytes = vec![b's', 0xc3, 0x28];
    let expected = format!(
        "Invalid UTF-8 read in shared test: {}",
        String::from_utf8(bytes.clone()).unwrap_err()
    );
    assert_eq!(check_shared_read(path, bytes), Err(expected));
    assert_eq!(
        check_shared_read(path, vec![0xff]),
        Err("Invalid UTF-8 read in shared test: invalid utf-8 sequence of 1 bytes from index 0".to_string())
    );
}
