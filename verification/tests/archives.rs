use std::io::Read;

use task_service::archive::{
    begin_archive, create_zip_with_password, finish_archive, names_fit, write_entries,
    BuildErrorKind, FileInfo, ENTRY_PERMISSIONS, MAX_NAME_BYTES,
};
use task_service::ident::{generate_random_password, PASSWORD_LENGTH};

fn file(name: &str, content: &[u8]) -> FileInfo {
    FileInfo { filename: name.to_string(), content: content.to_vec() }
}

fn read_back(bytes: Vec<u8>, password: &str) -> Vec<(String, Vec<u8>)> {
    let mut archive = zip::ZipArchive::new(std::io::Cursor::new(bytes)).unwrap();
    let mut out = Vec::new();
    for i in 0..archive.len() {
        let mut entry = archive.by_index_decrypt(i, password.as_bytes()).unwrap();
        let mut content = Vec::new();
        entry.read_to_end(&mut content).unwrap();
        out.push((entry.name().to_string(), content));
    }
    out
}

#[test]
fn archive_holds_the_entries_in_input_order() {
    let files = vec![
        file("z-last-by-name.txt", b"first in"),
        file("a.txt", b"hello"),
        file("dir/b.bin", &[0, 1, 2, 255]),
    ];
    let bytes = create_zip_with_password(files, "secret").unwrap();
    assert_eq!(
        read_back(bytes, "secret"),
        vec![
            ("z-last-by-name.txt".to_string(), b"first in".to_vec()),
            ("a.txt".to_string(), b"hello".to_vec()),
            ("dir/b.bin".to_string(), vec![0, 1, 2, 255]),
        ]
    );
}

#[test]
fn empty_and_large_contents_survive() {
    let big: Vec<u8> = (0..200_000u32).map(|i| (i % 251) as u8).collect();
    let files = vec![file("empty", b""), file("big", &big)];
    let bytes = create_zip_with_password(files, "pw").unwrap();
    let back = read_back(bytes, "pw");
    assert_eq!(back.len(), 2);
    assert_eq!(back[0], ("empty".to_string(), Vec::new()));
    assert_eq!(back[1].0, "big");
    assert_eq!(back[1].1, big);
}

#[test]
fn entries_are_encrypted_and_deflated() {
    let content = vec![b'x'; 10_000];
    let bytes = create_zip_with_password(vec![file("x.txt", &content)], "pw").unwrap();
    // deflate shrinks a run of one letter far below its length
    assert!(bytes.len() < 2_000);
    let mut archive = zip::ZipArchive::new(std::io::Cursor::new(bytes)).unwrap();
    assert!(archive.by_index(0).is_err());
    assert!(archive.by_index_decrypt(0, b"wrong").is_err());
    let entry = archive.by_index_decrypt(0, b"pw").unwrap();
    assert!(entry.encrypted());
    assert_eq!(entry.unix_mode().map(|m| m & 0o777), Some(ENTRY_PERMISSIONS));
    assert_eq!(ENTRY_PERMISSIONS, 0o755);
}

#[test]
fn no_files_make_an_empty_archive() {
    let bytes = create_zip_with_password(Vec::new(), "pw").unwrap();
    assert!(!bytes.is_empty());
    let archive = zip::ZipArchive::new(std::io::Cursor::new(bytes)).unwrap();
    assert_eq!(archive.len(), 0);
}

#[test]
fn repeated_name_fails_the_build() {
    let files = vec![file("a.txt", b"1"), file("b.txt", b"2"), file("a.txt", b"3")];
    let err = create_zip_with_password(files, "pw").unwrap_err();
    assert_eq!(err.kind, BuildErrorKind::InvalidArchive);
    assert!(err.detail.contains("Duplicate filename"));
}

#[test]
fn same_input_builds_different_bytes_with_the_same_content() {
    let a = create_zip_with_password(vec![file("a", b"same")], "pw").unwrap();
    let b = create_zip_with_password(vec![file("a", b"same")], "pw").unwrap();
    assert_ne!(a, b);
    assert_eq!(read_back(a, "pw"), read_back(b, "pw"));
}

#[test]
fn password_is_twenty_letters_and_digits() {
    assert_eq!(PASSWORD_LENGTH, 20);
    let p = generate_random_password();
    assert_eq!(p.chars().count(), 20);
    assert!(p.chars().all(|c| c.is_ascii_alphanumeric()));
    assert_ne!(p, generate_random_password());
}

#[test]
fn generated_password_opens_the_archive() {
    let p = generate_random_password();
    let bytes = create_zip_with_password(vec![file("k", b"v")], &p).unwrap();
    assert_eq!(read_back(bytes, &p), vec![("k".to_string(), b"v".to_vec())]);
}

#[test]
fn entries_can_be_written_in_batches() {
    let w = begin_archive();
    let w = write_entries(w, &vec![file("a", b"1"), file("b", b"2")], "pw").unwrap();
    let w = write_entries(w, &Vec::new(), "pw").unwrap();
    let w = write_entries(w, &vec![file("c", b"3")], "pw").unwrap();
    let bytes = finish_archive(w).unwrap();
    assert_eq!(
        read_back(bytes, "pw"),
        vec![
            ("a".to_string(), b"1".to_vec()),
            ("b".to_string(), b"2".to_vec()),
            ("c".to_string(), b"3".to_vec()),
        ]
    );
}

#[test]
fn a_name_from_an_earlier_batch_is_refused() {
    let w = begin_archive();
    let w = write_entries(w, &vec![file("a", b"1")], "pw").unwrap();
    match write_entries(w, &vec![file("b", b"2"), file("a", b"3")], "pw") {
        Err(err) => assert_eq!(err.kind, BuildErrorKind::InvalidArchive),
        Ok(_) => panic!("a repeated name was accepted"),
    }
}

#[test]
fn an_untouched_writer_finishes_to_an_empty_archive() {
    let bytes = finish_archive(begin_archive()).unwrap();
    let archive = zip::ZipArchive::new(std::io::Cursor::new(bytes)).unwrap();
    assert_eq!(archive.len(), 0);
}

#[test]
fn name_of_65536_bytes_is_refused() {
    let long = "n".repeat(65536);
    let files = vec![file("ok", b"1"), file(&long, b"2")];
    assert!(!names_fit(&files));
    let err = create_zip_with_password(files, "pw").unwrap_err();
    assert_eq!(err.kind, BuildErrorKind::NameTooLong);
    assert_eq!(err.detail, "File name exceeds 65535 bytes");
}

#[test]
fn name_of_65535_bytes_is_taken() {
    assert_eq!(MAX_NAME_BYTES, 65535);
    let longest = "n".repeat(65535);
    let files = vec![file(&longest, b"content")];
    assert!(names_fit(&files));
    let bytes = create_zip_with_password(files, "pw").unwrap();
    assert_eq!(read_back(bytes, "pw"), vec![(longest, b"content".to_vec())]);
}

#[test]
fn name_length_counts_bytes_not_characters() {
    // each of these letters takes two bytes
    let fits = "\u{e9}".repeat(32767);
    let too_long = "\u{e9}".repeat(32768);
    assert!(names_fit(&vec![file(&fits, b"")]));
    assert!(!names_fit(&vec![file(&too_long, b"")]));
    assert!(names_fit(&Vec::new()));
    match write_entries(begin_archive(), &vec![file(&too_long, b"x")], "pw") {
        Err(err) => assert_eq!(err.kind, BuildErrorKind::NameTooLong),
        Ok(_) => panic!("a name that is too long was accepted"),
    }
}

#[test]
fn long_name_is_found_before_anything_is_written() {
    let long = "n".repeat(70000);
    let w = begin_archive();
    let w = write_entries(w, &vec![file("kept", b"1")], "pw").unwrap();
    assert!(write_entries(begin_archive(), &vec![file("a", b"1"), file(&long, b"2")], "pw")
        .is_err());
    let bytes = finish_archive(w).unwrap();
    assert_eq!(read_back(bytes, "pw"), vec![("kept".to_string(), b"1".to_vec())]);
}
