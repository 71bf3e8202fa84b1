use std::io::Write;

use test_support::archive::unpack_archive;
use test_support::archive::UnpackError;

/// Builds a gzip-compressed tar archive holding one regular file.
fn single_file_archive(name: &str, contents: &[u8]) -> Vec<u8> {
    let mut builder = tar::Builder::new(Vec::new());
    let mut header = tar::Header::new_gnu();
    header.set_size(contents.len() as u64);
    header.set_mode(0o644);
    header.set_cksum();
    builder.append_data(&mut header, name, contents).unwrap();
    let tar_bytes = builder.into_inner().unwrap();
    let mut encoder = flate2::write::GzEncoder::new(Vec::new(), flate2::Compression::default());
    encoder.write_all(&tar_bytes).unwrap();
    encoder.finish().unwrap()
}

#[test]
fn unpack_yields_the_single_entry() {
    let gz = single_file_archive("hello.txt", b"hi");
    let entries = unpack_archive(&gz).unwrap();
    assert_eq!(entries.len(), 1);
    assert_eq!(entries[0].path.as_str(), "hello.txt");
    assert_eq!(entries[0].type_byte, b'0');
    assert_eq!(entries[0].data, b"hi".to_vec());
}

#[test]
fn unpack_preserves_entry_order() {
    let mut builder = tar::Builder::new(Vec::new());
    for (name, contents) in [("a.txt", &b"first"[..]), ("b.txt", &b"second"[..])] {
        let mut header = tar::Header::new_gnu();
        header.set_size(contents.len() as u64);
        header.set_mode(0o644);
        header.set_cksum();
        builder.append_data(&mut header, name, contents).unwrap();
    }
    let tar_bytes = builder.into_inner().unwrap();
    let mut encoder = flate2::write::GzEncoder::new(Vec::new(), flate2::Compression::default());
    encoder.write_all(&tar_bytes).unwrap();
    let gz = encoder.finish().unwrap();

    let entries = unpack_archive(&gz).unwrap();
    assert_eq!(entries.len(), 2);
    assert_eq!(entries[0].path.as_str(), "a.txt");
    assert_eq!(entries[0].data, b"first".to_vec());
    assert_eq!(entries[1].path.as_str(), "b.txt");
    assert_eq!(entries[1].data, b"second".to_vec());
}

#[test]
fn bytes_that_are_not_gzip_report_the_gzip_stage() {
    let junk = b"this is not a gzip stream".to_vec();
    assert_eq!(unpack_archive(&junk), Err(UnpackError::BadGzip));
}

#[test]
fn gzip_of_a_broken_tar_reports_the_archive_stage() {
    let mut encoder = flate2::write::GzEncoder::new(Vec::new(), flate2::Compression::default());
    encoder.write_all(b"much too short for a tar header").unwrap();
    let gz = encoder.finish().unwrap();
    assert_eq!(unpack_archive(&gz), Err(UnpackError::BadArchive));
}
