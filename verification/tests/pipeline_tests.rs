use photo_catalog::extract::process_image;
use photo_catalog::record::{EnrichmentError, ExtractionError};
use photo_catalog::scan::{run_scan, scan_step, FileOutcome, ScanItem};
use photo_catalog::store::init_database;
use rusqlite::Connection;

fn stub_response() -> Result<(u16, String), EnrichmentError> {
    Ok((
        200,
        String::from("{\"response\":\"A tiny picture\\n\\nKeywords: tiny, picture\"}"),
    ))
}

// A complete one-pixel GIF image.
fn tiny_gif() -> Vec<u8> {
    vec![
        0x47, 0x49, 0x46, 0x38, 0x39, 0x61, 0x01, 0x00, 0x01, 0x00, 0x80, 0x00, 0x00, 0xFF,
        0xFF, 0xFF, 0x00, 0x00, 0x00, 0x2C, 0x00, 0x00, 0x00, 0x00, 0x01, 0x00, 0x01, 0x00,
        0x00, 0x02, 0x02, 0x44, 0x01, 0x00, 0x3B,
    ]
}

// A minimal JPEG: start marker, one APP1 segment holding a TIFF structure
// whose Exif directory has a single DateTimeOriginal entry, end marker.
fn exif_jpeg() -> Vec<u8> {
    let mut v = vec![0xFF, 0xD8, 0xFF, 0xE1, 0x00, 0x48];
    v.extend_from_slice(b"Exif\0\0");
    // TIFF header, little endian, first directory at offset 8
    v.extend_from_slice(&[0x49, 0x49, 0x2A, 0x00, 0x08, 0x00, 0x00, 0x00]);
    // primary directory: one entry pointing at the Exif directory (offset 26)
    v.extend_from_slice(&[0x01, 0x00]);
    v.extend_from_slice(&[
        0x69, 0x87, 0x04, 0x00, 0x01, 0x00, 0x00, 0x00, 0x1A, 0x00, 0x00, 0x00,
    ]);
    v.extend_from_slice(&[0x00, 0x00, 0x00, 0x00]);
    // Exif directory: one DateTimeOriginal entry, ASCII, 20 bytes at offset 44
    v.extend_from_slice(&[0x01, 0x00]);
    v.extend_from_slice(&[
        0x03, 0x90, 0x02, 0x00, 0x14, 0x00, 0x00, 0x00, 0x2C, 0x00, 0x00, 0x00,
    ]);
    v.extend_from_slice(&[0x00, 0x00, 0x00, 0x00]);
    v.extend_from_slice(b"2024:01:01 00:00:00\0");
    v.extend_from_slice(&[0xFF, 0xD9]);
    v
}

#[test]
fn extraction_reads_the_capture_date() {
    let bytes = exif_jpeg();
    let size = bytes.len() as u64;
    let metadata = process_image("pics/shot.jpg", size, &bytes, &stub_response()).unwrap();
    assert_eq!(
        metadata.creation_date,
        Some(String::from("2024-01-01 00:00:00"))
    );
    assert_eq!(metadata.format, Some(String::from("Jpeg")));
}

#[test]
fn extraction_never_fails_on_non_image_bytes() {
    let bytes = b"these bytes are no image".to_vec();
    let size = bytes.len() as u64;
    let metadata = process_image("stuff/garbage.jpg", size, &bytes, &stub_response()).unwrap();
    assert_eq!(metadata.path, "stuff/garbage.jpg");
    assert_eq!(metadata.file_name, "garbage.jpg");
    assert_eq!(metadata.file_size, size);
    assert_eq!(metadata.dimensions, None);
    assert_eq!(metadata.format, None);
    assert_eq!(metadata.creation_date, None);
    assert_eq!(metadata.description, Some(String::from("A tiny picture")));
    assert_eq!(metadata.keywords, Some(String::from("tiny, picture")));
}

#[test]
fn extraction_decodes_dimensions_and_format() {
    let bytes = tiny_gif();
    let size = bytes.len() as u64;
    let metadata = process_image("pics/dot.gif", size, &bytes, &stub_response()).unwrap();
    assert_eq!(metadata.dimensions, Some((1, 1)));
    assert_eq!(metadata.format, Some(String::from("Gif")));
    assert_eq!(metadata.creation_date, None);
}

#[test]
fn extraction_sniffs_format_independently_of_decode() {
    // JPEG start and end markers alone: sniffing sees a JPEG container, but
    // there is no decodable image in these four bytes.
    let bytes = vec![0xFF_u8, 0xD8, 0xFF, 0xD9];
    let metadata = process_image("test.jpg", 4, &bytes, &stub_response()).unwrap();
    assert_eq!(metadata.format, Some(String::from("Jpeg")));
    assert_eq!(metadata.dimensions, None);
}

#[test]
fn extraction_propagates_an_enrichment_failure() {
    let bytes = vec![1_u8, 2, 3];
    let result = process_image("a.jpg", 3, &bytes, &Err(EnrichmentError::Network));
    assert_eq!(
        result.unwrap_err(),
        ExtractionError::Enrichment(EnrichmentError::Network)
    );

    let bad = Ok((200, String::from("no json")));
    let result = process_image("a.jpg", 3, &bytes, &bad);
    assert_eq!(
        result.unwrap_err(),
        ExtractionError::Enrichment(EnrichmentError::BadResponse)
    );

    let refused = Ok((500, String::from("{\"response\":\"looks fine\"}")));
    let result = process_image("a.jpg", 3, &bytes, &refused);
    assert_eq!(
        result.unwrap_err(),
        ExtractionError::Enrichment(EnrichmentError::Status(500))
    );
}

#[test]
fn scan_step_counts_only_persisted_files() {
    let mut conn = Connection::open_in_memory().unwrap();
    init_database(&mut conn).unwrap();
    let mut processed: u64 = 0;

    let bytes = vec![0xFF_u8, 0xD8, 0xFF, 0xD9];
    let outcome = scan_step(
        &mut conn,
        &mut processed,
        "tmp/test.jpg",
        4,
        &bytes,
        &stub_response(),
    );
    assert_eq!(outcome, FileOutcome::Persisted);
    assert_eq!(processed, 1);

    let outcome = scan_step(
        &mut conn,
        &mut processed,
        "tmp/other.jpg",
        4,
        &bytes,
        &Err(EnrichmentError::Network),
    );
    assert_eq!(
        outcome,
        FileOutcome::ExtractionFailed(ExtractionError::Enrichment(EnrichmentError::Network))
    );
    assert_eq!(processed, 1);

    let rows: i64 = conn
        .query_row("SELECT COUNT(*) FROM images", [], |row| row.get(0))
        .unwrap();
    assert_eq!(rows, 1);
}

#[test]
fn scan_of_one_marker_file_persists_one_full_row() {
    let mut conn = Connection::open_in_memory().unwrap();
    init_database(&mut conn).unwrap();

    let items = vec![ScanItem {
        path: String::from("tmp/test.jpg"),
        file_size: 4,
        bytes: vec![0xFF, 0xD8, 0xFF, 0xD9],
        response: stub_response(),
    }];
    let (count, outcomes) = run_scan(&mut conn, &items);
    assert_eq!(count, 1);
    assert_eq!(outcomes, vec![FileOutcome::Persisted]);

    let total: i64 = conn
        .query_row(
            "SELECT COUNT(*) FROM images WHERE file_name = 'test.jpg'",
            [],
            |row| row.get(0),
        )
        .unwrap();
    assert_eq!(total, 1);

    let (file_name, file_size, keywords, description) = conn
        .query_row(
            "SELECT file_name, file_size, keywords, description FROM images",
            [],
            |row| {
                Ok((
                    row.get::<_, String>(0)?,
                    row.get::<_, i64>(1)?,
                    row.get::<_, Option<String>>(2)?,
                    row.get::<_, Option<String>>(3)?,
                ))
            },
        )
        .unwrap();
    assert_eq!(file_name, "test.jpg");
    assert_eq!(file_size, 4);
    assert!(keywords.is_some());
    assert!(description.is_some());
}

#[test]
fn scan_counts_match_rows_across_mixed_outcomes() {
    let mut conn = Connection::open_in_memory().unwrap();
    init_database(&mut conn).unwrap();

    let items = vec![
        ScanItem {
            path: String::from("a/one.gif"),
            file_size: 35,
            bytes: tiny_gif(),
            response: stub_response(),
        },
        ScanItem {
            path: String::from("a/two.jpg"),
            file_size: 3,
            bytes: vec![1, 2, 3],
            response: Err(EnrichmentError::Network),
        },
        ScanItem {
            path: String::from("a/three.png"),
            file_size: 5,
            bytes: b"bytes".to_vec(),
            response: stub_response(),
        },
    ];
    let (count, outcomes) = run_scan(&mut conn, &items);
    assert_eq!(count, 2);
    assert_eq!(outcomes.len(), 3);
    assert_eq!(outcomes[0], FileOutcome::Persisted);
    assert!(matches!(outcomes[1], FileOutcome::ExtractionFailed(_)));
    assert_eq!(outcomes[2], FileOutcome::Persisted);

    let rows: i64 = conn
        .query_row("SELECT COUNT(*) FROM images", [], |row| row.get(0))
        .unwrap();
    assert_eq!(rows, 2);
}
