use photo_catalog::record::{ImageMetadata, StoreError};
use photo_catalog::store::{init_database, save_metadata};
use rusqlite::Connection;

#[test]
fn test_init_database() {
    let mut conn = Connection::open_in_memory().unwrap();
    init_database(&mut conn).unwrap();

    // Verify table exists and has correct schema
    let mut stmt = conn.prepare("PRAGMA table_info(images)").unwrap();
    let columns: Vec<(i32, String)> = stmt
        .query_map([], |row| Ok((row.get(0)?, row.get(1)?)))
        .unwrap()
        .collect::<Result<Vec<_>, _>>()
        .unwrap();

    // Check for all expected columns
    let expected_columns = vec![
        "id",
        "path",
        "file_name",
        "file_size",
        "width",
        "height",
        "format",
        "creation_date",
        "keywords",
        "description",
    ];

    assert_eq!(columns.len(), expected_columns.len());
    for (i, col_name) in expected_columns.iter().enumerate() {
        assert_eq!(columns[i].1, *col_name);
    }
}

#[test]
fn test_save_metadata() {
    let mut conn = Connection::open_in_memory().unwrap();
    init_database(&mut conn).unwrap();

    let metadata = ImageMetadata {
        path: String::from("/test/path"),
        file_name: String::from("test.jpg"),
        file_size: 1000,
        dimensions: Some((800, 600)),
        format: Some(String::from("Jpeg")),
        creation_date: Some(String::from("2024-01-01 00:00:00")),
        keywords: Some(String::from("test, image, mock")),
        description: Some(String::from("A test image")),
    };

    save_metadata(&mut conn, &metadata).unwrap();

    // Verify the saved data
    let mut stmt = conn
        .prepare("SELECT * FROM images WHERE file_name = 'test.jpg'")
        .unwrap();
    let rows = stmt
        .query_map([], |row| {
            Ok((
                row.get::<_, String>(1)?, // path
                row.get::<_, String>(2)?, // file_name
                row.get::<_, i64>(3)?,    // file_size
                row.get::<_, i64>(4)?,    // width
                row.get::<_, i64>(5)?,    // height
                row.get::<_, String>(8)?, // keywords
                row.get::<_, String>(9)?, // description
            ))
        })
        .unwrap()
        .collect::<Result<Vec<_>, _>>()
        .unwrap();

    assert_eq!(rows.len(), 1);
    let row = &rows[0];
    assert_eq!(row.0, "/test/path");
    assert_eq!(row.1, "test.jpg");
    assert_eq!(row.2, 1000);
    assert_eq!(row.3, 800);
    assert_eq!(row.4, 600);
    assert_eq!(row.5, "test, image, mock");
    assert_eq!(row.6, "A test image");
}

#[test]
fn init_database_is_idempotent() {
    let mut conn = Connection::open_in_memory().unwrap();
    init_database(&mut conn).unwrap();

    let metadata = ImageMetadata {
        path: String::from("kept/one.png"),
        file_name: String::from("one.png"),
        file_size: 7,
        dimensions: None,
        format: None,
        creation_date: None,
        keywords: None,
        description: None,
    };
    save_metadata(&mut conn, &metadata).unwrap();

    // A second initialization against the same store must leave exactly one
    // images table with the documented columns and must not lose any row.
    init_database(&mut conn).unwrap();

    let tables: i64 = conn
        .query_row(
            "SELECT COUNT(*) FROM sqlite_master WHERE type = 'table' AND name = 'images'",
            [],
            |row| row.get(0),
        )
        .unwrap();
    assert_eq!(tables, 1);

    let names: Vec<String> = conn
        .prepare("PRAGMA table_info(images)")
        .unwrap()
        .query_map([], |row| row.get::<_, String>(1))
        .unwrap()
        .collect::<Result<Vec<_>, _>>()
        .unwrap();
    assert_eq!(
        names,
        vec![
            "id",
            "path",
            "file_name",
            "file_size",
            "width",
            "height",
            "format",
            "creation_date",
            "keywords",
            "description"
        ]
    );

    let rows: i64 = conn
        .query_row("SELECT COUNT(*) FROM images", [], |row| row.get(0))
        .unwrap();
    assert_eq!(rows, 1);
}

#[test]
fn save_metadata_without_schema_fails() {
    let mut conn = Connection::open_in_memory().unwrap();
    let metadata = ImageMetadata {
        path: String::from("p/q.jpg"),
        file_name: String::from("q.jpg"),
        file_size: 1,
        dimensions: None,
        format: None,
        creation_date: None,
        keywords: None,
        description: None,
    };
    assert_eq!(
        save_metadata(&mut conn, &metadata),
        Err(StoreError::Backend)
    );
}
