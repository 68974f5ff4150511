use yatangaki::logs::{DbError, HttpLogRow, LogStore, RequestRecord, ResponseRecord};

fn sample_request() -> RequestRecord {
    RequestRecord {
        method: "GET".to_string(),
        authority: "example.test".to_string(),
        path: "/a".to_string(),
        query: Some("b=1".to_string()),
        headers: vec![
            ("accept".to_string(), "*/*".to_string()),
            ("x-case".to_string(), "one".to_string()),
        ],
        body: vec![104, 105],
    }
}

fn sample_response() -> ResponseRecord {
    ResponseRecord {
        status: 200,
        headers: vec![("content-type".to_string(), "text/plain".to_string())],
        body: vec![104, 105],
    }
}

#[test]
fn insert_pair_and_read_back() {
    let mut store = LogStore::open_in_memory().unwrap();
    let request = sample_request();
    let response = Some(sample_response());
    let id = store.insert_http_row(7, &request, &response).unwrap();
    assert_eq!(id, 0);

    let row = store.get_full_row(id).unwrap().unwrap();
    assert_eq!(row.metadata.packet_id, 0);
    assert_eq!(row.metadata.proxy_id, 7);
    assert_eq!(row.metadata.method, "GET");
    assert_eq!(row.metadata.authority, "example.test");
    assert_eq!(row.metadata.path, "/a");
    assert_eq!(row.metadata.query, "b=1");
    assert_eq!(row.metadata.status, Some(200));
    assert_eq!(row.request.body, vec![104, 105]);
    assert_eq!(
        row.request.headers,
        vec![
            ("accept".to_string(), "*/*".to_string()),
            ("x-case".to_string(), "one".to_string()),
        ]
    );
    let content = row.response.as_ref().unwrap();
    assert_eq!(content.body, vec![104, 105]);
    assert_eq!(
        content.headers,
        vec![("content-type".to_string(), "text/plain".to_string())]
    );
}

#[test]
fn packet_ids_are_monotonic_and_listing_is_sorted() {
    let mut store = LogStore::open_in_memory().unwrap();
    let request = sample_request();
    let id0 = store.insert_http_row(1, &request, &None).unwrap();
    let id1 = store.insert_http_row(1, &request, &None).unwrap();
    let id2 = store
        .insert_http_row(1, &request, &Some(sample_response()))
        .unwrap();
    assert_eq!((id0, id1, id2), (0, 1, 2));

    let listing = store.get_row_metadata().unwrap();
    assert_eq!(listing.len(), 3);
    for window in listing.windows(2) {
        assert!(window[0].packet_id <= window[1].packet_id);
    }
    for entry in &listing {
        assert!(entry.status.is_none());
        assert_eq!(entry.method, "GET");
    }
}

#[test]
fn every_listed_row_is_retrievable() {
    let mut store = LogStore::open_in_memory().unwrap();
    let request = sample_request();
    store.insert_http_row(1, &request, &None).unwrap();
    store
        .insert_http_row(2, &request, &Some(sample_response()))
        .unwrap();

    let listing = store.get_row_metadata().unwrap();
    assert_eq!(listing.len(), 2);
    for entry in &listing {
        let row = store.get_full_row(entry.packet_id).unwrap();
        assert!(row.is_some());
    }
}

#[test]
fn pair_without_response_reads_back_without_status() {
    let mut store = LogStore::open_in_memory().unwrap();
    let request = sample_request();
    let id = store.insert_http_row(3, &request, &None).unwrap();
    let row = store.get_full_row(id).unwrap().unwrap();
    assert!(row.metadata.status.is_none());
    assert!(row.response.is_none());
    assert!(row.response_as_str().is_none());
}

#[test]
fn missing_packet_gives_none() {
    let mut store = LogStore::open_in_memory().unwrap();
    assert!(store.get_full_row(12).unwrap().is_none());
}

#[test]
fn operations_before_selection_are_refused() {
    let mut store = LogStore::new();
    let request = sample_request();
    let inserted = store.insert_http_row(0, &request, &None);
    assert!(matches!(inserted, Err(DbError::NoDatabaseSelected)));
    assert!(matches!(
        store.get_row_metadata(),
        Err(DbError::NoDatabaseSelected)
    ));
    assert!(matches!(
        store.get_full_row(0),
        Err(DbError::NoDatabaseSelected)
    ));
}

#[test]
fn captured_body_is_byte_identical() {
    let mut store = LogStore::open_in_memory().unwrap();
    let mut request = sample_request();
    request.body = vec![0, 255, 104, 105, 200, 13, 10];
    let id = store.insert_http_row(0, &request, &None).unwrap();
    let row = store.get_full_row(id).unwrap().unwrap();
    assert_eq!(row.request.body, vec![0, 255, 104, 105, 200, 13, 10]);
}

#[test]
fn reselecting_the_same_project_keeps_rows() {
    let path = "/tmp/yatangaki_reselect_logs.db";

    let mut store = LogStore::new();
    store
        .select_project_db(rusqlite::Connection::open(path).unwrap())
        .unwrap();
    let request = sample_request();
    let id = store
        .insert_http_row(5, &request, &Some(sample_response()))
        .unwrap();

    store
        .select_project_db(rusqlite::Connection::open(path).unwrap())
        .unwrap();
    let row = store.get_full_row(id).unwrap().unwrap();
    assert_eq!(row.metadata.proxy_id, 5);
    assert_eq!(row.metadata.authority, "example.test");
    assert_eq!(row.request.body, vec![104, 105]);
    assert_eq!(row.metadata.status, Some(200));
}

#[test]
fn request_rendering_substitutes_non_ascii() {
    let row = HttpLogRow {
        metadata: yatangaki::logs::HttpLogRowMetadata {
            packet_id: 0,
            proxy_id: 0,
            method: "POST".to_string(),
            authority: "example.test".to_string(),
            path: "/up".to_string(),
            query: String::new(),
            status: Some(204),
        },
        request: yatangaki::logs::HttpPacketContent {
            body: vec![104, 105, 200, 33],
            headers: vec![("accept".to_string(), "*/*".to_string())],
        },
        response: Some(yatangaki::logs::HttpPacketContent {
            body: vec![255],
            headers: vec![("server".to_string(), "t".to_string())],
        }),
    };
    assert_eq!(
        row.request_as_str(),
        "POST /up HTTP/1.1\naccept: */*\n\nhi.!"
    );
    assert_eq!(
        row.response_as_str().unwrap(),
        "HTTP/1.1 204\nserver: t\n\n."
    );
}

#[test]
fn a_connection_inside_a_transaction_is_refused() {
    let conn = rusqlite::Connection::open_in_memory().unwrap();
    conn.execute_batch("BEGIN").unwrap();
    let mut store = LogStore::new();
    let refused = store.select_project_db(conn);
    assert!(matches!(refused, Err(DbError::UnusableConnection)));
}

#[test]
fn rows_with_negative_ids_are_out_of_range() {
    let conn = rusqlite::Connection::open_in_memory().unwrap();
    conn.execute_batch(
        "CREATE TABLE requests (packet_id INTEGER UNIQUE NOT NULL, proxy_id INTEGER NOT NULL, method TEXT NOT NULL, authority TEXT NOT NULL, path TEXT NOT NULL, query TEXT, body BLOB);
         INSERT INTO requests (packet_id, proxy_id, method, authority, path, query, body) VALUES (-5, 0, 'GET', 'a.test', '/', NULL, NULL);",
    )
    .unwrap();
    let mut store = LogStore::new();
    store.select_project_db(conn).unwrap();
    assert!(matches!(store.get_row_metadata(), Err(DbError::OutOfRange)));
}

#[test]
fn allocation_continues_above_existing_ids() {
    let conn = rusqlite::Connection::open_in_memory().unwrap();
    conn.execute_batch(
        "CREATE TABLE requests (packet_id INTEGER UNIQUE NOT NULL, proxy_id INTEGER NOT NULL, method TEXT NOT NULL, authority TEXT NOT NULL, path TEXT NOT NULL, query TEXT, body BLOB);
         INSERT INTO requests (packet_id, proxy_id, method, authority, path, query, body) VALUES (41, 0, 'GET', 'a.test', '/', NULL, NULL);",
    )
    .unwrap();
    let mut store = LogStore::new();
    store.select_project_db(conn).unwrap();
    let id = store.insert_http_row(0, &sample_request(), &None).unwrap();
    assert_eq!(id, 42);
}
