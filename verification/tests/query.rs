use rusqlite::Connection;
use zsclip::item::{ClipItem, ClipKind, DbItem};
use zsclip::query::{items_page_query, DateFilter, ItemsPageQuery, SqlValue};
use zsclip::store::{items_page_from_rows, ItemsCursor};

fn open_db() -> Connection {
    let conn = Connection::open_in_memory().unwrap();
    conn.execute_batch(
        "CREATE TABLE items(
            id INTEGER PRIMARY KEY AUTOINCREMENT,
            category INTEGER NOT NULL DEFAULT 0,
            kind TEXT NOT NULL,
            preview TEXT NOT NULL DEFAULT '',
            signature TEXT,
            text_data TEXT,
            source_app TEXT,
            file_paths TEXT,
            image_data BLOB,
            image_path TEXT,
            image_width INTEGER NOT NULL DEFAULT 0,
            image_height INTEGER NOT NULL DEFAULT 0,
            pinned INTEGER NOT NULL DEFAULT 0,
            group_id INTEGER NOT NULL DEFAULT 0,
            created_at TEXT DEFAULT CURRENT_TIMESTAMP
        );",
    )
    .unwrap();
    conn
}

fn insert_item(conn: &Connection, category: i64, kind: &str, preview: &str, group_id: i64, created_at: &str) -> i64 {
    conn.execute(
        "INSERT INTO items(category, kind, preview, signature, text_data, source_app, group_id, created_at) VALUES(?, ?, ?, ?, ?, '', ?, ?)",
        (category, kind, preview, format!("{kind}:{preview}:{created_at}"), preview, group_id, created_at),
    )
    .unwrap();
    conn.last_insert_rowid()
}

fn load_page(
    conn: &Connection,
    query: &ItemsPageQuery,
    cursor: Option<ItemsCursor>,
    limit: usize,
) -> (Vec<ClipItem>, Option<ItemsCursor>, bool) {
    let (sql, values) = items_page_query(query, cursor, limit);
    let binds: Vec<rusqlite::types::Value> = values
        .into_iter()
        .map(|v| match v {
            SqlValue::Int(n) => rusqlite::types::Value::Integer(n),
            SqlValue::Text(t) => rusqlite::types::Value::Text(t),
        })
        .collect();
    let mut stmt = conn.prepare(&sql).unwrap();
    let rows: Vec<DbItem> = stmt
        .query_map(rusqlite::params_from_iter(binds.iter()), |row| {
            Ok(DbItem {
                id: row.get(0)?,
                kind: row.get(1)?,
                preview: row.get(2)?,
                text: row.get(3)?,
                source_app: row.get(4)?,
                file_paths: row.get(5)?,
                image_path: row.get(6)?,
                image_bytes: None,
                image_width: row.get(7)?,
                image_height: row.get(8)?,
                pinned: row.get(9)?,
                group_id: row.get(10)?,
                created_at: row.get(11)?,
            })
        })
        .unwrap()
        .map(|r| r.unwrap())
        .collect();
    items_page_from_rows(rows, limit)
}

fn query(kinds: Vec<&str>, near: Option<&str>) -> ItemsPageQuery {
    ItemsPageQuery {
        category: 0,
        group_id: 0,
        kinds: kinds.into_iter().map(|k| k.to_string()).collect(),
        terms: Vec::new(),
        app_filter: None,
        date_filter: None,
        near: near.map(|n| n.to_string()),
    }
}

#[test]
fn db_load_items_page_filters_by_virtual_clip_kind() {
    let conn = open_db();
    insert_item(&conn, 0, "text", "alpha", 0, "2026-07-01 10:00:00");
    let image_id = insert_item(&conn, 0, "image", "beta image", 0, "2026-07-01 10:01:00");
    insert_item(&conn, 0, "files", "gamma file", 0, "2026-07-01 10:02:00");

    let (items, _, _) = load_page(&conn, &query(vec!["image"], None), None, 20);
    assert_eq!(items.iter().map(|item| item.id).collect::<Vec<_>>(), vec![image_id]);
    assert_eq!(items[0].kind, ClipKind::Image);
}

#[test]
fn db_load_items_page_near_query_returns_time_neighbors() {
    let conn = open_db();
    let mut ids = Vec::new();
    for index in 0..8 {
        let label = if index == 4 { "target invoice" } else { "plain row" };
        ids.push(insert_item(
            &conn,
            0,
            "text",
            &format!("{label} {index}"),
            0,
            &format!("2026-07-01 10:0{index}:00"),
        ));
    }
    let (items, _, _) = load_page(&conn, &query(Vec::new(), Some("invoice")), None, 20);
    let returned = items.iter().map(|item| item.id).collect::<Vec<_>>();
    assert_eq!(returned, ids[1..=7].iter().rev().copied().collect::<Vec<_>>());
}

#[test]
fn pages_follow_their_cursor() {
    let conn = open_db();
    let ids: Vec<i64> = (0..5).map(|i| insert_item(&conn, 0, "text", &format!("row {i}"), 0, "2026-07-01 10:00:00")).collect();
    conn.execute("UPDATE items SET pinned=1 WHERE id=?", [ids[0]]).unwrap();
    let q = query(Vec::new(), None);
    let (first, next, more) = load_page(&conn, &q, None, 2);
    assert_eq!(first.iter().map(|i| i.id).collect::<Vec<_>>(), vec![ids[0], ids[4]]);
    assert!(more);
    let (second, _, more2) = load_page(&conn, &q, next, 2);
    assert_eq!(second.iter().map(|i| i.id).collect::<Vec<_>>(), vec![ids[3], ids[2]]);
    assert!(more2);
    let (third, last, more3) = load_page(&conn, &q, Some(ItemsCursor { pinned: false, id: ids[2] }), 2);
    assert_eq!(third.iter().map(|i| i.id).collect::<Vec<_>>(), vec![ids[1]]);
    assert_eq!(last, Some(ItemsCursor { pinned: false, id: ids[1] }));
    assert!(!more3);
}

#[test]
fn terms_apps_groups_and_days_narrow_the_page() {
    let conn = open_db();
    let a = insert_item(&conn, 0, "text", "Invoice March", 2, "2026-07-01 10:00:00");
    let b = insert_item(&conn, 0, "text", "invoice april", 0, "2026-07-02 10:00:00");
    insert_item(&conn, 0, "text", "other", 0, "2026-07-02 11:00:00");
    insert_item(&conn, 1, "text", "invoice phrase", 0, "2026-07-02 12:00:00");
    conn.execute("UPDATE items SET source_app='Excel.exe' WHERE id=?", [b]).unwrap();
    let mut q = query(Vec::new(), None);
    q.terms = vec!["invoice".to_string()];
    let ids = |q: &ItemsPageQuery| load_page(&conn, q, None, 20).0.iter().map(|i| i.id).collect::<Vec<_>>();
    assert_eq!(ids(&q), vec![b, a]);
    q.group_id = 2;
    assert_eq!(ids(&q), vec![a]);
    q.group_id = 0;
    q.app_filter = Some("excel".to_string());
    assert_eq!(ids(&q), vec![b]);
    q.app_filter = None;
    q.date_filter = Some(DateFilter::Between { start: "2026-06-30".to_string(), end: "2026-07-03".to_string() });
    assert_eq!(ids(&q), vec![b, a]);
}

#[test]
fn page_queries_bind_in_placeholder_order() {
    let q = ItemsPageQuery {
        category: 3,
        group_id: 4,
        kinds: vec!["text".to_string(), "phrase".to_string()],
        terms: vec!["ab".to_string()],
        app_filter: Some("ex".to_string()),
        date_filter: Some(DateFilter::OnDate { date: "2026-07-01".to_string() }),
        near: None,
    };
    let (sql, values) = items_page_query(&q, Some(ItemsCursor { pinned: true, id: 9 }), 0);
    assert_eq!(sql.matches('?').count(), values.len());
    assert!(sql.starts_with("SELECT id, kind"));
    assert!(sql.contains(" AND group_id=? AND kind IN (?,?) AND (LOWER(preview) LIKE ?"));
    assert!(sql.ends_with(" AND (pinned < ? OR (pinned = ? AND id < ?)) ORDER BY pinned DESC, id DESC LIMIT ?"));
    let shown: Vec<String> = values
        .iter()
        .map(|v| match v {
            SqlValue::Int(n) => n.to_string(),
            SqlValue::Text(t) => t.clone(),
        })
        .collect();
    assert_eq!(
        shown,
        vec!["3", "4", "text", "phrase", "%ab%", "%ab%", "%ab%", "%ab%", "%ex%", "2026-07-01", "1", "1", "9", "2"]
    );
}
