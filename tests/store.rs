use docstore::{
    create_document, default_status, encode_app_config, encode_document_meta, parse_app_config,
    parse_document_meta, read_document, update_document, AppConfig, DecodeError, Document,
    DocumentMeta,
};

fn plan(existing: &Vec<String>, title: &str, now: i64) -> Document {
    create_document(
        existing,
        title.to_string(),
        "body text".to_string(),
        1_706_742_000_000,
        1_706_749_200_000,
        None,
        now,
    )
}

#[test]
fn default_status_is_none() {
    assert_eq!(default_status(), "none");
}

#[test]
fn create_fills_in_defaults() {
    let d = plan(&vec![], "My Plan", 100);
    assert_eq!(d.id, "My_Plan");
    assert_eq!(d.title, "My Plan");
    assert_eq!(d.content, "body text");
    assert_eq!(d.status, "none");
    assert_eq!(d.created_at, 100);
    assert_eq!(d.updated_at, 100);
}

#[test]
fn create_keeps_given_status() {
    let d = create_document(&vec![], "T".to_string(), String::new(), 1, 2, Some("done".to_string()), 3);
    assert_eq!(d.status, "done");
    assert_eq!(d.start_date, 1);
    assert_eq!(d.end_date, 2);
}

#[test]
fn same_title_twice_gets_numbered_id() {
    let first = plan(&vec![], "Plan", 1);
    assert_eq!(first.id, "Plan");
    let second = plan(&vec![first.id.clone()], "Plan", 2);
    assert_eq!(second.id, "Plan_1");
}

#[test]
fn third_document_with_taken_ids_gets_second_number() {
    let existing = vec!["Plan".to_string(), "Plan_1".to_string()];
    assert_eq!(plan(&existing, "Plan", 3).id, "Plan_2");
}

#[test]
fn created_document_reads_back() {
    let d = create_document(
        &vec![],
        "Trip \"north\" / day 1".to_string(),
        "line one\nline two".to_string(),
        -5,
        9_000_000_000_000,
        Some("in progress".to_string()),
        1_700_000_000_000,
    );
    let json = encode_document_meta(&d.meta());
    let back = read_document(d.id.clone(), d.content.clone(), &json).unwrap();
    assert_eq!(back, d);
}

#[test]
fn meta_text_is_pretty_json_in_fixed_order() {
    let m = DocumentMeta {
        title: "A \"q\"".to_string(),
        start_date: -5,
        end_date: 10,
        status: "none".to_string(),
        created_at: 1,
        updated_at: 2,
    };
    assert_eq!(
        encode_document_meta(&m),
        "{\n  \"title\": \"A \\\"q\\\"\",\n  \"startDate\": -5,\n  \"endDate\": 10,\n  \"status\": \"none\",\n  \"createdAt\": 1,\n  \"updatedAt\": 2\n}"
    );
}

#[test]
fn meta_round_trips() {
    let m = DocumentMeta {
        title: "Ünïcode\ttab".to_string(),
        start_date: i64::MIN,
        end_date: i64::MAX,
        status: "".to_string(),
        created_at: 0,
        updated_at: 1,
    };
    assert_eq!(parse_document_meta(&encode_document_meta(&m)), Ok(m));
}

#[test]
fn legacy_meta_uses_date_for_both_ends() {
    let json = r#"{"title":"Old","date":1700000000000,"status":"done","createdAt":1,"updatedAt":2}"#;
    let m = parse_document_meta(json).unwrap();
    assert_eq!(m.title, "Old");
    assert_eq!(m.start_date, 1_700_000_000_000);
    assert_eq!(m.end_date, 1_700_000_000_000);
    assert_eq!(m.status, "done");
    assert_eq!(m.created_at, 1);
    assert_eq!(m.updated_at, 2);
}

#[test]
fn legacy_meta_round_trips_in_current_shape() {
    let json = r#"{"title":"Old","date":42,"createdAt":1,"updatedAt":2}"#;
    let m = parse_document_meta(json).unwrap();
    assert_eq!(m.status, "none");
    let again = parse_document_meta(&encode_document_meta(&m)).unwrap();
    assert_eq!(again, m);
    assert!(encode_document_meta(&m).contains("\"startDate\": 42"));
}

#[test]
fn legacy_document_reads_with_single_date() {
    let json = r#"{"title":"Old","date":77,"status":"x","createdAt":1,"updatedAt":2}"#;
    let d = read_document("Old".to_string(), "c".to_string(), json).unwrap();
    assert_eq!(d.start_date, 77);
    assert_eq!(d.end_date, 77);
    assert_eq!(d.id, "Old");
    assert_eq!(d.content, "c");
}

#[test]
fn missing_status_defaults_to_none() {
    let json = r#"{"title":"T","startDate":1,"endDate":2,"createdAt":3,"updatedAt":4}"#;
    assert_eq!(parse_document_meta(json).unwrap().status, "none");
}

#[test]
fn current_shape_wins_over_legacy() {
    let json = r#"{"title":"T","startDate":1,"endDate":2,"date":9,"createdAt":3,"updatedAt":4}"#;
    let m = parse_document_meta(json).unwrap();
    assert_eq!((m.start_date, m.end_date), (1, 2));
}

#[test]
fn unreadable_meta_is_an_error() {
    assert_eq!(parse_document_meta("not json"), Err(DecodeError::Metadata));
    assert_eq!(parse_document_meta(r#"{"title":"T"}"#), Err(DecodeError::Metadata));
    assert_eq!(
        parse_document_meta(r#"{"title":"T","date":1,"status":3,"createdAt":3,"updatedAt":4}"#),
        Err(DecodeError::Metadata)
    );
    assert_eq!(
        parse_document_meta(r#"{"title":"T","startDate":1.5,"endDate":2,"createdAt":3,"updatedAt":4}"#),
        Err(DecodeError::Metadata)
    );
    assert!(read_document("x".to_string(), String::new(), "[]").is_err());
}

#[test]
fn decode_error_has_message() {
    assert_eq!(DecodeError::Metadata.message(), "Failed to parse document meta");
}

#[test]
fn update_keeps_unset_fields() {
    let d = plan(&vec![], "Plan", 10);
    let u = update_document(
        &vec![d.id.clone()],
        d.id.clone(),
        d.content.clone(),
        d.meta(),
        None,
        None,
        Some(5),
        None,
        Some("done".to_string()),
        20,
    );
    assert_eq!(u.stale_id, None);
    assert_eq!(u.document.id, "Plan");
    assert_eq!(u.document.content, "body text");
    assert_eq!(u.document.start_date, 5);
    assert_eq!(u.document.end_date, d.end_date);
    assert_eq!(u.document.status, "done");
    assert_eq!(u.document.created_at, 10);
    assert_eq!(u.document.updated_at, 20);
}

#[test]
fn retitle_moves_document() {
    let d = plan(&vec![], "Plan", 10);
    let u = update_document(
        &vec![d.id.clone()],
        d.id.clone(),
        d.content.clone(),
        d.meta(),
        Some("Roadmap".to_string()),
        None,
        None,
        None,
        None,
        20,
    );
    assert_eq!(u.document.id, "Roadmap");
    assert_eq!(u.stale_id, Some("Plan".to_string()));
    assert_eq!(u.document.title, "Roadmap");
    assert_eq!(u.document.content, d.content);
    assert_eq!(u.document.created_at, d.created_at);
    assert!(u.document.updated_at > d.updated_at);
}

#[test]
fn retitle_to_taken_id_gets_number() {
    let d = plan(&vec![], "Plan", 10);
    let existing = vec!["Plan".to_string(), "Roadmap".to_string()];
    let u = update_document(
        &existing,
        d.id.clone(),
        d.content.clone(),
        d.meta(),
        Some("Roadmap".to_string()),
        Some("new body".to_string()),
        None,
        None,
        None,
        20,
    );
    assert_eq!(u.document.id, "Roadmap_1");
    assert_eq!(u.document.content, "new body");
    assert_eq!(u.stale_id, Some("Plan".to_string()));
}

#[test]
fn retitle_with_same_base_stays_in_place() {
    let d = plan(&vec![], "My Plan", 10);
    let u = update_document(
        &vec![d.id.clone()],
        d.id.clone(),
        d.content.clone(),
        d.meta(),
        Some("My  Plan".to_string()),
        None,
        None,
        None,
        None,
        20,
    );
    assert_eq!(u.document.id, "My_Plan");
    assert_eq!(u.document.title, "My  Plan");
    assert_eq!(u.stale_id, None);
}

#[test]
fn retitle_back_to_own_numbered_id_stays_in_place() {
    let d = plan(&vec!["Plan".to_string()], "Plan", 10);
    assert_eq!(d.id, "Plan_1");
    let existing = vec!["Plan".to_string(), "Plan_1".to_string()];
    let meta = DocumentMeta { title: "Other".to_string(), ..d.meta() };
    let u = update_document(
        &existing,
        d.id.clone(),
        d.content.clone(),
        meta,
        Some("Plan".to_string()),
        None,
        None,
        None,
        None,
        20,
    );
    assert_eq!(u.document.id, "Plan_1");
    assert_eq!(u.stale_id, None);
}

#[test]
fn config_reads_folder_or_nothing() {
    assert_eq!(
        parse_app_config(r#"{"documentsFolder":"/home/me/docs"}"#),
        Ok(AppConfig { documents_folder: Some("/home/me/docs".to_string()) })
    );
    assert_eq!(parse_app_config("{}"), Ok(AppConfig { documents_folder: None }));
    assert_eq!(
        parse_app_config(r#"{"documentsFolder":null}"#),
        Ok(AppConfig { documents_folder: None })
    );
    assert_eq!(parse_app_config(r#"{"documentsFolder":3}"#), Err(DecodeError::Config));
    assert_eq!(parse_app_config("[1]"), Err(DecodeError::Config));
    assert_eq!(parse_app_config("nope"), Err(DecodeError::Config));
}

#[test]
fn config_text_round_trips() {
    let c = AppConfig { documents_folder: Some("C:\\Users\\me".to_string()) };
    let text = encode_app_config(&c);
    assert_eq!(text, "{\n  \"documentsFolder\": \"C:\\\\Users\\\\me\"\n}");
    assert_eq!(parse_app_config(&text), Ok(c));
    let none = AppConfig { documents_folder: None };
    assert_eq!(encode_app_config(&none), "{\n  \"documentsFolder\": null\n}");
    assert_eq!(parse_app_config(&encode_app_config(&none)), Ok(none));
}
