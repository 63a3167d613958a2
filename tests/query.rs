use docstore::{
    get_document_summaries_for_month, get_documents_for_month, matches_folded, month_bounds,
    overlaps, search_document_summaries, search_documents, sort_documents, sort_summaries,
    Document, DocumentSummary,
};

const JAN_1_2024: i64 = 1_704_067_200_000;
const FEB_1_2024: i64 = 1_706_745_600_000;
const MAR_1_2024: i64 = 1_709_251_200_000;
const HOUR: i64 = 3_600_000;

fn doc(id: &str, title: &str, content: &str, start: i64, end: i64, updated: i64) -> Document {
    Document {
        id: id.to_string(),
        title: title.to_string(),
        content: content.to_string(),
        start_date: start,
        end_date: end,
        status: "none".to_string(),
        created_at: 0,
        updated_at: updated,
    }
}

fn ids(docs: &[Document]) -> Vec<String> {
    docs.iter().map(|d| d.id.clone()).collect()
}

#[test]
fn month_bounds_of_january() {
    assert_eq!(month_bounds(2024, 1), (JAN_1_2024, FEB_1_2024 - 1000));
}

#[test]
fn month_bounds_of_leap_february() {
    assert_eq!(month_bounds(2024, 2), (FEB_1_2024, MAR_1_2024 - 1000));
    let (start, end) = month_bounds(2023, 2);
    assert_eq!(end - start + 1000, 28 * 24 * HOUR);
}

#[test]
fn month_bounds_of_december_roll_into_next_year() {
    let (start, end) = month_bounds(2023, 12);
    assert_eq!(end + 1000, JAN_1_2024);
    assert_eq!(JAN_1_2024 - start, 31 * 24 * HOUR);
}

#[test]
fn month_bounds_of_invalid_month() {
    assert_eq!(month_bounds(2024, 0), (0, i64::MAX));
    assert_eq!(month_bounds(2024, 13), (0, i64::MAX));
}

#[test]
fn overlap_is_inclusive() {
    let b = month_bounds(2024, 2);
    assert!(overlaps(FEB_1_2024 - 5, FEB_1_2024, b));
    assert!(overlaps(MAR_1_2024 - 1000, MAR_1_2024, b));
    assert!(!overlaps(MAR_1_2024 - 999, MAR_1_2024, b));
    assert!(!overlaps(0, FEB_1_2024 - 1, b));
}

#[test]
fn document_across_month_boundary_is_in_both_months() {
    let d = doc("a", "Overnight", "", FEB_1_2024 - HOUR, FEB_1_2024 + HOUR, 1);
    let all = vec![d];
    assert_eq!(ids(&get_documents_for_month(&all, 2024, 1)), vec!["a"]);
    assert_eq!(ids(&get_documents_for_month(&all, 2024, 2)), vec!["a"]);
    assert!(get_documents_for_month(&all, 2024, 3).is_empty());
    assert!(get_documents_for_month(&all, 2023, 12).is_empty());
}

#[test]
fn long_range_meets_every_month_inside() {
    let d = doc("a", "Year", "", JAN_1_2024 - HOUR, MAR_1_2024 + HOUR, 1);
    let all = vec![d];
    assert_eq!(ids(&get_documents_for_month(&all, 2024, 2)), vec!["a"]);
}

#[test]
fn month_filter_keeps_order() {
    let all = vec![
        doc("c", "", "", FEB_1_2024, FEB_1_2024, 3),
        doc("x", "", "", MAR_1_2024, MAR_1_2024, 2),
        doc("b", "", "", FEB_1_2024 + HOUR, FEB_1_2024 + HOUR, 1),
    ];
    assert_eq!(ids(&get_documents_for_month(&all, 2024, 2)), vec!["c", "b"]);
    let sums: Vec<DocumentSummary> = all.iter().map(|d| d.summary()).collect();
    let feb: Vec<String> =
        get_document_summaries_for_month(&sums, 2024, 2).iter().map(|s| s.id.clone()).collect();
    assert_eq!(feb, vec!["c", "b"]);
}

#[test]
fn sort_puts_newest_first() {
    let all = vec![
        doc("old", "", "", 0, 0, 1),
        doc("new", "", "", 0, 0, 30),
        doc("mid", "", "", 0, 0, 20),
    ];
    assert_eq!(ids(&sort_documents(&all)), vec!["new", "mid", "old"]);
    let sums: Vec<DocumentSummary> = all.iter().map(|d| d.summary()).collect();
    let sorted: Vec<String> = sort_summaries(&sums).iter().map(|s| s.id.clone()).collect();
    assert_eq!(sorted, vec!["new", "mid", "old"]);
}

#[test]
fn sort_keeps_every_document() {
    let all = vec![
        doc("a", "", "", 0, 0, 5),
        doc("b", "", "", 0, 0, 5),
        doc("c", "", "", 0, 0, 9),
    ];
    let sorted = sort_documents(&all);
    assert_eq!(sorted.len(), 3);
    assert_eq!(sorted[0].id, "c");
    let mut rest = ids(&sorted[1..]);
    rest.sort();
    assert_eq!(rest, vec!["a", "b"]);
}

#[test]
fn sort_of_nothing_is_nothing() {
    assert!(sort_documents(&vec![]).is_empty());
}

#[test]
fn search_ignores_case() {
    let all = vec![doc("p", "My Plan", "", 0, 0, 1), doc("q", "Other", "", 0, 0, 1)];
    assert_eq!(ids(&search_documents(&all, "plan")), vec!["p"]);
    assert_eq!(ids(&search_documents(&all, "PLAN")), vec!["p"]);
    let sums: Vec<DocumentSummary> = all.iter().map(|d| d.summary()).collect();
    let found: Vec<String> =
        search_document_summaries(&sums, "plan").iter().map(|s| s.id.clone()).collect();
    assert_eq!(found, vec!["p"]);
}

#[test]
fn search_looks_in_content_for_documents_only() {
    let all = vec![doc("p", "Notes", "Quarterly PLANNING", 0, 0, 1)];
    assert_eq!(ids(&search_documents(&all, "planning")), vec!["p"]);
    let sums: Vec<DocumentSummary> = all.iter().map(|d| d.summary()).collect();
    assert!(search_document_summaries(&sums, "planning").is_empty());
}

#[test]
fn empty_query_matches_everything() {
    let all = vec![doc("a", "A", "", 0, 0, 1), doc("b", "", "", 0, 0, 1)];
    assert_eq!(ids(&search_documents(&all, "")), vec!["a", "b"]);
}

#[test]
fn no_match_gives_nothing() {
    let all = vec![doc("a", "Alpha", "beta", 0, 0, 1)];
    assert!(search_documents(&all, "gamma").is_empty());
}

#[test]
fn folded_match_is_plain_substring() {
    assert!(matches_folded("an", "my plan"));
    assert!(matches_folded("", ""));
    assert!(!matches_folded("Plan", "my plan"));
    assert!(!matches_folded("long needle", "short"));
}

fn meta_json(title: &str, updated: i64) -> String {
    format!(
        "{{\"title\":\"{}\",\"startDate\":1,\"endDate\":2,\"createdAt\":0,\"updatedAt\":{}}}",
        title, updated
    )
}

#[test]
fn listing_skips_unreadable_and_sorts() {
    let entries = vec![
        ("a".to_string(), "body a".to_string(), meta_json("A", 5)),
        ("bad".to_string(), "x".to_string(), "{ broken".to_string()),
        ("b".to_string(), "body b".to_string(), meta_json("B", 9)),
    ];
    let docs = docstore::get_all_documents(&entries);
    assert_eq!(ids(&docs), vec!["b", "a"]);
    assert_eq!(docs[1].content, "body a");
    assert_eq!(docs[1].title, "A");
}

#[test]
fn summary_listing_skips_unreadable_and_sorts() {
    let entries = vec![
        ("a".to_string(), meta_json("A", 5)),
        ("b".to_string(), meta_json("B", 9)),
        ("bad".to_string(), "[]".to_string()),
        (
            "old".to_string(),
            r#"{"title":"Old","date":3,"createdAt":0,"updatedAt":7}"#.to_string(),
        ),
    ];
    let sums = docstore::get_all_document_summaries(&entries);
    let got: Vec<(String, i64, i64)> =
        sums.iter().map(|s| (s.id.clone(), s.start_date, s.end_date)).collect();
    assert_eq!(
        got,
        vec![("b".to_string(), 1, 2), ("old".to_string(), 3, 3), ("a".to_string(), 1, 2)]
    );
}

#[test]
fn listing_of_empty_folder_is_empty() {
    assert!(docstore::get_all_documents(&vec![]).is_empty());
    assert!(docstore::get_all_document_summaries(&vec![]).is_empty());
}
