use docstore::{
    content_file_name, generate_unique_filename, id_from_content_file, id_from_meta_file,
    meta_file_name, sanitize_filename,
};

#[test]
fn sanitize_empty_title_is_untitled() {
    assert_eq!(sanitize_filename(""), "Untitled");
}

#[test]
fn sanitize_collapses_replaced_runs() {
    assert_eq!(sanitize_filename("a//b::c"), "a_b_c");
}

#[test]
fn sanitize_trims_underscores() {
    assert_eq!(sanitize_filename("__lead__"), "lead");
}

#[test]
fn sanitize_replaces_every_reserved_character() {
    assert_eq!(sanitize_filename("a/b\\c:d*e?f\"g<h>i|j\0k l"), "a_b_c_d_e_f_g_h_i_j_k_l");
}

#[test]
fn sanitize_only_reserved_is_untitled() {
    assert_eq!(sanitize_filename(" / ? "), "Untitled");
}

#[test]
fn sanitize_keeps_other_characters() {
    assert_eq!(sanitize_filename("회의록 2024"), "회의록_2024");
}

#[test]
fn sanitize_long_title_is_cut_without_trailing_underscore() {
    let title = format!("{} b{}", "a".repeat(99), "c".repeat(150));
    assert_eq!(title.chars().count(), 251);
    let id = sanitize_filename(&title);
    assert_eq!(id, "a".repeat(99));
    assert!(id.chars().count() <= 100);
    assert!(!id.ends_with('_'));
}

#[test]
fn sanitize_long_title_is_cut_to_limit() {
    let title = "x".repeat(250);
    let id = sanitize_filename(&title);
    assert_eq!(id.chars().count(), 100);
}

#[test]
fn sanitize_counts_characters_not_bytes() {
    let title = "é".repeat(120);
    let id = sanitize_filename(&title);
    assert_eq!(id, "é".repeat(100));
}

#[test]
fn free_base_id_is_kept() {
    let existing: Vec<String> = vec![];
    assert_eq!(generate_unique_filename(&existing, "Plan", 7), "Plan");
}

#[test]
fn taken_base_id_gets_first_number() {
    let existing = vec!["Plan".to_string()];
    assert_eq!(generate_unique_filename(&existing, "Plan", 7), "Plan_1");
}

#[test]
fn taken_base_and_first_number_gets_second() {
    let existing = vec!["Plan".to_string(), "Plan_1".to_string()];
    assert_eq!(generate_unique_filename(&existing, "Plan", 7), "Plan_2");
}

#[test]
fn numbered_gap_is_filled() {
    let existing = vec!["Plan".to_string(), "Plan_2".to_string()];
    assert_eq!(generate_unique_filename(&existing, "Plan", 7), "Plan_1");
}

#[test]
fn exhausted_numbers_fall_back_to_clock() {
    let mut existing = vec!["X".to_string()];
    for k in 1..=1000 {
        existing.push(format!("X_{}", k));
    }
    assert_eq!(generate_unique_filename(&existing, "X", 1712345678901), "X_1712345678901");
}

#[test]
fn fallback_writes_negative_clock_with_sign() {
    let mut existing = vec!["X".to_string()];
    for k in 1..=1000 {
        existing.push(format!("X_{}", k));
    }
    assert_eq!(generate_unique_filename(&existing, "X", -42), "X_-42");
}

#[test]
fn file_names_of_an_id() {
    assert_eq!(content_file_name("Plan_1"), "Plan_1.md");
    assert_eq!(meta_file_name("Plan_1"), "Plan_1.meta.json");
}

#[test]
fn ids_from_file_names() {
    assert_eq!(id_from_content_file("Plan.md"), Some("Plan".to_string()));
    assert_eq!(id_from_content_file("a.b.md"), Some("a.b".to_string()));
    assert_eq!(id_from_content_file(".md"), None);
    assert_eq!(id_from_content_file("Plan.meta.json"), None);
    assert_eq!(id_from_content_file("Plan.mdx"), None);
    assert_eq!(id_from_meta_file("Plan.meta.json"), Some("Plan".to_string()));
    assert_eq!(id_from_meta_file("Plan.json"), None);
    assert_eq!(id_from_meta_file("Plan.md"), None);
}
