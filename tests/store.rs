use site_store::ident::{generate_id, is_blank, is_space_char};
use site_store::site::SiteData;
use site_store::store::{
    append_at, append_site, delete_from, load_from, remove_site, save_into,
    save_into_at, with_id_at, StoreContents,
};

fn site(id: &str, name: &str) -> SiteData {
    SiteData::new(
        id.to_string(),
        name.to_string(),
        format!("https://{}.example.com", name),
        "user".to_string(),
        "pass word".to_string(),
    )
}

fn ids(sites: &[SiteData]) -> Vec<String> {
    sites.iter().map(|s| s.id.clone()).collect()
}

#[test]
fn save_then_load_keeps_record() {
    let a = site("a1", "alpha");
    let stored = save_into(StoreContents::Missing, a.clone());
    let loaded = load_from(StoreContents::Records(stored));
    assert_eq!(loaded.len(), 1);
    assert_eq!(loaded[0], a);
}

#[test]
fn save_after_existing_records_appends() {
    let existing = vec![site("x1", "one"), site("x2", "two")];
    let b = site("b7", "beta");
    let stored = save_into(StoreContents::Records(existing.clone()), b.clone());
    assert_eq!(stored.len(), 3);
    assert_eq!(&stored[..2], &existing[..]);
    assert_eq!(stored[2], b);
}

#[test]
fn blank_id_gets_generated_id() {
    let stored = with_id_at(site("", "blog"), 1700000000123);
    assert_eq!(stored.id, "remote-1700000000123");
    assert_eq!(stored.name, "blog");
    assert_eq!(stored.url, "https://blog.example.com");
    assert_eq!(stored.username, "user");
    assert_eq!(stored.application_password, "pass word");
}

#[test]
fn whitespace_id_gets_generated_id() {
    let stored = with_id_at(site(" \t\n\u{3000}", "blog"), 5);
    assert_eq!(stored.id, "remote-5");
}

#[test]
fn given_id_is_kept() {
    let stored = with_id_at(site(" k ", "blog"), 5);
    assert_eq!(stored.id, " k ");
}

#[test]
fn generated_ids_differ_across_times() {
    let first = with_id_at(site("", "a"), 1700000000000);
    let second = with_id_at(site("  ", "b"), 1700000000001);
    assert_ne!(first.id, second.id);
    assert!(!first.id.trim().is_empty());
    assert!(!second.id.trim().is_empty());
}

#[test]
fn generate_id_exact_text() {
    assert_eq!(generate_id(0), "remote-0");
    assert_eq!(generate_id(10), "remote-10");
    assert_eq!(generate_id(-42), "remote--42");
    assert_eq!(generate_id(i64::MAX), format!("remote-{}", i64::MAX));
    assert_eq!(generate_id(i64::MIN), format!("remote-{}", i64::MIN));
}

#[test]
fn generated_id_uses_current_time() {
    let stored = save_into(StoreContents::Missing, site("", "now"));
    assert_eq!(stored.len(), 1);
    let id = &stored[0].id;
    assert!(id.starts_with("remote-"));
    let millis: i64 = id["remote-".len()..].parse().unwrap();
    assert!(millis > 1_600_000_000_000);
    assert_eq!(stored[0].name, "now");
}

#[test]
fn blank_detection() {
    assert!(is_blank(""));
    assert!(is_blank("   "));
    assert!(is_blank("\t\r\n\u{0b}\u{0c}\u{85}\u{a0}\u{2028}\u{3000}"));
    assert!(!is_blank("a"));
    assert!(!is_blank("  a  "));
    assert!(!is_blank("\u{200b}"));
    assert!(is_space_char('\u{2000}'));
    assert!(is_space_char('\u{200a}'));
    assert!(!is_space_char('\u{200b}'));
    for c in ['\u{1680}', '\u{202f}', '\u{205f}', '\u{2029}', 'x', '0', '\u{0}'] {
        assert_eq!(is_space_char(c), c.is_whitespace());
    }
}

#[test]
fn save_two_records_keeps_order() {
    let a = site("A", "first");
    let b = site("B", "second");
    let after_a = save_into(StoreContents::Missing, a.clone());
    let after_b = save_into(StoreContents::Records(after_a), b.clone());
    let loaded = load_from(StoreContents::Records(after_b));
    assert_eq!(loaded, vec![a, b]);
}

#[test]
fn save_at_two_blank_records_in_order() {
    let after_a = save_into_at(StoreContents::Missing, site("", "first"), 100);
    let after_b = save_into_at(StoreContents::Records(after_a), site("", "second"), 200);
    assert_eq!(ids(&after_b), vec!["remote-100", "remote-200"]);
    assert_eq!(after_b[0].name, "first");
    assert_eq!(after_b[1].name, "second");
}

#[test]
fn delete_exact_match() {
    let stored = vec![site("x1", "one"), site("x2", "two")];
    let after = delete_from(StoreContents::Records(stored), "x1");
    assert_eq!(ids(&after), vec!["x2"]);
    assert_eq!(after[0].name, "two");
}

#[test]
fn delete_is_case_sensitive_and_exact() {
    let stored = vec![site("x1", "one"), site("x10", "ten"), site(" x1", "spaced")];
    let after = delete_from(StoreContents::Records(stored.clone()), "X1");
    assert_eq!(after, stored);
    let after = delete_from(StoreContents::Records(stored), "x1");
    assert_eq!(ids(&after), vec!["x10", " x1"]);
}

#[test]
fn delete_removes_every_duplicate() {
    let mut sites = vec![site("d", "a"), site("k", "b"), site("d", "c"), site("d", "e")];
    remove_site(&mut sites, "d");
    assert_eq!(ids(&sites), vec!["k"]);
    assert_eq!(sites[0].name, "b");
}

#[test]
fn delete_nonexistent_changes_nothing() {
    let stored = vec![site("x1", "one"), site("x2", "two")];
    let after = delete_from(StoreContents::Records(stored.clone()), "nonexistent");
    assert_eq!(after, stored);
}

#[test]
fn delete_on_missing_file_is_empty() {
    assert!(delete_from(StoreContents::Missing, "x1").is_empty());
    assert!(delete_from(StoreContents::Malformed, "x1").is_empty());
}

#[test]
fn missing_file_loads_empty() {
    assert!(load_from(StoreContents::Missing).is_empty());
}

#[test]
fn malformed_file_loads_empty_and_save_overwrites() {
    assert!(load_from(StoreContents::Malformed).is_empty());
    let s = site("m1", "fresh");
    let stored = save_into(StoreContents::Malformed, s.clone());
    assert_eq!(stored, vec![s]);
}

#[test]
fn append_at_and_append_site_push_to_end() {
    let mut sites = vec![site("p", "one")];
    append_at(&mut sites, site("", "two"), 77);
    append_site(&mut sites, site("q", "three"));
    assert_eq!(ids(&sites), vec!["p", "remote-77", "q"]);
}

#[test]
fn end_to_end_blog_scenario() {
    let blog = SiteData::new(
        String::new(),
        "Blog".to_string(),
        "https://ex.com".to_string(),
        "u".to_string(),
        "p".to_string(),
    );
    let stored = save_into(StoreContents::Missing, blog);
    let loaded = load_from(StoreContents::Records(stored));
    assert_eq!(loaded.len(), 1);
    let record = &loaded[0];
    assert!(record.id.starts_with("remote-"));
    assert!(record.id.len() > "remote-".len());
    assert_eq!(record.name, "Blog");
    assert_eq!(record.url, "https://ex.com");
    assert_eq!(record.username, "u");
    assert_eq!(record.application_password, "p");
    let id = record.id.clone();
    let after = delete_from(StoreContents::Records(loaded), &id);
    assert!(load_from(StoreContents::Records(after)).is_empty());
}
