use focus_lock::quotes::{
    fetch_decision, local_quote_for_seed, local_quotes, quote_from_response, seed_from_text,
    should_fetch_online_quote, HitokotoResponse, Quote,
};

#[test]
fn local_quotes_are_available() {
    assert!(local_quotes().len() >= 3);
    assert!(!local_quote_for_seed(1).text.is_empty());
}

#[test]
fn local_quote_seed_selects_entry_modulo_list_length() {
    let quotes = local_quotes();
    assert_eq!(quotes.len(), 7);
    let q = local_quote_for_seed(9);
    assert_eq!(q.text, quotes[2].0);
    assert_eq!(q.author.as_deref(), Some("Focus Lock"));
    assert_eq!(q.source, "local");
    assert_eq!(q.fetched_at, None);
    let first = local_quote_for_seed(0);
    assert_eq!(first.text, "先完成最重要的一件事，剩下的噪音会自己退后。");
    assert_eq!(local_quote_for_seed(7).text, first.text);
}

#[test]
fn seed_folds_bytes_with_wrapping_arithmetic() {
    assert_eq!(seed_from_text(""), 0);
    assert_eq!(seed_from_text("a"), 97);
    assert_eq!(seed_from_text("ab"), 97 * 31 + 98);
    let date = "2024-05-01";
    let expected = date
        .bytes()
        .fold(0usize, |acc, b| acc.wrapping_mul(31).wrapping_add(b as usize));
    assert_eq!(seed_from_text(date), expected);
    let long = "x".repeat(64);
    let expected_long = long
        .bytes()
        .fold(0usize, |acc, b| acc.wrapping_mul(31).wrapping_add(b as usize));
    assert_eq!(seed_from_text(&long), expected_long);
}

#[test]
fn online_reply_prefers_person_over_work() {
    let q = quote_from_response(
        HitokotoResponse {
            hitokoto: "text".to_string(),
            from: Some("work".to_string()),
            from_who: Some("person".to_string()),
        },
        "2024-05-01T10:00:00+08:00".to_string(),
    );
    assert_eq!(q.text, "text");
    assert_eq!(q.author.as_deref(), Some("person"));
    assert_eq!(q.source, "online");
    assert_eq!(q.fetched_at.as_deref(), Some("2024-05-01T10:00:00+08:00"));
    let q2 = quote_from_response(
        HitokotoResponse { hitokoto: "t".to_string(), from: Some("work".to_string()), from_who: None },
        "s".to_string(),
    );
    assert_eq!(q2.author.as_deref(), Some("work"));
    let q3 = quote_from_response(
        HitokotoResponse { hitokoto: "t".to_string(), from: None, from_who: None },
        "s".to_string(),
    );
    assert_eq!(q3.author, None);
}

#[test]
fn fetch_decision_follows_setting_and_cache_age() {
    assert!(!fetch_decision(false, None));
    assert!(!fetch_decision(false, Some(100)));
    assert!(fetch_decision(true, None));
    assert!(!fetch_decision(true, Some(0)));
    assert!(!fetch_decision(true, Some(23)));
    assert!(fetch_decision(true, Some(24)));
    assert!(!fetch_decision(true, Some(-5)));
}

fn cached(stamp: Option<&str>) -> Option<Quote> {
    Some(Quote {
        text: "t".to_string(),
        author: None,
        source: "online".to_string(),
        fetched_at: stamp.map(|s| s.to_string()),
    })
}

#[test]
fn cache_freshness_reads_the_fetch_time() {
    assert!(!should_fetch_online_quote(false, &None));
    assert!(should_fetch_online_quote(true, &None));
    assert!(should_fetch_online_quote(true, &cached(None)));
    assert!(should_fetch_online_quote(true, &cached(Some("not a time"))));
    assert!(should_fetch_online_quote(true, &cached(Some("2001-01-01T00:00:00+00:00"))));
    let now = chrono::Local::now().to_rfc3339();
    assert!(!should_fetch_online_quote(true, &cached(Some(&now))));
    assert!(!should_fetch_online_quote(false, &cached(Some("2001-01-01T00:00:00+00:00"))));
}

#[test]
fn today_is_written_year_month_day() {
    let today = focus_lock::clock::today_string();
    let parts: Vec<&str> = today.split('-').collect();
    assert_eq!(parts.len(), 3);
    assert!(parts[0].len() >= 4 && parts[0].chars().all(|c| c.is_ascii_digit()));
    assert!(parts[1].len() == 2 && parts[1].chars().all(|c| c.is_ascii_digit()));
    assert!(parts[2].len() == 2 && parts[2].chars().all(|c| c.is_ascii_digit()));
    let seed = focus_lock::quotes::local_quote_seed();
    let after = focus_lock::clock::today_string();
    assert!(seed == seed_from_text(&today) || seed == seed_from_text(&after));
}
