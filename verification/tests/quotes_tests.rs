use tuitype::quotes::{Quote, QuoteManager, QuoteMode};

fn quote(id: usize, length: usize) -> Quote {
    Quote {
        text: "x".repeat(length),
        source: format!("source {}", id),
        length,
        id,
    }
}

fn catalogue() -> QuoteManager {
    QuoteManager::new(vec![
        quote(0, 50),
        quote(1, 99),
        quote(2, 100),
        quote(3, 101),
        quote(4, 299),
        quote(5, 300),
        quote(6, 301),
        quote(7, 5000),
    ])
}

#[test]
fn length_ranges() {
    assert_eq!(QuoteMode::Short.length_range(), (0, 100));
    assert_eq!(QuoteMode::Medium.length_range(), (101, 300));
    assert_eq!(QuoteMode::Long.length_range(), (301, usize::MAX));
}

#[test]
fn buckets_have_gaps_at_their_bounds() {
    // Lengths 100 and 300 fall between the buckets and are never selected.
    let m = catalogue();
    assert_eq!(m.count_by_mode(QuoteMode::Short), 2);
    assert_eq!(m.count_by_mode(QuoteMode::Medium), 2);
    assert_eq!(m.count_by_mode(QuoteMode::Long), 2);
}

#[test]
fn random_quote_comes_from_the_bucket() {
    let m = catalogue();
    for _ in 0..20 {
        let q = m.get_random_quote(QuoteMode::Medium).expect("bucket not empty");
        assert!(q.length >= 101 && q.length < 300);
    }
}

#[test]
fn random_quote_from_a_single_entry_bucket() {
    let m = QuoteManager::new(vec![quote(9, 150)]);
    let q = m.get_random_quote(QuoteMode::Medium).expect("bucket not empty");
    assert_eq!(q.id, 9);
    assert_eq!(q.length, 150);
}

#[test]
fn empty_bucket_yields_none() {
    let m = QuoteManager::new(vec![quote(0, 50)]);
    assert!(m.get_random_quote(QuoteMode::Long).is_none());
    let empty = QuoteManager::new(Vec::new());
    assert!(empty.get_random_quote(QuoteMode::Short).is_none());
}

#[test]
fn quote_by_id_finds_the_first_match() {
    let mut quotes = vec![quote(1, 10), quote(2, 20), quote(2, 30)];
    quotes[2].source = "later duplicate".to_string();
    let m = QuoteManager::new(quotes);
    let q = m.get_quote_by_id(2).expect("id exists");
    assert_eq!(q.length, 20);
    assert!(m.get_quote_by_id(7).is_none());
}

#[test]
fn modes_cycle_around() {
    assert_eq!(QuoteMode::Short.cycle(), QuoteMode::Medium);
    assert_eq!(QuoteMode::Medium.cycle(), QuoteMode::Long);
    assert_eq!(QuoteMode::Long.cycle(), QuoteMode::Short);
    assert_eq!(QuoteMode::Short.cycle().cycle().cycle(), QuoteMode::Short);
}
