use tuitype::metrics::{
    animate_wpm, calculate_accuracy, calculate_consistency, calculate_raw_wpm, calculate_wpm,
    count_correct_chars,
};

fn chars(s: &str) -> Vec<char> {
    s.chars().collect()
}

#[test]
fn wpm_exact_value() {
    // 60 characters in 60 seconds: 12 words over one minute, 12.00 WPM.
    assert_eq!(calculate_wpm(60, 60_000), 1200);
    // 25 characters in 30 seconds: 5 words over half a minute, 10.00 WPM.
    assert_eq!(calculate_wpm(25, 30_000), 1000);
}

#[test]
fn wpm_zero_under_a_sixtieth_of_a_second() {
    assert_eq!(calculate_wpm(100, 0), 0);
    assert_eq!(calculate_wpm(100, 16), 0);
    // A sixtieth of a second is 16.67 ms, so 17 ms computes normally.
    assert!(calculate_wpm(100, 17) > 0);
}

#[test]
fn raw_wpm_same_formula() {
    assert_eq!(calculate_raw_wpm(60, 60_000), calculate_wpm(60, 60_000));
    assert_eq!(calculate_raw_wpm(0, 60_000), 0);
}

#[test]
fn accuracy_exact_values() {
    assert_eq!(calculate_accuracy(3, 4), 7500);
    assert_eq!(calculate_accuracy(2, 3), 6666);
    assert_eq!(calculate_accuracy(5, 5), 10000);
    assert_eq!(calculate_accuracy(0, 7), 0);
}

#[test]
fn accuracy_of_empty_attempt_is_full() {
    assert_eq!(calculate_accuracy(0, 0), 10000);
}

#[test]
fn count_correct_is_positional() {
    assert_eq!(count_correct_chars(&chars("cab"), &chars("cat")), 2);
    assert_eq!(count_correct_chars(&chars("tac"), &chars("cat")), 1);
    assert_eq!(count_correct_chars(&chars(""), &chars("cat")), 0);
    assert_eq!(count_correct_chars(&chars("cathedral"), &chars("cat")), 3);
}

#[test]
fn consistency_few_samples_is_full() {
    // Fewer than two samples count as fully consistent.
    assert_eq!(calculate_consistency(&vec![]), 10000);
    assert_eq!(calculate_consistency(&vec![(7, 5000)]), 10000);
}

#[test]
fn consistency_zero_variance_is_full() {
    assert_eq!(calculate_consistency(&vec![(1, 5000), (2, 5000)]), 10000);
    assert_eq!(
        calculate_consistency(&vec![(1, 4200), (2, 4200), (3, 4200)]),
        10000
    );
}

#[test]
fn consistency_known_dispersion() {
    // Mean 2000, both deviations 1000, variance 1000000, stddev 1000:
    // (2000 - 1000) / 2000 is 50.00 percent.
    assert_eq!(calculate_consistency(&vec![(1, 1000), (2, 3000)]), 5000);
}

#[test]
fn consistency_stays_within_range() {
    // Heavy dispersion clamps at zero, never below.
    assert_eq!(calculate_consistency(&vec![(1, 1), (2, 100_000)]), 0);
}

#[test]
fn animate_first_step() {
    // From a standing start toward 60.00: one step is fifteen percent, 9.00.
    let mut last: i64 = 0;
    let shown = animate_wpm(0, 6000, &mut last);
    assert_eq!(shown, 900);
    assert_eq!(last, 900);
}

#[test]
fn animate_zero_target_resets() {
    let mut last: i64 = 4000;
    assert_eq!(animate_wpm(3000, 0, &mut last), 0);
    assert_eq!(last, 0);
}

#[test]
fn animate_damps_small_gaps() {
    // A gap under half a unit between target and remembered target leaves
    // the display unchanged.
    let mut last: i64 = 5980;
    assert_eq!(animate_wpm(5975, 6000, &mut last), 5975);
    assert_eq!(last, 5980);
}

#[test]
fn animate_monotonically_approaches() {
    let target: i64 = 6000;
    let mut shown: i64 = 0;
    let mut last: i64 = 0;
    let mut previous = shown;
    for _ in 0..200 {
        shown = animate_wpm(shown, target, &mut last);
        assert!(shown >= previous);
        assert!(shown <= target);
        previous = shown;
    }
    // The gauge settles within half a unit of the target; the damping rule
    // then holds it there.
    assert!(target - shown < 50);
    let settled = shown;
    shown = animate_wpm(shown, target, &mut last);
    assert_eq!(shown, settled);
}
