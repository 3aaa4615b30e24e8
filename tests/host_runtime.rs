use yara_wasm::scanner::{PatternMatches, ScanContext};
use yara_wasm::wasm::{is_pat_match, is_pat_match_at, is_pat_match_in, rule_match};

fn index_with(pattern: i32, offsets: &[i64], num_patterns: usize) -> PatternMatches {
    let mut pm = PatternMatches::new(num_patterns);
    for &o in offsets {
        pm.record(pattern, o);
    }
    pm
}

#[test]
fn only_true_rule_is_reported() {
    let mut ctx = ScanContext::new(3, PatternMatches::new(0));
    rule_match(&mut ctx, 1);
    assert_eq!(ctx.rules_matching_bitmap(), &vec![false, true, false]);
    assert_eq!(ctx.rules_matching(), &vec![1]);
}

#[test]
fn pattern_offsets_queries() {
    let ctx = ScanContext::new(0, index_with(5, &[10, 20], 6));
    assert_eq!(is_pat_match_at(&ctx, 5, 10), 1);
    assert_eq!(is_pat_match_at(&ctx, 5, 20), 1);
    assert_eq!(is_pat_match_at(&ctx, 5, 15), 0);
    assert_eq!(is_pat_match_in(&ctx, 5, 12, 25), 1);
    assert_eq!(is_pat_match_in(&ctx, 5, 0, 5), 0);
    assert_eq!(is_pat_match_in(&ctx, 5, 10, 10), 1);
    assert_eq!(is_pat_match_in(&ctx, 5, 21, 100), 0);
    assert_eq!(is_pat_match(&ctx, 5), 1);
    assert_eq!(is_pat_match(&ctx, 4), 0);
}

#[test]
fn repeated_report_keeps_one_entry() {
    let mut ctx = ScanContext::new(5, PatternMatches::new(0));
    rule_match(&mut ctx, 3);
    rule_match(&mut ctx, 3);
    assert_eq!(ctx.rules_matching_bitmap(), &vec![false, false, false, true, false]);
    assert_eq!(ctx.rules_matching().len(), 1);
    assert_eq!(ctx.rules_matching(), &vec![3]);
}

#[test]
fn list_keeps_first_match_order() {
    let mut ctx = ScanContext::new(4, PatternMatches::new(0));
    for id in [2, 0, 2, 3, 0] {
        rule_match(&mut ctx, id);
    }
    assert_eq!(ctx.rules_matching(), &vec![2, 0, 3]);
    assert_eq!(ctx.rules_matching_bitmap(), &vec![true, false, true, true]);
}

#[test]
fn bitmap_bits_follow_reports() {
    let reports = [4, 1, 4, 6];
    let mut ctx = ScanContext::new(8, PatternMatches::new(0));
    for id in reports {
        rule_match(&mut ctx, id);
    }
    for i in 0..8 {
        assert_eq!(ctx.rules_matching_bitmap()[i], reports.contains(&(i as i32)));
    }
    assert_eq!(ctx.rules_matching_bitmap().len(), 8);
}

#[test]
fn matched_equals_matched_in_full_range() {
    let ctx = ScanContext::new(0, index_with(1, &[i64::MIN, 7], 3));
    for p in -1..4 {
        assert_eq!(is_pat_match(&ctx, p), is_pat_match_in(&ctx, p, i64::MIN, i64::MAX));
    }
    let ctx = ScanContext::new(0, index_with(0, &[i64::MAX], 1));
    assert_eq!(is_pat_match(&ctx, 0), 1);
    assert_eq!(is_pat_match_in(&ctx, 0, i64::MIN, i64::MAX), 1);
}

#[test]
fn match_at_only_recorded_offsets() {
    let ctx = ScanContext::new(0, index_with(0, &[30, 5, 17, 5], 1));
    assert_eq!(ctx.pattern_matches().num_patterns(), 1);
    for o in 0..40 {
        let expected = if o == 5 || o == 17 || o == 30 { 1 } else { 0 };
        assert_eq!(is_pat_match_at(&ctx, 0, o), expected);
    }
}

#[test]
fn unknown_ids_are_ignored() {
    let mut ctx = ScanContext::new(2, index_with(0, &[1], 1));
    rule_match(&mut ctx, -1);
    rule_match(&mut ctx, 2);
    rule_match(&mut ctx, i32::MAX);
    assert_eq!(ctx.rules_matching_bitmap(), &vec![false, false]);
    assert!(ctx.rules_matching().is_empty());
    assert_eq!(is_pat_match(&ctx, 1), 0);
    assert_eq!(is_pat_match(&ctx, -3), 0);
    assert_eq!(is_pat_match_at(&ctx, 1, 1), 0);
    assert_eq!(is_pat_match_in(&ctx, i32::MIN, i64::MIN, i64::MAX), 0);
}

#[test]
fn recording_unknown_pattern_changes_nothing() {
    let mut pm = PatternMatches::new(1);
    pm.record(3, 10);
    pm.record(-1, 10);
    let ctx = ScanContext::new(0, pm);
    assert_eq!(is_pat_match(&ctx, 0), 0);
    assert_eq!(is_pat_match(&ctx, 3), 0);
}

#[test]
fn contexts_are_isolated() {
    let mut a = ScanContext::new(3, index_with(0, &[1], 1));
    let mut b = ScanContext::new(3, index_with(0, &[2], 1));
    rule_match(&mut a, 0);
    rule_match(&mut b, 2);
    assert_eq!(a.rules_matching(), &vec![0]);
    assert_eq!(b.rules_matching(), &vec![2]);
    assert_eq!(a.rules_matching_bitmap(), &vec![true, false, false]);
    assert_eq!(b.rules_matching_bitmap(), &vec![false, false, true]);
    assert_eq!(is_pat_match_at(&a, 0, 2), 0);
    assert_eq!(is_pat_match_at(&b, 0, 2), 1);
}

#[test]
fn bitmap_bits_follow_many_reports() {
    let n: usize = 17;
    let mut x: u32 = 12345;
    for _ in 0..20 {
        let mut ctx = ScanContext::new(n, PatternMatches::new(0));
        let mut reported: Vec<i32> = Vec::new();
        for _ in 0..(x % 30) {
            x = x.wrapping_mul(1103515245).wrapping_add(12345);
            let id = ((x >> 8) % n as u32) as i32;
            reported.push(id);
            rule_match(&mut ctx, id);
        }
        for i in 0..n {
            assert_eq!(ctx.rules_matching_bitmap()[i], reported.contains(&(i as i32)));
        }
        let mut first_order: Vec<i32> = Vec::new();
        for id in reported {
            if !first_order.contains(&id) {
                first_order.push(id);
            }
        }
        assert_eq!(ctx.rules_matching(), &first_order);
    }
}
