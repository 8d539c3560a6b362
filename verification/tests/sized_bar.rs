use surfdl::render::{bar_text, filled_cells, percent_text, tier_of, update_progress, Tier};

#[test]
fn bar_is_empty_at_zero() {
    assert_eq!(bar_text(0), format!("[{}]", " ".repeat(29)));
    assert_eq!(filled_cells(0), 0);
}

#[test]
fn bar_is_full_at_one_hundred_percent() {
    assert_eq!(bar_text(10000), format!("[{}]", "#".repeat(29)));
    assert_eq!(percent_text(10000), "100.00");
}

#[test]
fn bar_rounds_to_the_nearest_cell() {
    // 50 % of 29 cells is 14.5, which rounds up to 15.
    assert_eq!(filled_cells(5000), 15);
    assert_eq!(bar_text(5000), format!("[{}{}]", "#".repeat(15), " ".repeat(14)));
    // 1.72 % is just under half a cell, 1.73 % just over.
    assert_eq!(filled_cells(172), 0);
    assert_eq!(filled_cells(173), 1);
}

#[test]
fn percent_is_right_aligned_with_two_decimals() {
    assert_eq!(percent_text(0), "  0.00");
    assert_eq!(percent_text(7), "  0.07");
    assert_eq!(percent_text(1234), " 12.34");
    assert_eq!(percent_text(9999), " 99.99");
}

#[test]
fn progress_above_full_draws_a_full_bar() {
    let frame = update_progress(25000);
    assert_eq!(frame.bar, format!("[{}]", "#".repeat(29)));
    assert_eq!(frame.percent, "100.00");
    assert_eq!(frame.tier, Tier::High);
}

#[test]
fn tiers_change_at_thirty_and_seventy_percent() {
    assert_eq!(tier_of(0), Tier::Low);
    assert_eq!(tier_of(3000), Tier::Low);
    assert_eq!(tier_of(3001), Tier::Mid);
    assert_eq!(tier_of(7000), Tier::Mid);
    assert_eq!(tier_of(7001), Tier::High);
    assert_eq!(tier_of(10000), Tier::High);
}
