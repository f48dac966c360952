use trade_world::utils::cn;

fn classes(parts: &[&str]) -> Vec<String> {
    parts.iter().map(|p| p.to_string()).collect()
}

#[test]
fn cn_joins_classes_with_single_spaces() {
    assert_eq!(cn(&classes(&["flex", "p-2", "w-full"])), "flex p-2 w-full");
}

#[test]
fn cn_trims_and_skips_empty_classes() {
    assert_eq!(cn(&classes(&["  flex  ", "", "   ", "p-2"])), "flex p-2");
}

#[test]
fn cn_splits_multi_token_classes() {
    assert_eq!(cn(&classes(&["flex  p-2", "h-16 w-16"])), "flex p-2 h-16 w-16");
}

#[test]
fn cn_drops_consecutive_duplicates_only() {
    assert_eq!(cn(&classes(&["a", "a", "b", "a"])), "a b a");
    assert_eq!(cn(&classes(&["a a b a"])), "a b a");
}

#[test]
fn cn_of_nothing_is_empty() {
    assert_eq!(cn(&classes(&[])), "");
    assert_eq!(cn(&classes(&["", "  "])), "");
}
