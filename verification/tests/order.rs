use mcp_k8s::order::{lex_less, sort_texts};

fn v(items: &[&str]) -> Vec<String> {
    items.iter().map(|s| s.to_string()).collect()
}

#[test]
fn text_order_matches_string_order() {
    let samples = ["", "a", "ab", "b", "B", "é", "z", "aa", "Ω"];
    for x in samples {
        for y in samples {
            assert_eq!(lex_less(x, y), x < y, "{x:?} {y:?}");
        }
    }
}

#[test]
fn sorting_both_ways() {
    assert_eq!(sort_texts(v(&["b", "a", "c", "a"]), false), v(&["a", "a", "b", "c"]));
    assert_eq!(sort_texts(v(&["b", "a", "c", "a"]), true), v(&["c", "b", "a", "a"]));
    assert_eq!(sort_texts(vec![], true), Vec::<String>::new());
}
