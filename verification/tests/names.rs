use snake_net::names::{compare_names, same_name, NameOrder};

#[test]
fn names_compare_by_code_point() {
    assert_eq!(compare_names("alice", "bob"), NameOrder::Before);
    assert_eq!(compare_names("bob", "alice"), NameOrder::After);
    assert_eq!(compare_names("alice", "alice"), NameOrder::Same);
    assert_eq!(compare_names("Zed", "alice"), NameOrder::Before);
    assert_eq!(compare_names("", ""), NameOrder::Same);
    assert_eq!(compare_names("", "a"), NameOrder::Before);
    assert_eq!(compare_names("a", ""), NameOrder::After);
    assert_eq!(compare_names("abc", "abd"), NameOrder::Before);
    assert_eq!(compare_names("ab", "abc"), NameOrder::Before);
    assert_eq!(compare_names("abc", "ab"), NameOrder::After);
    assert_eq!(compare_names("é", "z"), NameOrder::After);
    assert_eq!(compare_names("żółw", "żółw"), NameOrder::Same);
}

#[test]
fn names_order_as_strings_do() {
    let names = ["", "a", "A", "ab", "b", "alice", "Alice", "bob", "é", "z", "zz", "ż", "😀", "~"];
    for a in names {
        for b in names {
            let expected = if a < b {
                NameOrder::Before
            } else if a == b {
                NameOrder::Same
            } else {
                NameOrder::After
            };
            assert_eq!(compare_names(a, b), expected);
            assert_eq!(same_name(a, b), a == b);
        }
    }
}
