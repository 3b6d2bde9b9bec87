use ws_app::records::{Building, Lessor, User};

#[test]
fn no_ids_means_no_query() {
    assert_eq!(Building::find_by_ids_query(&[]), None);
    assert_eq!(Lessor::find_by_ids_query(&[]), None);
    assert_eq!(User::find_by_ids_query(&[]), None);
}

#[test]
fn building_query_lists_the_ids() {
    assert_eq!(
        Building::find_by_ids_query(&[1, 2, 3]).as_deref(),
        Some("SELECT * FROM buildings WHERE id IN (1,2,3)")
    );
    assert_eq!(
        Building::find_by_ids_query(&[-9223372036854775808]).as_deref(),
        Some("SELECT * FROM buildings WHERE id IN (-9223372036854775808)")
    );
}

#[test]
fn lessor_query_lists_the_ids() {
    assert_eq!(
        Lessor::find_by_ids_query(&[10, 0, 10]).as_deref(),
        Some("SELECT * FROM lessors WHERE id IN (10,0,10)")
    );
}

#[test]
fn user_query_lists_the_ids() {
    let ids = [7i64, 42];
    let joined = ids.iter().map(|id| id.to_string()).collect::<Vec<_>>().join(",");
    let expected = format!(
        r#"
        SELECT * FROM users WHERE id IN ({joined})
        "#
    );
    assert_eq!(User::find_by_ids_query(&ids), Some(expected));
}
