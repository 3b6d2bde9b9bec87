#[test]
fn it_works() {
    let result = 2 + 2;
    assert_eq!(result, 4);
}

#[test]
fn lib_it_works() {
    let result = 2 + 2;
    assert_eq!(result, 4);
}

#[test]
fn crate_is_reachable() {
    assert_eq!(ws_app::decimal::parse_i64(b"4"), Ok(4));
}
