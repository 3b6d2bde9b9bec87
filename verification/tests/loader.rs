use chrono::{NaiveDate, NaiveDateTime};
use ws_app::ids::{BuildingId, LessorId, UserId};
use ws_app::loader::{batch_ids, index_by_id};
use ws_app::records::{Building, Lessor, User};

fn at() -> NaiveDateTime {
    NaiveDate::from_ymd_opt(2022, 12, 31).unwrap().and_hms_opt(23, 59, 59).unwrap()
}

fn lessor(id: i64, name: &str) -> Lessor {
    Lessor { id, name: name.to_string(), created_at: at(), updated_at: at() }
}

#[test]
fn batch_keys_become_database_ids_in_order() {
    assert_eq!(batch_ids(&[BuildingId(3), BuildingId(-1), BuildingId(3)]), vec![3i64, -1, 3]);
    assert_eq!(batch_ids(&[LessorId(i32::MAX)]), vec![i32::MAX as i64]);
    assert_eq!(batch_ids::<UserId>(&[]), Vec::<i64>::new());
}

#[test]
fn records_are_indexed_by_their_id() {
    let m = index_by_id(vec![lessor(1, "a"), lessor(2, "b")]);
    assert_eq!(m.len(), 2);
    assert_eq!(m.get(&1).map(|l| l.name.as_str()), Some("a"));
    assert_eq!(m.get(&2).map(|l| l.name.as_str()), Some("b"));
    assert!(m.get(&3).is_none());
}

#[test]
fn the_last_record_with_an_id_wins() {
    let m = index_by_id(vec![lessor(5, "first"), lessor(6, "other"), lessor(5, "last")]);
    assert_eq!(m.len(), 2);
    assert_eq!(m.get(&5).map(|l| l.name.as_str()), Some("last"));
}

#[test]
fn records_whose_id_does_not_fit_are_left_out() {
    let m = index_by_id(vec![lessor(1 << 40, "big"), lessor(-(1 << 40), "small"), lessor(9, "ok")]);
    assert_eq!(m.len(), 1);
    assert_eq!(m.get(&9).map(|l| l.name.as_str()), Some("ok"));
    let empty = index_by_id::<Building>(Vec::new());
    assert!(empty.is_empty());
    let users = index_by_id(vec![User { id: 2, lessor_id: 1, name: "u".to_string(), created_at: at(), updated_at: at() }]);
    assert_eq!(users.get(&2).map(|u| u.lessor_id), Some(1));
}
