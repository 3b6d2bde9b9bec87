use chrono::{NaiveDate, NaiveDateTime};
use ws_app::graph::{buildings_lessor_id, GQLBuilding, GQLLessor, GQLUser};
use ws_app::ids::{BuildingId, LessorId, UserId};
use ws_app::records::{
    inserted_id, Building, BuildingInput, Lessor, LessorInput, RawBuilding, RawLessor, TestTableInput,
    User, UserInput,
};

fn at(day: u32) -> NaiveDateTime {
    NaiveDate::from_ymd_opt(2023, 4, day).unwrap().and_hms_opt(9, 30, 0).unwrap()
}

fn raw_building(id: i64, block: Option<&str>) -> RawBuilding {
    RawBuilding {
        id,
        lessor_id: 3,
        name: "Sunrise".to_string(),
        prefecture: "Tokyo".to_string(),
        ward: "Minato".to_string(),
        city: "Shiba".to_string(),
        block: block.map(|b| b.to_string()),
        created_at: at(1),
        updated_at: at(2),
    }
}

fn user(id: i64, lessor_id: i64) -> User {
    User { id, lessor_id, name: format!("user{}", id), created_at: at(1), updated_at: at(1) }
}

#[test]
fn a_row_becomes_the_building_it_describes() {
    let b = Building::try_from(raw_building(8, Some("1-2-3"))).unwrap();
    assert_eq!(b.id, 8);
    assert_eq!(b.lessor_id, 3);
    assert_eq!(b.name, "Sunrise");
    assert_eq!(b.prefecture, "Tokyo");
    assert_eq!(b.ward, "Minato");
    assert_eq!(b.city, "Shiba");
    assert_eq!(b.block.as_deref(), Some("1-2-3"));
    assert_eq!(b.created_at, at(1));
    assert_eq!(b.updated_at, at(2));
}

#[test]
fn rows_become_buildings_in_order() {
    let rows = vec![raw_building(2, None), raw_building(1, Some("x"))];
    let buildings = Building::from_rows(rows);
    assert_eq!(buildings.len(), 2);
    assert_eq!(buildings[0].id, 2);
    assert_eq!(buildings[0].block, None);
    assert_eq!(buildings[1].id, 1);
    assert_eq!(buildings[1].block.as_deref(), Some("x"));
    assert!(Building::from_rows(Vec::new()).is_empty());
}

#[test]
fn a_row_becomes_the_lessor_it_describes() {
    let raw = RawLessor { id: 4, name: "Acme".to_string(), created_at: at(3), updated_at: at(4) };
    let l = Lessor::from(raw);
    assert_eq!((l.id, l.name.as_str(), l.created_at, l.updated_at), (4, "Acme", at(3), at(4)));
    let rows = vec![
        RawLessor { id: 9, name: "B".to_string(), created_at: at(1), updated_at: at(1) },
        RawLessor { id: 7, name: "A".to_string(), created_at: at(1), updated_at: at(1) },
    ];
    let ls = Lessor::from_rows(rows);
    assert_eq!(ls.iter().map(|l| l.id).collect::<Vec<_>>(), vec![9, 7]);
}

#[test]
fn inserted_ids_must_fit() {
    assert_eq!(inserted_id(0).ok(), Some(0));
    assert_eq!(inserted_id(42).ok(), Some(42));
    assert_eq!(inserted_id(i64::MAX as u64).ok(), Some(i64::MAX));
    assert!(inserted_id(i64::MAX as u64 + 1).is_err());
    assert!(inserted_id(u64::MAX).is_err());
}

#[test]
fn inputs_default_to_empty() {
    let b = BuildingInput::default();
    assert_eq!((b.lessor_id, b.name.as_str(), b.block.is_none()), (0, "", true));
    assert_eq!(LessorInput::default(), LessorInput { name: String::new() });
    assert_eq!(TestTableInput::default(), TestTableInput { name: String::new() });
    assert_eq!(UserInput::default(), UserInput { name: String::new() });
}

#[test]
fn building_fields_as_the_schema_shows_them() {
    let g = GQLBuilding::from(Building::try_from(raw_building(5, Some("2-1"))).unwrap());
    assert_eq!(g.id().ok(), Some(BuildingId(5)));
    assert_eq!(g.lessor_id().ok(), Some(LessorId(3)));
    assert_eq!(g.name(), "Sunrise");
    assert_eq!(g.prefecture(), "Tokyo");
    assert_eq!(g.ward(), "Minato");
    assert_eq!(g.city(), "Shiba");
    assert_eq!(g.block(), Some("2-1"));
    let none = GQLBuilding::from(Building::try_from(raw_building(6, None)).unwrap());
    assert_eq!(none.block(), None);
}

#[test]
fn ids_too_large_for_the_schema_are_errors() {
    let big = GQLBuilding::from(Building::try_from(raw_building(1 << 40, None)).unwrap());
    assert!(big.id().is_err());
    let u = GQLUser::from(user(1 << 33, -(1 << 33)));
    assert!(u.id().is_err());
    assert!(u.lessor_id().is_err());
    let l = GQLLessor::from(Lessor { id: 1 << 35, name: "L".to_string(), created_at: at(1), updated_at: at(1) });
    assert!(l.id().is_err());
}

#[test]
fn lessor_and_user_fields_as_the_schema_shows_them() {
    let l = GQLLessor::from(Lessor { id: 11, name: "Acme".to_string(), created_at: at(1), updated_at: at(1) });
    assert_eq!(l.id().ok(), Some(LessorId(11)));
    assert_eq!(l.name(), "Acme");
    let u = GQLUser::from(user(21, 11));
    assert_eq!(u.id().ok(), Some(UserId(21)));
    assert_eq!(u.name(), "user21");
    assert_eq!(u.lessor_id().ok(), Some(LessorId(11)));
}

#[test]
fn buildings_are_listed_for_the_signed_in_lessor_only() {
    assert_eq!(buildings_lessor_id(&Some(user(1, 77))), Some(77));
    assert_eq!(buildings_lessor_id(&None), None);
}
