//! The records of the database: what a user enters, the rows as they are
//! read, and the records the service hands on.

use chrono::NaiveDateTime;
use core::convert::Infallible;
use core::num::TryFromIntError;
use vstd::prelude::*;

verus! {

/// A timestamp of the database, carried through unread.
#[verifier::external_type_specification]
#[verifier::external_body]
pub struct ExNaiveDateTime(NaiveDateTime);

/// `NaiveDateTime::clone`: the type is `Copy` and derives `Clone`, so the
/// clone is the same timestamp.
pub assume_specification[ <NaiveDateTime as Clone>::clone ](dt: &NaiveDateTime) -> (r: NaiveDateTime)
    ensures
        r == *dt,
;

/// What a user enters to register a building.
#[derive(Debug, Default)]
pub struct BuildingInput {
    pub lessor_id: i64,
    pub name: String,
    pub prefecture: String,
    pub ward: String,
    pub city: String,
    pub block: Option<String>,
}

/// A building as the service hands it on.
#[derive(Clone)]
pub struct Building {
    pub id: i64,
    pub created_at: NaiveDateTime,
    pub updated_at: NaiveDateTime,
    pub lessor_id: i64,
    pub name: String,
    pub prefecture: String,
    pub ward: String,
    pub city: String,
    pub block: Option<String>,
}

/// A row of the `buildings` table, in the order of its columns.
pub struct RawBuilding {
    pub id: i64,
    pub lessor_id: i64,
    pub name: String,
    pub prefecture: String,
    pub ward: String,
    pub city: String,
    pub block: Option<String>,
    pub created_at: NaiveDateTime,
    pub updated_at: NaiveDateTime,
}

/// The building that a row describes: every column in its field.
pub open spec fn building_of_row(raw: RawBuilding) -> Building {
    Building {
        id: raw.id,
        created_at: raw.created_at,
        updated_at: raw.updated_at,
        lessor_id: raw.lessor_id,
        name: raw.name,
        prefecture: raw.prefecture,
        ward: raw.ward,
        city: raw.city,
        block: raw.block,
    }
}

impl TryFrom<RawBuilding> for Building {
    type Error = Infallible;

    fn try_from(raw_building: RawBuilding) -> (r: Result<Building, Infallible>)
        ensures
            r matches Ok(b) && {
                &&& b.id == raw_building.id
                &&& b.created_at == raw_building.created_at
                &&& b.updated_at == raw_building.updated_at
                &&& b.lessor_id == raw_building.lessor_id
                &&& b.name == raw_building.name
                &&& b.prefecture == raw_building.prefecture
                &&& b.ward == raw_building.ward
                &&& b.city == raw_building.city
                &&& b.block == raw_building.block
            },
    {
        let RawBuilding { id, lessor_id, name, prefecture, ward, city, block, created_at, updated_at } =
            raw_building;
        Ok(Building { id, created_at, updated_at, lessor_id, name, prefecture, ward, city, block })
    }
}

impl vstd::std_specs::convert::TryFromSpecImpl<RawBuilding> for Building {
    open spec fn obeys_try_from_spec() -> bool {
        true
    }

    open spec fn try_from_spec(raw: RawBuilding) -> Result<Building, Infallible> {
        Ok(building_of_row(raw))
    }
}

impl Building {
    /// The buildings that the rows of a query describe, in order: reading a
    /// row never fails.
    pub fn from_rows(rows: Vec<RawBuilding>) -> (buildings: Vec<Building>)
        ensures
            buildings@.len() == rows@.len(),
            forall|i: int|
                0 <= i < rows@.len() ==> {
                    let b = #[trigger] buildings@[i];
                    let raw = rows@[i];
                    &&& b.id == raw.id
                    &&& b.created_at == raw.created_at
                    &&& b.updated_at == raw.updated_at
                    &&& b.lessor_id == raw.lessor_id
                    &&& b.name == raw.name
                    &&& b.prefecture == raw.prefecture
                    &&& b.ward == raw.ward
                    &&& b.city == raw.city
                    &&& b.block == raw.block
                },
            buildings@ == rows@.map_values(|raw: RawBuilding| building_of_row(raw)),
    {
        broadcast use vstd::std_specs::vec::axiom_spec_into_iter;
        let ghost all: Seq<RawBuilding> = rows@;
        let mut buildings: Vec<Building> = Vec::new();
        for raw in it: rows.into_iter()
            invariant
                it.seq() == all,
                buildings@ == all.take(it.index()).map_values(|raw: RawBuilding| building_of_row(raw)),
        {
            let ghost k: int = it.index();
            let ghost row: RawBuilding = raw;
            let building: Building = Building::try_from(raw).unwrap();
            buildings.push(building);
            assert(all[k] == row);
            assert(buildings@ =~= all.take(k + 1).map_values(|raw: RawBuilding| building_of_row(raw)));
        }
        assert(all.take(all.len() as int) =~= all);
        buildings
    }
}

/// What a user enters to register a lessor.
#[derive(PartialEq, Debug, Default)]
pub struct LessorInput {
    pub name: String,
}

/// A lessor as the service hands it on.
#[derive(Clone)]
pub struct Lessor {
    pub id: i64,
    pub name: String,
    pub created_at: NaiveDateTime,
    pub updated_at: NaiveDateTime,
}

/// A row of the `lessors` table.
pub struct RawLessor {
    pub id: i64,
    pub name: String,
    pub created_at: NaiveDateTime,
    pub updated_at: NaiveDateTime,
}

/// The lessor that a row describes: every column in its field.
pub open spec fn lessor_of_row(raw: RawLessor) -> Lessor {
    Lessor { id: raw.id, name: raw.name, created_at: raw.created_at, updated_at: raw.updated_at }
}

impl From<RawLessor> for Lessor {
    fn from(raw: RawLessor) -> (r: Lessor)
        ensures
            r.id == raw.id,
            r.name == raw.name,
            r.created_at == raw.created_at,
            r.updated_at == raw.updated_at,
    {
        let RawLessor { id, name, created_at, updated_at } = raw;
        Lessor { id, name, created_at, updated_at }
    }
}

impl vstd::std_specs::convert::FromSpecImpl<RawLessor> for Lessor {
    open spec fn obeys_from_spec() -> bool {
        true
    }

    open spec fn from_spec(raw: RawLessor) -> Lessor {
        lessor_of_row(raw)
    }
}

impl Lessor {
    /// The lessors that the rows of a query describe, in order.
    pub fn from_rows(rows: Vec<RawLessor>) -> (lessors: Vec<Lessor>)
        ensures
            lessors@.len() == rows@.len(),
            forall|i: int|
                0 <= i < rows@.len() ==> {
                    let l = #[trigger] lessors@[i];
                    let raw = rows@[i];
                    &&& l.id == raw.id
                    &&& l.name == raw.name
                    &&& l.created_at == raw.created_at
                    &&& l.updated_at == raw.updated_at
                },
            lessors@ == rows@.map_values(|raw: RawLessor| lessor_of_row(raw)),
    {
        broadcast use vstd::std_specs::vec::axiom_spec_into_iter;
        let ghost all: Seq<RawLessor> = rows@;
        let mut lessors: Vec<Lessor> = Vec::new();
        for raw in it: rows.into_iter()
            invariant
                it.seq() == all,
                lessors@ == all.take(it.index()).map_values(|raw: RawLessor| lessor_of_row(raw)),
        {
            let ghost k: int = it.index();
            let ghost row: RawLessor = raw;
            lessors.push(Lessor::from(raw));
            assert(all[k] == row);
            assert(lessors@ =~= all.take(k + 1).map_values(|raw: RawLessor| lessor_of_row(raw)));
        }
        assert(all.take(all.len() as int) =~= all);
        lessors
    }
}

/// Reading a building row keeps every column in the field of the same name,
/// whether the row is read on its own or as part of a listing.
pub proof fn lemma_building_row_keeps_columns(rows: Seq<RawBuilding>, i: int)
    requires
        0 <= i < rows.len(),
    ensures
        ({
            let raw = rows[i];
            let b = rows.map_values(|r: RawBuilding| building_of_row(r))[i];
            &&& b.id == raw.id
            &&& b.created_at == raw.created_at
            &&& b.updated_at == raw.updated_at
            &&& b.lessor_id == raw.lessor_id
            &&& b.name == raw.name
            &&& b.prefecture == raw.prefecture
            &&& b.ward == raw.ward
            &&& b.city == raw.city
            &&& b.block == raw.block
            &&& <Building as vstd::std_specs::convert::TryFromSpec<RawBuilding>>::try_from_spec(raw) == Ok::<
                Building,
                Infallible,
            >(b)
        }),
{
}

/// Reading a lessor row keeps every column in the field of the same name,
/// whether the row is read on its own or as part of a listing.
pub proof fn lemma_lessor_row_keeps_columns(rows: Seq<RawLessor>, i: int)
    requires
        0 <= i < rows.len(),
    ensures
        ({
            let raw = rows[i];
            let l = rows.map_values(|r: RawLessor| lessor_of_row(r))[i];
            &&& l.id == raw.id
            &&& l.name == raw.name
            &&& l.created_at == raw.created_at
            &&& l.updated_at == raw.updated_at
            &&& <Lessor as vstd::std_specs::convert::FromSpec<RawLessor>>::from_spec(raw) == l
        }),
{
}

/// A row of the `test_table` table.
#[derive(Clone)]
pub struct TestTable {
    pub id: i64,
    pub name: String,
    pub created_at: NaiveDateTime,
    pub updated_at: NaiveDateTime,
}

/// What a user enters to add a row to `test_table`.
#[derive(PartialEq, Debug, Default)]
pub struct TestTableInput {
    pub name: String,
}

/// A user as the service hands it on, which is also a row of `users`.
#[derive(Clone, Debug)]
pub struct User {
    pub id: i64,
    pub lessor_id: i64,
    pub name: String,
    pub created_at: NaiveDateTime,
    pub updated_at: NaiveDateTime,
}

/// What a user enters to register a user.
#[derive(PartialEq, Debug, Default)]
pub struct UserInput {
    pub name: String,
}

/// `i64::try_from` on a `u64`: the same number when it is at most
/// `i64::MAX`, else an error. The error value itself is not described.
#[verifier::external_body]
fn i64_from_u64(v: u64) -> (r: Result<i64, TryFromIntError>)
    ensures
        r is Ok <==> v <= i64::MAX,
        r matches Ok(x) ==> x == v,
{
    i64::try_from(v)
}

/// The identifier of an inserted row, from the id the database reports for
/// the insert: refused when it does not fit in `i64`.
pub fn inserted_id(last_insert_id: u64) -> (r: Result<i64, TryFromIntError>)
    ensures
        r is Ok <==> last_insert_id <= i64::MAX,
        r matches Ok(x) ==> x == last_insert_id,
{
    i64_from_u64(last_insert_id)
}

} // verus!
