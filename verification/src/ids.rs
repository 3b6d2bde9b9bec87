//! Identifiers that the GraphQL schema exposes as 32-bit integers, and their
//! conversions from and to the 64-bit identifiers of the database.

use core::num::TryFromIntError;
use vstd::prelude::*;

verus! {

/// The identifier of a building.
#[derive(Clone, Copy, PartialEq, Eq, Hash, Debug, Structural)]
pub struct BuildingId(pub i32);

/// The identifier of a lessor.
#[derive(Clone, Copy, PartialEq, Eq, Hash, Debug, Structural)]
pub struct LessorId(pub i32);

/// The identifier of a user.
#[derive(Clone, Copy, PartialEq, Eq, Hash, Debug, Structural)]
pub struct UserId(pub i32);

/// A database identifier fits the schema's identifiers when it fits in `i32`.
pub open spec fn fits_i32(v: i64) -> bool {
    i32::MIN <= v <= i32::MAX
}

/// What narrowing a database identifier gives: the same number, or the
/// error of `i32::try_from` when it does not fit.
pub open spec fn building_id_of(v: i64) -> Result<BuildingId, TryFromIntError> {
    if fits_i32(v) {
        Ok(BuildingId(v as i32))
    } else {
        Err(arbitrary())
    }
}

pub open spec fn lessor_id_of(v: i64) -> Result<LessorId, TryFromIntError> {
    if fits_i32(v) {
        Ok(LessorId(v as i32))
    } else {
        Err(arbitrary())
    }
}

pub open spec fn user_id_of(v: i64) -> Result<UserId, TryFromIntError> {
    if fits_i32(v) {
        Ok(UserId(v as i32))
    } else {
        Err(arbitrary())
    }
}

impl TryFrom<i64> for BuildingId {
    type Error = TryFromIntError;

    fn try_from(v: i64) -> (r: Result<BuildingId, TryFromIntError>) {
        match i32::try_from(v) {
            Ok(x) => Ok(BuildingId(x)),
            Err(e) => Err(e),
        }
    }
}

impl vstd::std_specs::convert::TryFromSpecImpl<i64> for BuildingId {
    open spec fn obeys_try_from_spec() -> bool {
        true
    }

    open spec fn try_from_spec(v: i64) -> Result<BuildingId, TryFromIntError> {
        building_id_of(v)
    }
}

impl From<BuildingId> for i64 {
    fn from(id: BuildingId) -> (r: i64) {
        id.0 as i64
    }
}

impl vstd::std_specs::convert::FromSpecImpl<BuildingId> for i64 {
    open spec fn obeys_from_spec() -> bool {
        true
    }

    open spec fn from_spec(id: BuildingId) -> i64 {
        id.0 as i64
    }
}

impl TryFrom<i64> for LessorId {
    type Error = TryFromIntError;

    fn try_from(v: i64) -> (r: Result<LessorId, TryFromIntError>) {
        match i32::try_from(v) {
            Ok(x) => Ok(LessorId(x)),
            Err(e) => Err(e),
        }
    }
}

impl vstd::std_specs::convert::TryFromSpecImpl<i64> for LessorId {
    open spec fn obeys_try_from_spec() -> bool {
        true
    }

    open spec fn try_from_spec(v: i64) -> Result<LessorId, TryFromIntError> {
        lessor_id_of(v)
    }
}

impl From<LessorId> for i64 {
    fn from(id: LessorId) -> (r: i64) {
        id.0 as i64
    }
}

impl vstd::std_specs::convert::FromSpecImpl<LessorId> for i64 {
    open spec fn obeys_from_spec() -> bool {
        true
    }

    open spec fn from_spec(id: LessorId) -> i64 {
        id.0 as i64
    }
}

impl TryFrom<i64> for UserId {
    type Error = TryFromIntError;

    fn try_from(v: i64) -> (r: Result<UserId, TryFromIntError>) {
        match i32::try_from(v) {
            Ok(x) => Ok(UserId(x)),
            Err(e) => Err(e),
        }
    }
}

impl vstd::std_specs::convert::TryFromSpecImpl<i64> for UserId {
    open spec fn obeys_try_from_spec() -> bool {
        true
    }

    open spec fn try_from_spec(v: i64) -> Result<UserId, TryFromIntError> {
        user_id_of(v)
    }
}

impl From<UserId> for i64 {
    fn from(id: UserId) -> (r: i64) {
        id.0 as i64
    }
}

impl vstd::std_specs::convert::FromSpecImpl<UserId> for i64 {
    open spec fn obeys_from_spec() -> bool {
        true
    }

    open spec fn from_spec(id: UserId) -> i64 {
        id.0 as i64
    }
}

/// Widening a building identifier and narrowing it again gives it back, and
/// a narrowing that succeeds loses nothing.
pub proof fn lemma_building_id_round_trip(id: BuildingId, v: i64)
    ensures
        building_id_of(id.0 as i64) == Ok::<BuildingId, TryFromIntError>(id),
        building_id_of(v) matches Ok(narrowed) ==> narrowed.0 as i64 == v,
        building_id_of(v) is Ok <==> fits_i32(v),
{
}

/// Widening a lessor identifier and narrowing it again gives it back, and
/// a narrowing that succeeds loses nothing.
pub proof fn lemma_lessor_id_round_trip(id: LessorId, v: i64)
    ensures
        lessor_id_of(id.0 as i64) == Ok::<LessorId, TryFromIntError>(id),
        lessor_id_of(v) matches Ok(narrowed) ==> narrowed.0 as i64 == v,
        lessor_id_of(v) is Ok <==> fits_i32(v),
{
}

/// Widening a user identifier and narrowing it again gives it back, and
/// a narrowing that succeeds loses nothing.
pub proof fn lemma_user_id_round_trip(id: UserId, v: i64)
    ensures
        user_id_of(id.0 as i64) == Ok::<UserId, TryFromIntError>(id),
        user_id_of(v) matches Ok(narrowed) ==> narrowed.0 as i64 == v,
        user_id_of(v) is Ok <==> fits_i32(v),
{
}

} // verus!
