//! What the GraphQL resolvers compute: the fields of the exposed objects,
//! the identifiers they follow, and whose buildings a query lists.

use crate::ids::{BuildingId, LessorId, UserId, building_id_of, lessor_id_of, user_id_of};
use crate::records::{Building, Lessor, User};
use core::num::TryFromIntError;
use vstd::prelude::*;

verus! {

/// A building as the schema exposes it.
#[derive(Clone)]
pub struct GQLBuilding(pub Building);

impl From<Building> for GQLBuilding {
    fn from(building: Building) -> (r: GQLBuilding)
        ensures
            r.0 == building,
    {
        GQLBuilding(building)
    }
}

impl vstd::std_specs::convert::FromSpecImpl<Building> for GQLBuilding {
    open spec fn obeys_from_spec() -> bool {
        true
    }

    open spec fn from_spec(building: Building) -> GQLBuilding {
        GQLBuilding(building)
    }
}

/// The text of an optional field, as `Option::as_deref` lends it.
fn optional_text(field: &Option<String>) -> (r: Option<&str>)
    ensures
        match field {
            Some(s) => r matches Some(t) && t@ == s@,
            None => r is None,
        },
{
    match field {
        Some(s) => Some(s.as_str()),
        None => None,
    }
}

impl GQLBuilding {
    /// The lessor the building belongs to, as the schema's identifier.
    pub fn lessor_id(&self) -> (r: Result<LessorId, TryFromIntError>)
        ensures
            r == lessor_id_of(self.0.lessor_id),
    {
        LessorId::try_from(self.0.lessor_id)
    }

    /// The building's identifier in the schema.
    pub fn id(&self) -> (r: Result<BuildingId, TryFromIntError>)
        ensures
            r == building_id_of(self.0.id),
    {
        BuildingId::try_from(self.0.id)
    }

    pub fn name(&self) -> (r: &str)
        ensures
            r@ == self.0.name@,
    {
        self.0.name.as_str()
    }

    pub fn prefecture(&self) -> (r: &str)
        ensures
            r@ == self.0.prefecture@,
    {
        self.0.prefecture.as_str()
    }

    pub fn ward(&self) -> (r: &str)
        ensures
            r@ == self.0.ward@,
    {
        self.0.ward.as_str()
    }

    pub fn city(&self) -> (r: &str)
        ensures
            r@ == self.0.city@,
    {
        self.0.city.as_str()
    }

    pub fn block(&self) -> (r: Option<&str>)
        ensures
            match self.0.block {
                Some(s) => r matches Some(t) && t@ == s@,
                None => r is None,
            },
    {
        optional_text(&self.0.block)
    }
}

/// A lessor as the schema exposes it.
#[derive(Clone)]
pub struct GQLLessor(pub Lessor);

impl From<Lessor> for GQLLessor {
    fn from(lessor: Lessor) -> (r: GQLLessor)
        ensures
            r.0 == lessor,
    {
        GQLLessor(lessor)
    }
}

impl vstd::std_specs::convert::FromSpecImpl<Lessor> for GQLLessor {
    open spec fn obeys_from_spec() -> bool {
        true
    }

    open spec fn from_spec(lessor: Lessor) -> GQLLessor {
        GQLLessor(lessor)
    }
}

impl GQLLessor {
    /// The lessor's identifier in the schema.
    pub fn id(&self) -> (r: Result<LessorId, TryFromIntError>)
        ensures
            r == lessor_id_of(self.0.id),
    {
        LessorId::try_from(self.0.id)
    }

    pub fn name(&self) -> (r: &str)
        ensures
            r@ == self.0.name@,
    {
        self.0.name.as_str()
    }
}

/// A user as the schema exposes it.
#[derive(Clone)]
pub struct GQLUser(pub User);

impl From<User> for GQLUser {
    fn from(user: User) -> (r: GQLUser)
        ensures
            r.0 == user,
    {
        GQLUser(user)
    }
}

impl vstd::std_specs::convert::FromSpecImpl<User> for GQLUser {
    open spec fn obeys_from_spec() -> bool {
        true
    }

    open spec fn from_spec(user: User) -> GQLUser {
        GQLUser(user)
    }
}

impl GQLUser {
    /// The user's identifier in the schema.
    pub fn id(&self) -> (r: Result<UserId, TryFromIntError>)
        ensures
            r == user_id_of(self.0.id),
    {
        UserId::try_from(self.0.id)
    }

    pub fn name(&self) -> (r: &str)
        ensures
            r@ == self.0.name@,
    {
        self.0.name.as_str()
    }

    /// The lessor the user belongs to, as the schema's identifier.
    pub fn lessor_id(&self) -> (r: Result<LessorId, TryFromIntError>)
        ensures
            r == lessor_id_of(self.0.lessor_id),
    {
        LessorId::try_from(self.0.lessor_id)
    }
}

/// The schema's objects wrap their record unchanged, so every field they
/// show is the record's own field.
pub proof fn lemma_objects_wrap_records_unchanged(b: Building, l: Lessor, u: User)
    ensures
        <GQLBuilding as vstd::std_specs::convert::FromSpec<Building>>::from_spec(b).0 == b,
        <GQLLessor as vstd::std_specs::convert::FromSpec<Lessor>>::from_spec(l).0 == l,
        <GQLUser as vstd::std_specs::convert::FromSpec<User>>::from_spec(u).0 == u,
{
}

/// Whose buildings the `buildings` query lists: those of the signed-in
/// user's lessor; a request without a user lists none and asks nothing.
pub fn buildings_lessor_id(user: &Option<User>) -> (r: Option<i64>)
    ensures
        r == match user {
            Some(u) => Some(u.lessor_id),
            None => None::<i64>,
        },
{
    match user {
        Some(u) => Some(u.lessor_id),
        None => None,
    }
}

} // verus!
