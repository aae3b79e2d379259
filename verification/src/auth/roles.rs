//! User roles and the authorization decision.

use crate::status::Status;
use std::cmp::Ordering;
use vstd::prelude::*;
use vstd::std_specs::cmp::PartialOrdSpecImpl;

verus! {

/// User roles, used for authenticated access to certain endpoints.
#[derive(Copy, Clone, Debug, PartialEq, Eq, Structural)]
pub enum Roles {
    Admin,
    User,
    Guest,
}

/// How two ranks stand to each other.
pub open spec fn rank_ordering(left: nat, right: nat) -> Ordering {
    if left < right {
        Ordering::Less
    } else if left == right {
        Ordering::Equal
    } else {
        Ordering::Greater
    }
}

impl Roles {
    /// The privilege tier of a role. Roles are ordered by this number alone,
    /// never by the order in which the variants are declared.
    pub open spec fn rank(self) -> nat {
        match self {
            Roles::Guest => 0,
            Roles::User => 1,
            Roles::Admin => 2,
        }
    }

    /// What `authorize` answers when a user who holds `self` meets an
    /// endpoint that asks for `required`: the check fails exactly when the
    /// required role ranks below the role held.
    pub open spec fn authorize_result(self, required: Roles) -> Result<(), Status> {
        if required.rank() < self.rank() {
            Err(Status::Unauthorized)
        } else {
            Ok(())
        }
    }

    /// The privilege tier of a role.
    pub fn rank_of(&self) -> (rank: u8)
        ensures
            rank == self.rank(),
    {
        match self {
            Roles::Guest => 0,
            Roles::User => 1,
            Roles::Admin => 2,
        }
    }

    /// Compares two roles by rank.
    pub fn cmp(&self, other: &Self) -> (ordering: Ordering)
        ensures
            ordering == rank_ordering(self.rank(), other.rank()),
    {
        let left: u8 = self.rank_of();
        let right: u8 = other.rank_of();
        if left < right {
            Ordering::Less
        } else if left == right {
            Ordering::Equal
        } else {
            Ordering::Greater
        }
    }

    /// Decides whether a user who holds `self` passes a check against
    /// `comp_role`, the role that the endpoint asks for. The check fails
    /// exactly when `comp_role` ranks below `self`: a user of higher rank
    /// does not pass a check for a lower role.
    pub fn authorize(&self, comp_role: Self) -> (result: Result<(), Status>)
        ensures
            result == self.authorize_result(comp_role),
    {
        if comp_role < *self {
            return Err(Status::Unauthorized);
        }
        Ok(())
    }
}

/// The ranks put the roles in one fixed order, Guest below User below Admin,
/// and no two roles share a rank.
pub proof fn lemma_rank_orders_roles(left: Roles, right: Roles)
    ensures
        Roles::Guest.rank() < Roles::User.rank() < Roles::Admin.rank(),
        left.rank() == right.rank() <==> left == right,
        left.rank() < right.rank() || left == right || right.rank() < left.rank(),
{
}

/// A check passes exactly when the required role ranks at least as high as
/// the role held.
pub proof fn lemma_authorize_passes(actual: Roles, required: Roles)
    ensures
        actual.authorize_result(required) is Ok <==> required.rank() >= actual.rank(),
        actual.authorize_result(required) is Err ==> actual.authorize_result(required) == Err::<
            (),
            Status,
        >(Status::Unauthorized),
{
}

/// The decision depends on nothing but how the two ranks compare: two pairs
/// of roles whose ranks compare alike get the same answer.
pub proof fn lemma_authorize_depends_on_rank(
    actual: Roles,
    required: Roles,
    other_actual: Roles,
    other_required: Roles,
)
    requires
        (required.rank() < actual.rank()) == (other_required.rank() < other_actual.rank()),
    ensures
        actual.authorize_result(required) == other_actual.authorize_result(other_required),
{
}

/// The decision is monotonic in both roles: a check that passes still passes
/// when the endpoint asks for a role of higher rank, and when the user holds
/// a role of lower rank.
pub proof fn lemma_authorize_is_monotonic(
    actual: Roles,
    required: Roles,
    lower_actual: Roles,
    higher_required: Roles,
)
    requires
        actual.authorize_result(required) is Ok,
        lower_actual.rank() <= actual.rank(),
        required.rank() <= higher_required.rank(),
    ensures
        lower_actual.authorize_result(higher_required) is Ok,
{
}

impl PartialOrd for Roles {
    fn partial_cmp(&self, other: &Self) -> (ordering: Option<Ordering>) {
        Some(self.cmp(other))
    }
}

impl PartialOrdSpecImpl for Roles {
    open spec fn obeys_partial_cmp_spec() -> bool {
        true
    }

    open spec fn partial_cmp_spec(&self, other: &Self) -> Option<Ordering> {
        Some(rank_ordering(self.rank(), other.rank()))
    }
}

} // verus!
