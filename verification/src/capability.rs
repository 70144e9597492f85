//! The capability table: which roles may invoke which operation.

use crate::grant::{Role, RoleData};
use vstd::prelude::*;

verus! {

/// The operations that the gateway dispatches.
#[derive(Clone, Copy, Debug, PartialEq, Eq, Structural, Hash)]
pub enum Operation {
    /// Look up the state of one order. Public.
    TrackOrder,
    /// Submit a new order.
    SubmitOrder,
    /// List the orders of all customers.
    ListOrders,
}

/// Why an identified caller may not have what it asked for.
#[derive(Clone, Copy, Debug, PartialEq, Eq, Structural, Hash)]
pub enum AuthorizationError {
    /// The caller's role is not among those that may invoke the operation.
    Forbidden { operation: Operation, role: Role },
    /// The abuse gate judged the caller to be an automated agent.
    AbuseRejected,
}

/// The capability table itself: the roles that may invoke `operation`.
pub open spec fn permitted_roles(operation: Operation) -> Set<Role> {
    match operation {
        Operation::TrackOrder => set![Role::Guest, Role::Customer, Role::Operator],
        Operation::SubmitOrder => set![Role::Customer, Role::Operator],
        Operation::ListOrders => set![Role::Operator],
    }
}

/// What the check at dispatch answers for `role` asking for `operation`.
pub open spec fn dispatch_check(operation: Operation, role: Role) -> Result<
    (),
    AuthorizationError,
> {
    if permitted_roles(operation).contains(role) {
        Ok(())
    } else {
        Err(AuthorizationError::Forbidden { operation, role })
    }
}

/// Whether the table lets `role` invoke `operation`.
pub fn permits(operation: Operation, role: Role) -> (allowed: bool)
    ensures
        allowed == permitted_roles(operation).contains(role),
{
    match operation {
        Operation::TrackOrder => true,
        Operation::SubmitOrder => match role {
            Role::Guest => false,
            Role::Customer => true,
            Role::Operator => true,
        },
        Operation::ListOrders => match role {
            Role::Guest => false,
            Role::Customer => false,
            Role::Operator => true,
        },
    }
}

/// The check made once, at dispatch: the caller bound in `caller` may go on
/// with `operation`, or is refused with the operation and the role named.
pub fn authorize(operation: Operation, caller: &RoleData) -> (r: Result<(), AuthorizationError>)
    ensures
        r == dispatch_check(operation, caller@),
{
    let role = caller.role();
    if permits(operation, role) {
        Ok(())
    } else {
        Err(AuthorizationError::Forbidden { operation, role })
    }
}

/// At least one operation is open to a caller who presented no credential.
pub proof fn lemma_guest_reaches_public_operations()
    ensures
        dispatch_check(Operation::TrackOrder, Role::Guest) is Ok,
{
}

} // verus!
