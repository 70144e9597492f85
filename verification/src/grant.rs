//! Caller roles and their extraction from a request's credential.

use vstd::prelude::*;
use vstd::string::*;

verus! {

/// The classification of a caller. Closed: every authorization decision is a
/// total function of these three variants.
#[derive(Clone, Copy, Debug, PartialEq, Eq, Structural, Hash)]
pub enum Role {
    /// No credential was presented.
    Guest,
    /// An identified customer of the storefront.
    Customer,
    /// A member of the storefront's staff.
    Operator,
}

/// Why a presented credential does not identify a caller.
#[derive(Clone, Copy, Debug, PartialEq, Eq, Structural, Hash)]
pub enum AuthenticationError {
    /// The credential could not be decoded, or claims a role that does not exist.
    Malformed,
    /// The credential was well formed, but its validity ended at or before
    /// the time of the request.
    Expired,
}

/// What the transport layer found in the request where a credential belongs.
///
/// The encoding of a credential in headers or cookies is the transport's
/// business; it reports the decoded claim, or that nothing could be decoded.
#[derive(Debug, PartialEq, Eq)]
pub enum Credential {
    /// The request carries no credential at all.
    Absent,
    /// Something was presented as a credential, and it does not decode.
    Undecodable,
    /// A decoded claim: the name of a role, and the second (on the clock that
    /// the gateway reads) at which the claim stops being valid.
    Claim { role: String, expires_at: u64 },
}

/// The mathematical content of a [`Credential`].
pub ghost enum CredentialView {
    Absent,
    Undecodable,
    Claim { role: Seq<char>, expires_at: u64 },
}

impl View for Credential {
    type V = CredentialView;

    open spec fn view(&self) -> CredentialView {
        match self {
            Credential::Absent => CredentialView::Absent,
            Credential::Undecodable => CredentialView::Undecodable,
            Credential::Claim { role, expires_at } => CredentialView::Claim {
                role: role@,
                expires_at: *expires_at,
            },
        }
    }
}

impl Clone for Credential {
    fn clone(&self) -> (copy: Credential)
        ensures
            copy@ == self@,
    {
        match self {
            Credential::Absent => Credential::Absent,
            Credential::Undecodable => Credential::Undecodable,
            Credential::Claim { role, expires_at } => Credential::Claim {
                role: role.clone(),
                expires_at: *expires_at,
            },
        }
    }
}

/// The role that a name stands for in a credential, if any.
pub open spec fn role_named(name: Seq<char>) -> Option<Role> {
    if name == "guest"@ {
        Some(Role::Guest)
    } else if name == "customer"@ {
        Some(Role::Customer)
    } else if name == "operator"@ {
        Some(Role::Operator)
    } else {
        None
    }
}

/// The role that a credential yields at time `now`.
///
/// No credential yields the guest role. A claim is checked for its form
/// first and for its expiry second; it is valid strictly before `expires_at`.
pub open spec fn role_of(credential: CredentialView, now: u64) -> Result<Role, AuthenticationError> {
    match credential {
        CredentialView::Absent => Ok(Role::Guest),
        CredentialView::Undecodable => Err(AuthenticationError::Malformed),
        CredentialView::Claim { role, expires_at } => match role_named(role) {
            None => Err(AuthenticationError::Malformed),
            Some(r) => if expires_at <= now {
                Err(AuthenticationError::Expired)
            } else {
                Ok(r)
            },
        },
    }
}

impl Role {
    /// The name under which a credential claims this role.
    pub open spec fn spec_name(self) -> Seq<char> {
        match self {
            Role::Guest => "guest"@,
            Role::Customer => "customer"@,
            Role::Operator => "operator"@,
        }
    }

    /// The name under which a credential claims this role.
    pub fn name(self) -> (s: &'static str)
        ensures
            s@ == self.spec_name(),
    {
        match self {
            Role::Guest => "guest",
            Role::Customer => "customer",
            Role::Operator => "operator",
        }
    }

    /// The role that `name` stands for, if it names one.
    pub fn from_name(name: &String) -> (r: Option<Role>)
        ensures
            r == role_named(name@),
    {
        if *name == String::from_str("guest") {
            Some(Role::Guest)
        } else if *name == String::from_str("customer") {
            Some(Role::Customer)
        } else if *name == String::from_str("operator") {
            Some(Role::Operator)
        } else {
            None
        }
    }
}

/// Every role is found again under its own name.
pub proof fn lemma_role_name_round_trip(role: Role)
    ensures
        role_named(role.spec_name()) == Some(role),
{
    reveal_strlit("guest");
    reveal_strlit("customer");
    reveal_strlit("operator");
    assert("customer"@[0] == 'c');
    assert("operator"@[0] == 'o');
}

/// Two roles with the same name are the same role.
pub proof fn lemma_role_names_distinct(a: Role, b: Role)
    requires
        a.spec_name() == b.spec_name(),
    ensures
        a == b,
{
    lemma_role_name_round_trip(a);
    lemma_role_name_round_trip(b);
}

/// Derives the caller's role from the credential of a request received at
/// time `now`. Reads nothing but its arguments.
pub fn extract(credential: &Credential, now: u64) -> (r: Result<Role, AuthenticationError>)
    ensures
        r == role_of(credential@, now),
        credential@ is Absent ==> r == Ok::<Role, AuthenticationError>(Role::Guest),
        credential@ is Undecodable ==> r == Err::<Role, AuthenticationError>(
            AuthenticationError::Malformed,
        ),
{
    match credential {
        Credential::Absent => Ok(Role::Guest),
        Credential::Undecodable => Err(AuthenticationError::Malformed),
        Credential::Claim { role, expires_at } => {
            match Role::from_name(role) {
                None => Err(AuthenticationError::Malformed),
                Some(r) => {
                    if *expires_at <= now {
                        Err(AuthenticationError::Expired)
                    } else {
                        Ok(r)
                    }
                },
            }
        },
    }
}

/// The role of the caller, bound to one request. Made once by the gateway,
/// read by everything downstream, changed by nothing.
#[derive(Clone, Copy, Debug, PartialEq, Eq, Structural, Hash)]
pub struct RoleData(Role);

impl View for RoleData {
    type V = Role;

    closed spec fn view(&self) -> Role {
        self.0
    }
}

impl RoleData {
    /// Binds `role` to the request at hand.
    pub fn new(role: Role) -> (data: RoleData)
        ensures
            data@ == role,
    {
        RoleData(role)
    }

    /// The role that was bound.
    pub fn role(&self) -> (role: Role)
        ensures
            role == self@,
    {
        self.0
    }
}

} // verus!
