//! The application-level user record and its role taxonomy.
//!
//! Roles form a closed set of known names plus one explicit catch-all
//! carrying the raw stored value, so an unknown role name never fails
//! parsing but is still distinguishable from the known roles for
//! authorization checks.

use vstd::prelude::*;

verus! {

/// A user's role: the two known roles, or the raw stored value of an
/// unknown one.
#[derive(Debug, Clone)]
pub enum UserRole {
    Admin,
    User,
    Unknown(String),
}

impl UserRole {
    /// Parses a stored role name; any unknown name is kept verbatim.
    pub fn from_name(value: String) -> (r: UserRole)
        ensures
            value@ == "admin"@ ==> r == UserRole::Admin,
            value@ == "user"@ ==> r == UserRole::User,
            value@ != "admin"@ && value@ != "user"@ ==> r == UserRole::Unknown(value),
    {
        proof {
            reveal_strlit("admin");
            reveal_strlit("user");
            assert("admin"@.len() == 5);
            assert("user"@.len() == 4);
        }
        if value == String::from_str("admin") {
            UserRole::Admin
        } else if value == String::from_str("user") {
            UserRole::User
        } else {
            UserRole::Unknown(value)
        }
    }

    /// The stored name of the role: the inverse of `from_name` on the
    /// known names, and the raw value for an unknown role.
    pub fn name(&self) -> (r: String)
        ensures
            self is Admin ==> r@ == "admin"@,
            self is User ==> r@ == "user"@,
            self matches UserRole::Unknown(v) ==> r@ == v@,
    {
        match self {
            UserRole::Admin => String::from_str("admin"),
            UserRole::User => String::from_str("user"),
            UserRole::Unknown(v) => v.clone(),
        }
    }
}

/// The authentication state a rendered page distinguishes: a known user,
/// an administrator, or no usable identity.
#[derive(Debug, Clone, Copy, PartialEq, Eq, Structural)]
pub enum AuthState {
    User,
    Admin,
    Unauthenticated,
}

/// An application user: the subject identifier it is stored under, and its
/// role.
#[derive(Debug, Clone)]
pub struct User {
    id: String,
    role: UserRole,
}

/// The raw row a user is read from.
pub struct UserInner {
    pub id: String,
    pub role: UserRole,
}

/// A record type that is read from a raw row.
pub trait Queryable: Sized {
    type Inner;

    fn parse(inner: Self::Inner) -> Self;
}

impl Queryable for User {
    type Inner = UserInner;

    fn parse(inner: UserInner) -> User {
        User { id: inner.id, role: inner.role }
    }
}

impl User {
    /// Builds a user record.
    pub fn new(id: String, role: UserRole) -> (u: User)
        ensures
            u.id_spec() == id,
            u.role_spec() == role,
    {
        User { id, role }
    }

    /// The subject identifier the user is stored under.
    pub fn id(&self) -> (r: &String)
        ensures
            r == self.id_spec(),
    {
        &self.id
    }

    /// The user's role.
    pub fn role(&self) -> (r: &UserRole)
        ensures
            r == self.role_spec(),
    {
        &self.role
    }

    /// The stored subject identifier, in specifications.
    pub closed spec fn id_spec(self) -> String {
        self.id
    }

    /// The stored role, in specifications.
    pub closed spec fn role_spec(self) -> UserRole {
        self.role
    }

    /// Whether the user holds the administrator role.  An unknown role is
    /// never an administrator.
    pub fn is_admin(&self) -> (r: bool)
        ensures
            r <==> self.role_spec() is Admin,
    {
        match self.role {
            UserRole::Admin => true,
            _ => false,
        }
    }

    /// The authentication state this user gives a rendered page.  A user
    /// with an unknown role is shown the unauthenticated layout.
    pub fn auth_state(&self) -> (r: AuthState)
        ensures
            self.role_spec() is Admin ==> r == AuthState::Admin,
            self.role_spec() is User ==> r == AuthState::User,
            self.role_spec() is Unknown ==> r == AuthState::Unauthenticated,
    {
        match self.role {
            UserRole::Admin => AuthState::Admin,
            UserRole::User => AuthState::User,
            UserRole::Unknown(_) => AuthState::Unauthenticated,
        }
    }
}

impl AuthState {
    /// Where the page title links: home for a signed-in viewer, nowhere
    /// for an unauthenticated one.
    pub fn title_href(&self) -> (r: &'static str)
        ensures
            *self is Unauthenticated ==> r@ == "#"@,
            !(*self is Unauthenticated) ==> r@ == "/"@,
    {
        match self {
            AuthState::Unauthenticated => "#",
            _ => "/",
        }
    }
}

/// Whether a first login must provision a user record: exactly when the
/// subject's lookup found nothing.
pub fn needs_provisioning(existing: &Option<User>) -> (r: bool)
    ensures
        r <==> existing is None,
{
    match existing {
        Some(_) => false,
        None => true,
    }
}

} // verus!
