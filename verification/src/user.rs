use vstd::prelude::*;

verus! {

/// What a user is allowed to do; checked by the callers of the workflows.
#[derive(Clone, Copy, Debug, PartialEq, Eq, Structural)]
pub enum Role {
    Admin,
    Customer,
    Mechanic,
}

/// An account: a customer, a mechanic, or an administrator.
///
/// `id` is `None` until the repository has persisted the user.
/// `password_hash` holds a PHC string, never the password itself.
#[derive(Clone, Debug, PartialEq)]
pub struct User {
    pub id: Option<i32>,
    pub username: String,
    pub password_hash: String,
    pub name: String,
    pub phone: String,
    pub role: Role,
}

impl User {
    /// A fresh, not yet persisted account with the `Customer` role.
    pub fn new_customer(
        username: String,
        password_hash: String,
        name: String,
        phone: String,
    ) -> (user: User)
        ensures
            user == (User {
                id: None::<i32>,
                username,
                password_hash,
                name,
                phone,
                role: Role::Customer,
            }),
    {
        User {
            id: None,
            username,
            password_hash,
            name,
            phone,
            role: Role::Customer,
        }
    }

    pub fn is_admin(&self) -> (r: bool)
        ensures
            r == (self.role == Role::Admin),
    {
        matches!(self.role, Role::Admin)
    }

    pub fn is_mechanic(&self) -> (r: bool)
        ensures
            r == (self.role == Role::Mechanic),
    {
        matches!(self.role, Role::Mechanic)
    }
}

} // verus!
