//! Accounts and roles.

use vstd::prelude::*;

verus! {

/// An account.
#[derive(Debug, Clone)]
pub struct User {
    pub id: u128,
    pub telegram_id: i64,
    pub telegram_username: Option<String>,
    pub phone: Option<String>,
    pub full_name: Option<String>,
    pub is_verified: bool,
    pub is_active: bool,
}

/// What an account may do.
#[derive(Debug, Clone, Copy, PartialEq, Eq, Structural)]
pub enum Role {
    Admin,
    Operator,
    Customer,
}

/// The stored text of a role.
pub open spec fn role_text(r: Role) -> Seq<char> {
    match r {
        Role::Admin => "admin"@,
        Role::Operator => "operator"@,
        Role::Customer => "customer"@,
    }
}

impl Role {
    /// The text under which this role is stored.
    pub fn as_str(self) -> (s: &'static str)
        ensures
            s@ == role_text(self),
    {
        match self {
            Role::Admin => "admin",
            Role::Operator => "operator",
            Role::Customer => "customer",
        }
    }
}

/// Different roles are stored under different texts.
pub proof fn lemma_role_text_injective(a: Role, b: Role)
    ensures
        role_text(a) == role_text(b) ==> a == b,
{
    reveal_strlit("admin");
    reveal_strlit("operator");
    reveal_strlit("customer");
    assert("admin"@.len() == 5 && "operator"@.len() == 8 && "customer"@.len() == 8);
    assert("operator"@[0] != "customer"@[0]);
}

} // verus!
