//! Users and their roles.

use vstd::prelude::*;
use crate::text::same_text;

verus! {

/// What a user is to the shop.
#[derive(Clone, Copy, Debug, PartialEq, Eq, Structural)]
pub enum Role {
    /// Fills carts, places and cancels orders.
    Customer,
    /// Owns products and handles the orders that hold them.
    Vendor,
}

impl Role {
    /// The role that `text` names, if it names one.
    pub open spec fn named(text: Seq<char>) -> Option<Role> {
        if text == "customer"@ {
            Some(Role::Customer)
        } else if text == "vendor"@ {
            Some(Role::Vendor)
        } else {
            None
        }
    }

    /// The name under which the role is stored and sent.
    pub open spec fn name(self) -> Seq<char> {
        match self {
            Role::Customer => "customer"@,
            Role::Vendor => "vendor"@,
        }
    }

    /// Reads a role from its name. Any other text names no role.
    pub fn parse(text: &str) -> (role: Option<Role>)
        ensures
            role == Role::named(text@),
    {
        if same_text(text, "customer") {
            Some(Role::Customer)
        } else if same_text(text, "vendor") {
            Some(Role::Vendor)
        } else {
            None
        }
    }

    /// The name under which the role is stored and sent.
    pub fn as_str(self) -> (name: &'static str)
        ensures
            name@ == self.name(),
    {
        match self {
            Role::Customer => "customer",
            Role::Vendor => "vendor",
        }
    }

    /// A role is read back from its own name.
    pub proof fn lemma_name_round_trip(role: Role)
        ensures
            Role::named(role.name()) == Some(role),
    {
        reveal_strlit("customer");
        reveal_strlit("vendor");
        assert("customer"@.len() != "vendor"@.len());
    }
}

/// A registered user.
#[derive(Clone, Debug, PartialEq, Eq)]
pub struct User {
    pub id: u128,
    pub username: String,
    /// Unique among all users.
    pub email: String,
    /// The password as a PHC string; never the password itself.
    pub password_hash: String,
    pub role: Role,
}

} // verus!
