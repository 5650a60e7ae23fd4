//! The service's domain records and the bodies of its requests and responses.

use vstd::prelude::*;
use vstd::string::*;

verus! {

/// A dish on the menu.
#[derive(Clone)]
pub struct MenuItem {
    pub id: i32,
    pub dish_title: String,
    pub cost: i64,
    pub time_to_cook: i32,
    pub is_available: bool,
}

/// The role a user acts in.
#[derive(Clone, Copy, Debug, PartialEq, Eq, Structural)]
pub enum Role {
    Admin,
    Waiter,
    Cook,
}

/// A user whose credentials were accepted.
pub struct AuthenticatedUser {
    pub id: i32,
    pub username: String,
    pub role: Role,
}

/// Where an order stands.
#[derive(Clone, Copy, Debug, PartialEq, Eq, Structural)]
pub enum OrderStatus {
    Created,
    Cooking,
    Ready,
    Served,
    Paid,
    Cancelled,
}

/// Body of a request that moves an order to another status.
#[derive(Clone, Copy)]
pub struct HttpUpdateOrderStatusRequest {
    pub status: OrderStatus,
}

/// Body of a request that opens an order for a table.
#[derive(Clone)]
pub struct HttpCreateOrderRequest {
    pub table_number: i32,
    pub menu_item_ids: Vec<i32>,
}

/// Body of a request that adds a dish to the menu.
#[derive(Clone)]
pub struct HttpCreateMenuItemRequest {
    pub dish_title: String,
    pub cost: i64,
    pub time_to_cook: i32,
}

/// Body of a request that changes a dish on the menu.
#[derive(Clone, Copy)]
pub struct HttpUpdateMenuItemRequest {
    pub cost: i64,
    pub time_to_cook: i32,
    pub is_available: bool,
}

/// Body of a request that adds dishes to an order.
#[derive(Clone)]
pub struct HttpAddOrderItemRequest {
    pub menu_position_ids: Vec<i32>,
}

/// Answer to a menu request.
pub struct HttpGetMenuResponse {
    pub menu: Vec<MenuItem>,
}

/// Answer to a created order: its id.
pub struct HttpCreateOrderResponse {
    pub id: i32,
}

/// Answer to a dish added to the menu: its id.
pub struct HttpCreateMenuItemResponse {
    pub id: i32,
}

/// Answer to a deleted order: how many entries went.
pub struct HttpDeleteOrderResponse {
    pub entries_deleted: i32,
}

/// Body of every error answer.
pub struct HttpErrorResponse {
    pub error: String,
    pub message: String,
}

/// The role stored under `name`: exactly `Admin`, `Waiter` and `Cook` are
/// names of roles.
pub open spec fn role_named(name: Seq<char>) -> Option<Role> {
    if name == "Admin"@ {
        Some(Role::Admin)
    } else if name == "Waiter"@ {
        Some(Role::Waiter)
    } else if name == "Cook"@ {
        Some(Role::Cook)
    } else {
        None
    }
}

impl Role {
    /// Reads a role from its stored name; any other name is refused with
    /// `Invalid role: <name>`.
    pub fn from_name(name: &str) -> (res: Result<Role, String>)
        ensures
            match role_named(name@) {
                Some(role) => res == Ok::<Role, String>(role),
                None => res matches Err(msg) && msg@ == "Invalid role: "@ + name@,
            },
    {
        let given = name.to_owned();
        if given == String::from_str("Admin") {
            Ok(Role::Admin)
        } else if given == String::from_str("Waiter") {
            Ok(Role::Waiter)
        } else if given == String::from_str("Cook") {
            Ok(Role::Cook)
        } else {
            let mut msg = String::from_str("Invalid role: ");
            msg.append(name);
            Err(msg)
        }
    }
}


/// Each role has exactly one stored name: `Admin`, `Waiter` and `Cook` read
/// as those roles, and a name reads as a role only if it is that role's
/// name.
pub proof fn lemma_role_names(name: Seq<char>)
    ensures
        role_named("Admin"@) == Some(Role::Admin),
        role_named("Waiter"@) == Some(Role::Waiter),
        role_named("Cook"@) == Some(Role::Cook),
        role_named(name) == Some(Role::Admin) ==> name == "Admin"@,
        role_named(name) == Some(Role::Waiter) ==> name == "Waiter"@,
        role_named(name) == Some(Role::Cook) ==> name == "Cook"@,
{
    reveal_strlit("Admin");
    reveal_strlit("Waiter");
    reveal_strlit("Cook");
    assert("Admin"@.len() == 5);
    assert("Waiter"@.len() == 6);
    assert("Cook"@.len() == 4);
}

} // verus!
