//! The life of a request to one of the service's endpoints, as a state
//! machine that the HTTP layer drives: read the credentials, look the user
//! up, check the grant, for a waiter changing an order look up the waiter
//! assigned to it, run one database command, answer. Each step is a
//! verified function from what the previous outside work returned to the
//! next outside work (or the answer).

use vstd::prelude::*;
use vstd::string::*;

use crate::auth::{authorization, grants, header_text, parse_authorization, Access, Credentials};
use crate::error::{AppError, AppErrorView, DatabaseError, DatabaseErrorView, HttpError, HttpErrorView};
use crate::model::{
    AuthenticatedUser, HttpAddOrderItemRequest, HttpCreateMenuItemRequest,
    HttpCreateMenuItemResponse, HttpCreateOrderRequest, HttpCreateOrderResponse,
    HttpDeleteOrderResponse, HttpGetMenuResponse, HttpUpdateMenuItemRequest,
    HttpUpdateOrderStatusRequest, MenuItem, OrderStatus, Role,
};
use crate::text::{append_decimal, decimal};

verus! {

/// A request to one of the endpoints, with its path parameters and body.
#[derive(Clone)]
pub enum Route {
    /// `GET /v1/menu`
    GetMenu,
    /// `POST /v1/menu`
    PostMenuItem(HttpCreateMenuItemRequest),
    /// `PATCH /v1/menu/{item_id}`
    PatchMenuItem(i32, HttpUpdateMenuItemRequest),
    /// `DELETE /v1/menu/{item_id}`
    DeleteMenuItem(i32),
    /// `GET /v1/orders`
    GetOrders,
    /// `GET /v1/orders/{order_id}`
    GetOrderItems(i32),
    /// `GET /v1/orders/by_table/{table_id}`
    GetOrderItemsByTable(i32),
    /// `POST /v1/orders`
    PostOrder(HttpCreateOrderRequest),
    /// `POST /v1/orders/{order_id}`
    AddOrderItems(i32, HttpAddOrderItemRequest),
    /// `DELETE /v1/orders/items/{order_item_id}`
    DeleteOrderItem(i32),
    /// `DELETE /v1/orders/{order_id}`
    DeleteOrder(i32),
    /// `PATCH /v1/orders/{order_id}`
    UpdateOrderStatus(i32, HttpUpdateOrderStatusRequest),
}

/// One database command an endpoint runs.
pub enum DbCommand {
    GetMenu,
    InsertMenuItem { dish_title: String, cost: i64, time_to_cook: i32 },
    UpdateMenuItem { cost: i64, time_to_cook: i32, is_available: bool, item_id: i32 },
    DeleteMenuItem { item_id: i32 },
    GetOrders,
    GetOrderInfo { order_id: i32 },
    GetOrderItemsByTable { table_id: i32 },
    /// Opens an order served by `waiter_id` and adds the dishes to it.
    CreateOrder { table_number: i32, waiter_id: i32, menu_item_ids: Vec<i32> },
    InsertOrderItems { order_id: i32, menu_item_ids: Vec<i32> },
    DeleteOrderItem { order_item_id: i32 },
    DeleteOrder { order_id: i32 },
    UpdateOrderStatus { order_id: i32, status: OrderStatus },
}

/// What a database command came back with.
pub enum DbReply {
    /// The dishes of the menu.
    Menu(Vec<MenuItem>),
    /// Rows of orders or order items, which the HTTP layer keeps and sends.
    Rows,
    /// How many rows the command changed.
    Affected(u64),
    /// The id of the row the command inserted.
    Inserted(i32),
    /// The command failed.
    Failed(DatabaseError),
}

/// A successful answer.
pub enum Reply {
    /// `200 OK` without a body.
    Done,
    /// `201 Created` without a body.
    Created,
    /// `200 OK` with the menu.
    Menu(HttpGetMenuResponse),
    /// `200 OK` with the rows the query fetched.
    Rows,
    /// `201 Created` with the id of the new dish.
    MenuItemCreated(HttpCreateMenuItemResponse),
    /// `201 Created` with the id of the new order.
    OrderCreated(HttpCreateOrderResponse),
    /// `200 OK` with how many entries the deletion removed.
    OrderDeleted(HttpDeleteOrderResponse),
}

/// The order whose assigned waiter is to be looked up.
#[derive(Clone, Copy, Debug, PartialEq, Eq, Structural)]
pub enum OrderRef {
    /// The order with this id.
    Order(i32),
    /// The order that holds the order item with this id.
    OrderOfItem(i32),
}

/// What the HTTP layer is to do next for a request.
pub enum Step {
    /// Look up the user with these credentials.
    Authenticate(Credentials),
    /// Look up the waiter assigned to this order.
    FindAssignedWaiter(OrderRef),
    /// Run this database command.
    Query(DbCommand),
    /// Answer the request.
    Respond(Result<Reply, AppError>),
}

/// Who may call the endpoint; for a status change it depends on the new
/// status: cooks start and finish cooking, waiters open, serve and take
/// payment, only administrators cancel.
pub open spec fn required_access(route: &Route) -> Access {
    match route {
        Route::GetMenu => Access::AnyUser,
        Route::PostMenuItem(_) => Access::Cook,
        Route::PatchMenuItem(_, _) => Access::Cook,
        Route::DeleteMenuItem(_) => Access::Cook,
        Route::GetOrders => Access::AnyUser,
        Route::GetOrderItems(_) => Access::AnyUser,
        Route::GetOrderItemsByTable(_) => Access::AnyUser,
        Route::PostOrder(_) => Access::Waiter,
        Route::AddOrderItems(_, _) => Access::Waiter,
        Route::DeleteOrderItem(_) => Access::Waiter,
        Route::DeleteOrder(_) => Access::Admin,
        Route::UpdateOrderStatus(_, req) => match req.status {
            OrderStatus::Cooking | OrderStatus::Ready => Access::Cook,
            OrderStatus::Created | OrderStatus::Paid | OrderStatus::Served => Access::Waiter,
            OrderStatus::Cancelled => Access::Admin,
        },
    }
}

/// The reason given to a user who may not call the endpoint.
pub open spec fn refusal_text(route: &Route) -> Seq<char> {
    match route {
        Route::PatchMenuItem(_, _) => "Only administrators can update menu items"@,
        Route::UpdateOrderStatus(_, req) => match req.status {
            OrderStatus::Cooking | OrderStatus::Ready => "Only cooks can update cooking status"@,
            OrderStatus::Created | OrderStatus::Paid | OrderStatus::Served => "Only waiters can mark orders as served"@,
            OrderStatus::Cancelled => "Only admins can cancel or mark orders as paid"@,
        },
        _ => "User is not authorized for this action"@,
    }
}

/// The order a user in `role` must be assigned to before acting on it: a
/// waiter changes only orders assigned to them (adding or removing items,
/// and the statuses that waiters set); administrators and cooks are not
/// bound to an order, and nobody is bound for reads, for opening an order,
/// or for what only administrators or cooks may do.
pub open spec fn assignment_to_check(route: &Route, role: Role) -> Option<OrderRef> {
    if role != Role::Waiter {
        None
    } else {
        match route {
            Route::AddOrderItems(order_id, _) => Some(OrderRef::Order(*order_id)),
            Route::DeleteOrderItem(order_item_id) => Some(OrderRef::OrderOfItem(*order_item_id)),
            Route::UpdateOrderStatus(order_id, req) => match req.status {
                OrderStatus::Created | OrderStatus::Paid | OrderStatus::Served => Some(
                    OrderRef::Order(*order_id),
                ),
                _ => None,
            },
            _ => None,
        }
    }
}

/// The user may act on an order with this assigned waiter: administrators
/// on any order, others on the orders assigned to them; when the order is
/// not found the command runs and the database answers as for any missing
/// row.
pub open spec fn assignment_allows(user: &AuthenticatedUser, assigned_waiter: Option<i32>) -> bool {
    match assigned_waiter {
        None => true,
        Some(w) => user.role == Role::Admin || w == user.id,
    }
}

/// The reason given to a waiter acting on an order assigned to another
/// waiter.
pub open spec fn not_assigned_text() -> Seq<char> {
    "Only the waiter assigned to the order can change it"@
}

/// The database command a granted request runs, for the user `user_id`;
/// `None` where there is nothing to run (adding no dishes to an order).
pub open spec fn planned_command(route: &Route, user_id: i32) -> Option<DbCommand> {
    match route {
        Route::GetMenu => Some(DbCommand::GetMenu),
        Route::PostMenuItem(req) => Some(
            DbCommand::InsertMenuItem {
                dish_title: req.dish_title,
                cost: req.cost,
                time_to_cook: req.time_to_cook,
            },
        ),
        Route::PatchMenuItem(item_id, req) => Some(
            DbCommand::UpdateMenuItem {
                cost: req.cost,
                time_to_cook: req.time_to_cook,
                is_available: req.is_available,
                item_id: *item_id,
            },
        ),
        Route::DeleteMenuItem(item_id) => Some(DbCommand::DeleteMenuItem { item_id: *item_id }),
        Route::GetOrders => Some(DbCommand::GetOrders),
        Route::GetOrderItems(order_id) => Some(DbCommand::GetOrderInfo { order_id: *order_id }),
        Route::GetOrderItemsByTable(table_id) => Some(
            DbCommand::GetOrderItemsByTable { table_id: *table_id },
        ),
        Route::PostOrder(req) => Some(
            DbCommand::CreateOrder {
                table_number: req.table_number,
                waiter_id: user_id,
                menu_item_ids: req.menu_item_ids,
            },
        ),
        Route::AddOrderItems(order_id, req) => if req.menu_position_ids@.len() == 0 {
            None
        } else {
            Some(
                DbCommand::InsertOrderItems {
                    order_id: *order_id,
                    menu_item_ids: req.menu_position_ids,
                },
            )
        },
        Route::DeleteOrderItem(order_item_id) => Some(
            DbCommand::DeleteOrderItem { order_item_id: *order_item_id },
        ),
        Route::DeleteOrder(order_id) => Some(DbCommand::DeleteOrder { order_id: *order_id }),
        Route::UpdateOrderStatus(order_id, req) => Some(
            DbCommand::UpdateOrderStatus { order_id: *order_id, status: req.status },
        ),
    }
}

impl Route {
    /// Who may call the endpoint.
    pub fn required_access(&self) -> (res: Access)
        ensures
            res == required_access(self),
    {
        match self {
            Route::GetMenu => Access::AnyUser,
            Route::PostMenuItem(_) => Access::Cook,
            Route::PatchMenuItem(_, _) => Access::Cook,
            Route::DeleteMenuItem(_) => Access::Cook,
            Route::GetOrders => Access::AnyUser,
            Route::GetOrderItems(_) => Access::AnyUser,
            Route::GetOrderItemsByTable(_) => Access::AnyUser,
            Route::PostOrder(_) => Access::Waiter,
            Route::AddOrderItems(_, _) => Access::Waiter,
            Route::DeleteOrderItem(_) => Access::Waiter,
            Route::DeleteOrder(_) => Access::Admin,
            Route::UpdateOrderStatus(_, req) => match req.status {
                OrderStatus::Cooking | OrderStatus::Ready => Access::Cook,
                OrderStatus::Created | OrderStatus::Paid | OrderStatus::Served => Access::Waiter,
                OrderStatus::Cancelled => Access::Admin,
            },
        }
    }

    /// The reason given to a user who may not call the endpoint.
    pub fn refusal_text(&self) -> (res: String)
        ensures
            res@ == refusal_text(self),
    {
        match self {
            Route::PatchMenuItem(_, _) => String::from_str("Only administrators can update menu items"),
            Route::UpdateOrderStatus(_, req) => match req.status {
                OrderStatus::Cooking | OrderStatus::Ready => String::from_str(
                    "Only cooks can update cooking status",
                ),
                OrderStatus::Created | OrderStatus::Paid | OrderStatus::Served => String::from_str(
                    "Only waiters can mark orders as served",
                ),
                OrderStatus::Cancelled => String::from_str(
                    "Only admins can cancel or mark orders as paid",
                ),
            },
            _ => String::from_str("User is not authorized for this action"),
        }
    }
}

/// The method and path pattern under which the endpoint's request
/// durations are recorded.
pub open spec fn metric_labels(route: &Route) -> (Seq<char>, Seq<char>) {
    match route {
        Route::GetMenu => ("GET"@, "/v1/menu"@),
        Route::PostMenuItem(_) => ("POST"@, "/v1/menu"@),
        Route::PatchMenuItem(_, _) => ("PATCH"@, "/v1/menu/#"@),
        Route::DeleteMenuItem(_) => ("DELETE"@, "/v1/menu/#"@),
        Route::GetOrders => ("GET"@, "/v1/orders"@),
        Route::GetOrderItems(_) => ("GET"@, "/v1/orders/#"@),
        Route::GetOrderItemsByTable(_) => ("GET"@, "/v1/orders/by_table/#"@),
        Route::PostOrder(_) => ("POST"@, "/v1/orders"@),
        Route::AddOrderItems(_, _) => ("POST"@, "/v1/orders/#"@),
        Route::DeleteOrderItem(_) => ("DELETE"@, "/v1/orders/items/#"@),
        Route::DeleteOrder(_) => ("DELETE"@, "/v1/orders/#"@),
        Route::UpdateOrderStatus(_, _) => ("PATCH"@, "/v1/orders/#"@),
    }
}

impl Route {
    /// The method and path pattern under which the endpoint's request
    /// durations are recorded.
    pub fn metric_labels(&self) -> (res: (&'static str, &'static str))
        ensures
            (res.0@, res.1@) == metric_labels(self),
    {
        match self {
            Route::GetMenu => ("GET", "/v1/menu"),
            Route::PostMenuItem(_) => ("POST", "/v1/menu"),
            Route::PatchMenuItem(_, _) => ("PATCH", "/v1/menu/#"),
            Route::DeleteMenuItem(_) => ("DELETE", "/v1/menu/#"),
            Route::GetOrders => ("GET", "/v1/orders"),
            Route::GetOrderItems(_) => ("GET", "/v1/orders/#"),
            Route::GetOrderItemsByTable(_) => ("GET", "/v1/orders/by_table/#"),
            Route::PostOrder(_) => ("POST", "/v1/orders"),
            Route::AddOrderItems(_, _) => ("POST", "/v1/orders/#"),
            Route::DeleteOrderItem(_) => ("DELETE", "/v1/orders/items/#"),
            Route::DeleteOrder(_) => ("DELETE", "/v1/orders/#"),
            Route::UpdateOrderStatus(_, _) => ("PATCH", "/v1/orders/#"),
        }
    }
}

fn grants_exec(role: Role, access: Access) -> (res: bool)
    ensures
        res == grants(role, access),
{
    match access {
        Access::AnyUser => true,
        Access::Waiter => role == Role::Admin || role == Role::Waiter,
        Access::Cook => role == Role::Admin || role == Role::Cook,
        Access::Admin => role == Role::Admin,
    }
}

fn assignment_to_check_exec(route: &Route, role: Role) -> (res: Option<OrderRef>)
    ensures
        res == assignment_to_check(route, role),
{
    match role {
        Role::Waiter => match route {
            Route::AddOrderItems(order_id, _) => Some(OrderRef::Order(*order_id)),
            Route::DeleteOrderItem(order_item_id) => Some(OrderRef::OrderOfItem(*order_item_id)),
            Route::UpdateOrderStatus(order_id, req) => match req.status {
                OrderStatus::Created | OrderStatus::Paid | OrderStatus::Served => Some(
                    OrderRef::Order(*order_id),
                ),
                _ => None,
            },
            _ => None,
        },
        _ => None,
    }
}

fn plan(route: Route, user_id: i32) -> (res: Option<DbCommand>)
    ensures
        res == planned_command(&route, user_id),
{
    match route {
        Route::GetMenu => Some(DbCommand::GetMenu),
        Route::PostMenuItem(req) => Some(
            DbCommand::InsertMenuItem {
                dish_title: req.dish_title,
                cost: req.cost,
                time_to_cook: req.time_to_cook,
            },
        ),
        Route::PatchMenuItem(item_id, req) => Some(
            DbCommand::UpdateMenuItem {
                cost: req.cost,
                time_to_cook: req.time_to_cook,
                is_available: req.is_available,
                item_id,
            },
        ),
        Route::DeleteMenuItem(item_id) => Some(DbCommand::DeleteMenuItem { item_id }),
        Route::GetOrders => Some(DbCommand::GetOrders),
        Route::GetOrderItems(order_id) => Some(DbCommand::GetOrderInfo { order_id }),
        Route::GetOrderItemsByTable(table_id) => Some(DbCommand::GetOrderItemsByTable { table_id }),
        Route::PostOrder(req) => Some(
            DbCommand::CreateOrder {
                table_number: req.table_number,
                waiter_id: user_id,
                menu_item_ids: req.menu_item_ids,
            },
        ),
        Route::AddOrderItems(order_id, req) => if req.menu_position_ids.len() == 0 {
            None
        } else {
            Some(DbCommand::InsertOrderItems { order_id, menu_item_ids: req.menu_position_ids })
        },
        Route::DeleteOrderItem(order_item_id) => Some(DbCommand::DeleteOrderItem { order_item_id }),
        Route::DeleteOrder(order_id) => Some(DbCommand::DeleteOrder { order_id }),
        Route::UpdateOrderStatus(order_id, req) => Some(
            DbCommand::UpdateOrderStatus { order_id, status: req.status },
        ),
    }
}

/// First step of every request: read the credentials from the value of the
/// `Authorization` header; without usable credentials the request is
/// answered at once.
pub fn start_request(authorization_header: Option<&str>) -> (step: Step)
    ensures
        match authorization(header_text(authorization_header)) {
            Ok((u, p)) => step matches Step::Authenticate(c) && c.username@ == u && c.password@
                == p,
            Err(e) => step matches Step::Respond(Err(err)) && err@ == AppErrorView::Http(e),
        },
{
    match parse_authorization(authorization_header) {
        Ok(c) => Step::Authenticate(c),
        Err(e) => Step::Respond(Err(AppError::Http(e))),
    }
}

/// Second step: given the outcome of the user lookup, refuse the request,
/// look up the waiter assigned to the order it changes (for a waiter), or
/// run its command as that user. A refused request runs nothing.
pub fn after_authentication(route: Route, user: Result<AuthenticatedUser, DatabaseError>) -> (step:
    Step)
    ensures
        match user {
            Err(e) => step matches Step::Respond(Err(err)) && err@ == AppErrorView::Database(e@),
            Ok(u) => if !grants(u.role, required_access(&route)) {
                step matches Step::Respond(Err(err)) && err@ == AppErrorView::Http(
                    HttpErrorView::NoPermissionError(refusal_text(&route)),
                )
            } else {
                match assignment_to_check(&route, u.role) {
                    Some(order) => step == Step::FindAssignedWaiter(order),
                    None => match planned_command(&route, u.id) {
                        Some(cmd) => step == Step::Query(cmd),
                        None => step == Step::Respond(Ok(Reply::Created)),
                    },
                }
            },
        },
{
    let u = match user {
        Ok(u) => u,
        Err(e) => return Step::Respond(Err(AppError::Database(e))),
    };
    if !grants_exec(u.role, route.required_access()) {
        return Step::Respond(Err(AppError::Http(HttpError::NoPermissionError(route.refusal_text()))));
    }
    if let Some(order) = assignment_to_check_exec(&route, u.role) {
        return Step::FindAssignedWaiter(order);
    }
    match plan(route, u.id) {
        Some(cmd) => Step::Query(cmd),
        None => Step::Respond(Ok(Reply::Created)),
    }
}

/// Third step, for a waiter acting on an order: given the outcome of the
/// lookup of the order's assigned waiter, refuse the request (`403`) when
/// the order is assigned to another waiter, or run its command. The grant
/// of the route is checked again, so no command runs without it.
pub fn after_order_lookup(
    route: Route,
    user: AuthenticatedUser,
    assigned_waiter: Result<Option<i32>, DatabaseError>,
) -> (step: Step)
    ensures
        match assigned_waiter {
            Err(e) => step matches Step::Respond(Err(err)) && err@ == AppErrorView::Database(e@),
            Ok(w) => if !grants(user.role, required_access(&route)) {
                step matches Step::Respond(Err(err)) && err@ == AppErrorView::Http(
                    HttpErrorView::NoPermissionError(refusal_text(&route)),
                )
            } else if !assignment_allows(&user, w) {
                step matches Step::Respond(Err(err)) && err@ == AppErrorView::Http(
                    HttpErrorView::NoPermissionError(not_assigned_text()),
                )
            } else {
                match planned_command(&route, user.id) {
                    Some(cmd) => step == Step::Query(cmd),
                    None => step == Step::Respond(Ok(Reply::Created)),
                }
            },
        },
{
    let assigned = match assigned_waiter {
        Ok(w) => w,
        Err(e) => return Step::Respond(Err(AppError::Database(e))),
    };
    if !grants_exec(user.role, route.required_access()) {
        return Step::Respond(Err(AppError::Http(HttpError::NoPermissionError(route.refusal_text()))));
    }
    let allowed = match assigned {
        None => true,
        Some(w) => user.role == Role::Admin || w == user.id,
    };
    if !allowed {
        return Step::Respond(
            Err(
                AppError::Http(
                    HttpError::NoPermissionError(
                        String::from_str("Only the waiter assigned to the order can change it"),
                    ),
                ),
            ),
        );
    }
    match plan(route, user.id) {
        Some(cmd) => Step::Query(cmd),
        None => Step::Respond(Ok(Reply::Created)),
    }
}

/// The status each endpoint answers a success with, as its handler sends
/// it: `201 Created` for adding a dish, opening an order and adding dishes
/// to an order, `200 OK` for every other endpoint.
pub open spec fn endpoint_success_status(route: &Route) -> u16 {
    if route is PostMenuItem || route is PostOrder || route is AddOrderItems {
        201
    } else {
        200
    }
}

/// The kinds of reply the database gives a command: the dishes for the
/// menu, rows for the other reads, the new id for inserts of a dish or an
/// order, a count of changed rows for every other change, or a failure.
pub open spec fn command_yields(cmd: DbCommand, reply: DbReply) -> bool {
    match reply {
        DbReply::Failed(_) => true,
        DbReply::Menu(_) => cmd is GetMenu,
        DbReply::Rows => cmd is GetOrders || cmd is GetOrderInfo || cmd is GetOrderItemsByTable,
        DbReply::Inserted(_) => cmd is InsertMenuItem || cmd is CreateOrder,
        DbReply::Affected(_) => cmd is UpdateMenuItem || cmd is DeleteMenuItem
            || cmd is InsertOrderItems || cmd is DeleteOrderItem || cmd is DeleteOrder
            || cmd is UpdateOrderStatus,
    }
}

/// The database answers the endpoint's command with a reply of the kind
/// that command yields (or with a failure).
pub open spec fn reply_fits(route: &Route, reply: &DbReply) -> bool {
    match reply {
        DbReply::Failed(_) => true,
        DbReply::Menu(_) => route is GetMenu,
        DbReply::Rows => route is GetOrders || route is GetOrderItems || route is GetOrderItemsByTable,
        DbReply::Inserted(_) => route is PostMenuItem || route is PostOrder,
        DbReply::Affected(_) => route is PatchMenuItem || route is DeleteMenuItem || route is AddOrderItems
            || route is DeleteOrderItem || route is DeleteOrder || route is UpdateOrderStatus,
    }
}

/// Whether `reply` is of the kind the endpoint's command yields.
pub fn reply_fits_route(route: &Route, reply: &DbReply) -> (res: bool)
    ensures
        res == reply_fits(route, reply),
{
    match reply {
        DbReply::Failed(_) => true,
        DbReply::Menu(_) => match route {
            Route::GetMenu => true,
            _ => false,
        },
        DbReply::Rows => match route {
            Route::GetOrders | Route::GetOrderItems(_) | Route::GetOrderItemsByTable(_) => true,
            _ => false,
        },
        DbReply::Inserted(_) => match route {
            Route::PostMenuItem(_) | Route::PostOrder(_) => true,
            _ => false,
        },
        DbReply::Affected(_) => match route {
            Route::PatchMenuItem(_, _) | Route::DeleteMenuItem(_) | Route::AddOrderItems(_, _)
            | Route::DeleteOrderItem(_) | Route::DeleteOrder(_) | Route::UpdateOrderStatus(_, _) => true,
            _ => false,
        },
    }
}

/// The text of the error for a status change of an order that does not
/// exist.
pub open spec fn order_not_found_text(order_id: i32) -> Seq<char> {
    "Order not found: "@ + decimal(order_id as int)
}

/// Last step: the answer to the request, given what its command came back
/// with. A failed command is answered with its failure; a status change
/// that changed no row is answered with `ValueNotFoundError`; a deletion of
/// orders reports the number of rows it removed (as an `i32`).
pub fn after_query(route: &Route, reply: DbReply) -> (res: Result<Reply, AppError>)
    requires
        reply_fits(route, &reply),
    ensures
        res matches Ok(r) ==> reply_status(&r) == endpoint_success_status(route),
        match reply {
            DbReply::Failed(e) => res matches Err(err) && err@ == AppErrorView::Database(e@),
            DbReply::Menu(menu) => res == Ok::<Reply, AppError>(
                Reply::Menu(HttpGetMenuResponse { menu }),
            ),
            DbReply::Rows => res == Ok::<Reply, AppError>(Reply::Rows),
            DbReply::Inserted(id) => if route is PostMenuItem {
                res == Ok::<Reply, AppError>(Reply::MenuItemCreated(HttpCreateMenuItemResponse { id }))
            } else {
                res == Ok::<Reply, AppError>(Reply::OrderCreated(HttpCreateOrderResponse { id }))
            },
            DbReply::Affected(n) => match route {
                Route::AddOrderItems(_, _) => res == Ok::<Reply, AppError>(Reply::Created),
                Route::DeleteOrder(_) => res == Ok::<Reply, AppError>(
                    Reply::OrderDeleted(HttpDeleteOrderResponse { entries_deleted: n as i32 }),
                ),
                Route::UpdateOrderStatus(order_id, _) => if n == 0 {
                    res matches Err(err) && err@ == AppErrorView::Database(
                        DatabaseErrorView::ValueNotFoundError(order_not_found_text(*order_id)),
                    )
                } else {
                    res == Ok::<Reply, AppError>(Reply::Done)
                },
                _ => res == Ok::<Reply, AppError>(Reply::Done),
            },
        },
{
    match reply {
        DbReply::Failed(e) => Err(AppError::Database(e)),
        DbReply::Menu(menu) => Ok(Reply::Menu(HttpGetMenuResponse { menu })),
        DbReply::Rows => Ok(Reply::Rows),
        DbReply::Inserted(id) => match route {
            Route::PostMenuItem(_) => Ok(Reply::MenuItemCreated(HttpCreateMenuItemResponse { id })),
            _ => Ok(Reply::OrderCreated(HttpCreateOrderResponse { id })),
        },
        DbReply::Affected(n) => match route {
            Route::AddOrderItems(_, _) => Ok(Reply::Created),
            Route::DeleteOrder(_) => Ok(
                Reply::OrderDeleted(HttpDeleteOrderResponse { entries_deleted: n as i32 }),
            ),
            Route::UpdateOrderStatus(order_id, _) => if n == 0 {
                let mut msg = String::from_str("Order not found: ");
                append_decimal(*order_id, &mut msg);
                Err(AppError::Database(DatabaseError::ValueNotFoundError(msg)))
            } else {
                Ok(Reply::Done)
            },
            _ => Ok(Reply::Done),
        },
    }
}

/// The HTTP status code of a successful answer.
pub open spec fn reply_status(reply: &Reply) -> u16 {
    match reply {
        Reply::Created | Reply::MenuItemCreated(_) | Reply::OrderCreated(_) => 201,
        _ => 200,
    }
}

impl Reply {
    /// The HTTP status code of the answer: 201 for what was created, 200
    /// otherwise.
    pub fn status_code(&self) -> (code: u16)
        ensures
            code == reply_status(self),
    {
        match self {
            Reply::Created | Reply::MenuItemCreated(_) | Reply::OrderCreated(_) => 201,
            _ => 200,
        }
    }
}


/// Administrators may call every endpoint.
pub proof fn lemma_admin_may_call_every_endpoint(route: Route)
    ensures
        grants(Role::Admin, required_access(&route)),
{
}

/// Every authenticated user may read the menu, the orders and the items of
/// an order.
pub proof fn lemma_reads_are_open_to_every_user(route: Route, role: Role)
    requires
        route is GetMenu || route is GetOrders || route is GetOrderItems
            || route is GetOrderItemsByTable,
    ensures
        grants(role, required_access(&route)),
{
}

/// The menu is changed by cooks (and administrators) only.
pub proof fn lemma_menu_is_kept_by_cooks(route: Route, role: Role)
    requires
        route is PostMenuItem || route is PatchMenuItem || route is DeleteMenuItem,
    ensures
        grants(role, required_access(&route)) <==> (role == Role::Admin || role == Role::Cook),
{
}

/// Orders are opened and their items added or removed by waiters (and
/// administrators) only.
pub proof fn lemma_orders_are_kept_by_waiters(route: Route, role: Role)
    requires
        route is PostOrder || route is AddOrderItems || route is DeleteOrderItem,
    ensures
        grants(role, required_access(&route)) <==> (role == Role::Admin || role == Role::Waiter),
{
}

/// Only administrators delete orders.
pub proof fn lemma_only_admins_delete_orders(order_id: i32, role: Role)
    ensures
        grants(role, required_access(&Route::DeleteOrder(order_id))) <==> role == Role::Admin,
{
}

/// Who may move an order to a status: cooks start and finish cooking,
/// waiters open, serve and take payment, and an order is cancelled by an
/// administrator only; administrators may set any status.
pub proof fn lemma_status_changes(order_id: i32, req: HttpUpdateOrderStatusRequest, role: Role)
    ensures
        ({
            let granted = grants(role, required_access(&Route::UpdateOrderStatus(order_id, req)));
            &&& (req.status == OrderStatus::Cooking || req.status == OrderStatus::Ready) ==> (
            granted <==> (role == Role::Admin || role == Role::Cook))
            &&& (req.status == OrderStatus::Created || req.status == OrderStatus::Served
                || req.status == OrderStatus::Paid) ==> (granted <==> (role == Role::Admin || role
                == Role::Waiter))
            &&& req.status == OrderStatus::Cancelled ==> (granted <==> role == Role::Admin)
        }),
{
}

/// A waiter changes only the orders assigned to them: adding or removing
/// items, and moving an order to Created, Served or Paid, first looks up
/// the order's assigned waiter, and an order assigned to another waiter is
/// refused with `403 Forbidden`; the order's own waiter is let through.
pub proof fn lemma_waiters_change_only_their_orders(
    route: Route,
    user: AuthenticatedUser,
    assigned_waiter: i32,
)
    requires
        user.role == Role::Waiter,
        route is AddOrderItems || route is DeleteOrderItem || (route matches Route::UpdateOrderStatus(
            _,
            req,
        ) && (req.status == OrderStatus::Created || req.status == OrderStatus::Served
            || req.status == OrderStatus::Paid)),
    ensures
        grants(user.role, required_access(&route)),
        assignment_to_check(&route, user.role) is Some,
        assignment_allows(&user, Some(assigned_waiter)) <==> assigned_waiter == user.id,
        assignment_allows(&user, None),
        AppErrorView::Http(HttpErrorView::NoPermissionError(not_assigned_text())).status_code()
            == 403,
{
}

/// Administrators and cooks are bound to no order: they are never sent to
/// look up an order's waiter, and any assignment lets an administrator
/// through.
pub proof fn lemma_only_waiters_are_bound_to_orders(
    route: Route,
    user: AuthenticatedUser,
    assigned_waiter: Option<i32>,
)
    requires
        user.role != Role::Waiter,
    ensures
        assignment_to_check(&route, user.role) is None,
        user.role == Role::Admin ==> assignment_allows(&user, assigned_waiter),
{
}

/// A status change writes exactly the status requested, to exactly the
/// order named in the path.
pub proof fn lemma_status_change_writes_requested_status(
    order_id: i32,
    req: HttpUpdateOrderStatusRequest,
    user_id: i32,
)
    ensures
        planned_command(&Route::UpdateOrderStatus(order_id, req), user_id) matches Some(
            DbCommand::UpdateOrderStatus { order_id: o, status },
        ) && o == order_id && status == req.status,
{
}

/// A dish update writes the requested cost, cooking time and availability,
/// unchanged, to the dish named in the path.
pub proof fn lemma_dish_update_writes_request(
    item_id: i32,
    req: HttpUpdateMenuItemRequest,
    user_id: i32,
)
    ensures
        planned_command(&Route::PatchMenuItem(item_id, req), user_id) matches Some(
            DbCommand::UpdateMenuItem { cost, time_to_cook, is_available, item_id: i },
        ) && cost == req.cost && time_to_cook == req.time_to_cook && is_available
            == req.is_available && i == item_id,
{
}

/// A new order is opened at the requested table, with the requested dishes,
/// served by the user who opens it.
pub proof fn lemma_new_order_carries_request(req: HttpCreateOrderRequest, user_id: i32)
    ensures
        planned_command(&Route::PostOrder(req), user_id) matches Some(
            DbCommand::CreateOrder { table_number, waiter_id, menu_item_ids },
        ) && table_number == req.table_number && waiter_id == user_id && menu_item_ids
            == req.menu_item_ids,
{
}

/// A new dish is added with the requested title, cost and cooking time.
pub proof fn lemma_new_dish_carries_request(req: HttpCreateMenuItemRequest, user_id: i32)
    ensures
        planned_command(&Route::PostMenuItem(req), user_id) matches Some(
            DbCommand::InsertMenuItem { dish_title, cost, time_to_cook },
        ) && dish_title == req.dish_title && cost == req.cost && time_to_cook == req.time_to_cook,
{
}

/// Dishes are added to the order named in the path, exactly the requested
/// ones; adding none runs nothing.
pub proof fn lemma_added_items_carry_request(
    order_id: i32,
    req: HttpAddOrderItemRequest,
    user_id: i32,
)
    ensures
        req.menu_position_ids@.len() == 0 ==> planned_command(
            &Route::AddOrderItems(order_id, req),
            user_id,
        ) is None,
        req.menu_position_ids@.len() != 0 ==> (planned_command(
            &Route::AddOrderItems(order_id, req),
            user_id,
        ) matches Some(DbCommand::InsertOrderItems { order_id: o, menu_item_ids }) && o == order_id
            && menu_item_ids == req.menu_position_ids),
{
}

/// Every command that names a row names the one in the request's path:
/// reads, deletions and lookups act on the requested id, and the reads of
/// the whole menu and of all orders take no id.
pub proof fn lemma_commands_act_on_the_requested_row(id: i32, user_id: i32)
    ensures
        planned_command(&Route::GetMenu, user_id) == Some(DbCommand::GetMenu),
        planned_command(&Route::GetOrders, user_id) == Some(DbCommand::GetOrders),
        planned_command(&Route::DeleteMenuItem(id), user_id) == Some(
            DbCommand::DeleteMenuItem { item_id: id },
        ),
        planned_command(&Route::GetOrderItems(id), user_id) == Some(
            DbCommand::GetOrderInfo { order_id: id },
        ),
        planned_command(&Route::GetOrderItemsByTable(id), user_id) == Some(
            DbCommand::GetOrderItemsByTable { table_id: id },
        ),
        planned_command(&Route::DeleteOrderItem(id), user_id) == Some(
            DbCommand::DeleteOrderItem { order_item_id: id },
        ),
        planned_command(&Route::DeleteOrder(id), user_id) == Some(
            DbCommand::DeleteOrder { order_id: id },
        ),
{
}

/// Every reply the database can give to the command an endpoint plans is
/// accepted for that endpoint, so a command that did its work is never
/// answered as a mismatch.
pub proof fn lemma_replies_to_planned_commands_fit(route: Route, user_id: i32, reply: DbReply)
    requires
        planned_command(&route, user_id) matches Some(cmd) && command_yields(cmd, reply),
    ensures
        reply_fits(&route, &reply),
{
}

/// Only replies of the kind a planned command yields are accepted: a reply
/// that fits an endpoint is one its command can give.
pub proof fn lemma_fitting_replies_come_from_the_command(route: Route, user_id: i32, reply: DbReply)
    requires
        planned_command(&route, user_id) matches Some(cmd),
        reply_fits(&route, &reply),
    ensures
        command_yields(planned_command(&route, user_id)->0, reply),
{
}

/// What each successful answer is sent with: `201 Created` for what was
/// created (a dish, an order, dishes added to an order), `200 OK` for the
/// rest, deletions included.
pub proof fn lemma_success_statuses(
    menu: HttpGetMenuResponse,
    dish: HttpCreateMenuItemResponse,
    order: HttpCreateOrderResponse,
    deleted: HttpDeleteOrderResponse,
)
    ensures
        reply_status(&Reply::Created) == 201,
        reply_status(&Reply::MenuItemCreated(dish)) == 201,
        reply_status(&Reply::OrderCreated(order)) == 201,
        reply_status(&Reply::Done) == 200,
        reply_status(&Reply::Menu(menu)) == 200,
        reply_status(&Reply::Rows) == 200,
        reply_status(&Reply::OrderDeleted(deleted)) == 200,
{
}

/// The order whose waiter is looked up is the one the request changes: the
/// order in the path, or the order that holds the item in the path.
pub proof fn lemma_assignment_lookup_targets_the_request(id: i32, req: HttpAddOrderItemRequest, status: HttpUpdateOrderStatusRequest)
    ensures
        assignment_to_check(&Route::AddOrderItems(id, req), Role::Waiter) == Some(
            OrderRef::Order(id),
        ),
        assignment_to_check(&Route::DeleteOrderItem(id), Role::Waiter) == Some(
            OrderRef::OrderOfItem(id),
        ),
        (status.status == OrderStatus::Created || status.status == OrderStatus::Served
            || status.status == OrderStatus::Paid) ==> assignment_to_check(
            &Route::UpdateOrderStatus(id, status),
            Role::Waiter,
        ) == Some(OrderRef::Order(id)),
        (status.status == OrderStatus::Cooking || status.status == OrderStatus::Ready
            || status.status == OrderStatus::Cancelled) ==> assignment_to_check(
            &Route::UpdateOrderStatus(id, status),
            Role::Waiter,
        ) is None,
{
}

/// The reason a refused user is given: a menu update names
/// administrators, a status change names who may set that status, every
/// other endpoint gives the general refusal.
pub proof fn lemma_refusal_texts(id: i32, menu: HttpUpdateMenuItemRequest, status: HttpUpdateOrderStatusRequest)
    ensures
        refusal_text(&Route::PatchMenuItem(id, menu)) == "Only administrators can update menu items"@,
        (status.status == OrderStatus::Cooking || status.status == OrderStatus::Ready) ==> refusal_text(
            &Route::UpdateOrderStatus(id, status),
        ) == "Only cooks can update cooking status"@,
        (status.status == OrderStatus::Created || status.status == OrderStatus::Served
            || status.status == OrderStatus::Paid) ==> refusal_text(
            &Route::UpdateOrderStatus(id, status),
        ) == "Only waiters can mark orders as served"@,
        status.status == OrderStatus::Cancelled ==> refusal_text(&Route::UpdateOrderStatus(id, status))
            == "Only admins can cancel or mark orders as paid"@,
        refusal_text(&Route::DeleteMenuItem(id)) == "User is not authorized for this action"@,
        refusal_text(&Route::DeleteOrder(id)) == "User is not authorized for this action"@,
        refusal_text(&Route::DeleteOrderItem(id)) == "User is not authorized for this action"@,
{
}

/// The general refusal of opening orders, adding dishes to orders and
/// adding dishes to the menu.
pub proof fn lemma_general_refusals(
    id: i32,
    dish: HttpCreateMenuItemRequest,
    order: HttpCreateOrderRequest,
    items: HttpAddOrderItemRequest,
)
    ensures
        refusal_text(&Route::PostMenuItem(dish)) == "User is not authorized for this action"@,
        refusal_text(&Route::PostOrder(order)) == "User is not authorized for this action"@,
        refusal_text(&Route::AddOrderItems(id, items)) == "User is not authorized for this action"@,
{
}

/// Request durations are recorded under the endpoint's method and path
/// pattern, path parameters written `#`.
pub proof fn lemma_metric_labels(
    id: i32,
    dish: HttpCreateMenuItemRequest,
    menu: HttpUpdateMenuItemRequest,
    order: HttpCreateOrderRequest,
    items: HttpAddOrderItemRequest,
    status: HttpUpdateOrderStatusRequest,
)
    ensures
        metric_labels(&Route::GetMenu) == ("GET"@, "/v1/menu"@),
        metric_labels(&Route::PostMenuItem(dish)) == ("POST"@, "/v1/menu"@),
        metric_labels(&Route::PatchMenuItem(id, menu)) == ("PATCH"@, "/v1/menu/#"@),
        metric_labels(&Route::DeleteMenuItem(id)) == ("DELETE"@, "/v1/menu/#"@),
        metric_labels(&Route::GetOrders) == ("GET"@, "/v1/orders"@),
        metric_labels(&Route::GetOrderItems(id)) == ("GET"@, "/v1/orders/#"@),
        metric_labels(&Route::GetOrderItemsByTable(id)) == ("GET"@, "/v1/orders/by_table/#"@),
        metric_labels(&Route::PostOrder(order)) == ("POST"@, "/v1/orders"@),
        metric_labels(&Route::AddOrderItems(id, items)) == ("POST"@, "/v1/orders/#"@),
        metric_labels(&Route::DeleteOrderItem(id)) == ("DELETE"@, "/v1/orders/items/#"@),
        metric_labels(&Route::DeleteOrder(id)) == ("DELETE"@, "/v1/orders/#"@),
        metric_labels(&Route::UpdateOrderStatus(id, status)) == ("PATCH"@, "/v1/orders/#"@),
{
}

/// A status change that finds no order names the order: the text is
/// `Order not found: ` and the order id in decimal, and it is answered 404.
pub proof fn lemma_missing_order_is_not_found(order_id: i32)
    ensures
        order_not_found_text(order_id) == "Order not found: "@ + decimal(order_id as int),
        AppErrorView::Database(DatabaseErrorView::ValueNotFoundError(order_not_found_text(order_id)))
            .status_code() == 404,
{
}

/// A request refused for want of permission is answered `403 Forbidden`.
pub proof fn lemma_refusal_is_forbidden(route: Route, role: Role)
    requires
        !grants(role, required_access(&route)),
    ensures
        AppErrorView::Http(HttpErrorView::NoPermissionError(refusal_text(&route))).status_code()
            == 403,
{
}

/// A request without usable Basic credentials is answered before any
/// database work: `401` without an `Authorization` header (or without a
/// space in it), `400` for another auth method, `500` for credentials that
/// do not decode.
pub proof fn lemma_bad_credentials_answer(header: Option<Seq<char>>)
    requires
        authorization(header) is Err,
    ensures
        ({
            let e = authorization(header)->Err_0;
            AppErrorView::Http(e).status_code() == (match e {
                HttpErrorView::NoAuthHeaderError => 401u16,
                HttpErrorView::WrongAuthMethodError(_) => 400u16,
                _ => 500u16,
            })
        }),
{
}

} // verus!
