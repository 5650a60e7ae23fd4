use restaurant::auth::Access;
use restaurant::error::{AppError, DatabaseError, HttpError};
use restaurant::handler::{
    after_authentication, after_order_lookup, after_query, reply_fits_route, start_request,
    DbCommand, DbReply, OrderRef, Reply, Route, Step,
};
use restaurant::model::{
    AuthenticatedUser, HttpAddOrderItemRequest, HttpCreateMenuItemRequest, HttpCreateOrderRequest,
    HttpUpdateMenuItemRequest, HttpUpdateOrderStatusRequest, MenuItem, OrderStatus, Role,
};

fn user(id: i32, role: Role) -> AuthenticatedUser {
    AuthenticatedUser { id, username: "someone".to_string(), role }
}

fn status(order_id: i32, status: OrderStatus) -> Route {
    Route::UpdateOrderStatus(order_id, HttpUpdateOrderStatusRequest { status })
}

fn refusal(step: Step) -> (u16, String) {
    match step {
        Step::Respond(Err(e)) => (e.status_code(), e.message()),
        _ => panic!("expected a refusal"),
    }
}

fn command(step: Step) -> DbCommand {
    match step {
        Step::Query(cmd) => cmd,
        _ => panic!("expected a database command"),
    }
}

#[test]
fn credentials_start_the_lookup() {
    match start_request(Some("Basic Sm9objpKb2huMTIz")) {
        Step::Authenticate(c) => {
            assert_eq!(c.username, "John");
            assert_eq!(c.password, "John123");
        }
        _ => panic!("expected a lookup"),
    }
}

#[test]
fn missing_credentials_are_unauthorized() {
    match start_request(None) {
        Step::Respond(Err(e)) => {
            assert_eq!(e.status_code(), 401);
            assert!(matches!(e, AppError::Http(HttpError::NoAuthHeaderError)));
        }
        _ => panic!("expected an answer"),
    }
}

#[test]
fn other_auth_method_is_bad_request() {
    match start_request(Some("Bearer token")) {
        Step::Respond(Err(e)) => assert_eq!(e.status_code(), 400),
        _ => panic!("expected an answer"),
    }
}

#[test]
fn failed_lookup_is_answered() {
    let step = after_authentication(
        Route::GetMenu,
        Err(DatabaseError::ValueNotFoundError("User Ghost not found".to_string())),
    );
    assert_eq!(refusal(step), (404, "Database error occurred: Can not find value: $User Ghost not found".to_string()));
}

#[test]
fn waiter_opens_order_as_its_waiter() {
    let route = Route::PostOrder(HttpCreateOrderRequest { table_number: 1, menu_item_ids: vec![5, 7, 9] });
    match command(after_authentication(route, Ok(user(12, Role::Waiter)))) {
        DbCommand::CreateOrder { table_number, waiter_id, menu_item_ids } => {
            assert_eq!(table_number, 1);
            assert_eq!(waiter_id, 12);
            assert_eq!(menu_item_ids, vec![5, 7, 9]);
        }
        _ => panic!("expected CreateOrder"),
    }
}

#[test]
fn cook_may_not_open_orders() {
    let route = Route::PostOrder(HttpCreateOrderRequest { table_number: 1, menu_item_ids: vec![1] });
    let (code, msg) = refusal(after_authentication(route, Ok(user(3, Role::Cook))));
    assert_eq!(code, 403);
    assert_eq!(msg, "HTTP error occurred: Can not give access to requested resource for user: $User is not authorized for this action");
}

#[test]
fn waiter_may_not_cancel() {
    let (code, msg) = refusal(after_authentication(status(4, OrderStatus::Cancelled), Ok(user(2, Role::Waiter))));
    assert_eq!(code, 403);
    assert!(msg.ends_with("Only admins can cancel or mark orders as paid"));
}

#[test]
fn cook_may_not_serve() {
    let (code, msg) = refusal(after_authentication(status(4, OrderStatus::Served), Ok(user(3, Role::Cook))));
    assert_eq!(code, 403);
    assert!(msg.ends_with("Only waiters can mark orders as served"));
}

#[test]
fn waiter_may_not_cook() {
    let (code, msg) = refusal(after_authentication(status(4, OrderStatus::Cooking), Ok(user(2, Role::Waiter))));
    assert_eq!(code, 403);
    assert!(msg.ends_with("Only cooks can update cooking status"));
}

#[test]
fn waiter_may_not_patch_menu() {
    let route = Route::PatchMenuItem(1, HttpUpdateMenuItemRequest { cost: 1, time_to_cook: 1, is_available: true });
    let (code, msg) = refusal(after_authentication(route, Ok(user(2, Role::Waiter))));
    assert_eq!(code, 403);
    assert!(msg.ends_with("Only administrators can update menu items"));
}

#[test]
fn only_admin_deletes_orders() {
    assert_eq!(refusal(after_authentication(Route::DeleteOrder(8), Ok(user(2, Role::Waiter)))).0, 403);
    assert_eq!(refusal(after_authentication(Route::DeleteOrder(8), Ok(user(3, Role::Cook)))).0, 403);
    assert!(matches!(
        command(after_authentication(Route::DeleteOrder(8), Ok(user(1, Role::Admin)))),
        DbCommand::DeleteOrder { order_id: 8 }
    ));
}

#[test]
fn admin_may_do_everything() {
    let routes = vec![
        Route::GetMenu,
        Route::DeleteMenuItem(3),
        Route::GetOrders,
        Route::GetOrderItems(3),
        Route::GetOrderItemsByTable(3),
        Route::DeleteOrderItem(3),
        Route::DeleteOrder(3),
        status(3, OrderStatus::Cooking),
        status(3, OrderStatus::Served),
        status(3, OrderStatus::Cancelled),
    ];
    for route in routes {
        assert!(matches!(after_authentication(route, Ok(user(1, Role::Admin))), Step::Query(_)));
    }
}

#[test]
fn everybody_reads() {
    for role in [Role::Admin, Role::Waiter, Role::Cook] {
        assert!(matches!(command(after_authentication(Route::GetMenu, Ok(user(1, role)))), DbCommand::GetMenu));
        assert!(matches!(command(after_authentication(Route::GetOrders, Ok(user(1, role)))), DbCommand::GetOrders));
        assert!(matches!(
            command(after_authentication(Route::GetOrderItems(6), Ok(user(1, role)))),
            DbCommand::GetOrderInfo { order_id: 6 }
        ));
        assert!(matches!(
            command(after_authentication(Route::GetOrderItemsByTable(2), Ok(user(1, role)))),
            DbCommand::GetOrderItemsByTable { table_id: 2 }
        ));
    }
}

fn lookup(step: Step) -> OrderRef {
    match step {
        Step::FindAssignedWaiter(order) => order,
        _ => panic!("expected a lookup of the order's waiter"),
    }
}

#[test]
fn adding_no_items_touches_nothing() {
    let route = Route::AddOrderItems(5, HttpAddOrderItemRequest { menu_position_ids: vec![] });
    assert_eq!(lookup(after_authentication(route.clone(), Ok(user(2, Role::Waiter)))), OrderRef::Order(5));
    match after_order_lookup(route, user(2, Role::Waiter), Ok(Some(2))) {
        Step::Respond(Ok(r)) => {
            assert!(matches!(r, Reply::Created));
            assert_eq!(r.status_code(), 201);
        }
        _ => panic!("expected an answer without a query"),
    }
}

#[test]
fn adding_items_inserts_them() {
    let route = Route::AddOrderItems(5, HttpAddOrderItemRequest { menu_position_ids: vec![8, 4, 1] });
    match command(after_order_lookup(route, user(2, Role::Waiter), Ok(Some(2)))) {
        DbCommand::InsertOrderItems { order_id, menu_item_ids } => {
            assert_eq!(order_id, 5);
            assert_eq!(menu_item_ids, vec![8, 4, 1]);
        }
        _ => panic!("expected InsertOrderItems"),
    }
    let route = Route::AddOrderItems(5, HttpAddOrderItemRequest { menu_position_ids: vec![8] });
    let reply = after_query(&route, DbReply::Affected(1));
    assert!(matches!(reply, Ok(Reply::Created)));
}

#[test]
fn status_change_of_missing_order_is_not_found() {
    let route = status(77, OrderStatus::Paid);
    match after_query(&route, DbReply::Affected(0)) {
        Err(e) => {
            assert_eq!(e.status_code(), 404);
            assert!(matches!(&e, AppError::Database(DatabaseError::ValueNotFoundError(m)) if m == "Order not found: 77"));
        }
        Ok(_) => panic!("expected ValueNotFoundError"),
    }
    assert!(matches!(after_query(&route, DbReply::Affected(1)), Ok(Reply::Done)));
}

#[test]
fn deleted_entries_are_reported() {
    match after_query(&Route::DeleteOrder(3), DbReply::Affected(2)) {
        Ok(Reply::OrderDeleted(r)) => assert_eq!(r.entries_deleted, 2),
        _ => panic!("expected OrderDeleted"),
    }
    match after_query(&Route::DeleteOrder(3), DbReply::Affected(0x1_0000_0001)) {
        Ok(Reply::OrderDeleted(r)) => assert_eq!(r.entries_deleted, 1),
        _ => panic!("expected OrderDeleted"),
    }
}

#[test]
fn failed_command_is_answered_with_its_failure() {
    match after_query(&Route::GetOrders, DbReply::Failed(DatabaseError::BadQueryError("boom".to_string()))) {
        Err(e) => {
            assert_eq!(e.status_code(), 500);
            assert_eq!(e.message(), "Database error occurred: Can not create postgres connection pool due to: $boom");
        }
        Ok(_) => panic!("expected the failure"),
    }
}

#[test]
fn cooks_workflow_on_the_menu() {
    let create = Route::PostMenuItem(HttpCreateMenuItemRequest {
        dish_title: "some_dish_title".to_string(),
        cost: 5000,
        time_to_cook: 300,
    });
    assert_eq!(create.metric_labels(), ("POST", "/v1/menu"));
    match command(after_authentication(create, Ok(user(3, Role::Cook)))) {
        DbCommand::InsertMenuItem { dish_title, cost, time_to_cook } => {
            assert_eq!(dish_title, "some_dish_title");
            assert_eq!((cost, time_to_cook), (5000, 300));
        }
        _ => panic!("expected InsertMenuItem"),
    }
    let create = Route::PostMenuItem(HttpCreateMenuItemRequest {
        dish_title: "some_dish_title".to_string(),
        cost: 5000,
        time_to_cook: 300,
    });
    match after_query(&create, DbReply::Inserted(56)) {
        Ok(r) => {
            assert_eq!(r.status_code(), 201);
            assert!(matches!(r, Reply::MenuItemCreated(ref c) if c.id == 56));
        }
        Err(_) => panic!("expected the new id"),
    }
    let patch = Route::PatchMenuItem(56, HttpUpdateMenuItemRequest { cost: 400, time_to_cook: 4500, is_available: false });
    assert!(matches!(
        command(after_authentication(patch, Ok(user(3, Role::Cook)))),
        DbCommand::UpdateMenuItem { cost: 400, time_to_cook: 4500, is_available: false, item_id: 56 }
    ));
    assert!(matches!(
        command(after_authentication(Route::DeleteMenuItem(56), Ok(user(3, Role::Cook)))),
        DbCommand::DeleteMenuItem { item_id: 56 }
    ));
}

#[test]
fn menu_is_answered_with_its_dishes() {
    let dish = MenuItem { id: 1, dish_title: "Garlic Bread".to_string(), cost: 450, time_to_cook: 600, is_available: true };
    match after_query(&Route::GetMenu, DbReply::Menu(vec![dish])) {
        Ok(Reply::Menu(m)) => {
            assert_eq!(m.menu.len(), 1);
            assert_eq!(m.menu[0].dish_title, "Garlic Bread");
        }
        _ => panic!("expected the menu"),
    }
}

#[test]
fn intended_workflow_decisions() {
    let create = Route::PostOrder(HttpCreateOrderRequest { table_number: 1, menu_item_ids: vec![2, 3, 4] });
    assert!(matches!(command(after_authentication(create, Ok(user(2, Role::Waiter)))), DbCommand::CreateOrder { .. }));
    let create = Route::PostOrder(HttpCreateOrderRequest { table_number: 1, menu_item_ids: vec![2, 3, 4] });
    assert!(matches!(after_query(&create, DbReply::Inserted(10)), Ok(Reply::OrderCreated(ref r)) if r.id == 10));
    let steps = [
        (OrderStatus::Cooking, Role::Cook, true),
        (OrderStatus::Ready, Role::Cook, true),
        (OrderStatus::Served, Role::Waiter, true),
        (OrderStatus::Cancelled, Role::Waiter, false),
        (OrderStatus::Paid, Role::Waiter, true),
    ];
    for (s, role, allowed) in steps {
        let mut step = after_authentication(status(10, s), Ok(user(2, role)));
        if let Step::FindAssignedWaiter(order) = step {
            assert_eq!(order, OrderRef::Order(10));
            step = after_order_lookup(status(10, s), user(2, role), Ok(Some(2)));
        }
        if allowed {
            assert!(matches!(command(step), DbCommand::UpdateOrderStatus { order_id: 10, status } if status == s));
        } else {
            assert_eq!(refusal(step).0, 403);
        }
    }
    assert!(matches!(command(after_authentication(Route::DeleteOrder(10), Ok(user(1, Role::Admin)))), DbCommand::DeleteOrder { order_id: 10 }));
}

#[test]
fn access_per_endpoint() {
    let req = HttpUpdateMenuItemRequest { cost: 1, time_to_cook: 1, is_available: true };
    assert_eq!(Route::PatchMenuItem(1, req).required_access(), Access::Cook);
    assert_eq!(Route::GetMenu.required_access(), Access::AnyUser);
    assert_eq!(Route::DeleteOrder(1).required_access(), Access::Admin);
    assert_eq!(status(1, OrderStatus::Ready).required_access(), Access::Cook);
    assert_eq!(status(1, OrderStatus::Created).required_access(), Access::Waiter);
    assert_eq!(status(1, OrderStatus::Cancelled).required_access(), Access::Admin);
}

#[test]
fn replies_must_fit_their_command() {
    assert!(reply_fits_route(&Route::GetMenu, &DbReply::Menu(vec![])));
    assert!(!reply_fits_route(&Route::GetMenu, &DbReply::Rows));
    assert!(reply_fits_route(&Route::DeleteOrder(1), &DbReply::Affected(1)));
    assert!(!reply_fits_route(&Route::DeleteOrder(1), &DbReply::Inserted(1)));
    assert!(reply_fits_route(&Route::GetOrders, &DbReply::Failed(DatabaseError::BadQueryError(String::new()))));
}

#[test]
fn metric_labels_per_endpoint() {
    assert_eq!(Route::GetMenu.metric_labels(), ("GET", "/v1/menu"));
    assert_eq!(Route::DeleteOrderItem(1).metric_labels(), ("DELETE", "/v1/orders/items/#"));
    assert_eq!(status(1, OrderStatus::Paid).metric_labels(), ("PATCH", "/v1/orders/#"));
    assert_eq!(Route::GetOrderItemsByTable(1).metric_labels(), ("GET", "/v1/orders/by_table/#"));
}

#[test]
fn waiter_may_not_add_to_anothers_order() {
    let route = Route::AddOrderItems(5, HttpAddOrderItemRequest { menu_position_ids: vec![8] });
    let (code, msg) = refusal(after_order_lookup(route, user(2, Role::Waiter), Ok(Some(3))));
    assert_eq!(code, 403);
    assert!(msg.ends_with("Only the waiter assigned to the order can change it"));
}

#[test]
fn waiter_may_not_remove_items_of_anothers_order() {
    assert_eq!(lookup(after_authentication(Route::DeleteOrderItem(40), Ok(user(2, Role::Waiter)))), OrderRef::OrderOfItem(40));
    assert_eq!(refusal(after_order_lookup(Route::DeleteOrderItem(40), user(2, Role::Waiter), Ok(Some(9)))).0, 403);
    assert!(matches!(
        command(after_order_lookup(Route::DeleteOrderItem(40), user(2, Role::Waiter), Ok(Some(2)))),
        DbCommand::DeleteOrderItem { order_item_id: 40 }
    ));
}

#[test]
fn waiter_may_not_serve_anothers_order() {
    for s in [OrderStatus::Created, OrderStatus::Served, OrderStatus::Paid] {
        assert_eq!(lookup(after_authentication(status(10, s), Ok(user(2, Role::Waiter)))), OrderRef::Order(10));
        assert_eq!(refusal(after_order_lookup(status(10, s), user(2, Role::Waiter), Ok(Some(3)))).0, 403);
    }
}

#[test]
fn missing_order_is_left_to_the_database() {
    assert!(matches!(
        command(after_order_lookup(status(99, OrderStatus::Paid), user(2, Role::Waiter), Ok(None))),
        DbCommand::UpdateOrderStatus { order_id: 99, .. }
    ));
}

#[test]
fn failed_order_lookup_is_answered() {
    let step = after_order_lookup(Route::DeleteOrderItem(4), user(2, Role::Waiter), Err(DatabaseError::BadQueryError("down".to_string())));
    assert_eq!(refusal(step).0, 500);
}

#[test]
fn admins_and_cooks_are_not_bound_to_orders() {
    let add = Route::AddOrderItems(5, HttpAddOrderItemRequest { menu_position_ids: vec![1] });
    assert!(matches!(command(after_authentication(add, Ok(user(1, Role::Admin)))), DbCommand::InsertOrderItems { order_id: 5, .. }));
    assert!(matches!(command(after_authentication(status(5, OrderStatus::Cooking), Ok(user(3, Role::Cook)))), DbCommand::UpdateOrderStatus { .. }));
    assert!(matches!(command(after_order_lookup(status(5, OrderStatus::Paid), user(1, Role::Admin), Ok(Some(7)))), DbCommand::UpdateOrderStatus { .. }));
}

#[test]
fn order_lookup_keeps_the_grant() {
    let add = Route::AddOrderItems(5, HttpAddOrderItemRequest { menu_position_ids: vec![1] });
    assert_eq!(refusal(after_order_lookup(add, user(3, Role::Cook), Ok(Some(3)))).0, 403);
}
