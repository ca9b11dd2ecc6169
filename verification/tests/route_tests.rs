//! The mounted route tables.

use bread::api::debug::get_debug_routes;
use bread::api::get_api_routes;
use bread::app::get_app_routes;

#[test]
fn api_routes_in_mount_order() {
    let routes = get_api_routes();
    assert_eq!(routes.len(), 7);
    assert_eq!(routes[0], "/auth/register");
    assert_eq!(routes[1], "/auth/login");
    assert_eq!(routes[2], "/auth/change-password");
    assert_eq!(routes[6], "/unfollow/<user_id>");
}

#[test]
fn app_routes_in_mount_order() {
    let routes = get_app_routes();
    assert_eq!(routes.len(), 7);
    assert_eq!(routes[0], "/");
    assert_eq!(routes[6], "/profile");
}

#[test]
fn debug_routes_in_mount_order() {
    let routes = get_debug_routes();
    assert_eq!(routes, vec!["/test-user", "/test-user", "/test-post"]);
}
