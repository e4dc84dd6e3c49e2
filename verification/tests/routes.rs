use std::collections::HashMap;

use bubo::routes::{copy_menu, get_child_routes, group_by_parent, user_routes, MenuItem, Route};

fn menu(id: i64, parent_id: i64, name: &str) -> MenuItem {
    MenuItem {
        id,
        parent_id,
        url: format!("/{name}"),
        name: name.to_string(),
        icon: format!("{name}.svg"),
    }
}

fn outline(routes: &[Route]) -> String {
    let mut text = String::new();
    for route in routes {
        text.push_str(&route.name);
        if !route.routes.is_empty() {
            text.push('(');
            text.push_str(&outline(&route.routes));
            text.push(')');
        }
        text.push(' ');
    }
    text.trim_end().to_string()
}

#[test]
fn menus_form_a_tree_under_their_parents() {
    let models = vec![
        menu(1, 0, "system"),
        menu(2, 1, "user"),
        menu(3, 1, "role"),
        menu(4, 0, "logs"),
        menu(5, 3, "grant"),
        menu(6, 9, "orphan"),
    ];
    let routes = user_routes(&models);
    assert_eq!(outline(&routes), "system(user role(grant)) logs");
    assert_eq!(routes[0].path, "/system");
    assert_eq!(routes[0].icon, "system.svg");
    assert_eq!(routes[0].routes[1].routes[0].path, "/grant");
}

#[test]
fn no_menus_give_no_routes() {
    assert!(user_routes(&vec![]).is_empty());
    assert!(user_routes(&vec![menu(1, 7, "lost")]).is_empty());
}

#[test]
fn grouping_keeps_the_order_of_the_menus() {
    let models = vec![menu(3, 1, "c"), menu(1, 0, "a"), menu(2, 1, "b"), menu(4, 1, "d")];
    let lists = group_by_parent(&models);
    assert_eq!(lists.len(), 2);
    let under_one: Vec<i64> = lists[&1].iter().map(|m| m.id).collect();
    assert_eq!(under_one, vec![3, 2, 4]);
    let under_zero: Vec<i64> = lists[&0].iter().map(|m| m.id).collect();
    assert_eq!(under_zero, vec![1]);
}

#[test]
fn placed_menus_leave_the_lists() {
    let models = vec![menu(1, 0, "a"), menu(2, 1, "b"), menu(3, 8, "c")];
    let mut lists = group_by_parent(&models);
    let routes = get_child_routes(&mut lists, 0);
    assert_eq!(outline(&routes), "a(b)");
    assert_eq!(lists.len(), 1);
    assert!(lists.contains_key(&8));
    assert!(get_child_routes(&mut lists, 0).is_empty());
    assert_eq!(outline(&get_child_routes(&mut lists, 8)), "c");
    assert!(lists.is_empty());
}

#[test]
fn a_menu_is_placed_where_it_is_first_reached() {
    let models = vec![menu(1, 0, "a"), menu(1, 0, "twin"), menu(2, 1, "b")];
    assert_eq!(outline(&user_routes(&models)), "a(b) twin");
}

#[test]
fn menus_that_point_at_each_other_end() {
    let models = vec![menu(1, 0, "a"), menu(0, 1, "back"), menu(2, 2, "self")];
    assert_eq!(outline(&user_routes(&models)), "a(back)");
    let mut lists: HashMap<i64, Vec<MenuItem>> = group_by_parent(&models);
    assert_eq!(outline(&get_child_routes(&mut lists, 2)), "self");
}

#[test]
fn a_copy_is_the_same_menu() {
    let first = menu(5, 4, "x");
    let copy = copy_menu(&first);
    assert_eq!(copy.id, 5);
    assert_eq!(copy.parent_id, 4);
    assert_eq!(copy.url, "/x");
    assert_eq!(copy.name, "x");
    assert_eq!(copy.icon, "x.svg");
}
