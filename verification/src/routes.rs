//! The tree of routes that the menus of a user form.
use vstd::prelude::*;
use std::collections::HashMap;
use vstd::set_lib::lemma_len_subset;

verus! {

/// What the route tree needs of a menu.
#[derive(Debug)]
pub struct MenuItem {
    pub id: i64,
    pub parent_id: i64,
    pub url: String,
    pub name: String,
    pub icon: String,
}

/// A route with the routes below it.
#[derive(Debug)]
pub struct Route {
    pub path: String,
    pub name: String,
    pub icon: String,
    pub routes: Vec<Route>,
}

/// A route tree as a mathematical value.
pub struct RouteTree {
    pub path: Seq<char>,
    pub name: Seq<char>,
    pub icon: Seq<char>,
    pub routes: Seq<RouteTree>,
}

/// The menus that are still to be placed, listed under their parent.
pub type MenuLists = Map<i64, Seq<MenuItem>>;

/// The lists that a table of menus holds.
pub open spec fn lists_of(menus: Map<i64, Vec<MenuItem>>) -> MenuLists {
    Map::new(|parent_id: i64| menus.dom().contains(parent_id), |parent_id: i64| menus[parent_id]@)
}

/// The tree that a route stands for.
pub open spec fn route_tree(route: Route) -> RouteTree
    decreases route, 0nat,
{
    RouteTree {
        path: route.path@,
        name: route.name@,
        icon: route.icon@,
        routes: route_trees(route.routes, route.routes.len() as nat),
    }
}

/// The trees that the first `count` routes stand for.
pub open spec fn route_trees(routes: Vec<Route>, count: nat) -> Seq<RouteTree>
    decreases routes, count,
{
    if count == 0 || count > routes.len() {
        Seq::<RouteTree>::empty()
    } else {
        route_trees(routes, (count - 1) as nat).push(route_tree(routes[count - 1]))
    }
}

/// The routes below `parent_id`, and the menus that are left over.
///
/// The menus listed under `parent_id` are taken out of the lists; each of
/// them becomes a route, in the order of the list, and the routes below it
/// are made in the same way from what the routes before it left over. So a
/// menu is placed once, where it is first reached. `fuel` bounds the depth;
/// the number of lists is always enough.
pub open spec fn spec_child_routes(menus: MenuLists, parent_id: i64, fuel: nat) -> (
    Seq<RouteTree>,
    MenuLists,
)
    decreases fuel, 0nat,
{
    if fuel > 0 && menus.dom().contains(parent_id) {
        spec_sibling_routes(menus.remove(parent_id), menus[parent_id], (fuel - 1) as nat)
    } else {
        (Seq::<RouteTree>::empty(), menus)
    }
}

/// The routes of the menus `items`, in their order, and the menus that are
/// left over.
pub open spec fn spec_sibling_routes(menus: MenuLists, items: Seq<MenuItem>, fuel: nat) -> (
    Seq<RouteTree>,
    MenuLists,
)
    decreases fuel, 1 + items.len(),
{
    if items.len() == 0 {
        (Seq::<RouteTree>::empty(), menus)
    } else {
        let (earlier, rest) = spec_sibling_routes(menus, items.drop_last(), fuel);
        let (children, left) = spec_child_routes(rest, items.last().id, fuel);
        (
            earlier.push(
                RouteTree {
                    path: items.last().url@,
                    name: items.last().name@,
                    icon: items.last().icon@,
                    routes: children,
                },
            ),
            left,
        )
    }
}

/// Whether `left` is a part of `menus`: it lists no parent that `menus`
/// does not list, and under each parent it keeps it lists the same menus.
pub open spec fn is_part_of(left: MenuLists, menus: MenuLists) -> bool {
    forall|parent_id: i64| #[trigger]
        left.dom().contains(parent_id) ==> menus.dom().contains(parent_id) && left[parent_id]
            == menus[parent_id]
}

/// Whether the routes are the routes of the menus `items`, one for one and
/// in their order: each route has the path, the name and the icon of its
/// menu.
pub open spec fn routes_show(routes: Seq<RouteTree>, items: Seq<MenuItem>) -> bool {
    &&& routes.len() == items.len()
    &&& forall|i: int|
        0 <= i < routes.len() ==> (#[trigger] routes[i]).path == items[i].url@ && routes[i].name
            == items[i].name@ && routes[i].icon == items[i].icon@
}

/// The routes below a parent are the menus listed under it, one for one and
/// in their order. What is left over is a part of the lists that no longer
/// lists the parent, nor any of the menus that were placed below it.
pub proof fn lemma_child_routes_show_the_list(menus: MenuLists, parent_id: i64, fuel: nat)
    requires
        menus.dom().finite(),
        fuel >= menus.dom().len(),
    ensures
        ({
            let (routes, left) = spec_child_routes(menus, parent_id, fuel);
            &&& is_part_of(left, menus)
            &&& !left.dom().contains(parent_id)
            &&& menus.dom().contains(parent_id) ==> routes_show(routes, menus[parent_id])
            &&& !menus.dom().contains(parent_id) ==> routes.len() == 0 && left == menus
            &&& menus.dom().contains(parent_id) ==> forall|i: int|
                0 <= i < menus[parent_id].len() ==> !left.dom().contains(
                    (#[trigger] menus[parent_id][i]).id,
                )
        }),
    decreases fuel, 0nat,
{
    if menus.dom().contains(parent_id) {
        assert(menus.dom().len() > 0) by {
            if menus.dom().len() == 0 {
                menus.dom().lemma_len0_is_empty();
            }
        }
        lemma_sibling_routes_show_the_list(
            menus.remove(parent_id),
            menus[parent_id],
            (fuel - 1) as nat,
        );
    }
}

/// The routes of a list of menus are those menus, one for one and in their
/// order. What is left over is a part of the lists that lists none of them.
pub proof fn lemma_sibling_routes_show_the_list(menus: MenuLists, items: Seq<MenuItem>, fuel: nat)
    requires
        menus.dom().finite(),
        fuel >= menus.dom().len(),
    ensures
        ({
            let (routes, left) = spec_sibling_routes(menus, items, fuel);
            &&& is_part_of(left, menus)
            &&& routes_show(routes, items)
            &&& forall|i: int| 0 <= i < items.len() ==> !left.dom().contains((#[trigger] items[i]).id)
        }),
    decreases fuel, 1 + items.len(),
{
    if items.len() > 0 {
        lemma_sibling_routes_show_the_list(menus, items.drop_last(), fuel);
        let (earlier, rest) = spec_sibling_routes(menus, items.drop_last(), fuel);
        assert(rest.dom().subset_of(menus.dom()));
        lemma_len_subset(rest.dom(), menus.dom());
        lemma_child_routes_show_the_list(rest, items.last().id, fuel);
        let (children, left) = spec_child_routes(rest, items.last().id, fuel);
        let (routes, _) = spec_sibling_routes(menus, items, fuel);
        assert forall|i: int| 0 <= i < items.len() implies !left.dom().contains(
            (#[trigger] items[i]).id,
        ) by {
            if i < items.len() - 1 {
                assert(items.drop_last()[i] == items[i]);
            }
        }
        assert forall|i: int| 0 <= i < routes.len() implies (#[trigger] routes[i]).path
            == items[i].url@ && routes[i].name == items[i].name@ && routes[i].icon
            == items[i].icon@ by {
            if i < items.len() - 1 {
                assert(routes[i] == earlier[i]);
                assert(items.drop_last()[i] == items[i]);
            }
        }
    }
}

/// Builds the routes below `parent_id` from the menus listed under their
/// parents, and takes the menus it places out of the lists.
pub fn get_child_routes(menus: &mut HashMap<i64, Vec<MenuItem>>, parent_id: i64) -> (routes: Vec<
    Route,
>)
    ensures
        forall|fuel: nat|
            fuel >= old(menus)@.len() ==> (#[trigger] spec_child_routes(
                lists_of(old(menus)@),
                parent_id,
                fuel,
            )) == (route_trees(routes, routes.len() as nat), lists_of(final(menus)@)),
        final(menus)@.dom().subset_of(old(menus)@.dom()),
    decreases old(menus)@.len(),
{
    broadcast use vstd::std_specs::hash::group_hash_axioms;

    let ghost before = menus@;
    let mut routes: Vec<Route> = Vec::new();
    match menus.remove(&parent_id) {
        None => {},
        Some(models) => {
            let ghost removed = menus@;
            proof {
                assert(removed == before.remove(parent_id));
                assert(before.dom().contains(parent_id));
                assert(removed.len() + 1 == before.len());
                assert(lists_of(removed) =~= lists_of(before).remove(parent_id));
                assert(lists_of(before)[parent_id] == models@);
            }
            let mut at: usize = 0;
            while at < models.len()
                invariant
                    at <= models.len(),
                    menus@.dom().subset_of(removed.dom()),
                    removed.dom().finite(),
                    removed.len() < old(menus)@.len(),
                    removed.dom().subset_of(old(menus)@.dom()),
                    forall|fuel: nat|
                        fuel >= removed.len() ==> (#[trigger] spec_sibling_routes(
                            lists_of(removed),
                            models@.subrange(0, at as int),
                            fuel,
                        )) == (route_trees(routes, routes.len() as nat), lists_of(menus@)),
                decreases models.len() - at,
            {
                let model = &models[at];
                let ghost rest = menus@;
                let ghost earlier = routes;
                proof {
                    lemma_len_subset(rest.dom(), removed.dom());
                }
                let children = get_child_routes(menus, model.id);
                let route = Route {
                    path: model.url.clone(),
                    name: model.name.clone(),
                    icon: model.icon.clone(),
                    routes: children,
                };
                routes.push(route);
                at = at + 1;
                proof {
                    let items = models@.subrange(0, at as int);
                    assert(items.drop_last() =~= models@.subrange(0, at - 1));
                    assert(items.last() == *model);
                    assert(route_trees(routes, (routes.len() - 1) as nat) == route_trees(
                        earlier,
                        earlier.len() as nat,
                    )) by {
                        lemma_route_trees_prefix(earlier, routes, earlier.len() as nat);
                    }
                    assert forall|fuel: nat| fuel >= removed.len() implies (
                    #[trigger] spec_sibling_routes(lists_of(removed), items, fuel)) == (
                        route_trees(routes, routes.len() as nat),
                        lists_of(menus@),
                    ) by {
                        assert(spec_sibling_routes(lists_of(removed), items.drop_last(), fuel) == (
                            route_trees(earlier, earlier.len() as nat),
                            lists_of(rest),
                        ));
                        assert(fuel >= rest.len());
                        assert(spec_child_routes(lists_of(rest), model.id, fuel) == (
                            route_trees(children, children.len() as nat),
                            lists_of(menus@),
                        ));
                        assert(routes[routes.len() - 1] == route);
                        assert(route_tree(route).routes == route_trees(
                            children,
                            children.len() as nat,
                        ));
                        assert(route_trees(routes, routes.len() as nat) == route_trees(
                            routes,
                            (routes.len() - 1) as nat,
                        ).push(route_tree(route)));
                    }
                }
            }
            proof {
                assert(models@.subrange(0, at as int) =~= models@);
                assert forall|fuel: nat| fuel >= before.len() implies (
                #[trigger] spec_child_routes(lists_of(before), parent_id, fuel)) == (
                    route_trees(routes, routes.len() as nat),
                    lists_of(menus@),
                ) by {
                    assert(spec_sibling_routes(lists_of(removed), models@, (fuel - 1) as nat) == (
                        route_trees(routes, routes.len() as nat),
                        lists_of(menus@),
                    ));
                }
            }
        },
    }
    routes
}

/// The trees of the first routes of a list do not depend on the routes
/// that follow them.
pub proof fn lemma_route_trees_prefix(shorter: Vec<Route>, longer: Vec<Route>, count: nat)
    requires
        count <= shorter.len() <= longer.len(),
        forall|i: int| 0 <= i < count ==> shorter[i] == longer[i],
    ensures
        route_trees(shorter, count) == route_trees(longer, count),
    decreases count,
{
    if count > 0 {
        lemma_route_trees_prefix(shorter, longer, (count - 1) as nat);
    }
}

/// The menus among `models` whose parent is `parent_id`, in their order.
pub open spec fn menus_under(models: Seq<MenuItem>, parent_id: i64) -> Seq<MenuItem>
    decreases models.len(),
{
    if models.len() == 0 {
        Seq::<MenuItem>::empty()
    } else if models.last().parent_id == parent_id {
        menus_under(models.drop_last(), parent_id).push(models.last())
    } else {
        menus_under(models.drop_last(), parent_id)
    }
}

/// The menus `models` listed under their parents: a parent has a list
/// exactly when it has menus, and the list holds them in their order.
pub open spec fn spec_group_by_parent(models: Seq<MenuItem>) -> MenuLists {
    Map::new(
        |parent_id: i64| menus_under(models, parent_id).len() > 0,
        |parent_id: i64| menus_under(models, parent_id),
    )
}

/// The route tree that the menus `models` form: the routes of the menus
/// whose parent is `root`, with the routes of their own menus below them.
pub open spec fn spec_user_routes(models: Seq<MenuItem>, root: i64) -> Seq<RouteTree> {
    spec_child_routes(
        spec_group_by_parent(models),
        root,
        spec_group_by_parent(models).dom().len(),
    ).0
}

/// A copy of a menu.
pub fn copy_menu(model: &MenuItem) -> (copy: MenuItem)
    ensures
        copy == *model,
{
    MenuItem {
        id: model.id,
        parent_id: model.parent_id,
        url: model.url.clone(),
        name: model.name.clone(),
        icon: model.icon.clone(),
    }
}

/// Lists the menus under their parents, each list in the order of `models`.
pub fn group_by_parent(models: &Vec<MenuItem>) -> (lists: HashMap<i64, Vec<MenuItem>>)
    ensures
        lists_of(lists@) == spec_group_by_parent(models@),
{
    broadcast use vstd::std_specs::hash::group_hash_axioms;

    let mut lists: HashMap<i64, Vec<MenuItem>> = HashMap::new();
    let mut at: usize = 0;
    assert(models@.subrange(0, 0) =~= Seq::<MenuItem>::empty());
    assert(lists_of(lists@) =~= spec_group_by_parent(Seq::<MenuItem>::empty()));
    while at < models.len()
        invariant
            at <= models.len(),
            lists_of(lists@) == spec_group_by_parent(models@.subrange(0, at as int)),
        decreases models.len() - at,
    {
        let model = copy_menu(&models[at]);
        let parent_id = model.parent_id;
        let ghost before = lists@;
        let ghost seen = models@.subrange(0, at as int);
        let mut list = match lists.remove(&parent_id) {
            Some(list) => list,
            None => Vec::new(),
        };
        proof {
            if before.dom().contains(parent_id) {
                assert(lists_of(before).dom().contains(parent_id));
                assert(lists_of(before)[parent_id] == spec_group_by_parent(seen)[parent_id]);
            } else {
                assert(!lists_of(before).dom().contains(parent_id));
                assert(!spec_group_by_parent(seen).dom().contains(parent_id));
            }
            assert(list@ =~= menus_under(seen, parent_id));
        }
        list.push(model);
        lists.insert(parent_id, list);
        at = at + 1;
        proof {
            let grown = models@.subrange(0, at as int);
            assert(grown.drop_last() =~= seen);
            assert(grown.last() == model);
            assert forall|other: i64| #[trigger]
                lists_of(lists@).dom().contains(other) == spec_group_by_parent(
                    grown,
                ).dom().contains(other) by {
                if other != parent_id {
                    assert(lists_of(before).dom().contains(other) == spec_group_by_parent(
                        seen,
                    ).dom().contains(other));
                }
            }
            assert forall|other: i64| #[trigger]
                lists_of(lists@).dom().contains(other) implies lists_of(lists@)[other]
                == spec_group_by_parent(grown)[other] by {
                if other != parent_id {
                    assert(lists_of(before).dom().contains(other));
                    assert(lists_of(before)[other] == spec_group_by_parent(seen)[other]);
                }
            }
            assert(lists_of(lists@) =~= spec_group_by_parent(grown));
        }
    }
    assert(models@.subrange(0, at as int) =~= models@);
    lists
}

/// The route tree of a user: the routes of the menus whose parent is 0,
/// one for each of them and in their order, with the routes of their own
/// menus below them.
pub fn user_routes(models: &Vec<MenuItem>) -> (routes: Vec<Route>)
    ensures
        route_trees(routes, routes.len() as nat) == spec_user_routes(models@, 0),
        routes_show(route_trees(routes, routes.len() as nat), menus_under(models@, 0)),
{
    let mut lists = group_by_parent(models);
    proof {
        assert(lists_of(lists@).dom() =~= lists@.dom());
        let listed = spec_group_by_parent(models@);
        lemma_child_routes_show_the_list(listed, 0, listed.dom().len());
    }
    get_child_routes(&mut lists, 0)
}

} // verus!
