//! What is found where something is looked for.
use std::collections::HashMap;

use vstd::prelude::*;

use crate::ax::minimized_recovery;
use crate::ax::minimized_recovery::{
    ExactAxWindowFacts, MappedAxWindow, RecoveryFailure, ServerWindow,
};
use crate::ax::refetch;
use crate::ax::refetch::{ElementLocator, RefetchFailure, RefetchWalk};
use crate::ax::tree_provider;
use crate::ax::tree_provider::{
    CachedWindowTree, DirtyElement, MacAxTreeProvider, RefreshPlan, TreeNode,
};
use crate::contracts::SurfaceKind;
use crate::driver::elements;
use crate::driver::elements::{MacElementRegistry, RegisteredElementSnapshot};
use crate::driver::observation;
use crate::driver::observation::AttemptError;
use crate::driver::snapshot;
use crate::driver::snapshot::{RawAxNode, RawAxSnapshot, RawRelatedWindow, RetainedAxElement};
use crate::evidence::{Detail, Fields};
use crate::paths;
use crate::text;

verus! {

/// An element is found under the native identity and the id it was registered with.
pub proof fn an_element_is_found_under_its_names(
    registry: &MacElementRegistry,
    native: &str,
    id: &str,
    found: Option<RegisteredElementSnapshot>,
    i: int,
)
    requires
        call_ensures(MacElementRegistry::registered, (registry, native, id), found),
        0 <= i < registry@.len(),
    ensures
        registry@[i].native == native@ && registry@[i].id == id@ ==> found is Some,
        registry@.len() == 1 && found is Some ==> found->0@ == registry@[0].state
            && registry@[0].native == native@ && registry@[0].id == id@,
{
    assert(elements::names(registry@, i, native@, id@) <==> registry@[i].native == native@
        && registry@[i].id == id@);
}

/// Elements that share an id are not found by it; one that has it alone is.
pub proof fn an_element_is_found_by_its_own_id(
    registry: &MacElementRegistry,
    id: &str,
    found: Option<RegisteredElementSnapshot>,
    i: int,
    j: int,
)
    requires
        call_ensures(MacElementRegistry::registered_by_id, (registry, id), found),
        0 <= i < registry@.len(),
        0 <= j < registry@.len(),
        registry@[i].id == id@,
    ensures
        i != j && registry@[j].id == id@ ==> found is None,
        registry@.len() == 1 ==> found is Some && found->0@ == registry@[i].state,
{
    assert(elements::named(registry@, i, id@));
    assert(elements::named(registry@, j, id@) <==> registry@[j].id == id@);
}

/// Every registered element is handed out, in order, as it is.
pub proof fn every_registered_element_is_handed_out(
    registry: &MacElementRegistry,
    states: Vec<RegisteredElementSnapshot>,
    fresh: MacElementRegistry,
)
    requires
        call_ensures(MacElementRegistry::registered_snapshots, (registry,), states),
        call_ensures(MacElementRegistry::new, (), fresh),
    ensures
        states@.len() == registry@.len(),
        fresh@.len() == 0,
{
}

/// A window is found by a number that it has alone.
pub proof fn a_window_is_found_by_its_own_number(
    windows: &Vec<MappedAxWindow>,
    window_id: u32,
    found: Option<ExactAxWindowFacts>,
    i: int,
    j: int,
)
    requires
        call_ensures(
            minimized_recovery::exact_ax_window_facts,
            (windows, window_id),
            found,
        ),
        0 <= i < windows@.len(),
        windows@[i].window_id == Some(window_id),
    ensures
        (forall|k: int|
            0 <= k < windows@.len() && (#[trigger] windows@[k]).window_id == Some(window_id) ==> k
                == i) ==> found is Some && found->0@ == windows@[i].facts@,
        0 <= j < windows@.len() && j != i && windows@[j].window_id == Some(window_id)
            ==> found is None,
{
    if forall|k: int|
        0 <= k < windows@.len() && (#[trigger] windows@[k]).window_id == Some(window_id) ==> k
            == i {
        assert(minimized_recovery::uniquely_mapped(windows@, i, window_id));
    }
    if found is Some {
        let at = choose|at: int| #[trigger]
            minimized_recovery::uniquely_mapped(windows@, at, window_id) && windows@[at].facts@
                == found->0@;
        assert(windows@[i].window_id == Some(window_id));
        assert(at == i);
    }
}

/// No window is found by a number that none has.
pub proof fn no_window_is_found_by_another_number(
    windows: &Vec<MappedAxWindow>,
    window_id: u32,
    found: Option<ExactAxWindowFacts>,
)
    requires
        call_ensures(
            minimized_recovery::exact_ax_window_facts,
            (windows, window_id),
            found,
        ),
        forall|k: int| 0 <= k < windows@.len() ==> (#[trigger] windows@[k]).window_id != Some(
            window_id,
        ),
    ensures
        found is None,
{
}

/// The windows of a process are told apart by numbers: only those with a number of
/// their own are there.
pub proof fn windows_with_a_number_of_their_own_are_there(
    windows: &Vec<MappedAxWindow>,
    facts: HashMap<u32, ExactAxWindowFacts>,
    window_id: u32,
    i: int,
    j: int,
)
    requires
        call_ensures(minimized_recovery::ax_window_facts_for_pid, (windows,), facts),
        0 <= i < windows@.len(),
        windows@[i].window_id == Some(window_id),
    ensures
        (forall|k: int|
            0 <= k < windows@.len() && (#[trigger] windows@[k]).window_id == Some(window_id) ==> k
                == i) ==> facts@.contains_key(window_id) && facts@[window_id]@
                    == windows@[i].facts@,
        0 <= j < windows@.len() && j != i && windows@[j].window_id == Some(window_id)
            ==> !facts@.contains_key(window_id),
{
    if forall|k: int|
        0 <= k < windows@.len() && (#[trigger] windows@[k]).window_id == Some(window_id) ==> k
            == i {
        assert(minimized_recovery::uniquely_mapped(windows@, i, window_id));
    }
    if facts@.contains_key(window_id) {
        let at = choose|at: int| #[trigger]
            minimized_recovery::uniquely_mapped(windows@, at, window_id) && windows@[at].facts@
                == facts@[window_id]@;
        assert(windows@[i].window_id == Some(window_id));
        assert(at == i);
    }
}

/// A server window is found by its process and number, where it is the only one.
pub proof fn a_server_window_is_found_where_it_is_the_only_one(
    windows: &Vec<ServerWindow>,
    pid: i32,
    window_id: u32,
    found: Option<ServerWindow>,
    i: int,
    j: int,
)
    requires
        call_ensures(
            minimized_recovery::exact_server_window,
            (windows, pid, window_id),
            found,
        ),
        0 <= i < windows@.len(),
        windows@[i].pid == pid && windows@[i].window_id == window_id,
    ensures
        found is Some ==> found->0 == windows@[i],
        0 <= j < windows@.len() && j != i && windows@[j].pid == pid && windows@[j].window_id
            == window_id ==> found is None,
        windows@.len() == 1 ==> found is Some,
{
    assert(minimized_recovery::server_matches(windows@, i, pid, window_id));
    if 0 <= j < windows@.len() && j != i && windows@[j].pid == pid && windows@[j].window_id
        == window_id {
        assert(minimized_recovery::server_matches(windows@, j, pid, window_id));
    }
}

/// An element is found again in a whole walk of its window, where one element alone
/// is where it was.
pub proof fn an_element_is_found_again_where_it_was(
    walk: &RefetchWalk,
    window_id: u32,
    locator: &ElementLocator,
    outcome: Result<u64, RefetchFailure>,
    found: int,
    node: int,
)
    requires
        call_ensures(refetch::reacquire, (walk, window_id, locator), outcome),
    ensures
        walk.truncated || !walk.window_matched ==> outcome is Err && outcome->Err_0 is Incomplete,
        walk.element_locators@.len() == 0 && !walk.truncated && walk.window_matched
            ==> outcome is Err && outcome->Err_0 is Missing,
        walk.matches(found, node, locator@, window_id) && outcome is Err
            ==> !(outcome->Err_0 is Missing),
        outcome is Ok ==> exists|k: int|
            0 <= k < walk.nodes@.len() && (#[trigger] walk.nodes@[k]).element == outcome->Ok_0
                && walk.nodes@[k].window_id == Some(window_id),
{
    if outcome is Ok {
        let (f, n) = choose|f: int, n: int|
            #![trigger walk.matches(f, n, locator@, window_id)]
            walk.matches(f, n, locator@, window_id) && walk.nodes@[n].element == outcome->Ok_0;
        assert(walk.nodes@[n].window_id == Some(window_id));
    }
}

/// An observer is reliable where every notification took hold or had done so before.
pub proof fn an_observer_is_reliable_where_all_took_hold(
    statuses: &Vec<i32>,
    reliable: bool,
    i: int,
)
    requires
        call_ensures(tree_provider::observes_reliably, (statuses,), reliable),
    ensures
        statuses@.len() == 0 ==> reliable,
        reliable && 0 <= i < statuses@.len() ==> statuses@[i] == 0 || statuses@[i] == -25209,
        (forall|k: int| 0 <= k < statuses@.len() ==> #[trigger] statuses@[k] == 0) ==> reliable,
{
}

/// A tree with a structural change cannot be refreshed; every other refresh names its
/// node and the element it comes from.
pub proof fn a_refresh_names_node_and_element(
    nodes: &Vec<TreeNode>,
    dirty: &Vec<DirtyElement>,
    plan: RefreshPlan,
    i: int,
)
    requires
        call_ensures(tree_provider::refresh_plan, (nodes, dirty), plan),
    ensures
        dirty@.len() == 0 ==> !plan.resync && plan.refreshes@.len() == 0,
        plan.refreshes@.len() <= dirty@.len(),
        0 <= i < dirty@.len() && dirty@[i].kind is FullResync && tree_provider::holds_node(
            nodes@,
            dirty@[i].render_id,
        ) ==> plan.resync,
        !plan.resync && 0 <= i < plan.refreshes@.len() ==> plan.refreshes@[i].0 < nodes@.len(),
        !plan.resync && dirty@.len() == 1 && dirty@[0].kind is Targeted
            && tree_provider::holds_node(nodes@, dirty@[0].render_id) ==> plan.refreshes@.len() == 1
            && nodes@[plan.refreshes@[0].0 as int].render_id == dirty@[0].render_id
            && plan.refreshes@[0].1 == dirty@[0].element_ptr,
{
    reveal_with_fuel(tree_provider::refresh_elements, 3);
    if !plan.resync && 0 <= i < plan.refreshes@.len() {
        assert(plan.refreshes@[i].0 < nodes@.len());
    }
    if dirty@.len() == 1 {
        assert(dirty@.last() == dirty@[0]);
        if !plan.resync && plan.refreshes@.len() == 1 {
            assert(plan.refreshes@[0].0 < nodes@.len());
        }
    }
}

/// A tree was refreshed where every node of the plan was.
pub proof fn a_tree_is_refreshed_where_every_node_was(
    plan: &RefreshPlan,
    refreshed: &Vec<bool>,
    outcome: Result<bool, ()>,
    i: int,
)
    requires
        call_ensures(tree_provider::apply_invalidations, (plan, refreshed), outcome),
    ensures
        plan.resync ==> outcome is Err,
        refreshed@.len() != plan.refreshes@.len() ==> outcome is Err,
        0 <= i < refreshed@.len() && !refreshed@[i] ==> outcome is Err,
        outcome is Ok ==> (outcome->Ok_0 <==> plan.refreshes@.len() > 0),
        !plan.resync && plan.refreshes@.len() == 0 && refreshed@.len() == 0 ==> outcome is Ok,
{
}

/// A tree is kept under its window, until it is removed, and no other is touched.
pub proof fn a_tree_is_kept_under_its_window(
    provider: &mut MacAxTreeProvider,
    pid: i32,
    window_id: u32,
    tree: CachedWindowTree,
    removed: &mut MacAxTreeProvider,
    looked: &MacAxTreeProvider,
    cached: Option<CachedWindowTree>,
    other: (i32, u32),
)
    requires
        call_ensures(MacAxTreeProvider::insert, (provider, pid, window_id, tree), ()),
        call_ensures(MacAxTreeProvider::remove, (removed, pid, window_id), ()),
        call_ensures(MacAxTreeProvider::cached_window, (looked, pid, window_id), cached),
    ensures
        final(provider)@.contains_key((pid, window_id)) && final(provider)@[(pid, window_id)]
            == tree@,
        !final(removed)@.contains_key((pid, window_id)),
        other != (pid, window_id) && old(removed)@.contains_key(other)
            ==> final(removed)@.contains_key(other) && final(removed)@[other]
            == old(removed)@[other],
        other != (pid, window_id) && old(provider)@.contains_key(other)
            ==> final(provider)@[other] == old(provider)@[other],
        cached is Some <==> looked@.contains_key((pid, window_id)),
        cached is Some ==> cached->0@ == looked@[(pid, window_id)],
{
}

/// Elements are the same by identity, and none is the same as none.
pub proof fn elements_are_the_same_by_identity(
    left: &RetainedAxElement,
    right: &RetainedAxElement,
    same: bool,
    first: Option<&RetainedAxElement>,
    second: Option<&RetainedAxElement>,
    both: bool,
)
    requires
        call_ensures(RetainedAxElement::same_identity, (left, right), same),
        call_ensures(snapshot::same_optional_ax_identity, (first, second), both),
    ensures
        same <==> left.identity == right.identity,
        first is None && second is None ==> both,
        first is None && second is Some ==> !both,
        first is Some && second is None ==> !both,
        first is Some && second is Some ==> (both <==> first->0.identity == second->0.identity),
{
}

/// A window has the kind it was seen with last.
pub proof fn a_window_has_its_last_kind(
    related: &Vec<RawRelatedWindow>,
    window_id: u32,
    kind: Option<SurfaceKind>,
)
    requires
        call_ensures(snapshot::related_kind, (related, window_id), kind),
    ensures
        related@.len() == 0 ==> kind is None,
        related@.len() > 0 && related@.last().window_id == window_id ==> kind == Some(
            related@.last().kind,
        ),
{
}

/// A window stands in for a proxy where it is not the target itself.
pub proof fn a_window_stands_in_for_its_proxy(
    proxies: &Vec<RawRelatedWindow>,
    target: RetainedAxElement,
    window: RetainedAxElement,
    window_id: Option<u32>,
    kind: Option<SurfaceKind>,
)
    requires
        call_ensures(snapshot::proxy_replacement, (proxies, target, window, window_id), kind),
    ensures
        window_id is None ==> kind is None,
        window.address == target.address ==> kind is None,
        window_id is Some && window.address != target.address && proxies@.len() > 0
            && proxies@.last().window_id == window_id->0 ==> kind == Some(proxies@.last().kind),
{
}

/// A menu is dead where it is not live any more.
pub proof fn a_menu_is_dead_where_it_is_not_live(
    proxies: &Vec<RawRelatedWindow>,
    live: &Vec<u32>,
    dead: Vec<u32>,
    window_id: u32,
)
    requires
        call_ensures(snapshot::dead_menus, (proxies, live), dead),
    ensures
        live@.contains(window_id) ==> !dead@.contains(window_id),
        proxies@.len() == 0 ==> !dead@.contains(window_id),
        proxies@.len() > 0 && proxies@.last().window_id == window_id && !live@.contains(window_id)
            ==> (dead@.contains(window_id) <==> proxies@.last().kind == SurfaceKind::Menu),
{
    let gone = dead@.contains(window_id);
    assert(gone <==> snapshot::last_kind(proxies@, window_id) == Some(SurfaceKind::Menu)
        && !live@.contains(window_id));
}

/// Related windows are the same where each is found again.
pub proof fn related_windows_are_found_again(
    before: &RawAxSnapshot,
    after: &RawAxSnapshot,
    outcome: Result<(), AttemptError>,
    i: int,
)
    requires
        call_ensures(observation::revalidate_related_identities, (before, after), outcome),
    ensures
        before.related_windows@.len() != after.related_windows@.len() ==> outcome is Err,
        before.related_windows@.len() == 0 && after.related_windows@.len() == 0 ==> outcome is Ok,
        outcome is Ok && 0 <= i < before.related_windows@.len() ==> exists|k: int|
            #![trigger after.related_windows@[k]]
            0 <= k < after.related_windows@.len() && after.related_windows@[k].window_id
                == before.related_windows@[i].window_id && after.related_windows@[k].kind
                == before.related_windows@[i].kind && after.related_windows@[k].element.identity
                == before.related_windows@[i].element.identity,
        outcome is Err ==> outcome->Err_0@ is Raced,
{
    if outcome is Ok && 0 <= i < before.related_windows@.len() {
        assert(snapshot::holds_related(after.related_windows@, before.related_windows@[i]));
    }
}

/// A path's parts are those of its two halves.
pub proof fn the_parts_of_a_path_are_those_of_its_halves(left: Seq<char>, right: Seq<char>)
    ensures
        paths::components(left + "/"@ + right) == paths::components(left) + paths::components(
            right,
        ),
    decreases left.len(),
{
    reveal_strlit("/");
    let whole = left + "/"@ + right;
    let end = paths::segment_len(left) as int;
    segment_ends_at_a_slash(left);
    segment_ends_at_a_slash(whole);
    if end < left.len() {
        let rest = left.skip(end + 1);
        the_parts_of_a_path_are_those_of_its_halves(rest, right);
        assert(whole.skip(end + 1) =~= rest + "/"@ + right);
        first_slash_is_unique(whole, end);
        assert(whole.take(end) =~= left.take(end));
        assert(paths::components(whole) =~= paths::components(left) + paths::components(right));
    } else {
        first_slash_is_unique(whole, left.len() as int);
        assert(whole.take(left.len() as int) =~= left);
        assert(whole.skip(left.len() as int + 1) =~= right);
        assert(left.take(left.len() as int) =~= left);
        if left.len() == 0 {
            assert(!paths::counts(left));
        }
        assert(paths::components(whole) =~= paths::components(left) + paths::components(right));
    }
}

proof fn segment_ends_at_a_slash(path: Seq<char>)
    ensures
        0 <= paths::segment_len(path) <= path.len(),
        paths::segment_len(path) < path.len() ==> path[paths::segment_len(path) as int] == '/',
        forall|i: int| 0 <= i < paths::segment_len(path) ==> #[trigger] path[i] != '/',
    decreases path.len(),
{
    if path.len() > 0 && path[0] != '/' {
        segment_ends_at_a_slash(path.drop_first());
        assert forall|i: int| 0 <= i < paths::segment_len(path) implies #[trigger] path[i]
            != '/' by {
            if i > 0 {
                assert(path.drop_first()[i - 1] == path[i]);
            }
        }
    }
}

proof fn first_slash_is_unique(path: Seq<char>, at: int)
    requires
        0 <= at < path.len(),
        path[at] == '/',
        forall|i: int| 0 <= i < at ==> #[trigger] path[i] != '/',
    ensures
        paths::segment_len(path) == at,
{
    segment_ends_at_a_slash(path);
}

/// The parts of a path that is read are those that stand between its slashes.
pub proof fn a_path_is_read_part_by_part(path: &str, list: Vec<String>)
    requires
        call_ensures(paths::path_components, (path,), list),
    ensures
        path@.len() == 0 ==> list@.len() == 0,
        path@.len() > 0 && !path@.contains('/') && path@ != "."@ ==> list@.len() == 1
            && list@[0]@ == path@,
{
    reveal_strlit(".");
    let parts = text::texts(list@);
    assert(parts.len() == list@.len());
    if path@.len() > 0 && !path@.contains('/') && path@ != "."@ {
        segment_ends_at_a_slash(path@);
        assert(paths::segment_len(path@) == path@.len());
        assert(path@.take(path@.len() as int) =~= path@);
        if path@.len() == 1 && path@[0] == '.' {
            assert(path@ =~= "."@);
        }
        assert(parts =~= seq![path@]);
        assert(parts[0] == list@[0]@);
    }
}

/// A bundle around a path ends with a part that names one, and there is none where no
/// part does.
pub proof fn a_bundle_around_a_path_names_one(path: &str, bundle: Option<String>, i: int)
    requires
        call_ensures(paths::enclosing_app_bundle, (path,), bundle),
    ensures
        0 <= i < paths::components(path@).len() && paths::names_bundle(paths::components(path@)[i])
            ==> bundle is Some,
        bundle is Some ==> exists|k: int|
            0 <= k < paths::components(path@).len() && paths::names_bundle(
                #[trigger] paths::components(path@)[k],
            ),
{
    if bundle is Some {
        let count = choose|count: int| #[trigger]
            paths::bundle_ends(paths::components(path@), count);
        assert(paths::names_bundle(paths::components(path@)[count - 1]));
    }
}

/// A list holds the texts that it has, and lists are the same text by text.
pub proof fn a_list_holds_its_texts(
    list: &Vec<String>,
    wanted: &str,
    found: bool,
    other: &Vec<String>,
    same: bool,
    i: int,
)
    requires
        call_ensures(text::holds_text, (list, wanted), found),
        call_ensures(text::same_texts, (list, other), same),
    ensures
        0 <= i < list@.len() && list@[i]@ == wanted@ ==> found,
        list@.len() == 0 ==> !found,
        same ==> list@.len() == other@.len(),
        same && 0 <= i < list@.len() ==> list@[i]@ == other@[i]@,
        list@.len() == 0 && other@.len() == 0 ==> same,
{
    let texts = text::texts(list@);
    let others = text::texts(other@);
    assert(texts.len() == list@.len());
    assert(others.len() == other@.len());
    if 0 <= i < list@.len() {
        assert(texts[i] == list@[i]@);
        if same {
            assert(others[i] == other@[i]@);
        }
    }
    if list@.len() == 0 && other@.len() == 0 {
        assert(texts =~= others);
    }
}

/// Optional texts are the same where both are there and the same, or neither is.
pub proof fn optional_texts_are_compared_as_they_are(
    left: &Option<String>,
    right: &Option<String>,
    same: bool,
    copy: Option<String>,
)
    requires
        call_ensures(text::same_optional_text, (left, right), same),
        call_ensures(text::clone_optional_text, (left,), copy),
    ensures
        *left is None && *right is None ==> same,
        *left is Some && *right is None ==> !same,
        *left is None && *right is Some ==> !same,
        *left is Some && *right is Some ==> (same <==> left->0@ == right->0@),
        copy is Some <==> *left is Some,
        copy is Some ==> copy->0@ == left->0@,
{
}

/// Numbers are written behind what is there.
pub proof fn numbers_are_written_behind_what_is_there(
    target: &mut String,
    value: u64,
    signed: &mut String,
    number: i64,
    digits: &mut String,
    width: u32,
)
    requires
        call_ensures(text::push_decimal, (target, value), ()),
        call_ensures(text::push_signed_decimal, (signed, number), ()),
        call_ensures(text::push_hex, (digits, value, width), ()),
    ensures
        final(target)@ == old(target)@ + text::decimal(value as nat),
        number >= 0 ==> final(signed)@ == old(signed)@ + text::decimal(number as nat),
        number < 0 ==> final(signed)@ == old(signed)@ + ("-"@ + text::decimal((-number) as nat)),
        final(digits)@.len() == old(digits)@.len() + width,
{
    reveal_strlit("-");
    assert("-"@ =~= seq!['-']);
    crate::laws::words::a_hexadecimal_has_its_width(value as nat, width as nat);
}

/// A place in a text is found by the units before it.
pub proof fn a_place_is_found_by_the_units_before_it(
    list: &Vec<char>,
    target: usize,
    index: Option<usize>,
    at: int,
)
    requires
        call_ensures(text::index_at_utf16, (list, target), index),
    ensures
        index is Some ==> index->0 <= list@.len() && text::utf16_len(
            list@.take(index->0 as int),
        ) == target,
        0 <= at <= list@.len() && text::utf16_len(list@.take(at)) == target ==> index is Some
            && index->0 == at,
{
    if 0 <= at <= list@.len() && text::utf16_len(list@.take(at)) == target {
        assert(text::utf16_boundary(list@, at, target as nat));
        text::utf16_boundary_is_unique(list@, at, index->0 as int, target as nat);
    }
}

/// Texts are joined in order, read whole, and matched where they stand.
pub proof fn texts_are_joined_in_order(
    list: &Vec<String>,
    separator: &str,
    whole: String,
    source: &str,
    read: Vec<char>,
    haystack: &Vec<char>,
    needle: &Vec<char>,
    at: usize,
    found: bool,
)
    requires
        call_ensures(text::join_texts, (list, separator), whole),
        call_ensures(text::characters, (source,), read),
        call_ensures(text::matches_at, (haystack, needle, at), found),
    ensures
        list@.len() == 0 ==> whole@.len() == 0,
        list@.len() == 1 ==> whole@ == list@[0]@,
        list@.len() == 2 ==> whole@ == list@[0]@ + separator@ + list@[1]@,
        read@ == source@,
        found <==> at + needle@.len() <= haystack@.len() && haystack@.subrange(
            at as int,
            at + needle@.len(),
        ) == needle@,
{
    let texts = text::texts(list@);
    assert(texts.len() == list@.len());
    reveal_with_fuel(text::joined, 3);
    if list@.len() == 1 {
        assert(texts[0] == list@[0]@);
    }
    if list@.len() == 2 {
        assert(texts[0] == list@[0]@ && texts[1] == list@[1]@);
        assert(texts.drop_last() =~= seq![list@[0]@]);
    }
}

/// Details say what they were made of; what is not there is null.
pub proof fn details_say_what_they_were_made_of(
    value: &str,
    detail: Detail,
    flag: Option<bool>,
    told: Detail,
    number: Option<i32>,
    counted: Detail,
    fresh: Fields,
    fields: &Fields,
    name: &str,
    got: Option<&Detail>,
)
    requires
        call_ensures(Detail::text, (value,), detail),
        call_ensures(Detail::optional_bool, (flag,), told),
        call_ensures(Detail::optional_i32, (number,), counted),
        call_ensures(Fields::new, (), fresh),
        call_ensures(Fields::get, (fields, name), got),
    ensures
        detail@ is Text && detail@->Text_0 == value@,
        flag is Some ==> told@ is Bool && told@->Bool_0 == flag->0,
        flag is None ==> told@ is Null,
        number is Some ==> counted@ is Int && counted@->Int_0 == number->0,
        number is None ==> counted@ is Null,
        !fresh@.contains_key(name@),
        got is Some <==> fields@.contains_key(name@),
        got is Some ==> got->0@ == fields@[name@],
{
}

/// Nothing happened where a recovery failed before its write, and something may have
/// where it failed behind it.
pub proof fn a_recovery_says_whether_something_happened(
    code: &'static str,
    phase: &'static str,
    message: &str,
    details: Fields,
    before: RecoveryFailure,
    after: RecoveryFailure,
)
    requires
        call_ensures(RecoveryFailure::preflight, (code, message, details), before),
        call_ensures(RecoveryFailure::after_write, (code, phase, message, details), after),
    ensures
        before.retryable && !before.effect_may_have_occurred && before.phase@ == "preflight"@
            && before.code@ == code@ && before.message@ == message@,
        !after.retryable && after.effect_may_have_occurred && after.phase@ == phase@
            && after.code@ == code@ && after.message@ == message@,
{
    assert(before@.retryable == before.retryable);
    assert(after@.retryable == after.retryable);
}

/// Nodes of windows that are gone are dropped, and the others stay.
pub proof fn nodes_of_windows_that_are_gone_are_dropped(
    nodes: Seq<RawAxNode>,
    gone: Seq<u32>,
    i: int,
)
    ensures
        0 <= i < snapshot::kept_nodes(nodes, gone).len() ==> !gone.contains(
            snapshot::kept_nodes(nodes, gone)[i].owner_window_id,
        ),
        0 <= i < nodes.len() && !gone.contains(nodes[i].owner_window_id) ==> snapshot::kept_nodes(
            nodes,
            gone,
        ).contains(nodes[i]),
    decreases nodes.len(),
{
    if nodes.len() > 0 {
        let shorter = nodes.drop_last();
        let before = snapshot::kept_nodes(shorter, gone);
        let kept = snapshot::kept_nodes(nodes, gone);
        nodes_of_windows_that_are_gone_are_dropped(shorter, gone, i);
        if 0 <= i < nodes.len() && !gone.contains(nodes[i].owner_window_id) {
            if i < shorter.len() {
                assert(shorter[i] == nodes[i]);
                let k = choose|k: int| 0 <= k < before.len() && before[k] == nodes[i];
                assert(kept[k] == nodes[i]);
            } else {
                assert(kept[kept.len() - 1] == nodes[i]);
            }
        }
    }
}

} // verus!
