//! Which applications a query lists.
use vstd::prelude::*;

use crate::driver::lifecycle;
use crate::driver::lifecycle::{AppRef, AppQuery, InstalledApp, RunningApplicationInfo};
use crate::text;

verus! {

/// An application is in a listing.
pub open spec fn listed(apps: Seq<lifecycle::AppView>, app: lifecycle::AppView) -> bool {
    apps.contains(app)
}

/// A text stands somewhere in another.
pub open spec fn shows(whole: Seq<char>, part: Seq<char>) -> bool {
    exists|front: Seq<char>, back: Seq<char>| whole == #[trigger] (front + part + back)
}

/// A name holds a needle, whatever the case of their letters.
pub open spec fn name_holds(app: lifecycle::AppView, query: AppQuery) -> bool {
    match query.name_contains {
        None => true,
        Some(needle) => app.name is Some && shows(
            text::lowercase(app.name->0),
            text::lowercase(needle@),
        ),
    }
}

/// An application runs as the query asks.
pub open spec fn runs_as_asked(app: lifecycle::AppView, query: AppQuery) -> bool {
    match query.running {
        None => true,
        Some(running) => app.running == running,
    }
}

proof fn answers_as_asked(app: lifecycle::AppView, query: AppQuery)
    ensures
        lifecycle::answers(app, query) == (runs_as_asked(app, query) && name_holds(app, query)),
{
    if let Some(needle) = query.name_contains {
        if let Some(name) = app.name {
            let lower = text::lowercase(needle@);
            let hay = text::lowercase(name);
            if text::occurs(hay, lower) {
                let at = choose|at: int| #[trigger] text::occurs_at(hay, lower, at);
                let front = hay.take(at);
                let back = hay.skip(at + lower.len());
                assert(hay =~= front + lower + back);
            }
            if name_holds(app, query) {
                let (front, back) = choose|front: Seq<char>, back: Seq<char>|
                    hay == #[trigger] (front + lower + back);
                assert(hay.subrange(front.len() as int, (front.len() + lower.len()) as int) =~= lower);
                assert(text::occurs_at(hay, lower, front.len() as int));
            }
        }
    }
}

proof fn inserting_lists_one_more(
    apps: Seq<lifecycle::AppView>,
    app: lifecycle::AppView,
    other: lifecycle::AppView,
)
    ensures
        0 <= lifecycle::place_of(apps, app) <= apps.len(),
        lifecycle::with_listed(apps, app).len() == apps.len() + 1,
        listed(lifecycle::with_listed(apps, app), other) == (listed(apps, other) || other == app),
    decreases apps.len(),
{
    place_is_inside(apps, app);
    let at = lifecycle::place_of(apps, app);
    let longer = apps.insert(at, app);
    assert(longer[at] == app);
    if listed(apps, other) {
        let i = choose|i: int| 0 <= i < apps.len() && apps[i] == other;
        if i < at {
            assert(longer[i] == other);
        } else {
            assert(longer[i + 1] == other);
        }
    }
    if listed(longer, other) {
        let i = choose|i: int| 0 <= i < longer.len() && longer[i] == other;
        if i < at {
            assert(apps[i] == other);
        } else if i > at {
            assert(apps[i - 1] == other);
        }
    }
}

proof fn place_is_inside(apps: Seq<lifecycle::AppView>, app: lifecycle::AppView)
    ensures
        0 <= lifecycle::place_of(apps, app) <= apps.len(),
    decreases apps.len(),
{
    if apps.len() > 0 {
        place_is_inside(apps.drop_first(), app);
    }
}

/// Whether a running application shares the bundle of an installed one.
pub open spec fn its_bundle_runs(
    installed: InstalledApp,
    running: Seq<RunningApplicationInfo>,
) -> bool {
    installed.bundle_id is Some && exists|i: int|
        0 <= i < running.len() && text::optional_text((#[trigger] running[i]).bundle_id)
            == Some(installed.bundle_id->0@)
}

/// What a query lists is what runs, and what is installed and does not run, as
/// far as it runs as asked and has the name: those and no others.
pub proof fn a_listing_holds_what_was_asked_for(
    running: Seq<RunningApplicationInfo>,
    installed: Seq<InstalledApp>,
    all_running: Seq<RunningApplicationInfo>,
    query: AppQuery,
    app: lifecycle::AppView,
)
    ensures
        listed(lifecycle::listing(running, installed, all_running, query), app) <==> {
            &&& runs_as_asked(app, query)
            &&& name_holds(app, query)
            &&& {
                ||| exists|i: int|
                    0 <= i < running.len() && lifecycle::running_app((#[trigger] running[i])@)
                        == app
                ||| exists|i: int|
                    0 <= i < installed.len() && lifecycle::installed_app(
                        #[trigger] installed[i],
                    ) == app && !its_bundle_runs(installed[i], all_running)
            }
        },
    decreases running.len() + installed.len(),
{
    let whole = lifecycle::listing(running, installed, all_running, query);
    answers_as_asked(app, query);
    if installed.len() > 0 {
        let shorter = installed.drop_last();
        let last = installed.last();
        a_listing_holds_what_was_asked_for(running, shorter, all_running, query, app);
        let rest = lifecycle::listing(running, shorter, all_running, query);
        let one = lifecycle::installed_app(last);
        inserting_lists_one_more(rest, one, app);
        answers_as_asked(one, query);
        assert(lifecycle::listed_as_installed(last, all_running) == !its_bundle_runs(
            last,
            all_running,
        )) by {
            if its_bundle_runs(last, all_running) {
                let i = choose|i: int|
                    0 <= i < all_running.len() && text::optional_text(
                        (#[trigger] all_running[i]).bundle_id,
                    ) == Some(last.bundle_id->0@);
                assert(all_running[i]@.bundle_id == Some(last.bundle_id->0@));
            }
            if !lifecycle::listed_as_installed(last, all_running) {
                let i = choose|i: int|
                    0 <= i < all_running.len() && (#[trigger] all_running[i])@.bundle_id == Some(
                        last.bundle_id->0@,
                    );
                assert(text::optional_text(all_running[i].bundle_id) == Some(
                    last.bundle_id->0@,
                ));
            }
        }
        assert forall|i: int| 0 <= i < shorter.len() implies shorter[i] == (
        #[trigger] installed[i]) by {}
        assert(installed[installed.len() - 1] == last);
        if exists|i: int|
            0 <= i < shorter.len() && lifecycle::installed_app(#[trigger] shorter[i]) == app
                && !its_bundle_runs(shorter[i], all_running) {
            let i = choose|i: int|
                0 <= i < shorter.len() && lifecycle::installed_app(#[trigger] shorter[i]) == app
                    && !its_bundle_runs(shorter[i], all_running);
            assert(installed[i] == shorter[i]);
        }
        if exists|i: int|
            0 <= i < installed.len() && lifecycle::installed_app(#[trigger] installed[i]) == app
                && !its_bundle_runs(installed[i], all_running) {
            let i = choose|i: int|
                0 <= i < installed.len() && lifecycle::installed_app(#[trigger] installed[i])
                    == app && !its_bundle_runs(installed[i], all_running);
            if i < shorter.len() {
                assert(shorter[i] == installed[i]);
            }
        }
    } else if running.len() > 0 {
        let shorter = running.drop_last();
        let last = running.last();
        a_listing_holds_what_was_asked_for(shorter, installed, all_running, query, app);
        let rest = lifecycle::listing(shorter, installed, all_running, query);
        let one = lifecycle::running_app(last@);
        inserting_lists_one_more(rest, one, app);
        answers_as_asked(one, query);
        assert(running[running.len() - 1] == last);
        if exists|i: int|
            0 <= i < shorter.len() && lifecycle::running_app((#[trigger] shorter[i])@) == app {
            let i = choose|i: int|
                0 <= i < shorter.len() && lifecycle::running_app((#[trigger] shorter[i])@) == app;
            assert(running[i] == shorter[i]);
        }
        if exists|i: int|
            0 <= i < running.len() && lifecycle::running_app((#[trigger] running[i])@) == app {
            let i = choose|i: int|
                0 <= i < running.len() && lifecycle::running_app((#[trigger] running[i])@) == app;
            if i < shorter.len() {
                assert(shorter[i] == running[i]);
            }
        }
    } else {
        assert(!whole.contains(app));
    }
}

/// Where a query asks for applications that run, or for those that do not, every
/// listed one does, or does not.
pub proof fn a_listing_runs_as_asked(
    running: Seq<RunningApplicationInfo>,
    installed: Seq<InstalledApp>,
    query: AppQuery,
    i: int,
)
    requires
        0 <= i < lifecycle::listing(running, installed, running, query).len(),
    ensures
        query.running matches Some(wanted) ==> lifecycle::listing(
            running,
            installed,
            running,
            query,
        )[i].running == wanted,
{
    let apps = lifecycle::listing(running, installed, running, query);
    assert(listed(apps, apps[i]));
    a_listing_holds_what_was_asked_for(running, installed, running, query, apps[i]);
}

/// An application that runs is listed as running, under its name, with its
/// process id; one that is only installed as not running, with none.
pub proof fn listed_applications_say_whether_they_run(
    running: RunningApplicationInfo,
    installed: InstalledApp,
)
    ensures
        lifecycle::running_app(running@).running,
        lifecycle::running_app(running@).name == text::optional_text(running.name),
        running.pid >= 0 ==> lifecycle::running_app(running@).pid == Some(running.pid as u32),
        running.pid < 0 ==> lifecycle::running_app(running@).pid is None,
        !lifecycle::installed_app(installed).running,
        lifecycle::installed_app(installed).name == Some(installed.name@),
        lifecycle::installed_app(installed).pid is None,
{
}

/// The id of an application names its process where that is known exactly, else
/// its bundle, else its executable.
pub proof fn an_id_names_the_process_first(
    bundle_id: Option<Seq<char>>,
    executable_path: Option<Seq<char>>,
    pid: i32,
    generation: u64,
)
    ensures
        lifecycle::app_id_text(bundle_id, executable_path, Some((pid, generation)))
            == "macos:process:"@ + text::signed_decimal(pid as int) + ":"@ + text::hex(
            generation as nat,
            16,
        ),
        bundle_id matches Some(bundle) ==> lifecycle::app_id_text(
            bundle_id,
            executable_path,
            None,
        ) == "macos:bundle:"@ + bundle,
        bundle_id is None ==> (executable_path matches Some(path) ==> lifecycle::app_id_text(
            bundle_id,
            executable_path,
            None,
        ) == "macos:executable:"@ + path),
        bundle_id is None && executable_path is None ==> lifecycle::app_id_text(
            bundle_id,
            executable_path,
            None,
        ) == "macos:unknown"@,
{
    reveal_strlit(":");
    assert(seq![':'] =~= ":"@);
}

/// Listed applications are in order of their names, those without one first, and
/// of one name in order of their process ids.
pub proof fn listings_are_in_order(left: lifecycle::AppView, right: lifecycle::AppView)
    requires
        lifecycle::listed_before(left, right),
    ensures
        right.name is None ==> left.name is None,
        left.name is Some && right.name is Some && left.name != right.name ==> text::text_le(
            left.name->0,
            right.name->0,
        ),
        left.name == right.name && left.pid is Some ==> right.pid is Some && left.pid->0
            <= right.pid->0,
{
}

/// The order of texts is that of their characters: a text comes before another
/// exactly where it is a beginning of it or the first character that differs is
/// the smaller one.
pub proof fn texts_are_ordered_by_their_first_difference(
    left: Seq<char>,
    right: Seq<char>,
    at: int,
)
    requires
        0 <= at <= left.len(),
        at <= right.len(),
        forall|i: int| 0 <= i < at ==> #[trigger] left[i] == right[i],
        at < left.len() && at < right.len() ==> left[at] != right[at],
    ensures
        at == left.len() ==> text::text_le(left, right),
        at == right.len() && at < left.len() ==> !text::text_le(left, right),
        at < left.len() && at < right.len() ==> text::text_le(left, right) == (left[at]
            < right[at]),
    decreases at,
{
    if at > 0 {
        let l = left.drop_first();
        let r = right.drop_first();
        assert(left[0] == right[0]);
        assert forall|i: int| 0 <= i < at - 1 implies #[trigger] l[i] == r[i] by {
            assert(left[i + 1] == right[i + 1]);
        }
        texts_are_ordered_by_their_first_difference(l, r, at - 1);
    }
}

/// Whatever a query hands out runs as the query asks and has the name that it asks
/// for; what runs says so and has its process id, what does not has none; and what
/// runs and answers the query is among it.
pub proof fn a_query_hands_out_what_it_asks_for(
    running: &Vec<RunningApplicationInfo>,
    installed: &Vec<InstalledApp>,
    query: &AppQuery,
    apps: Vec<AppRef>,
)
    requires
        call_ensures(lifecycle::list_apps_native, (running, installed, query), apps),
    ensures
        forall|i: int|
            0 <= i < apps@.len() ==> {
                &&& query.running is Some ==> (#[trigger] apps@[i]).running == query.running->0
                &&& name_holds(apps@[i]@, *query)
                &&& apps@[i].pid is Some ==> apps@[i].running
            },
        forall|j: int|
            0 <= j < running@.len() && (query.running is None || query.running->0) && name_holds(
                lifecycle::running_app((#[trigger] running@[j])@),
                *query,
            ) ==> listed(lifecycle::apps_view(apps@), lifecycle::running_app(running@[j]@)),
        forall|j: int|
            0 <= j < installed@.len() && (query.running is None || !query.running->0) && name_holds(
                lifecycle::installed_app(#[trigger] installed@[j]),
                *query,
            ) && !its_bundle_runs(installed@[j], running@) ==> listed(
                lifecycle::apps_view(apps@),
                lifecycle::installed_app(installed@[j]),
            ),
{
    let views = lifecycle::apps_view(apps@);
    assert(views.len() == apps@.len());
    assert forall|i: int| 0 <= i < apps@.len() implies {
        &&& query.running is Some ==> (#[trigger] apps@[i]).running == query.running->0
        &&& name_holds(apps@[i]@, *query)
        &&& apps@[i].pid is Some ==> apps@[i].running
    } by {
        assert(views[i] == apps@[i]@);
        assert(listed(views, views[i]));
        a_listing_holds_what_was_asked_for(running@, installed@, running@, *query, views[i]);
    }
    assert forall|j: int|
        0 <= j < running@.len() && (query.running is None || query.running->0) && name_holds(
            lifecycle::running_app((#[trigger] running@[j])@),
            *query,
        ) implies listed(views, lifecycle::running_app(running@[j]@)) by {
        a_listing_holds_what_was_asked_for(
            running@,
            installed@,
            running@,
            *query,
            lifecycle::running_app(running@[j]@),
        );
    }
    assert forall|j: int|
        0 <= j < installed@.len() && (query.running is None || !query.running->0) && name_holds(
            lifecycle::installed_app(#[trigger] installed@[j]),
            *query,
        ) && !its_bundle_runs(installed@[j], running@) implies listed(
        views,
        lifecycle::installed_app(installed@[j]),
    ) by {
        a_listing_holds_what_was_asked_for(
            running@,
            installed@,
            running@,
            *query,
            lifecycle::installed_app(installed@[j]),
        );
    }
}

} // verus!
