//! Finding, launching and describing applications in the background.
//!
//! Times are nanoseconds on one monotonic clock.
use vstd::prelude::*;

use crate::contracts::{CapabilityCell, PlatformName, SettlementSignal};
use crate::driver::posture::PostureResult;
use crate::driver::settlement;
use crate::driver::settlement::elapsed_ms;
use crate::driver::target::{WorkspaceEvent, WorkspaceEventKind};
use crate::errors;
use crate::errors::{ErrorCode, ErrorPhase, NativeError};
use crate::evidence;
use crate::evidence::{Detail, Entry, Fields, Scalar};
use crate::paths;
use crate::paths::{enclosing_app_bundle, same_path};
use crate::text;
use crate::text::{
    clone_optional_text, contains_text, is_blank, push_hex, push_decimal, push_signed_decimal,
    same_ignoring_ascii_case, same_text, text_at_most, to_lowercase,
};

verus! {

/// The lifecycle provider, over a registry of windows.
#[derive(Debug)]
pub struct MacLifecycle<W> {
    pub windows: W,
}

impl<W> MacLifecycle<W> {
    pub fn new(windows: W) -> (provider: MacLifecycle<W>)
        ensures
            provider.windows == windows,
    {
        MacLifecycle { windows }
    }
}

pub const LAUNCH_DEADLINE_NS: u64 = 12_000_000_000;

pub const WINDOW_QUIET_WINDOW_NS: u64 = 100_000_000;

pub const WINDOW_QUIET_WINDOW_MS: u64 = 100;

/// One running application, with whatever the system has published of it.
#[derive(Debug)]
pub struct RunningApplicationInfo {
    pub pid: i32,
    pub name: Option<String>,
    pub bundle_id: Option<String>,
    pub executable_path: Option<String>,
    pub process_generation: Option<u64>,
    pub active: bool,
    pub hidden: bool,
    pub finished_launching: bool,
    pub regular: bool,
}

#[verifier::ext_equal]
pub ghost struct RunningView {
    pub pid: i32,
    pub name: Option<Seq<char>>,
    pub bundle_id: Option<Seq<char>>,
    pub executable_path: Option<Seq<char>>,
    pub process_generation: Option<u64>,
    pub active: bool,
    pub hidden: bool,
    pub finished_launching: bool,
    pub regular: bool,
}

impl View for RunningApplicationInfo {
    type V = RunningView;

    open spec fn view(&self) -> RunningView {
        RunningView {
            pid: self.pid,
            name: text::optional_text(self.name),
            bundle_id: text::optional_text(self.bundle_id),
            executable_path: text::optional_text(self.executable_path),
            process_generation: self.process_generation,
            active: self.active,
            hidden: self.hidden,
            finished_launching: self.finished_launching,
            regular: self.regular,
        }
    }
}

impl Clone for RunningApplicationInfo {
    fn clone(&self) -> (copy: Self)
        ensures
            copy@ == self@,
    {
        RunningApplicationInfo {
            pid: self.pid,
            name: clone_optional_text(&self.name),
            bundle_id: clone_optional_text(&self.bundle_id),
            executable_path: clone_optional_text(&self.executable_path),
            process_generation: self.process_generation,
            active: self.active,
            hidden: self.hidden,
            finished_launching: self.finished_launching,
            regular: self.regular,
        }
    }
}

#[derive(Debug)]
pub struct AppRef {
    pub id: String,
    pub name: Option<String>,
    pub pid: Option<u32>,
    pub running: bool,
}

#[verifier::ext_equal]
pub ghost struct AppView {
    pub id: Seq<char>,
    pub name: Option<Seq<char>>,
    pub pid: Option<u32>,
    pub running: bool,
}

impl View for AppRef {
    type V = AppView;

    open spec fn view(&self) -> AppView {
        AppView {
            id: self.id@,
            name: text::optional_text(self.name),
            pid: self.pid,
            running: self.running,
        }
    }
}

impl Clone for AppRef {
    fn clone(&self) -> (copy: Self)
        ensures
            copy@ == self@,
    {
        AppRef {
            id: self.id.clone(),
            name: clone_optional_text(&self.name),
            pid: self.pid,
            running: self.running,
        }
    }
}

#[derive(Debug)]
pub struct WindowRef {
    pub id: String,
    pub app: AppRef,
    pub title: Option<String>,
}

#[verifier::ext_equal]
pub ghost struct WindowView {
    pub id: Seq<char>,
    pub app: AppView,
    pub title: Option<Seq<char>>,
}

impl View for WindowRef {
    type V = WindowView;

    open spec fn view(&self) -> WindowView {
        WindowView { id: self.id@, app: self.app@, title: text::optional_text(self.title) }
    }
}

impl Clone for WindowRef {
    fn clone(&self) -> (copy: Self)
        ensures
            copy@ == self@,
    {
        WindowRef {
            id: self.id.clone(),
            app: self.app.clone(),
            title: clone_optional_text(&self.title),
        }
    }
}

pub open spec fn windows_view(windows: Seq<WindowRef>) -> Seq<WindowView> {
    windows.map_values(|window: WindowRef| window@)
}

pub fn clone_windows(windows: &Vec<WindowRef>) -> (copy: Vec<WindowRef>)
    ensures
        windows_view(copy@) == windows_view(windows@),
{
    let mut copy: Vec<WindowRef> = Vec::new();
    let mut index: usize = 0;
    while index < windows.len()
        invariant
            index <= windows.len(),
            copy.len() == index,
            forall|i: int| 0 <= i < index ==> (#[trigger] copy@[i])@ == windows@[i]@,
        decreases windows.len() - index,
    {
        copy.push(windows[index].clone());
        index = index + 1;
    }
    assert(windows_view(copy@) =~= windows_view(windows@));
    copy
}

/// The ids of a list of windows, in its order.
pub open spec fn ids_of(windows: Seq<WindowRef>) -> Seq<Seq<char>> {
    windows.map_values(|window: WindowRef| window.id@)
}

fn ids_in_order(windows: &Vec<WindowRef>) -> (ids: Vec<String>)
    ensures
        text::texts(ids@) == ids_of(windows@),
{
    let mut ids: Vec<String> = Vec::new();
    let mut index: usize = 0;
    while index < windows.len()
        invariant
            index <= windows.len(),
            ids.len() == index,
            forall|i: int| 0 <= i < index ==> (#[trigger] ids@[i])@ == windows@[i].id@,
        decreases windows.len() - index,
    {
        ids.push(windows[index].id.clone());
        index = index + 1;
    }
    assert(text::texts(ids@) =~= ids_of(windows@));
    ids
}

/// Whether a list of strings is in lexicographic order.
pub open spec fn ordered(list: Seq<Seq<char>>) -> bool {
    forall|i: int, j: int|
        0 <= i < j < list.len() ==> text::text_le(#[trigger] list[i], #[trigger] list[j])
}

/// The ids of a list of windows, sorted: two lists have the same sorted ids
/// exactly if they hold the same windows, in whatever order.
pub fn window_ids(windows: &Vec<WindowRef>) -> (ids: Vec<String>)
    ensures
        ordered(text::texts(ids@)),
        text::texts(ids@).to_multiset() == ids_of(windows@).to_multiset(),
{
    let source: Vec<String> = ids_in_order(windows);
    let ghost all = ids_of(windows@);
    let mut ids: Vec<String> = Vec::new();
    let mut index: usize = 0;
    assert(text::texts(ids@) =~= Seq::<Seq<char>>::empty());
    assert(all.take(0) =~= Seq::<Seq<char>>::empty());
    while index < source.len()
        invariant
            index <= source.len(),
            text::texts(source@) == all,
            ordered(text::texts(ids@)),
            text::texts(ids@).to_multiset() == all.take(index as int).to_multiset(),
        decreases source.len() - index,
    {
        let ghost before = text::texts(ids@);
        let ghost value = source@[index as int]@;
        let mut at: usize = 0;
        while at < ids.len() && text_at_most(ids[at].as_str(), source[index].as_str())
            invariant
                at <= ids.len(),
                index < source.len(),
                value == source@[index as int]@,
                before == text::texts(ids@),
                forall|i: int| 0 <= i < at ==> text::text_le(#[trigger] before[i], value),
            decreases ids.len() - at,
        {
            assert(before[at as int] == ids@[at as int]@);
            at = at + 1;
        }
        proof {
            assert forall|i: int| at <= i < before.len() implies text::text_le(
                value,
                #[trigger] before[i],
            ) by {
                assert(before[at as int] == ids@[at as int]@);
                text::text_le_total(before[at as int], value);
                if i > at {
                    text::text_le_transitive(value, before[at as int], before[i]);
                }
            }
        }
        ids.insert(at, source[index].clone());
        proof {
            let after = text::texts(ids@);
            assert(after =~= before.insert(at as int, value));
            vstd::seq_lib::to_multiset_insert(before, at as int, value);
            assert(all.take(index as int + 1) =~= all.take(index as int).push(value));
            broadcast use vstd::seq_lib::group_to_multiset_ensures;

        }
        index = index + 1;
    }
    assert(all.take(index as int) =~= all);
    ids
}

proof fn sorted_lists_of_one_multiset_are_equal(left: Seq<Seq<char>>, right: Seq<Seq<char>>)
    requires
        ordered(left),
        ordered(right),
        left.to_multiset() == right.to_multiset(),
    ensures
        left == right,
    decreases left.len(),
{
    broadcast use vstd::seq_lib::group_to_multiset_ensures;

    assert(left.to_multiset().len() == left.len());
    assert(right.to_multiset().len() == right.len());
    if left.len() > 0 {
        let value = left.last();
        assert(left.contains(value)) by {
            assert(left[left.len() - 1] == value);
        }
        assert(left.to_multiset().count(value) > 0);
        assert(right.to_multiset().count(value) > 0);
        assert(right.contains(value));
        let i = choose|i: int| 0 <= i < right.len() && right[i] == value;
        let other = right.last();
        assert(right[right.len() - 1] == other);
        if i < right.len() - 1 {
            assert(text::text_le(right[i], right[right.len() - 1]));
        } else {
            text::text_le_total(value, value);
        }
        assert(right.to_multiset().count(other) > 0) by {
            assert(right.contains(other));
        }
        assert(left.to_multiset().count(other) > 0);
        assert(left.contains(other));
        let j = choose|j: int| 0 <= j < left.len() && left[j] == other;
        if j < left.len() - 1 {
            assert(text::text_le(left[j], left[left.len() - 1]));
        } else {
            text::text_le_total(other, other);
        }
        text::text_le_antisymmetric(value, other);
        let shorter_left = left.drop_last();
        let shorter_right = right.drop_last();
        assert(left =~= shorter_left.push(value));
        assert(right =~= shorter_right.push(value));
        assert(shorter_left.to_multiset() =~= left.to_multiset().remove(value));
        assert(shorter_right.to_multiset() =~= right.to_multiset().remove(value));
        sorted_lists_of_one_multiset_are_equal(shorter_left, shorter_right);
    } else {
        assert(left =~= right);
    }
}

/// Whether the windows of two lists are the same, whatever their order.
pub fn same_window_set(left: &Vec<WindowRef>, right: &Vec<WindowRef>) -> (same: bool)
    ensures
        same == (ids_of(left@).to_multiset() == ids_of(right@).to_multiset()),
{
    let left_ids: Vec<String> = window_ids(left);
    let right_ids: Vec<String> = window_ids(right);
    proof {
        if ids_of(left@).to_multiset() == ids_of(right@).to_multiset() {
            sorted_lists_of_one_multiset_are_equal(
                text::texts(left_ids@),
                text::texts(right_ids@),
            );
        }
    }
    text::same_texts(&left_ids, &right_ids)
}

/// Whether two sightings are of one exact process.
pub fn same_process_identity(
    left: &RunningApplicationInfo,
    right: &RunningApplicationInfo,
) -> (same: bool)
    ensures
        same == (left.pid == right.pid && left.process_generation is Some && left.process_generation
            == right.process_generation),
{
    left.pid == right.pid && left.process_generation.is_some() && left.process_generation
        == right.process_generation
}

/// How an application to launch was found.
#[derive(Debug)]
pub struct ResolvedLaunch {
    pub app_ref: String,
    pub bundle_id: Option<String>,
    pub executable_path: Option<String>,
    pub name: Option<String>,
    pub arguments: Vec<String>,
}

#[verifier::ext_equal]
pub ghost struct LaunchView {
    pub app_ref: Seq<char>,
    pub bundle_id: Option<Seq<char>>,
    pub executable_path: Option<Seq<char>>,
    pub name: Option<Seq<char>>,
    pub arguments: Seq<Seq<char>>,
}

impl View for ResolvedLaunch {
    type V = LaunchView;

    open spec fn view(&self) -> LaunchView {
        LaunchView {
            app_ref: self.app_ref@,
            bundle_id: text::optional_text(self.bundle_id),
            executable_path: text::optional_text(self.executable_path),
            name: text::optional_text(self.name),
            arguments: text::texts(self.arguments@),
        }
    }
}

impl LaunchView {
    /// Compares by the strongest identity that the launch has, and only with
    /// what the application has published of it.
    pub open spec fn comparison(self, application: RunningView) -> Option<bool> {
        match (self.bundle_id, self.executable_path, self.name) {
            (Some(bundle_id), _, _) => match application.bundle_id {
                Some(candidate) => Some(candidate == bundle_id),
                None => None,
            },
            (None, Some(executable), _) => match application.executable_path {
                Some(path) => Some(paths::same_components(path, executable)),
                None => None,
            },
            (None, None, Some(name)) => match application.name {
                Some(candidate) => Some(
                    text::ascii_lower_all(candidate) == text::ascii_lower_all(name),
                ),
                None => None,
            },
            (None, None, None) => None,
        }
    }
}

impl ResolvedLaunch {
    /// Compare only identity fields that the running application has published.
    /// `None` means registry publication is still incomplete, not a mismatch.
    pub fn compares_to(&self, application: &RunningApplicationInfo) -> (comparison: Option<bool>)
        ensures
            comparison == self@.comparison(application@),
    {
        if let Some(bundle_id) = &self.bundle_id {
            return match &application.bundle_id {
                Some(candidate) => Some(same_text(candidate.as_str(), bundle_id.as_str())),
                None => None,
            };
        }
        if let Some(executable) = &self.executable_path {
            return match &application.executable_path {
                Some(path) => Some(same_path(path.as_str(), executable.as_str())),
                None => None,
            };
        }
        match (&self.name, &application.name) {
            (Some(name), Some(candidate)) => Some(
                same_ignoring_ascii_case(candidate.as_str(), name.as_str()),
            ),
            _ => None,
        }
    }

    pub fn matches(&self, application: &RunningApplicationInfo) -> (is: bool)
        ensures
            is == (self@.comparison(application@) == Some(true)),
    {
        match self.compares_to(application) {
            Some(same) => same,
            None => false,
        }
    }
}

pub open spec fn reusable(resolved: LaunchView, application: Option<RunningView>) -> bool {
    &&& resolved.arguments.len() == 0
    &&& application matches Some(app) && app.process_generation is Some && resolved.comparison(app)
        == Some(true)
}

/// Whether a running application can serve a launch: it is the exact one, and
/// no arguments have to reach it.
pub fn reusable_existing_launch(
    resolved: &ResolvedLaunch,
    application: Option<&RunningApplicationInfo>,
) -> (reuse: bool)
    ensures
        reuse == reusable(
            resolved@,
            match application {
                Some(app) => Some(app@),
                None => None,
            },
        ),
{
    match application {
        Some(app) => resolved.arguments.len() == 0 && app.process_generation.is_some()
            && resolved.matches(app),
        None => false,
    }
}

/// The first running application that a launch names.
/// Whether a place is that of the first application that a launch stands for.
pub open spec fn first_standing(
    resolved: LaunchView,
    running: Seq<RunningApplicationInfo>,
    found: Option<usize>,
) -> bool {
    match found {
        Some(at) => {
            &&& at < running.len()
            &&& resolved.comparison(running[at as int]@) == Some(true)
            &&& forall|i: int|
                0 <= i < at ==> resolved.comparison((#[trigger] running[i])@) != Some(true)
        },
        None => forall|i: int|
            0 <= i < running.len() ==> resolved.comparison((#[trigger] running[i])@) != Some(true),
    }
}

pub fn find_preexisting(
    resolved: &ResolvedLaunch,
    running: &Vec<RunningApplicationInfo>,
) -> (found: Option<usize>)
    ensures
        first_standing(resolved@, running@, found),
{
    let mut index: usize = 0;
    while index < running.len()
        invariant
            index <= running.len(),
            forall|i: int|
                0 <= i < index ==> resolved@.comparison((#[trigger] running@[i])@) != Some(true),
        decreases running.len() - index,
    {
        if resolved.matches(&running[index]) {
            return Some(index);
        }
        index = index + 1;
    }
    None
}

/// How a caller names an application.
#[derive(Debug)]
pub enum AppSelector {
    BundleId { bundle_id: String },
    Name { name: String },
    Executable { path: String, arguments: Vec<String> },
}

/// What the installed system knows of a selector.
#[derive(Debug)]
pub struct CatalogFacts {
    /// Whether the selector's bundle id is installed.
    pub bundle_exists: bool,
    /// What the selector's name locates: a reference and, where known, its
    /// bundle id.
    pub located: Option<(String, Option<String>)>,
    /// The canonical form of the selector's path, if it exists.
    pub canonical_path: Option<String>,
    /// The bundle id of the application bundle around that path.
    pub path_bundle_id: Option<String>,
}

pub open spec fn app_not_found_view(selector: Seq<char>, value: Seq<char>) -> errors::ErrorView {
    errors::ErrorView::new(
        ErrorCode::AppNotFound,
        ErrorPhase::Preflight,
        false,
        "no installed macOS app matched "@ + selector + " '"@ + value + "'"@,
    ).with(selector, evidence::DetailView::Text(value))
}

fn app_not_found(selector: &str, value: &str) -> (error: NativeError)
    ensures
        error@ == app_not_found_view(selector@, value@),
{
    let mut message: String = "no installed macOS app matched ".to_owned();
    message.push_str(selector);
    message.push_str(" '");
    message.push_str(value);
    message.push_str("'");
    NativeError::new(
        ErrorCode::AppNotFound,
        ErrorPhase::Preflight,
        false,
        message.as_str(),
    ).with_text(selector, value)
}

/// Whether a canonical path lies in an application bundle.
pub open spec fn in_bundle(path: Seq<char>) -> bool {
    exists|i: int|
        0 <= i < paths::components(path).len() && paths::names_bundle(
            #[trigger] paths::components(path)[i],
        )
}

pub open spec fn selector_refusal(selector: AppSelector, facts: CatalogFacts) -> Option<
    errors::ErrorView,
> {
    match selector {
        AppSelector::BundleId { bundle_id } => if text::blank(bundle_id@) {
            Some(errors::ErrorView::invalid("bundle_id cannot be empty"@))
        } else if !facts.bundle_exists {
            Some(app_not_found_view("bundle_id"@, bundle_id@))
        } else {
            None
        },
        AppSelector::Name { name } => if text::blank(name@) {
            Some(errors::ErrorView::invalid("app name cannot be empty"@))
        } else if facts.located is None {
            Some(app_not_found_view("name"@, name@))
        } else {
            None
        },
        AppSelector::Executable { path, .. } => if text::blank(path@) {
            Some(errors::ErrorView::invalid("executable path cannot be empty"@))
        } else {
            match facts.canonical_path {
                None => Some(app_not_found_view("executable"@, path@)),
                Some(canonical) => if in_bundle(canonical@) {
                    None
                } else {
                    Some(
                        errors::ErrorView::invalid(
                            "macOS executable selectors must name a .app bundle or an executable inside one"@,
                        ).with("path"@, evidence::DetailView::Text(path@)),
                    )
                },
            }
        },
    }
}

/// Whether a string is the innermost application bundle of a path.
pub open spec fn is_enclosing_bundle(path: Seq<char>, bundle: Seq<char>) -> bool {
    exists|count: int| #[trigger]
        paths::bundle_ends(paths::components(path), count) && bundle == paths::joined(
            paths::root_of(path),
            paths::components(path).take(count),
        )
}

/// What a selector resolves to, given what the catalog knows of it.
pub open spec fn resolves_in_catalog(
    selector: AppSelector,
    facts: CatalogFacts,
    outcome: Result<ResolvedLaunch, NativeError>,
) -> bool {
    match outcome {
        Err(error) => selector_refusal(selector, facts) == Some(error@),
        Ok(resolved) => selector_refusal(selector, facts) is None && match selector {
            AppSelector::BundleId { bundle_id } => resolved@ == LaunchView {
                app_ref: bundle_id@,
                bundle_id: Some(bundle_id@),
                executable_path: None,
                name: None,
                arguments: Seq::empty(),
            },
            AppSelector::Name { name } => resolved@ == LaunchView {
                app_ref: (facts.located->0).0@,
                bundle_id: text::optional_text((facts.located->0).1),
                executable_path: None,
                name: Some(name@),
                arguments: Seq::empty(),
            },
            AppSelector::Executable { path, arguments } => {
                &&& is_enclosing_bundle(facts.canonical_path->0@, resolved.app_ref@)
                &&& resolved@ == LaunchView {
                    app_ref: resolved.app_ref@,
                    bundle_id: text::optional_text(facts.path_bundle_id),
                    executable_path: Some(facts.canonical_path->0@),
                    name: None,
                    arguments: text::texts(arguments@),
                }
            },
        },
    }
}

/// Resolves a selector against what is installed. Every refusal comes before
/// anything is launched.
pub fn resolve_launch_with_catalog(selector: AppSelector, facts: CatalogFacts) -> (outcome: Result<
    ResolvedLaunch,
    NativeError,
>)
    ensures
        resolves_in_catalog(selector, facts, outcome),
{
    match selector {
        AppSelector::BundleId { bundle_id } => {
            if is_blank(bundle_id.as_str()) {
                return Err(NativeError::invalid("bundle_id cannot be empty"));
            }
            if !facts.bundle_exists {
                return Err(app_not_found("bundle_id", bundle_id.as_str()));
            }
            let resolved = ResolvedLaunch {
                app_ref: bundle_id.clone(),
                bundle_id: Some(bundle_id),
                executable_path: None,
                name: None,
                arguments: Vec::new(),
            };
            assert(text::texts(resolved.arguments@) =~= Seq::<Seq<char>>::empty());
            Ok(resolved)
        },
        AppSelector::Name { name } => {
            if is_blank(name.as_str()) {
                return Err(NativeError::invalid("app name cannot be empty"));
            }
            match facts.located {
                None => Err(app_not_found("name", name.as_str())),
                Some((app_ref, bundle_id)) => {
                    let resolved = ResolvedLaunch {
                        app_ref,
                        bundle_id,
                        executable_path: None,
                        name: Some(name),
                        arguments: Vec::new(),
                    };
                    assert(text::texts(resolved.arguments@) =~= Seq::<Seq<char>>::empty());
                    Ok(resolved)
                },
            }
        },
        AppSelector::Executable { path, arguments } => {
            if is_blank(path.as_str()) {
                return Err(NativeError::invalid("executable path cannot be empty"));
            }
            match facts.canonical_path {
                None => Err(app_not_found("executable", path.as_str())),
                Some(canonical) => match enclosing_app_bundle(canonical.as_str()) {
                    None => Err(
                        NativeError::invalid(
                            "macOS executable selectors must name a .app bundle or an executable inside one",
                        ).with_text("path", path.as_str()),
                    ),
                    Some(bundle) => {
                        proof {
                            let parts = paths::components(canonical@);
                            let count = choose|count: int| #[trigger]
                                paths::bundle_ends(parts, count) && bundle@ == paths::joined(
                                    paths::root_of(canonical@),
                                    parts.take(count),
                                );
                            assert(paths::names_bundle(parts[count - 1]));
                        }
                        Ok(
                            ResolvedLaunch {
                                app_ref: bundle,
                                bundle_id: facts.path_bundle_id,
                                executable_path: Some(canonical),
                                name: None,
                                arguments,
                            },
                        )
                    },
                },
            }
        },
    }
}

/// Whether a running application has a name, up to the case of ASCII letters.
pub open spec fn carries_name(application: RunningView, name: Seq<char>) -> bool {
    application.name matches Some(candidate) && text::ascii_lower_all(candidate)
        == text::ascii_lower_all(name)
}

/// The process ids of the applications with a name, in order.
pub open spec fn named_pids(applications: Seq<RunningApplicationInfo>, name: Seq<char>) -> Seq<int>
    decreases applications.len(),
{
    if applications.len() == 0 {
        Seq::empty()
    } else if carries_name(applications.last()@, name) {
        named_pids(applications.drop_last(), name).push(applications.last().pid as int)
    } else {
        named_pids(applications.drop_last(), name)
    }
}

/// Whether an application is the only one with a name.
pub open spec fn only_named(
    applications: Seq<RunningApplicationInfo>,
    name: Seq<char>,
    at: int,
) -> bool {
    &&& 0 <= at < applications.len()
    &&& carries_name(applications[at]@, name)
    &&& forall|i: int|
        0 <= i < applications.len() && carries_name((#[trigger] applications[i])@, name) ==> i == at
}

/// What a name resolves to among the running applications.
pub open spec fn resolves_running(
    name: Seq<char>,
    applications: Seq<RunningApplicationInfo>,
    outcome: Result<Option<ResolvedLaunch>, NativeError>,
) -> bool {
    match outcome {
        Ok(None) => forall|i: int|
            0 <= i < applications.len() ==> !carries_name(
                (#[trigger] applications[i])@,
                name,
            ),
        Ok(Some(resolved)) => exists|at: int|
            #![trigger only_named(applications, name, at)]
            {
                let application = applications[at]@;
                &&& only_named(applications, name, at)
                &&& application.bundle_id is Some || application.executable_path is Some
                &&& resolved@ == LaunchView {
                    app_ref: match application.bundle_id {
                        Some(bundle_id) => bundle_id,
                        None => application.executable_path->0,
                    },
                    bundle_id: application.bundle_id,
                    executable_path: application.executable_path,
                    name: Some(name),
                    arguments: Seq::empty(),
                }
            },
        Err(error) => {
            ||| {
                &&& named_pids(applications, name).len() > 1
                &&& error@ == errors::ErrorView::invalid(
                    "app name matched multiple running macOS processes; use a bundle id or executable"@,
                ).with("name"@, evidence::DetailView::Text(name)).with(
                    "pids"@,
                    evidence::DetailView::Ints(named_pids(applications, name)),
                )
            }
            ||| exists|at: int|
                #![trigger only_named(applications, name, at)]
                {
                    let application = applications[at]@;
                    &&& only_named(applications, name, at)
                    &&& application.bundle_id is None && application.executable_path is None
                    &&& error@ == errors::ErrorView::new(
                        ErrorCode::AppNotFound,
                        ErrorPhase::Preflight,
                        false,
                        "running macOS app has neither a bundle id nor executable path"@,
                    ).with("name"@, evidence::DetailView::Text(name)).with(
                        "pid"@,
                        evidence::DetailView::Int(application.pid as int),
                    )
                }
        },
    }
}

/// No running application carries a name.
pub open spec fn nobody_carries(name: Seq<char>, applications: Seq<RunningApplicationInfo>) -> bool {
    forall|i: int| 0 <= i < applications.len() ==> !carries_name((#[trigger] applications[i])@, name)
}

/// Resolves a name among the running applications: nothing where none has it,
/// an error where several have it or where the one that has it publishes
/// neither a bundle id nor an executable path.
pub fn resolve_running_name(
    name: &str,
    applications: &Vec<RunningApplicationInfo>,
) -> (outcome: Result<Option<ResolvedLaunch>, NativeError>)
    ensures
        resolves_running(name@, applications@, outcome),
{
    let mut pids: Vec<i64> = Vec::new();
    let mut first: Option<usize> = None;
    let mut index: usize = 0;
    assert(evidence::ints_view(pids@) =~= named_pids(applications@.take(0), name@));
    while index < applications.len()
        invariant
            index <= applications.len(),
            evidence::ints_view(pids@) == named_pids(applications@.take(index as int), name@),
            pids@.len() == named_pids(applications@.take(index as int), name@).len(),
            match first {
                None => pids@.len() == 0 && forall|i: int|
                    0 <= i < index ==> !carries_name((#[trigger] applications@[i])@, name@),
                Some(at) => pids@.len() >= 1 && at < index && carries_name(
                    applications@[at as int]@,
                    name@,
                ) && (pids@.len() == 1 ==> forall|i: int|
                    0 <= i < index && carries_name((#[trigger] applications@[i])@, name@) ==> i
                        == at),
            },
        decreases applications.len() - index,
    {
        let ghost longer = applications@.take(index as int + 1);
        assert(longer.drop_last() =~= applications@.take(index as int));
        assert(longer.last() == applications@[index as int]);
        let named: bool = match &applications[index].name {
            Some(candidate) => same_ignoring_ascii_case(candidate.as_str(), name),
            None => false,
        };
        assert(named == carries_name(applications@[index as int]@, name@));
        if named {
            let ghost before = pids@;
            pids.push(applications[index].pid as i64);
            assert(evidence::ints_view(pids@) =~= evidence::ints_view(before).push(
                applications@[index as int].pid as int,
            ));
            if first.is_none() {
                first = Some(index);
            }
        }
        index = index + 1;
    }
    assert(applications@.take(index as int) =~= applications@);
    if pids.len() > 1 {
        return Err(
            NativeError::invalid(
                "app name matched multiple running macOS processes; use a bundle id or executable",
            ).with_text("name", name).with_detail("pids", Detail::Ints(pids)),
        );
    }
    let at: usize = match first {
        Some(at) => at,
        None => return Ok(None),
    };
    assert(only_named(applications@, name@, at as int));
    let application: &RunningApplicationInfo = &applications[at];
    let app_ref: String = match &application.bundle_id {
        Some(bundle_id) => bundle_id.clone(),
        None => match &application.executable_path {
            Some(path) => path.clone(),
            None => return Err(
                NativeError::new(
                    ErrorCode::AppNotFound,
                    ErrorPhase::Preflight,
                    false,
                    "running macOS app has neither a bundle id nor executable path",
                ).with_text("name", name).with_int("pid", application.pid as i128),
            ),
        },
    };
    let resolved = ResolvedLaunch {
        app_ref,
        bundle_id: clone_optional_text(&application.bundle_id),
        executable_path: clone_optional_text(&application.executable_path),
        name: Some(name.to_owned()),
        arguments: Vec::new(),
    };
    assert(text::texts(resolved.arguments@) =~= Seq::<Seq<char>>::empty());
    Ok(Some(resolved))
}

/// Resolves a selector: a name that a running application carries means that
/// application, and the catalog knows everything else.
pub fn resolve_launch(
    selector: AppSelector,
    applications: &Vec<RunningApplicationInfo>,
    facts: CatalogFacts,
) -> (outcome: Result<ResolvedLaunch, NativeError>)
    ensures
        match selector {
            AppSelector::Name { name } if !text::blank(name@) => {
                ||| nobody_carries(name@, applications@) && resolves_in_catalog(
                    selector,
                    facts,
                    outcome,
                )
                ||| resolves_running(
                    name@,
                    applications@,
                    match outcome {
                        Ok(resolved) => Ok(Some(resolved)),
                        Err(error) => Err(error),
                    },
                )
            },
            _ => resolves_in_catalog(selector, facts, outcome),
        },
{
    if let AppSelector::Name { name } = &selector {
        if is_blank(name.as_str()) {
            return Err(NativeError::invalid("app name cannot be empty"));
        }
        match resolve_running_name(name.as_str(), applications) {
            Ok(Some(resolved)) => {
                return Ok(resolved);
            },
            Ok(None) => {},
            Err(error) => {
                return Err(error);
            },
        }
    }
    resolve_launch_with_catalog(selector, facts)
}

/// The id of an application: its exact process, else its bundle, else its
/// executable.
pub open spec fn app_id_text(
    bundle_id: Option<Seq<char>>,
    executable_path: Option<Seq<char>>,
    process: Option<(i32, u64)>,
) -> Seq<char> {
    match process {
        Some((pid, generation)) => "macos:process:"@ + text::signed_decimal(pid as int) + seq![':']
            + text::hex(generation as nat, 16),
        None => match bundle_id {
            Some(bundle) => "macos:bundle:"@ + bundle,
            None => match executable_path {
                Some(path) => "macos:executable:"@ + path,
                None => "macos:unknown"@,
            },
        },
    }
}

pub fn app_id(
    bundle_id: &Option<String>,
    executable_path: &Option<String>,
    process: Option<(i32, u64)>,
) -> (id: String)
    ensures
        id@ == app_id_text(
            text::optional_text(*bundle_id),
            text::optional_text(*executable_path),
            process,
        ),
{
    match process {
        Some((pid, generation)) => {
            let mut id: String = "macos:process:".to_owned();
            push_signed_decimal(&mut id, pid as i64);
            id.push(':');
            push_hex(&mut id, generation, 16);
            assert(id@ =~= "macos:process:"@ + text::signed_decimal(pid as int) + seq![':']
                + text::hex(generation as nat, 16));
            id
        },
        None => match bundle_id {
            Some(bundle) => {
                let mut id: String = "macos:bundle:".to_owned();
                id.push_str(bundle.as_str());
                id
            },
            None => match executable_path {
                Some(path) => {
                    let mut id: String = "macos:executable:".to_owned();
                    id.push_str(path.as_str());
                    id
                },
                None => "macos:unknown".to_owned(),
            },
        },
    }
}

pub open spec fn running_app(application: RunningView) -> AppView {
    AppView {
        id: app_id_text(
            application.bundle_id,
            application.executable_path,
            match application.process_generation {
                Some(generation) => Some((application.pid, generation)),
                None => None,
            },
        ),
        name: application.name,
        pid: if application.pid >= 0 {
            Some(application.pid as u32)
        } else {
            None
        },
        running: true,
    }
}

pub fn app_ref_for_running(application: &RunningApplicationInfo) -> (app: AppRef)
    ensures
        app@ == running_app(application@),
{
    let process: Option<(i32, u64)> = match application.process_generation {
        Some(generation) => Some((application.pid, generation)),
        None => None,
    };
    let pid: Option<u32> = if application.pid >= 0 {
        Some(application.pid as u32)
    } else {
        None
    };
    AppRef {
        id: app_id(&application.bundle_id, &application.executable_path, process),
        name: clone_optional_text(&application.name),
        pid,
        running: true,
    }
}

/// One installed application.
#[derive(Debug)]
pub struct InstalledApp {
    pub name: String,
    pub bundle_id: Option<String>,
    pub launch_path: Option<String>,
}

pub open spec fn installed_app(installed: InstalledApp) -> AppView {
    AppView {
        id: app_id_text(
            text::optional_text(installed.bundle_id),
            text::optional_text(installed.launch_path),
            None,
        ),
        name: Some(installed.name@),
        pid: None,
        running: false,
    }
}

#[derive(Debug)]
pub struct AppQuery {
    pub running: Option<bool>,
    pub name_contains: Option<String>,
}

/// Whether an application answers a query.
pub open spec fn answers(app: AppView, query: AppQuery) -> bool {
    &&& query.running matches Some(running) ==> app.running == running
    &&& query.name_contains matches Some(needle) ==> app.name matches Some(name) && text::occurs(
        text::lowercase(name),
        text::lowercase(needle@),
    )
}

/// Applications are listed by name, those without one first, and then by
/// process id.
pub open spec fn listed_before(left: AppView, right: AppView) -> bool {
    match (left.name, right.name) {
        (None, Some(_)) => true,
        (Some(_), None) => false,
        (Some(left_name), Some(right_name)) if left_name != right_name => text::text_le(
            left_name,
            right_name,
        ),
        _ => match (left.pid, right.pid) {
            (None, _) => true,
            (Some(_), None) => false,
            (Some(left_pid), Some(right_pid)) => left_pid <= right_pid,
        },
    }
}

fn is_listed_before(left: &AppRef, right: &AppRef) -> (before: bool)
    ensures
        before == listed_before(left@, right@),
{
    let same_name: bool = match (&left.name, &right.name) {
        (None, Some(_)) => return true,
        (Some(_), None) => return false,
        (Some(left_name), Some(right_name)) => {
            if !same_text(left_name.as_str(), right_name.as_str()) {
                return text_at_most(left_name.as_str(), right_name.as_str());
            }
            true
        },
        (None, None) => true,
    };
    match (left.pid, right.pid) {
        (None, _) => true,
        (Some(_), None) => false,
        (Some(left_pid), Some(right_pid)) => left_pid <= right_pid,
    }
}

proof fn listed_before_total(left: AppView, right: AppView)
    ensures
        listed_before(left, right) || listed_before(right, left),
{
    if let (Some(left_name), Some(right_name)) = (left.name, right.name) {
        text::text_le_total(left_name, right_name);
    }
}

proof fn listed_before_transitive(left: AppView, middle: AppView, right: AppView)
    requires
        listed_before(left, middle),
        listed_before(middle, right),
    ensures
        listed_before(left, right),
{
    if let (Some(a), Some(b), Some(c)) = (left.name, middle.name, right.name) {
        if a != b && b != c {
            text::text_le_transitive(a, b, c);
            if a == c {
                text::text_le_antisymmetric(a, b);
            }
        }
    }
}

pub open spec fn apps_view(apps: Seq<AppRef>) -> Seq<AppView> {
    apps.map_values(|app: AppRef| app@)
}

pub open spec fn in_listing_order(apps: Seq<AppView>) -> bool {
    forall|i: int, j: int|
        0 <= i < j < apps.len() ==> listed_before(#[trigger] apps[i], #[trigger] apps[j])
}

/// How many applications at the front of a list come before another.
pub open spec fn place_of(apps: Seq<AppView>, app: AppView) -> int
    decreases apps.len(),
{
    if apps.len() == 0 || !listed_before(apps[0], app) {
        0
    } else {
        1 + place_of(apps.drop_first(), app)
    }
}

/// A list with one more application, behind everything that comes before it:
/// of two applications that come before each other, the earlier one stays so.
pub open spec fn with_listed(apps: Seq<AppView>, app: AppView) -> Seq<AppView> {
    apps.insert(place_of(apps, app), app)
}

proof fn place_is_first(apps: Seq<AppView>, app: AppView, at: int)
    requires
        0 <= at <= apps.len(),
        forall|i: int| 0 <= i < at ==> listed_before(#[trigger] apps[i], app),
        at < apps.len() ==> !listed_before(apps[at], app),
    ensures
        place_of(apps, app) == at,
    decreases at,
{
    if at > 0 {
        assert(listed_before(apps[0], app));
        let rest = apps.drop_first();
        assert forall|i: int| 0 <= i < at - 1 implies listed_before(#[trigger] rest[i], app) by {
            assert(rest[i] == apps[i + 1]);
        }
        place_is_first(rest, app, at - 1);
    }
}

fn insert_listed(apps: &mut Vec<AppRef>, app: AppRef)
    requires
        in_listing_order(apps_view(old(apps)@)),
    ensures
        in_listing_order(apps_view(final(apps)@)),
        apps_view(final(apps)@) == with_listed(apps_view(old(apps)@), app@),
{
    let ghost before = apps_view(apps@);
    let mut at: usize = 0;
    while at < apps.len() && is_listed_before(&apps[at], &app)
        invariant
            at <= apps.len(),
            before == apps_view(apps@),
            forall|i: int| 0 <= i < at ==> listed_before(#[trigger] before[i], app@),
        decreases apps.len() - at,
    {
        assert(before[at as int] == apps@[at as int]@);
        at = at + 1;
    }
    proof {
        if at < before.len() {
            assert(before[at as int] == apps@[at as int]@);
        }
        place_is_first(before, app@, at as int);
        assert forall|i: int| at <= i < before.len() implies listed_before(
            app@,
            #[trigger] before[i],
        ) by {
            listed_before_total(before[at as int], app@);
            if i > at {
                listed_before_transitive(app@, before[at as int], before[i]);
            }
        }
    }
    apps.insert(at, app);
    assert(apps_view(apps@) =~= before.insert(at as int, app@));
}

fn runs_bundle(running: &Vec<RunningApplicationInfo>, bundle: &str) -> (runs: bool)
    ensures
        runs == exists|i: int|
            0 <= i < running@.len() && (#[trigger] running@[i])@.bundle_id == Some(bundle@),
{
    let mut index: usize = 0;
    while index < running.len()
        invariant
            index <= running.len(),
            forall|i: int|
                0 <= i < index ==> (#[trigger] running@[i])@.bundle_id != Some(bundle@),
        decreases running.len() - index,
    {
        if let Some(candidate) = &running[index].bundle_id {
            if same_text(candidate.as_str(), bundle) {
                assert(running@[index as int]@.bundle_id == Some(bundle@));
                return true;
            }
        }
        index = index + 1;
    }
    false
}

fn does_answer(app: &AppRef, query: &AppQuery, needle: &Option<String>) -> (does: bool)
    requires
        match (needle, query.name_contains) {
            (Some(lower), Some(wanted)) => lower@ == text::lowercase(wanted@),
            (None, None) => true,
            _ => false,
        },
    ensures
        does == answers(app@, *query),
{
    if let Some(running) = query.running {
        if app.running != running {
            return false;
        }
    }
    match needle {
        Some(lower) => match &app.name {
            Some(name) => contains_text(to_lowercase(name.as_str()).as_str(), lower.as_str()),
            None => false,
        },
        None => true,
    }
}

/// Whether an installed application is listed in its own right: it is not when
/// an application of its bundle runs.
pub open spec fn listed_as_installed(
    installed: InstalledApp,
    running: Seq<RunningApplicationInfo>,
) -> bool {
    installed.bundle_id matches Some(bundle) ==> forall|i: int|
        0 <= i < running.len() ==> (#[trigger] running[i])@.bundle_id != Some(bundle@)
}

/// What a query lists: the running applications and then the installed ones,
/// each put into its place.
pub open spec fn listing(
    running: Seq<RunningApplicationInfo>,
    installed: Seq<InstalledApp>,
    all_running: Seq<RunningApplicationInfo>,
    query: AppQuery,
) -> Seq<AppView>
    decreases running.len() + installed.len(),
{
    if installed.len() > 0 {
        let rest = listing(running, installed.drop_last(), all_running, query);
        if listed_as_installed(installed.last(), all_running) && answers(
            installed_app(installed.last()),
            query,
        ) {
            with_listed(rest, installed_app(installed.last()))
        } else {
            rest
        }
    } else if running.len() > 0 {
        let rest = listing(running.drop_last(), installed, all_running, query);
        if answers(running_app(running.last()@), query) {
            with_listed(rest, running_app(running.last()@))
        } else {
            rest
        }
    } else {
        Seq::empty()
    }
}

/// Lists the running applications, and the installed ones that do not run, as
/// far as they answer a query.
pub fn list_apps_native(
    running: &Vec<RunningApplicationInfo>,
    installed: &Vec<InstalledApp>,
    query: &AppQuery,
) -> (apps: Vec<AppRef>)
    ensures
        in_listing_order(apps_view(apps@)),
        apps_view(apps@) == listing(running@, installed@, running@, *query),
{
    let needle: Option<String> = match &query.name_contains {
        Some(wanted) => Some(to_lowercase(wanted.as_str())),
        None => None,
    };
    let mut apps: Vec<AppRef> = Vec::new();
    let ghost none: Seq<InstalledApp> = Seq::empty();
    let mut index: usize = 0;
    assert(installed@.take(0) =~= none);
    assert(apps_view(apps@) =~= Seq::<AppView>::empty());
    while index < running.len()
        invariant
            index <= running.len(),
            none == Seq::<InstalledApp>::empty(),
            in_listing_order(apps_view(apps@)),
            match (needle, query.name_contains) {
                (Some(lower), Some(wanted)) => lower@ == text::lowercase(wanted@),
                (None, None) => true,
                _ => false,
            },
            apps_view(apps@) == listing(
                running@.take(index as int),
                none,
                running@,
                *query,
            ),
        decreases running.len() - index,
    {
        let ghost longer = running@.take(index as int + 1);
        assert(longer.drop_last() =~= running@.take(index as int));
        assert(longer.last() == running@[index as int]);
        let app: AppRef = app_ref_for_running(&running[index]);
        if does_answer(&app, query, &needle) {
            insert_listed(&mut apps, app);
        }
        index = index + 1;
    }
    assert(running@.take(index as int) =~= running@);
    let mut index: usize = 0;
    while index < installed.len()
        invariant
            index <= installed.len(),
            in_listing_order(apps_view(apps@)),
            match (needle, query.name_contains) {
                (Some(lower), Some(wanted)) => lower@ == text::lowercase(wanted@),
                (None, None) => true,
                _ => false,
            },
            apps_view(apps@) == listing(
                running@,
                installed@.take(index as int),
                running@,
                *query,
            ),
        decreases installed.len() - index,
    {
        let ghost longer = installed@.take(index as int + 1);
        assert(longer.drop_last() =~= installed@.take(index as int));
        assert(longer.last() == installed@[index as int]);
        let listed: bool = match &installed[index].bundle_id {
            Some(bundle) => !runs_bundle(running, bundle.as_str()),
            None => true,
        };
        assert(listed == listed_as_installed(installed@[index as int], running@));
        if listed {
            let app = AppRef {
                id: app_id(&installed[index].bundle_id, &installed[index].launch_path, None),
                name: Some(installed[index].name.clone()),
                pid: None,
                running: false,
            };
            if does_answer(&app, query, &needle) {
                insert_listed(&mut apps, app);
            }
        }
        index = index + 1;
    }
    assert(installed@.take(index as int) =~= installed@);
    apps
}

/// What is known when an application is launched or reused: what has been seen
/// so far, for a caller that has to stop halfway.
#[derive(Debug)]
pub struct LaunchPostureScope {
    pub action_id: Option<String>,
    pub side_effect_started: bool,
    pub partial_app: Option<AppRef>,
    pub partial_windows: Vec<WindowRef>,
    pub posture: Option<PostureResult>,
    pub native_evidence: Fields,
    pub pending_settlement: Option<PendingLaunch>,
}

/// A launch that has not settled yet.
#[derive(Debug)]
pub struct PendingLaunch {
    pub trigger_action_id: String,
    pub profile: &'static str,
    pub elapsed_ms: u64,
    pub observed_signals: Vec<SettlementSignal>,
    pub missing_signals: Vec<SettlementSignal>,
}

#[verifier::ext_equal]
pub ghost struct PendingView {
    pub trigger_action_id: Seq<char>,
    pub profile: Seq<char>,
    pub elapsed_ms: u64,
    pub observed_signals: Seq<SettlementSignal>,
    pub missing_signals: Seq<SettlementSignal>,
}

impl View for PendingLaunch {
    type V = PendingView;

    open spec fn view(&self) -> PendingView {
        PendingView {
            trigger_action_id: self.trigger_action_id@,
            profile: self.profile@,
            elapsed_ms: self.elapsed_ms,
            observed_signals: self.observed_signals@,
            missing_signals: self.missing_signals@,
        }
    }
}

pub fn pending_launch_evidence(
    action_id: &str,
    profile: &'static str,
    started: u64,
    now: u64,
    observed_signals: Vec<SettlementSignal>,
    missing_signals: Vec<SettlementSignal>,
) -> (pending: PendingLaunch)
    ensures
        pending@ == (PendingView {
            trigger_action_id: action_id@,
            profile: profile@,
            elapsed_ms: settlement::millis_between(started, now),
            observed_signals: observed_signals@,
            missing_signals: missing_signals@,
        }),
{
    PendingLaunch {
        trigger_action_id: action_id.to_owned(),
        profile,
        elapsed_ms: elapsed_ms(started, now),
        observed_signals,
        missing_signals,
    }
}

#[verifier::ext_equal]
pub ghost struct ScopeView {
    pub action_id: Option<Seq<char>>,
    pub side_effect_started: bool,
    pub partial_app: Option<AppView>,
    pub partial_windows: Seq<WindowView>,
    pub posture: Option<PostureResult>,
    pub native_evidence: Map<Seq<char>, evidence::DetailView>,
    pub pending_settlement: Option<PendingView>,
}

impl View for LaunchPostureScope {
    type V = ScopeView;

    open spec fn view(&self) -> ScopeView {
        ScopeView {
            action_id: text::optional_text(self.action_id),
            side_effect_started: self.side_effect_started,
            partial_app: match self.partial_app {
                Some(app) => Some(app@),
                None => None,
            },
            partial_windows: windows_view(self.partial_windows@),
            posture: self.posture,
            native_evidence: self.native_evidence@,
            pending_settlement: match self.pending_settlement {
                Some(pending) => Some(pending@),
                None => None,
            },
        }
    }
}

impl LaunchPostureScope {
    pub fn for_action(action_id: Option<String>) -> (scope: LaunchPostureScope)
        ensures
            scope@ == (ScopeView {
                action_id: text::optional_text(action_id),
                side_effect_started: false,
                partial_app: None,
                partial_windows: Seq::empty(),
                posture: None,
                native_evidence: Map::empty(),
                pending_settlement: None,
            }),
    {
        let scope = LaunchPostureScope {
            action_id,
            side_effect_started: false,
            partial_app: None,
            partial_windows: Vec::new(),
            posture: None,
            native_evidence: Fields::new(),
            pending_settlement: None,
        };
        assert(windows_view(scope.partial_windows@) =~= Seq::<WindowView>::empty());
        scope
    }

    pub fn record_partial_result(&mut self, app: &AppRef, windows: &Vec<WindowRef>)
        ensures
            final(self)@ == (ScopeView {
                partial_app: Some(app@),
                partial_windows: windows_view(windows@),
                ..old(self)@
            }),
    {
        self.partial_app = Some(app.clone());
        self.partial_windows = clone_windows(windows);
    }

    pub fn set_pending(&mut self, pending: PendingLaunch)
        ensures
            final(self)@ == (ScopeView { pending_settlement: Some(pending@), ..old(self)@ }),
    {
        self.pending_settlement = Some(pending);
    }

    /// Marks that a launch side effect may happen from here on.
    pub fn begin_launch(&mut self)
        ensures
            final(self)@ == (ScopeView { side_effect_started: true, ..old(self)@ }),
    {
        self.side_effect_started = true;
    }
}

/// Marks the launch as begun only once its witness is live; a witness that
/// could not be had leaves the scope untouched.
pub fn begin_launch_after_witness(
    scope: &mut LaunchPostureScope,
    witness: Result<(), NativeError>,
) -> (outcome: Result<(), NativeError>)
    ensures
        outcome is Ok <==> witness is Ok,
        outcome matches Err(error) ==> witness == Err::<(), NativeError>(error),
        final(scope)@ == if witness is Ok {
            ScopeView { side_effect_started: true, ..old(scope)@ }
        } else {
            old(scope)@
        },
{
    match witness {
        Ok(()) => {
            scope.begin_launch();
            Ok(())
        },
        Err(error) => Err(error),
    }
}

#[derive(Debug)]
pub struct LaunchSettlement {
    pub profile: &'static str,
    pub elapsed_ms: u64,
    pub observed_signals: Vec<SettlementSignal>,
    pub terminal_signal: &'static str,
    pub quiet_window_ms: u64,
}

pub open spec fn launch_signals(dispatched: bool, window_list_changed: bool) -> Seq<
    SettlementSignal,
> {
    let first = if dispatched {
        seq![SettlementSignal::DispatchComplete]
    } else {
        Seq::empty()
    };
    if window_list_changed {
        first.push(SettlementSignal::WindowListChanged)
    } else {
        first
    }
}

/// The settlement of a launch reports only signals that were observed.
pub fn launch_settlement(
    profile: &'static str,
    started: u64,
    now: u64,
    dispatched: bool,
    window_list_changed: bool,
    windows_empty: bool,
) -> (settlement: LaunchSettlement)
    ensures
        settlement.profile@ == profile@,
        settlement.elapsed_ms == settlement::millis_between(started, now),
        settlement.observed_signals@ == launch_signals(dispatched, window_list_changed),
        settlement.terminal_signal@ == if windows_empty {
            "application_finished_without_windows"@
        } else {
            "stable_window_set"@
        },
        settlement.quiet_window_ms == WINDOW_QUIET_WINDOW_MS,
{
    let mut observed_signals: Vec<SettlementSignal> = Vec::new();
    if dispatched {
        observed_signals.push(SettlementSignal::DispatchComplete);
    }
    if window_list_changed {
        observed_signals.push(SettlementSignal::WindowListChanged);
    }
    assert(observed_signals@ =~= launch_signals(dispatched, window_list_changed));
    LaunchSettlement {
        profile,
        elapsed_ms: elapsed_ms(started, now),
        observed_signals,
        terminal_signal: if windows_empty {
            "application_finished_without_windows"
        } else {
            "stable_window_set"
        },
        quiet_window_ms: WINDOW_QUIET_WINDOW_MS,
    }
}

/// An application as a record.
pub open spec fn app_record(app: AppView) -> Seq<(Seq<char>, evidence::ScalarView)> {
    seq![
        ("id"@, evidence::ScalarView::Text(app.id)),
        (
            "name"@,
            match app.name {
                Some(name) => evidence::ScalarView::Text(name),
                None => evidence::ScalarView::Null,
            },
        ),
        (
            "pid"@,
            match app.pid {
                Some(pid) => evidence::ScalarView::Int(pid as int),
                None => evidence::ScalarView::Null,
            },
        ),
        ("running"@, evidence::ScalarView::Bool(app.running)),
    ]
}

/// An application as evidence.
pub open spec fn app_detail(app: Option<AppView>) -> evidence::DetailView {
    match app {
        None => evidence::DetailView::Null,
        Some(app) => evidence::DetailView::Record(app_record(app)),
    }
}

/// A window as a record.
pub open spec fn window_record(window: WindowView) -> Seq<(Seq<char>, evidence::EntryView)> {
    seq![
        ("id"@, evidence::EntryView::Plain(evidence::ScalarView::Text(window.id))),
        ("app"@, evidence::EntryView::Record(app_record(window.app))),
        (
            "title"@,
            evidence::EntryView::Plain(
                match window.title {
                    Some(title) => evidence::ScalarView::Text(title),
                    None => evidence::ScalarView::Null,
                },
            ),
        ),
    ]
}

/// Windows as evidence.
pub open spec fn windows_detail(windows: Seq<WindowView>) -> evidence::DetailView {
    evidence::DetailView::Records(windows.map_values(|window: WindowView| window_record(window)))
}

fn optional_scalar(value: &Option<String>) -> (scalar: Scalar)
    ensures
        scalar@ == match text::optional_text(*value) {
            Some(value) => evidence::ScalarView::Text(value),
            None => evidence::ScalarView::Null,
        },
{
    match value {
        Some(value) => Scalar::Text(value.clone()),
        None => Scalar::Null,
    }
}

fn record_app(app: &AppRef) -> (record: Vec<(String, Scalar)>)
    ensures
        evidence::record_view(record@) == app_record(app@),
{
    let mut record: Vec<(String, Scalar)> = Vec::new();
    record.push(("id".to_owned(), Scalar::Text(app.id.clone())));
    record.push(("name".to_owned(), optional_scalar(&app.name)));
    let pid: Scalar = match app.pid {
        Some(pid) => Scalar::Int(pid as i128),
        None => Scalar::Null,
    };
    record.push(("pid".to_owned(), pid));
    record.push(("running".to_owned(), Scalar::Bool(app.running)));
    assert(evidence::record_view(record@) =~= app_record(app@));
    record
}

fn describe_app(app: &Option<AppRef>) -> (detail: Detail)
    ensures
        detail@ == app_detail(
            match *app {
                Some(app) => Some(app@),
                None => None,
            },
        ),
{
    match app {
        None => Detail::Null,
        Some(app) => Detail::Record(record_app(app)),
    }
}

fn record_window(window: &WindowRef) -> (record: Vec<(String, Entry)>)
    ensures
        evidence::entries_view(record@) == window_record(window@),
{
    let mut record: Vec<(String, Entry)> = Vec::new();
    record.push(("id".to_owned(), Entry::Plain(Scalar::Text(window.id.clone()))));
    record.push(("app".to_owned(), Entry::Record(record_app(&window.app))));
    record.push(("title".to_owned(), Entry::Plain(optional_scalar(&window.title))));
    assert(evidence::entries_view(record@) =~= window_record(window@));
    record
}

fn describe_windows(windows: &Vec<WindowRef>) -> (detail: Detail)
    ensures
        detail@ == windows_detail(windows_view(windows@)),
{
    let mut records: Vec<Vec<(String, Entry)>> = Vec::new();
    let mut index: usize = 0;
    while index < windows.len()
        invariant
            index <= windows.len(),
            records.len() == index,
            forall|i: int|
                0 <= i < index ==> evidence::entries_view((#[trigger] records@[i])@)
                    == window_record(windows@[i]@),
        decreases windows.len() - index,
    {
        records.push(record_window(&windows[index]));
        index = index + 1;
    }
    assert(evidence::records_view(records@) =~= windows_detail(
        windows_view(windows@),
    )->Records_0);
    Detail::Records(records)
}

/// A witnessed posture as evidence.
pub open spec fn posture_detail(posture: PostureResult) -> evidence::DetailView {
    evidence::DetailView::Record(
        seq![
            ("held"@, evidence::ScalarView::Bool(posture.held)),
            ("frontmost_changed"@, evidence::ScalarView::Bool(posture.frontmost_changed)),
            ("key_window_changed"@, evidence::ScalarView::Bool(posture.key_window_changed)),
            ("physical_cursor_moved"@, evidence::ScalarView::Bool(posture.physical_cursor_moved)),
            (
                "restored_after_violation"@,
                evidence::ScalarView::Bool(posture.restored_after_violation),
            ),
        ],
    )
}

fn describe_posture(posture: PostureResult) -> (detail: Detail)
    ensures
        detail@ == posture_detail(posture),
{
    let mut record: Vec<(String, Scalar)> = Vec::new();
    record.push(("held".to_owned(), Scalar::Bool(posture.held)));
    record.push(("frontmost_changed".to_owned(), Scalar::Bool(posture.frontmost_changed)));
    record.push(("key_window_changed".to_owned(), Scalar::Bool(posture.key_window_changed)));
    record.push(("physical_cursor_moved".to_owned(), Scalar::Bool(posture.physical_cursor_moved)));
    record.push(
        ("restored_after_violation".to_owned(), Scalar::Bool(posture.restored_after_violation)),
    );
    assert(evidence::record_view(record@) =~= posture_detail(posture)->Record_0);
    Detail::Record(record)
}

/// The error of a launch whose posture was not held: an observed excursion is a
/// violation, anything else could not be verified. It names the application and
/// the windows that the launch had reached.
pub open spec fn posture_failure_view(
    posture: PostureResult,
    app: Option<AppView>,
    windows: Seq<WindowView>,
) -> Option<errors::ErrorView> {
    if posture.held {
        None
    } else {
        let error = if posture.frontmost_changed || posture.key_window_changed
            || posture.physical_cursor_moved || posture.restored_after_violation {
            errors::ErrorView::new(
                ErrorCode::PostureViolated,
                ErrorPhase::Verify,
                false,
                "app launched but foreground, exact focused-window, or cursor posture changed"@,
            )
        } else {
            errors::ErrorView::new(
                ErrorCode::PostureUnverifiable,
                ErrorPhase::Verify,
                true,
                "app launch posture witness was incomplete, unreadable, or lagged"@,
            )
        };
        Some(
            error.with("app"@, app_detail(app)).with(
                "windows"@,
                windows_detail(windows),
            ).with("posture"@, posture_detail(posture)),
        )
    }
}

/// The failure of a launch whose posture was not held.
pub fn posture_failure(
    posture: PostureResult,
    app: &Option<AppRef>,
    windows: &Vec<WindowRef>,
) -> (failure: Option<NativeError>)
    ensures
        ({
            let expected = posture_failure_view(
                posture,
                match *app {
                    Some(app) => Some(app@),
                    None => None,
                },
                windows_view(windows@),
            );
            match failure {
                Some(error) => expected == Some(error@),
                None => expected is None,
            }
        }),
{
    if posture.held {
        return None;
    }
    let error: NativeError = if posture.frontmost_changed || posture.key_window_changed
        || posture.physical_cursor_moved || posture.restored_after_violation {
        NativeError::new(
            ErrorCode::PostureViolated,
            ErrorPhase::Verify,
            false,
            "app launched but foreground, exact focused-window, or cursor posture changed",
        )
    } else {
        NativeError::new(
            ErrorCode::PostureUnverifiable,
            ErrorPhase::Verify,
            true,
            "app launch posture witness was incomplete, unreadable, or lagged",
        )
    };
    Some(
        error.with_detail("app", describe_app(app)).with_detail(
            "windows",
            describe_windows(windows),
        ).with_detail("posture", describe_posture(posture)),
    )
}

/// How long the set of a launched application's windows has been the same.
#[derive(Debug)]
pub struct LaunchWindowStability {
    prior_ids: Option<Vec<String>>,
    stable_since: u64,
}

impl LaunchWindowStability {
    pub closed spec fn prior(&self) -> Option<Seq<Seq<char>>> {
        match self.prior_ids {
            Some(ids) => Some(text::texts(ids@)),
            None => None,
        }
    }

    pub closed spec fn since(&self) -> u64 {
        self.stable_since
    }

    pub fn new(now: u64) -> (stability: LaunchWindowStability)
        ensures
            stability.prior() is None,
            stability.since() == now,
    {
        LaunchWindowStability { prior_ids: None, stable_since: now }
    }

    /// Takes one look at the windows. Any change restarts the quiet window; the
    /// set is stable once the application has finished launching and the quiet
    /// window is over. No windows at all can be a stable set.
    pub fn observe(&mut self, windows: &Vec<WindowRef>, now: u64, finished: bool) -> (stable: bool)
        ensures
            final(self).prior() == Some(ids_of(windows@)),
            final(self).since() == if old(self).prior() == Some(ids_of(windows@)) {
                old(self).since()
            } else {
                now
            },
            stable == (finished && now - final(self).since() >= WINDOW_QUIET_WINDOW_NS),
    {
        let ids: Vec<String> = ids_in_order(windows);
        let same: bool = match &self.prior_ids {
            Some(prior) => text::same_texts(prior, &ids),
            None => false,
        };
        if !same {
            self.prior_ids = Some(ids);
            self.stable_since = now;
        }
        finished && now.saturating_sub(self.stable_since) >= WINDOW_QUIET_WINDOW_NS
    }
}

pub open spec fn launch_error_view(message: Seq<char>) -> errors::ErrorView {
    errors::ErrorView::new(ErrorCode::AppLaunchFailed, ErrorPhase::Dispatch, true, message)
}

pub fn launch_error(message: &str) -> (error: NativeError)
    ensures
        error@ == launch_error_view(message@),
{
    NativeError::new(ErrorCode::AppLaunchFailed, ErrorPhase::Dispatch, true, message)
}

pub open spec fn launch_settle_view(message: Seq<char>) -> errors::ErrorView {
    errors::ErrorView::new(ErrorCode::AppLaunchFailed, ErrorPhase::Settle, true, message)
}

pub fn launch_settle_error(message: &str) -> (error: NativeError)
    ensures
        error@ == launch_settle_view(message@),
{
    NativeError::new(ErrorCode::AppLaunchFailed, ErrorPhase::Settle, true, message)
}

/// The error of a lifecycle task that did not finish.
pub fn join_error(cause: &str) -> (error: NativeError)
    ensures
        error@ == errors::ErrorView::new(
            ErrorCode::Internal,
            ErrorPhase::Preflight,
            true,
            "macOS lifecycle task failed: "@ + cause@,
        ),
{
    let mut message: String = "macOS lifecycle task failed: ".to_owned();
    message.push_str(cause);
    NativeError::new(ErrorCode::Internal, ErrorPhase::Preflight, true, message.as_str())
}

/// Only the termination of the launched process itself aborts its launch.
pub fn launch_event_failure(pid: i32, event: &WorkspaceEvent) -> (failure: Option<NativeError>)
    ensures
        failure is Some <==> event.pid == pid && event.kind is Terminated,
        failure matches Some(error) ==> error@ == launch_settle_view(
            "app terminated before launch settlement completed"@,
        ).with("pid"@, evidence::DetailView::Int(pid as int)),
{
    if event.pid == pid && event.kind == WorkspaceEventKind::Terminated {
        Some(
            launch_settle_error("app terminated before launch settlement completed").with_int(
                "pid",
                pid as i128,
            ),
        )
    } else {
        None
    }
}

/// What woke a launch that was waiting.
#[derive(Debug)]
pub enum LaunchWake {
    Tick,
    Event(WorkspaceEvent),
    /// Events were lost: the next look at the registry is the resynchronization.
    Lagged,
    Closed,
    DeadlineElapsed,
}

/// What a launch waits for.
#[derive(Debug, Clone, Copy, PartialEq, Eq, Structural)]
pub enum LaunchWaitKind {
    Registration,
    StableWindows,
}

/// A failure of the launch of a process while it settles.
pub open spec fn settle_view_of(pid: i32, message: Seq<char>) -> errors::ErrorView {
    launch_settle_view(message).with("pid"@, evidence::DetailView::Int(pid as int))
}

/// The failure with which a wake ends a wait, if it does.
pub open spec fn wake_refusal(pid: i32, waiting: LaunchWaitKind, wake: LaunchWake) -> Option<
    errors::ErrorView,
> {
    match wake {
        LaunchWake::Tick | LaunchWake::Lagged => None,
        LaunchWake::Event(event) => if event.pid == pid && event.kind is Terminated {
            Some(settle_view_of(pid, "app terminated before launch settlement completed"@))
        } else {
            None
        },
        LaunchWake::Closed => Some(
            match waiting {
                LaunchWaitKind::Registration => settle_view_of(
                    pid,
                    "workspace lifecycle event stream closed before app registration"@,
                ),
                LaunchWaitKind::StableWindows => launch_settle_view(
                    "workspace lifecycle event stream closed during launch"@,
                ),
            },
        ),
        LaunchWake::DeadlineElapsed => Some(
            match waiting {
                LaunchWaitKind::Registration => settle_view_of(
                    pid,
                    "app launch deadline elapsed before registration"@,
                ),
                LaunchWaitKind::StableWindows => settle_view_of(
                    pid,
                    "app launch deadline elapsed"@,
                ),
            },
        ),
    }
}

/// Whether a wake ends the wait with a failure.
pub fn launch_wake_failure(pid: i32, waiting: LaunchWaitKind, wake: &LaunchWake) -> (failure: Option<
    NativeError,
>)
    ensures
        match failure {
            Some(error) => wake_refusal(pid, waiting, *wake) == Some(error@),
            None => wake_refusal(pid, waiting, *wake) is None,
        },
{
    match wake {
        LaunchWake::Tick => None,
        LaunchWake::Lagged => None,
        LaunchWake::Event(event) => launch_event_failure(pid, event),
        LaunchWake::Closed => match waiting {
            LaunchWaitKind::Registration => Some(
                launch_settle_error(
                    "workspace lifecycle event stream closed before app registration",
                ).with_int("pid", pid as i128),
            ),
            LaunchWaitKind::StableWindows => Some(
                launch_settle_error("workspace lifecycle event stream closed during launch"),
            ),
        },
        LaunchWake::DeadlineElapsed => match waiting {
            LaunchWaitKind::Registration => Some(
                launch_settle_error("app launch deadline elapsed before registration").with_int(
                    "pid",
                    pid as i128,
                ),
            ),
            LaunchWaitKind::StableWindows => Some(
                launch_settle_error("app launch deadline elapsed").with_int("pid", pid as i128),
            ),
        },
    }
}

/// What one look for a launched application yields.
#[derive(Debug)]
pub enum RegistrationStep {
    Registered,
    Wait,
    Failed(NativeError),
}

/// Whether a sighting is the launched application, complete and finished.
pub open spec fn registered(
    expected_generation: u64,
    resolved: LaunchView,
    application: RunningView,
) -> bool {
    &&& application.process_generation == Some(expected_generation)
    &&& application.finished_launching
    &&& resolved.comparison(application) == Some(true)
}

/// Why what was seen under the process id is not the launched application.
pub open spec fn registration_refusal(
    pid: i32,
    expected_generation: u64,
    resolved: LaunchView,
    application: RunningView,
) -> Option<errors::ErrorView> {
    if resolved.comparison(application) == Some(false) {
        Some(
            launch_settle_view("NSWorkspace launch pid resolved to a different application"@).with(
                "pid"@,
                evidence::DetailView::Int(pid as int),
            ).with(
                "actual_bundle_id"@,
                evidence::DetailView::Text(
                    match application.bundle_id {
                        Some(bundle_id) => bundle_id,
                        None => Seq::empty(),
                    },
                ),
            ),
        )
    } else {
        match application.process_generation {
            Some(generation) if generation != expected_generation => Some(
                errors::ErrorView::new(
                    ErrorCode::WindowIdentityChanged,
                    ErrorPhase::Settle,
                    true,
                    "launched process identity changed before registration completed"@,
                ).with("pid"@, evidence::DetailView::Int(pid as int)).with(
                    "expected_process_generation"@,
                    evidence::DetailView::Int(expected_generation as int),
                ).with(
                    "current_process_generation"@,
                    evidence::DetailView::Int(generation as int),
                ),
            ),
            _ => None,
        }
    }
}

/// Decides on one look for a launched process: another application or another
/// process under its id is a failure, an incomplete publication means to wait
/// until the deadline.
pub fn wait_for_registered_application(
    pid: i32,
    expected_generation: u64,
    resolved: &ResolvedLaunch,
    sighting: Option<&RunningApplicationInfo>,
    now: u64,
    deadline: u64,
) -> (step: RegistrationStep)
    ensures
        ({
            let refusal = match sighting {
                Some(application) => registration_refusal(
                    pid,
                    expected_generation,
                    resolved@,
                    application@,
                ),
                None => None,
            };
            let complete = match sighting {
                Some(application) => registered(expected_generation, resolved@, application@),
                None => false,
            };
            match step {
                RegistrationStep::Registered => refusal is None && complete,
                RegistrationStep::Wait => refusal is None && !complete && now < deadline,
                RegistrationStep::Failed(error) => match refusal {
                    Some(view) => error@ == view,
                    None => !complete && now >= deadline && error@ == settle_view_of(
                        pid,
                        "launched app did not register and finish launching before its deadline"@,
                    ),
                },
            }
        }),
{
    if let Some(application) = sighting {
        let comparison: Option<bool> = resolved.compares_to(application);
        if comparison == Some(false) {
            let actual: String = match &application.bundle_id {
                Some(bundle_id) => bundle_id.clone(),
                None => String::new(),
            };
            return RegistrationStep::Failed(
                launch_settle_error(
                    "NSWorkspace launch pid resolved to a different application",
                ).with_int("pid", pid as i128).with_detail("actual_bundle_id", Detail::Text(actual)),
            );
        }
        if let Some(generation) = application.process_generation {
            if generation != expected_generation {
                return RegistrationStep::Failed(
                    NativeError::new(
                        ErrorCode::WindowIdentityChanged,
                        ErrorPhase::Settle,
                        true,
                        "launched process identity changed before registration completed",
                    ).with_int("pid", pid as i128).with_int(
                        "expected_process_generation",
                        expected_generation as i128,
                    ).with_int("current_process_generation", generation as i128),
                );
            }
            if application.finished_launching && comparison == Some(true) {
                return RegistrationStep::Registered;
            }
        }
    }
    if now >= deadline {
        return RegistrationStep::Failed(
            launch_settle_error(
                "launched app did not register and finish launching before its deadline",
            ).with_int("pid", pid as i128),
        );
    }
    RegistrationStep::Wait
}

#[derive(Debug)]
pub struct StableLaunchWindows {
    pub windows: Vec<WindowRef>,
    pub window_list_changed: bool,
    pub windows_empty: bool,
}

/// Whether a wait for stable windows may go on.
pub fn stable_windows_deadline(pid: i32, now: u64, deadline: u64) -> (outcome: Result<
    (),
    NativeError,
>)
    ensures
        outcome is Ok <==> now < deadline,
        outcome matches Err(error) ==> error@ == settle_view_of(
            pid,
            "app launch did not reach a stable window set before its deadline"@,
        ),
{
    if now >= deadline {
        return Err(
            launch_settle_error(
                "app launch did not reach a stable window set before its deadline",
            ).with_int("pid", pid as i128),
        );
    }
    Ok(())
}

/// Why a launched process is no longer the exact one, if it is not.
pub open spec fn process_loss(
    pid: i32,
    expected_generation: u64,
    sighting: Option<&RunningApplicationInfo>,
) -> Option<errors::ErrorView> {
    match sighting {
        None => Some(settle_view_of(pid, "app disappeared before launch settlement completed"@)),
        Some(application) => if application.process_generation == Some(expected_generation) {
            None
        } else {
            Some(
                settle_view_of(
                    pid,
                    "process identity changed before launch settlement completed"@,
                ).with(
                    "expected_process_generation"@,
                    evidence::DetailView::Int(expected_generation as int),
                ).with(
                    "current_process_generation"@,
                    evidence::DetailView::Int(
                        match application.process_generation {
                            Some(generation) => generation as int,
                            None => 0,
                        },
                    ),
                ),
            )
        },
    }
}

/// Whether the launched process is still the exact one.
pub fn launched_process_alive(
    pid: i32,
    expected_generation: u64,
    sighting: Option<&RunningApplicationInfo>,
) -> (outcome: Result<(), NativeError>)
    ensures
        match outcome {
            Ok(_) => process_loss(pid, expected_generation, sighting) is None,
            Err(error) => process_loss(pid, expected_generation, sighting) == Some(error@),
        },
{
    match sighting {
        None => Err(
            launch_settle_error("app disappeared before launch settlement completed").with_int(
                "pid",
                pid as i128,
            ),
        ),
        Some(application) => {
            if application.process_generation == Some(expected_generation) {
                return Ok(());
            }
            let current: u64 = match application.process_generation {
                Some(generation) => generation,
                None => 0,
            };
            Err(
                launch_settle_error(
                    "process identity changed before launch settlement completed",
                ).with_int("pid", pid as i128).with_int(
                    "expected_process_generation",
                    expected_generation as i128,
                ).with_int("current_process_generation", current as i128),
            )
        },
    }
}

/// How a launch is carried out.
#[derive(Debug, Clone, Copy, PartialEq, Eq, Structural)]
pub enum LaunchMode {
    /// The running application is used as it is.
    Reuse,
    /// A launch is dispatched.
    Dispatch,
}

impl LaunchMode {
    pub open spec fn profile_text(self) -> Seq<char> {
        match self {
            LaunchMode::Reuse => "macos_launch_reuse"@,
            LaunchMode::Dispatch => "macos_background_launch"@,
        }
    }

    pub fn profile(self) -> (profile: &'static str)
        ensures
            profile@ == self.profile_text(),
    {
        match self {
            LaunchMode::Reuse => "macos_launch_reuse",
            LaunchMode::Dispatch => "macos_background_launch",
        }
    }
}

/// What a launch waits for next.
#[derive(Debug, Clone, Copy, PartialEq, Eq, Structural)]
pub enum LaunchStage {
    /// The native dispatch of the launch, and the process id it returns.
    Dispatch,
    /// The containment is narrowed to the launched process.
    Narrowing { pid: i32 },
    /// The exact generation of the launched process.
    Generation { pid: i32 },
    /// The application registers and finishes launching.
    Registration { pid: i32, generation: u64 },
    /// The windows of the application become stable.
    Windows { pid: i32, generation: u64 },
    /// The attempt is over.
    Done,
}

/// What a launch that waits for its application or for its windows needs next.
#[derive(Debug, Clone, Copy, PartialEq, Eq, Structural)]
pub enum LaunchNeed {
    /// A look: for the application while it registers, at the clock while its
    /// windows become stable.
    Look,
    /// A wake.
    Wake,
    /// The launched process, as it runs now.
    Process,
    /// Its windows.
    Windows { finished_launching: bool },
}

/// When a launch that starts at a time is given up.
pub open spec fn launch_deadline_of(started: u64) -> u64 {
    if started + LAUNCH_DEADLINE_NS > u64::MAX {
        u64::MAX
    } else {
        (started + LAUNCH_DEADLINE_NS) as u64
    }
}

pub fn launch_deadline(started: u64) -> (deadline: u64)
    ensures
        deadline == launch_deadline_of(started),
{
    started.saturating_add(LAUNCH_DEADLINE_NS)
}

/// The successful result of a launch.
#[derive(Debug)]
pub struct NativeLaunch {
    pub app: AppRef,
    pub windows: Vec<WindowRef>,
    pub reused_running_app: bool,
    pub posture: PostureResult,
    pub settlement: LaunchSettlement,
}

/// One launch from its witness to its result.
#[derive(Debug)]
pub struct LaunchRun {
    pub mode: LaunchMode,
    pub action_id: String,
    pub started: u64,
    pub resolved: ResolvedLaunch,
    pub preexisting: Option<RunningApplicationInfo>,
    pub baseline_windows: Vec<WindowRef>,
    pub stage: LaunchStage,
    pub need: LaunchNeed,
    pub app: Option<AppRef>,
    pub reused: bool,
    pub stability: LaunchWindowStability,
    pub stable: Option<StableLaunchWindows>,
    pub failure: Option<NativeError>,
}

impl LaunchRun {
    /// A run is over exactly if it has failed or its windows are stable, and
    /// windows are only ever stable of a known application.
    pub open spec fn wf(&self) -> bool {
        &&& (self.stage is Done) == (self.failure is Some || self.stable is Some)
        &&& !(self.failure is Some && self.stable is Some)
        &&& self.stage is Windows ==> self.app is Some
        &&& self.stable is Some ==> self.app is Some
        &&& self.mode is Reuse ==> self.stage is Windows || self.stage is Done
        &&& match self.stage {
            LaunchStage::Windows { .. } => true,
            LaunchStage::Registration { .. } => self.need is Look || self.need is Wake,
            LaunchStage::Done => true,
            _ => self.need is Look,
        }
    }

    /// Reuses a running application: nothing is dispatched.
    pub fn reuse(
        action_id: &str,
        resolved: ResolvedLaunch,
        application: &RunningApplicationInfo,
        generation: u64,
        started: u64,
        now: u64,
        scope: &mut LaunchPostureScope,
    ) -> (run: LaunchRun)
        ensures
            run.wf(),
            run.mode is Reuse,
            run.action_id@ == action_id@,
            run.started == started,
            run.resolved == resolved,
            run.preexisting matches Some(prior) && prior@ == application@,
            run.stable is None,
            run.failure is None,
            run.stage == (LaunchStage::Windows { pid: application.pid, generation }),
            run.need is Look,
            run.app matches Some(app) && app@ == running_app(application@),
            run.reused,
            run.baseline_windows@.len() == 0,
            run.stability.prior() is None,
            run.stability.since() == now,
            final(scope)@ == (ScopeView {
                partial_app: Some(running_app(application@)),
                partial_windows: Seq::empty(),
                pending_settlement: Some(
                    PendingView {
                        trigger_action_id: action_id@,
                        profile: "macos_launch_reuse"@,
                        elapsed_ms: settlement::millis_between(started, now),
                        observed_signals: Seq::empty(),
                        missing_signals: Seq::empty(),
                    },
                ),
                ..old(scope)@
            }),
    {
        let app: AppRef = app_ref_for_running(application);
        let none: Vec<WindowRef> = Vec::new();
        assert(windows_view(none@) =~= Seq::<WindowView>::empty());
        scope.record_partial_result(&app, &none);
        let pending: PendingLaunch = pending_launch_evidence(
            action_id,
            "macos_launch_reuse",
            started,
            now,
            Vec::new(),
            Vec::new(),
        );
        scope.set_pending(pending);
        LaunchRun {
            mode: LaunchMode::Reuse,
            action_id: action_id.to_owned(),
            started,
            resolved,
            preexisting: Some(application.clone()),
            baseline_windows: Vec::new(),
            stage: LaunchStage::Windows { pid: application.pid, generation },
            need: LaunchNeed::Look,
            app: Some(app),
            reused: true,
            stability: LaunchWindowStability::new(now),
            stable: None,
            failure: None,
        }
    }

    /// Starts a dispatched launch, once its witness is live.
    pub fn dispatch(
        action_id: &str,
        resolved: ResolvedLaunch,
        preexisting: Option<RunningApplicationInfo>,
        baseline_windows: Vec<WindowRef>,
        started: u64,
        now: u64,
        scope: &mut LaunchPostureScope,
    ) -> (run: LaunchRun)
        requires
            old(scope).side_effect_started,
        ensures
            run.wf(),
            run.mode is Dispatch,
            run.action_id@ == action_id@,
            run.started == started,
            run.resolved == resolved,
            run.preexisting == preexisting,
            run.baseline_windows == baseline_windows,
            run.stage is Dispatch,
            run.need is Look,
            run.app is None,
            !run.reused,
            run.stability.prior() is None,
            run.stability.since() == started,
            run.stable is None,
            run.failure is None,
            final(scope)@ == (ScopeView {
                pending_settlement: Some(
                    PendingView {
                        trigger_action_id: action_id@,
                        profile: "macos_background_launch"@,
                        elapsed_ms: settlement::millis_between(started, now),
                        observed_signals: seq![SettlementSignal::DispatchStarted],
                        missing_signals: seq![SettlementSignal::DispatchComplete],
                    },
                ),
                ..old(scope)@
            }),
    {
        let mut observed: Vec<SettlementSignal> = Vec::new();
        observed.push(SettlementSignal::DispatchStarted);
        let mut missing: Vec<SettlementSignal> = Vec::new();
        missing.push(SettlementSignal::DispatchComplete);
        assert(observed@ =~= seq![SettlementSignal::DispatchStarted]);
        assert(missing@ =~= seq![SettlementSignal::DispatchComplete]);
        let pending: PendingLaunch = pending_launch_evidence(
            action_id,
            "macos_background_launch",
            started,
            now,
            observed,
            missing,
        );
        scope.set_pending(pending);
        LaunchRun {
            mode: LaunchMode::Dispatch,
            action_id: action_id.to_owned(),
            started,
            resolved,
            preexisting,
            baseline_windows,
            stage: LaunchStage::Dispatch,
            need: LaunchNeed::Look,
            app: None,
            reused: false,
            stability: LaunchWindowStability::new(started),
            stable: None,
            failure: None,
        }
    }

    /// What a failure of the current stage does to a run.
    pub open spec fn failed_from(&self, before: LaunchRun) -> bool {
        &&& self.stage is Done
        &&& self.stable is None
        &&& *self == LaunchRun { stage: self.stage, failure: self.failure, ..before }
    }

    /// Ends the attempt with a failure of the current stage.
    pub fn fail(&mut self, error: NativeError)
        requires
            old(self).wf(),
            !(old(self).stage is Done),
        ensures
            final(self).wf(),
            final(self).failed_from(*old(self)),
            final(self).failure == Some(error),
    {
        self.failure = Some(error);
        self.stage = LaunchStage::Done;
    }

    /// Records the native dispatch: its process id, or the message of its
    /// failure.
    pub fn dispatched(&mut self, result: Result<i32, String>)
        requires
            old(self).wf(),
            old(self).stage is Dispatch,
        ensures
            final(self).wf(),
            match result {
                Ok(pid) => *final(self) == (LaunchRun {
                    stage: LaunchStage::Narrowing { pid },
                    ..*old(self)
                }),
                Err(message) => final(self).failed_from(*old(self)) && (final(self).failure matches Some(error) && error@ == launch_error_view(message@)),
            },
    {
        match result {
            Ok(pid) => {
                self.stage = LaunchStage::Narrowing { pid };
            },
            Err(message) => {
                let error: NativeError = launch_error(message.as_str());
                self.fail(error);
            },
        }
    }

    /// Records whether the containment was narrowed to the launched process.
    pub fn narrowed(
        &mut self,
        result: Result<(), NativeError>,
        now: u64,
        scope: &mut LaunchPostureScope,
    )
        requires
            old(self).wf(),
            old(self).stage is Narrowing,
        ensures
            final(self).wf(),
            match result {
                Ok(_) => {
                    &&& *final(self) == LaunchRun {
                        stage: LaunchStage::Generation { pid: old(self).stage->Narrowing_pid },
                        ..*old(self)
                    }
                    &&& final(scope)@ == ScopeView {
                        pending_settlement: Some(
                            PendingView {
                                trigger_action_id: old(self).action_id@,
                                profile: "macos_background_launch"@,
                                elapsed_ms: settlement::millis_between(old(self).started, now),
                                observed_signals: seq![
                                    SettlementSignal::DispatchStarted,
                                    SettlementSignal::DispatchComplete,
                                ],
                                missing_signals: Seq::empty(),
                            },
                        ),
                        ..old(scope)@
                    }
                },
                Err(error) => {
                    &&& final(self).failed_from(*old(self))
                    &&& final(self).failure == Some(error)
                    &&& final(scope)@ == old(scope)@
                },
            },
    {
        let pid: i32 = match self.stage {
            LaunchStage::Narrowing { pid } => pid,
            _ => 0,
        };
        match result {
            Ok(()) => {
                let mut observed: Vec<SettlementSignal> = Vec::new();
                observed.push(SettlementSignal::DispatchStarted);
                observed.push(SettlementSignal::DispatchComplete);
                assert(observed@ =~= seq![
                    SettlementSignal::DispatchStarted,
                    SettlementSignal::DispatchComplete,
                ]);
                let pending: PendingLaunch = pending_launch_evidence(
                    self.action_id.as_str(),
                    "macos_background_launch",
                    self.started,
                    now,
                    observed,
                    Vec::new(),
                );
                scope.set_pending(pending);
                self.stage = LaunchStage::Generation { pid };
            },
            Err(error) => self.fail(error),
        }
    }

    /// Records the exact generation of the launched process.
    pub fn generation(&mut self, generation: Option<u64>)
        requires
            old(self).wf(),
            old(self).stage is Generation,
        ensures
            final(self).wf(),
            match generation {
                Some(generation) => *final(self) == (LaunchRun {
                    stage: LaunchStage::Registration {
                        pid: old(self).stage->Generation_pid,
                        generation,
                    },
                    ..*old(self)
                }),
                None => final(self).failed_from(*old(self)) && (final(self).failure matches Some(error) && error@ == launch_error_view(
                    "NSWorkspace returned a pid without an exact live process generation"@,
                ).with("pid"@, evidence::DetailView::Int(old(self).stage->Generation_pid as int))),
            },
    {
        let pid: i32 = match self.stage {
            LaunchStage::Generation { pid } => pid,
            _ => 0,
        };
        match generation {
            Some(generation) => {
                self.stage = LaunchStage::Registration { pid, generation };
            },
            None => {
                let error: NativeError = launch_error(
                    "NSWorkspace returned a pid without an exact live process generation",
                ).with_int("pid", pid as i128);
                self.fail(error);
            },
        }
    }

    /// What the registration of an application does to a run. It counts as
    /// reused only if the very process that ran before is the one that was
    /// returned.
    pub open spec fn registered_from(
        &self,
        before: LaunchRun,
        application: RunningApplicationInfo,
        now: u64,
    ) -> bool {
        &&& self.stage == LaunchStage::Windows {
            pid: before.stage->Registration_pid,
            generation: before.stage->Registration_generation,
        }
        &&& self.need is Look
        &&& self.app is Some
        &&& self.app->0@ == running_app(application@)
        &&& self.reused == match before.preexisting {
            Some(prior) => prior.pid == application.pid && prior.process_generation is Some
                && prior.process_generation == application.process_generation,
            None => false,
        }
        &&& self.stability.prior() is None
        &&& self.stability.since() == now
        &&& *self == LaunchRun {
            stage: self.stage,
            need: self.need,
            app: self.app,
            reused: self.reused,
            stability: self.stability,
            ..before
        }
    }

    /// Records the registered application.
    pub fn registered_as(
        &mut self,
        application: &RunningApplicationInfo,
        now: u64,
        scope: &mut LaunchPostureScope,
    )
        requires
            old(self).wf(),
            old(self).stage is Registration,
        ensures
            final(self).wf(),
            final(self).registered_from(*old(self), *application, now),
            final(scope)@ == (ScopeView {
                partial_app: Some(running_app(application@)),
                partial_windows: Seq::empty(),
                ..old(scope)@
            }),
    {
        let app: AppRef = app_ref_for_running(application);
        let none: Vec<WindowRef> = Vec::new();
        assert(windows_view(none@) =~= Seq::<WindowView>::empty());
        scope.record_partial_result(&app, &none);
        self.reused = match &self.preexisting {
            Some(prior) => same_process_identity(prior, application),
            None => false,
        };
        self.app = Some(app);
        self.stability = LaunchWindowStability::new(now);
        self.stage = match self.stage {
            LaunchStage::Registration { pid, generation } => LaunchStage::Windows {
                pid,
                generation,
            },
            other => other,
        };
        self.need = LaunchNeed::Look;
    }

    /// Takes one look for the launched application: it registers, or the run
    /// fails, or a wake is awaited.
    pub fn sighted(
        &mut self,
        sighting: Option<&RunningApplicationInfo>,
        now: u64,
        scope: &mut LaunchPostureScope,
    )
        requires
            old(self).wf(),
            old(self).stage is Registration,
            old(self).need is Look,
        ensures
            final(self).wf(),
            ({
                let pid = old(self).stage->Registration_pid;
                let generation = old(self).stage->Registration_generation;
                let refusal = match sighting {
                    Some(application) => registration_refusal(
                        pid,
                        generation,
                        old(self).resolved@,
                        application@,
                    ),
                    None => None,
                };
                if refusal is None && sighting is Some && registered(
                    generation,
                    old(self).resolved@,
                    sighting->0@,
                ) {
                    &&& final(self).registered_from(*old(self), *sighting->0, now)
                    &&& final(scope)@ == ScopeView {
                        partial_app: Some(running_app(sighting->0@)),
                        partial_windows: Seq::empty(),
                        ..old(scope)@
                    }
                } else {
                    &&& final(scope)@ == old(scope)@
                    &&& if refusal is None && now < launch_deadline_of(old(self).started) {
                        *final(self) == LaunchRun { need: LaunchNeed::Wake, ..*old(self) }
                    } else {
                        &&& final(self).failed_from(*old(self))
                        &&& final(self).failure is Some
                        &&& final(self).failure->0@ == match refusal {
                            Some(refusal) => refusal,
                            None => settle_view_of(
                                pid,
                                "launched app did not register and finish launching before its deadline"@,
                            ),
                        }
                    }
                }
            }),
    {
        let (pid, generation): (i32, u64) = match self.stage {
            LaunchStage::Registration { pid, generation } => (pid, generation),
            _ => (0, 0),
        };
        let step: RegistrationStep = wait_for_registered_application(
            pid,
            generation,
            &self.resolved,
            sighting,
            now,
            launch_deadline(self.started),
        );
        match (step, sighting) {
            (RegistrationStep::Registered, Some(application)) => self.registered_as(
                application,
                now,
                scope,
            ),
            (RegistrationStep::Failed(error), _) => self.fail(error),
            _ => {
                self.need = LaunchNeed::Wake;
            },
        }
    }

    /// Takes a wake: one that does not end the wait leads to another look for
    /// the application, or to the process whose windows become stable.
    pub fn woken(&mut self, wake: &LaunchWake)
        requires
            old(self).wf(),
            old(self).stage is Registration || old(self).stage is Windows,
            old(self).need is Wake,
        ensures
            final(self).wf(),
            ({
                let refusal = match old(self).stage {
                    LaunchStage::Registration { pid, .. } => wake_refusal(
                        pid,
                        LaunchWaitKind::Registration,
                        *wake,
                    ),
                    LaunchStage::Windows { pid, .. } => wake_refusal(
                        pid,
                        LaunchWaitKind::StableWindows,
                        *wake,
                    ),
                    _ => None,
                };
                match refusal {
                    Some(refusal) => final(self).failed_from(*old(self)) && (final(self).failure matches Some(error) && error@ == refusal),
                    None => *final(self) == (LaunchRun {
                        need: if old(self).stage is Registration {
                            LaunchNeed::Look
                        } else {
                            LaunchNeed::Process
                        },
                        ..*old(self)
                    }),
                }
            }),
    {
        let (pid, waiting): (i32, LaunchWaitKind) = match self.stage {
            LaunchStage::Registration { pid, .. } => (pid, LaunchWaitKind::Registration),
            LaunchStage::Windows { pid, .. } => (pid, LaunchWaitKind::StableWindows),
            _ => (0, LaunchWaitKind::Registration),
        };
        match launch_wake_failure(pid, waiting, wake) {
            Some(error) => self.fail(error),
            None => {
                self.need = match waiting {
                    LaunchWaitKind::Registration => LaunchNeed::Look,
                    LaunchWaitKind::StableWindows => LaunchNeed::Process,
                };
            },
        }
    }

    /// Looks at the clock before a wait for stable windows.
    pub fn clock(&mut self, now: u64)
        requires
            old(self).wf(),
            old(self).stage is Windows,
            old(self).need is Look,
        ensures
            final(self).wf(),
            if now < launch_deadline_of(old(self).started) {
                *final(self) == (LaunchRun { need: LaunchNeed::Wake, ..*old(self) })
            } else {
                final(self).failed_from(*old(self)) && (final(self).failure matches Some(error)
                    && error@ == settle_view_of(
                    old(self).stage->Windows_pid,
                    "app launch did not reach a stable window set before its deadline"@,
                ))
            },
    {
        let pid: i32 = match self.stage {
            LaunchStage::Windows { pid, .. } => pid,
            _ => 0,
        };
        match stable_windows_deadline(pid, now, launch_deadline(self.started)) {
            Err(error) => self.fail(error),
            Ok(_) => {
                self.need = LaunchNeed::Wake;
            },
        }
    }

    /// Takes the launched process as it runs now: its windows are read only
    /// where it is still the exact one.
    pub fn process(&mut self, sighting: Option<&RunningApplicationInfo>)
        requires
            old(self).wf(),
            old(self).stage is Windows,
            old(self).need is Process,
        ensures
            final(self).wf(),
            match process_loss(
                old(self).stage->Windows_pid,
                old(self).stage->Windows_generation,
                sighting,
            ) {
                Some(loss) => final(self).failed_from(*old(self)) && (final(self).failure matches Some(error) && error@ == loss),
                None => *final(self) == (LaunchRun {
                    need: LaunchNeed::Windows {
                        finished_launching: sighting->0.finished_launching,
                    },
                    ..*old(self)
                }),
            },
    {
        let (pid, generation): (i32, u64) = match self.stage {
            LaunchStage::Windows { pid, generation } => (pid, generation),
            _ => (0, 0),
        };
        match (launched_process_alive(pid, generation, sighting), sighting) {
            (Ok(_), Some(application)) => {
                self.need = LaunchNeed::Windows {
                    finished_launching: application.finished_launching,
                };
            },
            (Err(error), _) => self.fail(error),
            (Ok(_), None) => {},
        }
    }

    /// Takes the windows of the launched process, where they could be read.
    pub fn listed(
        &mut self,
        windows: Result<Vec<WindowRef>, NativeError>,
        now: u64,
        scope: &mut LaunchPostureScope,
    )
        requires
            old(self).wf(),
            old(self).stage is Windows,
            old(self).need is Windows,
        ensures
            final(self).wf(),
            match windows {
                Err(error) => {
                    &&& final(self).failed_from(*old(self))
                    &&& final(self).failure == Some(error)
                    &&& final(scope)@ == old(scope)@
                },
                Ok(windows) => {
                    &&& final(self).observed_from(
                        *old(self),
                        windows@,
                        old(self).need->finished_launching,
                        now,
                    )
                    &&& final(scope)@ == old(self).observing(old(scope)@, windows@, now)
                },
            },
    {
        let finished_launching: bool = match self.need {
            LaunchNeed::Windows { finished_launching } => finished_launching,
            _ => false,
        };
        match windows {
            Err(error) => self.fail(error),
            Ok(windows) => self.observe_windows(windows, finished_launching, now, scope),
        }
    }

    /// Records the windows that a reused application had at first.
    pub fn baseline(&mut self, windows: Vec<WindowRef>, scope: &mut LaunchPostureScope)
        requires
            old(self).wf(),
            old(self).stage is Windows,
        ensures
            final(self).wf(),
            *final(self) == (LaunchRun { baseline_windows: windows, ..*old(self) }),
            final(scope)@ == (ScopeView {
                partial_app: Some(old(self).app->0@),
                partial_windows: windows_view(windows@),
                ..old(scope)@
            }),
    {
        if let Some(app) = &self.app {
            scope.record_partial_result(app, &windows);
        }
        self.baseline_windows = windows;
    }

    /// What a look at the windows does to a run: the attempt is over once they
    /// are stable.
    pub open spec fn observed_from(
        &self,
        before: LaunchRun,
        windows: Seq<WindowRef>,
        finished_launching: bool,
        now: u64,
    ) -> bool {
        &&& *self == LaunchRun {
            stage: self.stage,
            need: self.need,
            stability: self.stability,
            stable: self.stable,
            ..before
        }
        &&& self.need is Look
        &&& !(self.stage is Done) ==> self.stage == before.stage
        &&& self.stable is Some <==> self.stage is Done
        &&& self.stability.prior() == Some(ids_of(windows))
        &&& self.stability.since() == if before.stability.prior() == Some(ids_of(windows)) {
            before.stability.since()
        } else {
            now
        }
        &&& self.stage is Done <==> finished_launching && now - self.stability.since()
            >= WINDOW_QUIET_WINDOW_NS
        &&& self.stable matches Some(stable) ==> {
            &&& windows_view(stable.windows@) == windows_view(windows)
            &&& stable.windows_empty == (windows.len() == 0)
            &&& stable.window_list_changed == (ids_of(before.baseline_windows@).to_multiset()
                != ids_of(windows).to_multiset())
        }
    }

    /// What the scope knows after a look at the windows.
    pub open spec fn observing(&self, scope: ScopeView, windows: Seq<WindowRef>, now: u64) -> ScopeView {
        ScopeView {
            partial_app: Some(self.app->0@),
            partial_windows: windows_view(windows),
            pending_settlement: Some(
                PendingView {
                    trigger_action_id: self.action_id@,
                    profile: self.mode.profile_text(),
                    elapsed_ms: settlement::millis_between(self.started, now),
                    observed_signals: if self.mode is Dispatch {
                        seq![SettlementSignal::DispatchComplete]
                    } else {
                        Seq::empty()
                    },
                    missing_signals: Seq::empty(),
                },
            ),
            ..scope
        }
    }

    /// Takes one look at the windows of the launched application, whose exact
    /// process is still alive.
    pub fn observe_windows(
        &mut self,
        windows: Vec<WindowRef>,
        finished_launching: bool,
        now: u64,
        scope: &mut LaunchPostureScope,
    )
        requires
            old(self).wf(),
            old(self).stage is Windows,
        ensures
            final(self).wf(),
            final(self).observed_from(*old(self), windows@, finished_launching, now),
            final(scope)@ == old(self).observing(old(scope)@, windows@, now),
    {
        if let Some(app) = &self.app {
            scope.record_partial_result(app, &windows);
        }
        let mut observed: Vec<SettlementSignal> = Vec::new();
        if self.mode == LaunchMode::Dispatch {
            observed.push(SettlementSignal::DispatchComplete);
            assert(observed@ =~= seq![SettlementSignal::DispatchComplete]);
        }
        let pending: PendingLaunch = pending_launch_evidence(
            self.action_id.as_str(),
            self.mode.profile(),
            self.started,
            now,
            observed,
            Vec::new(),
        );
        scope.set_pending(pending);
        self.need = LaunchNeed::Look;
        if self.stability.observe(&windows, now, finished_launching) {
            let window_list_changed: bool = !same_window_set(&self.baseline_windows, &windows);
            let windows_empty: bool = windows.len() == 0;
            self.stable = Some(StableLaunchWindows { windows, window_list_changed, windows_empty });
            self.stage = LaunchStage::Done;
        }
    }

    /// Ends the run with the posture that was witnessed. A launch succeeds only
    /// if its attempt did and its posture was held; otherwise every failure is
    /// reported, that of the attempt first.
    pub fn finish(
        self,
        posture: PostureResult,
        native_evidence: Fields,
        now: u64,
        scope: &mut LaunchPostureScope,
    ) -> (outcome: Result<NativeLaunch, Vec<NativeError>>)
        requires
            self.wf(),
            self.stage is Done,
        ensures
            final(scope)@ == (ScopeView {
                posture: Some(posture),
                native_evidence: native_evidence@,
                pending_settlement: if self.failure is None {
                    None
                } else {
                    old(scope)@.pending_settlement
                },
                ..old(scope)@
            }),
            outcome is Ok <==> self.failure is None && posture.held,
            match outcome {
                Ok(launch) => {
                    &&& launch.app@ == self.app->0@
                    &&& windows_view(launch.windows@) == windows_view(self.stable->0.windows@)
                    &&& launch.reused_running_app == self.reused
                    &&& launch.posture == posture
                    &&& launch.settlement.profile@ == self.mode.profile_text()
                    &&& launch.settlement.elapsed_ms == settlement::millis_between(
                        self.started,
                        now,
                    )
                    &&& launch.settlement.observed_signals@ == launch_signals(
                        self.mode is Dispatch,
                        self.stable->0.window_list_changed,
                    )
                    &&& launch.settlement.terminal_signal@ == if self.stable->0.windows_empty {
                        "application_finished_without_windows"@
                    } else {
                        "stable_window_set"@
                    }
                    &&& launch.settlement.quiet_window_ms == WINDOW_QUIET_WINDOW_MS
                },
                Err(failures) => {
                    let own = match self.failure {
                        Some(error) => seq![error@],
                        None => Seq::empty(),
                    };
                    let witnessed = match posture_failure_view(
                        posture,
                        old(scope)@.partial_app,
                        old(scope)@.partial_windows,
                    ) {
                        Some(error) => seq![error],
                        None => Seq::empty(),
                    };
                    failures@.map_values(|error: NativeError| error@) == own + witnessed
                },
            },
    {
        scope.posture = Some(posture);
        scope.native_evidence = native_evidence;
        if self.failure.is_none() {
            scope.pending_settlement = None;
        }
        let witnessed: Option<NativeError> = posture_failure(
            posture,
            &scope.partial_app,
            &scope.partial_windows,
        );
        let mut failures: Vec<NativeError> = Vec::new();
        let ghost own = if self.failure is Some {
            seq![self.failure->0@]
        } else {
            Seq::<errors::ErrorView>::empty()
        };
        match self.failure {
            Some(error) => failures.push(error),
            None => {},
        }
        assert(failures@.map_values(|error: NativeError| error@) =~= own);
        match witnessed {
            Some(error) => {
                let ghost before = failures@;
                failures.push(error);
                assert(failures@.map_values(|error: NativeError| error@) =~= own + seq![error@]);
                Err(failures)
            },
            None => match (self.stable, self.app) {
                (Some(stable), Some(app)) => Ok(
                    NativeLaunch {
                        app,
                        windows: stable.windows,
                        reused_running_app: self.reused,
                        posture,
                        settlement: launch_settlement(
                            self.mode.profile(),
                            self.started,
                            now,
                            self.mode == LaunchMode::Dispatch,
                            stable.window_list_changed,
                            stable.windows_empty,
                        ),
                    },
                ),
                _ => {
                    assert(failures@.map_values(|error: NativeError| error@) =~= own + Seq::<
                        errors::ErrorView,
                    >::empty());
                    Err(failures)
                },
            },
        }
    }
}

/// Accessibility permission is needed before anything is launched.
pub fn launch_permission(accessibility_granted: bool) -> (outcome: Result<(), NativeError>)
    ensures
        outcome is Ok <==> accessibility_granted,
        outcome matches Err(error) ==> error@ == errors::ErrorView::new(
            ErrorCode::PermissionDenied,
            ErrorPhase::Preflight,
            true,
            "Accessibility permission is required for exact background window identity"@,
        ),
{
    if accessibility_granted {
        Ok(())
    } else {
        Err(
            NativeError::new(
                ErrorCode::PermissionDenied,
                ErrorPhase::Preflight,
                true,
                "Accessibility permission is required for exact background window identity",
            ),
        )
    }
}

#[derive(Debug, Clone, Copy, PartialEq, Eq, Structural)]
pub enum PermissionState {
    Granted,
    Denied,
}

/// Whether the driver can work on this system, and what it lacks.
#[derive(Debug)]
pub struct Readiness {
    pub ready: bool,
    pub accessibility: PermissionState,
    pub screen_recording: PermissionState,
    pub diagnostics: Fields,
}

/// What the system grants and offers.
#[derive(Debug)]
pub struct SystemFacts {
    pub accessibility: bool,
    pub screen_preflight: bool,
    pub screen_live: bool,
    pub targeted_events: bool,
    pub slps_make_key: bool,
    pub space_query: bool,
    pub os_version: String,
}

pub open spec fn permission_of(granted: bool) -> PermissionState {
    if granted {
        PermissionState::Granted
    } else {
        PermissionState::Denied
    }
}

pub fn readiness_snapshot(facts: &SystemFacts) -> (readiness: Readiness)
    ensures
        readiness.ready == (facts.accessibility && facts.screen_live && facts.targeted_events
            && facts.slps_make_key && facts.space_query),
        readiness.accessibility == permission_of(facts.accessibility),
        readiness.screen_recording == permission_of(facts.screen_live),
        readiness.diagnostics@ == Map::<Seq<char>, evidence::DetailView>::empty().insert(
            "screen_recording_preflight"@,
            evidence::DetailView::Bool(facts.screen_preflight),
        ).insert(
            "screen_recording_live_capture"@,
            evidence::DetailView::Bool(facts.screen_live),
        ).insert(
            "targeted_event_symbols"@,
            evidence::DetailView::Bool(facts.targeted_events),
        ).insert(
            "slps_make_key_symbols"@,
            evidence::DetailView::Bool(facts.slps_make_key),
        ).insert("space_query_symbols"@, evidence::DetailView::Bool(facts.space_query)).insert(
            "os_version"@,
            evidence::DetailView::Text(facts.os_version@),
        ),
{
    let mut diagnostics: Fields = Fields::new();
    diagnostics.insert("screen_recording_preflight", Detail::Bool(facts.screen_preflight));
    diagnostics.insert("screen_recording_live_capture", Detail::Bool(facts.screen_live));
    diagnostics.insert("targeted_event_symbols", Detail::Bool(facts.targeted_events));
    diagnostics.insert("slps_make_key_symbols", Detail::Bool(facts.slps_make_key));
    diagnostics.insert("space_query_symbols", Detail::Bool(facts.space_query));
    diagnostics.insert("os_version", Detail::text(facts.os_version.as_str()));
    Readiness {
        ready: facts.accessibility && facts.screen_live && facts.targeted_events
            && facts.slps_make_key && facts.space_query,
        accessibility: if facts.accessibility {
            PermissionState::Granted
        } else {
            PermissionState::Denied
        },
        screen_recording: if facts.screen_live {
            PermissionState::Granted
        } else {
            PermissionState::Denied
        },
        diagnostics,
    }
}

/// The version of the protocol as text.
pub fn protocol_version(major: u32, minor: u32) -> (version: String)
    ensures
        version@ == text::decimal(major as nat) + seq!['.'] + text::decimal(minor as nat),
{
    let mut version: String = String::new();
    push_decimal(&mut version, major as u64);
    version.push('.');
    push_decimal(&mut version, minor as u64);
    assert(version@ =~= text::decimal(major as nat) + seq!['.'] + text::decimal(minor as nat));
    version
}

/// What the driver offers on this system.
#[derive(Debug)]
pub struct CapabilityManifest {
    pub platform: PlatformName,
    pub driver_version: String,
    pub protocol_version: String,
    pub accessibility: bool,
    pub screen_recording: bool,
    pub cells: Vec<CapabilityCell>,
}

/// The manifest of a driver that has proved no cell yet: its versions, and each
/// permission as granted or not.
pub fn capability_manifest(
    readiness: &Readiness,
    driver_version: &str,
    protocol_major: u32,
    protocol_minor: u32,
) -> (manifest: CapabilityManifest)
    ensures
        manifest.platform is Macos,
        manifest.driver_version@ == driver_version@,
        manifest.protocol_version@ == text::decimal(protocol_major as nat) + seq!['.']
            + text::decimal(protocol_minor as nat),
        manifest.accessibility == (readiness.accessibility is Granted),
        manifest.screen_recording == (readiness.screen_recording is Granted),
        manifest.cells@.len() == 0,
{
    CapabilityManifest {
        platform: PlatformName::Macos,
        driver_version: driver_version.to_owned(),
        protocol_version: protocol_version(protocol_major, protocol_minor),
        accessibility: match readiness.accessibility {
            PermissionState::Granted => true,
            PermissionState::Denied => false,
        },
        screen_recording: match readiness.screen_recording {
            PermissionState::Granted => true,
            PermissionState::Denied => false,
        },
        cells: Vec::new(),
    }
}

/// A launch never reports success over a posture that was not held.
pub proof fn a_launch_needs_its_posture(
    posture: PostureResult,
    app: Option<AppView>,
    windows: Seq<WindowView>,
)
    ensures
        posture_failure_view(posture, app, windows) is None <==> posture.held,
{
}

} // verus!
