//! Numbers, paths, names and records in words.
use vstd::prelude::*;

use crate::contracts;
use crate::contracts::{Framework, ResolvedWindowStamp, Route, WindowStateKind};
use crate::driver::target;
use crate::errors::{ErrorCode, ErrorPhase, NativeError};
use crate::evidence::{Detail, Fields};
use crate::paths;
use crate::text;

verus! {

/// The number that a text of decimal digits stands for.
pub open spec fn read_decimal(digits: Seq<char>) -> int
    decreases digits.len(),
{
    if digits.len() == 0 {
        0
    } else {
        10 * read_decimal(digits.drop_last()) + (digits.last() as int - '0' as int)
    }
}

/// A number reads back from its decimal form, which has digits only and no leading
/// zero.
pub proof fn a_decimal_reads_back(value: nat)
    ensures
        read_decimal(text::decimal(value)) == value,
        text::decimal(value).len() > 0,
        forall|i: int|
            0 <= i < text::decimal(value).len() ==> '0' <= #[trigger] text::decimal(value)[i]
                <= '9',
        value > 0 ==> text::decimal(value)[0] != '0',
        value < 10 ==> text::decimal(value).len() == 1,
    decreases value,
{
    if value >= 10 {
        a_decimal_reads_back(value / 10);
        let shorter = text::decimal(value / 10);
        let whole = text::decimal(value);
        assert(whole == shorter.push(text::digit(value % 10)));
        assert(whole.drop_last() =~= shorter);
        assert(whole[0] == shorter[0]);
    } else {
        let whole = text::decimal(value);
        assert(whole.drop_last() =~= Seq::<char>::empty());
        assert(read_decimal(whole.drop_last()) == 0);
    }
}

/// A negative number has a sign before the form of the positive one.
pub proof fn a_negative_number_has_a_sign(value: int)
    ensures
        value >= 0 ==> text::signed_decimal(value) == text::decimal(value as nat),
        value < 0 ==> text::signed_decimal(value) == "-"@ + text::decimal((-value) as nat),
{
    reveal_strlit("-");
    assert("-"@ =~= seq!['-']);
}

/// A hexadecimal form has its width, and ends with the digit of what is left over.
pub proof fn a_hexadecimal_has_its_width(value: nat, width: nat)
    ensures
        text::hex(value, width).len() == width,
        width > 0 && value % 16 < 10 ==> text::hex(value, width).last() as int == '0' as int
            + value % 16,
        width > 0 && value % 16 >= 10 ==> text::hex(value, width).last() as int == 'a' as int
            + value % 16 - 10,
        width > 0 ==> text::hex(value, width).drop_last() == text::hex(
            value / 16,
            (width - 1) as nat,
        ),
    decreases width,
{
    if width > 0 {
        a_hexadecimal_has_its_width(value / 16, (width - 1) as nat);
        assert(text::hex(value, width).drop_last() =~= text::hex(value / 16, (width - 1) as nat));
    }
}

/// A process goes by its number and its generation.
pub proof fn a_process_handle_names_both(pid: i32, generation: u64, handle: String)
    requires
        call_ensures(target::process_handle, (pid, generation), handle),
    ensures
        handle@ == "macos:"@ + text::signed_decimal(pid as int) + ":"@ + text::hex(
            generation as nat,
            16,
        ),
{
    reveal_strlit(":");
    assert(":"@ =~= seq![':']);
}

/// Texts are the same where their characters are, and case is looked past only
/// where that is asked for.
pub proof fn texts_are_the_same_where_their_characters_are(
    left: &str,
    right: &str,
    same: bool,
    folded: bool,
)
    requires
        call_ensures(text::same_text, (left, right), same),
        call_ensures(text::same_ignoring_ascii_case, (left, right), folded),
    ensures
        same <==> left@ == right@,
        same ==> folded,
        folded ==> left@.len() == right@.len(),
{
    if folded {
        assert(text::ascii_lower_all(left@).len() == left@.len());
        assert(text::ascii_lower_all(right@).len() == right@.len());
    }
}

/// Folding changes capital letters of the alphabet to small ones and nothing else.
pub proof fn folding_changes_capital_letters(character: char)
    ensures
        'A' <= character <= 'Z' ==> text::ascii_lower(character) as int == character as int + 32,
        !('A' <= character <= 'Z') ==> text::ascii_lower(character) == character,
        text::ascii_lower(text::ascii_lower(character)) == text::ascii_lower(character),
{
}

/// A text is blank where it holds nothing but white space.
pub proof fn a_text_is_blank_without_letters(source: &str, blank: bool, i: int)
    requires
        call_ensures(text::is_blank, (source,), blank),
    ensures
        source@.len() == 0 ==> blank,
        0 <= i < source@.len() && blank ==> text::white_space(source@[i]),
        0 <= i < source@.len() && !text::white_space(source@[i]) ==> !blank,
        text::white_space(' '),
        text::white_space('\t'),
        text::white_space('\n'),
        !text::white_space('a'),
{
}

/// A text holds another where it stands somewhere in it.
pub proof fn a_text_holds_what_stands_in_it(
    whole: &str,
    part: &str,
    found: bool,
    front: Seq<char>,
    back: Seq<char>,
)
    requires
        call_ensures(text::contains_text, (whole, part), found),
    ensures
        whole@ == front + part@ + back ==> found,
        part@.len() > whole@.len() ==> !found,
{
    if whole@ == front + part@ + back {
        assert(whole@.subrange(front.len() as int, (front.len() + part@.len()) as int) =~= part@);
        assert(text::occurs_at(whole@, part@, front.len() as int));
    }
}

/// Joined texts stand one after the other, with the separator between them.
pub proof fn joined_texts_stand_in_order(list: Seq<Seq<char>>, separator: Seq<char>, last: Seq<char>)
    ensures
        text::joined(Seq::<Seq<char>>::empty(), separator).len() == 0,
        text::joined(seq![last], separator) == last,
        list.len() > 0 ==> text::joined(list.push(last), separator) == text::joined(
            list,
            separator,
        ) + separator + last,
{
    assert(list.push(last).drop_last() =~= list);
}

/// A window is the same at another geometry, but not with anything else changed.
pub proof fn a_window_stays_itself_at_another_geometry(
    left: &ResolvedWindowStamp,
    right: &ResolvedWindowStamp,
    stable: bool,
    same: bool,
)
    requires
        call_ensures(contracts::same_stable_identity, (left, right), stable),
        call_ensures(ResolvedWindowStamp::same, (left, right), same),
    ensures
        stable <==> left.app_id@ == right.app_id@ && left.window_id@ == right.window_id@
            && left.generation == right.generation && left.native_window@ == right.native_window@
            && left.process@ == right.process@,
        same <==> stable && left.geometry_revision@ == right.geometry_revision@,
{
    assert(stable ==> left@.app_id == right@.app_id);
}

/// Frameworks go by their own names.
pub proof fn frameworks_have_their_names(framework: Framework, name: &'static str)
    requires
        call_ensures(Framework::name, (framework,), name),
    ensures
        name@ == match framework {
            Framework::Unknown => "Unknown"@,
            Framework::AppKit => "AppKit"@,
            Framework::Chromium => "Chromium"@,
            Framework::Electron => "Electron"@,
            Framework::WebKit => "WebKit"@,
            Framework::Catalyst => "Catalyst"@,
        },
{
}

/// Routes and window states go by their own names.
pub proof fn routes_and_states_have_their_names(
    route: Route,
    route_name: &'static str,
    state: WindowStateKind,
    state_name: &'static str,
)
    requires
        call_ensures(Route::name, (route,), route_name),
        call_ensures(WindowStateKind::name, (state,), state_name),
    ensures
        route_name@ == match route {
            Route::Semantic => "Semantic"@,
            Route::TargetedPointer => "TargetedPointer"@,
            Route::TargetedKeyboard => "TargetedKeyboard"@,
        },
        state_name@ == match state {
            WindowStateKind::Visible => "Visible"@,
            WindowStateKind::Occluded => "Occluded"@,
            WindowStateKind::Minimized => "Minimized"@,
            WindowStateKind::OffSpace => "OffSpace"@,
            WindowStateKind::Unknown => "Unknown"@,
        },
{
}

/// An error says what it was made with, and carries what it was given.
pub proof fn an_error_says_what_it_was_made_with(
    code: ErrorCode,
    phase: ErrorPhase,
    retryable: bool,
    message: &str,
    made: NativeError,
    stale: NativeError,
    unsupported: NativeError,
    invalid: NativeError,
)
    requires
        call_ensures(NativeError::new, (code, phase, retryable, message), made),
        call_ensures(NativeError::stale, (code, message), stale),
        call_ensures(NativeError::unsupported, (message,), unsupported),
        call_ensures(NativeError::invalid, (message,), invalid),
    ensures
        made.code == code && made.phase == phase && made.retryable == retryable && made.message@
            == message@,
        stale.code == code && stale.retryable && stale.phase == ErrorPhase::Preflight
            && stale.message@ == message@,
        unsupported.code == ErrorCode::UnsupportedInBackground && !unsupported.retryable
            && unsupported.phase == ErrorPhase::Preflight && unsupported.message@ == message@,
        invalid.code == ErrorCode::InvalidRequest && !invalid.retryable && invalid.phase
            == ErrorPhase::Validate && invalid.message@ == message@,
        forall|name: Seq<char>| !(#[trigger] made@.details.contains_key(name)),
{
    assert(made@.code == code);
    assert(stale@.code == code);
    assert(unsupported@.code == ErrorCode::UnsupportedInBackground);
    assert(invalid@.code == ErrorCode::InvalidRequest);
}

/// A detail is carried under its name; all else of an error stays.
pub proof fn a_detail_is_carried_under_its_name(
    error: NativeError,
    name: &str,
    value: Detail,
    carried: NativeError,
    other: Seq<char>,
)
    requires
        call_ensures(NativeError::with_detail, (error, name, value), carried),
    ensures
        carried.code == error.code && carried.phase == error.phase && carried.retryable
            == error.retryable && carried.message@ == error.message@,
        carried@.details[name@] == value@,
        other != name@ && error@.details.contains_key(other) ==> carried@.details.contains_key(
            other,
        ) && carried@.details[other] == error@.details[other],
{
    assert(carried@.code == error@.code);
}

/// Fields hold what was put last under a name, and another record's fields come
/// before one's own.
pub proof fn fields_hold_what_was_put_last(
    fields: &mut Fields,
    name: &str,
    value: Detail,
    extended: &mut Fields,
    other: &Fields,
    key: Seq<char>,
)
    requires
        call_ensures(Fields::insert, (fields, name, value), ()),
        call_ensures(Fields::extend, (extended, other), ()),
    ensures
        final(fields)@[name@] == value@,
        key != name@ && old(fields)@.contains_key(key) ==> final(fields)@[key] == old(fields)@[key],
        other@.contains_key(key) ==> final(extended)@.contains_key(key) && final(extended)@[key]
            == other@[key],
        !other@.contains_key(key) && old(extended)@.contains_key(key)
            ==> final(extended)@.contains_key(key) && final(extended)@[key] == old(extended)@[key],
{
}

/// Bundles are named by their ending.
pub proof fn bundles_end_in_app(stem: Seq<char>)
    ensures
        stem.len() > 0 <==> paths::names_bundle(stem + ".app"@),
{
    reveal_strlit(".app");
    let name = stem + ".app"@;
    assert(".app"@.len() == 4);
    assert(name.len() == stem.len() + 4);
    if stem.len() > 0 {
        assert(name[name.len() - 4] == '.');
        assert(name[name.len() - 3] == 'a');
        assert(name[name.len() - 2] == 'p');
        assert(name[name.len() - 1] == 'p');
    }
}

/// Paths are the same where they start alike and have the same parts.
pub proof fn paths_are_the_same_part_by_part(left: &str, right: &str, same: bool)
    requires
        call_ensures(paths::same_path, (left, right), same),
    ensures
        left@ == right@ ==> same,
        same ==> paths::components(left@) == paths::components(right@),
        same ==> (left@.len() > 0 && left@[0] == '/' <==> right@.len() > 0 && right@[0] == '/'),
{
}

} // verus!
