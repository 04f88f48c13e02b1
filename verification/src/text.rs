//! Text building blocks: exact decimal and hexadecimal rendering, UTF-16
//! offsets, and comparisons of strings by their characters.
use vstd::prelude::*;

verus! {

/// `String::push`: the character is appended and nothing else changes.
pub assume_specification[ String::push ](subject: &mut String, appended: char)
    ensures
        final(subject)@ == old(subject)@.push(appended),
;

/// `String::push_str`: the slice is appended and nothing else changes.
pub assume_specification[ String::push_str ](subject: &mut String, appended: &str)
    ensures
        final(subject)@ == old(subject)@ + appended@,
;

/// Whether two slices hold the same characters in the same order.
pub fn same_text(left: &str, right: &str) -> (same: bool)
    ensures
        same == (left@ == right@),
{
    let mut rest = right.chars();
    for character in iter: left.chars()
        invariant
            iter.seq() == left@,
            vstd::std_specs::iter::IteratorSpec::obeys_prophetic_iter_laws(&rest),
            iter.index() <= right@.len(),
            vstd::std_specs::iter::IteratorSpec::remaining(&rest) == right@.skip(
                iter.index() as int,
            ),
            left@.take(iter.index() as int) == right@.take(iter.index() as int),
    {
        let ghost at = iter.index() as int;
        match rest.next() {
            Some(other) => {
                if other != character {
                    assert(left@[at] != right@[at]);
                    return false;
                }
                assert(right@.skip(at).drop_first() =~= right@.skip(at + 1));
                assert(left@.take(at + 1) =~= left@.take(at).push(character));
                assert(right@.take(at + 1) =~= right@.take(at).push(character));
            },
            None => {
                assert(right@.skip(at).len() == 0);
                return false;
            },
        }
    }
    assert(left@.take(left@.len() as int) =~= left@);
    match rest.next() {
        Some(_) => false,
        None => {
            assert(right@.take(left@.len() as int) =~= right@);
            true
        },
    }
}

/// Whether both are absent, or both are present with the same characters.
pub fn same_optional_text(left: &Option<String>, right: &Option<String>) -> (same: bool)
    ensures
        same == (optional_text(*left) == optional_text(*right)),
{
    match (left, right) {
        (Some(left), Some(right)) => same_text(left.as_str(), right.as_str()),
        (None, None) => true,
        _ => false,
    }
}

/// The characters of an optional string.
pub open spec fn optional_text(text: Option<String>) -> Option<Seq<char>> {
    match text {
        Some(text) => Some(text@),
        None => None,
    }
}

/// The characters of every string of a list, in order.
pub open spec fn texts(list: Seq<String>) -> Seq<Seq<char>> {
    list.map_values(|text: String| text@)
}

/// An owned copy of an optional string.
pub fn clone_optional_text(text: &Option<String>) -> (copy: Option<String>)
    ensures
        optional_text(copy) == optional_text(*text),
{
    match text {
        Some(text) => Some(text.clone()),
        None => None,
    }
}

/// An owned copy of a list of strings.
pub fn clone_texts(list: &Vec<String>) -> (copy: Vec<String>)
    ensures
        texts(copy@) == texts(list@),
{
    let mut copy: Vec<String> = Vec::new();
    let mut index: usize = 0;
    while index < list.len()
        invariant
            index <= list.len(),
            copy.len() == index,
            forall|i: int| 0 <= i < index ==> (#[trigger] copy[i])@ == list[i]@,
        decreases list.len() - index,
    {
        copy.push(list[index].clone());
        index = index + 1;
    }
    assert(texts(copy@) =~= texts(list@));
    copy
}

/// Whether two lists hold the same strings in the same order.
pub fn same_texts(left: &Vec<String>, right: &Vec<String>) -> (same: bool)
    ensures
        same == (texts(left@) == texts(right@)),
{
    if left.len() != right.len() {
        assert(texts(left@).len() != texts(right@).len());
        return false;
    }
    let mut index: usize = 0;
    while index < left.len()
        invariant
            index <= left.len(),
            left.len() == right.len(),
            forall|i: int| 0 <= i < index ==> (#[trigger] left[i])@ == right[i]@,
        decreases left.len() - index,
    {
        if !same_text(left[index].as_str(), right[index].as_str()) {
            assert(texts(left@)[index as int] != texts(right@)[index as int]);
            return false;
        }
        index = index + 1;
    }
    assert(texts(left@) =~= texts(right@));
    true
}

/// Whether a list holds a string with the given characters.
pub fn holds_text(list: &Vec<String>, wanted: &str) -> (found: bool)
    ensures
        found == texts(list@).contains(wanted@),
{
    let mut index: usize = 0;
    while index < list.len()
        invariant
            index <= list.len(),
            forall|i: int| 0 <= i < index ==> (#[trigger] list[i])@ != wanted@,
        decreases list.len() - index,
    {
        if same_text(list[index].as_str(), wanted) {
            assert(texts(list@)[index as int] == wanted@);
            return true;
        }
        index = index + 1;
    }
    assert forall|i: int| 0 <= i < texts(list@).len() implies texts(list@)[i] != wanted@ by {
        assert(list[i]@ != wanted@);
    }
    false
}

/// The decimal digit of a value below ten.
pub open spec fn digit(value: nat) -> char {
    (('0' as u32) + value) as char
}

/// The decimal numeral of a natural number, without leading zeros.
pub open spec fn decimal(value: nat) -> Seq<char>
    decreases value,
{
    if value < 10 {
        seq![digit(value)]
    } else {
        decimal(value / 10).push(digit(value % 10))
    }
}

/// The decimal numeral of an integer, with a minus sign before a negative one.
pub open spec fn signed_decimal(value: int) -> Seq<char> {
    if value < 0 {
        seq!['-'] + decimal((-value) as nat)
    } else {
        decimal(value as nat)
    }
}

/// The lower-case hexadecimal digit of a value below sixteen.
pub open spec fn hex_digit(value: nat) -> char {
    if value < 10 {
        digit(value)
    } else {
        (('a' as u32) + (value - 10)) as char
    }
}

/// The lowest `width` hexadecimal digits of a number, most significant first.
pub open spec fn hex(value: nat, width: nat) -> Seq<char>
    decreases width,
{
    if width == 0 {
        Seq::empty()
    } else {
        hex(value / 16, (width - 1) as nat).push(hex_digit(value % 16))
    }
}

fn digit_char(value: u64) -> (character: char)
    requires
        value < 10,
    ensures
        character == digit(value as nat),
{
    match value {
        0 => '0',
        1 => '1',
        2 => '2',
        3 => '3',
        4 => '4',
        5 => '5',
        6 => '6',
        7 => '7',
        8 => '8',
        _ => '9',
    }
}

/// Appends the decimal numeral of a number.
pub fn push_decimal(text: &mut String, value: u64)
    ensures
        final(text)@ == old(text)@ + decimal(value as nat),
    decreases value,
{
    if value >= 10 {
        push_decimal(text, value / 10);
    }
    text.push(digit_char(value % 10));
    assert(text@ =~= old(text)@ + decimal(value as nat));
}

/// Appends the decimal numeral of a signed number.
pub fn push_signed_decimal(text: &mut String, value: i64)
    ensures
        final(text)@ == old(text)@ + signed_decimal(value as int),
{
    if value < 0 {
        text.push('-');
        let magnitude: u64 = (-(value as i128)) as u64;
        push_decimal(text, magnitude);
        assert(text@ =~= old(text)@ + signed_decimal(value as int));
    } else {
        push_decimal(text, value as u64);
    }
}

/// Appends the lowest `width` hexadecimal digits of a number.
pub fn push_hex(text: &mut String, value: u64, width: u32)
    ensures
        final(text)@ == old(text)@ + hex(value as nat, width as nat),
    decreases width,
{
    if width > 0 {
        push_hex(text, value / 16, width - 1);
        let low: u64 = value % 16;
        let character: char = if low < 10 {
            digit_char(low)
        } else {
            match low {
                10 => 'a',
                11 => 'b',
                12 => 'c',
                13 => 'd',
                14 => 'e',
                _ => 'f',
            }
        };
        text.push(character);
    }
    assert(text@ =~= old(text)@ + hex(value as nat, width as nat));
}

/// The characters of a string as a list.
pub fn characters(source: &str) -> (list: Vec<char>)
    ensures
        list@ == source@,
{
    let mut list: Vec<char> = Vec::new();
    for character in iter: source.chars()
        invariant
            iter.seq() == source@,
            list@ == source@.take(iter.index() as int),
    {
        list.push(character);
        assert(source@.take(iter.index() + 1) =~= source@.take(iter.index() as int).push(
            character,
        ));
    }
    assert(source@.take(source@.len() as int) =~= source@);
    list
}

/// Appends a range of a list of characters.
pub fn push_characters(target: &mut String, list: &Vec<char>, from: usize, to: usize)
    requires
        from <= to <= list@.len(),
    ensures
        final(target)@ == old(target)@ + list@.subrange(from as int, to as int),
{
    let mut index: usize = from;
    assert(list@.subrange(from as int, from as int) =~= Seq::<char>::empty());
    assert(target@ =~= old(target)@ + list@.subrange(from as int, from as int));
    while index < to
        invariant
            from <= index <= to <= list@.len(),
            target@ == old(target)@ + list@.subrange(from as int, index as int),
        decreases to - index,
    {
        target.push(list[index]);
        index = index + 1;
        assert(list@.subrange(from as int, index as int) =~= list@.subrange(
            from as int,
            index as int - 1,
        ).push(list@[index as int - 1]));
        assert(target@ =~= old(target)@ + list@.subrange(from as int, index as int));
    }
}

/// The UTF-16 code units of a character.
pub open spec fn utf16_units(character: char) -> nat {
    if character as u32 >= 0x10000 {
        2
    } else {
        1
    }
}

/// The UTF-16 code units of a string.
pub open spec fn utf16_len(source: Seq<char>) -> nat
    decreases source.len(),
{
    if source.len() == 0 {
        0
    } else {
        utf16_len(source.drop_last()) + utf16_units(source.last())
    }
}

pub proof fn utf16_len_of_parts(left: Seq<char>, right: Seq<char>)
    ensures
        utf16_len(left + right) == utf16_len(left) + utf16_len(right),
    decreases right.len(),
{
    if right.len() == 0 {
        assert(left + right =~= left);
    } else {
        utf16_len_of_parts(left, right.drop_last());
        assert((left + right).drop_last() =~= left + right.drop_last());
    }
}

pub proof fn utf16_len_grows(source: Seq<char>, shorter: int, longer: int)
    requires
        0 <= shorter <= longer <= source.len(),
    ensures
        utf16_len(source.take(longer)) - utf16_len(source.take(shorter)) >= longer - shorter,
    decreases longer - shorter,
{
    if shorter < longer {
        utf16_len_grows(source, shorter, longer - 1);
        assert(source.take(longer).drop_last() =~= source.take(longer - 1));
    }
}

/// The UTF-16 length of a range of characters; none where it exceeds a machine
/// word.
pub fn utf16_length(list: &Vec<char>, from: usize, to: usize) -> (length: Option<usize>)
    requires
        from <= to <= list@.len(),
    ensures
        match length {
            Some(length) => length == utf16_len(list@.subrange(from as int, to as int)),
            None => utf16_len(list@.subrange(from as int, to as int)) > usize::MAX,
        },
{
    let mut length: usize = 0;
    let mut index: usize = from;
    let ghost whole = list@.subrange(from as int, to as int);
    assert(whole.take(0) =~= Seq::<char>::empty());
    while index < to
        invariant
            from <= index <= to <= list@.len(),
            whole == list@.subrange(from as int, to as int),
            length == utf16_len(whole.take(index - from)),
        decreases to - index,
    {
        let units: usize = if list[index] as u32 >= 0x10000 {
            2
        } else {
            1
        };
        assert(whole.take(index - from + 1).drop_last() =~= whole.take(index - from));
        assert(whole.take(index - from + 1).last() == list@[index as int]);
        match length.checked_add(units) {
            Some(longer) => {
                length = longer;
            },
            None => {
                proof {
                    utf16_len_grows(whole, index - from + 1, whole.len() as int);
                    assert(whole.take(whole.len() as int) =~= whole);
                }
                return None;
            },
        }
        index = index + 1;
    }
    assert(whole.take(to - from) =~= whole);
    Some(length)
}

/// The length of a string in UTF-16 code units.
pub fn utf16_count(source: &str) -> (count: i128)
    ensures
        count == utf16_len(source@),
{
    let list: Vec<char> = characters(source);
    let mut count: i128 = 0;
    let mut index: usize = 0;
    assert(list@.take(0) =~= Seq::<char>::empty());
    while index < list.len()
        invariant
            index <= list@.len(),
            list@ == source@,
            count == utf16_len(list@.take(index as int)),
            count <= 2 * index,
        decreases list@.len() - index,
    {
        assert(list@.take(index + 1).drop_last() =~= list@.take(index as int));
        assert(list@.take(index + 1).last() == list@[index as int]);
        count = count + if list[index] as u32 >= 0x10000 {
            2
        } else {
            1
        };
        index = index + 1;
    }
    assert(list@.take(list@.len() as int) =~= source@);
    count
}

/// A position of a string that a number of UTF-16 code units comes before.
pub open spec fn utf16_boundary(source: Seq<char>, at: int, units: nat) -> bool {
    0 <= at <= source.len() && utf16_len(source.take(at)) == units
}

/// There is at most one such position.
pub proof fn utf16_boundary_is_unique(source: Seq<char>, left: int, right: int, units: nat)
    requires
        utf16_boundary(source, left, units),
        utf16_boundary(source, right, units),
    ensures
        left == right,
{
    if left < right {
        utf16_len_grows(source, left, right);
    } else {
        utf16_len_grows(source, right, left);
    }
}

/// Whether a place is the one that a count of units leads to, and none where the count
/// leads into a character or beyond the text.
pub open spec fn is_utf16_index(source: Seq<char>, units: nat, index: Option<usize>) -> bool {
    match index {
        Some(index) => utf16_boundary(source, index as int, units),
        None => forall|at: int| !#[trigger] utf16_boundary(source, at, units),
    }
}

/// The position that a number of UTF-16 code units comes before; none where
/// the number falls inside a surrogate pair or behind the end.
pub fn index_at_utf16(list: &Vec<char>, target: usize) -> (index: Option<usize>)
    ensures
        is_utf16_index(list@, target as nat, index),
{
    let mut units: usize = 0;
    let mut index: usize = 0;
    assert(list@.take(0) =~= Seq::<char>::empty());
    while units < target && index < list.len()
        invariant
            index <= list.len(),
            units <= target,
            units == utf16_len(list@.take(index as int)),
            forall|at: int| 0 <= at < index ==> !#[trigger] utf16_boundary(
                list@,
                at,
                target as nat,
            ),
        decreases list.len() - index,
    {
        assert(list@.take(index as int + 1).drop_last() =~= list@.take(index as int));
        let width: usize = if list[index] as u32 >= 0x10000 {
            2
        } else {
            1
        };
        if width > target - units {
            assert forall|at: int| !#[trigger] utf16_boundary(list@, at, target as nat) by {
                if index < at <= list@.len() {
                    utf16_len_grows(list@, index as int + 1, at);
                }
            }
            return None;
        }
        units = units + width;
        index = index + 1;
    }
    if units == target {
        assert(utf16_boundary(list@, index as int, target as nat));
        Some(index)
    } else {
        assert(!utf16_boundary(list@, index as int, target as nat));
        None
    }
}

/// Strings one after the other, with a separator between neighbours.
pub open spec fn joined(list: Seq<Seq<char>>, separator: Seq<char>) -> Seq<char>
    decreases list.len(),
{
    if list.len() == 0 {
        Seq::empty()
    } else if list.len() == 1 {
        list[0]
    } else {
        joined(list.drop_last(), separator) + separator + list.last()
    }
}

pub fn join_texts(list: &Vec<String>, separator: &str) -> (whole: String)
    ensures
        whole@ == joined(texts(list@), separator@),
{
    let mut whole: String = String::new();
    let mut index: usize = 0;
    assert(whole@ =~= joined(texts(list@).take(0), separator@));
    while index < list.len()
        invariant
            index <= list.len(),
            whole@ == joined(texts(list@).take(index as int), separator@),
        decreases list.len() - index,
    {
        let ghost before = whole@;
        if index > 0 {
            whole.push_str(separator);
        }
        whole.push_str(list[index].as_str());
        index = index + 1;
        proof {
            let longer = texts(list@).take(index as int);
            assert(longer.drop_last() =~= texts(list@).take(index as int - 1));
            assert(longer.last() == list@[index as int - 1]@);
            if index == 1 {
                assert(before =~= Seq::<char>::empty());
                assert(whole@ =~= longer[0]);
            } else {
                assert(whole@ =~= before + separator@ + longer.last());
            }
        }
    }
    assert(texts(list@).take(index as int) =~= texts(list@));
    whole
}

/// The ASCII lower-case form of a character; other characters are kept.
pub open spec fn ascii_lower(character: char) -> char {
    if 'A' <= character <= 'Z' {
        ((character as u32) + 32) as char
    } else {
        character
    }
}

pub open spec fn ascii_lower_all(source: Seq<char>) -> Seq<char> {
    source.map_values(|character: char| ascii_lower(character))
}

fn same_ascii_lower(left: char, right: char) -> (same: bool)
    ensures
        same == (ascii_lower(left) == ascii_lower(right)),
{
    let left_code: u32 = if 'A' <= left && left <= 'Z' {
        left as u32 + 32
    } else {
        left as u32
    };
    let right_code: u32 = if 'A' <= right && right <= 'Z' {
        right as u32 + 32
    } else {
        right as u32
    };
    left_code == right_code
}

/// Whether two strings agree up to the case of ASCII letters.
pub fn same_ignoring_ascii_case(left: &str, right: &str) -> (same: bool)
    ensures
        same == (ascii_lower_all(left@) == ascii_lower_all(right@)),
{
    let left_list: Vec<char> = characters(left);
    let right_list: Vec<char> = characters(right);
    if left_list.len() != right_list.len() {
        assert(ascii_lower_all(left@).len() != ascii_lower_all(right@).len());
        return false;
    }
    let mut index: usize = 0;
    while index < left_list.len()
        invariant
            index <= left_list.len(),
            left_list@ == left@,
            right_list@ == right@,
            left_list.len() == right_list.len(),
            forall|i: int|
                0 <= i < index ==> ascii_lower(#[trigger] left@[i]) == ascii_lower(right@[i]),
        decreases left_list.len() - index,
    {
        if !same_ascii_lower(left_list[index], right_list[index]) {
            assert(ascii_lower_all(left@)[index as int] != ascii_lower_all(right@)[index as int]);
            return false;
        }
        index = index + 1;
    }
    assert(ascii_lower_all(left@) =~= ascii_lower_all(right@));
    true
}

/// The characters with the Unicode property White_Space.
pub open spec fn white_space(character: char) -> bool {
    let code = character as u32;
    (0x9 <= code <= 0xd) || code == 0x20 || code == 0x85 || code == 0xa0 || code == 0x1680 || (
    0x2000 <= code <= 0x200a) || code == 0x2028 || code == 0x2029 || code == 0x202f || code
        == 0x205f || code == 0x3000
}

fn is_white_space(character: char) -> (white: bool)
    ensures
        white == white_space(character),
{
    let code: u32 = character as u32;
    (0x9 <= code && code <= 0xd) || code == 0x20 || code == 0x85 || code == 0xa0 || code == 0x1680
        || (0x2000 <= code && code <= 0x200a) || code == 0x2028 || code == 0x2029 || code == 0x202f
        || code == 0x205f || code == 0x3000
}

pub open spec fn blank(source: Seq<char>) -> bool {
    forall|i: int| 0 <= i < source.len() ==> white_space(#[trigger] source[i])
}

/// Whether a string holds nothing but white space.
pub fn is_blank(source: &str) -> (all: bool)
    ensures
        all == blank(source@),
{
    let list: Vec<char> = characters(source);
    let mut index: usize = 0;
    while index < list.len()
        invariant
            index <= list.len(),
            list@ == source@,
            forall|i: int| 0 <= i < index ==> white_space(#[trigger] source@[i]),
        decreases list.len() - index,
    {
        if !is_white_space(list[index]) {
            assert(!white_space(source@[index as int]));
            return false;
        }
        index = index + 1;
    }
    true
}

/// What `str::to_lowercase` makes of a string.
pub uninterp spec fn lowercase(source: Seq<char>) -> Seq<char>;

/// `str::to_lowercase`: the Unicode lower-case form of a string, a function of
/// its characters alone.
#[verifier::external_body]
pub(crate) fn to_lowercase(source: &str) -> (lower: String)
    ensures
        lower@ == lowercase(source@),
{
    source.to_lowercase()
}

/// Whether a string occurs at a position of another.
pub open spec fn occurs_at(haystack: Seq<char>, needle: Seq<char>, at: int) -> bool {
    0 <= at && at + needle.len() <= haystack.len() && haystack.subrange(
        at,
        at + needle.len(),
    ) == needle
}

/// Whether a list of characters occurs at a position of another.
pub fn matches_at(haystack: &Vec<char>, needle: &Vec<char>, at: usize) -> (found: bool)
    ensures
        found == occurs_at(haystack@, needle@, at as int),
{
    if at > haystack.len() || needle.len() > haystack.len() - at {
        return false;
    }
    let ghost window = haystack@.subrange(at as int, at + needle@.len());
    let mut index: usize = 0;
    while index < needle.len()
        invariant
            index <= needle.len(),
            at + needle.len() <= haystack.len(),
            window == haystack@.subrange(at as int, at + needle@.len()),
            forall|i: int| 0 <= i < index ==> #[trigger] window[i] == needle@[i],
        decreases needle.len() - index,
    {
        if haystack[at + index] != needle[index] {
            assert(window[index as int] != needle@[index as int]);
            return false;
        }
        index = index + 1;
    }
    assert(window =~= needle@);
    true
}

/// Whether a string occurs anywhere in another.
pub open spec fn occurs(haystack: Seq<char>, needle: Seq<char>) -> bool {
    exists|at: int| #[trigger] occurs_at(haystack, needle, at)
}

pub fn contains_text(haystack: &str, needle: &str) -> (found: bool)
    ensures
        found == occurs(haystack@, needle@),
{
    let haystack_list: Vec<char> = characters(haystack);
    let needle_list: Vec<char> = characters(needle);
    let mut at: usize = 0;
    loop
        invariant
            haystack_list@ == haystack@,
            needle_list@ == needle@,
            at <= haystack_list.len(),
            forall|i: int| i < at ==> !#[trigger] occurs_at(haystack@, needle@, i),
        decreases haystack_list.len() - at,
    {
        if matches_at(&haystack_list, &needle_list, at) {
            return true;
        }
        if at == haystack_list.len() {
            return false;
        }
        at = at + 1;
    }
}

/// Lexicographic order by code point.
pub open spec fn text_le(left: Seq<char>, right: Seq<char>) -> bool
    decreases left.len(),
{
    if left.len() == 0 {
        true
    } else if right.len() == 0 {
        false
    } else if left[0] != right[0] {
        left[0] < right[0]
    } else {
        text_le(left.drop_first(), right.drop_first())
    }
}

pub proof fn text_le_total(left: Seq<char>, right: Seq<char>)
    ensures
        text_le(left, right) || text_le(right, left),
    decreases left.len(),
{
    if left.len() > 0 && right.len() > 0 && left[0] == right[0] {
        text_le_total(left.drop_first(), right.drop_first());
    }
}

pub proof fn text_le_antisymmetric(left: Seq<char>, right: Seq<char>)
    requires
        text_le(left, right),
        text_le(right, left),
    ensures
        left == right,
    decreases left.len(),
{
    if left.len() > 0 && right.len() > 0 {
        text_le_antisymmetric(left.drop_first(), right.drop_first());
        assert(left =~= seq![left[0]] + left.drop_first());
        assert(right =~= seq![right[0]] + right.drop_first());
    } else {
        assert(left =~= right);
    }
}

pub proof fn text_le_transitive(left: Seq<char>, middle: Seq<char>, right: Seq<char>)
    requires
        text_le(left, middle),
        text_le(middle, right),
    ensures
        text_le(left, right),
    decreases left.len(),
{
    if left.len() > 0 && middle.len() > 0 && right.len() > 0 && left[0] == middle[0] && middle[0]
        == right[0] {
        text_le_transitive(left.drop_first(), middle.drop_first(), right.drop_first());
    }
}

/// Whether a string comes before another, or is equal to it.
pub fn text_at_most(left: &str, right: &str) -> (le: bool)
    ensures
        le == text_le(left@, right@),
{
    let left_list: Vec<char> = characters(left);
    let right_list: Vec<char> = characters(right);
    let mut index: usize = 0;
    assert(left@.skip(0) =~= left@);
    assert(right@.skip(0) =~= right@);
    loop
        invariant
            left_list@ == left@,
            right_list@ == right@,
            index <= left_list.len(),
            index <= right_list.len(),
            text_le(left@, right@) == text_le(left@.skip(index as int), right@.skip(index as int)),
        decreases left_list.len() - index,
    {
        if index == left_list.len() {
            return true;
        }
        if index == right_list.len() {
            return false;
        }
        if left_list[index] != right_list[index] {
            return left_list[index] < right_list[index];
        }
        assert(left@.skip(index as int).drop_first() =~= left@.skip(index as int + 1));
        assert(right@.skip(index as int).drop_first() =~= right@.skip(index as int + 1));
        index = index + 1;
    }
}

} // verus!
