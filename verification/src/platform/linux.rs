//! The parts of the X11 backend that compute on what the display server
//! has already answered.

use vstd::prelude::*;
use vstd::utf8::{decode_utf8, valid_utf8};
use crate::text::{str_eq, str_from_utf8};

verus! {

/// A window is listed when it declares no type at all or the normal type
/// among its types.
pub open spec fn counts_as_normal(types: Seq<u32>, normal_type: u32) -> bool {
    types.len() == 0 || types.contains(normal_type)
}

/// Tells whether a window with the given types is an ordinary window.
pub fn is_normal_window(types: &[u32], normal_type: u32) -> (normal: bool)
    ensures
        normal == counts_as_normal(types@, normal_type),
{
    let len = types.len();
    if len == 0 {
        return true;
    }
    let mut i: usize = 0;
    while i < len
        invariant
            len == types@.len(),
            i <= len,
            forall|k: int| 0 <= k < i ==> types@[k] != normal_type,
        decreases len - i,
    {
        if types[i] == normal_type {
            return true;
        }
        i += 1;
    }
    false
}

/// The first position at or behind `from` that holds no NUL, or the
/// length of the text.
pub open spec fn field_start(s: Seq<char>, from: int) -> int
    decreases s.len() - from,
{
    if from >= s.len() || s[from] != '\0' {
        from
    } else {
        field_start(s, from + 1)
    }
}

/// The first position at or behind `from` that holds a NUL, or the length
/// of the text.
pub open spec fn field_end(s: Seq<char>, from: int) -> int
    decreases s.len() - from,
{
    if from >= s.len() || s[from] == '\0' {
        from
    } else {
        field_end(s, from + 1)
    }
}

/// The application's name in a window's class property, which holds the
/// instance and the class, each closed by a NUL: the second field that is
/// not empty, or the only one, or nothing.
pub open spec fn class_name(s: Seq<char>) -> Seq<char> {
    let first = field_start(s, 0);
    let first_end = field_end(s, first);
    let second = field_start(s, first_end);
    let second_end = field_end(s, second);
    if first <= first_end <= second < second_end <= s.len() {
        s.subrange(second, second_end)
    } else if 0 <= first < first_end <= s.len() {
        s.subrange(first, first_end)
    } else {
        Seq::<char>::empty()
    }
}

/// The application's name that the bytes of a class property give;
/// nothing where the bytes are no text.
pub open spec fn class_name_of_bytes(value: Seq<u8>) -> Seq<char> {
    if valid_utf8(value) {
        class_name(decode_utf8(value))
    } else {
        Seq::<char>::empty()
    }
}

fn skip_nuls(s: &str, from: usize) -> (at: usize)
    requires
        from <= s@.len(),
    ensures
        at == field_start(s@, from as int),
        from <= at <= s@.len(),
{
    let len = s.unicode_len();
    let mut i: usize = from;
    while i < len && s.get_char(i) == '\0'
        invariant
            len == s@.len(),
            from <= i <= len,
            field_start(s@, from as int) == field_start(s@, i as int),
        decreases len - i,
    {
        i += 1;
    }
    i
}

fn skip_field(s: &str, from: usize) -> (at: usize)
    requires
        from <= s@.len(),
    ensures
        at == field_end(s@, from as int),
        from <= at <= s@.len(),
        from < s@.len() && s@[from as int] != '\0' ==> from < at,
{
    let len = s.unicode_len();
    let mut i: usize = from;
    while i < len && s.get_char(i) != '\0'
        invariant
            len == s@.len(),
            from <= i <= len,
            field_end(s@, from as int) == field_end(s@, i as int),
            from < len && s@[from as int] != '\0' && i == from ==> i < len,
        decreases len - i,
    {
        i += 1;
    }
    i
}

/// Reads the application's name off a window's class property.
pub fn app_name_from_class(value: &[u8]) -> (name: String)
    ensures
        name@ == class_name_of_bytes(value@),
{
    let text = match str_from_utf8(value) {
        Some(t) => t,
        None => {
            let empty = String::new();
            assert(empty@ =~= Seq::<char>::empty());
            return empty;
        },
    };
    let first = skip_nuls(text, 0);
    let first_end = skip_field(text, first);
    let second = skip_nuls(text, first_end);
    let second_end = skip_field(text, second);
    if second < second_end {
        text.substring_char(second, second_end).to_owned()
    } else if first < first_end {
        text.substring_char(first, first_end).to_owned()
    } else {
        let empty = String::new();
        assert(empty@ =~= Seq::<char>::empty());
        empty
    }
}

/// A window is shown when it has a title and is not the desktop itself.
pub open spec fn is_listed_title(title: Seq<char>) -> bool {
    title.len() > 0 && title != "Desktop"@
}

/// Tells whether a window with the given title belongs in the picker.
pub fn lists_window(title: &str) -> (listed: bool)
    ensures
        listed == is_listed_title(title@),
{
    !title.is_empty() && !str_eq(title, "Desktop")
}

} // verus!
