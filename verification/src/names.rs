//! Rules on archive entry names.

use vstd::prelude::*;
use vstd::string::StrSliceExecFns;

verus! {

/// An entry name denotes a directory marker when it ends with the path
/// separator `/`. The empty name is no directory marker.
pub open spec fn spec_is_directory_name(name: Seq<char>) -> bool {
    name.len() > 0 && name.last() == '/'
}

/// The characters of an optional text.
pub open spec fn text_view(text: Option<&str>) -> Option<Seq<char>> {
    match text {
        Some(t) => Some(t@),
        None => None,
    }
}

/// Whether the component `..` stands at position `i` of a name: two dots
/// between the start of the name or a `/` and the end of the name or a `/`.
pub open spec fn parent_component_at(name: Seq<char>, i: int) -> bool {
    &&& 0 <= i
    &&& i + 1 < name.len()
    &&& name[i] == '.'
    &&& name[i + 1] == '.'
    &&& (i == 0 || name[i - 1] == '/')
    &&& (i + 2 == name.len() || name[i + 2] == '/')
}

/// Whether one of the components of a name, as `/` separates them, is the
/// parent directory `..`.
pub open spec fn spec_has_parent_component(name: Seq<char>) -> bool {
    exists|i: int| #[trigger] parent_component_at(name, i)
}

/// A name is refused, whatever else is known of it, when it starts at the
/// root or holds a parent-directory component.
pub open spec fn spec_is_refused_name(name: Seq<char>) -> bool {
    (name.len() > 0 && name[0] == '/') || spec_has_parent_component(name)
}

/// The character at a position of a name. For a name known to be ASCII it
/// is read in constant time.
fn char_at(name: &str, ascii: bool, i: usize) -> (c: char)
    requires
        i < name@.len(),
        ascii ==> name.is_ascii(),
    ensures
        c == name@[i as int],
{
    if ascii {
        let b: u8 = name.get_ascii(i);
        b as char
    } else {
        name.get_char(i)
    }
}

/// Tells whether one of the components of a name is `..`.
pub fn has_parent_component(name: &str) -> (r: bool)
    ensures
        r == spec_has_parent_component(name@),
{
    let n: usize = name.unicode_len();
    if n < 2 {
        return false;
    }
    let ascii: bool = name.is_ascii();
    let mut i: usize = 0;
    while i <= n - 2
        invariant
            n == name@.len(),
            n >= 2,
            ascii ==> name.is_ascii(),
            i <= n - 1,
            forall|j: int| 0 <= j < i ==> !#[trigger] parent_component_at(name@, j),
        decreases n - i,
    {
        if char_at(name, ascii, i) == '.' && char_at(name, ascii, i + 1) == '.' {
            let starts: bool = i == 0 || char_at(name, ascii, i - 1) == '/';
            let ends: bool = i + 2 == n || char_at(name, ascii, i + 2) == '/';
            if starts && ends {
                assert(parent_component_at(name@, i as int));
                return true;
            }
        }
        i = i + 1;
    }
    false
}

/// Tells whether a name starts at the root or holds a parent-directory
/// component.
pub fn is_refused_name(name: &str) -> (r: bool)
    ensures
        r == spec_is_refused_name(name@),
{
    let n: usize = name.unicode_len();
    if n > 0 && name.get_char(0) == '/' {
        true
    } else {
        has_parent_component(name)
    }
}

/// Tells whether an entry name is a directory marker.
pub fn is_directory_name(name: &str) -> (r: bool)
    ensures
        r == spec_is_directory_name(name@),
{
    let n: usize = name.unicode_len();
    if n == 0 {
        false
    } else {
        name.get_char(n - 1) == '/'
    }
}

} // verus!
