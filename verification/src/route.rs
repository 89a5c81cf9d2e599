//! Reading the kernel's routing table: does an interface have a route?

use crate::text::chars_of;
use crate::text::matches_at;
use crate::text::occurs_at;
use vstd::prelude::*;

verus! {

/// `c` ends the first field of a routing-table line: a space or a tab.
pub open spec fn is_field_separator(c: char) -> bool {
    c == ' ' || c == '\t'
}

/// Decides whether `c` ends the first field of a routing-table line.
pub fn field_separator(c: char) -> (r: bool)
    ensures
        r == is_field_separator(c),
{
    c == ' ' || c == '\t'
}

/// A line of `table` begins at position `at`: at the very start, or right behind a newline.
pub open spec fn line_starts_at(table: Seq<char>, at: int) -> bool {
    0 <= at <= table.len() && (at == 0 || table[at - 1] == '\n')
}

/// The line of `table` that begins at `at` has `name` as its first field: the line starts
/// with `name`, and the character right behind the name is a space or a tab. A longer
/// name that only begins with `name` therefore does not count.
pub open spec fn names_interface_at(table: Seq<char>, name: Seq<char>, at: int) -> bool {
    &&& line_starts_at(table, at)
    &&& occurs_at(table, name, at)
    &&& !name.contains('\n')
    &&& at + name.len() < table.len()
    &&& is_field_separator(table[at + name.len()])
}

/// Some line of `table` has `name` as its first field.
pub open spec fn routes_interface(table: Seq<char>, name: Seq<char>) -> bool {
    exists|at: int| names_interface_at(table, name, at)
}

/// Whether `text` holds a newline.
fn holds_newline(text: &Vec<char>) -> (r: bool)
    ensures
        r == text@.contains('\n'),
{
    let mut i: usize = 0;
    while i < text.len()
        invariant
            i <= text.len(),
            forall|j: int| 0 <= j < i ==> text@[j] != '\n',
        decreases text.len() - i,
    {
        if text[i] == '\n' {
            return true;
        }
        i += 1;
    }
    false
}

/// Decides whether the routing table `table` holds a line whose first field is `name`.
pub fn interface_routed(table: &str, name: &str) -> (r: bool)
    ensures
        r == routes_interface(table@, name@),
{
    let t = chars_of(table);
    let n = chars_of(name);
    if holds_newline(&n) {
        return false;
    }
    let mut at: usize = 0;
    while at < t.len()
        invariant
            at <= t.len(),
            t@ == table@,
            n@ == name@,
            !n@.contains('\n'),
            forall|k: int| 0 <= k < at ==> !names_interface_at(t@, n@, k),
        decreases t.len() - at,
    {
        if (at == 0 || t[at - 1] == '\n') && matches_at(&t, &n, at) && n.len() < t.len() - at {
            if field_separator(t[at + n.len()]) {
                assert(names_interface_at(t@, n@, at as int));
                return true;
            }
        }
        at += 1;
    }
    false
}

/// `text` holds neither a field separator nor a newline.
pub open spec fn is_one_field(text: Seq<char>) -> bool {
    forall|i: int|
        0 <= i < text.len() ==> !is_field_separator(#[trigger] text[i]) && text[i] != '\n'
}

/// The first field decides, and it has to match as a whole: a table of one line whose first
/// field is `field` has a route for the interface `name` exactly if `name` is `field`. A
/// name that is only the beginning of the field, or that only begins with it, has none.
pub proof fn lemma_whole_first_field(
    field: Seq<char>,
    separator: char,
    rest: Seq<char>,
    name: Seq<char>,
)
    requires
        is_one_field(field),
        is_one_field(name),
        is_field_separator(separator),
        !rest.contains('\n'),
    ensures
        routes_interface(field + seq![separator] + rest, name) <==> name == field,
{
    let table = field + seq![separator] + rest;
    if name == field {
        assert(table.subrange(0, name.len() as int) =~= name);
        assert(table[name.len() as int] == separator);
        assert(!name.contains('\n'));
        assert(names_interface_at(table, name, 0));
    }
    if routes_interface(table, name) {
        let at = choose|at: int| names_interface_at(table, name, at);
        if at != 0 {
            let before = at - 1;
            if before < field.len() {
                assert(table[before] == field[before]);
            } else if before > field.len() {
                assert(table[before] == rest[before - field.len() - 1]);
                assert(rest.contains('\n'));
            }
        }
        assert(at == 0);
        let found = table.subrange(0, name.len() as int);
        if name.len() < field.len() {
            assert(table[name.len() as int] == field[name.len() as int]);
        } else if name.len() > field.len() {
            assert(found[field.len() as int] == table[field.len() as int]);
            assert(name[field.len() as int] == separator);
        } else {
            assert(found =~= field);
        }
    }
}

} // verus!
