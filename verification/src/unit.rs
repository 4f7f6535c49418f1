//! What every unit file shares: the priority in its name and the shape of
//! its lines.

use vstd::prelude::*;
use crate::text::{decimal_text, decimal_text_two_wide, push_decimal_two_wide};

verus! {

/// The priority of a unit that names none.
pub const DEFAULT_PRIORITY: u32 = 10;

/// The priority a unit is filed under: its own, or the default.
pub open spec fn priority_or_default(priority: Option<u32>) -> u32 {
    match priority {
        Some(p) => p,
        None => DEFAULT_PRIORITY,
    }
}

/// The name of a unit file: the priority in decimal, at least two digits
/// wide, then a hyphen, the unit's identifier and the suffix of its kind.
pub open spec fn unit_file_name_text(
    priority: Option<u32>,
    identifier: Seq<char>,
    suffix: Seq<char>,
) -> Seq<char> {
    decimal_text_two_wide(priority_or_default(priority) as nat) + "-"@ + identifier + suffix
}

/// One line of a section: the key, an equals sign, the value, a line feed.
pub open spec fn key_value_line(key: Seq<char>, value: Seq<char>) -> Seq<char> {
    key + "="@ + value + "\n"@
}

/// The line of an optional entry: none where the value is absent.
pub open spec fn optional_line(key: Seq<char>, value: Option<Seq<char>>) -> Seq<char> {
    match value {
        Some(v) => key_value_line(key, v),
        None => Seq::empty(),
    }
}

/// A unit without a priority is filed under `10`, as one with the priority
/// ten is.
pub proof fn lemma_default_priority(identifier: Seq<char>, suffix: Seq<char>)
    ensures
        unit_file_name_text(None, identifier, suffix) == unit_file_name_text(
            Some(10u32),
            identifier,
            suffix,
        ),
        unit_file_name_text(None, identifier, suffix) == "10-"@ + identifier + suffix,
{
    reveal_with_fuel(decimal_text, 2);
    reveal_strlit("10-");
    reveal_strlit("-");
    assert(decimal_text_two_wide(10) + "-"@ =~= "10-"@);
}

/// The priority a unit is filed under.
pub fn effective_priority(priority: Option<u32>) -> (p: u32)
    ensures
        p == priority_or_default(priority),
{
    match priority {
        Some(p) => p,
        None => DEFAULT_PRIORITY,
    }
}

/// The name of the unit file of a unit with this priority and identifier.
pub fn unit_file_name(priority: Option<u32>, identifier: &str, suffix: &str) -> (name: String)
    ensures
        name@ == unit_file_name_text(priority, identifier@, suffix@),
{
    let mut name = String::new();
    push_decimal_two_wide(&mut name, effective_priority(priority));
    name.append("-");
    name.append(identifier);
    name.append(suffix);
    assert(name@ =~= unit_file_name_text(priority, identifier@, suffix@));
    name
}

/// Appends the line `key=value`.
pub fn push_line(out: &mut String, key: &str, value: &str)
    ensures
        final(out)@ == old(out)@ + key_value_line(key@, value@),
{
    out.append(key);
    out.append("=");
    out.append(value);
    out.append("\n");
    assert(out@ =~= old(out)@ + key_value_line(key@, value@));
}

} // verus!
