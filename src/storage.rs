//! Naming of the records that lists are stored in.

use vstd::prelude::*;
use vstd::string::{StrSliceExecFns, StringExecFns};
use crate::text::is_text_equal;

verus! {

/// Whether a text holds a dot.
pub open spec fn has_dot(s: Seq<char>) -> bool {
    exists|i: int| 0 <= i < s.len() && s[i] == '.'
}

/// The file name of the record that a list of this name is saved to.
pub open spec fn saved_file_name_spec(list_name: Seq<char>) -> Seq<char> {
    list_name + ".json"@
}

/// The file name that an identifier given to load resolves to: taken as it
/// is when it carries an extension, else with ".json" added.
pub open spec fn record_file_name_spec(identifier: Seq<char>) -> Seq<char> {
    if has_dot(identifier) {
        identifier
    } else {
        saved_file_name_spec(identifier)
    }
}

/// The path of a record file within the lists folder.
pub open spec fn record_path_spec(file_name: Seq<char>) -> Seq<char> {
    "./lists/"@ + file_name
}

/// Whether the text holds a dot.
fn contains_dot(s: &str) -> (r: bool)
    ensures
        r == has_dot(s@),
{
    let n = s.unicode_len();
    let mut i: usize = 0;
    while i < n
        invariant
            n == s@.len(),
            0 <= i <= n,
            forall|j: int| 0 <= j < i ==> s@[j] != '.',
        decreases n - i,
    {
        if s.get_char(i) == '.' {
            return true;
        }
        i = i + 1;
    }
    false
}

/// The file name of the record that a list of this name is saved to.
pub fn saved_file_name(list_name: &str) -> (r: String)
    ensures
        r@ == saved_file_name_spec(list_name@),
{
    let mut out = String::from_str(list_name);
    out.append(".json");
    out
}

/// The file name that an identifier given to load resolves to: taken as it
/// is when it carries an extension, else with ".json" added.
pub fn record_file_name(identifier: &str) -> (r: String)
    ensures
        r@ == record_file_name_spec(identifier@),
{
    if contains_dot(identifier) {
        String::from_str(identifier)
    } else {
        saved_file_name(identifier)
    }
}

/// The path of a record file within the lists folder.
pub fn record_path(file_name: &str) -> (r: String)
    ensures
        r@ == record_path_spec(file_name@),
{
    let mut out = String::from_str("./lists/");
    out.append(file_name);
    out
}

/// Whether the known record files hold one for this list, named as given or
/// with ".json" added.
pub fn list_file_exists(list_name: &str, files: &Vec<String>) -> (r: bool)
    ensures
        r == exists|i: int|
            0 <= i < files@.len() && (#[trigger] files@[i]@ == list_name@ || files@[i]@ == saved_file_name_spec(list_name@)),
{
    let file_name = saved_file_name(list_name);
    let mut i: usize = 0;
    while i < files.len()
        invariant
            0 <= i <= files@.len(),
            file_name@ == saved_file_name_spec(list_name@),
            forall|j: int| 0 <= j < i ==> files@[j]@ != list_name@ && files@[j]@ != file_name@,
        decreases files@.len() - i,
    {
        if is_text_equal(files[i].as_str(), list_name) || is_text_equal(files[i].as_str(), file_name.as_str()) {
            return true;
        }
        i = i + 1;
    }
    false
}

/// A list is loaded from the record it was saved to: an identifier without
/// an extension and the saved file name both resolve to that record.
pub proof fn lemma_identifier_resolves_to_saved_record(list_name: Seq<char>)
    requires
        !has_dot(list_name),
    ensures
        record_file_name_spec(list_name) == saved_file_name_spec(list_name),
        record_file_name_spec(saved_file_name_spec(list_name)) == saved_file_name_spec(list_name),
{
    let saved = saved_file_name_spec(list_name);
    reveal_strlit(".json");
    assert(saved[list_name.len() as int] == '.');
}

} // verus!
