//! Creation-time content of a diary entry and the decisions around it:
//! the fixed two-section template a fresh entry starts with, and the
//! check that a day's entry does not already exist.

use vstd::prelude::*;
use vstd::string::StringExecFns;

verus! {

/// The fixed content every fresh entry is created with: a "work"
/// section, a blank line, and a "studies" section.
pub open spec fn template_spec() -> Seq<char> {
    "### work\n\n### studies"@
}

/// Returns the fixed template a fresh entry file is filled with.
pub fn entry_template() -> (r: String)
    ensures
        r@ == template_spec(),
{
    String::from_str("### work\n\n### studies")
}

/// The message shown when today's entry already exists: creation is a
/// no-op and the existing file is left as it is.
pub fn already_exists_message() -> (r: String)
    ensures
        r@ == "Today's entry already exists"@,
{
    String::from_str("Today's entry already exists")
}

/// The message shown after a fresh entry file was created.
pub fn entry_created_message(name: &str) -> (r: String)
    ensures
        r@ == "entry "@ + name@ + " created"@,
{
    let mut s = String::from_str("entry ");
    s.append(name);
    s.append(" created");
    s
}

/// The path of an entry file: the diary directory followed directly by
/// the file name. A trailing slash on the directory is significant,
/// since the two are joined by plain concatenation.
pub fn entry_path(diary_dir: &str, name: &str) -> (r: String)
    ensures
        r@ == diary_dir@ + name@,
{
    let mut s = String::from_str(diary_dir);
    s.append(name);
    s
}

/// Whether the listing already holds an entry of the given name.
pub fn entry_exists(entries: &Vec<String>, name: &String) -> (r: bool)
    ensures
        r == exists|i: int| 0 <= i < entries@.len() && entries@[i]@ == name@,
{
    let mut k: usize = 0;
    while k < entries.len()
        invariant
            k <= entries@.len(),
            forall|i: int| 0 <= i < k ==> entries@[i]@ != name@,
        decreases entries@.len() - k,
    {
        if entries[k].eq(name) {
            assert(entries@[k as int]@ == name@);
            return true;
        }
        k += 1;
    }
    false
}

} // verus!
