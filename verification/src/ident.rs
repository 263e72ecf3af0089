//! Page ids, and the names of the files that belong to them.

use crate::number::is_digit;
use crate::outside::is_date;
use crate::page::NULL_ID;
use crate::text::{chars_of, same_text};
use vstd::prelude::*;

verus! {

/// The directory, below the diary's own, that holds the page files.
pub const PAGES_DIR: &'static str = "pages";

/// The extension of a page file.
pub const PAGE_EXTENSION: &'static str = "page";

/// The file that holds the id of the newest page.
pub const HEAD_FILENAME: &'static str = "HEAD";

/// The file that the editor works on.
pub const TEMPORARY_FILE_TO_EDIT: &'static str = "EDIT_PAGE";

/// Whether `c` may not stand in an id, because a file name could not hold it.
pub open spec fn is_invalid_character(c: char) -> bool {
    ||| c == '\\'
    ||| c == '/'
    ||| c == ':'
    ||| c == ','
    ||| c == ';'
    ||| c == '*'
    ||| c == '?'
    ||| c == '"'
    ||| c == '<'
    ||| c == '>'
    ||| c == '|'
}

/// Why `id` cannot name a page, as a message; `None` where it can.
pub open spec fn id_fault(id: Seq<char>) -> Option<Seq<char>> {
    if id.len() == 0 {
        Some("empty id is unavaialble"@)
    } else if id == NULL_ID@ {
        Some("`NULL` is unavailable"@)
    } else if exists|i: int| 0 <= i < id.len() && is_invalid_character(id[i]) {
        Some("invalid character (\\ / : , ; * ? \" < > |)"@)
    } else {
        None
    }
}

/// Whether `id` can name a page: it is not empty, it is not `NULL`, and it holds no character
/// that a file name could not hold.
pub open spec fn valid_id(id: Seq<char>) -> bool {
    id_fault(id) is None
}

/// The name of the file of page `id`.
pub open spec fn page_file_name_of(id: Seq<char>) -> Seq<char> {
    id + "."@ + PAGE_EXTENSION@
}

/// A date can name a page.
pub proof fn date_names_a_page(date: Seq<char>)
    requires
        is_date(date),
    ensures
        valid_id(date),
{
    reveal_strlit("NULL");
    let n = date.len() as int;
    assert forall|i: int| 0 <= i < n implies !is_invalid_character(date[i]) by {
        if 1 <= i < n - 6 {
            assert(is_digit(date[i]));
        }
    }
}

/// Tests a character for one that may not stand in an id.
pub fn invalid_character(c: char) -> (invalid: bool)
    ensures
        invalid == is_invalid_character(c),
{
    c == '\\' || c == '/' || c == ':' || c == ',' || c == ';' || c == '*' || c == '?' || c == '"'
        || c == '<' || c == '>' || c == '|'
}

/// Checks that `id` can name a page, and says why where it cannot.
pub fn is_valid_id(id: &str) -> (checked: Result<(), String>)
    ensures
        match checked {
            Ok(_) => id_fault(id@) is None,
            Err(message) => id_fault(id@) == Some(message@),
        },
{
    let chars = chars_of(id);
    if chars.len() == 0 {
        return Err(String::from_str("empty id is unavaialble"));
    }
    if same_text(id, NULL_ID) {
        return Err(String::from_str("`NULL` is unavailable"));
    }
    let mut i: usize = 0;
    while i < chars.len()
        invariant
            i <= chars.len(),
            chars@ == id@,
            id@ != NULL_ID@,
            forall|j: int| 0 <= j < i ==> !is_invalid_character(id@[j]),
        decreases chars.len() - i,
    {
        if invalid_character(chars[i]) {
            assert(0 <= i < id@.len() && is_invalid_character(id@[i as int]));
            return Err(String::from_str("invalid character (\\ / : , ; * ? \" < > |)"));
        }
        i += 1;
    }
    Ok(())
}

/// The name of the file of page `id`, inside the directory of pages.
pub fn page_file_name(id: &str) -> (name: String)
    ensures
        name@ == page_file_name_of(id@),
{
    let mut name = String::from_str(id);
    name.append(".");
    name.append(PAGE_EXTENSION);
    name
}

} // verus!
