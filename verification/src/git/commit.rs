//! The rules a commit message obeys before a commit is made.

use vstd::prelude::*;

use crate::util::{trim, trimmed};

verus! {

/// A commit message is accepted unless it is only white space.
pub fn check_commit_message(message: &str) -> (r: Result<(), String>)
    ensures
        r.is_ok() == (trimmed(message@).len() > 0),
        r.is_err() ==> r->Err_0@ == "commit message must not be empty"@,
{
    let t = trim(message);
    if t.as_str().is_empty() {
        Err("commit message must not be empty".to_owned())
    } else {
        Ok(())
    }
}

/// The message of an amended commit: the new one when given, else the
/// message of the commit being amended (empty when it is not UTF-8).
pub fn amend_message(new_message: Option<&str>, head_message: Option<&str>) -> (r: String)
    ensures
        r@ == match new_message {
            Some(m) => m@,
            None => match head_message {
                Some(h) => h@,
                None => Seq::<char>::empty(),
            },
        },
{
    match new_message {
        Some(m) => m.to_owned(),
        None => match head_message {
            Some(h) => h.to_owned(),
            None => String::new(),
        },
    }
}

} // verus!
