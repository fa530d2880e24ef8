//! Which data files a vehicle description asks for.
//!
//! Looking at the disk and reading a file are the caller's: they come in
//! as functions. Whether a file is looked for at all, and what an absent
//! file means, is decided here.
use vstd::prelude::*;
use vstd::string::StrSliceExecFns;

verus! {

/// A character that is white space: one of those that trimming a text
/// takes off.
pub open spec fn is_white_space(c: char) -> bool {
    let code = c as u32;
    ||| 0x09 <= code <= 0x0d
    ||| code == 0x20
    ||| code == 0x85
    ||| code == 0xa0
    ||| code == 0x1680
    ||| 0x2000 <= code <= 0x200a
    ||| code == 0x2028
    ||| code == 0x2029
    ||| code == 0x202f
    ||| code == 0x205f
    ||| code == 0x3000
}

/// Nothing is left of the text once white space is trimmed off its ends.
pub open spec fn is_blank(text: Seq<char>) -> bool {
    forall|i: int| 0 <= i < text.len() ==> is_white_space(#[trigger] text[i])
}

/// The description asks for the file: its flag is set and it has a name.
pub open spec fn asks_for(exists_flag: bool, file_name: Seq<char>) -> bool {
    exists_flag && !is_blank(file_name)
}

/// Whether a character is white space.
pub fn white_space(c: char) -> (r: bool)
    ensures
        r == is_white_space(c),
{
    let code: u32 = c as u32;
    (0x09 <= code && code <= 0x0d) || code == 0x20 || code == 0x85 || code == 0xa0 || code
        == 0x1680 || (0x2000 <= code && code <= 0x200a) || code == 0x2028 || code == 0x2029
        || code == 0x202f || code == 0x205f || code == 0x3000
}

/// Whether a text is white space throughout.
pub fn blank(text: &str) -> (r: bool)
    ensures
        r == is_blank(text@),
{
    let n = text.unicode_len();
    let mut i: usize = 0;
    while i < n
        invariant
            n == text@.len(),
            i <= n,
            forall|k: int| 0 <= k < i ==> is_white_space(#[trigger] text@[k]),
        decreases n - i,
    {
        if !white_space(text.get_char(i)) {
            return false;
        }
        i += 1;
    }
    true
}

/// The name of the data file to load, if there is one to load: the
/// description must ask for it, and then `present` is asked whether the
/// file is there. A file that is not asked for is not looked for.
pub fn resolve_data_path<'a, P: FnOnce(&str) -> bool>(
    exists_flag: bool,
    file_name: &'a str,
    present: P,
) -> (found: Option<&'a str>)
    requires
        asks_for(exists_flag, file_name@) ==> call_requires(present, (file_name,)),
    ensures
        found is Some ==> found->0@ == file_name@ && asks_for(exists_flag, file_name@)
            && call_ensures(present, (file_name,), true),
        found is None ==> !asks_for(exists_flag, file_name@) || call_ensures(
            present,
            (file_name,),
            false,
        ),
{
    if !exists_flag || blank(file_name) {
        return None;
    }
    if present(file_name) {
        Some(file_name)
    } else {
        None
    }
}

/// Loads a data file where the description asks for one and it is there.
/// A table that is not asked for, or whose file is absent, is no error:
/// there is no table then. What `load` reports of a file that is there is
/// handed on.
pub fn maybe_load<T, E, P: FnOnce(&str) -> bool, L: FnOnce(&str) -> Result<T, E>>(
    exists_flag: bool,
    file_name: &str,
    present: P,
    load: L,
) -> (loaded: Result<Option<T>, E>)
    requires
        asks_for(exists_flag, file_name@) ==> call_requires(present, (file_name,)),
        asks_for(exists_flag, file_name@) ==> call_requires(load, (file_name,)),
    ensures
        !asks_for(exists_flag, file_name@) ==> loaded == Ok::<Option<T>, E>(None),
        asks_for(exists_flag, file_name@) ==> {
            ||| loaded == Ok::<Option<T>, E>(None) && call_ensures(present, (file_name,), false)
            ||| call_ensures(present, (file_name,), true) && exists|outcome: Result<T, E>|
                call_ensures(load, (file_name,), outcome) && loaded == match outcome {
                    Ok(table) => Ok::<Option<T>, E>(Some(table)),
                    Err(e) => Err(e),
                }
        },
{
    match resolve_data_path(exists_flag, file_name, present) {
        Some(name) => {
            let outcome = load(file_name);
            match outcome {
                Ok(table) => Ok(Some(table)),
                Err(e) => Err(e),
            }
        },
        None => Ok(None),
    }
}

} // verus!
