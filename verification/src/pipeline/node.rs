//! Names that go to the native layer as C strings: a name that holds a NUL
//! character cannot be passed, and the operation that needed it fails with the
//! error its context calls for.

use vstd::prelude::*;
use vstd::string::*;
use crate::error::{last_error, pending_text, reported_message, DepthaiError};

verus! {

/// `s` holds a NUL character, which a C string cannot carry.
pub open spec fn has_nul(s: Seq<char>) -> bool {
    exists|i: int| 0 <= i < s.len() && s[i] == '\0'
}

/// A name that is present and cannot become a C string.
pub open spec fn bad_name(name: Option<&str>) -> bool {
    match name {
        Some(n) => has_nul(n@),
        None => false,
    }
}

/// Context of the first name of a link that cannot become a C string, taken in
/// the order output name, input name, output group, input group; `None` when
/// every present name can.
pub open spec fn first_bad_link_name(
    out_group: Option<&str>,
    out_name: Option<&str>,
    in_group: Option<&str>,
    in_name: Option<&str>,
) -> Option<Seq<char>> {
    if bad_name(out_name) {
        Some("invalid out_name"@)
    } else if bad_name(in_name) {
        Some("invalid in_name"@)
    } else if bad_name(out_group) {
        Some("invalid out_group"@)
    } else if bad_name(in_group) {
        Some("invalid in_group"@)
    } else {
        None
    }
}

/// Whether `s` can be handed to the native layer as a C string: it holds no
/// NUL character.
pub fn is_c_compatible(s: &str) -> (r: bool)
    ensures
        r == !has_nul(s@),
{
    let n = s.unicode_len();
    let mut i: usize = 0;
    while i < n
        invariant
            n == s@.len(),
            i <= n,
            forall|k: int| 0 <= k < i ==> s@[k] != '\0',
        decreases n - i,
    {
        if s.get_char(i) == '\0' {
            return false;
        }
        i = i + 1;
    }
    true
}

fn name_ok(name: Option<&str>) -> (r: bool)
    ensures
        r == !bad_name(name),
{
    match name {
        Some(n) => is_c_compatible(n),
        None => true,
    }
}

/// Checks a name before it goes to the native layer: `Ok` when it is absent or
/// can become a C string, else the error for `context`, which reports the
/// native layer's pending message `pending` when there is a non-empty one.
pub fn check_c_name(
    name: Option<&str>,
    context: &str,
    pending: Option<String>,
) -> (r: Result<(), DepthaiError>)
    ensures
        r is Ok <==> !bad_name(name),
        r matches Err(e) ==> e@ == reported_message(context@, pending_text(pending)),
{
    if name_ok(name) {
        Ok(())
    } else {
        Err(last_error(context, pending))
    }
}

/// Checks the names of a link between two nodes in the order output name,
/// input name, output group, input group, and fails on the first that cannot
/// become a C string with the error for its context ("invalid out_name",
/// "invalid in_name", "invalid out_group" or "invalid in_group").
pub fn check_link_names(
    out_group: Option<&str>,
    out_name: Option<&str>,
    in_group: Option<&str>,
    in_name: Option<&str>,
    pending: Option<String>,
) -> (r: Result<(), DepthaiError>)
    ensures
        r is Ok <==> first_bad_link_name(out_group, out_name, in_group, in_name) is None,
        r matches Err(e) ==> (first_bad_link_name(out_group, out_name, in_group, in_name)
            matches Some(ctx) && e@ == reported_message(ctx, pending_text(pending))),
{
    if !name_ok(out_name) {
        return Err(last_error("invalid out_name", pending));
    }
    if !name_ok(in_name) {
        return Err(last_error("invalid in_name", pending));
    }
    if !name_ok(out_group) {
        return Err(last_error("invalid out_group", pending));
    }
    if !name_ok(in_group) {
        return Err(last_error("invalid in_group", pending));
    }
    Ok(())
}

} // verus!
