//! Revision resolution: the decisions around opening or cloning the
//! repository and naming the checked-out revision.

use crate::cli::CompileTarget;
use crate::text::{join_path, join_spec};
use vstd::prelude::*;

verus! {

/// Whether an environment value is set and not empty.
pub open spec fn usable(v: Option<String>) -> bool {
    v is Some && v->Some_0@.len() > 0
}

/// The proxy to clone through: the first of `HTTPS_PROXY`, `https_proxy`,
/// `ALL_PROXY`, `all_proxy` that is set and not empty.
pub open spec fn proxy_spec(
    https_upper: Option<String>,
    https_lower: Option<String>,
    all_upper: Option<String>,
    all_lower: Option<String>,
) -> Option<String> {
    if usable(https_upper) {
        https_upper
    } else if usable(https_lower) {
        https_lower
    } else if usable(all_upper) {
        all_upper
    } else if usable(all_lower) {
        all_lower
    } else {
        None
    }
}

fn is_usable(v: &Option<String>) -> (r: bool)
    ensures
        r == usable(*v),
{
    match v {
        Some(s) => s.as_str().unicode_len() > 0,
        None => false,
    }
}

/// Picks the HTTPS proxy from the values of `HTTPS_PROXY`, `https_proxy`,
/// `ALL_PROXY` and `all_proxy`, in that order.
pub fn get_https_proxy(
    https_upper: Option<String>,
    https_lower: Option<String>,
    all_upper: Option<String>,
    all_lower: Option<String>,
) -> (r: Option<String>)
    ensures
        r == proxy_spec(https_upper, https_lower, all_upper, all_lower),
{
    if is_usable(&https_upper) {
        https_upper
    } else if is_usable(&https_lower) {
        https_lower
    } else if is_usable(&all_upper) {
        all_upper
    } else if is_usable(&all_lower) {
        all_lower
    } else {
        None
    }
}

/// Where a fresh clone goes: a directory named after the variant inside the
/// working directory.
pub fn clone_destination(temp_dir: &str, target: &CompileTarget) -> (r: String)
    ensures
        r@ == join_spec(temp_dir@, target.name_spec()),
{
    let name = target.name();
    join_path(temp_dir, name.as_str())
}

/// How the repository's head follows a checkout.
#[derive(Debug, PartialEq, Eq)]
pub enum HeadUpdate {
    /// Point the head at the named reference.
    Attach(String),
    /// Detach the head at the object's identifier.
    Detach(String),
}

/// After checking out a resolved version: attach the head to the reference
/// it resolved through, if any, else detach it at the object.
pub fn head_update(reference: Option<String>, object_id: String) -> (r: HeadUpdate)
    ensures
        r == (match reference {
            Some(name) => HeadUpdate::Attach(name),
            None => HeadUpdate::Detach(object_id),
        }),
{
    match reference {
        Some(name) => HeadUpdate::Attach(name),
        None => HeadUpdate::Detach(object_id),
    }
}

/// The build identifier: the tag-based description of the revision when
/// one could be made, else the object's full identifier.
pub open spec fn build_identifier_spec(described: Option<String>, object_id: String) -> String {
    match described {
        Some(d) => d,
        None => object_id,
    }
}

/// Names the checked-out revision: the tag-based description when there
/// is one, else the full object identifier.
pub fn build_identifier(described: Option<String>, object_id: String) -> (r: String)
    ensures
        r == build_identifier_spec(described, object_id),
{
    match described {
        Some(d) => d,
        None => object_id,
    }
}

} // verus!
