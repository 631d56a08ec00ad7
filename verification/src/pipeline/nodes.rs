//! Settings and enumerations of the pipeline's node kinds, the host-side nodes
//! that carry them, and the bookkeeping of the streams bound to node ports.

pub mod camera;
pub mod depth;
pub mod input;
pub mod manip;
pub mod mono_camera;
pub mod neural_network;
pub mod output;

use vstd::prelude::*;

verus! {

/// The texts of a list of strings, in order.
pub open spec fn texts(v: Seq<String>) -> Seq<Seq<char>> {
    v.map_values(|s: String| s@)
}

/// The stream bound to a port as a list: empty for an unbound port.
pub open spec fn bound(port: Option<String>) -> Seq<Seq<char>> {
    match port {
        Some(s) => seq![s@],
        None => Seq::empty(),
    }
}

/// The text of the stream bound to a port, if any.
pub open spec fn port_text(port: Option<String>) -> Option<Seq<char>> {
    match port {
        Some(s) => Some(s@),
        None => None,
    }
}

/// Appends the stream bound to `port`, if there is one, to `v`.
pub fn push_bound(v: &mut Vec<String>, port: &Option<String>)
    ensures
        texts(final(v)@) == texts(old(v)@) + bound(*port),
{
    match port {
        Some(s) => {
            v.push(s.clone());
            assert(texts(v@) =~= texts(old(v)@) + bound(*port));
        },
        None => {
            assert(texts(v@) =~= texts(old(v)@) + bound(*port));
        },
    }
}

} // verus!
