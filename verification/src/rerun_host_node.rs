//! Configuration of the Rerun visualisation host node, its error text, and the
//! channel reordering it applies to BGR frames before logging them as RGB.

use vstd::prelude::*;
use vstd::string::*;
use crate::error::DepthaiError;

verus! {

/// Web viewer settings: address and port to serve on, whether to open a
/// browser, and the gRPC address the viewer connects to (the default when
/// `None`).
#[derive(Debug)]
pub struct RerunWebConfig {
    pub bind_ip: String,
    pub web_port: u16,
    pub open_browser: bool,
    pub connect_url: Option<String>,
}

impl Default for RerunWebConfig {
    /// Serves on all interfaces ("0.0.0.0") on a port the system picks (0), opens
    /// a browser, and connects to the default address.
    fn default() -> (r: Self)
        ensures
            r.bind_ip@ == "0.0.0.0"@,
            r.web_port == 0,
            r.open_browser,
            r.connect_url is None,
    {
        RerunWebConfig {
            bind_ip: "0.0.0.0".to_string(),
            web_port: 0,
            open_browser: true,
            connect_url: None,
        }
    }
}

/// Which viewer receives the logged frames.
#[derive(Debug)]
pub enum RerunViewer {
    Web(RerunWebConfig),
    Native,
}

/// Settings of a Rerun host node: application id, entity path the frames are
/// logged under, viewer, and name of the node's input.
#[derive(Debug)]
pub struct RerunHostNodeConfig {
    pub app_id: String,
    pub entity_path: String,
    pub viewer: RerunViewer,
    pub input_name: String,
}

impl Default for RerunHostNodeConfig {
    /// Application "depthai_rerun", entity "camera", the default web viewer, and
    /// input "in".
    fn default() -> (r: Self)
        ensures
            r.app_id@ == "depthai_rerun"@,
            r.entity_path@ == "camera"@,
            r.viewer matches RerunViewer::Web(w) && w.bind_ip@ == "0.0.0.0"@ && w.web_port == 0
                && w.open_browser && w.connect_url is None,
            r.input_name@ == "in"@,
    {
        RerunHostNodeConfig {
            app_id: "depthai_rerun".to_string(),
            entity_path: "camera".to_string(),
            viewer: RerunViewer::Web(RerunWebConfig::default()),
            input_name: "in".to_string(),
        }
    }
}

/// Error for a failure reported by the Rerun SDK: "rerun error: " and its text.
pub fn rerun_err(err: &str) -> (e: DepthaiError)
    ensures
        e@ == "rerun error: "@ + err@,
{
    let mut s = String::from_str("rerun error: ");
    s.append(err);
    DepthaiError::from_string(s)
}

/// Byte `i` of a BGR image after reordering to RGB: within each complete 3-byte
/// pixel the first and third bytes trade places; bytes of a trailing partial
/// pixel stay.
pub open spec fn rgb_byte(bgr: Seq<u8>, i: int) -> u8 {
    if i < (bgr.len() / 3) * 3 {
        if i % 3 == 0 {
            bgr[i + 2]
        } else if i % 3 == 2 {
            bgr[i - 2]
        } else {
            bgr[i]
        }
    } else {
        bgr[i]
    }
}

/// A BGR image reordered to RGB.
pub open spec fn rgb_of_bgr(bgr: Seq<u8>) -> Seq<u8> {
    Seq::new(bgr.len(), |i: int| rgb_byte(bgr, i))
}

proof fn lemma_chunk_index(j: int, k: int)
    requires
        0 <= j,
        0 <= k < 3,
    ensures
        (3 * j + k) % 3 == k,
        (3 * j + k) / 3 == j,
{
    assert((3 * j + k) % 3 == k && (3 * j + k) / 3 == j) by (nonlinear_arith)
        requires
            0 <= j,
            0 <= k < 3,
    ;
}

proof fn lemma_byte_chunk(i: int)
    requires
        0 <= i,
    ensures
        i == 3 * (i / 3) + i % 3,
        0 <= i % 3 < 3,
{
    assert(i == 3 * (i / 3) + i % 3 && 0 <= i % 3 < 3) by (nonlinear_arith)
        requires
            0 <= i,
    ;
}

/// Reorders 8-bit BGR pixel data to RGB by swapping the first and third byte
/// of every complete pixel.
pub fn bgr_to_rgb(bgr: Vec<u8>) -> (rgb: Vec<u8>)
    ensures
        rgb@ == rgb_of_bgr(bgr@),
{
    let ghost orig = bgr@;
    let mut v = bgr;
    let len = v.len();
    let mut c: usize = 0;
    let ghost mut j: int = 0;
    while len - c >= 3
        invariant
            len == v@.len(),
            len == orig.len(),
            c == 3 * j,
            0 <= j,
            c <= len,
            forall|i: int| 0 <= i < c ==> #[trigger] v@[i] == rgb_byte(orig, i),
            forall|i: int| c <= i < len ==> #[trigger] v@[i] == orig[i],
        decreases len - c,
    {
        proof {
            lemma_chunk_index(j, 0);
            lemma_chunk_index(j, 1);
            lemma_chunk_index(j, 2);
            assert(3 * j + 3 <= len);
            assert(3 * (j + 1) <= 3 * (len / 3)) by (nonlinear_arith)
                requires
                    3 * j + 3 <= len,
                    0 <= j,
            ;
        }
        let first = v[c];
        let third = v[c + 2];
        v.set(c, third);
        v.set(c + 2, first);
        c = c + 3;
        proof {
            j = j + 1;
        }
    }
    proof {
        assert(j == len / 3) by (nonlinear_arith)
            requires
                c == 3 * j,
                c <= len,
                len < c + 3,
                0 <= j,
        ;
        assert forall|i: int| 0 <= i < len implies #[trigger] v@[i] == rgb_byte(orig, i) by {
            if i >= c {
                assert(v@[i] == orig[i]);
            }
        }
    }
    assert(v@ =~= rgb_of_bgr(orig));
    v
}

/// Reordering BGR to RGB twice gives the original bytes back.
pub proof fn lemma_bgr_to_rgb_involution(bgr: Seq<u8>)
    ensures
        rgb_of_bgr(rgb_of_bgr(bgr)) == bgr,
{
    let once = rgb_of_bgr(bgr);
    assert forall|i: int| 0 <= i < bgr.len() implies #[trigger] rgb_byte(once, i) == bgr[i] by {
        lemma_byte_chunk(i);
        let j = i / 3;
        let k = i % 3;
        if i < (bgr.len() / 3) * 3 {
            if k == 0 {
                lemma_chunk_index(j, 2);
                assert(3 * j + 2 < (bgr.len() / 3) * 3) by (nonlinear_arith)
                    requires
                        3 * j < (bgr.len() / 3) * 3,
                ;
            } else if k == 2 {
                lemma_chunk_index(j, 0);
            }
        }
    }
    assert(rgb_of_bgr(once) =~= bgr);
}

} // verus!
