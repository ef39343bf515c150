//! The network configuration: its shape, its defaults, and how the bytes of
//! the configuration file are framed.

use vstd::prelude::*;
use vstd::utf8::valid_utf8;

verus! {

/// Address settings of one interface, by name.
#[derive(Debug, Clone)]
pub struct NetworkInterfaceConfig {
    pub name: String,
    /// The address, dotted.
    pub ipv4: String,
    /// Length of the network prefix.
    pub mask: u8,
    /// The default gateway, dotted, if the interface has one.
    pub gateway: Option<String>,
}

/// The prefix length of an interface whose settings give none.
pub fn default_mask() -> (mask: u8)
    ensures
        mask == 24,
{
    24
}

/// One route of the global table.
#[derive(Debug, Clone)]
pub struct RouteConfig {
    /// The destination network, dotted.
    pub dest: String,
    /// Length of the destination's prefix.
    pub mask: u8,
    /// The next hop, dotted.
    pub via: String,
}

/// The whole configuration.
#[derive(Debug, Clone)]
pub struct NetworkConfig {
    /// Byte budget of the packet pool.
    pub buffer_size: usize,
    pub interfaces: Vec<NetworkInterfaceConfig>,
    pub routes: Vec<RouteConfig>,
}

/// The packet pool's byte budget where the configuration gives none: 1 MiB.
pub fn default_buffer_size() -> (size: usize)
    ensures
        size == 1024 * 1024,
{
    1024 * 1024
}

/// The pool budget that applies: the configuration's, or the default where
/// there is no configuration.
pub open spec fn effective_buffer_size(config: Option<NetworkConfig>) -> usize {
    match config {
        Some(c) => c.buffer_size,
        None => (1024 * 1024) as usize,
    }
}

/// Whether the text of a configuration file ends at `end`: no byte before it
/// is zero, and it is the place of the first zero byte or the end of the
/// data.
pub open spec fn text_ends_at(data: Seq<u8>, end: int) -> bool {
    &&& 0 <= end <= data.len()
    &&& forall|i: int| 0 <= i < end ==> data[i] != 0
    &&& end < data.len() ==> data[end] == 0
}

/// The text of a configuration file ends in one place only.
pub proof fn lemma_text_end_is_unique(data: Seq<u8>, a: int, b: int)
    requires
        text_ends_at(data, a),
        text_ends_at(data, b),
    ensures
        a == b,
{
    if a < b {
        assert(data[a] != 0);
    } else if b < a {
        assert(data[b] != 0);
    }
}

/// `core::str::from_utf8`, asked only whether it succeeds: it does on the
/// byte strings that are valid UTF-8.
#[verifier::external_body]
fn is_utf8(data: &[u8]) -> (valid: bool)
    ensures
        valid == valid_utf8(data@),
{
    core::str::from_utf8(data).is_ok()
}

/// Frames the configuration file in the bytes that were mapped for it. The
/// file is text up to the first zero byte, and is read only where all the
/// mapped bytes are valid UTF-8; otherwise there is no configuration.
/// Returns the length of the text.
pub fn config_text_len(data: &[u8]) -> (end: Option<usize>)
    ensures
        valid_utf8(data@) <==> end is Some,
        end matches Some(n) ==> text_ends_at(data@, n as int),
{
    if !is_utf8(data) {
        return None;
    }
    let mut i: usize = 0;
    while i < data.len() && data[i] != 0
        invariant
            i <= data.len(),
            forall|j: int| 0 <= j < i ==> data@[j] != 0,
        decreases data.len() - i,
    {
        i = i + 1;
    }
    Some(i)
}

} // verus!
