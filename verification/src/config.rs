//! The two persisted preferences the panel mirrors: the selected exit-node
//! index and the LAN-access flag.

use vstd::prelude::*;

verus! {

/// The persisted configuration record.
#[derive(Debug, Clone, Copy, PartialEq, Eq, Structural)]
pub struct TailscaleConfig {
    pub exit_node_idx: usize,
    pub allow_lan: bool,
}

impl Default for TailscaleConfig {
    /// No exit node selected, LAN access off.
    fn default() -> (c: TailscaleConfig)
        ensures
            c.exit_node_idx == 0,
            !c.allow_lan,
    {
        TailscaleConfig { exit_node_idx: 0, allow_lan: false }
    }
}

} // verus!
