//! Bridge to terminal-based tooling — running commands and opening text
//! editors from within the hub. The process handling lives in the
//! embedding application; the service is its named surface.

use vstd::prelude::*;

verus! {

/// Terminal bridge service.
pub struct TerminalBridgeService;

} // verus!
