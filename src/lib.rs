// Account switching, offline launches and per-executable firewall blocks for game
// launchers: the login cache reader, the rule plans, the bounded waits and the launch
// flow, with their contracts.

pub mod accounts;
pub mod detect;
pub mod firewall;
pub mod games;
pub mod launch;
pub mod polling;
pub mod text;
