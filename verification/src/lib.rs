//! Session control: one agent session takes control of another, and
//! orchestrators drive a goal to completion through a brain session.
//!
//! The library never reaches the host. A computation is given the answers
//! received so far ([`host::Host`]), writes down each request it makes, and
//! stops at the first one without an answer. Its contract says, for every
//! sequence of answers, which requests are made and what comes out, through a
//! spec function whose name ends in `_run`. Modules whose names end in `_laws`
//! hold what is true across functions.

pub mod approval_laws;
pub mod authorize;
pub mod brain_laws;
pub mod control;
pub mod control_laws;
pub mod dispatch_laws;
pub mod edit_laws;
pub mod engine;
pub mod engine_laws;
pub mod fire_laws;
pub mod hooks;
pub mod host;
pub mod host_laws;
pub mod json;
pub mod manifest;
pub mod named;
pub mod orch_tools;
pub mod page;
pub mod page_html;
pub mod page_laws;
pub mod prompt_laws;
pub mod record_laws;
pub mod records;
pub mod replay_laws;
pub mod state;
pub mod storage_laws;
pub mod store_laws;
pub mod surface_laws;
pub mod text;
pub mod text_laws;
pub mod tick_laws;
pub mod time;
pub mod tool_laws;
