//! Request authorization and order-submission orchestration for a storefront
//! gateway.
//!
//! The crate holds the decisions of the gateway and none of its I/O: which
//! role a credential yields, which roles may invoke which operation, what an
//! abuse-check reply means, and in which order the abuse gate, the order
//! backend and the operator notifier are consulted for one submission. A
//! driver performs the calls that the orchestrator asks for and hands back
//! what came of them.

pub mod abuse;
pub mod capability;
pub mod entity;
pub mod error;
pub mod gateway;
pub mod grant;
pub mod history;
pub mod notifier;
pub mod orchestrator;
pub mod response;
