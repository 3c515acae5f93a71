//! The durable work store of a terminal gateway: tasks, attempts, operations, results,
//! delegation and the rules that admit or refuse each request.
pub mod digest;
pub mod json;
pub mod text;
pub mod value;
pub mod work;
pub mod work_actor;
pub mod work_artifacts;
pub mod work_authority;
pub mod work_delegation;
pub mod work_events;
pub mod work_execution;
pub mod work_http;
pub mod work_inputs;
pub mod work_interrupt;
