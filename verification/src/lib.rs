//! Tool invocation and shared-state orchestration for fact-extracting agents.
//!
//! Extraction agents turn conversation text into tool calls. Each call is
//! decoded into typed arguments, applied to an append-only store of food
//! preferences and diet declarations, and answered with a tool result. Once
//! every extraction agent has finished, a snapshot of the store is rendered
//! into the prompt of a synthesis agent.
//!
//! Every function here is sequential and free of I/O: the caller performs the
//! generation requests and hands their responses back in.
//!
//! - [`facts`]: the records, and the names of their enumerated values.
//! - [`store`]: the append-only store and its snapshot.
//! - [`payload`]: the structured value that a tool call carries.
//! - [`decode`], [`encode`], [`round_trip`]: typed arguments from payloads and
//!   back, and what holds between the two.
//! - [`schema`], [`conformance`]: the description of a tool's arguments, and
//!   its agreement with the decoders.
//! - [`tool`], [`toolset`]: the two tools, and the dispatch of a call by name.
//! - [`agent`], [`turn_laws`]: one agent's turn, response by response.
//! - [`prompt`], [`pipeline`]: the prompts, and the sequencing of a run.
//! - [`text`]: small pieces of text.

pub mod agent;
pub mod conformance;
pub mod decode;
pub mod encode;
pub mod facts;
pub mod payload;
pub mod pipeline;
pub mod prompt;
pub mod round_trip;
pub mod schema;
pub mod store;
pub mod text;
pub mod tool;
pub mod toolset;
pub mod turn_laws;
