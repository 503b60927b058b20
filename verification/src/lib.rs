//! A zero-cost, table-driven logging core for resource-constrained devices.
//!
//! No message text exists in the running image: every call site is assigned,
//! at build time, a one-byte ordinal inside its severity level's table, and a
//! log event is the transmission of that single byte. The tables themselves
//! live only in the compiled artifact's metadata, where an offline decoder
//! inverts the encoding back to level and text.
//!
//! The crate is organised along the pipeline:
//! - [`level`]: the severity lattice and the build-time filter threshold;
//! - [`site`]: call-site records and their disambiguation keys;
//! - [`registry`]: the build-time pass that assigns ordinals and rejects
//!   duplicate or overflowing tables;
//! - [`builder`]: the driver that turns collected call sites into an
//!   artifact, and the round-trip law over the whole pass;
//! - [`artifact`]: the frozen metadata and the host-side decode contract;
//! - [`transport`]: the byte-sink capabilities (local and global);
//! - [`encoder`]: the runtime filter-then-emit step;
//! - [`dispatch`]: the single-writer, then frozen, global logger slot;
//! - [`errors`]: the failure taxonomy, by stage.

pub mod artifact;
pub mod builder;
pub mod dispatch;
pub mod encoder;
pub mod errors;
pub mod level;
pub mod registry;
pub mod site;
pub mod transport;

pub use artifact::Artifact;
pub use builder::build_artifact;
pub use dispatch::GlobalSlot;
pub use encoder::emit;
pub use errors::BuildError;
pub use errors::DecodeError;
pub use errors::LinkError;
pub use level::FilterConfig;
pub use level::Level;
pub use level::Profile;
pub use level::max_level;
pub use registry::Registry;
pub use site::CallSite;
pub use site::CallSiteRecord;
pub use site::SourceLocation;
pub use transport::GlobalLog;
pub use transport::RecordingSink;
pub use transport::Log;
