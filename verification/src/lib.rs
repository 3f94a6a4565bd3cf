//! The rules by which plugins that follow the CLAP interface are validated.
//!
//! - [`host`], [`callbacks`] and [`instance`]: a host that checks on which threads plugins call
//!   it. [`host_laws`] states what holds of it as a whole.
//! - [`plugin`], [`params`] and [`messages`]: reading a plugin's parameters and checking that they
//!   are consistent. [`param_laws`] states what holds of them as a whole.
//! - [`text`] and [`double`]: strings that cross a C interface, and double precision numbers.
//! - [`clap`]: the constants of the interface.
//! - [`call_laws`]: what holds of single calls, and of calls in relation to one another.
pub mod call_laws;
pub mod callbacks;
pub mod clap;
pub mod double;
pub mod host;
pub mod host_laws;
pub mod instance;
pub mod messages;
pub mod param_laws;
pub mod params;
pub mod plugin;
pub mod text;
