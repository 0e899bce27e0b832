//! Configuration and entry point of a TypeScript and JavaScript formatter built on
//! dprint's TypeScript plugin.
//!
//! A configuration is written as a [`PyConfiguration`], whose closed-set settings are
//! tokens; [`PyConfiguration::resolve`] validates them into a typed [`ResolvedConfiguration`].
//! [`PyConfigurationBuilder`] drafts engine settings one property at a time, and
//! [`format_text_py`] formats a file.
use vstd::prelude::*;

pub mod configuration;
pub mod configuration_builder;
pub mod engine;
pub mod format_text;
pub mod options;
pub mod text;

pub use configuration::{ConfigError, ConfigValue, ResolvedConfiguration, PyConfiguration};
pub use configuration_builder::PyConfigurationBuilder;
pub use format_text::{format_text_py, FormatError, PyFormatTextOptions};

verus! {

} // verus!
