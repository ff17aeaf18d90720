//! The command-line configuration and the checks it must pass before Vivi connects.

use vstd::prelude::*;
use crate::error::ErrorKind;

verus! {

/// The settings Vivi runs with. The zoom multiplier is held as the bit pattern of its IEEE-754
/// single-precision value.
#[derive(Debug, Clone)]
pub struct Config {
    pub files: Vec<String>,
    pub zoom_bits: u32,
    pub endpoint: Option<String>,
    pub bulk_endpoint: Option<String>,
    pub token: Option<String>,
    pub dry_run: bool,
    pub trace_dir: Option<String>,
    pub verbose: bool,
    pub no_wait: bool,
}

/// Reasons a configuration is refused.
#[derive(Debug, Clone, Copy, PartialEq, Eq, Structural)]
pub enum ConfigError {
    /// The zoom multiplier is not a finite number greater than zero.
    InvalidZoom,
    /// No presenter endpoint was given for a session that connects.
    MissingEndpoint,
    /// No capability token was given for a session that connects.
    MissingToken,
}

impl ConfigError {
    /// The I/O error kind under which the error is reported.
    pub open spec fn spec_kind(self) -> ErrorKind {
        match self {
            ConfigError::InvalidZoom => ErrorKind::InvalidInput,
            ConfigError::MissingEndpoint => ErrorKind::NotFound,
            ConfigError::MissingToken => ErrorKind::PermissionDenied,
        }
    }

    /// The I/O error kind under which the error is reported.
    pub fn kind(&self) -> (kind: ErrorKind)
        ensures
            kind == self.spec_kind(),
    {
        match self {
            ConfigError::InvalidZoom => ErrorKind::InvalidInput,
            ConfigError::MissingEndpoint => ErrorKind::NotFound,
            ConfigError::MissingToken => ErrorKind::PermissionDenied,
        }
    }
}

/// The IEEE-754 single-precision value with bit pattern `bits` is finite and greater than
/// zero: its sign bit is clear, it is not zero, and its exponent is not all ones (which marks
/// infinity and NaN).
pub open spec fn positive_finite_f32(bits: u32) -> bool {
    0 < bits < 0x7f80_0000
}

impl Config {
    /// The session builds its records without connecting to a presenter.
    pub open spec fn spec_is_dry_run(&self) -> bool {
        self.dry_run || self.trace_dir is Some
    }

    /// What validation decides: the zoom first, then, for a session that connects, the
    /// endpoint and the token.
    pub open spec fn spec_validate(&self) -> Result<(), ConfigError> {
        if !positive_finite_f32(self.zoom_bits) {
            Err(ConfigError::InvalidZoom)
        } else if !self.spec_is_dry_run() && self.endpoint is None {
            Err(ConfigError::MissingEndpoint)
        } else if !self.spec_is_dry_run() && self.token is None {
            Err(ConfigError::MissingToken)
        } else {
            Ok(())
        }
    }

    /// Checks the configuration before anything is opened.
    pub fn validate(&self) -> (result: Result<(), ConfigError>)
        ensures
            result == self.spec_validate(),
    {
        if !(0 < self.zoom_bits && self.zoom_bits < 0x7f80_0000) {
            return Err(ConfigError::InvalidZoom);
        }
        if !self.is_dry_run() && self.endpoint.is_none() {
            return Err(ConfigError::MissingEndpoint);
        }
        if !self.is_dry_run() && self.token.is_none() {
            return Err(ConfigError::MissingToken);
        }
        Ok(())
    }

    /// Whether the session builds its records without connecting: `--dry-run`, or a trace
    /// directory, which implies it.
    pub fn is_dry_run(&self) -> (dry_run: bool)
        ensures
            dry_run == self.spec_is_dry_run(),
    {
        self.dry_run || self.trace_dir.is_some()
    }
}

/// A dry run never needs an endpoint or a token: with a valid zoom it always validates.
pub proof fn law_dry_run_needs_no_credentials(config: Config)
    requires
        config.spec_is_dry_run(),
        positive_finite_f32(config.zoom_bits),
    ensures
        config.spec_validate() == Ok::<(), ConfigError>(()),
{
}

} // verus!
