//! CLI support utilities: the sysexits exit-code taxonomy, environment
//! variable normalization, and XDG base-directory fallback rules.

pub mod envs;
pub mod options;
pub mod paths;
pub mod sysexits;

pub use options::StandardOptions;
pub use sysexits::IoErrorKind;
pub use sysexits::SysexitsError;
pub use sysexits::SysexitsResult;
pub use sysexits::classify_generic_failure;
pub use sysexits::classify_io_error;
