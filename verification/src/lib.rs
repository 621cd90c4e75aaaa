//! Safe, verified core of a Zabbix loadable-module bridge.
//!
//! The host agent discovers probes through fixed-layout C records. This
//! library models those records as owned values (C strings as byte vectors)
//! and verifies the marshalling rules: descriptor arrays end in a sentinel,
//! string payloads become freshly built NUL-terminated buffers of exactly
//! `len + 1` bytes, and result tags accumulate by bitwise OR.

use vstd::prelude::*;

pub mod cstr;
pub mod metric;
pub mod probes;
pub mod request;
pub mod result;

pub use metric::create_items;
pub use metric::Metric;
pub use metric::ZbxError;
pub use metric::ZBX_METRIC;
pub use probes::rust_echo;
pub use probes::rust_random;
pub use probes::zbx_module_api_version;
pub use probes::zbx_module_init;
pub use probes::zbx_module_item_list;
pub use probes::zbx_module_uninit;
pub use request::AGENT_REQUEST;
pub use result::zbx_log_t;
pub use result::AGENT_RESULT;

verus! {

/// Return code a module gives the host when (un)initialisation succeeds.
pub const ZBX_MODULE_OK: i32 = 0;

/// Return code a module gives the host when (un)initialisation fails.
pub const ZBX_MODULE_FAIL: i32 = -1;

/// The one module API version this bridge speaks.
pub const ZBX_MODULE_API_VERSION_ONE: i32 = 1;

/// Item flag: the item takes no parameters.
pub const CF_NOPARAMS: u32 = 0;

/// Item flag: the item accepts optional or mandatory parameters.
pub const CF_HAVEPARAMS: u32 = 1;

/// Item flag: the item is defined in a loadable module.
pub const CF_MODULE: u32 = 2;

/// Item flag: the item is defined as a user parameter.
pub const CF_USERPARAMETER: u32 = 4;

/// Result tag bit: the unsigned 64-bit payload is populated.
pub const AR_UINT64: i32 = 1;

/// Result tag bit: the double payload is populated.
pub const AR_DOUBLE: i32 = 2;

/// Result tag bit: the short-string payload is populated.
pub const AR_STRING: i32 = 4;

/// Result tag bit: the long-text payload is populated.
pub const AR_TEXT: i32 = 8;

/// Result tag bit: the log payload is populated.
pub const AR_LOG: i32 = 16;

/// Result tag bit: the diagnostic-message payload is populated.
pub const AR_MESSAGE: i32 = 32;

/// Return code of a probe callback that answered the request.
pub const SYSINFO_RET_OK: i32 = 0;

/// Return code of a probe callback that could not answer the request.
pub const SYSINFO_RET_FAIL: i32 = 1;

} // verus!
