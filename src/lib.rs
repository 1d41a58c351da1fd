//! Enumeration of the virtual machines that a hypervisor's management
//! service knows about.
//!
//! The native calls (runtime initialisation, the connection, the query and
//! its cursor, reading and formatting a field) are made by the caller; this
//! library holds every decision taken between them: when the runtime must be
//! torn down, which failures of a field read are normal variability and which
//! are fatal, which query is sent, and which names a cursor walk yields.
#![allow(unused_imports)]

pub mod error;
pub mod field;
pub mod query;
pub mod scan;
pub mod subsystem;

pub use error::HyperVError;
pub use field::{extract_field, FieldValue, RawField, DISP_E_TYPEMISMATCH, WBEM_E_NOT_FOUND};
pub use scan::{CursorStep, NameScan};
pub use subsystem::{Phase, Subsystem};
pub use query::{vm_query, VmFilter, NAME_FIELD, NAMESPACE, QUERY_LANGUAGE};
