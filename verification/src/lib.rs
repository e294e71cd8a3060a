//! The bridge between a host blockchain's service dispatcher and a language
//! runtime that lives in another process: status codes and the errors they
//! stand for, boundary forms of the host's data, the record of deployments
//! in flight, the lifecycle adapter, and access to the host's storage.

pub mod errors;
pub mod host;
pub mod merkledb_interface;
pub mod pending_deployment;
pub mod python_interface;
pub mod runtime;
pub mod types;

pub use crate::merkledb_interface::list_index::merkledb_list_index;
pub use crate::merkledb_interface::map_index::merkledb_map_index;
pub use crate::merkledb_interface::proof_list_index::merkledb_proof_list_index;
pub use crate::merkledb_interface::proof_map_index::merkledb_proof_map_index;
pub use crate::python_interface::get_snapshot_token;
pub use crate::runtime::initialize_python_backend;
pub use crate::runtime::PythonRuntime;
