//! The storage accessor bridge: what the external runtime may do with the
//! host's indexes through an access token, and how values travel back.

pub mod binary_data;
pub mod common;
pub mod list_index;
pub mod map_index;
pub mod proof_list_index;
pub mod proof_map_index;
