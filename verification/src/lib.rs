//! Decision core of the OwnMesh device daemon.
pub mod admin;
pub mod admin_requests;
pub mod approvals;
pub mod approve;
pub mod base64;
pub mod broker;
pub mod codec;
pub mod control_plane;
pub mod custody;
pub mod dispatch;
pub mod error;
pub mod exec;
pub mod gate;
pub mod grants;
pub mod ids;
pub mod journal;
pub mod journal_laws;
pub mod journal_load;
pub mod json;
pub mod lifecycle;
pub mod live_output;
pub mod ops;
pub mod params;
pub mod paths;
pub mod principal;
pub mod registry;
pub mod review;
pub mod review_flow;
pub mod runtime;
pub mod sidecar;
pub mod state_files;
pub mod text;
pub mod textset;
pub mod transfer;
pub mod transition;
pub mod workspace;
