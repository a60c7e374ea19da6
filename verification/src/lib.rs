//! Verified core of the agent broker.
pub mod address;
pub mod big_endian;
pub mod broker;
pub mod call_laws;
pub mod client;
pub mod client_config;
pub mod client_error;
pub mod client_payloads;
pub mod cluster_config;
pub mod cluster_readiness;
pub mod cluster_tls;
pub mod command_identity;
pub mod command_sessions;
pub mod commands;
pub mod consensus;
pub mod consensus_snapshot;
pub mod debug_form;
pub mod domain;
pub mod durable_client;
pub mod durable_form_laws;
pub mod engine_laws;
pub mod error;
pub mod json;
pub mod member_laws;
pub mod one_node;
pub mod protocol;
pub mod raft_adapters;
pub mod raft_controller;
pub mod raft_errors;
pub mod raft_frames;
pub mod raft_log;
pub mod raft_proposal;
pub mod raft_startup;
pub mod raft_state_machine;
pub mod replicated_command;
pub mod replicated_proposal;
pub mod replicated_response;
pub mod response_frames;
pub mod results;
pub mod router;
pub mod router_config;
pub mod routing_laws;
pub mod rpc_server;
pub mod service;
pub mod session_laws;
pub mod session_rules;
pub mod session_snapshot;
pub mod session_state;
pub mod session_state_laws;
pub mod session_store;
pub mod snapshot_store;
pub mod standalone;
pub mod state_machine_laws;
pub mod term_sync;
pub mod text;
pub mod text_laws;
pub mod time_span;
pub mod tls_crypto;
pub mod value_laws;
