//! The common data layer's logic: the edge registry's request handling, the
//! API's and command service's decisions, gRPC routing and the status endpoints.
pub mod ids;
pub mod text;
pub mod json;
pub mod rpc_status;
pub mod edge_registry;
pub mod status_endpoints;
pub mod grpc_routes;
pub mod api;
pub mod command_service;
pub mod object_builder;
pub mod schema_registry;
pub mod rpc_client;
