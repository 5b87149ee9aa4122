#![allow(non_camel_case_types, non_snake_case)]

pub mod consensus;
pub mod laws;
pub mod rpc;
pub mod server;
pub mod types;
