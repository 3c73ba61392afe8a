//! SSH SOCKS tunnel management: server configuration, tunnel supervision,
//! SOCKS5 handshake, encrypted export bundles and core lifecycle decisions.
#![allow(unused_imports)]

pub mod text;
pub mod keyed;
pub mod status;
pub mod config;
pub mod supervisor;
pub mod socks;
pub mod crypto;
pub mod bundle;
pub mod registry;
pub mod logs;
pub mod manager;
pub mod transfer;
pub mod commands;
pub mod notification;
pub mod lifecycle;
