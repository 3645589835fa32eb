//! Queries of the Linux kernel's wireless state over generic netlink
//! (`nl80211`): the attribute codec, the request builder and the dump
//! state machine, with their contracts.

pub mod codec;
pub mod records;
pub mod request;
pub mod dump;
pub mod connection;
