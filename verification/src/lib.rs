//! Core logic of a terminal torrent client: ranking of search results,
//! the bounded download history, and the interpretation of aria2 JSON-RPC
//! exchanges. Everything here is verified; network, file and terminal
//! work lives with the caller.

pub mod aria2_client;
pub mod history;
pub mod torrent_search;
pub mod session;
