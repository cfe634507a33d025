//! A REST service that keeps the PTR records of BIND9 zones: the records are
//! stored in PostgreSQL, written to the DNS server with signed dynamic
//! updates, and a reconciler sets again any record that the server lost.
//!
//! The library holds the decisions; the program in `app/` carries out the
//! network and database traffic that they call for.

pub mod address;
pub mod config;
pub mod db;
pub mod dns_client;
pub mod dns_proto;
pub mod reconciler;
pub mod routes;
pub mod text;
