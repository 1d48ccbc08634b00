//! Site resolution for a static file server that hosts many sites, one per
//! hostname, and the routing configuration it publishes for a reverse proxy.
//!
//! The library never touches the disk. Every operation that needs the disk is
//! a small state machine: it hands out a [`disk::Request`], the caller
//! performs it and hands back the [`disk::Reply`]. What an operation comes to
//! on a given disk is stated once, as a function of the disk, and proved of
//! the machine:
//!
//! - [`files`] holds an entry to its root;
//! - [`site`] makes a site from its directory and finds the file of a
//!   request path, never outside the site and never the site's settings file;
//! - [`registry`] finds the site of a hostname and lists all sites;
//! - [`serve`] answers a request, given its host and path;
//! - [`traefik`] builds the routing configuration of the listed sites.

pub mod auth;
pub mod disk;
pub mod files;
pub mod json;
pub mod path;
pub mod registry;
pub mod routes;
pub mod serve;
pub mod settings;
pub mod site;
pub mod site_config;
pub mod text;
pub mod traefik;
pub mod utils;
