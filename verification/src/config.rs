//! What the service is started with: where the store is, and the port on
//! which the service listens.

use vstd::prelude::*;

verus! {

/// The store's address where none is configured.
pub const DEFAULT_STORE_ADDRESS: &'static str = "mongodb://mongodb:27017";

/// The port where none is configured.
pub const DEFAULT_PORT: u16 = 8000;

/// A configuration as contracts speak of it.
pub struct ConfigView {
    pub store_address: Seq<char>,
    pub port: u16,
}

/// The settings of one run of the service.
#[derive(Debug, PartialEq, Eq)]
pub struct Config {
    /// The connection string that names the store's network location.
    pub store_address: String,
    /// The port to listen on.
    pub port: u16,
}

impl View for Config {
    type V = ConfigView;

    open spec fn view(&self) -> ConfigView {
        ConfigView { store_address: self.store_address@, port: self.port }
    }
}

/// The configuration that `resolve` gives.
pub open spec fn resolved(store_address: Option<Seq<char>>, port: Option<u16>) -> ConfigView {
    ConfigView {
        store_address: match store_address {
            Some(address) => address,
            None => DEFAULT_STORE_ADDRESS@,
        },
        port: match port {
            Some(port) => port,
            None => DEFAULT_PORT,
        },
    }
}

/// A configured address, as contracts speak of it.
pub open spec fn address_view(store_address: Option<String>) -> Option<Seq<char>> {
    match store_address {
        Some(address) => Some(address@),
        None => None,
    }
}

impl Config {
    /// Each setting as configured, or its default where it is not.
    pub fn resolve(store_address: Option<String>, port: Option<u16>) -> (config: Config)
        ensures
            config@ == resolved(address_view(store_address), port),
    {
        let store_address = match store_address {
            Some(address) => address,
            None => DEFAULT_STORE_ADDRESS.to_owned(),
        };
        let port = match port {
            Some(port) => port,
            None => DEFAULT_PORT,
        };
        Config { store_address, port }
    }
}

} // verus!
