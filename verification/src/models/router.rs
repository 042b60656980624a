//! The exchange router and the pair factory behind it.

use vstd::prelude::*;

use crate::config::Config;
use crate::types::Address;

verus! {

/// The router that swaps go through, with its factory.
#[derive(Clone, Copy, Debug, PartialEq, Eq)]
pub struct Router {
    pub address: Address,
    pub factory_address: Address,
}

impl Router {
    /// The configured router with the factory that it named when asked.
    pub fn new(config: &Config, factory_address: Address) -> (router: Router)
        ensures
            router.address == config.dex_router_address,
            router.factory_address == factory_address,
    {
        Router { address: config.dex_router_address, factory_address }
    }
}

} // verus!
