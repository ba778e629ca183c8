//! What one generation pass works on: the resolved options and the component.

use crate::config::{Config, ConfigView};
use crate::interface::ComponentInterface;
use vstd::prelude::*;

verus! {

/// The options and the interface of one generation pass. The interface is
/// borrowed for the pass and never changed.
pub struct KotlinWrapper<'a> {
    config: Config,
    ci: &'a ComponentInterface,
}

impl<'a> KotlinWrapper<'a> {
    /// The options of the pass.
    pub closed spec fn config_view(&self) -> ConfigView {
        self.config@
    }

    /// The component of the pass.
    pub closed spec fn interface(&self) -> ComponentInterface {
        *self.ci
    }

    pub fn new(config: Config, ci: &'a ComponentInterface) -> (r: KotlinWrapper<'a>)
        ensures
            r.config_view() == config@,
            r.interface() == *ci,
    {
        KotlinWrapper { config, ci }
    }

    pub fn config(&self) -> (r: &Config)
        ensures
            r@ == self.config_view(),
    {
        &self.config
    }

    pub fn ci(&self) -> (r: &'a ComponentInterface)
        ensures
            *r == self.interface(),
    {
        self.ci
    }
}

} // verus!
