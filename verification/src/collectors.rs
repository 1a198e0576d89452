//! The adapter contract and the per-protocol adapters. Every adapter exposes
//! a fixed name and an enabled flag read from its configuration; running an
//! adapter — binding its transport and looping over inbound data — is the
//! surrounding process's job, driven by the decision functions each adapter
//! module provides.

use vstd::prelude::*;

verus! {

/// One protocol adapter as the supervisor sees it.
pub trait Collector: Sized {
    /// The adapter's fixed name, as a sequence of characters.
    spec fn spec_name(&self) -> Seq<char>;

    /// Whether the configuration enables this adapter.
    spec fn spec_enabled(&self) -> bool;

    /// The adapter's fixed name, under which its data reaches the broker.
    fn name(&self) -> (r: &'static str)
        ensures
            r@ == self.spec_name(),
    ;

    /// Whether the configuration enables this adapter.
    fn is_enable(&self) -> (r: bool)
        ensures
            r == self.spec_enabled(),
    ;
}

/// Builds one adapter from a captured configuration.
pub trait CollectorFactory: Sized {
    /// The adapter this factory builds.
    type Created: Collector;

    /// The name the built adapter will carry.
    spec fn spec_created_name(&self) -> Seq<char>;

    /// Whether the built adapter will be enabled.
    spec fn spec_created_enabled(&self) -> bool;

    /// Builds the adapter.
    fn create(&self) -> (c: Self::Created)
        ensures
            c.spec_name() == self.spec_created_name(),
            c.spec_enabled() == self.spec_created_enabled(),
    ;
}

} // verus!

pub mod bjig;
pub mod camera;
pub mod email;
pub mod grpc;
pub mod ibeacon;
pub mod mqtt;
pub mod serial;
pub mod tcp;
pub mod textfile;
pub mod webhook;
pub mod websocket;
