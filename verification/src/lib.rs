//! Storage-provisioning core of a guest-side sandbox agent.
//!
//! The library decides, by declared driver string, which handler produces a
//! mounted resource, prepares image pulls into per-container bundle
//! directories, assembles secure-mount requests for confidential volumes, and
//! reconciles image-supplied OCI runtime metadata into a host-supplied
//! container spec.  Everything that suspends or touches the outside world
//! (filesystem creation, the pull engine, the secure-mount round trip) is left
//! to the surrounding runtime: the functions here take the outcome of such a
//! step as a value and decide what follows from it.
//!
//! - [`dispatch`]: driver string → unique handler, `UnsupportedDriver` otherwise
//! - [`handler`]: the capability interface and the confidential strategies
//! - [`image`]: bundle paths, pull environment, the image → container registry
//! - [`oci`]: folding image process defaults into the container spec
//! - [`secure`]: secure-mount requests and the produced device handle
//! - [`request`], [`strutil`], [`error`]: requests, `key=value` text, failures

pub mod dispatch;
pub mod error;
pub mod handler;
pub mod image;
pub mod oci;
pub mod request;
pub mod secure;
pub mod strutil;

use vstd::prelude::*;

verus! {

} // verus!
