//! The storage dispatcher: from a request's declared driver string to the one
//! handler whose declared driver set contains it.
//!
//! No two registered handlers may claim the same driver string; that
//! configuration invariant is enforced at registration time, not at dispatch
//! time.  A request whose driver no handler claims fails with
//! `UnsupportedDriver` — it never silently falls through to a default.

use vstd::prelude::*;

use crate::error::StorageError;
use crate::handler::{
    ConfidentialStorageHandler, DeviceAction, ImagePullHandler, StorageHandler,
};
use crate::request::{StorageContext, StorageRequest};
use crate::strutil::str_eq;

verus! {

/// One registered handler, behind the shared capability interface.
pub enum RegisteredHandler {
    /// The confidential ephemeral/persistent volume handler.
    Confidential(ConfidentialStorageHandler),
    /// The image-guest-pull handler.
    ImagePull(ImagePullHandler),
}

impl StorageHandler for RegisteredHandler {
    open spec fn claims(&self, driver: Seq<char>) -> bool {
        match self {
            RegisteredHandler::Confidential(h) => h.claims(driver),
            RegisteredHandler::ImagePull(h) => h.claims(driver),
        }
    }

    open spec fn plan_ok(
        &self,
        req: &StorageRequest,
        ctx: &StorageContext,
        r: Result<DeviceAction, StorageError>,
    ) -> bool {
        match self {
            RegisteredHandler::Confidential(h) => h.plan_ok(req, ctx, r),
            RegisteredHandler::ImagePull(h) => h.plan_ok(req, ctx, r),
        }
    }

    fn driver_types(&self) -> (v: Vec<String>)
        ensures
            match self {
                RegisteredHandler::Confidential(_) => v@.len() == 2 && v@[0]@
                    == "confidential_ephemeral"@ && v@[1]@ == "confidential_persistent"@,
                RegisteredHandler::ImagePull(_) => v@.len() == 1 && v@[0]@
                    == "image_guest_pull"@,
            },
    {
        match self {
            RegisteredHandler::Confidential(h) => h.driver_types(),
            RegisteredHandler::ImagePull(h) => h.driver_types(),
        }
    }

    fn plan_device(&self, req: &StorageRequest, ctx: &StorageContext) -> (r: Result<
        DeviceAction,
        StorageError,
    >)
    {
        match self {
            RegisteredHandler::Confidential(h) => h.plan_device(req, ctx),
            RegisteredHandler::ImagePull(h) => h.plan_device(req, ctx),
        }
    }
}

/// A string of `b` that also stands in `a`, if the two lists share one.
fn common_driver(a: &Vec<String>, b: &Vec<String>) -> (r: Option<String>)
    ensures
        match r {
            Some(d) => exists|i: int, j: int|
                0 <= i < a@.len() && 0 <= j < b@.len() && a@[i]@ == d@ && b@[j]@ == d@,
            None => forall|i: int, j: int|
                0 <= i < a@.len() && 0 <= j < b@.len() ==> #[trigger] a@[i]@ != #[trigger] b@[j]@,
        },
{
    let mut i: usize = 0;
    while i < a.len()
        invariant
            0 <= i <= a@.len(),
            forall|k: int, j: int|
                0 <= k < i && 0 <= j < b@.len() ==> #[trigger] a@[k]@ != #[trigger] b@[j]@,
        decreases a@.len() - i,
    {
        let mut j: usize = 0;
        while j < b.len()
            invariant
                0 <= i < a@.len(),
                0 <= j <= b@.len(),
                forall|l: int| 0 <= l < j ==> a@[i as int]@ != #[trigger] b@[l]@,
            decreases b@.len() - j,
        {
            if str_eq(a[i].as_str(), b[j].as_str()) {
                return Some(b[j].clone());
            }
            j += 1;
        }
        i += 1;
    }
    None
}

/// Whether `d` stands in the list `v`.
fn list_claims(v: &Vec<String>, d: &str) -> (r: bool)
    ensures
        r == exists|i: int| 0 <= i < v@.len() && v@[i]@ == d@,
{
    let mut i: usize = 0;
    while i < v.len()
        invariant
            0 <= i <= v@.len(),
            forall|j: int| 0 <= j < i ==> #[trigger] v@[j]@ != d@,
        decreases v@.len() - i,
    {
        if str_eq(v[i].as_str(), d) {
            return true;
        }
        i += 1;
    }
    false
}

/// The dispatcher: an open set of handlers, no two of which claim the same
/// driver string.
pub struct StorageDispatcher {
    handlers: Vec<RegisteredHandler>,
}

impl StorageDispatcher {
    /// The registered handlers, in registration order.
    pub closed spec fn handlers_view(&self) -> Seq<RegisteredHandler> {
        self.handlers@
    }

    /// The configuration invariant: no driver string is claimed by two
    /// registered handlers.
    pub open spec fn wf(&self) -> bool {
        forall|i: int, j: int, d: Seq<char>|
            0 <= i < j < self.handlers_view().len() && #[trigger] self.handlers_view()[i].claims(d)
                ==> !(#[trigger] self.handlers_view()[j].claims(d))
    }

    /// Whether some registered handler claims the driver string.
    pub open spec fn claimed(&self, d: Seq<char>) -> bool {
        exists|i: int| 0 <= i < self.handlers_view().len() && self.handlers_view()[i].claims(d)
    }

    /// An empty dispatcher.
    pub fn new() -> (s: Self)
        ensures
            s.handlers_view().len() == 0,
            s.wf(),
    {
        StorageDispatcher { handlers: Vec::new() }
    }

    /// Registers one more handler, refusing any whose claimed driver strings
    /// overlap an already registered handler's.
    pub fn register(&mut self, h: RegisteredHandler) -> (r: Result<(), StorageError>)
        requires
            old(self).wf(),
        ensures
            final(self).wf(),
            match r {
                Ok(_) => final(self).handlers_view() == old(self).handlers_view().push(h) && (
                forall|d: Seq<char>| !(old(self).claimed(d) && h.claims(d))),
                Err(e) => e is HandlerConflict && *final(self) == *old(self) && (exists|
                    d: Seq<char>,
                |
                    old(self).claimed(d) && h.claims(d)),
            },
    {
        let new_types = h.driver_types();
        let mut i: usize = 0;
        while i < self.handlers.len()
            invariant
                *self == *old(self),
                old(self).wf(),
                forall|t: int| 0 <= t < new_types@.len() ==> h.claims(#[trigger] new_types@[t]@),
                forall|d: Seq<char>|
                    #[trigger] h.claims(d) ==> exists|t: int|
                        0 <= t < new_types@.len() && new_types@[t]@ == d,
                0 <= i <= self.handlers@.len(),
                forall|k: int, d: Seq<char>|
                    0 <= k < i && #[trigger] self.handlers@[k].claims(d) ==> !h.claims(d),
            decreases self.handlers@.len() - i,
        {
            let existing_types = self.handlers[i].driver_types();
            if let Some(d) = common_driver(&existing_types, &new_types) {
                proof {
                    let (a, b) = choose|a: int, b: int|
                        0 <= a < existing_types@.len() && 0 <= b < new_types@.len()
                            && existing_types@[a]@ == d@ && new_types@[b]@ == d@;
                    assert(old(self).handlers_view()[i as int].claims(d@));
                    assert(h.claims(d@));
                    assert(old(self).claimed(d@));
                }
                return Err(StorageError::HandlerConflict { driver: d });
            }
            proof {
                assert forall|d: Seq<char>|
                    #[trigger] self.handlers@[i as int].claims(d) implies !h.claims(d) by {
                    if h.claims(d) {
                        let b = choose|b: int|
                            0 <= b < new_types@.len() && new_types@[b]@ == d;
                        let a = choose|a: int|
                            0 <= a < existing_types@.len() && existing_types@[a]@ == d;
                    }
                }
            }
            i += 1;
        }
        self.handlers.push(h);
        proof {
            assert forall|d: Seq<char>| !(old(self).claimed(d) && h.claims(d)) by {
                if old(self).claimed(d) && h.claims(d) {
                    let k = choose|k: int|
                        0 <= k < old(self).handlers_view().len() && old(
                            self,
                        ).handlers_view()[k].claims(d);
                }
            }
            assert forall|i: int, j: int, d: Seq<char>|
                0 <= i < j < self.handlers_view().len() && #[trigger] self.handlers_view()[i].claims(
                    d,
                ) implies !(#[trigger] self.handlers_view()[j].claims(d)) by {
                if j < self.handlers_view().len() - 1 {
                    assert(old(self).handlers_view()[i].claims(d));
                } else {
                    assert(self.handlers_view()[j] == h);
                    assert(old(self).handlers_view()[i].claims(d));
                    assert(old(self).claimed(d));
                }
            }
        }
        Ok(())
    }

    /// Selects the unique handler whose declared driver set contains the
    /// request's driver string and lets it plan the device creation; a
    /// request no handler claims fails with `UnsupportedDriver` and produces
    /// nothing.
    pub fn dispatch(&self, req: &StorageRequest, ctx: &StorageContext) -> (r: Result<
        DeviceAction,
        StorageError,
    >)
        requires
            self.wf(),
        ensures
            !self.claimed(req.driver@) ==> (r matches Err(e) && (e
                matches StorageError::UnsupportedDriver { driver } && driver@ == req.driver@)),
            self.claimed(req.driver@) ==> exists|i: int|
                0 <= i < self.handlers_view().len() && (#[trigger] self.handlers_view()[i]).claims(
                    req.driver@,
                ) && self.handlers_view()[i].plan_ok(req, ctx, r),
    {
        let mut i: usize = 0;
        while i < self.handlers.len()
            invariant
                self.wf(),
                0 <= i <= self.handlers@.len(),
                forall|k: int|
                    0 <= k < i ==> !(#[trigger] self.handlers@[k]).claims(req.driver@),
            decreases self.handlers@.len() - i,
        {
            let types = self.handlers[i].driver_types();
            if list_claims(&types, req.driver.as_str()) {
                let r = self.handlers[i].plan_device(req, ctx);
                proof {
                    assert(self.handlers_view()[i as int].claims(req.driver@)
                        && self.handlers_view()[i as int].plan_ok(req, ctx, r));
                }
                return r;
            }
            proof {
                if self.handlers@[i as int].claims(req.driver@) {
                    let b = choose|b: int| 0 <= b < types@.len() && types@[b]@ == req.driver@;
                }
            }
            i += 1;
        }
        Err(StorageError::UnsupportedDriver { driver: req.driver.clone() })
    }
}

} // verus!
