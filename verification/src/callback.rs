//! The unit of work a job carries: an owned, opaque, zero-argument action.

use vstd::prelude::*;

verus! {

/// An owned, zero-argument, side-effecting action, opaque to the crate.
///
/// The closure inside is caller-supplied and runs unverified; the crate only
/// stores it and invokes it. Verus does not read `dyn` trait objects, so the
/// holder is opaque.
#[verifier::external_body]
pub struct Callback {
    f: Box<dyn Fn() + Send + Sync>,
}

impl Callback {
    /// Box a caller-supplied closure.
    ///
    /// Relies on `Box::new` alone: the closure is stored, not run.
    #[verifier::external_body]
    pub(crate) fn wrap<F: Fn() + Send + Sync + 'static>(f: F) -> Callback {
        Callback { f: Box::new(f) }
    }

    /// Run the stored action once.
    ///
    /// Relies on the `Fn` impl of `Box<dyn Fn>`: the call forwards to the
    /// caller-supplied closure, of whose effects nothing is promised.
    #[verifier::external_body]
    pub(crate) fn invoke(&self) {
        (self.f)()
    }
}

} // verus!
