use vstd::prelude::*;

verus! {

/// Entry point of the public interface.
pub struct Api {}

/// Resources that release what they hold on request.
pub trait Disposable {
    fn dispose(&mut self);
}

} // verus!
