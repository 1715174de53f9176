use vstd::prelude::*;

verus! {

/// How an animated value moves between its bounds.
#[derive(Clone, Copy, Debug, PartialEq, Eq, Structural)]
pub enum AnimatorMode {
    ForwardLoop,
    Forward,
    BackwardLoop,
    Backward,
    PingPong,
    PingPongLoop,
    Idle,
}

} // verus!
