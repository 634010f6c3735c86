//! What the layout core asks the host to do to the scene.
use vstd::prelude::*;

verus! {

/// The request to have the layout engine read the children of an element
/// anew, after their order or number changed.
#[derive(Clone, Copy, Debug, PartialEq, Eq, Structural)]
pub struct ResetChildrenInUiSurface;

} // verus!
