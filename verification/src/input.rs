use vstd::prelude::*;

verus! {

#[derive(Debug, Clone, Copy, PartialEq, Eq, Structural, Hash, Default)]
/// Other info that may be useful when drawing a module
pub struct ModuleDrawInfo {
    /// The id of the closest parent container
    pub container_id: usize,
}

} // verus!
