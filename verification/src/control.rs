//! What controls can do, and the errors their operations report.
use vstd::prelude::*;

verus! {

/// A capability a control may have.
#[derive(Clone, Copy, Debug, PartialEq, Eq, Hash)]
pub enum ControlCapability {
    CanInsertChild,
    CanInsertMultiChildren,
    TextEdit,
    Focus,
}

/// Why a slot could not be connected to a signal.
#[derive(Debug, Clone, PartialEq, Eq, Hash)]
pub enum SlotInsertErr {
    SlotNotExist,
    SlotArgMismatch,
}

/// A child could not be added.
#[derive(Clone, Copy, Debug, Default, PartialEq, Eq)]
pub struct AddChildErr;

/// A slot was invoked with an argument of the wrong type.
#[derive(Clone, Copy, Debug, Default, PartialEq, Eq, Hash)]
pub struct SlotInvokeArgMismatch;

/// The window of a text edit is gone.
#[derive(Clone, Copy, Debug, Default, PartialEq, Eq, Hash)]
pub struct TextEditWindowDestroyedErr;

/// The capabilities of an input box: it edits text and takes the focus, and has no
/// children.
pub fn input_box_capability(cap: ControlCapability) -> (b: bool)
    ensures
        b == (cap == ControlCapability::TextEdit || cap == ControlCapability::Focus),
{
    match cap {
        ControlCapability::CanInsertChild => false,
        ControlCapability::CanInsertMultiChildren => false,
        ControlCapability::TextEdit => true,
        ControlCapability::Focus => true,
    }
}

/// The capabilities of a list: it takes the focus, and nothing else.
pub fn list_capability(cap: ControlCapability) -> (b: bool)
    ensures
        b == (cap == ControlCapability::Focus),
{
    match cap {
        ControlCapability::CanInsertChild => false,
        ControlCapability::CanInsertMultiChildren => false,
        ControlCapability::Focus => true,
        _ => false,
    }
}

/// The capabilities of a box: it holds any number of children, and has any other
/// capability that one of its children has (`children_have` tells, child by child).
pub fn box_capability(cap: ControlCapability, children_have: &Vec<bool>) -> (b: bool)
    ensures
        cap == ControlCapability::CanInsertChild ==> b,
        cap == ControlCapability::CanInsertMultiChildren ==> b,
        cap != ControlCapability::CanInsertChild && cap != ControlCapability::CanInsertMultiChildren
            ==> b == children_have@.contains(true),
{
    match cap {
        ControlCapability::CanInsertChild => true,
        ControlCapability::CanInsertMultiChildren => true,
        _ => {
            let mut i: usize = 0;
            while i < children_have.len()
                invariant
                    i <= children_have@.len(),
                    forall|j: int| 0 <= j < i ==> !children_have@[j],
                decreases children_have@.len() - i,
            {
                if children_have[i] {
                    return true;
                }
                i = i + 1;
            }
            false
        },
    }
}

} // verus!
