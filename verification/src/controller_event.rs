use vstd::prelude::*;
use crate::button::Button;

verus! {

/// A button going down or coming up.
#[derive(Clone, Copy, PartialEq, Eq, Structural, Debug)]
pub enum ControllerEvent {
    Pressed(Button),
    Released(Button),
}

} // verus!
