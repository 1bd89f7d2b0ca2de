//! Objects that can carry an enchantment.

use vstd::prelude::*;

verus! {

/// An object that can be enchanted
pub trait Enchantable {
    /// Gets the ID of this object's enchantment, if any
    fn enchantment(&self) -> Option<&str>;

    /// Sets this object's enchantment
    fn set_enchantment(&mut self, enchantment: Option<String>);

    /// Gets the enchantment points this object can hold
    fn enchantment_points(&self) -> u32;

    /// Sets the enchantment points this object can hold
    fn set_enchantment_points(&mut self, enchantment_points: u32);
}

} // verus!
