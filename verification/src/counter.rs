//! A counter that goes up, down and back to zero.

use vstd::prelude::*;

verus! {

/// A counter of type `u32`. It never wraps: a step that would leave the range
/// of `u32` cannot be asked for.
pub struct ContadorContract {
    pub contador: u32,
}

impl ContadorContract {
    /// The counter at zero.
    pub fn new() -> (counter: ContadorContract)
        ensures
            counter.contador == 0,
    {
        ContadorContract { contador: 0 }
    }

    /// Adds one and returns the new count.
    pub fn increment(&mut self) -> (count: u32)
        requires
            old(self).contador < u32::MAX,
        ensures
            count == old(self).contador + 1,
            final(self).contador == count,
    {
        self.contador += 1;
        self.contador
    }

    /// Takes one off and returns the new count. A counter at zero cannot go
    /// down.
    pub fn decrement(&mut self) -> (count: u32)
        requires
            old(self).contador > 0,
        ensures
            count == old(self).contador - 1,
            final(self).contador == count,
    {
        self.contador -= 1;
        self.contador
    }

    /// The count.
    pub fn get_count(&self) -> (count: u32)
        ensures
            count == self.contador,
    {
        self.contador
    }

    /// Puts the counter back to zero.
    pub fn reset(&mut self)
        ensures
            final(self).contador == 0,
    {
        self.contador = 0;
    }

    /// Adds `amount` and returns the new count.
    pub fn increment_by(&mut self, amount: u32) -> (count: u32)
        requires
            old(self).contador + amount <= u32::MAX,
        ensures
            count == old(self).contador + amount,
            final(self).contador == count,
    {
        self.contador += amount;
        self.contador
    }
}

} // verus!
