//! A greeter that has one administrator and counts its greetings.

use crate::address::Address;
use vstd::prelude::*;

verus! {

/// The longest name that is greeted.
pub const MAX_NOMBRE: usize = 32;

/// Why the greeter refused.
#[derive(Clone, Copy, Debug, PartialEq, Eq, Structural)]
pub enum Error {
    /// The name is empty.
    NombreVacio,
    /// The name is longer than `MAX_NOMBRE`.
    NombreMuyLargo,
    /// The caller is not the administrator.
    NoAutorizado,
    /// What `initialize` answers once an administrator is set.
    NoInicializado,
}

/// The answer to a name of `length` bytes: the greeting, or why there is none.
pub open spec fn greeting_for(length: nat) -> Result<&'static str, Error> {
    if length == 0 {
        Err(Error::NombreVacio)
    } else if length > MAX_NOMBRE {
        Err(Error::NombreMuyLargo)
    } else {
        Ok("Hola Tiburona!")
    }
}

/// The greeter: its administrator, once set, and the number of greetings.
pub struct HelloContract {
    pub admin: Option<Address>,
    pub contador_saludos: u32,
}

impl HelloContract {
    /// A greeter without administrator that has greeted nobody.
    pub fn new() -> (greeter: HelloContract)
        ensures
            greeter.admin is None,
            greeter.contador_saludos == 0,
    {
        HelloContract { admin: None, contador_saludos: 0 }
    }

    /// Sets the administrator and puts the count to zero. A greeter that has
    /// an administrator refuses and stays as it is.
    pub fn initialize(&mut self, admin: Address) -> (result: Result<(), Error>)
        ensures
            match old(self).admin {
                Some(_) => {
                    &&& result == Err::<(), _>(Error::NoInicializado)
                    &&& *final(self) == *old(self)
                },
                None => {
                    &&& result is Ok
                    &&& final(self).admin == Some(admin)
                    &&& final(self).contador_saludos == 0
                },
            },
    {
        if self.admin.is_some() {
            return Err(Error::NoInicializado);
        }
        self.admin = Some(admin);
        self.contador_saludos = 0;
        Ok(())
    }

    /// Greets `nombre`, a text as bytes, and counts the greeting. An empty
    /// name and a name of more than `MAX_NOMBRE` bytes are refused and not
    /// counted.
    pub fn hello(&mut self, nombre: &[u8]) -> (result: Result<&'static str, Error>)
        requires
            1 <= nombre@.len() <= MAX_NOMBRE ==> old(self).contador_saludos < u32::MAX,
        ensures
            final(self).admin == old(self).admin,
            result == greeting_for(nombre@.len()),
            final(self).contador_saludos == old(self).contador_saludos + (if result is Ok {
                1int
            } else {
                0int
            }),
    {
        let length = nombre.len();
        if length == 0 {
            return Err(Error::NombreVacio);
        }
        if length > MAX_NOMBRE {
            return Err(Error::NombreMuyLargo);
        }
        self.contador_saludos += 1;
        Ok("Hola Tiburona!")
    }
}

} // verus!
