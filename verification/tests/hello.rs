use token_bdb::address::Address;
use token_bdb::hello::{Error, HelloContract, MAX_NOMBRE};

#[test]
fn greeter_is_initialized_once() {
    let mut greeter = HelloContract::new();
    assert_eq!(greeter.admin, None);
    assert_eq!(greeter.initialize(Address::account(0, 1)), Ok(()));
    assert_eq!(greeter.admin, Some(Address::account(0, 1)));
    assert_eq!(greeter.contador_saludos, 0);

    assert_eq!(greeter.hello(b"Ana"), Ok("Hola Tiburona!"));
    assert_eq!(greeter.initialize(Address::account(0, 2)), Err(Error::NoInicializado));
    assert_eq!(greeter.admin, Some(Address::account(0, 1)));
    assert_eq!(greeter.contador_saludos, 1);
}

#[test]
fn greeter_counts_greetings() {
    let mut greeter = HelloContract::new();
    assert_eq!(greeter.hello(b"Ana"), Ok("Hola Tiburona!"));
    assert_eq!(greeter.hello(b"Luz"), Ok("Hola Tiburona!"));
    assert_eq!(greeter.contador_saludos, 2);
}

#[test]
fn greeter_refuses_empty_and_long_names() {
    let mut greeter = HelloContract::new();
    assert_eq!(greeter.hello(b""), Err(Error::NombreVacio));
    assert_eq!(greeter.hello(&[b'x'; 33]), Err(Error::NombreMuyLargo));
    assert_eq!(greeter.contador_saludos, 0);
    assert_eq!(MAX_NOMBRE, 32);
    assert_eq!(greeter.hello(&[b'x'; 32]), Ok("Hola Tiburona!"));
    assert_eq!(greeter.hello(b"x"), Ok("Hola Tiburona!"));
    assert_eq!(greeter.contador_saludos, 2);
    // seventeen letters of two bytes each are too long
    assert_eq!(greeter.hello("ñ".repeat(17).as_bytes()), Err(Error::NombreMuyLargo));
    assert_eq!(greeter.hello("ñ".repeat(16).as_bytes()), Ok("Hola Tiburona!"));
}
