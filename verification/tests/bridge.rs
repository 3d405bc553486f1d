use comunidad::bridge::Bridge;

#[test]
fn empty_bridge_yields_nothing_every_time() {
    let mut b: Bridge<i32> = Bridge::new();
    assert_eq!(b.try_receive(), None);
    assert_eq!(b.try_receive(), None);
    assert_eq!(b.try_receive(), None);
}

#[test]
fn one_send_delivers_exactly_once() {
    let mut b: Bridge<String> = Bridge::new();
    b.send(String::from("listo"));
    assert_eq!(b.try_receive(), Some(String::from("listo")));
    assert_eq!(b.try_receive(), None);
    assert_eq!(b.try_receive(), None);
}

#[test]
fn sends_deliver_oldest_first() {
    let mut b: Bridge<u8> = Bridge::new();
    b.send(1);
    b.send(2);
    b.send(3);
    assert_eq!(b.try_receive(), Some(1));
    assert_eq!(b.try_receive(), Some(2));
    assert_eq!(b.try_receive(), Some(3));
    assert_eq!(b.try_receive(), None);
}

#[test]
fn send_after_drain_delivers_again() {
    let mut b: Bridge<u8> = Bridge::new();
    b.send(7);
    assert_eq!(b.try_receive(), Some(7));
    b.send(9);
    assert_eq!(b.try_receive(), Some(9));
    assert_eq!(b.try_receive(), None);
}
