use vstd::prelude::*;

verus! {

/// The kind of an internet address, without the address itself.
#[derive(Clone, Copy, PartialEq, Eq, Structural, Debug)]
pub enum IpAddrKind {
    V4,
    V6,
}

/// An address kind paired with its textual form.
pub struct IpAddr {
    pub kind: IpAddrKind,
    pub address: String,
}

/// An address kind paired with four numeric components.
pub struct IpAddr2 {
    pub kind: IpAddrKind,
    pub address: (u8, u8, u8, u8),
}

/// An address whose kind and payload travel together in one enum.
pub enum IpAddress {
    V4(String),
    V6(String),
}

/// Names the protocol an address kind belongs to.
pub fn route(ip_type: IpAddrKind) -> (label: &'static str)
    ensures
        ip_type is V4 ==> label@ == "IPv4"@,
        ip_type is V6 ==> label@ == "IPv6"@,
{
    match ip_type {
        IpAddrKind::V4 => "IPv4",
        IpAddrKind::V6 => "IPv6",
    }
}

/// Builds each of the address representations and routes both kinds.
pub fn enum_def() {
    let four = IpAddrKind::V4;
    let six = IpAddrKind::V6;

    let label4 = route(four);
    let label6 = route(six);
    let label6b = route(IpAddrKind::V6);
    assert(label4@ == "IPv4"@);
    assert(label6@ == label6b@);

    let home = IpAddr { kind: IpAddrKind::V4, address: "127.0.0.1".to_owned() };
    let loopback = IpAddr { kind: IpAddrKind::V6, address: "::1".to_owned() };

    let home = IpAddress::V4("127.0.0.1".to_owned());
    let loopback = IpAddress::V6("::1".to_owned());

    let home = IpAddr2 { kind: IpAddrKind::V4, address: (127, 0, 0, 1) };
    assert(home.address.3 == 1);
}

/// One enum in place of several structures: a unit variant, a struct-like
/// variant, and two tuple-like variants.
pub enum Message {
    Quit,
    Move { x: i32, y: i32 },
    Write(String),
    ChangeColor(i32, i32, i32),
}

impl Message {
    /// Names the variant of this message.
    pub fn call(&self) -> (name: &'static str)
        ensures
            self is Quit ==> name@ == "Quit"@,
            self is Move ==> name@ == "Move"@,
            self is Write ==> name@ == "Write"@,
            self is ChangeColor ==> name@ == "ChangeColor"@,
    {
        match self {
            Message::Quit => "Quit",
            Message::Move { x: _, y: _ } => "Move",
            Message::Write(_) => "Write",
            Message::ChangeColor(_, _, _) => "ChangeColor",
        }
    }
}

/// Calls the method on one message of each shape.
pub fn enum_struct() {
    let quit = Message::Quit.call();
    let moved = Message::Move { x: 1, y: 2 }.call();
    let write = Message::Write("hello".to_owned()).call();
    let color = Message::ChangeColor(1, 2, 3).call();
    assert(quit@ == "Quit"@ && color@ == "ChangeColor"@);
}

} // verus!
