//! The messages of the serial settings page and the identified command packet.
use vstd::prelude::*;
use vstd::string::*;
use crate::text::{int_text, nat_text, pad_left, push_int_padded, push_nat};

verus! {

/// What the serial settings page can be told to do.
#[derive(Debug, Clone)]
pub enum SerialMessage {
    SetIM920(bool),
    SetSmooth(bool),
    SerialScan,
    SerialStart,
    PortSelected(String),
    SmoothValue(i32),
    SetPacketSize(bool),
    ThreadID(usize),
    ThreadStop,
}

/// A motor command tagged with the identifier of its sender.
#[derive(Debug, Clone, Copy, PartialEq, Eq, Structural)]
pub struct Packet {
    pub id: u16,
    pub x: i32,
    pub y: i32,
    pub ro: i32,
    pub m1: i32,
    pub m2: i32,
}

/// The one-line description of a packet: its identifier, then each value
/// right-aligned in three columns.
pub open spec fn packet_text(p: Packet) -> Seq<char> {
    "ID:"@ + nat_text(p.id as nat) + "   [x:"@ + pad_left(int_text(p.x as int), 3) + ",y:"@
        + pad_left(int_text(p.y as int), 3) + ",ro:"@ + pad_left(int_text(p.ro as int), 3)
        + ",m1:"@ + pad_left(int_text(p.m1 as int), 3) + ",m2:"@ + pad_left(
        int_text(p.m2 as int),
        3,
    ) + "]"@
}

impl Packet {
    /// The packet holding the given identifier and values.
    pub fn new(id_: u16, x_: i32, y_: i32, ro_: i32, m1_: i32, m2_: i32) -> (p: Packet)
        ensures
            p == (Packet { id: id_, x: x_, y: y_, ro: ro_, m1: m1_, m2: m2_ }),
    {
        Packet { id: id_, x: x_, y: y_, ro: ro_, m1: m1_, m2: m2_ }
    }

    /// The packet as text, as shown to the operator.
    pub fn get_string(&self) -> (s: String)
        ensures
            s@ == packet_text(*self),
    {
        let mut s = String::from_str("ID:");
        push_nat(&mut s, self.id as u64);
        s.append("   [x:");
        push_int_padded(&mut s, self.x as i64, 3);
        s.append(",y:");
        push_int_padded(&mut s, self.y as i64, 3);
        s.append(",ro:");
        push_int_padded(&mut s, self.ro as i64, 3);
        s.append(",m1:");
        push_int_padded(&mut s, self.m1 as i64, 3);
        s.append(",m2:");
        push_int_padded(&mut s, self.m2 as i64, 3);
        s.append("]");
        s
    }
}

} // verus!
