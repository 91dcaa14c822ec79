//! How numbers lie in datagrams, and what a list of reported values tells of a control.
use vstd::prelude::*;

use crate::control_id::ControlId;
use crate::setting::WireSetting;
use crate::wire::{be16, le16, le16_bytes, le32, le32_bytes, signed16, signed32, signed8};

verus! {

/// A number lies in two bytes, the low one first. A negative one is in two's complement.
pub open spec fn holds16(data: Seq<u8>, at: int, n: int) -> bool {
    data[at] == n % 256 && data[at + 1] == n / 256 % 256
}

/// A number lies in four bytes, the low one first. A negative one is in two's complement.
pub open spec fn holds32(data: Seq<u8>, at: int, n: int) -> bool {
    &&& data[at] == n % 256
    &&& data[at + 1] == n / 256 % 256
    &&& data[at + 2] == n / 65536 % 256
    &&& data[at + 3] == n / 16777216 % 256
}

/// What lies in two bytes, low byte first, is what is read from there.
pub proof fn numbers_of_two_bytes(data: Seq<u8>, at: int, n: int)
    requires
        holds16(data, at, n),
    ensures
        0 <= n <= u16::MAX ==> le16(data, at) == n,
        i16::MIN <= n <= i16::MAX ==> signed16(le16(data, at)) == n,
{
}

/// What lies in four bytes, low byte first, is what is read from there.
pub proof fn numbers_of_four_bytes(data: Seq<u8>, at: int, n: int)
    requires
        holds32(data, at, n),
    ensures
        0 <= n <= u32::MAX ==> le32(data, at) == n,
        i32::MIN <= n <= i32::MAX ==> signed32(le32(data, at)) == n,
{
}

/// What is written lies there low byte first.
pub proof fn numbers_are_written_low_byte_first(n: int)
    ensures
        le16_bytes(n).len() == 2,
        holds16(le16_bytes(n), 0, n),
        le32_bytes(n).len() == 4,
        holds32(le32_bytes(n), 0, n),
{
}

/// The low four bytes of a number are those of what is left of it in four bytes.
pub proof fn low_bytes_stay(n: int)
    ensures
        n % 0x1_0000_0000 % 256 == n % 256,
        n % 0x1_0000_0000 / 256 % 256 == n / 256 % 256,
        n % 0x1_0000_0000 / 65536 % 256 == n / 65536 % 256,
        n % 0x1_0000_0000 / 16777216 % 256 == n / 16777216 % 256,
{
    let w = n % 0x1_0000_0000;
    let q = n / 0x1_0000_0000;
    assert(n == w + q * 0x1_0000_0000);
    assert(n / 256 == w / 256 + q * 16777216);
    assert(n / 65536 == w / 65536 + q * 65536);
    assert(n / 16777216 == w / 16777216 + q * 256);
}

/// The low two bytes of a number are those of what is left of it in two bytes.
pub proof fn low_two_bytes_stay(n: int)
    ensures
        n % 0x1_0000 % 256 == n % 256,
        n % 0x1_0000 / 256 % 256 == n / 256 % 256,
{
    let w = n % 0x1_0000;
    let q = n / 0x1_0000;
    assert(n == w + q * 0x1_0000);
    assert(n / 256 == w / 256 + q * 256);
}

/// Of the numbers that two bytes can hold, exactly one is read, in either order of the bytes.
pub proof fn orders_of_bytes(data: Seq<u8>, at: int)
    ensures
        le16(data, at) % 256 == data[at],
        le16(data, at) / 256 == data[at + 1],
        be16(data, at) / 256 == data[at],
        be16(data, at) % 256 == data[at + 1],
        signed8(data[at] as int) % 256 == data[at],
        i8::MIN <= signed8(data[at] as int) <= i8::MAX,
{
}

/// A list of reported values tells of a control just one thing.
pub open spec fn tells(settings: Seq<WireSetting>, s: WireSetting) -> bool {
    &&& settings.contains(s)
    &&& forall|k: int| 0 <= k < settings.len() && #[trigger] settings[k].id == s.id ==> settings[k] == s
}

/// A list of reported values tells nothing of a control.
pub open spec fn is_silent_on(settings: Seq<WireSetting>, id: ControlId) -> bool {
    forall|k: int| 0 <= k < settings.len() ==> #[trigger] settings[k].id != id
}

/// That a control has a value, and nothing more.
pub open spec fn valued(id: ControlId, n: int) -> WireSetting {
    WireSetting { id, value: n as i64, end: None, auto_value: None, auto: None, enabled: None }
}

/// That a control has a value, and whether the radar chose it.
pub open spec fn chosen(id: ControlId, n: int, by_radar: bool) -> WireSetting {
    WireSetting {
        id,
        value: n as i64,
        end: None,
        auto_value: None,
        auto: Some(by_radar),
        enabled: None,
    }
}

/// That a control has a value, and whether it is switched on.
pub open spec fn switched(id: ControlId, n: int, on: bool) -> WireSetting {
    WireSetting {
        id,
        value: n as i64,
        end: None,
        auto_value: None,
        auto: None,
        enabled: Some(on),
    }
}

/// That a control reaches from one value to another, and whether it is switched on.
pub open spec fn reaching(id: ControlId, from: int, to: int, on: bool) -> WireSetting {
    WireSetting {
        id,
        value: from as i64,
        end: Some(to as i64),
        auto_value: None,
        auto: None,
        enabled: Some(on),
    }
}

/// That a control has a value, and one by which the radar adjusts it.
pub open spec fn adjusted(id: ControlId, n: int, by: int) -> WireSetting {
    WireSetting {
        id,
        value: n as i64,
        end: None,
        auto_value: Some(by as i64),
        auto: None,
        enabled: None,
    }
}

} // verus!
