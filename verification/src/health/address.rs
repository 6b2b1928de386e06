//! Network and hardware addresses.

use crate::text::append_decimal;
use vstd::prelude::*;

verus! {

#[derive(Debug, Clone, Copy, PartialEq, Eq)]
pub enum IpAddr {
    V4([u8; 4]),
    V6([u16; 8]),
}

#[derive(Debug, Clone, Copy, PartialEq, Eq)]
pub struct MacAddr {
    pub octets: [u8; 6],
}

/// The four octets in decimal, with dots between them.
pub open spec fn dotted(octets: [u8; 4]) -> Seq<char> {
    crate::text::decimal(octets[0]) + "."@ + crate::text::decimal(octets[1]) + "."@
        + crate::text::decimal(octets[2]) + "."@ + crate::text::decimal(octets[3])
}

/// The four octets in decimal, with dots between them.
pub fn dotted_text(octets: [u8; 4]) -> (r: String)
    ensures
        r@ == dotted(octets),
{
    let mut text: String = String::new();
    append_decimal(&mut text, octets[0]);
    assert(text@ =~= crate::text::decimal(octets[0]));
    text.append(".");
    append_decimal(&mut text, octets[1]);
    text.append(".");
    append_decimal(&mut text, octets[2]);
    text.append(".");
    append_decimal(&mut text, octets[3]);
    text
}

/// The value of a hexadecimal digit, in upper or lower case.
pub open spec fn hex_value(c: char) -> Option<int> {
    if '0' <= c <= '9' {
        Some(c as int - '0' as int)
    } else if 'a' <= c <= 'f' {
        Some(c as int - 'a' as int + 10)
    } else if 'A' <= c <= 'F' {
        Some(c as int - 'A' as int + 10)
    } else {
        None
    }
}

/// A pair of hexadecimal digits stands at this place. A plus sign may stand for the first.
pub open spec fn is_octet_at(text: Seq<char>, at: int) -> bool {
    &&& hex_value(text[at]) is Some || text[at] == '+'
    &&& hex_value(text[at + 1]) is Some
}

/// The number that the pair at this place makes.
pub open spec fn octet_at(text: Seq<char>, at: int) -> u8 {
    let sixteens = if text[at] == '+' {
        0
    } else {
        hex_value(text[at])->0
    };
    (sixteens * 16 + hex_value(text[at + 1])->0) as u8
}

/// Six pairs stand in the text, each `stride` after the one before.
pub open spec fn are_octets(text: Seq<char>, stride: int) -> bool {
    &&& is_octet_at(text, 0)
    &&& is_octet_at(text, stride)
    &&& is_octet_at(text, stride * 2)
    &&& is_octet_at(text, stride * 3)
    &&& is_octet_at(text, stride * 4)
    &&& is_octet_at(text, stride * 5)
}

/// The address that these six pairs make, if they stand there.
pub open spec fn octets_of(text: Seq<char>, stride: int) -> Option<MacAddr> {
    if are_octets(text, stride) {
        Some(
            MacAddr {
                octets: [
                    octet_at(text, 0),
                    octet_at(text, stride),
                    octet_at(text, stride * 2),
                    octet_at(text, stride * 3),
                    octet_at(text, stride * 4),
                    octet_at(text, stride * 5),
                ],
            },
        )
    } else {
        None
    }
}

/// What may stand between the octets of a hardware address.
pub open spec fn is_separator(c: char) -> bool {
    c == ':' || c == '-'
}

/// The text has a separator in every third place, and nowhere else.
pub open spec fn is_separated(text: Seq<char>) -> bool {
    &&& text.len() == 17
    &&& forall|i: int| 0 <= i < 17 ==> (is_separator(#[trigger] text[i]) <==> i % 3 == 2)
}

/// What is known of the hardware address that a text stands for. Twelve characters are six pairs of
/// hexadecimal digits or no address; so are seventeen, with a separator in every third place. A
/// text of another length, or with a character that is not ASCII, is none.
pub open spec fn is_mac_of(text: Seq<char>, mac: Option<MacAddr>) -> bool {
    &&& text.len() == 12 ==> mac == octets_of(text, 2)
    &&& is_separated(text) ==> mac == octets_of(text, 3)
    &&& text.len() != 17 && text.len() != 12 ==> mac is None
    &&& (exists|i: int| 0 <= i < text.len() && #[trigger] text[i] > '\u{7f}') ==> mac is None
}

/// The hardware address that a text stands for, if it stands for one.
pub uninterp spec fn mac_of(text: Seq<char>) -> Option<MacAddr>;

/// `<mac_address::MacAddress as FromStr>::from_str` and `MacAddress::bytes`: what [`is_mac_of`]
/// says, since each pair is read by `u8::from_str_radix`, which takes a plus sign before the
/// digits. What a text of seventeen characters stands for whose separators are elsewhere is left
/// open.
#[verifier::external_body]
pub(crate) fn parse_mac(text: &str) -> (r: Option<MacAddr>)
    ensures
        r == mac_of(text@),
        is_mac_of(text@, r),
{
    match text.parse::<mac_address::MacAddress>() {
        Ok(mac) => Some(MacAddr { octets: mac.bytes() }),
        Err(_) => None,
    }
}

/// A locally administered address that is made up from an IPv4 address: `02:00`, then its octets.
pub open spec fn synthetic_mac(octets: [u8; 4]) -> MacAddr {
    MacAddr { octets: [0x02u8, 0x00u8, octets[0], octets[1], octets[2], octets[3]] }
}

/// The hardware address of an endpoint. `inventory` is what became of the text in the inventory,
/// if there is one. Without one, the address is made up; it only serves as a key, since the
/// endpoint is reached by its IP address.
pub fn choose_mac(inventory: Option<Option<MacAddr>>, octets: [u8; 4]) -> (r: Option<MacAddr>)
    ensures
        r == match inventory {
            Some(parsed) => parsed,
            None => Some(synthetic_mac(octets)),
        },
{
    match inventory {
        Some(parsed) => parsed,
        None => Some(
            MacAddr { octets: [0x02, 0x00, octets[0], octets[1], octets[2], octets[3]] },
        ),
    }
}

} // verus!
