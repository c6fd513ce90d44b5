//! The status query and the reading of its reply.
use vstd::prelude::*;
use crate::frame::CommandFrame;
use crate::json::{JsonValue, field, lookup};

verus! {

/// A colour as red, green and blue channels.
#[derive(Clone, Copy, Debug, PartialEq, Eq, Structural)]
pub struct Rgb {
    pub r: u8,
    pub g: u8,
    pub b: u8,
}

/// What a device reported about itself.
#[derive(Debug)]
pub struct StatusResponse {
    pub on: bool,
    /// 0 to 100.
    pub brightness: u8,
    pub color: Option<Rgb>,
    /// The whole `data` object of the reply.
    pub raw: JsonValue,
}

/// Why a reply is not a status.
#[derive(Clone, Copy, Debug, PartialEq, Eq, Structural)]
pub enum StatusError {
    /// The reply's data is not a JSON object.
    NotAnObject,
}

pub open spec fn dev_status_cmd() -> Seq<char> {
    seq!['d', 'e', 'v', 'S', 't', 'a', 't', 'u', 's']
}

pub open spec fn on_off_key() -> Seq<char> {
    seq!['o', 'n', 'O', 'f', 'f']
}

pub open spec fn brightness_key() -> Seq<char> {
    seq!['b', 'r', 'i', 'g', 'h', 't', 'n', 'e', 's', 's']
}

pub open spec fn color_key() -> Seq<char> {
    seq!['c', 'o', 'l', 'o', 'r']
}

/// On where `onOff` is a non-zero number or `true`; off otherwise, also
/// where the member is missing.
pub open spec fn on_spec(fields: Seq<(String, JsonValue)>) -> bool {
    match field(fields, on_off_key()) {
        Some(JsonValue::Int(n)) => n != 0,
        Some(JsonValue::Bool(b)) => b,
        _ => false,
    }
}

/// `brightness` held to 0..=100; 0 where it is missing or not an integer.
pub open spec fn brightness_spec(fields: Seq<(String, JsonValue)>) -> u8 {
    match field(fields, brightness_key()) {
        Some(JsonValue::Int(n)) => if n < 0 {
            0
        } else if n > 100 {
            100
        } else {
            n as u8
        },
        _ => 0,
    }
}

/// One colour channel: an integer 0..=255.
pub open spec fn channel_spec(fields: Seq<(String, JsonValue)>, key: Seq<char>) -> Option<u8> {
    match field(fields, key) {
        Some(JsonValue::Int(n)) => if 0 <= n <= 255 {
            Some(n as u8)
        } else {
            None
        },
        _ => None,
    }
}

/// `color` as `{"r":..,"g":..,"b":..}`; `None` where any part is missing
/// or out of range.
pub open spec fn color_spec(fields: Seq<(String, JsonValue)>) -> Option<Rgb> {
    match field(fields, color_key()) {
        Some(JsonValue::Object(c)) => match (
            channel_spec(c@, seq!['r']),
            channel_spec(c@, seq!['g']),
            channel_spec(c@, seq!['b']),
        ) {
            (Some(r), Some(g), Some(b)) => Some(Rgb { r, g, b }),
            _ => None,
        },
        _ => None,
    }
}

/// The status that a `devStatus` reply's data describes.
pub open spec fn status_spec(data: JsonValue) -> Result<StatusResponse, StatusError> {
    match data {
        JsonValue::Object(fields) => Ok(
            StatusResponse {
                on: on_spec(fields@),
                brightness: brightness_spec(fields@),
                color: color_spec(fields@),
                raw: JsonValue::Object(fields),
            },
        ),
        _ => Err(StatusError::NotAnObject),
    }
}

fn text_dev_status() -> (r: String)
    ensures
        r@ == dev_status_cmd(),
{
    proof {
        reveal_strlit("devStatus");
    }
    String::from_str("devStatus")
}

fn text_on_off() -> (r: String)
    ensures
        r@ == on_off_key(),
{
    proof {
        reveal_strlit("onOff");
    }
    String::from_str("onOff")
}

fn text_brightness() -> (r: String)
    ensures
        r@ == brightness_key(),
{
    proof {
        reveal_strlit("brightness");
    }
    String::from_str("brightness")
}

fn text_color() -> (r: String)
    ensures
        r@ == color_key(),
{
    proof {
        reveal_strlit("color");
    }
    String::from_str("color")
}

fn text_r() -> (r: String)
    ensures
        r@ == seq!['r'],
{
    proof {
        reveal_strlit("r");
    }
    String::from_str("r")
}

fn text_g() -> (r: String)
    ensures
        r@ == seq!['g'],
{
    proof {
        reveal_strlit("g");
    }
    String::from_str("g")
}

fn text_b() -> (r: String)
    ensures
        r@ == seq!['b'],
{
    proof {
        reveal_strlit("b");
    }
    String::from_str("b")
}

/// The status query: `devStatus` with an empty object.
pub fn status_request() -> (r: CommandFrame)
    ensures
        r.cmd@ == dev_status_cmd(),
        r.data matches JsonValue::Object(fields) && fields@.len() == 0,
{
    CommandFrame { cmd: text_dev_status(), data: JsonValue::Object(Vec::new()) }
}

/// The tag that a status reply carries.
pub fn status_tag() -> (r: String)
    ensures
        r@ == dev_status_cmd(),
{
    text_dev_status()
}

fn channel(fields: &Vec<(String, JsonValue)>, key: &String) -> (r: Option<u8>)
    ensures
        r == channel_spec(fields@, key@),
{
    match lookup(fields, key) {
        Some(JsonValue::Int(n)) => if 0 <= *n && *n <= 255 {
            Some(*n as u8)
        } else {
            None
        },
        _ => None,
    }
}

fn read_color(fields: &Vec<(String, JsonValue)>) -> (r: Option<Rgb>)
    ensures
        r == color_spec(fields@),
{
    match lookup(fields, &text_color()) {
        Some(JsonValue::Object(c)) => {
            let r = channel(c, &text_r());
            let g = channel(c, &text_g());
            let b = channel(c, &text_b());
            match (r, g, b) {
                (Some(r), Some(g), Some(b)) => Some(Rgb { r, g, b }),
                _ => None,
            }
        },
        _ => None,
    }
}

/// Reads the data of a `devStatus` reply. Missing or unexpected members
/// fall back to off, 0 and no colour; only data that is not an object fails.
pub fn read_status(data: JsonValue) -> (r: Result<StatusResponse, StatusError>)
    ensures
        r == status_spec(data),
{
    match data {
        JsonValue::Object(fields) => {
            let on = match lookup(&fields, &text_on_off()) {
                Some(JsonValue::Int(n)) => *n != 0,
                Some(JsonValue::Bool(b)) => *b,
                _ => false,
            };
            let brightness: u8 = match lookup(&fields, &text_brightness()) {
                Some(JsonValue::Int(n)) => if *n < 0 {
                    0
                } else if *n > 100 {
                    100
                } else {
                    *n as u8
                },
                _ => 0,
            };
            let color = read_color(&fields);
            Ok(StatusResponse { on, brightness, color, raw: JsonValue::Object(fields) })
        },
        _ => Err(StatusError::NotAnObject),
    }
}

} // verus!
