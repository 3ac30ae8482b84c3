//! The two wire layouts of an instruction and their decoding.
use vstd::prelude::*;
use vstd::utf8::*;

verus! {

/// The layout an instruction is written in.
#[derive(Clone, Copy, Debug, PartialEq, Eq, Structural)]
pub enum WireFormat {
    /// Action code, period code, then the geolocation as UTF-8 text.
    Rich,
    /// Action code and period code only.
    Minimal,
}

/// Shortest buffer that a layout accepts.
pub open spec fn min_len(format: WireFormat) -> nat {
    match format {
        WireFormat::Rich => 3,
        WireFormat::Minimal => 2,
    }
}

/// Why a buffer could not be decoded.
#[derive(Clone, Copy, Debug, PartialEq, Eq, Structural)]
pub enum DecodeError {
    /// The buffer is shorter than its layout's minimum.
    TooShort,
    /// The geolocation bytes are not valid UTF-8.
    InvalidText,
}

/// An instruction in typed form. The action and period codes are kept as
/// they came: whether they name a known action or period is decided when
/// the instruction is dispatched.
#[derive(Clone, Debug, PartialEq, Eq)]
pub struct DecodedInstruction {
    pub action: u8,
    pub period: u8,
    /// Present exactly for the rich layout.
    pub geolocation: Option<String>,
}

/// The bytes of a buffer that hold the geolocation in the rich layout.
pub open spec fn geolocation_bytes(data: Seq<u8>) -> Seq<u8> {
    data.subrange(2, data.len() as int)
}

/// Relies on `String::from_utf8`: it succeeds exactly on valid UTF-8 and the
/// string it returns holds those same bytes.
#[verifier::external_body]
fn string_from_utf8(bytes: Vec<u8>) -> (r: Option<String>)
    ensures
        r is Some <==> valid_utf8(bytes@),
        r matches Some(s) ==> encode_utf8(s@) == bytes@,
{
    String::from_utf8(bytes).ok()
}

/// Decodes `data` in the given layout. Action and period codes are taken
/// as they are; only the buffer's length and, in the rich layout, the
/// validity of the geolocation text are checked.
pub fn parse_instruction(format: WireFormat, data: &[u8]) -> (r: Result<
    DecodedInstruction,
    DecodeError,
>)
    ensures
        data@.len() < min_len(format) <==> r == Err::<DecodedInstruction, DecodeError>(
            DecodeError::TooShort,
        ),
        data@.len() >= min_len(format) && format == WireFormat::Minimal ==> {
            &&& r matches Ok(ins)
            &&& ins.action == data@[0]
            &&& ins.period == data@[1]
            &&& ins.geolocation is None
        },
        data@.len() >= min_len(format) && format == WireFormat::Rich ==> {
            if valid_utf8(geolocation_bytes(data@)) {
                &&& r matches Ok(ins)
                &&& ins.action == data@[0]
                &&& ins.period == data@[1]
                &&& ins.geolocation matches Some(g)
                &&& encode_utf8(g@) == geolocation_bytes(data@)
            } else {
                r == Err::<DecodedInstruction, DecodeError>(DecodeError::InvalidText)
            }
        },
{
    let minimum: usize = match format {
        WireFormat::Rich => 3,
        WireFormat::Minimal => 2,
    };
    if data.len() < minimum {
        return Err(DecodeError::TooShort);
    }
    let action = data[0];
    let period = data[1];
    match format {
        WireFormat::Minimal => Ok(DecodedInstruction { action, period, geolocation: None }),
        WireFormat::Rich => {
            let mut text: Vec<u8> = Vec::new();
            let mut i: usize = 2;
            while i < data.len()
                invariant
                    2 <= i <= data@.len(),
                    text@ == data@.subrange(2, i as int),
                decreases data@.len() - i,
            {
                text.push(data[i]);
                i = i + 1;
                assert(text@ =~= data@.subrange(2, i as int));
            }
            match string_from_utf8(text) {
                Some(g) => Ok(DecodedInstruction { action, period, geolocation: Some(g) }),
                None => Err(DecodeError::InvalidText),
            }
        },
    }
}

} // verus!
