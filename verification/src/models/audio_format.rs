//! Description of the audio a caller is about to stream.

use vstd::prelude::*;

verus! {

/// Audio format options announced in the session-start control message.
#[derive(Clone, Debug, PartialEq)]
pub struct AudioFormat {
    pub encoding: Option<Encoding>,
    pub sample_rate: Option<i32>,
    pub type_value: Type,
}

impl AudioFormat {
    pub fn new(type_value: Type) -> (r: AudioFormat)
        ensures
            r.encoding is None,
            r.sample_rate is None,
            r.type_value == type_value,
    {
        AudioFormat { encoding: None, sample_rate: None, type_value }
    }
}

impl Default for AudioFormat {
    fn default() -> (r: AudioFormat)
        ensures
            r.encoding is None,
            r.sample_rate is None,
            r.type_value == Type::Raw,
    {
        AudioFormat { encoding: None, sample_rate: None, type_value: Type::Raw }
    }
}

/// Sample encodings the service accepts for raw audio.
#[derive(Clone, Copy, Debug, Eq, PartialEq, Structural, Ord, PartialOrd, Hash)]
pub enum Encoding {
    PcmF32le,
    PcmS16le,
    Mulaw,
}

impl Encoding {
    /// The characters of this encoding's wire name.
    pub open spec fn spec_wire_name(self) -> Seq<char> {
        match self {
            Encoding::PcmF32le => "pcm_f32le"@,
            Encoding::PcmS16le => "pcm_s16le"@,
            Encoding::Mulaw => "mulaw"@,
        }
    }

    /// The wire name of this encoding.
    pub fn wire_name(&self) -> (r: &'static str)
        ensures
            r@ == self.spec_wire_name(),
    {
        match self {
            Encoding::PcmF32le => "pcm_f32le",
            Encoding::PcmS16le => "pcm_s16le",
            Encoding::Mulaw => "mulaw",
        }
    }
}

impl Default for Encoding {
    fn default() -> (r: Encoding)
        ensures
            r == Encoding::PcmF32le,
    {
        Encoding::PcmF32le
    }
}

/// Whether the stream carries raw samples or a self-describing file.
#[derive(Clone, Copy, Debug, Eq, PartialEq, Structural, Ord, PartialOrd, Hash)]
pub enum Type {
    Raw,
    File,
}

impl Type {
    /// The characters of this type's wire name.
    pub open spec fn spec_wire_name(self) -> Seq<char> {
        match self {
            Type::Raw => "raw"@,
            Type::File => "file"@,
        }
    }

    /// The wire name of this type.
    pub fn wire_name(&self) -> (r: &'static str)
        ensures
            r@ == self.spec_wire_name(),
    {
        match self {
            Type::Raw => "raw",
            Type::File => "file",
        }
    }
}

impl Default for Type {
    fn default() -> (r: Type)
        ensures
            r == Type::Raw,
    {
        Type::Raw
    }
}

} // verus!
