//! SVC_TIMESCALE: the speed at which the game runs.

use vstd::prelude::*;
use crate::le::{le_u32, lemma_le_injective, lemma_concat_split};
use crate::types::{EngineMessageType, SvcTimeScale};
use crate::writer::ByteWriter;
use super::{IResult, ParseError, read_u32};

verus! {

impl SvcTimeScale {
    /// The bytes of the message after its type byte: the float's bits, little-endian.
    pub open spec fn spec_bytes(&self) -> Seq<u8> {
        le_u32(self.time_scale)
    }
}

/// Reading the bytes of a message, whatever follows them, gives back that message and what
/// follows.
pub proof fn law_time_scale_roundtrip(m: SvcTimeScale, tail: Seq<u8>)
    ensures
        (m.spec_bytes() + tail).len() >= 4,
        forall|m2: SvcTimeScale, t2: Seq<u8>|
            m2.spec_bytes() + t2 == m.spec_bytes() + tail ==> m2 == m && t2 == tail,
{
    assert forall|m2: SvcTimeScale, t2: Seq<u8>|
        m2.spec_bytes() + t2 == m.spec_bytes() + tail implies m2 == m && t2 == tail by {
        lemma_le_injective();
        lemma_concat_split(m2.spec_bytes(), t2, m.spec_bytes(), tail);
    }
}

pub struct TimeScale {}

impl TimeScale {
    pub fn parse<'a>(i: &'a [u8]) -> (res: IResult<'a, SvcTimeScale>)
        ensures
            res is Ok <==> i@.len() >= 4,
            res is Err ==> res == IResult::<SvcTimeScale>::Err(ParseError::Eof),
            res matches Ok((rest, m)) ==> i@ == m.spec_bytes() + rest@,
    {
        let (i, time_scale) = read_u32(i)?;
        Ok((i, SvcTimeScale { time_scale }))
    }

    pub fn write(i: SvcTimeScale) -> (res: Vec<u8>)
        ensures
            res@ == seq![EngineMessageType::SvcTimeScale.spec_id()] + i.spec_bytes(),
    {
        let mut writer = ByteWriter::new();

        writer.append_u8(EngineMessageType::SvcTimeScale.as_u8());

        writer.append_u32(i.time_scale);

        assert(writer.data@ =~= seq![EngineMessageType::SvcTimeScale.spec_id()] + i.spec_bytes());
        writer.data
    }
}

} // verus!
