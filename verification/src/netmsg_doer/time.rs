//! SVC_TIME: the server time of a frame.

use vstd::prelude::*;
use crate::le::{le_u32, lemma_le_injective, lemma_concat_split};
use crate::types::{DeltaDecoderTable, EngineMessageType, SvcTime};
use crate::writer::ByteWriter;
use super::{IResult, ParseError, read_u32};

verus! {

impl SvcTime {
    /// The bytes of the message after its type byte: the float's bits, little-endian.
    pub open spec fn spec_bytes(&self) -> Seq<u8> {
        le_u32(self.time)
    }
}

/// Reading the bytes of a message, whatever follows them, gives back that message and what
/// follows.
pub proof fn law_time_roundtrip(m: SvcTime, tail: Seq<u8>)
    ensures
        (m.spec_bytes() + tail).len() >= 4,
        forall|m2: SvcTime, t2: Seq<u8>|
            m2.spec_bytes() + t2 == m.spec_bytes() + tail ==> m2 == m && t2 == tail,
{
    assert forall|m2: SvcTime, t2: Seq<u8>|
        m2.spec_bytes() + t2 == m.spec_bytes() + tail implies m2 == m && t2 == tail by {
        lemma_le_injective();
        lemma_concat_split(m2.spec_bytes(), t2, m.spec_bytes(), tail);
    }
}

pub struct Time {}

impl Time {
    pub fn parse<'a>(i: &'a [u8], delta_decoders: &mut DeltaDecoderTable) -> (res: IResult<'a, SvcTime>)
        ensures
            res is Ok <==> i@.len() >= 4,
            res is Err ==> res == IResult::<SvcTime>::Err(ParseError::Eof),
            res matches Ok((rest, m)) ==> i@ == m.spec_bytes() + rest@,
            final(delta_decoders)@ == old(delta_decoders)@,
    {
        let (i, time) = read_u32(i)?;
        Ok((i, SvcTime { time }))
    }

    pub fn write(i: SvcTime) -> (res: Vec<u8>)
        ensures
            res@ == seq![EngineMessageType::SvcTime.spec_id()] + i.spec_bytes(),
    {
        let mut writer = ByteWriter::new();

        writer.append_u8(EngineMessageType::SvcTime.as_u8());

        writer.append_u32(i.time);

        assert(writer.data@ =~= seq![EngineMessageType::SvcTime.spec_id()] + i.spec_bytes());
        writer.data
    }
}

} // verus!
