//! SVC_STOPSOUND: stops the sounds of an entity.

use vstd::prelude::*;
use crate::le::{le_i16, lemma_le_injective, lemma_concat_split};
use crate::types::{EngineMessageType, SvcStopSound};
use crate::writer::ByteWriter;
use super::{IResult, ParseError, read_i16};

verus! {

impl SvcStopSound {
    /// The bytes of the message after its type byte.
    pub open spec fn spec_bytes(&self) -> Seq<u8> {
        le_i16(self.entity_index)
    }
}

/// Reading the bytes of a message, whatever follows them, gives back that message and what
/// follows.
pub proof fn law_stop_sound_roundtrip(m: SvcStopSound, tail: Seq<u8>)
    ensures
        (m.spec_bytes() + tail).len() >= 2,
        forall|m2: SvcStopSound, t2: Seq<u8>|
            m2.spec_bytes() + t2 == m.spec_bytes() + tail ==> m2 == m && t2 == tail,
{
    assert forall|m2: SvcStopSound, t2: Seq<u8>|
        m2.spec_bytes() + t2 == m.spec_bytes() + tail implies m2 == m && t2 == tail by {
        lemma_le_injective();
        lemma_concat_split(m2.spec_bytes(), t2, m.spec_bytes(), tail);
    }
}

pub struct StopSound {}

impl StopSound {
    pub fn parse(i: &[u8]) -> (res: IResult<'_, SvcStopSound>)
        ensures
            res is Ok <==> i@.len() >= 2,
            res is Err ==> res == IResult::<SvcStopSound>::Err(ParseError::Eof),
            res matches Ok((rest, m)) ==> i@ == m.spec_bytes() + rest@,
    {
        let (i, entity_index) = read_i16(i)?;
        Ok((i, SvcStopSound { entity_index }))
    }

    pub fn write(i: SvcStopSound) -> (res: Vec<u8>)
        ensures
            res@ == seq![EngineMessageType::SvcStopSound.spec_id()] + i.spec_bytes(),
    {
        let mut writer = ByteWriter::new();

        writer.append_u8(EngineMessageType::SvcStopSound.as_u8());

        writer.append_i16(i.entity_index);

        assert(writer.data@ =~= seq![EngineMessageType::SvcStopSound.spec_id()] + i.spec_bytes());
        writer.data
    }
}

} // verus!
