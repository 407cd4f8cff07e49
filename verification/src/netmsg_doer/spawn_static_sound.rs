//! SVC_SPAWNSTATICSOUND: a sound that plays from a fixed place.

use vstd::prelude::*;
use crate::le::{le_u16, le_i16};
use crate::types::{DeltaDecoderTable, EngineMessageType, SvcSpawnStaticSound};
use crate::writer::{ByteWriter, i16s_le, lemma_i16s_le_len, lemma_i16s_le_3_parts};
use crate::le::{lemma_le_injective, lemma_concat_split};
use super::{IResult, ParseError, read_u8, read_i16, read_u16};

verus! {

impl SvcSpawnStaticSound {
    /// The bytes of the message after its type byte.
    pub open spec fn spec_bytes(&self) -> Seq<u8> {
        i16s_le(self.origin@) + le_u16(self.sound_index) + seq![self.volume, self.attenuation]
            + le_u16(self.entity_index) + seq![self.pitch, self.flags]
    }

    pub open spec fn wf(&self) -> bool {
        self.origin@.len() == 3
    }

    /// The two messages hold the same values.
    pub open spec fn same_as(&self, o: Self) -> bool {
        &&& self.origin@ == o.origin@
        &&& self.sound_index == o.sound_index
        &&& self.volume == o.volume
        &&& self.attenuation == o.attenuation
        &&& self.entity_index == o.entity_index
        &&& self.pitch == o.pitch
        &&& self.flags == o.flags
    }
}

/// Reading the bytes of a well-formed message, whatever follows them, gives back that message
/// and what follows.
pub proof fn law_spawn_static_sound_roundtrip(m: SvcSpawnStaticSound, tail: Seq<u8>)
    requires
        m.wf(),
    ensures
        (m.spec_bytes() + tail).len() >= 14,
        forall|m2: SvcSpawnStaticSound, t2: Seq<u8>|
            m2.wf() && m2.spec_bytes() + t2 == m.spec_bytes() + tail ==> m2.same_as(m) && t2 == tail,
{
    lemma_i16s_le_len(m.origin@);
    assert forall|m2: SvcSpawnStaticSound, t2: Seq<u8>|
        m2.wf() && m2.spec_bytes() + t2 == m.spec_bytes() + tail implies m2.same_as(m) && t2 == tail by {
        lemma_le_injective();
        lemma_i16s_le_len(m2.origin@);
        lemma_concat_split(m2.spec_bytes(), t2, m.spec_bytes(), tail);
        let b1 = m.spec_bytes();
        let b2 = m2.spec_bytes();
        lemma_i16s_le_3_parts(m.origin@);
        lemma_i16s_le_3_parts(m2.origin@);
        assert(b1.subrange(0, 2) =~= le_i16(m.origin@[0]));
        assert(b2.subrange(0, 2) =~= le_i16(m2.origin@[0]));
        assert(b1.subrange(2, 4) =~= le_i16(m.origin@[1]));
        assert(b2.subrange(2, 4) =~= le_i16(m2.origin@[1]));
        assert(b1.subrange(4, 6) =~= le_i16(m.origin@[2]));
        assert(b2.subrange(4, 6) =~= le_i16(m2.origin@[2]));
        assert(m2.origin@ =~= m.origin@);
        assert(b1.subrange(6, 8) =~= le_u16(m.sound_index));
        assert(b2.subrange(6, 8) =~= le_u16(m2.sound_index));
        assert(b1.subrange(10, 12) =~= le_u16(m.entity_index));
        assert(b2.subrange(10, 12) =~= le_u16(m2.entity_index));
        assert(b1[8] == m.volume && b2[8] == m2.volume);
        assert(b1[9] == m.attenuation && b2[9] == m2.attenuation);
        assert(b1[12] == m.pitch && b2[12] == m2.pitch);
        assert(b1[13] == m.flags && b2[13] == m2.flags);
    }
}

pub struct SpawnStaticSound {}

impl SpawnStaticSound {
    pub fn parse<'a>(i: &'a [u8], delta_decoders: &mut DeltaDecoderTable) -> (res: IResult<'a, SvcSpawnStaticSound>)
        ensures
            res is Ok <==> i@.len() >= 14,
            res is Err ==> res == IResult::<SvcSpawnStaticSound>::Err(ParseError::Eof),
            res matches Ok((rest, m)) ==> m.wf() && i@ == m.spec_bytes() + rest@,
            final(delta_decoders)@ == old(delta_decoders)@,
    {
        let ghost s0 = i@;
        if i.len() < 14 {
            return Err(ParseError::Eof);
        }
        let (i, o0) = read_i16(i)?;
        let (i, o1) = read_i16(i)?;
        let (i, o2) = read_i16(i)?;
        let (i, sound_index) = read_u16(i)?;
        let (i, volume) = read_u8(i)?;
        let (i, attenuation) = read_u8(i)?;
        let (i, entity_index) = read_u16(i)?;
        let (i, pitch) = read_u8(i)?;
        let (i, flags) = read_u8(i)?;
        let mut origin: Vec<i16> = Vec::new();
        origin.push(o0);
        origin.push(o1);
        origin.push(o2);
        assert(origin@ =~= seq![o0, o1, o2]);
        let m = SvcSpawnStaticSound {
            origin,
            sound_index,
            volume,
            attenuation,
            entity_index,
            pitch,
            flags,
        };
        proof {
            crate::writer::lemma_i16s_le_3(o0, o1, o2, m.origin@);
        }
        assert(s0 =~= m.spec_bytes() + i@);
        Ok((i, m))
    }

    pub fn write(i: SvcSpawnStaticSound) -> (res: Vec<u8>)
        ensures
            res@ == seq![EngineMessageType::SvcSpawnStaticSound.spec_id()] + i.spec_bytes(),
    {
        let mut writer = ByteWriter::new();

        writer.append_u8(EngineMessageType::SvcSpawnStaticSound.as_u8());

        writer.append_i16_slice(i.origin.as_slice());
        writer.append_u16(i.sound_index);
        writer.append_u8(i.volume);
        writer.append_u8(i.attenuation);
        writer.append_u16(i.entity_index);
        writer.append_u8(i.pitch);
        writer.append_u8(i.flags);

        assert(writer.data@ =~= seq![EngineMessageType::SvcSpawnStaticSound.spec_id()] + i.spec_bytes());
        writer.data
    }
}

} // verus!
