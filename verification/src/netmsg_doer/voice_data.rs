//! SVC_VOICEDATA: a piece of a player's voice.

use vstd::prelude::*;
use crate::le::{le_u16, lemma_le_injective, lemma_concat_split};
use crate::types::{DeltaDecoderTable, EngineMessageType, SvcVoiceData};
use crate::writer::ByteWriter;
use super::{IResult, ParseError, read_u8, read_u16, take};

verus! {

impl SvcVoiceData<'_> {
    /// The bytes of the message after its type byte.
    pub open spec fn spec_bytes(&self) -> Seq<u8> {
        seq![self.player_index] + le_u16(self.size) + self.data@
    }

    /// The parser reads as many data bytes as the player index says.
    pub open spec fn wf(&self) -> bool {
        self.data@.len() == self.player_index
    }
}

/// The bytes of a voice message can be read: three header bytes, then as many data bytes as the
/// first byte says.
pub open spec fn voice_data_readable(s: Seq<u8>) -> bool {
    s.len() >= 3 && s.len() - 3 >= s[0]
}

/// Reading the bytes of a well-formed message, whatever follows them, gives back that message
/// and what follows.
pub proof fn law_voice_data_roundtrip(m: SvcVoiceData, tail: Seq<u8>)
    requires
        m.wf(),
    ensures
        voice_data_readable(m.spec_bytes() + tail),
        forall|m2: SvcVoiceData, t2: Seq<u8>|
            m2.wf() && m2.spec_bytes() + t2 == m.spec_bytes() + tail ==> m2.player_index == m.player_index
                && m2.size == m.size && m2.data@ == m.data@ && t2 == tail,
{
    assert forall|m2: SvcVoiceData, t2: Seq<u8>|
        m2.wf() && m2.spec_bytes() + t2 == m.spec_bytes() + tail implies m2.player_index == m.player_index
            && m2.size == m.size && m2.data@ == m.data@ && t2 == tail by {
        let s = m.spec_bytes() + tail;
        assert(s[0] == m.player_index && s[0] == m2.player_index);
        lemma_concat_split(m2.spec_bytes(), t2, m.spec_bytes(), tail);
        lemma_le_injective();
        assert(m.spec_bytes().subrange(1, 3) =~= le_u16(m.size));
        assert(m2.spec_bytes().subrange(1, 3) =~= le_u16(m2.size));
        assert(m.spec_bytes().skip(3) =~= m.data@);
        assert(m2.spec_bytes().skip(3) =~= m2.data@);
    }
}

pub struct VoiceData {}

impl VoiceData {
    pub fn parse<'a>(i: &'a [u8], delta_decoders: &mut DeltaDecoderTable) -> (res: IResult<'a, SvcVoiceData<'a>>)
        ensures
            res is Ok <==> voice_data_readable(i@),
            res is Err ==> res == IResult::<SvcVoiceData>::Err(ParseError::Eof),
            res matches Ok((rest, m)) ==> m.wf() && i@ == m.spec_bytes() + rest@,
            final(delta_decoders)@ == old(delta_decoders)@,
    {
        let ghost s0 = i@;
        if i.len() < 3 {
            return Err(ParseError::Eof);
        }
        let (i, player_index) = read_u8(i)?;
        let (i, size) = read_u16(i)?;
        let (i, data) = take(i, player_index as usize)?;

        let m = SvcVoiceData { player_index, size, data };
        assert(s0 =~= m.spec_bytes() + i@);
        Ok((i, m))
    }

    pub fn write(i: SvcVoiceData) -> (res: Vec<u8>)
        ensures
            res@ == seq![EngineMessageType::SvcVoiceData.spec_id()] + i.spec_bytes(),
    {
        let mut writer = ByteWriter::new();

        writer.append_u8(EngineMessageType::SvcVoiceData.as_u8());

        writer.append_u8(i.player_index);
        writer.append_u16(i.size);
        writer.append_u8_slice(i.data);

        assert(writer.data@ =~= seq![EngineMessageType::SvcVoiceData.spec_id()] + i.spec_bytes());
        writer.data
    }
}

} // verus!
