//! SVC_VOICEINIT: the voice codec of the server.

use vstd::prelude::*;
use crate::le::{le_i8, lemma_le_injective, lemma_concat_split};
use crate::types::{DeltaDecoderTable, EngineMessageType, SvcVoiceInit};
use crate::writer::ByteWriter;
use super::{IResult, ParseError, read_i8};
use super::utils::{null_string, is_c_string, has_nul, c_string_len, lemma_c_string_len_concat,
    lemma_c_string_split};

verus! {

impl SvcVoiceInit<'_> {
    /// The bytes of the message after its type byte.
    pub open spec fn spec_bytes(&self) -> Seq<u8> {
        self.codec_name@ + le_i8(self.quality)
    }

    pub open spec fn wf(&self) -> bool {
        is_c_string(self.codec_name@)
    }
}

/// Why `s` cannot be read as a voice codec message, if it cannot.
pub open spec fn voice_init_error(s: Seq<u8>) -> Option<ParseError> {
    if !has_nul(s) {
        Some(ParseError::MissingNul)
    } else if s.len() - c_string_len(s) < 1 {
        Some(ParseError::Eof)
    } else {
        None
    }
}

/// Reading the bytes of a well-formed message, whatever follows them, gives back that message
/// and what follows.
pub proof fn law_voice_init_roundtrip(m: SvcVoiceInit, tail: Seq<u8>)
    requires
        m.wf(),
    ensures
        voice_init_error(m.spec_bytes() + tail) is None,
        forall|m2: SvcVoiceInit, t2: Seq<u8>|
            m2.wf() && m2.spec_bytes() + t2 == m.spec_bytes() + tail ==> m2.codec_name@ == m.codec_name@
                && m2.quality == m.quality && t2 == tail,
{
    let s = m.spec_bytes() + tail;
    assert(s =~= m.codec_name@ + (le_i8(m.quality) + tail));
    lemma_c_string_len_concat(m.codec_name@, le_i8(m.quality) + tail);
    assert forall|m2: SvcVoiceInit, t2: Seq<u8>|
        m2.wf() && m2.spec_bytes() + t2 == m.spec_bytes() + tail implies m2.codec_name@ == m.codec_name@
            && m2.quality == m.quality && t2 == tail by {
        assert(s =~= m2.codec_name@ + (le_i8(m2.quality) + t2));
        lemma_c_string_split(m2.codec_name@, le_i8(m2.quality) + t2, m.codec_name@, le_i8(m.quality) + tail);
        lemma_le_injective();
        lemma_concat_split(le_i8(m2.quality), t2, le_i8(m.quality), tail);
    }
}

pub struct VoiceInit {}

impl VoiceInit {
    pub fn parse<'a>(i: &'a [u8], delta_decoders: &mut DeltaDecoderTable) -> (res: IResult<'a, SvcVoiceInit<'a>>)
        ensures
            res is Ok <==> voice_init_error(i@) is None,
            res matches Err(e) ==> voice_init_error(i@) == Some(e),
            res matches Ok((rest, m)) ==> m.wf() && i@ == m.spec_bytes() + rest@,
            final(delta_decoders)@ == old(delta_decoders)@,
    {
        let ghost s0 = i@;
        let (i, codec_name) = null_string(i)?;
        let (i, quality) = read_i8(i)?;
        let m = SvcVoiceInit { codec_name, quality };
        assert(s0 =~= m.spec_bytes() + i@);
        Ok((i, m))
    }

    pub fn write(i: SvcVoiceInit) -> (res: Vec<u8>)
        ensures
            res@ == seq![EngineMessageType::SvcVoiceInit.spec_id()] + i.spec_bytes(),
    {
        let mut writer = ByteWriter::new();

        writer.append_u8(EngineMessageType::SvcVoiceInit.as_u8());

        writer.append_u8_slice(i.codec_name);
        writer.append_i8(i.quality);

        assert(writer.data@ =~= seq![EngineMessageType::SvcVoiceInit.spec_id()] + i.spec_bytes());
        writer.data
    }
}

} // verus!
