//! SVC_STUFFTEXT: a console command for the client to run.

use vstd::prelude::*;
use crate::types::{DeltaDecoderTable, EngineMessageType, SvcStuffText};
use crate::writer::ByteWriter;
use super::{IResult, ParseError};
use super::utils::{null_string, is_c_string, has_nul, lemma_c_string_len_concat, lemma_c_string_split};

verus! {

impl SvcStuffText<'_> {
    /// The bytes of the message after its type byte.
    pub open spec fn spec_bytes(&self) -> Seq<u8> {
        self.command@
    }

    pub open spec fn wf(&self) -> bool {
        is_c_string(self.command@)
    }
}

/// Reading the bytes of a well-formed message, whatever follows them, gives back that message
/// and what follows.
pub proof fn law_stuff_text_roundtrip(m: SvcStuffText, tail: Seq<u8>)
    requires
        m.wf(),
    ensures
        has_nul(m.spec_bytes() + tail),
        forall|m2: SvcStuffText, t2: Seq<u8>|
            m2.wf() && m2.spec_bytes() + t2 == m.spec_bytes() + tail ==> m2.command@ == m.command@ && t2 == tail,
{
    lemma_c_string_len_concat(m.command@, tail);
    assert forall|m2: SvcStuffText, t2: Seq<u8>|
        m2.wf() && m2.spec_bytes() + t2 == m.spec_bytes() + tail implies m2.command@ == m.command@ && t2 == tail by {
        lemma_c_string_split(m2.command@, t2, m.command@, tail);
    }
}

pub struct StuffText {}

impl StuffText {
    pub fn parse<'a>(i: &'a [u8], delta_decoders: &mut DeltaDecoderTable) -> (res: IResult<'a, SvcStuffText<'a>>)
        ensures
            res is Ok <==> has_nul(i@),
            res is Err ==> res == IResult::<SvcStuffText>::Err(ParseError::MissingNul),
            res matches Ok((rest, m)) ==> m.wf() && i@ == m.spec_bytes() + rest@,
            final(delta_decoders)@ == old(delta_decoders)@,
    {
        let (i, command) = null_string(i)?;
        Ok((i, SvcStuffText { command }))
    }

    pub fn write(i: SvcStuffText) -> (res: Vec<u8>)
        ensures
            res@ == seq![EngineMessageType::SvcStuffText.spec_id()] + i.spec_bytes(),
    {
        let mut writer = ByteWriter::new();

        writer.append_u8(EngineMessageType::SvcStuffText.as_u8());

        writer.append_u8_slice(i.command);

        writer.data
    }
}

} // verus!
