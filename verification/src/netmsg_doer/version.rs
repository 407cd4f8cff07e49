//! SVC_VERSION: the protocol version of the server.

use vstd::prelude::*;
use crate::le::{le_u32, lemma_le_injective, lemma_concat_split};
use crate::types::{DeltaDecoderTable, EngineMessageType, SvcVersion};
use crate::writer::ByteWriter;
use super::{IResult, ParseError, read_u32};

verus! {

impl SvcVersion {
    /// The bytes of the message after its type byte.
    pub open spec fn spec_bytes(&self) -> Seq<u8> {
        le_u32(self.protocol_version)
    }
}

/// Reading the bytes of a message, whatever follows them, gives back that message and what
/// follows.
pub proof fn law_version_roundtrip(m: SvcVersion, tail: Seq<u8>)
    ensures
        (m.spec_bytes() + tail).len() >= 4,
        forall|m2: SvcVersion, t2: Seq<u8>|
            m2.spec_bytes() + t2 == m.spec_bytes() + tail ==> m2 == m && t2 == tail,
{
    assert forall|m2: SvcVersion, t2: Seq<u8>|
        m2.spec_bytes() + t2 == m.spec_bytes() + tail implies m2 == m && t2 == tail by {
        lemma_le_injective();
        lemma_concat_split(m2.spec_bytes(), t2, m.spec_bytes(), tail);
    }
}

pub struct Version {}

impl Version {
    pub fn parse<'a>(i: &'a [u8], delta_decoders: &mut DeltaDecoderTable) -> (res: IResult<'a, SvcVersion>)
        ensures
            res is Ok <==> i@.len() >= 4,
            res is Err ==> res == IResult::<SvcVersion>::Err(ParseError::Eof),
            res matches Ok((rest, m)) ==> i@ == m.spec_bytes() + rest@,
            final(delta_decoders)@ == old(delta_decoders)@,
    {
        let (i, protocol_version) = read_u32(i)?;
        Ok((i, SvcVersion { protocol_version }))
    }

    pub fn write(i: SvcVersion) -> (res: Vec<u8>)
        ensures
            res@ == seq![EngineMessageType::SvcVersion.spec_id()] + i.spec_bytes(),
    {
        let mut writer = ByteWriter::new();

        writer.append_u8(EngineMessageType::SvcVersion.as_u8());

        writer.append_u32(i.protocol_version);

        assert(writer.data@ =~= seq![EngineMessageType::SvcVersion.spec_id()] + i.spec_bytes());
        writer.data
    }
}

} // verus!
