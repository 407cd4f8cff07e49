//! SVC_UPDATEUSERINFO: the info string of a player.

use vstd::prelude::*;
use crate::le::{le_u32, lemma_le_injective, lemma_concat_split};
use crate::types::{EngineMessageType, SvcUpdateUserInfo};
use crate::writer::ByteWriter;
use super::{IResult, ParseError, read_u8, read_u32, take};
use super::utils::{null_string, is_c_string, has_nul, c_string_len, lemma_c_string_len_concat,
    lemma_c_string_split};

verus! {

impl SvcUpdateUserInfo<'_> {
    /// The bytes of the message after its type byte.
    pub open spec fn spec_bytes(&self) -> Seq<u8> {
        seq![self.index] + le_u32(self.id) + self.user_info@ + self.cd_key_hash@
    }

    pub open spec fn wf(&self) -> bool {
        is_c_string(self.user_info@) && self.cd_key_hash@.len() == 16
    }
}

/// Why `s` cannot be read as a user info update, if it cannot.
pub open spec fn update_user_info_error(s: Seq<u8>) -> Option<ParseError> {
    if s.len() < 5 {
        Some(ParseError::Eof)
    } else if !has_nul(s.skip(5)) {
        Some(ParseError::MissingNul)
    } else if s.len() - 5 - c_string_len(s.skip(5)) < 16 {
        Some(ParseError::Eof)
    } else {
        None
    }
}

/// Reading the bytes of a well-formed message, whatever follows them, gives back that message
/// and what follows.
pub proof fn law_update_user_info_roundtrip(m: SvcUpdateUserInfo, tail: Seq<u8>)
    requires
        m.wf(),
    ensures
        update_user_info_error(m.spec_bytes() + tail) is None,
        forall|m2: SvcUpdateUserInfo, t2: Seq<u8>|
            m2.wf() && m2.spec_bytes() + t2 == m.spec_bytes() + tail ==> m2.index == m.index
                && m2.id == m.id && m2.user_info@ == m.user_info@ && m2.cd_key_hash@ == m.cd_key_hash@
                && t2 == tail,
{
    let s = m.spec_bytes() + tail;
    let head = seq![m.index] + le_u32(m.id);
    let after = m.cd_key_hash@ + tail;
    assert(s =~= head + (m.user_info@ + after));
    assert(s.skip(5) =~= m.user_info@ + after);
    lemma_c_string_len_concat(m.user_info@, after);
    assert forall|m2: SvcUpdateUserInfo, t2: Seq<u8>|
        m2.wf() && m2.spec_bytes() + t2 == m.spec_bytes() + tail implies m2.index == m.index
            && m2.id == m.id && m2.user_info@ == m.user_info@ && m2.cd_key_hash@ == m.cd_key_hash@
            && t2 == tail by {
        let head2 = seq![m2.index] + le_u32(m2.id);
        let after2 = m2.cd_key_hash@ + t2;
        assert(s =~= head2 + (m2.user_info@ + after2));
        lemma_concat_split(head2, m2.user_info@ + after2, head, m.user_info@ + after);
        lemma_le_injective();
        assert(head.subrange(1, 5) =~= le_u32(m.id));
        assert(head2.subrange(1, 5) =~= le_u32(m2.id));
        assert(head[0] == m.index && head2[0] == m2.index);
        lemma_c_string_split(m2.user_info@, after2, m.user_info@, after);
        lemma_concat_split(m2.cd_key_hash@, t2, m.cd_key_hash@, tail);
    }
}

pub struct UpdateUserInfo {}

impl UpdateUserInfo {
    pub fn parse(i: &[u8]) -> (res: IResult<'_, SvcUpdateUserInfo<'_>>)
        ensures
            res is Ok <==> update_user_info_error(i@) is None,
            res matches Err(e) ==> update_user_info_error(i@) == Some(e),
            res matches Ok((rest, m)) ==> m.wf() && i@ == m.spec_bytes() + rest@,
    {
        let ghost s0 = i@;
        if i.len() < 5 {
            return Err(ParseError::Eof);
        }
        let (i, index) = read_u8(i)?;
        let (i, id) = read_u32(i)?;
        assert(i@ =~= s0.skip(5));
        let (i, user_info) = null_string(i)?;
        let (i, cd_key_hash) = take(i, 16)?;
        let m = SvcUpdateUserInfo { index, id, user_info, cd_key_hash };
        assert(s0 =~= m.spec_bytes() + i@);
        Ok((i, m))
    }

    pub fn write(i: SvcUpdateUserInfo) -> (res: Vec<u8>)
        ensures
            res@ == seq![EngineMessageType::SvcUpdateUserInfo.spec_id()] + i.spec_bytes(),
    {
        let mut writer = ByteWriter::new();

        writer.append_u8(EngineMessageType::SvcUpdateUserInfo.as_u8());

        writer.append_u8(i.index);
        writer.append_u32(i.id);
        writer.append_u8_slice(i.user_info);
        writer.append_u8_slice(i.cd_key_hash);

        assert(writer.data@ =~= seq![EngineMessageType::SvcUpdateUserInfo.spec_id()] + i.spec_bytes());
        writer.data
    }
}

} // verus!
