//! SVC_WEAPONANIM: plays an animation of the view model.

use vstd::prelude::*;
use crate::le::{le_i8, lemma_le_injective, lemma_concat_split};
use crate::types::{DeltaDecoderTable, EngineMessageType, SvcWeaponAnim};
use crate::writer::ByteWriter;
use super::{IResult, ParseError, read_i8};

verus! {

impl SvcWeaponAnim {
    /// The bytes of the message after its type byte.
    pub open spec fn spec_bytes(&self) -> Seq<u8> {
        le_i8(self.sequence_number) + le_i8(self.weapon_model_body_group)
    }
}

/// Reading the bytes of a message, whatever follows them, gives back that message and what
/// follows.
pub proof fn law_weapon_anim_roundtrip(m: SvcWeaponAnim, tail: Seq<u8>)
    ensures
        (m.spec_bytes() + tail).len() >= 2,
        forall|m2: SvcWeaponAnim, t2: Seq<u8>|
            m2.spec_bytes() + t2 == m.spec_bytes() + tail ==> m2 == m && t2 == tail,
{
    assert forall|m2: SvcWeaponAnim, t2: Seq<u8>|
        m2.spec_bytes() + t2 == m.spec_bytes() + tail implies m2 == m && t2 == tail by {
        lemma_le_injective();
        lemma_concat_split(m2.spec_bytes(), t2, m.spec_bytes(), tail);
        assert(m.spec_bytes().subrange(0, 1) =~= le_i8(m.sequence_number));
        assert(m2.spec_bytes().subrange(0, 1) =~= le_i8(m2.sequence_number));
        assert(m.spec_bytes().subrange(1, 2) =~= le_i8(m.weapon_model_body_group));
        assert(m2.spec_bytes().subrange(1, 2) =~= le_i8(m2.weapon_model_body_group));
    }
}

pub struct WeaponAnim {}

impl WeaponAnim {
    pub fn parse<'a>(i: &'a [u8], delta_decoders: &mut DeltaDecoderTable) -> (res: IResult<'a, SvcWeaponAnim>)
        ensures
            res is Ok <==> i@.len() >= 2,
            res is Err ==> res == IResult::<SvcWeaponAnim>::Err(ParseError::Eof),
            res matches Ok((rest, m)) ==> i@ == m.spec_bytes() + rest@,
            final(delta_decoders)@ == old(delta_decoders)@,
    {
        let ghost s0 = i@;
        if i.len() < 2 {
            return Err(ParseError::Eof);
        }
        let (i, sequence_number) = read_i8(i)?;
        let (i, weapon_model_body_group) = read_i8(i)?;
        let m = SvcWeaponAnim { sequence_number, weapon_model_body_group };
        assert(s0 =~= m.spec_bytes() + i@);
        Ok((i, m))
    }

    pub fn write(i: SvcWeaponAnim) -> (res: Vec<u8>)
        ensures
            res@ == seq![EngineMessageType::SvcWeaponAnim.spec_id()] + i.spec_bytes(),
    {
        let mut writer = ByteWriter::new();

        writer.append_u8(EngineMessageType::SvcWeaponAnim.as_u8());

        writer.append_i8(i.sequence_number);
        writer.append_i8(i.weapon_model_body_group);

        assert(writer.data@ =~= seq![EngineMessageType::SvcWeaponAnim.spec_id()] + i.spec_bytes());
        writer.data
    }
}

} // verus!
