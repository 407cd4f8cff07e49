//! SVC_SPAWNSTATIC: a static entity of the map.

use vstd::prelude::*;
use crate::le::{le_i8, le_i16, lemma_le_injective, lemma_concat_split};
use crate::types::{EngineMessageType, SvcSpawnStatic};
use crate::writer::ByteWriter;
use super::{IResult, ParseError, read_i8, read_i16, take};

verus! {

impl SvcSpawnStatic {
    /// The bytes of the message after its type byte.
    pub open spec fn spec_bytes(&self) -> Seq<u8> {
        le_i16(self.model_index) + le_i8(self.sequence) + le_i8(self.frame) + le_i16(self.color_map)
            + le_i8(self.skin) + le_i16(self.origin_x) + le_i8(self.rotation_x) + le_i16(
            self.origin_y,
        ) + le_i8(self.rotation_y) + le_i16(self.origin_z) + le_i8(self.rotation_z) + le_i8(
            self.has_render_mode,
        ) + if self.has_render_mode != 0 {
            match self.render_color {
                Some(c) => c@,
                None => Seq::empty(),
            }
        } else {
            Seq::empty()
        }
    }

    /// The two entities hold the same values.
    pub open spec fn same_as(&self, o: Self) -> bool {
        &&& self.model_index == o.model_index
        &&& self.sequence == o.sequence
        &&& self.frame == o.frame
        &&& self.color_map == o.color_map
        &&& self.skin == o.skin
        &&& self.origin_x == o.origin_x
        &&& self.rotation_x == o.rotation_x
        &&& self.origin_y == o.origin_y
        &&& self.rotation_y == o.rotation_y
        &&& self.origin_z == o.origin_z
        &&& self.rotation_z == o.rotation_z
        &&& self.has_render_mode == o.has_render_mode
        &&& match (self.render_color, o.render_color) {
            (Some(a), Some(b)) => a@ == b@,
            (None, None) => true,
            _ => false,
        }
    }

    pub open spec fn wf(&self) -> bool {
        &&& (self.render_color is Some <==> self.has_render_mode != 0)
        &&& (self.render_color matches Some(c) ==> c@.len() == 3)
    }

    /// What the writer needs: the render colour is there when the render mode asks for it.
    pub open spec fn writable(&self) -> bool {
        self.has_render_mode != 0 ==> self.render_color is Some
    }
}

/// The bytes of a static entity can be read: the fixed fields, then the colour when the
/// render mode byte is not zero.
pub open spec fn spawn_static_readable(s: Seq<u8>) -> bool {
    s.len() >= 17 && (s[16] != 0 ==> s.len() >= 20)
}

/// Reading the bytes of a well-formed static entity, whatever follows them, succeeds and can
/// only give back that entity and what follows.
pub proof fn law_spawn_static_roundtrip(m: SvcSpawnStatic, tail: Seq<u8>)
    requires
        m.wf(),
    ensures
        spawn_static_readable(m.spec_bytes() + tail),
        forall|m2: SvcSpawnStatic, t2: Seq<u8>|
            m2.wf() && m2.spec_bytes() + t2 == m.spec_bytes() + tail ==> m2.same_as(m) && t2 == tail,
{
    let s = m.spec_bytes() + tail;
    assert(s[16] == le_i8(m.has_render_mode)[0]);
    let h = m.has_render_mode;
    assert((h as u8 != 0) == (h != 0)) by (bit_vector);
    assert forall|m2: SvcSpawnStatic, t2: Seq<u8>|
        m2.wf() && m2.spec_bytes() + t2 == m.spec_bytes() + tail implies m2.same_as(m) && t2 == tail by {
        lemma_le_injective();
        let f1 = m.spec_bytes().take(17);
        let f2 = m2.spec_bytes().take(17);
        assert(s.take(17) =~= f1);
        assert(s.take(17) =~= f2);
        assert(f1.subrange(0, 2) =~= le_i16(m.model_index));
        assert(f2.subrange(0, 2) =~= le_i16(m2.model_index));
        assert(f1.subrange(2, 3) =~= le_i8(m.sequence));
        assert(f2.subrange(2, 3) =~= le_i8(m2.sequence));
        assert(f1.subrange(3, 4) =~= le_i8(m.frame));
        assert(f2.subrange(3, 4) =~= le_i8(m2.frame));
        assert(f1.subrange(4, 6) =~= le_i16(m.color_map));
        assert(f2.subrange(4, 6) =~= le_i16(m2.color_map));
        assert(f1.subrange(6, 7) =~= le_i8(m.skin));
        assert(f2.subrange(6, 7) =~= le_i8(m2.skin));
        assert(f1.subrange(7, 9) =~= le_i16(m.origin_x));
        assert(f2.subrange(7, 9) =~= le_i16(m2.origin_x));
        assert(f1.subrange(9, 10) =~= le_i8(m.rotation_x));
        assert(f2.subrange(9, 10) =~= le_i8(m2.rotation_x));
        assert(f1.subrange(10, 12) =~= le_i16(m.origin_y));
        assert(f2.subrange(10, 12) =~= le_i16(m2.origin_y));
        assert(f1.subrange(12, 13) =~= le_i8(m.rotation_y));
        assert(f2.subrange(12, 13) =~= le_i8(m2.rotation_y));
        assert(f1.subrange(13, 15) =~= le_i16(m.origin_z));
        assert(f2.subrange(13, 15) =~= le_i16(m2.origin_z));
        assert(f1.subrange(15, 16) =~= le_i8(m.rotation_z));
        assert(f2.subrange(15, 16) =~= le_i8(m2.rotation_z));
        assert(f1.subrange(16, 17) =~= le_i8(m.has_render_mode));
        assert(f2.subrange(16, 17) =~= le_i8(m2.has_render_mode));
        let n = m.spec_bytes().len() as int;
        assert(m2.spec_bytes().len() == n);
        lemma_concat_split(m2.spec_bytes(), t2, m.spec_bytes(), tail);
        if m.has_render_mode != 0 {
            assert(m.spec_bytes().skip(17) =~= m.render_color->Some_0@);
            assert(m2.spec_bytes().skip(17) =~= m2.render_color->Some_0@);
        }
    }
}

pub struct SpawnStatic {}

impl SpawnStatic {
    pub fn parse(i: &[u8]) -> (res: IResult<'_, SvcSpawnStatic>)
        ensures
            res is Ok <==> spawn_static_readable(i@),
            res is Err ==> res == IResult::<SvcSpawnStatic>::Err(ParseError::Eof),
            res matches Ok((rest, m)) ==> m.wf() && i@ == m.spec_bytes() + rest@,
    {
        let ghost s0 = i@;
        if i.len() < 17 {
            return Err(ParseError::Eof);
        }
        let (i, model_index) = read_i16(i)?;
        let (i, sequence) = read_i8(i)?;
        let (i, frame) = read_i8(i)?;
        let (i, color_map) = read_i16(i)?;
        let (i, skin) = read_i8(i)?;
        let (i, origin_x) = read_i16(i)?;
        let (i, rotation_x) = read_i8(i)?;
        let (i, origin_y) = read_i16(i)?;
        let (i, rotation_y) = read_i8(i)?;
        let (i, origin_z) = read_i16(i)?;
        let (i, rotation_z) = read_i8(i)?;
        let (i, has_render_mode) = read_i8(i)?;
        assert((has_render_mode != 0) == (s0[16] != 0)) by {
            assert(s0[16] == le_i8(has_render_mode)[0]);
            assert((has_render_mode as u8 != 0) == (has_render_mode != 0)) by (bit_vector);
        }

        let (i, render_color) = if has_render_mode != 0 {
            let (i, what) = take(i, 3)?;
            (i, Some(vstd::slice::slice_to_vec(what)))
        } else {
            (i, None)
        };

        let m = SvcSpawnStatic {
            model_index,
            sequence,
            frame,
            color_map,
            skin,
            origin_x,
            rotation_x,
            origin_y,
            rotation_y,
            origin_z,
            rotation_z,
            has_render_mode,
            render_color,
        };
        assert(s0 =~= m.spec_bytes() + i@);
        Ok((i, m))
    }

    pub fn write(i: SvcSpawnStatic) -> (res: Vec<u8>)
        requires
            i.writable(),
        ensures
            res@ == seq![EngineMessageType::SvcSpawnStatic.spec_id()] + i.spec_bytes(),
    {
        let mut writer = ByteWriter::new();

        writer.append_u8(EngineMessageType::SvcSpawnStatic.as_u8());

        writer.append_i16(i.model_index);
        writer.append_i8(i.sequence);
        writer.append_i8(i.frame);
        writer.append_i16(i.color_map);
        writer.append_i8(i.skin);
        writer.append_i16(i.origin_x);
        writer.append_i8(i.rotation_x);
        writer.append_i16(i.origin_y);
        writer.append_i8(i.rotation_y);
        writer.append_i16(i.origin_z);
        writer.append_i8(i.rotation_z);
        writer.append_i8(i.has_render_mode);

        if i.has_render_mode != 0 {
            writer.append_u8_slice(i.render_color.unwrap().as_slice());
        }

        assert(writer.data@ =~= seq![EngineMessageType::SvcSpawnStatic.spec_id()] + i.spec_bytes());
        writer.data
    }
}

} // verus!
