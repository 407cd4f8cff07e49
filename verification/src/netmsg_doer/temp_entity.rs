//! SVC_TEMPENTITY: a temporary visual effect.

use vstd::prelude::*;
use crate::le::{le_i8, le_i16, i16_at, lemma_i16_bytes, lemma_le_injective, lemma_concat_split};
use crate::types::{EngineMessageType, SvcTempEntity, TempEntityEntity, TeBeamPoints, TeBspDecal,
    TeTextMessage};
use crate::writer::{ByteWriter, i16s_le, lemma_i16s_le_3_parts};
use super::{IResult, ParseError, read_u8, read_i8, read_i16, take};
use super::utils::{null_string, is_c_string, has_nul, lemma_c_string_split, lemma_c_string_len_concat};

verus! {

/// The number of bytes after the type byte of a temp entity that is kept as raw bytes.
pub open spec fn te_fixed_len(t: u8) -> Option<nat> {
    match t {
        1 => Some(20nat),
        2 => Some(6nat),
        3 => Some(11nat),
        4 => Some(6nat),
        5 => Some(10nat),
        6 => Some(12nat),
        7 => Some(17nat),
        8 => Some(16nat),
        9 => Some(6nat),
        10 => Some(6nat),
        11 => Some(6nat),
        12 => Some(8nat),
        14 => Some(9nat),
        15 => Some(19nat),
        16 => Some(10nat),
        18 => Some(16nat),
        19 => Some(24nat),
        20 => Some(24nat),
        21 => Some(24nat),
        22 => Some(10nat),
        23 => Some(11nat),
        24 => Some(16nat),
        25 => Some(19nat),
        27 => Some(12nat),
        28 => Some(16nat),
        30 => Some(17nat),
        31 => Some(17nat),
        99 => Some(2nat),
        100 => Some(10nat),
        101 => Some(14nat),
        102 => Some(12nat),
        103 => Some(14nat),
        104 => Some(9nat),
        105 => Some(5nat),
        106 => Some(17nat),
        107 => Some(13nat),
        108 => Some(24nat),
        109 => Some(9nat),
        110 => Some(17nat),
        111 => Some(7nat),
        112 => Some(10nat),
        113 => Some(10nat),
        114 => Some(19nat),
        115 => Some(12nat),
        116 => Some(7nat),
        117 => Some(7nat),
        118 => Some(9nat),
        119 => Some(16nat),
        120 => Some(18nat),
        121 => Some(5nat),
        122 => Some(10nat),
        123 => Some(9nat),
        124 => Some(7nat),
        125 => Some(1nat),
        126 => Some(18nat),
        127 => Some(15nat),
        _ => None,
    }
}

/// `t` names a temp entity that the parser knows.
pub open spec fn te_known(t: u8) -> bool {
    t == 0 || t == 13 || t == 29 || te_fixed_len(t) is Some
}

impl TeBeamPoints<'_> {
    pub open spec fn spec_bytes(&self) -> Seq<u8> {
        i16s_le(self.start_position@) + i16s_le(self.end_position@) + le_i16(self.sprite_index)
            + seq![self.start_frame, self.frame_rate, self.life, self.width, self.noise]
            + self.color@ + seq![self.speed]
    }

    pub open spec fn wf(&self) -> bool {
        &&& self.start_position@.len() == 3
        &&& self.end_position@.len() == 3
        &&& self.color@.len() == 4
    }
}

impl TeBeamPoints<'_> {
    /// The two entities hold the same values.
    pub open spec fn same_as(&self, o: Self) -> bool {
        &&& self.start_position@ == o.start_position@
        &&& self.end_position@ == o.end_position@
        &&& self.sprite_index == o.sprite_index
        &&& self.start_frame == o.start_frame
        &&& self.frame_rate == o.frame_rate
        &&& self.life == o.life
        &&& self.width == o.width
        &&& self.noise == o.noise
        &&& self.color@ == o.color@
        &&& self.speed == o.speed
    }
}

impl TeBspDecal<'_> {
    /// The two entities hold the same values.
    pub open spec fn same_as(&self, o: Self) -> bool {
        &&& self.unknown1@ == o.unknown1@
        &&& self.entity_index == o.entity_index
        &&& match (self.unknown2, o.unknown2) {
            (Some(a), Some(b)) => a@ == b@,
            (None, None) => true,
            _ => false,
        }
    }

    pub open spec fn spec_bytes(&self) -> Seq<u8> {
        self.unknown1@ + le_i16(self.entity_index) + if self.entity_index != 0 {
            match self.unknown2 {
                Some(u) => u@,
                None => Seq::empty(),
            }
        } else {
            Seq::empty()
        }
    }

    pub open spec fn wf(&self) -> bool {
        &&& self.unknown1@.len() == 8
        &&& (self.unknown2 is Some <==> self.entity_index != 0)
        &&& (self.unknown2 matches Some(u) ==> u@.len() == 2)
    }

    /// What the writer needs: the trailing bytes are there when the entity index asks for them.
    pub open spec fn writable(&self) -> bool {
        self.entity_index != 0 ==> self.unknown2 is Some
    }
}

impl TeTextMessage<'_> {
    /// The two messages hold the same values.
    pub open spec fn same_as(&self, o: Self) -> bool {
        &&& self.channel == o.channel
        &&& self.x == o.x
        &&& self.y == o.y
        &&& self.effect == o.effect
        &&& self.text_color@ == o.text_color@
        &&& self.effect_color@ == o.effect_color@
        &&& self.fade_in_time == o.fade_in_time
        &&& self.fade_out_time == o.fade_out_time
        &&& self.hold_time == o.hold_time
        &&& self.effect_time == o.effect_time
        &&& self.message@ == o.message@
    }

    pub open spec fn spec_bytes(&self) -> Seq<u8> {
        le_i8(self.channel) + le_i16(self.x) + le_i16(self.y) + le_i8(self.effect)
            + self.text_color@ + self.effect_color@ + le_i16(self.fade_in_time)
            + le_i16(self.fade_out_time) + le_i16(self.hold_time) + if self.effect != 0 {
            match self.effect_time {
                Some(t) => le_i16(t),
                None => Seq::empty(),
            }
        } else {
            Seq::empty()
        } + self.message@
    }

    pub open spec fn wf(&self) -> bool {
        &&& self.text_color@.len() == 4
        &&& self.effect_color@.len() == 4
        &&& (self.effect_time is Some <==> self.effect != 0)
        &&& is_c_string(self.message@)
    }

    /// What the writer needs: the effect time is there when the effect asks for it.
    pub open spec fn writable(&self) -> bool {
        self.effect != 0 ==> self.effect_time is Some
    }
}

impl TempEntityEntity<'_> {
    /// The type byte of this kind of temp entity.
    pub open spec fn type_id(&self) -> u8 {
        match self {
            TempEntityEntity::TeBeamPoints(_) => 0,
            TempEntityEntity::TeBeamEntPoint(_) => 1,
            TempEntityEntity::TeGunshot(_) => 2,
            TempEntityEntity::TeExplosion(_) => 3,
            TempEntityEntity::TeTarExplosion(_) => 4,
            TempEntityEntity::TeSmoke(_) => 5,
            TempEntityEntity::TeTracer(_) => 6,
            TempEntityEntity::TeLightning(_) => 7,
            TempEntityEntity::TeBeamEnts(_) => 8,
            TempEntityEntity::TeSparks(_) => 9,
            TempEntityEntity::TeLavaSplash(_) => 10,
            TempEntityEntity::TeTeleport(_) => 11,
            TempEntityEntity::TeExplosion2(_) => 12,
            TempEntityEntity::TeBspDecal(_) => 13,
            TempEntityEntity::TeImplosion(_) => 14,
            TempEntityEntity::TeSpriteTrail(_) => 15,
            TempEntityEntity::TeSprite(_) => 16,
            TempEntityEntity::TeBeamSprite(_) => 18,
            TempEntityEntity::TeBeamTorus(_) => 19,
            TempEntityEntity::TeBeamDisk(_) => 20,
            TempEntityEntity::TeBeamCylinder(_) => 21,
            TempEntityEntity::TeBeamFollow(_) => 22,
            TempEntityEntity::TeGlowSprite(_) => 23,
            TempEntityEntity::TeBeamRing(_) => 24,
            TempEntityEntity::TeStreakSplash(_) => 25,
            TempEntityEntity::TeDLight(_) => 27,
            TempEntityEntity::TeELight(_) => 28,
            TempEntityEntity::TeTextMessage(_) => 29,
            TempEntityEntity::TeLine(_) => 30,
            TempEntityEntity::TeBox(_) => 31,
            TempEntityEntity::TeKillBeam(_) => 99,
            TempEntityEntity::TeLargeFunnel(_) => 100,
            TempEntityEntity::TeBloodStream(_) => 101,
            TempEntityEntity::TeShowLine(_) => 102,
            TempEntityEntity::TeBlood(_) => 103,
            TempEntityEntity::TeDecal(_) => 104,
            TempEntityEntity::TeFizz(_) => 105,
            TempEntityEntity::TeModel(_) => 106,
            TempEntityEntity::TeExplodeModel(_) => 107,
            TempEntityEntity::TeBreakModel(_) => 108,
            TempEntityEntity::TeGunshotDecal(_) => 109,
            TempEntityEntity::TeSpriteSpray(_) => 110,
            TempEntityEntity::TeArmorRicochet(_) => 111,
            TempEntityEntity::TePlayerDecal(_) => 112,
            TempEntityEntity::TeBubbles(_) => 113,
            TempEntityEntity::TeBubbleTrail(_) => 114,
            TempEntityEntity::TeBloodSprite(_) => 115,
            TempEntityEntity::TeWorldDecal(_) => 116,
            TempEntityEntity::TeWorldDecalHigh(_) => 117,
            TempEntityEntity::TeDecalHigh(_) => 118,
            TempEntityEntity::TeProjectile(_) => 119,
            TempEntityEntity::TeSpray(_) => 120,
            TempEntityEntity::TePlayerSprites(_) => 121,
            TempEntityEntity::TeParticleBurst(_) => 122,
            TempEntityEntity::TeFireField(_) => 123,
            TempEntityEntity::TePlayerAttachment(_) => 124,
            TempEntityEntity::TeKillPlayerAttachment(_) => 125,
            TempEntityEntity::TeMultigunShot(_) => 126,
            TempEntityEntity::TeUserTracer(_) => 127,
        }
    }

    /// The bytes of a temp entity that is kept as raw bytes.
    pub open spec fn raw(&self) -> Option<Seq<u8>> {
        match self {
            TempEntityEntity::TeBeamEntPoint(d) => Some(d@),
            TempEntityEntity::TeGunshot(d) => Some(d@),
            TempEntityEntity::TeExplosion(d) => Some(d@),
            TempEntityEntity::TeTarExplosion(d) => Some(d@),
            TempEntityEntity::TeSmoke(d) => Some(d@),
            TempEntityEntity::TeTracer(d) => Some(d@),
            TempEntityEntity::TeLightning(d) => Some(d@),
            TempEntityEntity::TeBeamEnts(d) => Some(d@),
            TempEntityEntity::TeSparks(d) => Some(d@),
            TempEntityEntity::TeLavaSplash(d) => Some(d@),
            TempEntityEntity::TeTeleport(d) => Some(d@),
            TempEntityEntity::TeExplosion2(d) => Some(d@),
            TempEntityEntity::TeImplosion(d) => Some(d@),
            TempEntityEntity::TeSpriteTrail(d) => Some(d@),
            TempEntityEntity::TeSprite(d) => Some(d@),
            TempEntityEntity::TeBeamSprite(d) => Some(d@),
            TempEntityEntity::TeBeamTorus(d) => Some(d@),
            TempEntityEntity::TeBeamDisk(d) => Some(d@),
            TempEntityEntity::TeBeamCylinder(d) => Some(d@),
            TempEntityEntity::TeBeamFollow(d) => Some(d@),
            TempEntityEntity::TeGlowSprite(d) => Some(d@),
            TempEntityEntity::TeBeamRing(d) => Some(d@),
            TempEntityEntity::TeStreakSplash(d) => Some(d@),
            TempEntityEntity::TeDLight(d) => Some(d@),
            TempEntityEntity::TeELight(d) => Some(d@),
            TempEntityEntity::TeLine(d) => Some(d@),
            TempEntityEntity::TeBox(d) => Some(d@),
            TempEntityEntity::TeKillBeam(d) => Some(d@),
            TempEntityEntity::TeLargeFunnel(d) => Some(d@),
            TempEntityEntity::TeBloodStream(d) => Some(d@),
            TempEntityEntity::TeShowLine(d) => Some(d@),
            TempEntityEntity::TeBlood(d) => Some(d@),
            TempEntityEntity::TeDecal(d) => Some(d@),
            TempEntityEntity::TeFizz(d) => Some(d@),
            TempEntityEntity::TeModel(d) => Some(d@),
            TempEntityEntity::TeExplodeModel(d) => Some(d@),
            TempEntityEntity::TeBreakModel(d) => Some(d@),
            TempEntityEntity::TeGunshotDecal(d) => Some(d@),
            TempEntityEntity::TeSpriteSpray(d) => Some(d@),
            TempEntityEntity::TeArmorRicochet(d) => Some(d@),
            TempEntityEntity::TePlayerDecal(d) => Some(d@),
            TempEntityEntity::TeBubbles(d) => Some(d@),
            TempEntityEntity::TeBubbleTrail(d) => Some(d@),
            TempEntityEntity::TeBloodSprite(d) => Some(d@),
            TempEntityEntity::TeWorldDecal(d) => Some(d@),
            TempEntityEntity::TeWorldDecalHigh(d) => Some(d@),
            TempEntityEntity::TeDecalHigh(d) => Some(d@),
            TempEntityEntity::TeProjectile(d) => Some(d@),
            TempEntityEntity::TeSpray(d) => Some(d@),
            TempEntityEntity::TePlayerSprites(d) => Some(d@),
            TempEntityEntity::TeParticleBurst(d) => Some(d@),
            TempEntityEntity::TeFireField(d) => Some(d@),
            TempEntityEntity::TePlayerAttachment(d) => Some(d@),
            TempEntityEntity::TeKillPlayerAttachment(d) => Some(d@),
            TempEntityEntity::TeMultigunShot(d) => Some(d@),
            TempEntityEntity::TeUserTracer(d) => Some(d@),
            _ => None,
        }
    }

    pub open spec fn spec_bytes(&self) -> Seq<u8> {
        match self {
            TempEntityEntity::TeBeamPoints(b) => b.spec_bytes(),
            TempEntityEntity::TeBspDecal(b) => b.spec_bytes(),
            TempEntityEntity::TeTextMessage(m) => m.spec_bytes(),
            _ => self.raw()->Some_0,
        }
    }

    pub open spec fn wf(&self) -> bool {
        match self {
            TempEntityEntity::TeBeamPoints(b) => b.wf(),
            TempEntityEntity::TeBspDecal(b) => b.wf(),
            TempEntityEntity::TeTextMessage(m) => m.wf(),
            _ => self.raw() matches Some(d) && te_fixed_len(self.type_id()) == Some(d.len()),
        }
    }

    /// The two entities are of the same kind and hold the same values.
    pub open spec fn same_as(&self, o: Self) -> bool {
        match (*self, o) {
            (TempEntityEntity::TeBeamPoints(a), TempEntityEntity::TeBeamPoints(b)) => a.same_as(b),
            (TempEntityEntity::TeBspDecal(a), TempEntityEntity::TeBspDecal(b)) => a.same_as(b),
            (TempEntityEntity::TeTextMessage(a), TempEntityEntity::TeTextMessage(b)) => a.same_as(b),
            _ => self.type_id() == o.type_id() && self.raw() is Some && self.raw() == o.raw(),
        }
    }

    pub open spec fn writable(&self) -> bool {
        match self {
            TempEntityEntity::TeBspDecal(b) => b.writable(),
            TempEntityEntity::TeTextMessage(m) => m.writable(),
            _ => true,
        }
    }
}

impl SvcTempEntity<'_> {
    /// The bytes of the message after its type byte.
    pub open spec fn spec_bytes(&self) -> Seq<u8> {
        seq![self.entity_type] + self.entity.spec_bytes()
    }

    pub open spec fn wf(&self) -> bool {
        self.entity.type_id() == self.entity_type && self.entity.wf()
    }
}

/// Why the bytes of a text message cannot be read, if they cannot.
pub open spec fn text_message_error(p: Seq<u8>) -> Option<ParseError> {
    if p.len() < 20 {
        Some(ParseError::Eof)
    } else if p[5] != 0 && p.len() < 22 {
        Some(ParseError::Eof)
    } else if has_nul(p.skip(if p[5] != 0 { 22 } else { 20 })) {
        None
    } else {
        Some(ParseError::MissingNul)
    }
}

/// Why the bytes of a BSP decal cannot be read, if they cannot.
pub open spec fn bsp_decal_error(p: Seq<u8>) -> Option<ParseError> {
    if p.len() < 10 || (i16_at(p, 8) != 0 && p.len() < 12) {
        Some(ParseError::Eof)
    } else {
        None
    }
}

/// Why `s` cannot be read as a temp entity, if it cannot.
pub open spec fn temp_entity_error(s: Seq<u8>) -> Option<ParseError> {
    if s.len() == 0 {
        Some(ParseError::Eof)
    } else {
        let t = s[0];
        let p = s.drop_first();
        if t == 0 {
            if p.len() >= 24 { None } else { Some(ParseError::Eof) }
        } else if t == 13 {
            bsp_decal_error(p)
        } else if t == 29 {
            text_message_error(p)
        } else if p.len() >= te_fixed_len(t)->Some_0 {
            None
        } else {
            Some(ParseError::Eof)
        }
    }
}

proof fn lemma_beam_points_unique(a: TeBeamPoints, ta: Seq<u8>, b: TeBeamPoints, tb: Seq<u8>)
    requires
        a.wf(),
        b.wf(),
        a.spec_bytes() + ta == b.spec_bytes() + tb,
    ensures
        a.same_as(b),
        ta == tb,
        a.spec_bytes().len() == 24,
{
    lemma_i16s_le_3_parts(a.start_position@);
    lemma_i16s_le_3_parts(a.end_position@);
    lemma_i16s_le_3_parts(b.start_position@);
    lemma_i16s_le_3_parts(b.end_position@);
    lemma_le_injective();
    let x = a.spec_bytes();
    let y = b.spec_bytes();
    assert(x.len() == 24 && y.len() == 24);
    lemma_concat_split(x, ta, y, tb);
    assert(x.subrange(0, 2) =~= le_i16(a.start_position@[0]));
    assert(y.subrange(0, 2) =~= le_i16(b.start_position@[0]));
    assert(x.subrange(2, 4) =~= le_i16(a.start_position@[1]));
    assert(y.subrange(2, 4) =~= le_i16(b.start_position@[1]));
    assert(x.subrange(4, 6) =~= le_i16(a.start_position@[2]));
    assert(y.subrange(4, 6) =~= le_i16(b.start_position@[2]));
    assert(x.subrange(6, 8) =~= le_i16(a.end_position@[0]));
    assert(y.subrange(6, 8) =~= le_i16(b.end_position@[0]));
    assert(x.subrange(8, 10) =~= le_i16(a.end_position@[1]));
    assert(y.subrange(8, 10) =~= le_i16(b.end_position@[1]));
    assert(x.subrange(10, 12) =~= le_i16(a.end_position@[2]));
    assert(y.subrange(10, 12) =~= le_i16(b.end_position@[2]));
    assert(x.subrange(12, 14) =~= le_i16(a.sprite_index));
    assert(y.subrange(12, 14) =~= le_i16(b.sprite_index));
    assert(x[14] == a.start_frame && y[14] == b.start_frame);
    assert(x[15] == a.frame_rate && y[15] == b.frame_rate);
    assert(x[16] == a.life && y[16] == b.life);
    assert(x[17] == a.width && y[17] == b.width);
    assert(x[18] == a.noise && y[18] == b.noise);
    assert(x.subrange(19, 23) =~= a.color@);
    assert(y.subrange(19, 23) =~= b.color@);
    assert(x[23] == a.speed && y[23] == b.speed);
    assert(a.start_position@ =~= b.start_position@);
    assert(a.end_position@ =~= b.end_position@);
}

proof fn lemma_bsp_decal_unique(a: TeBspDecal, ta: Seq<u8>, b: TeBspDecal, tb: Seq<u8>)
    requires
        a.wf(),
        b.wf(),
        a.spec_bytes() + ta == b.spec_bytes() + tb,
    ensures
        a.same_as(b),
        ta == tb,
{
    lemma_le_injective();
    let s = a.spec_bytes() + ta;
    assert(s.subrange(0, 8) =~= a.unknown1@);
    assert(s.subrange(0, 8) =~= b.unknown1@);
    assert(s.subrange(8, 10) =~= le_i16(a.entity_index));
    assert(s.subrange(8, 10) =~= le_i16(b.entity_index));
    if a.entity_index != 0 {
        assert(s.subrange(10, 12) =~= a.unknown2->Some_0@);
        assert(s.subrange(10, 12) =~= b.unknown2->Some_0@);
    }
    assert(a.spec_bytes().len() == b.spec_bytes().len());
    lemma_concat_split(a.spec_bytes(), ta, b.spec_bytes(), tb);
}

proof fn lemma_text_message_unique(a: TeTextMessage, ta: Seq<u8>, b: TeTextMessage, tb: Seq<u8>)
    requires
        a.wf(),
        b.wf(),
        a.spec_bytes() + ta == b.spec_bytes() + tb,
    ensures
        a.same_as(b),
        ta == tb,
{
    lemma_le_injective();
    let s = a.spec_bytes() + ta;
    assert(s.subrange(0, 1) =~= le_i8(a.channel));
    assert(s.subrange(0, 1) =~= le_i8(b.channel));
    assert(s.subrange(1, 3) =~= le_i16(a.x));
    assert(s.subrange(1, 3) =~= le_i16(b.x));
    assert(s.subrange(3, 5) =~= le_i16(a.y));
    assert(s.subrange(3, 5) =~= le_i16(b.y));
    assert(s.subrange(5, 6) =~= le_i8(a.effect));
    assert(s.subrange(5, 6) =~= le_i8(b.effect));
    assert(s.subrange(6, 10) =~= a.text_color@);
    assert(s.subrange(6, 10) =~= b.text_color@);
    assert(s.subrange(10, 14) =~= a.effect_color@);
    assert(s.subrange(10, 14) =~= b.effect_color@);
    assert(s.subrange(14, 16) =~= le_i16(a.fade_in_time));
    assert(s.subrange(14, 16) =~= le_i16(b.fade_in_time));
    assert(s.subrange(16, 18) =~= le_i16(a.fade_out_time));
    assert(s.subrange(16, 18) =~= le_i16(b.fade_out_time));
    assert(s.subrange(18, 20) =~= le_i16(a.hold_time));
    assert(s.subrange(18, 20) =~= le_i16(b.hold_time));
    let off: int = if a.effect != 0 { 22 } else { 20 };
    if a.effect != 0 {
        assert(s.subrange(20, 22) =~= le_i16(a.effect_time->Some_0));
        assert(s.subrange(20, 22) =~= le_i16(b.effect_time->Some_0));
    }
    assert(s.skip(off) =~= a.message@ + ta);
    assert(s.skip(off) =~= b.message@ + tb);
    lemma_c_string_split(a.message@, ta, b.message@, tb);
}

proof fn lemma_entity_unique(a: TempEntityEntity, ta: Seq<u8>, b: TempEntityEntity, tb: Seq<u8>)
    requires
        a.wf(),
        b.wf(),
        a.type_id() == b.type_id(),
        a.spec_bytes() + ta == b.spec_bytes() + tb,
    ensures
        a.same_as(b),
        ta == tb,
{
    match (a, b) {
        (TempEntityEntity::TeBeamPoints(x), TempEntityEntity::TeBeamPoints(y)) => {
            lemma_beam_points_unique(x, ta, y, tb);
        },
        (TempEntityEntity::TeBspDecal(x), TempEntityEntity::TeBspDecal(y)) => {
            lemma_bsp_decal_unique(x, ta, y, tb);
        },
        (TempEntityEntity::TeTextMessage(x), TempEntityEntity::TeTextMessage(y)) => {
            lemma_text_message_unique(x, ta, y, tb);
        },
        _ => {
            lemma_concat_split(a.spec_bytes(), ta, b.spec_bytes(), tb);
        },
    }
}

proof fn lemma_entity_readable(e: TempEntityEntity, tail: Seq<u8>)
    requires
        e.wf(),
    ensures
        temp_entity_error(seq![e.type_id()] + e.spec_bytes() + tail) is None,
{
    let s = seq![e.type_id()] + e.spec_bytes() + tail;
    let p = s.drop_first();
    assert(p =~= e.spec_bytes() + tail);
    match e {
        TempEntityEntity::TeBeamPoints(b) => {
            lemma_i16s_le_3_parts(b.start_position@);
            lemma_i16s_le_3_parts(b.end_position@);
        },
        TempEntityEntity::TeBspDecal(b) => {
            assert(p.subrange(8, 10) =~= le_i16(b.entity_index));
            lemma_i16_bytes(p, 8);
            lemma_le_injective();
        },
        TempEntityEntity::TeTextMessage(m) => {
            assert(p[5] == le_i8(m.effect)[0]);
            let ef = m.effect;
            assert((ef as u8 != 0) == (ef != 0)) by (bit_vector);
            let off: int = if m.effect != 0 { 22 } else { 20 };
            assert(p.skip(off) =~= m.message@ + tail);
            lemma_c_string_len_concat(m.message@, tail);
        },
        _ => {},
    }
}

/// A temp entity of type `t` that is kept as raw bytes takes `n` bytes after its type byte: input
/// that starts with `t` can be read just when it holds the type byte and `n` more bytes, and a
/// well-formed entity of that type is `n + 1` bytes long and of the kind that `kind` accepts.
pub open spec fn te_takes(t: u8, n: nat, kind: spec_fn(TempEntityEntity) -> bool) -> bool {
    &&& forall|s: Seq<u8>| #![trigger temp_entity_error(s)]
        s.len() >= 1 && s[0] == t ==> (temp_entity_error(s) is None <==> s.len() >= n + 1)
    &&& forall|m: SvcTempEntity| #![trigger m.spec_bytes()]
        m.wf() && m.entity_type == t ==> m.spec_bytes().len() == n + 1 && kind(m.entity)
}

proof fn lemma_te_takes(t: u8, n: nat)
    requires
        te_fixed_len(t) == Some(n),
    ensures
        forall|s: Seq<u8>| #![trigger temp_entity_error(s)]
            s.len() >= 1 && s[0] == t ==> (temp_entity_error(s) is None <==> s.len() >= n + 1),
        forall|m: SvcTempEntity| #![trigger m.spec_bytes()]
            m.wf() && m.entity_type == t ==> m.spec_bytes().len() == n + 1 && m.entity.type_id() == t
                && m.entity.raw() is Some,
{
    assert forall|s: Seq<u8>| #![trigger temp_entity_error(s)]
        s.len() >= 1 && s[0] == t implies (temp_entity_error(s) is None <==> s.len() >= n + 1) by {
        assert(s.drop_first().len() == s.len() - 1);
    }
    assert forall|m: SvcTempEntity| #![trigger m.spec_bytes()]
        m.wf() && m.entity_type == t implies m.spec_bytes().len() == n + 1 && m.entity.type_id() == t
            && m.entity.raw() is Some by {
        assert(t != 0 && t != 13 && t != 29);
    }
}

/// The length and kind of each temp entity that is kept as raw bytes, by its type byte: a
/// gunshot (type 2) takes 6 bytes, an explosion (type 3) 11, and so on through the protocol's
/// types.
pub proof fn law_temp_entity_raw_lengths()
    ensures
        te_takes(1, 20, |e: TempEntityEntity| e is TeBeamEntPoint),
        te_takes(2, 6, |e: TempEntityEntity| e is TeGunshot),
        te_takes(3, 11, |e: TempEntityEntity| e is TeExplosion),
        te_takes(4, 6, |e: TempEntityEntity| e is TeTarExplosion),
        te_takes(5, 10, |e: TempEntityEntity| e is TeSmoke),
        te_takes(6, 12, |e: TempEntityEntity| e is TeTracer),
        te_takes(7, 17, |e: TempEntityEntity| e is TeLightning),
        te_takes(8, 16, |e: TempEntityEntity| e is TeBeamEnts),
        te_takes(9, 6, |e: TempEntityEntity| e is TeSparks),
        te_takes(10, 6, |e: TempEntityEntity| e is TeLavaSplash),
        te_takes(11, 6, |e: TempEntityEntity| e is TeTeleport),
        te_takes(12, 8, |e: TempEntityEntity| e is TeExplosion2),
        te_takes(14, 9, |e: TempEntityEntity| e is TeImplosion),
        te_takes(15, 19, |e: TempEntityEntity| e is TeSpriteTrail),
        te_takes(16, 10, |e: TempEntityEntity| e is TeSprite),
        te_takes(18, 16, |e: TempEntityEntity| e is TeBeamSprite),
        te_takes(19, 24, |e: TempEntityEntity| e is TeBeamTorus),
        te_takes(20, 24, |e: TempEntityEntity| e is TeBeamDisk),
        te_takes(21, 24, |e: TempEntityEntity| e is TeBeamCylinder),
        te_takes(22, 10, |e: TempEntityEntity| e is TeBeamFollow),
        te_takes(23, 11, |e: TempEntityEntity| e is TeGlowSprite),
        te_takes(24, 16, |e: TempEntityEntity| e is TeBeamRing),
        te_takes(25, 19, |e: TempEntityEntity| e is TeStreakSplash),
        te_takes(27, 12, |e: TempEntityEntity| e is TeDLight),
        te_takes(28, 16, |e: TempEntityEntity| e is TeELight),
        te_takes(30, 17, |e: TempEntityEntity| e is TeLine),
        te_takes(31, 17, |e: TempEntityEntity| e is TeBox),
        te_takes(99, 2, |e: TempEntityEntity| e is TeKillBeam),
        te_takes(100, 10, |e: TempEntityEntity| e is TeLargeFunnel),
        te_takes(101, 14, |e: TempEntityEntity| e is TeBloodStream),
        te_takes(102, 12, |e: TempEntityEntity| e is TeShowLine),
        te_takes(103, 14, |e: TempEntityEntity| e is TeBlood),
        te_takes(104, 9, |e: TempEntityEntity| e is TeDecal),
        te_takes(105, 5, |e: TempEntityEntity| e is TeFizz),
        te_takes(106, 17, |e: TempEntityEntity| e is TeModel),
        te_takes(107, 13, |e: TempEntityEntity| e is TeExplodeModel),
        te_takes(108, 24, |e: TempEntityEntity| e is TeBreakModel),
        te_takes(109, 9, |e: TempEntityEntity| e is TeGunshotDecal),
        te_takes(110, 17, |e: TempEntityEntity| e is TeSpriteSpray),
        te_takes(111, 7, |e: TempEntityEntity| e is TeArmorRicochet),
        te_takes(112, 10, |e: TempEntityEntity| e is TePlayerDecal),
        te_takes(113, 10, |e: TempEntityEntity| e is TeBubbles),
        te_takes(114, 19, |e: TempEntityEntity| e is TeBubbleTrail),
        te_takes(115, 12, |e: TempEntityEntity| e is TeBloodSprite),
        te_takes(116, 7, |e: TempEntityEntity| e is TeWorldDecal),
        te_takes(117, 7, |e: TempEntityEntity| e is TeWorldDecalHigh),
        te_takes(118, 9, |e: TempEntityEntity| e is TeDecalHigh),
        te_takes(119, 16, |e: TempEntityEntity| e is TeProjectile),
        te_takes(120, 18, |e: TempEntityEntity| e is TeSpray),
        te_takes(121, 5, |e: TempEntityEntity| e is TePlayerSprites),
        te_takes(122, 10, |e: TempEntityEntity| e is TeParticleBurst),
        te_takes(123, 9, |e: TempEntityEntity| e is TeFireField),
        te_takes(124, 7, |e: TempEntityEntity| e is TePlayerAttachment),
        te_takes(125, 1, |e: TempEntityEntity| e is TeKillPlayerAttachment),
        te_takes(126, 18, |e: TempEntityEntity| e is TeMultigunShot),
        te_takes(127, 15, |e: TempEntityEntity| e is TeUserTracer),
{
    lemma_te_takes(1, 20);
    lemma_te_takes(2, 6);
    lemma_te_takes(3, 11);
    lemma_te_takes(4, 6);
    lemma_te_takes(5, 10);
    lemma_te_takes(6, 12);
    lemma_te_takes(7, 17);
    lemma_te_takes(8, 16);
    lemma_te_takes(9, 6);
    lemma_te_takes(10, 6);
    lemma_te_takes(11, 6);
    lemma_te_takes(12, 8);
    lemma_te_takes(14, 9);
    lemma_te_takes(15, 19);
    lemma_te_takes(16, 10);
    lemma_te_takes(18, 16);
    lemma_te_takes(19, 24);
    lemma_te_takes(20, 24);
    lemma_te_takes(21, 24);
    lemma_te_takes(22, 10);
    lemma_te_takes(23, 11);
    lemma_te_takes(24, 16);
    lemma_te_takes(25, 19);
    lemma_te_takes(27, 12);
    lemma_te_takes(28, 16);
    lemma_te_takes(30, 17);
    lemma_te_takes(31, 17);
    lemma_te_takes(99, 2);
    lemma_te_takes(100, 10);
    lemma_te_takes(101, 14);
    lemma_te_takes(102, 12);
    lemma_te_takes(103, 14);
    lemma_te_takes(104, 9);
    lemma_te_takes(105, 5);
    lemma_te_takes(106, 17);
    lemma_te_takes(107, 13);
    lemma_te_takes(108, 24);
    lemma_te_takes(109, 9);
    lemma_te_takes(110, 17);
    lemma_te_takes(111, 7);
    lemma_te_takes(112, 10);
    lemma_te_takes(113, 10);
    lemma_te_takes(114, 19);
    lemma_te_takes(115, 12);
    lemma_te_takes(116, 7);
    lemma_te_takes(117, 7);
    lemma_te_takes(118, 9);
    lemma_te_takes(119, 16);
    lemma_te_takes(120, 18);
    lemma_te_takes(121, 5);
    lemma_te_takes(122, 10);
    lemma_te_takes(123, 9);
    lemma_te_takes(124, 7);
    lemma_te_takes(125, 1);
    lemma_te_takes(126, 18);
    lemma_te_takes(127, 15);
}

/// A temp entity that was read can be written, and writing it gives back its type byte
/// followed by the bytes that were read.
pub proof fn law_temp_entity_read_then_write(i: Seq<u8>, m: SvcTempEntity, rest: Seq<u8>)
    requires
        m.wf(),
        i == m.spec_bytes() + rest,
    ensures
        m.entity.writable(),
        seq![EngineMessageType::SvcTempEntity.spec_id()] + m.spec_bytes()
            == seq![EngineMessageType::SvcTempEntity.spec_id()] + i.take(i.len() - rest.len()),
{
    assert(i.take(i.len() - rest.len()) =~= m.spec_bytes());
}

/// Reading the bytes of a well-formed temp entity, whatever follows them, succeeds and gives
/// back that entity and what follows.
pub proof fn law_temp_entity_roundtrip(m: SvcTempEntity, tail: Seq<u8>)
    requires
        m.wf(),
    ensures
        temp_entity_error(m.spec_bytes() + tail) is None,
        forall|m2: SvcTempEntity, t2: Seq<u8>|
            m2.wf() && m2.spec_bytes() + t2 == m.spec_bytes() + tail ==> m2.entity_type == m.entity_type
                && m2.entity.same_as(m.entity) && t2 == tail,
{
    let s = m.spec_bytes() + tail;
    lemma_entity_readable(m.entity, tail);
    assert(s =~= seq![m.entity.type_id()] + m.entity.spec_bytes() + tail);
    assert forall|m2: SvcTempEntity, t2: Seq<u8>|
        m2.wf() && m2.spec_bytes() + t2 == m.spec_bytes() + tail implies m2.entity_type == m.entity_type
            && m2.entity.same_as(m.entity) && t2 == tail by {
        assert(s[0] == m.entity_type && s[0] == m2.entity_type);
        assert(s.drop_first() =~= m.entity.spec_bytes() + tail);
        assert(s.drop_first() =~= m2.entity.spec_bytes() + t2);
        lemma_entity_unique(m2.entity, t2, m.entity, tail);
    }
}

pub struct TempEntity {}

impl TempEntity {
    fn parse_beam_points(i: &[u8]) -> (res: IResult<'_, TeBeamPoints<'_>>)
        ensures
            res is Ok <==> i@.len() >= 24,
            res is Err ==> res == IResult::<TeBeamPoints>::Err(ParseError::Eof),
            res matches Ok((rest, b)) ==> b.wf() && i@ == b.spec_bytes() + rest@,
    {
        let i0 = i;
        let ghost s0 = i@;
        if i.len() < 24 {
            return Err(ParseError::Eof);
        }
        let (i, a0) = read_i16(i)?;
        let (i, a1) = read_i16(i)?;
        let (i, a2) = read_i16(i)?;
        let (i, b0) = read_i16(i)?;
        let (i, b1) = read_i16(i)?;
        let (i, b2) = read_i16(i)?;
        let (i, sprite_index) = read_i16(i)?;
        let (i, start_frame) = read_u8(i)?;
        let (i, frame_rate) = read_u8(i)?;
        let (i, life) = read_u8(i)?;
        let (i, width) = read_u8(i)?;
        let (i, noise) = read_u8(i)?;
        let (i, color) = take(i, 4)?;
        let (i, speed) = read_u8(i)?;
        let mut start_position: Vec<i16> = Vec::new();
        start_position.push(a0);
        start_position.push(a1);
        start_position.push(a2);
        let mut end_position: Vec<i16> = Vec::new();
        end_position.push(b0);
        end_position.push(b1);
        end_position.push(b2);
        assert(start_position@ =~= seq![a0, a1, a2]);
        assert(end_position@ =~= seq![b0, b1, b2]);
        let b = TeBeamPoints {
            start_position, end_position, sprite_index, start_frame, frame_rate, life, width, noise,
            color, speed,
        };
        proof {
            crate::writer::lemma_i16s_le_3(a0, a1, a2, b.start_position@);
            crate::writer::lemma_i16s_le_3(b0, b1, b2, b.end_position@);
            assert(s0 =~= b.spec_bytes() + i@);
        }
        Ok((i, b))
    }

    fn parse_bsp_decal(i: &[u8]) -> (res: IResult<'_, TeBspDecal<'_>>)
        ensures
            res is Ok <==> bsp_decal_error(i@) is None,
            res matches Err(e) ==> bsp_decal_error(i@) == Some(e),
            res matches Ok((rest, b)) ==> b.wf() && i@ == b.spec_bytes() + rest@,
    {
        let ghost s0 = i@;
        if i.len() < 10 {
            return Err(ParseError::Eof);
        }
        let (i, unknown1) = take(i, 8)?;
        let (i, entity_index) = read_i16(i)?;
        assert(i16_at(s0, 8) == entity_index) by {
            crate::le::lemma_i16_roundtrip(entity_index);
            assert(s0.subrange(8, 10) =~= le_i16(entity_index));
        }
        let (i, unknown2) = if entity_index != 0 {
            let (i, u) = take(i, 2)?;
            (i, Some(u))
        } else {
            (i, None)
        };
        let b = TeBspDecal { unknown1, entity_index, unknown2 };
        assert(s0 =~= b.spec_bytes() + i@);
        Ok((i, b))
    }

    fn parse_text_message(i: &[u8]) -> (res: IResult<'_, TeTextMessage<'_>>)
        ensures
            res is Ok <==> text_message_error(i@) is None,
            res matches Err(e) ==> text_message_error(i@) == Some(e),
            res matches Ok((rest, m)) ==> m.wf() && i@ == m.spec_bytes() + rest@,
    {
        let ghost s0 = i@;
        if i.len() < 20 {
            return Err(ParseError::Eof);
        }
        let (i, channel) = read_i8(i)?;
        let (i, x) = read_i16(i)?;
        let (i, y) = read_i16(i)?;
        let (i, effect) = read_i8(i)?;
        let (i, text_color) = take(i, 4)?;
        let (i, effect_color) = take(i, 4)?;
        let (i, fade_in_time) = read_i16(i)?;
        let (i, fade_out_time) = read_i16(i)?;
        let (i, hold_time) = read_i16(i)?;
        let ghost s1 = i@;
        assert((effect != 0) == (s0[5] != 0)) by {
            assert(s0[5] == le_i8(effect)[0]);
            assert((effect as u8 != 0) == (effect != 0)) by (bit_vector);
        }
        let (i, effect_time) = if effect != 0 {
            let (i, t) = read_i16(i)?;
            (i, Some(t))
        } else {
            (i, None)
        };
        assert(i@ =~= s0.skip(if s0[5] != 0 { 22 } else { 20 }));
        let (i, message) = null_string(i)?;
        let m = TeTextMessage {
            channel, x, y, effect, text_color, effect_color, fade_in_time, fade_out_time, hold_time,
            effect_time, message,
        };
        assert(s0 =~= m.spec_bytes() + i@);
        Ok((i, m))
    }

    /// Reads a temp entity: its type byte, then the bytes of that kind of entity.
    pub fn parse(i: &[u8]) -> (res: IResult<'_, SvcTempEntity<'_>>)
        requires
            i@.len() >= 1 ==> te_known(i@[0]),
        ensures
            res is Ok <==> temp_entity_error(i@) is None,
            res matches Err(e) ==> temp_entity_error(i@) == Some(e),
            res matches Ok((rest, m)) ==> m.wf() && i@ == m.spec_bytes() + rest@,
    {
        let ghost s0 = i@;
        let (i, entity_type) = read_u8(i)?;
        let ghost s1 = i@;
        assert(s1 =~= s0.drop_first());
        let (i, entity) = match entity_type {
            0 => {
                let (i, b) = Self::parse_beam_points(i)?;
                (i, TempEntityEntity::TeBeamPoints(b))
            }
            13 => {
                let (i, b) = Self::parse_bsp_decal(i)?;
                (i, TempEntityEntity::TeBspDecal(b))
            }
            29 => {
                let (i, m) = Self::parse_text_message(i)?;
                (i, TempEntityEntity::TeTextMessage(m))
            }
            _ => {
                let (i, d) = take(i, te_payload_len(entity_type))?;
                (i, raw_entity(entity_type, d))
            }
        };
        let m = SvcTempEntity { entity_type, entity };
        assert(s0 =~= m.spec_bytes() + i@);
        Ok((i, m))
    }

    /// Writes the message type byte, the entity's type byte, then the entity's bytes.
    pub fn write(i: SvcTempEntity) -> (res: Vec<u8>)
        requires
            i.entity.writable(),
        ensures
            res@ == seq![EngineMessageType::SvcTempEntity.spec_id()] + i.spec_bytes(),
    {
        let mut writer = ByteWriter::new();

        writer.append_u8(EngineMessageType::SvcTempEntity.as_u8());

        writer.append_u8(i.entity_type);

        match i.entity {
            TempEntityEntity::TeBeamPoints(i) => {
                writer.append_i16_slice(i.start_position.as_slice());
                writer.append_i16_slice(i.end_position.as_slice());
                writer.append_i16(i.sprite_index);
                writer.append_u8(i.start_frame);
                writer.append_u8(i.frame_rate);
                writer.append_u8(i.life);
                writer.append_u8(i.width);
                writer.append_u8(i.noise);
                writer.append_u8_slice(i.color);
                writer.append_u8(i.speed);
            }
            TempEntityEntity::TeBspDecal(i) => {
                writer.append_u8_slice(i.unknown1);
                writer.append_i16(i.entity_index);
                if i.entity_index != 0 {
                    writer.append_u8_slice(i.unknown2.unwrap());
                }
            }
            TempEntityEntity::TeTextMessage(i) => {
                writer.append_i8(i.channel);
                writer.append_i16(i.x);
                writer.append_i16(i.y);
                writer.append_i8(i.effect);
                writer.append_u8_slice(i.text_color);
                writer.append_u8_slice(i.effect_color);
                writer.append_i16(i.fade_in_time);
                writer.append_i16(i.fade_out_time);
                writer.append_i16(i.hold_time);

                if i.effect != 0 {
                    writer.append_i16(i.effect_time.unwrap());
                }

                writer.append_u8_slice(i.message);
            }
            TempEntityEntity::TeBeamEntPoint(d) => writer.append_u8_slice(d),
            TempEntityEntity::TeGunshot(d) => writer.append_u8_slice(d),
            TempEntityEntity::TeExplosion(d) => writer.append_u8_slice(d),
            TempEntityEntity::TeTarExplosion(d) => writer.append_u8_slice(d),
            TempEntityEntity::TeSmoke(d) => writer.append_u8_slice(d),
            TempEntityEntity::TeTracer(d) => writer.append_u8_slice(d),
            TempEntityEntity::TeLightning(d) => writer.append_u8_slice(d),
            TempEntityEntity::TeBeamEnts(d) => writer.append_u8_slice(d),
            TempEntityEntity::TeSparks(d) => writer.append_u8_slice(d),
            TempEntityEntity::TeLavaSplash(d) => writer.append_u8_slice(d),
            TempEntityEntity::TeTeleport(d) => writer.append_u8_slice(d),
            TempEntityEntity::TeExplosion2(d) => writer.append_u8_slice(d),
            TempEntityEntity::TeImplosion(d) => writer.append_u8_slice(d),
            TempEntityEntity::TeSpriteTrail(d) => writer.append_u8_slice(d),
            TempEntityEntity::TeSprite(d) => writer.append_u8_slice(d),
            TempEntityEntity::TeBeamSprite(d) => writer.append_u8_slice(d),
            TempEntityEntity::TeBeamTorus(d) => writer.append_u8_slice(d),
            TempEntityEntity::TeBeamDisk(d) => writer.append_u8_slice(d),
            TempEntityEntity::TeBeamCylinder(d) => writer.append_u8_slice(d),
            TempEntityEntity::TeBeamFollow(d) => writer.append_u8_slice(d),
            TempEntityEntity::TeGlowSprite(d) => writer.append_u8_slice(d),
            TempEntityEntity::TeBeamRing(d) => writer.append_u8_slice(d),
            TempEntityEntity::TeStreakSplash(d) => writer.append_u8_slice(d),
            TempEntityEntity::TeDLight(d) => writer.append_u8_slice(d),
            TempEntityEntity::TeELight(d) => writer.append_u8_slice(d),
            TempEntityEntity::TeLine(d) => writer.append_u8_slice(d),
            TempEntityEntity::TeBox(d) => writer.append_u8_slice(d),
            TempEntityEntity::TeKillBeam(d) => writer.append_u8_slice(d),
            TempEntityEntity::TeLargeFunnel(d) => writer.append_u8_slice(d),
            TempEntityEntity::TeBloodStream(d) => writer.append_u8_slice(d),
            TempEntityEntity::TeShowLine(d) => writer.append_u8_slice(d),
            TempEntityEntity::TeBlood(d) => writer.append_u8_slice(d),
            TempEntityEntity::TeDecal(d) => writer.append_u8_slice(d),
            TempEntityEntity::TeFizz(d) => writer.append_u8_slice(d),
            TempEntityEntity::TeModel(d) => writer.append_u8_slice(d),
            TempEntityEntity::TeExplodeModel(d) => writer.append_u8_slice(d),
            TempEntityEntity::TeBreakModel(d) => writer.append_u8_slice(d),
            TempEntityEntity::TeGunshotDecal(d) => writer.append_u8_slice(d),
            TempEntityEntity::TeSpriteSpray(d) => writer.append_u8_slice(d),
            TempEntityEntity::TeArmorRicochet(d) => writer.append_u8_slice(d),
            TempEntityEntity::TePlayerDecal(d) => writer.append_u8_slice(d),
            TempEntityEntity::TeBubbles(d) => writer.append_u8_slice(d),
            TempEntityEntity::TeBubbleTrail(d) => writer.append_u8_slice(d),
            TempEntityEntity::TeBloodSprite(d) => writer.append_u8_slice(d),
            TempEntityEntity::TeWorldDecal(d) => writer.append_u8_slice(d),
            TempEntityEntity::TeWorldDecalHigh(d) => writer.append_u8_slice(d),
            TempEntityEntity::TeDecalHigh(d) => writer.append_u8_slice(d),
            TempEntityEntity::TeProjectile(d) => writer.append_u8_slice(d),
            TempEntityEntity::TeSpray(d) => writer.append_u8_slice(d),
            TempEntityEntity::TePlayerSprites(d) => writer.append_u8_slice(d),
            TempEntityEntity::TeParticleBurst(d) => writer.append_u8_slice(d),
            TempEntityEntity::TeFireField(d) => writer.append_u8_slice(d),
            TempEntityEntity::TePlayerAttachment(d) => writer.append_u8_slice(d),
            TempEntityEntity::TeKillPlayerAttachment(d) => writer.append_u8_slice(d),
            TempEntityEntity::TeMultigunShot(d) => writer.append_u8_slice(d),
            TempEntityEntity::TeUserTracer(d) => writer.append_u8_slice(d),
        }
        assert(writer.data@ =~= seq![EngineMessageType::SvcTempEntity.spec_id()] + i.spec_bytes());
        writer.data
    }
}

/// The number of bytes of a temp entity that is kept as raw bytes.
fn te_payload_len(t: u8) -> (res: usize)
    requires
        te_fixed_len(t) is Some,
    ensures
        te_fixed_len(t) == Some(res as nat),
{
    match t {
        1 => 20,
        2 => 6,
        3 => 11,
        4 => 6,
        5 => 10,
        6 => 12,
        7 => 17,
        8 => 16,
        9 => 6,
        10 => 6,
        11 => 6,
        12 => 8,
        14 => 9,
        15 => 19,
        16 => 10,
        18 => 16,
        19 => 24,
        20 => 24,
        21 => 24,
        22 => 10,
        23 => 11,
        24 => 16,
        25 => 19,
        27 => 12,
        28 => 16,
        30 => 17,
        31 => 17,
        99 => 2,
        100 => 10,
        101 => 14,
        102 => 12,
        103 => 14,
        104 => 9,
        105 => 5,
        106 => 17,
        107 => 13,
        108 => 24,
        109 => 9,
        110 => 17,
        111 => 7,
        112 => 10,
        113 => 10,
        114 => 19,
        115 => 12,
        116 => 7,
        117 => 7,
        118 => 9,
        119 => 16,
        120 => 18,
        121 => 5,
        122 => 10,
        123 => 9,
        124 => 7,
        125 => 1,
        126 => 18,
        127 => 15,
        _ => 0,
    }
}

/// The temp entity of type `t` that holds the raw bytes `d`.
fn raw_entity<'a>(t: u8, d: &'a [u8]) -> (res: TempEntityEntity<'a>)
    requires
        te_fixed_len(t) is Some,
    ensures
        res.type_id() == t,
        res.raw() == Some(d@),
{
    match t {
        1 => TempEntityEntity::TeBeamEntPoint(d),
        2 => TempEntityEntity::TeGunshot(d),
        3 => TempEntityEntity::TeExplosion(d),
        4 => TempEntityEntity::TeTarExplosion(d),
        5 => TempEntityEntity::TeSmoke(d),
        6 => TempEntityEntity::TeTracer(d),
        7 => TempEntityEntity::TeLightning(d),
        8 => TempEntityEntity::TeBeamEnts(d),
        9 => TempEntityEntity::TeSparks(d),
        10 => TempEntityEntity::TeLavaSplash(d),
        11 => TempEntityEntity::TeTeleport(d),
        12 => TempEntityEntity::TeExplosion2(d),
        14 => TempEntityEntity::TeImplosion(d),
        15 => TempEntityEntity::TeSpriteTrail(d),
        16 => TempEntityEntity::TeSprite(d),
        18 => TempEntityEntity::TeBeamSprite(d),
        19 => TempEntityEntity::TeBeamTorus(d),
        20 => TempEntityEntity::TeBeamDisk(d),
        21 => TempEntityEntity::TeBeamCylinder(d),
        22 => TempEntityEntity::TeBeamFollow(d),
        23 => TempEntityEntity::TeGlowSprite(d),
        24 => TempEntityEntity::TeBeamRing(d),
        25 => TempEntityEntity::TeStreakSplash(d),
        27 => TempEntityEntity::TeDLight(d),
        28 => TempEntityEntity::TeELight(d),
        30 => TempEntityEntity::TeLine(d),
        31 => TempEntityEntity::TeBox(d),
        99 => TempEntityEntity::TeKillBeam(d),
        100 => TempEntityEntity::TeLargeFunnel(d),
        101 => TempEntityEntity::TeBloodStream(d),
        102 => TempEntityEntity::TeShowLine(d),
        103 => TempEntityEntity::TeBlood(d),
        104 => TempEntityEntity::TeDecal(d),
        105 => TempEntityEntity::TeFizz(d),
        106 => TempEntityEntity::TeModel(d),
        107 => TempEntityEntity::TeExplodeModel(d),
        108 => TempEntityEntity::TeBreakModel(d),
        109 => TempEntityEntity::TeGunshotDecal(d),
        110 => TempEntityEntity::TeSpriteSpray(d),
        111 => TempEntityEntity::TeArmorRicochet(d),
        112 => TempEntityEntity::TePlayerDecal(d),
        113 => TempEntityEntity::TeBubbles(d),
        114 => TempEntityEntity::TeBubbleTrail(d),
        115 => TempEntityEntity::TeBloodSprite(d),
        116 => TempEntityEntity::TeWorldDecal(d),
        117 => TempEntityEntity::TeWorldDecalHigh(d),
        118 => TempEntityEntity::TeDecalHigh(d),
        119 => TempEntityEntity::TeProjectile(d),
        120 => TempEntityEntity::TeSpray(d),
        121 => TempEntityEntity::TePlayerSprites(d),
        122 => TempEntityEntity::TeParticleBurst(d),
        123 => TempEntityEntity::TeFireField(d),
        124 => TempEntityEntity::TePlayerAttachment(d),
        125 => TempEntityEntity::TeKillPlayerAttachment(d),
        126 => TempEntityEntity::TeMultigunShot(d),
        127 => TempEntityEntity::TeUserTracer(d),
        _ => TempEntityEntity::TeKillPlayerAttachment(d),
    }
}

} // verus!
