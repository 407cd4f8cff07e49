//! Flags, movement types and weapons of the game and their numeric codes, and the bit vectors
//! that build entity baselines.

use vstd::prelude::*;
use vstd::string::StringSliceAdditionalSpecFns;
use crate::bits::{BitType, bits_of, bits_value, bytes_bits, max_bits};
use crate::types::{Delta, EntityS};
use crate::netmsg_doer::utils::BitSliceCast;
use crate::writer::{BitWriter, u32_bits};
use crate::netmsg_doer::utils::lemma_bytes_bits_push;

verus! {

pub enum Buttons {
    Attack,
    Jump,
    Duck,
    Forward,
    Back,
    Use,
    Cancel,
    Left,
    Right,
    MoveLeft,
    MoveRight,
    Attack2,
    Run,
    Reload,
    Alt1,
    Score,
}

impl Buttons {
    /// The bit of the buttons word that stands for this button.
    pub open spec fn spec_index(self) -> u32 {
        match self {
            Buttons::Attack => 0,
            Buttons::Jump => 1,
            Buttons::Duck => 2,
            Buttons::Forward => 3,
            Buttons::Back => 4,
            Buttons::Use => 5,
            Buttons::Cancel => 6,
            Buttons::Left => 7,
            Buttons::Right => 8,
            Buttons::MoveLeft => 9,
            Buttons::MoveRight => 10,
            Buttons::Attack2 => 11,
            Buttons::Run => 12,
            Buttons::Reload => 13,
            Buttons::Alt1 => 14,
            Buttons::Score => 15,
        }
    }

    pub open spec fn spec_bit(self) -> u16 {
        (1u32 << self.spec_index()) as u16
    }

    pub fn bit(&self) -> (res: u16)
        ensures
            res == self.spec_bit(),
    {
        let k: u32 = match self {
            Buttons::Attack => 0,
            Buttons::Jump => 1,
            Buttons::Duck => 2,
            Buttons::Forward => 3,
            Buttons::Back => 4,
            Buttons::Use => 5,
            Buttons::Cancel => 6,
            Buttons::Left => 7,
            Buttons::Right => 8,
            Buttons::MoveLeft => 9,
            Buttons::MoveRight => 10,
            Buttons::Attack2 => 11,
            Buttons::Run => 12,
            Buttons::Reload => 13,
            Buttons::Alt1 => 14,
            Buttons::Score => 15,
        };
        let res = (1u32 << k) as u16;
        res
    }
}

/// The button whose bit is `i`.
pub open spec fn button_of(i: u32) -> Buttons {
    match i {
        0 => Buttons::Attack,
        1 => Buttons::Jump,
        2 => Buttons::Duck,
        3 => Buttons::Forward,
        4 => Buttons::Back,
        5 => Buttons::Use,
        6 => Buttons::Cancel,
        7 => Buttons::Left,
        8 => Buttons::Right,
        9 => Buttons::MoveLeft,
        10 => Buttons::MoveRight,
        11 => Buttons::Attack2,
        12 => Buttons::Run,
        13 => Buttons::Reload,
        14 => Buttons::Alt1,
        _ => Buttons::Score,
    }
}

/// The buttons whose bits are set among the lowest `n` bits of `buttons`, lowest first.
pub open spec fn decoded_buttons(buttons: u16, n: u32) -> Seq<Buttons>
    decreases n,
{
    if n == 0 {
        Seq::empty()
    } else {
        let prev = decoded_buttons(buttons, (n - 1) as u32);
        if buttons & ((1u32 << (n - 1) as u32) as u16) != 0 {
            prev.push(button_of((n - 1) as u32))
        } else {
            prev
        }
    }
}

/// The buttons word with the bits of `buttons` set.
pub open spec fn encoded_buttons(buttons: Seq<Buttons>) -> u16
    decreases buttons.len(),
{
    if buttons.len() == 0 {
        0
    } else {
        encoded_buttons(buttons.drop_last()) | buttons.last().spec_bit()
    }
}

/// The buttons that a buttons word holds, from the lowest bit to the highest.
pub fn decode_buttons(buttons: u16) -> (res: Vec<Buttons>)
    ensures
        res@ == decoded_buttons(buttons, 16),
{
    let mut res: Vec<Buttons> = Vec::new();

    let mut i: u32 = 0;
    while i < 16
        invariant
            i <= 16,
            res@ == decoded_buttons(buttons, i),
        decreases 16 - i,
    {
        let curr: u16 = (1u32 << i) as u16;
        if curr & buttons != 0 {
            assert(buttons & curr == curr & buttons) by (bit_vector);
            res.push(match i {
                    0 => Buttons::Attack,
                    1 => Buttons::Jump,
                    2 => Buttons::Duck,
                    3 => Buttons::Forward,
                    4 => Buttons::Back,
                    5 => Buttons::Use,
                    6 => Buttons::Cancel,
                    7 => Buttons::Left,
                    8 => Buttons::Right,
                    9 => Buttons::MoveLeft,
                    10 => Buttons::MoveRight,
                    11 => Buttons::Attack2,
                    12 => Buttons::Run,
                    13 => Buttons::Reload,
                    14 => Buttons::Alt1,
                    15 => Buttons::Score,
                _ => Buttons::Score,
            });
        } else {
            assert(buttons & curr == curr & buttons) by (bit_vector);
        }
        i = i + 1;
    }

    res
}

/// The buttons word that holds the given buttons.
pub fn encode_buttons(buttons: Vec<Buttons>) -> (res: u16)
    ensures
        res == encoded_buttons(buttons@),
{
    let mut res: u16 = 0;

    let mut k: usize = 0;
    while k < buttons.len()
        invariant
            k <= buttons@.len(),
            res == encoded_buttons(buttons@.take(k as int)),
        decreases buttons@.len() - k,
    {
        assert(buttons@.take(k + 1).drop_last() =~= buttons@.take(k as int));
        res |= buttons[k].bit();
        k = k + 1;
    }
    assert(buttons@.take(buttons@.len() as int) =~= buttons@);

    res
}

proof fn lemma_button_of_index(i: u32)
    requires
        i < 16,
    ensures
        button_of(i).spec_index() == i,
{
}

proof fn lemma_encode_decode_buttons_prefix(buttons: u16, n: u32)
    requires
        n <= 16,
    ensures
        encoded_buttons(decoded_buttons(buttons, n)) == buttons & (((1u32 << n) - 1) as u16),
    decreases n,
{
    if n == 0 {
        assert(buttons & (((1u32 << 0u32) - 1) as u16) == 0) by (bit_vector);
    } else {
        let k = (n - 1) as u32;
        lemma_encode_decode_buttons_prefix(buttons, k);
        let prev = decoded_buttons(buttons, k);
        let bit = (1u32 << k) as u16;
        if buttons & bit != 0 {
            lemma_button_of_index(k);
            assert(prev.push(button_of(k)).drop_last() =~= prev);
            assert((buttons & (((1u32 << k) - 1) as u16)) | bit == buttons & (((1u32 << n) - 1) as u16))
                by (bit_vector)
                requires
                    buttons & bit != 0,
                    bit == (1u32 << k) as u16,
                    n == k + 1,
                    k < 16;
        } else {
            assert(buttons & (((1u32 << k) - 1) as u16) == buttons & (((1u32 << n) - 1) as u16))
                by (bit_vector)
                requires
                    buttons & bit == 0,
                    bit == (1u32 << k) as u16,
                    n == k + 1,
                    k < 16;
        }
    }
}

/// Encoding the buttons that a buttons word holds gives back that word.
pub proof fn law_encode_decode_buttons(buttons: u16)
    ensures
        encoded_buttons(decoded_buttons(buttons, 16)) == buttons,
{
    lemma_encode_decode_buttons_prefix(buttons, 16);
    assert(buttons & (((1u32 << 16u32) - 1) as u16) == buttons) by (bit_vector);
}

pub enum EdictFlags {
    Fly,
    Swim,
    Conveyor,
    Client,
    InWater,
    Monster,
    GodMode,
    Notarget,
    SkipLocalHost,
    Onground,
    PartialGround,
    WaterJump,
    Frozen,
    FakeClient,
    Ducking,
    Float,
    Graphed,
    ImmuneWater,
    ImmuneSlime,
    ImmuneLava,
    Proxy,
    AlwaysThink,
    BaseVelocity,
    MonsterClip,
    OnTrain,
    WorldBrush,
    Spectator,
    CustomEntity,
    KillMe,
    Dormant,
}

impl EdictFlags {
    /// The bit of the flags word that stands for this flag.
    pub open spec fn spec_index(self) -> u32 {
        match self {
            EdictFlags::Fly => 0,
            EdictFlags::Swim => 1,
            EdictFlags::Conveyor => 2,
            EdictFlags::Client => 3,
            EdictFlags::InWater => 4,
            EdictFlags::Monster => 5,
            EdictFlags::GodMode => 6,
            EdictFlags::Notarget => 7,
            EdictFlags::SkipLocalHost => 8,
            EdictFlags::Onground => 9,
            EdictFlags::PartialGround => 10,
            EdictFlags::WaterJump => 11,
            EdictFlags::Frozen => 12,
            EdictFlags::FakeClient => 13,
            EdictFlags::Ducking => 14,
            EdictFlags::Float => 15,
            EdictFlags::Graphed => 16,
            EdictFlags::ImmuneWater => 17,
            EdictFlags::ImmuneSlime => 18,
            EdictFlags::ImmuneLava => 19,
            EdictFlags::Proxy => 20,
            EdictFlags::AlwaysThink => 21,
            EdictFlags::BaseVelocity => 22,
            EdictFlags::MonsterClip => 23,
            EdictFlags::OnTrain => 24,
            EdictFlags::WorldBrush => 25,
            EdictFlags::Spectator => 26,
            EdictFlags::CustomEntity => 29,
            EdictFlags::KillMe => 30,
            EdictFlags::Dormant => 31,
        }
    }

    pub open spec fn spec_bit(self) -> u32 {
        1u32 << self.spec_index()
    }

    pub fn bit(&self) -> (res: u32)
        ensures
            res == self.spec_bit(),
    {
        let k: u32 = match self {
            EdictFlags::Fly => 0,
            EdictFlags::Swim => 1,
            EdictFlags::Conveyor => 2,
            EdictFlags::Client => 3,
            EdictFlags::InWater => 4,
            EdictFlags::Monster => 5,
            EdictFlags::GodMode => 6,
            EdictFlags::Notarget => 7,
            EdictFlags::SkipLocalHost => 8,
            EdictFlags::Onground => 9,
            EdictFlags::PartialGround => 10,
            EdictFlags::WaterJump => 11,
            EdictFlags::Frozen => 12,
            EdictFlags::FakeClient => 13,
            EdictFlags::Ducking => 14,
            EdictFlags::Float => 15,
            EdictFlags::Graphed => 16,
            EdictFlags::ImmuneWater => 17,
            EdictFlags::ImmuneSlime => 18,
            EdictFlags::ImmuneLava => 19,
            EdictFlags::Proxy => 20,
            EdictFlags::AlwaysThink => 21,
            EdictFlags::BaseVelocity => 22,
            EdictFlags::MonsterClip => 23,
            EdictFlags::OnTrain => 24,
            EdictFlags::WorldBrush => 25,
            EdictFlags::Spectator => 26,
            EdictFlags::CustomEntity => 29,
            EdictFlags::KillMe => 30,
            EdictFlags::Dormant => 31,
        };
        1u32 << k
    }
}

/// The flag whose bit is `i`; bits 27 and 28 stand for no flag.
pub open spec fn edict_flag_of(i: u32) -> EdictFlags {
    match i {
        0 => EdictFlags::Fly,
        1 => EdictFlags::Swim,
        2 => EdictFlags::Conveyor,
        3 => EdictFlags::Client,
        4 => EdictFlags::InWater,
        5 => EdictFlags::Monster,
        6 => EdictFlags::GodMode,
        7 => EdictFlags::Notarget,
        8 => EdictFlags::SkipLocalHost,
        9 => EdictFlags::Onground,
        10 => EdictFlags::PartialGround,
        11 => EdictFlags::WaterJump,
        12 => EdictFlags::Frozen,
        13 => EdictFlags::FakeClient,
        14 => EdictFlags::Ducking,
        15 => EdictFlags::Float,
        16 => EdictFlags::Graphed,
        17 => EdictFlags::ImmuneWater,
        18 => EdictFlags::ImmuneSlime,
        19 => EdictFlags::ImmuneLava,
        20 => EdictFlags::Proxy,
        21 => EdictFlags::AlwaysThink,
        22 => EdictFlags::BaseVelocity,
        23 => EdictFlags::MonsterClip,
        24 => EdictFlags::OnTrain,
        25 => EdictFlags::WorldBrush,
        26 => EdictFlags::Spectator,
        29 => EdictFlags::CustomEntity,
        30 => EdictFlags::KillMe,
        _ => EdictFlags::Dormant,
    }
}

/// The bits that stand for no edict flag.
pub open spec fn unused_edict_bits() -> u32 {
    (1u32 << 27u32) | (1u32 << 28u32)
}

/// The flags whose bits are set among the lowest `n` bits of `flags`, lowest first.
pub open spec fn decoded_edict_flags(flags: u32, n: u32) -> Seq<EdictFlags>
    decreases n,
{
    if n == 0 {
        Seq::empty()
    } else {
        let prev = decoded_edict_flags(flags, (n - 1) as u32);
        if flags & (1u32 << (n - 1) as u32) != 0 {
            prev.push(edict_flag_of((n - 1) as u32))
        } else {
            prev
        }
    }
}

/// The flags word with the bits of `flags` set.
pub open spec fn encoded_edict_flags(flags: Seq<EdictFlags>) -> u32
    decreases flags.len(),
{
    if flags.len() == 0 {
        0
    } else {
        encoded_edict_flags(flags.drop_last()) | flags.last().spec_bit()
    }
}

/// The flags that a flags word holds, from the lowest bit to the highest.
pub fn decode_edict_flags(flags: u32) -> (res: Vec<EdictFlags>)
    requires
        flags & unused_edict_bits() == 0,
    ensures
        res@ == decoded_edict_flags(flags, 32),
{
    let mut res: Vec<EdictFlags> = Vec::new();

    let mut i: u32 = 0;
    while i < 32
        invariant
            i <= 32,
            res@ == decoded_edict_flags(flags, i),
            flags & unused_edict_bits() == 0,
        decreases 32 - i,
    {
        let curr: u32 = 1u32 << i;
        if curr & flags != 0 {
            assert(flags & curr == curr & flags) by (bit_vector);
            assert(i != 27 && i != 28) by (bit_vector)
                requires
                    flags & ((1u32 << 27u32) | (1u32 << 28u32)) == 0,
                    curr == 1u32 << i,
                    curr & flags != 0,
                    i < 32;
            res.push(match i {
                    0 => EdictFlags::Fly,
                    1 => EdictFlags::Swim,
                    2 => EdictFlags::Conveyor,
                    3 => EdictFlags::Client,
                    4 => EdictFlags::InWater,
                    5 => EdictFlags::Monster,
                    6 => EdictFlags::GodMode,
                    7 => EdictFlags::Notarget,
                    8 => EdictFlags::SkipLocalHost,
                    9 => EdictFlags::Onground,
                    10 => EdictFlags::PartialGround,
                    11 => EdictFlags::WaterJump,
                    12 => EdictFlags::Frozen,
                    13 => EdictFlags::FakeClient,
                    14 => EdictFlags::Ducking,
                    15 => EdictFlags::Float,
                    16 => EdictFlags::Graphed,
                    17 => EdictFlags::ImmuneWater,
                    18 => EdictFlags::ImmuneSlime,
                    19 => EdictFlags::ImmuneLava,
                    20 => EdictFlags::Proxy,
                    21 => EdictFlags::AlwaysThink,
                    22 => EdictFlags::BaseVelocity,
                    23 => EdictFlags::MonsterClip,
                    24 => EdictFlags::OnTrain,
                    25 => EdictFlags::WorldBrush,
                    26 => EdictFlags::Spectator,
                    29 => EdictFlags::CustomEntity,
                    30 => EdictFlags::KillMe,
                    31 => EdictFlags::Dormant,
                _ => EdictFlags::Dormant,
            });
        } else {
            assert(flags & curr == curr & flags) by (bit_vector);
        }
        i = i + 1;
    }

    res
}

/// The flags word that holds the given flags.
pub fn encode_edict_flags(flags: Vec<EdictFlags>) -> (res: u32)
    ensures
        res == encoded_edict_flags(flags@),
{
    let mut res = 0u32;

    let mut k: usize = 0;
    while k < flags.len()
        invariant
            k <= flags@.len(),
            res == encoded_edict_flags(flags@.take(k as int)),
        decreases flags@.len() - k,
    {
        assert(flags@.take(k + 1).drop_last() =~= flags@.take(k as int));
        res |= flags[k].bit();
        k = k + 1;
    }
    assert(flags@.take(flags@.len() as int) =~= flags@);

    res
}

proof fn lemma_edict_flag_of_index(i: u32)
    requires
        i < 32,
        i != 27,
        i != 28,
    ensures
        edict_flag_of(i).spec_index() == i,
{
}

proof fn lemma_encode_decode_edict_flags_prefix(flags: u32, n: u32)
    requires
        n <= 32,
        flags & unused_edict_bits() == 0,
    ensures
        encoded_edict_flags(decoded_edict_flags(flags, n)) == flags & ((1u64 << n) - 1) as u32,
    decreases n,
{
    if n == 0 {
        assert(flags & ((1u64 << 0u32) - 1) as u32 == 0) by (bit_vector);
    } else {
        let k = (n - 1) as u32;
        lemma_encode_decode_edict_flags_prefix(flags, k);
        let prev = decoded_edict_flags(flags, k);
        let bit = 1u32 << k;
        if flags & bit != 0 {
            assert(k != 27 && k != 28) by (bit_vector)
                requires
                    flags & ((1u32 << 27u32) | (1u32 << 28u32)) == 0,
                    bit == 1u32 << k,
                    flags & bit != 0,
                    k < 32;
            lemma_edict_flag_of_index(k);
            assert(prev.push(edict_flag_of(k)).drop_last() =~= prev);
            assert((flags & ((1u64 << k) - 1) as u32) | bit == flags & ((1u64 << n) - 1) as u32)
                by (bit_vector)
                requires
                    flags & bit != 0,
                    bit == 1u32 << k,
                    n == k + 1,
                    k < 32;
        } else {
            assert(flags & ((1u64 << k) - 1) as u32 == flags & ((1u64 << n) - 1) as u32)
                by (bit_vector)
                requires
                    flags & bit == 0,
                    bit == 1u32 << k,
                    n == k + 1,
                    k < 32;
        }
    }
}

/// Encoding the flags that a flags word holds gives back that word, for every word without the
/// two bits that stand for no flag.
pub proof fn law_encode_decode_edict_flags(flags: u32)
    requires
        flags & unused_edict_bits() == 0,
    ensures
        encoded_edict_flags(decoded_edict_flags(flags, 32)) == flags,
{
    lemma_encode_decode_edict_flags_prefix(flags, 32);
    assert(flags & ((1u64 << 32u32) - 1) as u32 == flags) by (bit_vector);
}

// In delta.lst, it is an integer described with 4 bits so it is more than 4 bits.
pub enum MoveType {
    NoMove,
    AngleClip,
    AngleNoClip,
    Walk,
    Step,
    Fly,
    Toss,
    Push,
    Noclip,
    Flymissile,
    Bounce,
    Bouncemissile,
    Follow,
    Pushstep,
}

impl MoveType {
    /// The number that stands for this movement type.
    pub open spec fn spec_value(self) -> i32 {
        match self {
            MoveType::NoMove => 0,
            MoveType::AngleClip => 1,
            MoveType::AngleNoClip => 2,
            MoveType::Walk => 3,
            MoveType::Step => 4,
            MoveType::Fly => 5,
            MoveType::Toss => 6,
            MoveType::Push => 7,
            MoveType::Noclip => 8,
            MoveType::Flymissile => 9,
            MoveType::Bounce => 10,
            MoveType::Bouncemissile => 11,
            MoveType::Follow => 12,
            MoveType::Pushstep => 13,
        }
    }
}

/// The movement type that `movetype` stands for.
pub fn decode_movetype(movetype: i32) -> (res: MoveType)
    requires
        0 <= movetype <= 13,
    ensures
        res.spec_value() == movetype,
{
    match movetype {
        0 => MoveType::NoMove,
        1 => MoveType::AngleClip,
        2 => MoveType::AngleNoClip,
        3 => MoveType::Walk,
        4 => MoveType::Step,
        5 => MoveType::Fly,
        6 => MoveType::Toss,
        7 => MoveType::Push,
        8 => MoveType::Noclip,
        9 => MoveType::Flymissile,
        10 => MoveType::Bounce,
        11 => MoveType::Bouncemissile,
        12 => MoveType::Follow,
        13 => MoveType::Pushstep,
        _ => MoveType::Pushstep,
    }
}

pub enum CSWeapon {
    NoWeapon,
    P228,
    Glock,
    Scout,
    HeGrenade,
    Xm1014,
    C4,
    Mac10,
    Aug,
    SmokeGrenade,
    Elite,
    FiveSeven,
    Ump45,
    Sg550,
    Galil,
    Famas,
    Usp,
    Glock18,
    Awp,
    Mp5n,
    M249,
    M3,
    M4a1,
    Tmp,
    G3sg1,
    Flashbang,
    Deagle,
    Sg552,
    Ak47,
    Knife,
    P90,
    ShieldGun,
}

impl CSWeapon {
    /// The number that stands for this weapon.
    pub open spec fn spec_value(self) -> i32 {
        match self {
            CSWeapon::NoWeapon => 0,
            CSWeapon::P228 => 1,
            CSWeapon::Glock => 2,
            CSWeapon::Scout => 3,
            CSWeapon::HeGrenade => 4,
            CSWeapon::Xm1014 => 5,
            CSWeapon::C4 => 6,
            CSWeapon::Mac10 => 7,
            CSWeapon::Aug => 8,
            CSWeapon::SmokeGrenade => 9,
            CSWeapon::Elite => 10,
            CSWeapon::FiveSeven => 11,
            CSWeapon::Ump45 => 12,
            CSWeapon::Sg550 => 13,
            CSWeapon::Galil => 14,
            CSWeapon::Famas => 15,
            CSWeapon::Usp => 16,
            CSWeapon::Glock18 => 17,
            CSWeapon::Awp => 18,
            CSWeapon::Mp5n => 19,
            CSWeapon::M249 => 20,
            CSWeapon::M3 => 21,
            CSWeapon::M4a1 => 22,
            CSWeapon::Tmp => 23,
            CSWeapon::G3sg1 => 24,
            CSWeapon::Flashbang => 25,
            CSWeapon::Deagle => 26,
            CSWeapon::Sg552 => 27,
            CSWeapon::Ak47 => 28,
            CSWeapon::Knife => 29,
            CSWeapon::P90 => 30,
            CSWeapon::ShieldGun => 99,
        }
    }
}

/// The numbers that stand for a weapon.
pub open spec fn is_cs_weapon_value(weapon: i32) -> bool {
    (0 <= weapon <= 30) || weapon == 99
}

/// The weapon that `weapon` stands for.
pub fn decode_cs_weapon(weapon: i32) -> (res: CSWeapon)
    requires
        is_cs_weapon_value(weapon),
    ensures
        res.spec_value() == weapon,
{
    match weapon {
        0 => CSWeapon::NoWeapon,
        1 => CSWeapon::P228,
        2 => CSWeapon::Glock,
        3 => CSWeapon::Scout,
        4 => CSWeapon::HeGrenade,
        5 => CSWeapon::Xm1014,
        6 => CSWeapon::C4,
        7 => CSWeapon::Mac10,
        8 => CSWeapon::Aug,
        9 => CSWeapon::SmokeGrenade,
        10 => CSWeapon::Elite,
        11 => CSWeapon::FiveSeven,
        12 => CSWeapon::Ump45,
        13 => CSWeapon::Sg550,
        14 => CSWeapon::Galil,
        15 => CSWeapon::Famas,
        16 => CSWeapon::Usp,
        17 => CSWeapon::Glock18,
        18 => CSWeapon::Awp,
        19 => CSWeapon::Mp5n,
        20 => CSWeapon::M249,
        21 => CSWeapon::M3,
        22 => CSWeapon::M4a1,
        23 => CSWeapon::Tmp,
        24 => CSWeapon::G3sg1,
        25 => CSWeapon::Flashbang,
        26 => CSWeapon::Deagle,
        27 => CSWeapon::Sg552,
        28 => CSWeapon::Ak47,
        29 => CSWeapon::Knife,
        30 => CSWeapon::P90,
        99 => CSWeapon::ShieldGun,
        _ => CSWeapon::ShieldGun,
    }
}

pub enum ResourceType {
    Sound,
    Skin,
    Model,
    Decal,
    Generic,
    Eventscript,
    World,
}

/// The values of one shifted left by each bit position of a 16-bit and a 32-bit word.
proof fn lemma_bit_values()
    by (bit_vector)
    ensures
        (1u32 << 0u32) as u16 == 0x1u16,
        (1u32 << 1u32) as u16 == 0x2u16,
        (1u32 << 2u32) as u16 == 0x4u16,
        (1u32 << 3u32) as u16 == 0x8u16,
        (1u32 << 4u32) as u16 == 0x10u16,
        (1u32 << 5u32) as u16 == 0x20u16,
        (1u32 << 6u32) as u16 == 0x40u16,
        (1u32 << 7u32) as u16 == 0x80u16,
        (1u32 << 8u32) as u16 == 0x100u16,
        (1u32 << 9u32) as u16 == 0x200u16,
        (1u32 << 10u32) as u16 == 0x400u16,
        (1u32 << 11u32) as u16 == 0x800u16,
        (1u32 << 12u32) as u16 == 0x1000u16,
        (1u32 << 13u32) as u16 == 0x2000u16,
        (1u32 << 14u32) as u16 == 0x4000u16,
        (1u32 << 15u32) as u16 == 0x8000u16,
        1u32 << 0u32 == 0x1u32,
        1u32 << 1u32 == 0x2u32,
        1u32 << 2u32 == 0x4u32,
        1u32 << 3u32 == 0x8u32,
        1u32 << 4u32 == 0x10u32,
        1u32 << 5u32 == 0x20u32,
        1u32 << 6u32 == 0x40u32,
        1u32 << 7u32 == 0x80u32,
        1u32 << 8u32 == 0x100u32,
        1u32 << 9u32 == 0x200u32,
        1u32 << 10u32 == 0x400u32,
        1u32 << 11u32 == 0x800u32,
        1u32 << 12u32 == 0x1000u32,
        1u32 << 13u32 == 0x2000u32,
        1u32 << 14u32 == 0x4000u32,
        1u32 << 15u32 == 0x8000u32,
        1u32 << 16u32 == 0x10000u32,
        1u32 << 17u32 == 0x20000u32,
        1u32 << 18u32 == 0x40000u32,
        1u32 << 19u32 == 0x80000u32,
        1u32 << 20u32 == 0x100000u32,
        1u32 << 21u32 == 0x200000u32,
        1u32 << 22u32 == 0x400000u32,
        1u32 << 23u32 == 0x800000u32,
        1u32 << 24u32 == 0x1000000u32,
        1u32 << 25u32 == 0x2000000u32,
        1u32 << 26u32 == 0x4000000u32,
        1u32 << 27u32 == 0x8000000u32,
        1u32 << 28u32 == 0x10000000u32,
        1u32 << 29u32 == 0x20000000u32,
        1u32 << 30u32 == 0x40000000u32,
        1u32 << 31u32 == 0x80000000u32,
{
}

/// The bit of each button in the buttons word, as the game defines it: attack `1 << 0`, jump
/// `1 << 1`, and so on to score `1 << 15`; so `decode_buttons(1 << 9)` is move-left alone.
pub proof fn law_button_bits()
    ensures
        Buttons::Attack.spec_bit() == 0x1u16,
        Buttons::Jump.spec_bit() == 0x2u16,
        Buttons::Duck.spec_bit() == 0x4u16,
        Buttons::Forward.spec_bit() == 0x8u16,
        Buttons::Back.spec_bit() == 0x10u16,
        Buttons::Use.spec_bit() == 0x20u16,
        Buttons::Cancel.spec_bit() == 0x40u16,
        Buttons::Left.spec_bit() == 0x80u16,
        Buttons::Right.spec_bit() == 0x100u16,
        Buttons::MoveLeft.spec_bit() == 0x200u16,
        Buttons::MoveRight.spec_bit() == 0x400u16,
        Buttons::Attack2.spec_bit() == 0x800u16,
        Buttons::Run.spec_bit() == 0x1000u16,
        Buttons::Reload.spec_bit() == 0x2000u16,
        Buttons::Alt1.spec_bit() == 0x4000u16,
        Buttons::Score.spec_bit() == 0x8000u16,
{
    lemma_bit_values();
}

/// The bit of each entity flag in the flags word, as the game defines it: fly `1 << 0`, swim
/// `1 << 1`, and so on to dormant `1 << 31`; bits 27 and 28 stand for no flag.
pub proof fn law_edict_flag_bits()
    ensures
        EdictFlags::Fly.spec_bit() == 0x1u32,
        EdictFlags::Swim.spec_bit() == 0x2u32,
        EdictFlags::Conveyor.spec_bit() == 0x4u32,
        EdictFlags::Client.spec_bit() == 0x8u32,
        EdictFlags::InWater.spec_bit() == 0x10u32,
        EdictFlags::Monster.spec_bit() == 0x20u32,
        EdictFlags::GodMode.spec_bit() == 0x40u32,
        EdictFlags::Notarget.spec_bit() == 0x80u32,
        EdictFlags::SkipLocalHost.spec_bit() == 0x100u32,
        EdictFlags::Onground.spec_bit() == 0x200u32,
        EdictFlags::PartialGround.spec_bit() == 0x400u32,
        EdictFlags::WaterJump.spec_bit() == 0x800u32,
        EdictFlags::Frozen.spec_bit() == 0x1000u32,
        EdictFlags::FakeClient.spec_bit() == 0x2000u32,
        EdictFlags::Ducking.spec_bit() == 0x4000u32,
        EdictFlags::Float.spec_bit() == 0x8000u32,
        EdictFlags::Graphed.spec_bit() == 0x10000u32,
        EdictFlags::ImmuneWater.spec_bit() == 0x20000u32,
        EdictFlags::ImmuneSlime.spec_bit() == 0x40000u32,
        EdictFlags::ImmuneLava.spec_bit() == 0x80000u32,
        EdictFlags::Proxy.spec_bit() == 0x100000u32,
        EdictFlags::AlwaysThink.spec_bit() == 0x200000u32,
        EdictFlags::BaseVelocity.spec_bit() == 0x400000u32,
        EdictFlags::MonsterClip.spec_bit() == 0x800000u32,
        EdictFlags::OnTrain.spec_bit() == 0x1000000u32,
        EdictFlags::WorldBrush.spec_bit() == 0x2000000u32,
        EdictFlags::Spectator.spec_bit() == 0x4000000u32,
        EdictFlags::CustomEntity.spec_bit() == 0x20000000u32,
        EdictFlags::KillMe.spec_bit() == 0x40000000u32,
        EdictFlags::Dormant.spec_bit() == 0x80000000u32,
{
    lemma_bit_values();
}

/// The number of each movement type, as the game defines it: none 0, walk 3, noclip 8, and
/// so on to push-step 13.
pub proof fn law_movetype_values()
    ensures
        MoveType::NoMove.spec_value() == 0,
        MoveType::AngleClip.spec_value() == 1,
        MoveType::AngleNoClip.spec_value() == 2,
        MoveType::Walk.spec_value() == 3,
        MoveType::Step.spec_value() == 4,
        MoveType::Fly.spec_value() == 5,
        MoveType::Toss.spec_value() == 6,
        MoveType::Push.spec_value() == 7,
        MoveType::Noclip.spec_value() == 8,
        MoveType::Flymissile.spec_value() == 9,
        MoveType::Bounce.spec_value() == 10,
        MoveType::Bouncemissile.spec_value() == 11,
        MoveType::Follow.spec_value() == 12,
        MoveType::Pushstep.spec_value() == 13,
{
}

/// The number of each Counter-Strike weapon, as the game defines it: none 0, P228 1, and so on
/// to P90 30, and the shield gun 99.
pub proof fn law_cs_weapon_values()
    ensures
        CSWeapon::NoWeapon.spec_value() == 0,
        CSWeapon::P228.spec_value() == 1,
        CSWeapon::Glock.spec_value() == 2,
        CSWeapon::Scout.spec_value() == 3,
        CSWeapon::HeGrenade.spec_value() == 4,
        CSWeapon::Xm1014.spec_value() == 5,
        CSWeapon::C4.spec_value() == 6,
        CSWeapon::Mac10.spec_value() == 7,
        CSWeapon::Aug.spec_value() == 8,
        CSWeapon::SmokeGrenade.spec_value() == 9,
        CSWeapon::Elite.spec_value() == 10,
        CSWeapon::FiveSeven.spec_value() == 11,
        CSWeapon::Ump45.spec_value() == 12,
        CSWeapon::Sg550.spec_value() == 13,
        CSWeapon::Galil.spec_value() == 14,
        CSWeapon::Famas.spec_value() == 15,
        CSWeapon::Usp.spec_value() == 16,
        CSWeapon::Glock18.spec_value() == 17,
        CSWeapon::Awp.spec_value() == 18,
        CSWeapon::Mp5n.spec_value() == 19,
        CSWeapon::M249.spec_value() == 20,
        CSWeapon::M3.spec_value() == 21,
        CSWeapon::M4a1.spec_value() == 22,
        CSWeapon::Tmp.spec_value() == 23,
        CSWeapon::G3sg1.spec_value() == 24,
        CSWeapon::Flashbang.spec_value() == 25,
        CSWeapon::Deagle.spec_value() == 26,
        CSWeapon::Sg552.spec_value() == 27,
        CSWeapon::Ak47.spec_value() == 28,
        CSWeapon::Knife.spec_value() == 29,
        CSWeapon::P90.spec_value() == 30,
        CSWeapon::ShieldGun.spec_value() == 99,
{
}

/// The lowest `bit` bits of `num`, least significant first, as a bit vector.
pub fn nbit_num(num: u32, bit: u32) -> (res: BitType)
    requires
        bit <= 32,
    ensures
        bits_of(res) == u32_bits(num).take(bit as int),
{
    let mut writer = BitWriter::new();
    writer.append_u32_range(num, bit);
    proof {
        assert(Seq::<bool>::empty() + u32_bits(num).take(bit as int) =~= u32_bits(num).take(bit as int));
    }
    writer.data
}

/// The bytes of a string, each least significant bit first, as a bit vector.
pub fn nbit_str(name: &str) -> (res: BitType)
    requires
        8 * name.spec_bytes().len() <= max_bits(),
    ensures
        bits_of(res) == bytes_bits(name.spec_bytes()),
{
    let bytes = name.as_bytes();
    let mut writer = BitWriter::new();
    let mut k: usize = 0;
    while k < bytes.len()
        invariant
            k <= bytes@.len(),
            bytes@ == name.spec_bytes(),
            8 * bytes@.len() <= max_bits(),
            writer.wf(),
            writer.bits() == bytes_bits(bytes@.take(k as int)),
        decreases bytes@.len() - k,
    {
        proof {
            lemma_bytes_bits_push(bytes@.take(k as int), bytes@[k as int]);
            assert(bytes@.take(k as int).push(bytes@[k as int]) =~= bytes@.take(k + 1));
            assert(8 * k + 8 <= 8 * bytes@.len());
        }
        writer.append_u8(bytes[k]);
        k = k + 1;
    }
    assert(bytes@.take(k as int) =~= bytes@);
    writer.data
}

/// The number of baselines at the front of `arr` that are numbered from 0 without a gap, from
/// position `k` on: the first free entity number.
pub open spec fn numbered_run(arr: Seq<EntityS>, k: nat) -> nat
    decreases arr.len() - k,
{
    if k < arr.len() && bits_value(bits_of(arr[k as int].index)) == k {
        numbered_run(arr, k + 1)
    } else {
        k
    }
}

/// Adds a baseline for a new entity at the first free entity number: the baselines are packed,
/// so that is the number of baselines at the front numbered from 0 without a gap, and the new
/// one goes right after them, with that number (in 11 bits), entity type 1 (in 2 bits) and the
/// given delta.
pub fn append_spawnbaseline(entity_arr: &mut Vec<EntityS>, entity: Delta)
    requires
        old(entity_arr)@.len() <= u16::MAX,
        forall|j: int| 0 <= j < old(entity_arr)@.len() ==> 1 <= #[trigger] bits_of(old(entity_arr)@[j].index).len()
            <= 16,
    ensures
        ({
            let k = numbered_run(old(entity_arr)@, 0) as int;
            let arr = final(entity_arr)@;
            &&& arr.len() == old(entity_arr)@.len() + 1
            &&& forall|j: int| 0 <= j < k ==> arr[j] == old(entity_arr)@[j]
            &&& forall|j: int| k < j < arr.len() ==> arr[j] == old(entity_arr)@[j - 1]
            &&& bits_of(arr[k].index) == u32_bits(k as u32).take(11)
            &&& bits_of(arr[k].type_) == u32_bits(1).take(2)
            &&& arr[k].delta == entity
        }),
{
    let ghost arr0 = entity_arr@;
    // Find free entities indices.
    let mut current_free_entity: u16 = 0;
    let mut insert_idx: usize = 0;

    while insert_idx < entity_arr.len()
        invariant
            entity_arr@ == arr0,
            arr0.len() <= u16::MAX,
            forall|j: int| 0 <= j < arr0.len() ==> 1 <= #[trigger] bits_of(arr0[j].index).len() <= 16,
            insert_idx <= arr0.len(),
            current_free_entity == insert_idx,
            numbered_run(arr0, 0) == numbered_run(arr0, insert_idx as nat),
        ensures
            insert_idx <= arr0.len(),
            current_free_entity == insert_idx,
            numbered_run(arr0, 0) == numbered_run(arr0, insert_idx as nat),
            insert_idx == arr0.len() || bits_value(bits_of(arr0[insert_idx as int].index)) != insert_idx,
        decreases arr0.len() - insert_idx,
    {
        let ent = &entity_arr[insert_idx];
        if ent.index.to_u16() == current_free_entity {
            current_free_entity = current_free_entity + 1;
            insert_idx = insert_idx + 1;
        } else {
            break;
        }
    }
    assert(numbered_run(arr0, insert_idx as nat) == insert_idx);

    // current_free_entity is a free entity

    // Insert new baseline.
    let other_demo_entity_idx = nbit_num(current_free_entity as u32, 11);
    let other_demo_type = nbit_num(1, 2);

    entity_arr.insert(insert_idx, EntityS { index: other_demo_entity_idx, type_: other_demo_type, delta: entity });
}

} // verus!
