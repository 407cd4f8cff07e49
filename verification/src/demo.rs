//! The contents of a demo file, as the demo writer reads them.
//!
//! Every 32-bit float of a demo is held by its IEEE-754 bits, as a `u32`.

use vstd::prelude::*;

verus! {

/// A GoldSrc demo.
#[derive(Clone, Debug)]
pub struct Demo<'a> {
    pub header: Header<'a>,
    pub directory: Directory<'a>,
}

#[derive(Clone, Debug)]
pub struct Header<'a> {
    pub demo_protocol: i32,
    pub net_protocol: i32,
    pub map_name: &'a [u8],
    pub game_dir: &'a [u8],
    pub map_crc: i32,
    pub directory_offset: i32,
}

#[derive(Clone, Debug)]
pub struct Directory<'a> {
    pub entries: Vec<DirectoryEntry<'a>>,
}

#[derive(Clone, Debug)]
pub struct DirectoryEntry<'a> {
    pub entry_type: i32,
    pub description: &'a [u8],
    pub flags: i32,
    pub cd_track: i32,
    pub track_time: u32,
    pub frame_count: i32,
    pub offset: i32,
    pub file_length: i32,

    pub frames: Vec<Frame<'a>>,
}

#[derive(Clone, Debug)]
pub struct Frame<'a> {
    pub time: u32,
    pub frame: i32,
    pub data: FrameData<'a>,
}

#[derive(Clone, Debug)]
pub enum FrameData<'a> {
    DemoStart,
    ConsoleCommand(ConsoleCommandData<'a>),
    ClientData(ClientDataData),
    NextSection,
    Event(EventData),
    WeaponAnim(WeaponAnimData),
    Sound(SoundData<'a>),
    DemoBuffer(DemoBufferData<'a>),
    NetMsg(NetMsgData<'a>),
}

#[derive(Clone, Debug)]
pub struct ConsoleCommandData<'a> {
    pub command: &'a [u8],
}

#[derive(Clone, Debug)]
pub struct ClientDataData {
    pub origin: [u32; 3],
    pub viewangles: [u32; 3],
    pub weapon_bits: i32,
    pub fov: u32,
}

#[derive(Clone, Debug)]
pub struct EventData {
    pub flags: i32,
    pub index: i32,
    pub delay: u32,
    pub args: EventArgs,
}

#[derive(Clone, Debug)]
pub struct EventArgs {
    pub flags: i32,
    pub entity_index: i32,
    pub origin: [u32; 3],
    pub angles: [u32; 3],
    pub velocity: [u32; 3],
    pub ducking: i32,
    pub fparam1: u32,
    pub fparam2: u32,
    pub iparam1: i32,
    pub iparam2: i32,
    pub bparam1: i32,
    pub bparam2: i32,
}

#[derive(Clone, Debug)]
pub struct WeaponAnimData {
    pub anim: i32,
    pub body: i32,
}

#[derive(Clone, Debug)]
pub struct SoundData<'a> {
    pub channel: i32,
    pub sample: &'a [u8],
    pub attenuation: u32,
    pub volume: u32,
    pub flags: i32,
    pub pitch: i32,
}

#[derive(Clone, Debug)]
pub struct DemoBufferData<'a> {
    pub buffer: &'a [u8],
}

#[derive(Clone, Debug)]
pub struct NetMsgData<'a> {
    pub info: NetMsgInfo<'a>,
    pub incoming_sequence: i32,
    pub incoming_acknowledged: i32,
    pub incoming_reliable_acknowledged: i32,
    pub incoming_reliable_sequence: i32,
    pub outgoing_sequence: i32,
    pub reliable_sequence: i32,
    pub last_reliable_sequence: i32,
    pub msg: &'a [u8],
}

#[derive(Clone, Debug)]
pub struct NetMsgInfo<'a> {
    pub timestamp: u32,
    pub ref_params: RefParams,
    pub usercmd: UserCmd,
    pub movevars: MoveVars<'a>,
    pub view: [u32; 3],
    pub viewmodel: i32,
}

#[derive(Clone, Debug)]
pub struct RefParams {
    pub vieworg: [u32; 3],
    pub viewangles: [u32; 3],
    pub forward: [u32; 3],
    pub right: [u32; 3],
    pub up: [u32; 3],
    pub frametime: u32,
    pub time: u32,
    pub intermission: i32,
    pub paused: i32,
    pub spectator: i32,
    pub onground: i32,
    pub waterlevel: i32,
    pub simvel: [u32; 3],
    pub simorg: [u32; 3],
    pub viewheight: [u32; 3],
    pub idealpitch: u32,
    pub cl_viewangles: [u32; 3],
    pub health: i32,
    pub crosshairangle: [u32; 3],
    pub viewsize: u32,
    pub punchangle: [u32; 3],
    pub maxclients: i32,
    pub viewentity: i32,
    pub playernum: i32,
    pub max_entities: i32,
    pub demoplayback: i32,
    pub hardware: i32,
    pub smoothing: i32,
    pub ptr_cmd: i32,
    pub ptr_movevars: i32,
    pub viewport: [i32; 4],
    pub next_view: i32,
    pub only_client_draw: i32,
}

#[derive(Clone, Debug)]
pub struct UserCmd {
    pub lerp_msec: i16,
    pub msec: u8,
    pub viewangles: [u32; 3],
    pub forwardmove: u32,
    pub sidemove: u32,
    pub upmove: u32,
    pub lightlevel: i8,
    pub buttons: u16,
    pub impulse: i8,
    pub weaponselect: i8,
    pub impact_index: i32,
    pub impact_position: [u32; 3],
}

#[derive(Clone, Debug)]
pub struct MoveVars<'a> {
    pub gravity: u32,
    pub stopspeed: u32,
    pub maxspeed: u32,
    pub spectatormaxspeed: u32,
    pub accelerate: u32,
    pub airaccelerate: u32,
    pub wateraccelerate: u32,
    pub friction: u32,
    pub edgefriction: u32,
    pub waterfriction: u32,
    pub entgravity: u32,
    pub bounce: u32,
    pub stepsize: u32,
    pub maxvelocity: u32,
    pub zmax: u32,
    pub wave_height: u32,
    pub footsteps: i32,
    pub sky_name: &'a [u8],
    pub rollangle: u32,
    pub rollspeed: u32,
    pub skycolor_r: u32,
    pub skycolor_g: u32,
    pub skycolor_b: u32,
    pub skyvec_x: u32,
    pub skyvec_y: u32,
    pub skyvec_z: u32,
}


pub trait NetMsgDataMethods: Sized {
    /// Creates semi-default net message data for CS 1.6
    ///
    /// Recommended to change fields after this. Or just add new method :DDD
    ///
    /// seq: Sequence number for the net message. It is to ensure that the demo won't crash.
    /// Try to use a value that is not `0` for it.
    fn new(seq: i32) -> Self
        requires
            seq > i32::MIN,
    ;
}

const VEC_0: [u32; 3] = [0, 0, 0];
// 0.0, 0.0, 17.0
const VIEWHEIGHT: [u32; 3] = [0, 0, 0x41880000];
const VIEWPORT: [i32; 4] = [0, 0, 1024, 768];
const SKYNAME: [u8; 32] = [
    0, 0, 0, 0, 0, 0, 0, 0, 0, 0, 0, 0, 0, 0, 0, 0, 0, 0, 0, 0, 0, 0, 0, 0, 0, 0, 0, 0, 0, 0, 0, 0,
];

impl<'a> NetMsgDataMethods for NetMsgData<'a> {
    fn new(seq: i32) -> (res: Self)
        ensures
            res.info.timestamp == 0x0u32, // 0.0
            res.info.ref_params.vieworg@ == seq![0u32, 0u32, 0u32],
            res.info.ref_params.viewangles@ == seq![0u32, 0u32, 0u32],
            res.info.ref_params.forward@ == seq![0u32, 0u32, 0u32],
            res.info.ref_params.right@ == seq![0u32, 0u32, 0u32],
            res.info.ref_params.up@ == seq![0u32, 0u32, 0u32],
            res.info.ref_params.frametime == 0x0u32, // 0.0
            res.info.ref_params.time == 0x0u32, // 0.0
            res.info.ref_params.intermission == 0,
            res.info.ref_params.paused == 0,
            res.info.ref_params.spectator == 0,
            res.info.ref_params.onground == 0,
            res.info.ref_params.waterlevel == 0,
            res.info.ref_params.simvel@ == seq![0u32, 0u32, 0u32],
            res.info.ref_params.simorg@ == seq![0u32, 0u32, 0u32],
            res.info.ref_params.viewheight@ == seq![0u32, 0u32, 0x41880000u32],
            res.info.ref_params.idealpitch == 0x0u32, // 0.0
            res.info.ref_params.cl_viewangles@ == seq![0u32, 0u32, 0u32],
            res.info.ref_params.health == 100,
            res.info.ref_params.crosshairangle@ == seq![0u32, 0u32, 0u32],
            res.info.ref_params.viewsize == 0x42f00000u32, // 120.0
            res.info.ref_params.punchangle@ == seq![0u32, 0u32, 0u32],
            res.info.ref_params.maxclients == 32,
            res.info.ref_params.viewentity == 1,
            res.info.ref_params.playernum == 0,
            res.info.ref_params.max_entities == 6969,
            res.info.ref_params.demoplayback == 0,
            res.info.ref_params.hardware == 1,
            res.info.ref_params.smoothing == 1,
            res.info.ref_params.ptr_cmd == 0,
            res.info.ref_params.ptr_movevars == 0,
            res.info.ref_params.viewport@ == seq![0i32, 0i32, 1024i32, 768i32],
            res.info.ref_params.next_view == 0,
            res.info.ref_params.only_client_draw == 0,
            res.info.usercmd.lerp_msec == 9,
            res.info.usercmd.msec == 10,
            res.info.usercmd.viewangles@ == seq![0u32, 0u32, 0u32],
            res.info.usercmd.forwardmove == 0x0u32, // 0.0
            res.info.usercmd.sidemove == 0x0u32, // 0.0
            res.info.usercmd.upmove == 0x0u32, // 0.0
            res.info.usercmd.lightlevel == 68,
            res.info.usercmd.buttons == 0,
            res.info.usercmd.impulse == 0,
            res.info.usercmd.weaponselect == 0,
            res.info.usercmd.impact_index == 0,
            res.info.usercmd.impact_position@ == seq![0u32, 0u32, 0u32],
            res.info.movevars.gravity == 0x44480000u32, // 800.0
            res.info.movevars.stopspeed == 0x42960000u32, // 75.0
            res.info.movevars.maxspeed == 0x43a00000u32, // 320.0
            res.info.movevars.spectatormaxspeed == 0x43fa0000u32, // 500.0
            res.info.movevars.accelerate == 0x40a00000u32, // 5.0
            res.info.movevars.airaccelerate == 0x41200000u32, // 10.0
            res.info.movevars.wateraccelerate == 0x41200000u32, // 10.0
            res.info.movevars.friction == 0x40800000u32, // 4.0
            res.info.movevars.edgefriction == 0x40000000u32, // 2.0
            res.info.movevars.waterfriction == 0x3f800000u32, // 1.0
            res.info.movevars.entgravity == 0x3f800000u32, // 1.0
            res.info.movevars.bounce == 0x3f800000u32, // 1.0
            res.info.movevars.stepsize == 0x41900000u32, // 18.0
            res.info.movevars.maxvelocity == 0x44fa0000u32, // 2000.0
            res.info.movevars.zmax == 0x48c80000u32, // 409600.0
            res.info.movevars.wave_height == 0x0u32, // 0.0
            res.info.movevars.footsteps == 1,
            res.info.movevars.sky_name@ == Seq::new(32, |k: int| 0u8),
            res.info.movevars.rollangle == 0x0u32, // 0.0
            res.info.movevars.rollspeed == 0x0u32, // 0.0
            res.info.movevars.skycolor_r == 0x0u32, // 0.0
            res.info.movevars.skycolor_g == 0x0u32, // 0.0
            res.info.movevars.skycolor_b == 0x0u32, // 0.0
            res.info.movevars.skyvec_x == 0x0u32, // 0.0
            res.info.movevars.skyvec_y == 0x0u32, // 0.0
            res.info.movevars.skyvec_z == 0x0u32, // 0.0
            res.info.view@ == seq![0u32, 0u32, 0u32],
            res.info.viewmodel == 0,
            res.incoming_sequence == seq,
            res.incoming_acknowledged == seq - 1,
            res.incoming_reliable_acknowledged == 1,
            res.incoming_reliable_sequence == 0,
            res.outgoing_sequence == seq,
            res.reliable_sequence == 1,
            res.last_reliable_sequence == seq - 1,
            res.msg@.len() == 0,
    {
        Self {
            info: NetMsgInfo {
                timestamp: 0x0u32,
                ref_params: RefParams {
                    vieworg: VEC_0,
                    viewangles: VEC_0,
                    forward: VEC_0,
                    right: VEC_0,
                    up: VEC_0,
                    frametime: 0x0u32,
                    time: 0x0u32,
                    intermission: 0,
                    paused: 0,
                    spectator: 0,
                    onground: 0,
                    waterlevel: 0,
                    simvel: VEC_0,
                    simorg: VEC_0,
                    viewheight: VIEWHEIGHT,
                    idealpitch: 0x0u32,
                    cl_viewangles: VEC_0,
                    health: 100,
                    crosshairangle: VEC_0,
                    viewsize: 0x42f00000u32,
                    punchangle: VEC_0,
                    maxclients: 32,
                    viewentity: 1,
                    playernum: 0,
                    max_entities: 6969,
                    demoplayback: 0,
                    hardware: 1,
                    smoothing: 1,
                    ptr_cmd: 0,
                    ptr_movevars: 0,
                    viewport: VIEWPORT,
                    next_view: 0,
                    only_client_draw: 0,
                },
                usercmd: UserCmd {
                    lerp_msec: 9,
                    msec: 10,
                    viewangles: VEC_0,
                    forwardmove: 0x0u32,
                    sidemove: 0x0u32,
                    upmove: 0x0u32,
                    lightlevel: 68,
                    buttons: 0,
                    impulse: 0,
                    weaponselect: 0,
                    impact_index: 0,
                    impact_position: VEC_0,
                },
                movevars: MoveVars {
                    gravity: 0x44480000u32,
                    stopspeed: 0x42960000u32,
                    maxspeed: 0x43a00000u32,
                    spectatormaxspeed: 0x43fa0000u32,
                    accelerate: 0x40a00000u32,
                    airaccelerate: 0x41200000u32,
                    wateraccelerate: 0x41200000u32,
                    friction: 0x40800000u32,
                    edgefriction: 0x40000000u32,
                    waterfriction: 0x3f800000u32,
                    entgravity: 0x3f800000u32,
                    bounce: 0x3f800000u32,
                    stepsize: 0x41900000u32,
                    maxvelocity: 0x44fa0000u32,
                    zmax: 0x48c80000u32,
                    wave_height: 0x0u32,
                    footsteps: 1,
                    sky_name: &SKYNAME,
                    rollangle: 0x0u32,
                    rollspeed: 0x0u32,
                    skycolor_r: 0x0u32,
                    skycolor_g: 0x0u32,
                    skycolor_b: 0x0u32,
                    skyvec_x: 0x0u32,
                    skyvec_y: 0x0u32,
                    skyvec_z: 0x0u32,
                },
                view: VEC_0,
                viewmodel: 0,
            },
            // To make sure that game doesn't crash, change it like this.
            incoming_sequence: seq,
            incoming_acknowledged: seq - 1,
            incoming_reliable_acknowledged: 1,
            incoming_reliable_sequence: 0,
            outgoing_sequence: seq,
            reliable_sequence: 1,
            last_reliable_sequence: seq - 1,
            msg: &[],
        }
    }
}

} // verus!
