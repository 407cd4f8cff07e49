//! Writing a whole demo file: its header, its frames, and the directory that points into them.

use vstd::prelude::*;
use crate::le::{le_u16, le_u32, le_i16, le_i32, le_i8, u32_at, i32_at, lemma_u32_roundtrip, lemma_i32_roundtrip};
use crate::writer::ByteWriter;
use crate::demo::{Demo, Header, Directory, DirectoryEntry, Frame, FrameData, NetMsgData, RefParams, EventData,
    UserCmd, MoveVars};

verus! {

/// Three 32-bit floats, given by their bits, one after another.
pub open spec fn vec3_le(v: [u32; 3]) -> Seq<u8> {
    le_u32(v@[0]) + le_u32(v@[1]) + le_u32(v@[2])
}

/// Appends three 32-bit floats, given by their bits.
pub fn append_vec3(w: &mut ByteWriter, v: [u32; 3])
    requires
        old(w).wf(),
    ensures
        final(w).wf(),
        final(w).data@ == old(w).data@ + vec3_le(v),
{
    w.append_u32(v[0]);
    w.append_u32(v[1]);
    w.append_u32(v[2]);
    assert(w.data@ =~= old(w).data@ + vec3_le(v));
}

/// The magic at the start of every demo file.
pub open spec fn demo_magic() -> Seq<u8> {
    seq![72u8, 76u8, 68u8, 69u8, 77u8, 79u8, 0u8, 0u8]
}

pub open spec fn header_bytes(h: Header) -> Seq<u8> {
    le_i32(h.demo_protocol) + le_i32(h.net_protocol) + h.map_name@ + h.game_dir@ + le_i32(h.map_crc)
}

/// Part 1 of the bytes of the view parameters of a network message frame.
#[verifier::opaque]
pub open spec fn ref_params_part1_bytes(p: RefParams) -> Seq<u8> {
    vec3_le(p.vieworg)
        + vec3_le(p.viewangles)
        + vec3_le(p.forward)
        + vec3_le(p.right)
        + vec3_le(p.up)
        + le_u32(p.frametime)
        + le_u32(p.time)
        + le_i32(p.intermission)
        + le_i32(p.paused)
        + le_i32(p.spectator)
        + le_i32(p.onground)
        + le_i32(p.waterlevel)
}

/// Part 2 of the bytes of the view parameters of a network message frame.
#[verifier::opaque]
pub open spec fn ref_params_part2_bytes(p: RefParams) -> Seq<u8> {
    vec3_le(p.simvel)
        + vec3_le(p.simorg)
        + vec3_le(p.viewheight)
        + le_u32(p.idealpitch)
        + vec3_le(p.cl_viewangles)
        + le_i32(p.health)
        + vec3_le(p.crosshairangle)
        + le_u32(p.viewsize)
        + vec3_le(p.punchangle)
        + le_i32(p.maxclients)
        + le_i32(p.viewentity)
        + le_i32(p.playernum)
}

/// Part 3 of the bytes of the view parameters of a network message frame.
#[verifier::opaque]
pub open spec fn ref_params_part3_bytes(p: RefParams) -> Seq<u8> {
    le_i32(p.max_entities)
        + le_i32(p.demoplayback)
        + le_i32(p.hardware)
        + le_i32(p.smoothing)
        + le_i32(p.ptr_cmd)
        + le_i32(p.ptr_movevars)
        + le_i32(p.viewport[0]) + le_i32(p.viewport[1]) + le_i32(p.viewport[2]) + le_i32(p.viewport[3])
        + le_i32(p.next_view)
        + le_i32(p.only_client_draw)
}

/// The bytes of the view parameters of a network message frame.
#[verifier::opaque]
pub open spec fn ref_params_bytes(p: RefParams) -> Seq<u8> {
    ref_params_part1_bytes(p) + ref_params_part2_bytes(p) + ref_params_part3_bytes(p)
}

/// Part 1 of the bytes of the user command of a network message frame; the unknown bytes are zero.
#[verifier::opaque]
pub open spec fn usercmd_part1_bytes(p: UserCmd) -> Seq<u8> {
    le_i16(p.lerp_msec)
        + seq![p.msec]
        + seq![0u8]
        + vec3_le(p.viewangles)
        + le_u32(p.forwardmove)
        + le_u32(p.sidemove)
        + le_u32(p.upmove)
        + le_i8(p.lightlevel)
        + seq![0u8]
        + le_u16(p.buttons)
        + le_i8(p.impulse)
        + le_i8(p.weaponselect)
}

/// Part 2 of the bytes of the user command of a network message frame; the unknown bytes are zero.
#[verifier::opaque]
pub open spec fn usercmd_part2_bytes(p: UserCmd) -> Seq<u8> {
    seq![0u8]
        + seq![0u8]
        + le_i32(p.impact_index)
        + vec3_le(p.impact_position)
}

/// The bytes of the user command of a network message frame; the unknown bytes are zero.
#[verifier::opaque]
pub open spec fn usercmd_bytes(p: UserCmd) -> Seq<u8> {
    usercmd_part1_bytes(p) + usercmd_part2_bytes(p)
}

/// Part 1 of the bytes of the movement variables of a network message frame.
#[verifier::opaque]
pub open spec fn movevars_part1_bytes(p: MoveVars) -> Seq<u8> {
    le_u32(p.gravity)
        + le_u32(p.stopspeed)
        + le_u32(p.maxspeed)
        + le_u32(p.spectatormaxspeed)
        + le_u32(p.accelerate)
        + le_u32(p.airaccelerate)
        + le_u32(p.wateraccelerate)
        + le_u32(p.friction)
        + le_u32(p.edgefriction)
        + le_u32(p.waterfriction)
        + le_u32(p.entgravity)
        + le_u32(p.bounce)
}

/// Part 2 of the bytes of the movement variables of a network message frame.
#[verifier::opaque]
pub open spec fn movevars_part2_bytes(p: MoveVars) -> Seq<u8> {
    le_u32(p.stepsize)
        + le_u32(p.maxvelocity)
        + le_u32(p.zmax)
        + le_u32(p.wave_height)
        + le_i32(p.footsteps)
        + p.sky_name@
        + le_u32(p.rollangle)
        + le_u32(p.rollspeed)
        + le_u32(p.skycolor_r)
        + le_u32(p.skycolor_g)
        + le_u32(p.skycolor_b)
        + le_u32(p.skyvec_x)
}

/// Part 3 of the bytes of the movement variables of a network message frame.
#[verifier::opaque]
pub open spec fn movevars_part3_bytes(p: MoveVars) -> Seq<u8> {
    le_u32(p.skyvec_y)
        + le_u32(p.skyvec_z)
}

/// The bytes of the movement variables of a network message frame.
#[verifier::opaque]
pub open spec fn movevars_bytes(p: MoveVars) -> Seq<u8> {
    movevars_part1_bytes(p) + movevars_part2_bytes(p) + movevars_part3_bytes(p)
}

/// The bytes of a network message frame after its type byte, time and number.
#[verifier::opaque]
pub open spec fn netmsg_bytes(d: NetMsgData) -> Seq<u8> {
    le_u32(d.info.timestamp) + ref_params_bytes(d.info.ref_params) + usercmd_bytes(d.info.usercmd)
        + movevars_bytes(d.info.movevars) + vec3_le(d.info.view) + le_i32(d.info.viewmodel)
        + le_i32(d.incoming_sequence) + le_i32(d.incoming_acknowledged)
        + le_i32(d.incoming_reliable_acknowledged) + le_i32(d.incoming_reliable_sequence)
        + le_i32(d.outgoing_sequence) + le_i32(d.reliable_sequence)
        + le_i32(d.last_reliable_sequence) + le_i32(d.msg@.len() as i32) + d.msg@
}

pub open spec fn event_bytes(e: EventData) -> Seq<u8> {
    le_i32(e.flags) + le_i32(e.index) + le_u32(e.delay) + le_i32(
            e.args.flags,
        ) + le_i32(e.args.entity_index) + vec3_le(e.args.origin) + vec3_le(e.args.angles) + vec3_le(
            e.args.velocity,
        ) + le_i32(e.args.ducking) + le_u32(e.args.fparam1) + le_u32(e.args.fparam2) + le_i32(
            e.args.iparam1,
        ) + le_i32(e.args.iparam2) + le_i32(e.args.bparam1) + le_i32(e.args.bparam2)
}

/// The type byte of a frame.
pub open spec fn frame_type_id(d: FrameData) -> u8 {
    match d {
        FrameData::DemoStart => 2,
        FrameData::ConsoleCommand(_) => 3,
        FrameData::ClientData(_) => 4,
        FrameData::NextSection => 5,
        FrameData::Event(_) => 6,
        FrameData::WeaponAnim(_) => 7,
        FrameData::Sound(_) => 8,
        FrameData::DemoBuffer(_) => 9,
        FrameData::NetMsg(_) => 0,
    }
}

/// The bytes of a frame after its type byte, time and number.
#[verifier::opaque]
pub open spec fn frame_data_bytes(d: FrameData) -> Seq<u8> {
    match d {
        FrameData::DemoStart => Seq::empty(),
        FrameData::ConsoleCommand(c) => c.command@,
        FrameData::ClientData(c) => vec3_le(c.origin) + vec3_le(c.viewangles) + le_i32(c.weapon_bits)
            + le_u32(c.fov),
        FrameData::NextSection => Seq::empty(),
        FrameData::Event(e) => event_bytes(e),
        FrameData::WeaponAnim(w) => le_i32(w.anim) + le_i32(w.body),
        FrameData::Sound(s) => le_i32(s.channel) + le_i32(s.sample@.len() as i32) + s.sample@
            + le_u32(s.attenuation) + le_u32(s.volume) + le_i32(s.flags) + le_i32(s.pitch),
        FrameData::DemoBuffer(b) => le_i32(b.buffer@.len() as i32) + b.buffer@,
        FrameData::NetMsg(d) => netmsg_bytes(d),
    }
}

pub open spec fn frame_bytes(f: Frame) -> Seq<u8> {
    seq![frame_type_id(f.data)] + le_u32(f.time) + le_i32(f.frame) + frame_data_bytes(f.data)
}

/// A demo file starts with the magic `HLDEMO` and two zero bytes, then the demo protocol and the
/// network protocol, four bytes each, little-endian, then the map name and the game directory as
/// they are given, then the map's checksum.
pub proof fn law_demo_file_head(demo: Demo)
    ensures
        ({
            let b = demo_bytes(demo);
            let h = demo.header;
            let m = h.map_name@.len() as int;
            let g = h.game_dir@.len() as int;
            &&& b.len() >= 20 + m + g
            &&& b.take(8) == seq![72u8, 76, 68, 69, 77, 79, 0, 0]
            &&& b.subrange(8, 12) == le_i32(h.demo_protocol)
            &&& b.subrange(12, 16) == le_i32(h.net_protocol)
            &&& b.subrange(16, 16 + m) == h.map_name@
            &&& b.subrange(16 + m, 16 + m + g) == h.game_dir@
            &&& b.subrange(16 + m + g, 20 + m + g) == le_i32(h.map_crc)
        }),
{
    let b = demo_bytes(demo);
    let h = demo.header;
    let m = h.map_name@.len() as int;
    let g = h.game_dir@.len() as int;
    let rest = directory_bytes(demo.directory, (demo_magic() + header_bytes(h)).len() as int);
    assert(b =~= seq![72u8, 76, 68, 69, 77, 79, 0, 0] + le_i32(h.demo_protocol) + le_i32(h.net_protocol)
        + h.map_name@ + h.game_dir@ + le_i32(h.map_crc) + rest);
    assert(b.take(8) =~= seq![72u8, 76, 68, 69, 77, 79, 0, 0]);
    assert(b.subrange(8, 12) =~= le_i32(h.demo_protocol));
    assert(b.subrange(12, 16) =~= le_i32(h.net_protocol));
    assert(b.subrange(16, 16 + m) =~= h.map_name@);
    assert(b.subrange(16 + m, 16 + m + g) =~= h.game_dir@);
    assert(b.subrange(16 + m + g, 20 + m + g) =~= le_i32(h.map_crc));
}

/// Each frame starts with the number of its kind in the demo format (a network message 0, the
/// start of a demo 2, a console command 3, client data 4, the end of a section 5, an event 6, a
/// weapon animation 7, a sound 8, a demo buffer 9), then its time and its frame number, four
/// bytes each, little-endian.
pub proof fn law_frame_head(f: Frame)
    ensures
        frame_bytes(f).len() >= 9,
        frame_bytes(f)[0] == match f.data {
            FrameData::NetMsg(_) => 0u8,
            FrameData::DemoStart => 2u8,
            FrameData::ConsoleCommand(_) => 3u8,
            FrameData::ClientData(_) => 4u8,
            FrameData::NextSection => 5u8,
            FrameData::Event(_) => 6u8,
            FrameData::WeaponAnim(_) => 7u8,
            FrameData::Sound(_) => 8u8,
            FrameData::DemoBuffer(_) => 9u8,
        },
        frame_bytes(f).subrange(1, 5) == le_u32(f.time),
        frame_bytes(f).subrange(5, 9) == le_i32(f.frame),
{
    let b = frame_bytes(f);
    assert(b.subrange(1, 5) =~= le_u32(f.time));
    assert(b.subrange(5, 9) =~= le_i32(f.frame));
}

/// The frames, one after another.
pub open spec fn frames_bytes(frames: Seq<Frame>) -> Seq<u8>
    decreases frames.len(),
{
    if frames.len() == 0 {
        Seq::empty()
    } else {
        frames_bytes(frames.drop_last()) + frame_bytes(frames.last())
    }
}

/// One of the frames ends the section.
pub open spec fn has_next_section(frames: Seq<Frame>) -> bool {
    exists|k: int| 0 <= k < frames.len() && frames[k].data is NextSection
}

/// The frames of an entry, followed by a frame that ends the section when none of them does:
/// type 5, time 0 and frame number 0.
pub open spec fn entry_body(e: DirectoryEntry) -> Seq<u8> {
    frames_bytes(e.frames@) + if has_next_section(e.frames@) {
        Seq::empty()
    } else {
        seq![5u8] + le_u32(0) + le_i32(0)
    }
}

/// The bodies of the entries, one after another.
pub open spec fn entry_bodies(es: Seq<DirectoryEntry>) -> Seq<u8>
    decreases es.len(),
{
    if es.len() == 0 {
        Seq::empty()
    } else {
        entry_bodies(es.drop_last()) + entry_body(es.last())
    }
}

/// The directory record of an entry whose body starts at `offset`.
pub open spec fn entry_record(e: DirectoryEntry, offset: int) -> Seq<u8> {
    le_i32(e.entry_type) + e.description@ + le_i32(e.flags) + le_i32(e.cd_track) + le_u32(
        e.track_time,
    ) + le_i32(e.frame_count) + le_i32(offset as i32) + le_i32(e.file_length)
}

/// The records of the entries, when their bodies follow one another from `start`.
pub open spec fn entry_records(es: Seq<DirectoryEntry>, start: int) -> Seq<u8>
    decreases es.len(),
{
    if es.len() == 0 {
        Seq::empty()
    } else {
        entry_records(es.drop_last(), start) + entry_record(
            es.last(),
            start + entry_bodies(es.drop_last()).len(),
        )
    }
}

/// The bytes of a directory written at offset `at` of the file: the offset of its record table,
/// the entry bodies, the number of entries, then the record of each entry.
pub open spec fn directory_bytes(d: Directory, at: int) -> Seq<u8> {
    let es = d.entries@;
    let table = at + 4 + entry_bodies(es).len();
    le_u32(table as u32) + entry_bodies(es) + le_i32(es.len() as i32) + entry_records(es, at + 4)
}

/// The bytes of a demo written after `start` bytes of a buffer: the offsets that it holds count
/// from the start of the buffer.
pub open spec fn demo_bytes_at(demo: Demo, start: int) -> Seq<u8> {
    let head = demo_magic() + header_bytes(demo.header);
    head + directory_bytes(demo.directory, start + head.len())
}

/// The bytes of a demo file.
pub open spec fn demo_bytes(demo: Demo) -> Seq<u8> {
    demo_bytes_at(demo, 0)
}

/// The bodies of the first `j` entries are the front of the bodies of all of them.
proof fn lemma_entry_bodies_prefix(es: Seq<DirectoryEntry>, j: int)
    requires
        0 <= j <= es.len(),
    ensures
        entry_bodies(es.take(j)).len() <= entry_bodies(es).len(),
        entry_bodies(es).take(entry_bodies(es.take(j)).len() as int) == entry_bodies(es.take(j)),
    decreases es.len(),
{
    if j == es.len() {
        assert(es.take(j) =~= es);
    } else {
        assert(es.drop_last().take(j) =~= es.take(j));
        lemma_entry_bodies_prefix(es.drop_last(), j);
        let a = entry_bodies(es.drop_last());
        let n = entry_bodies(es.take(j)).len() as int;
        assert((a + entry_body(es.last())).take(n) =~= a.take(n));
    }
}

/// The records of the first `j` entries are the front of the records of all of them.
proof fn lemma_entry_records_prefix(es: Seq<DirectoryEntry>, start: int, j: int)
    requires
        0 <= j <= es.len(),
    ensures
        entry_records(es.take(j), start).len() <= entry_records(es, start).len(),
        entry_records(es, start).take(entry_records(es.take(j), start).len() as int) == entry_records(
            es.take(j),
            start,
        ),
    decreases es.len(),
{
    if j == es.len() {
        assert(es.take(j) =~= es);
    } else {
        assert(es.drop_last().take(j) =~= es.take(j));
        lemma_entry_records_prefix(es.drop_last(), start, j);
        let a = entry_records(es.drop_last(), start);
        let r = entry_record(es.last(), start + entry_bodies(es.drop_last()).len());
        let n = entry_records(es.take(j), start).len() as int;
        assert((a + r).take(n) =~= a.take(n));
    }
}

/// The length of the header part of a written demo: the magic and the header.
pub open spec fn demo_head_len(demo: Demo) -> int {
    (demo_magic() + header_bytes(demo.header)).len() as int
}

/// Where the body of entry `k` starts in a written demo.
pub open spec fn entry_body_offset(demo: Demo, k: int) -> int {
    demo_head_len(demo) + 4 + entry_bodies(demo.directory.entries@.take(k)).len()
}

/// The offset that a written demo holds right after its header is that of its table of entry
/// records, and the table starts with the number of entries.
///
/// This holds of demos whose table starts within the range of a `u32` and whose number of
/// entries fits in an `i32`, the types in which the file holds them.
pub proof fn law_directory_offset_points_at_table(demo: Demo)
    requires
        entry_body_offset(demo, demo.directory.entries@.len() as int) <= u32::MAX,
        demo.directory.entries@.len() <= i32::MAX,
    ensures
        ({
            let b = demo_bytes(demo);
            let table = u32_at(b, demo_head_len(demo)) as int;
            &&& table == entry_body_offset(demo, demo.directory.entries@.len() as int)
            &&& table + 4 <= b.len()
            &&& i32_at(b, table) == demo.directory.entries@.len()
        }),
{
    let es = demo.directory.entries@;
    let b = demo_bytes(demo);
    let h = demo_head_len(demo);
    assert(es.take(es.len() as int) =~= es);
    let table = h + 4 + entry_bodies(es).len();
    let t32 = table as u32;
    let n32 = es.len() as i32;
    let head = demo_magic() + header_bytes(demo.header);
    let rest = entry_bodies(es) + le_i32(n32) + entry_records(es, h + 4);
    assert(b =~= head + le_u32(t32) + rest);
    lemma_u32_roundtrip(t32);
    lemma_i32_roundtrip(n32);
    assert forall|x: int| 0 <= x < 4 implies b[h + x] == le_u32(t32)[x] by {}
    assert(u32_at(b, h) == u32_at(le_u32(t32), 0));
    assert forall|x: int| 0 <= x < 4 implies b[table + x] == le_i32(n32)[x] by {
        assert(b[table + x] == rest[entry_bodies(es).len() + x]);
    }
    assert(i32_at(b, table) == i32_at(le_i32(n32), 0));
}

/// Each entry record of a written demo holds the offset at which that entry's body stands.
///
/// The record of entry `k` is `entry_record(es[k], o)`, where `o` is the offset of the body, and
/// it stands in the record table after the records of the entries before it.
pub proof fn law_entry_offsets_point_at_bodies(demo: Demo, k: int)
    requires
        0 <= k < demo.directory.entries@.len(),
    ensures
        ({
            let es = demo.directory.entries@;
            let o = entry_body_offset(demo, k);
            let h = demo_head_len(demo);
            &&& demo_bytes(demo).subrange(o, o + entry_body(es[k]).len()) == entry_body(es[k])
            &&& entry_records(es.take(k + 1), h + 4) == entry_records(es.take(k), h + 4) + entry_record(
                es[k],
                o,
            )
            &&& entry_records(es, h + 4).take(entry_records(es.take(k + 1), h + 4).len() as int)
                == entry_records(es.take(k + 1), h + 4)
        }),
{
    let es = demo.directory.entries@;
    let h = demo_head_len(demo);
    let o = entry_body_offset(demo, k);
    let t = es.take(k + 1);
    assert(t.drop_last() =~= es.take(k));
    assert(t.last() == es[k]);
    lemma_entry_bodies_prefix(es, k + 1);
    lemma_entry_records_prefix(es, h + 4, k + 1);
    let bodies = entry_bodies(es);
    let pre = entry_bodies(es.take(k));
    let body = entry_body(es[k]);
    assert(entry_bodies(t) == pre + body);
    let b = demo_bytes(demo);
    let head = demo_magic() + header_bytes(demo.header);
    let t32 = (h + 4 + bodies.len()) as u32;
    let tail = le_i32(es.len() as i32) + entry_records(es, h + 4);
    assert(b =~= head + le_u32(t32) + bodies + tail);
    assert forall|x: int| 0 <= x < body.len() implies b.subrange(o, o + body.len())[x] == body[x] by {
        assert(b[o + x] == bodies[pre.len() + x]);
        assert(bodies.take((pre + body).len() as int)[pre.len() + x] == (pre + body)[pre.len() + x]);
    }
    assert(b.subrange(o, o + body.len()) =~= body);
}

/// Writes demos into a buffer.
pub struct DemoWriter {
    pub filename: String,
    pub writer: ByteWriter,
}

impl DemoWriter {
    pub fn new(filename: String) -> (res: DemoWriter)
        ensures
            res.filename == filename,
            res.writer.data@ == Seq::<u8>::empty(),
            res.writer.wf(),
    {
        DemoWriter { filename, writer: ByteWriter::new() }
    }

    /// Writes the whole demo after what the buffer holds; on an empty buffer, that is the demo
    /// file.
    pub fn write_demo(&mut self, demo: Demo)
        requires
            old(self).writer.wf(),
        ensures
            final(self).writer.wf(),
            final(self).writer.data@ == old(self).writer.data@ + demo_bytes_at(
                demo,
                old(self).writer.data@.len() as int,
            ),
            old(self).writer.data@.len() == 0 ==> final(self).writer.data@ == demo_bytes(demo),
            final(self).filename == old(self).filename,
    {
        // Magic has 8 bytes in total
        let magic: [u8; 8] = [72u8, 76u8, 68u8, 69u8, 77u8, 79u8, 0u8, 0u8];
        self.writer.append_u8_slice(&magic);
        assert(magic@ =~= demo_magic());

        self.write_header(demo.header);
        let ghost at = self.writer.data@.len() as int;
        self.write_directory(&demo.directory);
        assert(self.writer.data@ =~= old(self).writer.data@ + demo_bytes_at(demo, old(self).writer.data@.len() as int));
    }

    fn write_header(&mut self, header: Header)
        requires
            old(self).writer.wf(),
        ensures
            final(self).writer.wf(),
            final(self).writer.data@ == old(self).writer.data@ + header_bytes(header),
            final(self).filename == old(self).filename,
    {
        self.writer.append_i32(header.demo_protocol);
        self.writer.append_i32(header.net_protocol);
        self.writer.append_u8_slice(header.map_name);
        self.writer.append_u8_slice(header.game_dir);
        self.writer.append_i32(header.map_crc);
        assert(self.writer.data@ =~= old(self).writer.data@ + header_bytes(header));
    }

    fn write_directory(&mut self, directory: &Directory)
        requires
            old(self).writer.wf(),
        ensures
            final(self).writer.wf(),
            final(self).writer.data@ == old(self).writer.data@ + directory_bytes(
                *directory,
                old(self).writer.data@.len() as int,
            ),
            final(self).filename == old(self).filename,
    {
        let ghost es = directory.entries@;
        let ghost p = self.writer.data@;
        let directory_offset_pos = self.writer.offset;
        let mut entry_offsets: Vec<usize> = Vec::new();

        // Delay writing directory offset
        self.writer.append_i32(0i32);

        let mut k: usize = 0;
        while k < directory.entries.len()
            invariant
                k <= es.len(),
                es == directory.entries@,
                self.writer.wf(),
                self.filename == old(self).filename,
                directory_offset_pos == p.len(),
                self.writer.data@ == p + le_i32(0) + entry_bodies(es.take(k as int)),
                entry_offsets@.len() == k,
                forall|j: int| 0 <= j < k ==> #[trigger] entry_offsets@[j] == p.len() + 4
                    + entry_bodies(es.take(j)).len(),
            decreases es.len() - k,
        {
            let entry = &directory.entries[k];
            let mut has_written_next_section = false;

            let ghost before = self.writer.data@;
            entry_offsets.push(self.writer.offset);

            let mut m: usize = 0;
            while m < entry.frames.len()
                invariant
                    m <= entry.frames@.len(),
                    self.writer.wf(),
                    self.filename == old(self).filename,
                    self.writer.data@ == before + frames_bytes(entry.frames@.take(m as int)),
                    has_written_next_section == has_next_section(entry.frames@.take(m as int)),
                decreases entry.frames@.len() - m,
            {
                let frame = &entry.frames[m];
                self.write_frame(frame);

                if matches!(frame.data, FrameData::NextSection) {
                    has_written_next_section = true;
                }
                proof {
                    let f = entry.frames@.take(m + 1);
                    assert(f.drop_last() =~= entry.frames@.take(m as int));
                    if has_next_section(entry.frames@.take(m as int)) {
                        let w = choose|w: int| 0 <= w < m && entry.frames@.take(m as int)[w].data is NextSection;
                        assert(f[w] == entry.frames@.take(m as int)[w]);
                    }
                    if has_next_section(f) {
                        let w = choose|w: int| 0 <= w < m + 1 && f[w].data is NextSection;
                        if w < m {
                            assert(entry.frames@.take(m as int)[w] == f[w]);
                        }
                    }
                }
                m = m + 1;
            }
            assert(entry.frames@.take(entry.frames@.len() as int) =~= entry.frames@);

            if !has_written_next_section {
                self.writer.append_u8(5u8);
                self.writer.append_u32(0u32);
                self.writer.append_i32(0);
            }
            proof {
                assert(es.take(k + 1).drop_last() =~= es.take(k as int));
                assert(es.take(k + 1).last() == es[k as int]);
                assert(self.writer.data@ =~= p + le_i32(0) + entry_bodies(es.take(k + 1)));
                assert forall|j: int| 0 <= j < k + 1 implies #[trigger] entry_offsets@[j] == p.len() + 4
                    + entry_bodies(es.take(j)).len() by {
                    if j == k {
                        assert(es.take(j) =~= es.take(k as int));
                    }
                }
            }
            k = k + 1;
        }
        assert(es.take(es.len() as int) =~= es);

        let director_offset = self.writer.offset;
        let ghost mid = self.writer.data@;
        self.writer.append_i32(directory.entries.len() as i32);

        let mut k: usize = 0;
        while k < directory.entries.len()
            invariant
                k <= es.len(),
                es == directory.entries@,
                self.writer.wf(),
                self.filename == old(self).filename,
                directory_offset_pos == p.len(),
                director_offset == mid.len(),
                mid == p + le_i32(0) + entry_bodies(es),
                entry_offsets@.len() == es.len(),
                forall|j: int| 0 <= j < es.len() ==> #[trigger] entry_offsets@[j] == p.len() + 4
                    + entry_bodies(es.take(j)).len(),
                self.writer.data@ == mid + le_i32(es.len() as i32) + entry_records(
                    es.take(k as int),
                    (p.len() + 4) as int,
                ),
            decreases es.len() - k,
        {
            self.write_directory_entry(&directory.entries[k], &entry_offsets[k]);
            proof {
                assert(es.take(k + 1).drop_last() =~= es.take(k as int));
                assert(es.take(k + 1).last() == es[k as int]);
            }
            k = k + 1;
        }
        assert(es.take(es.len() as int) =~= es);

        let table = director_offset as u32;
        self.writer.data.set(directory_offset_pos, (table & 0xff) as u8);
        self.writer.data.set(directory_offset_pos + 1, ((table >> 8) & 0xff) as u8);
        self.writer.data.set(directory_offset_pos + 2, ((table >> 16) & 0xff) as u8);
        self.writer.data.set(directory_offset_pos + 3, ((table >> 24) & 0xff) as u8);
        assert(self.writer.data@ =~= old(self).writer.data@ + directory_bytes(
            *directory,
            old(self).writer.data@.len() as int,
        ));
    }

    fn write_directory_entry(&mut self, entry: &DirectoryEntry, new_offset: &usize)
        requires
            old(self).writer.wf(),
        ensures
            final(self).writer.wf(),
            final(self).writer.data@ == old(self).writer.data@ + entry_record(*entry, *new_offset as int),
            final(self).filename == old(self).filename,
    {
        self.writer.append_i32(entry.entry_type);
        self.writer.append_u8_slice(entry.description);
        self.writer.append_i32(entry.flags);
        self.writer.append_i32(entry.cd_track);
        self.writer.append_u32(entry.track_time);
        self.writer.append_i32(entry.frame_count);
        self.writer.append_i32(*new_offset as i32);
        self.writer.append_i32(entry.file_length);
        assert(self.writer.data@ =~= old(self).writer.data@ + entry_record(*entry, *new_offset as int));
    }

    fn write_frame(&mut self, frame: &Frame)
        requires
            old(self).writer.wf(),
        ensures
            final(self).writer.wf(),
            final(self).writer.data@ == old(self).writer.data@ + frame_bytes(*frame),
            final(self).filename == old(self).filename,
    {
        match frame.data {
            FrameData::DemoStart => self.writer.append_u8(2u8),
            FrameData::ConsoleCommand(_) => self.writer.append_u8(3u8),
            FrameData::ClientData(_) => self.writer.append_u8(4u8),
            FrameData::NextSection => self.writer.append_u8(5u8),
            FrameData::Event(_) => self.writer.append_u8(6u8),
            FrameData::WeaponAnim(_) => self.writer.append_u8(7u8),
            FrameData::Sound(_) => self.writer.append_u8(8u8),
            FrameData::DemoBuffer(_) => self.writer.append_u8(9u8),
            FrameData::NetMsg(_) => self.writer.append_u8(0u8),
        }

        self.writer.append_u32(frame.time);
        self.writer.append_i32(frame.frame);
        self.write_frame_data(&frame.data);
        assert(self.writer.data@ =~= old(self).writer.data@ + frame_bytes(*frame));
    }

    fn write_frame_data(&mut self, frame: &FrameData)
        requires
            old(self).writer.wf(),
        ensures
            final(self).writer.wf(),
            final(self).writer.data@ == old(self).writer.data@ + frame_data_bytes(*frame),
            final(self).filename == old(self).filename,
    {
        match frame {
            FrameData::DemoStart => (),
            FrameData::ConsoleCommand(frame) => self.writer.append_u8_slice(frame.command),
            FrameData::ClientData(frame) => {
                append_vec3(&mut self.writer, frame.origin);
                append_vec3(&mut self.writer, frame.viewangles);
                self.writer.append_i32(frame.weapon_bits);
                self.writer.append_u32(frame.fov);
            }
            FrameData::NextSection => (),
            FrameData::Event(frame) => self.write_event(frame),
            FrameData::WeaponAnim(frame) => {
                self.writer.append_i32(frame.anim);
                self.writer.append_i32(frame.body);
            }
            FrameData::Sound(frame) => {
                self.writer.append_i32(frame.channel);
                self.writer.append_i32(frame.sample.len() as i32);
                self.writer.append_u8_slice(frame.sample);
                self.writer.append_u32(frame.attenuation);
                self.writer.append_u32(frame.volume);
                self.writer.append_i32(frame.flags);
                self.writer.append_i32(frame.pitch);
            }
            FrameData::DemoBuffer(frame) => {
                self.writer.append_i32(frame.buffer.len() as i32);
                self.writer.append_u8_slice(frame.buffer);
            }
            FrameData::NetMsg(data) => self.write_netmsg(data),
        }
        proof {
            reveal(frame_data_bytes);
        }
        assert(self.writer.data@ =~= old(self).writer.data@ + frame_data_bytes(*frame));
    }

    fn write_netmsg(&mut self, data: &NetMsgData)
        requires
            old(self).writer.wf(),
        ensures
            final(self).writer.wf(),
            final(self).writer.data@ == old(self).writer.data@ + netmsg_bytes(*data),
            final(self).filename == old(self).filename,
    {
        self.writer.append_u32(data.info.timestamp);
        // ref_params
        self.write_ref_params(&data.info.ref_params);
        // usercmd
        self.write_usercmd(&data.info.usercmd);
        // movevars
        self.write_movevars(&data.info.movevars);
        // still in info
        append_vec3(&mut self.writer, data.info.view);
        self.writer.append_i32(data.info.viewmodel);
        // now other data
        self.writer.append_i32(data.incoming_sequence);
        self.writer.append_i32(data.incoming_acknowledged);
        self.writer.append_i32(data.incoming_reliable_acknowledged);
        self.writer.append_i32(data.incoming_reliable_sequence);
        self.writer.append_i32(data.outgoing_sequence);
        self.writer.append_i32(data.reliable_sequence);
        self.writer.append_i32(data.last_reliable_sequence);

        self.writer.append_i32(data.msg.len() as i32);
        self.writer.append_u8_slice(data.msg);

        proof {
            reveal(netmsg_bytes);
        }
        assert(self.writer.data@ =~= old(self).writer.data@ + netmsg_bytes(*data));
    }

    #[verifier::spinoff_prover]
    #[verifier::rlimit(40)]
    fn write_event(&mut self, frame: &EventData)
        requires
            old(self).writer.wf(),
        ensures
            final(self).writer.wf(),
            final(self).writer.data@ == old(self).writer.data@ + event_bytes(*frame),
            final(self).filename == old(self).filename,
    {
        self.writer.append_i32(frame.flags);
        self.writer.append_i32(frame.index);
        self.writer.append_u32(frame.delay);

        self.writer.append_i32(frame.args.flags);
        self.writer.append_i32(frame.args.entity_index);
        append_vec3(&mut self.writer, frame.args.origin);
        append_vec3(&mut self.writer, frame.args.angles);
        append_vec3(&mut self.writer, frame.args.velocity);
        self.writer.append_i32(frame.args.ducking);
        self.writer.append_u32(frame.args.fparam1);
        self.writer.append_u32(frame.args.fparam2);
        self.writer.append_i32(frame.args.iparam1);
        self.writer.append_i32(frame.args.iparam2);
        self.writer.append_i32(frame.args.bparam1);
        self.writer.append_i32(frame.args.bparam2);

        assert(self.writer.data@ =~= old(self).writer.data@ + event_bytes(*frame));
    }

    fn write_ref_params_part1(&mut self, p: &RefParams)
        requires
            old(self).writer.wf(),
        ensures
            final(self).writer.wf(),
            final(self).writer.data@ == old(self).writer.data@ + ref_params_part1_bytes(*p),
            final(self).filename == old(self).filename,
    {
        append_vec3(&mut self.writer, p.vieworg);
        append_vec3(&mut self.writer, p.viewangles);
        append_vec3(&mut self.writer, p.forward);
        append_vec3(&mut self.writer, p.right);
        append_vec3(&mut self.writer, p.up);
        self.writer.append_u32(p.frametime);
        self.writer.append_u32(p.time);
        self.writer.append_i32(p.intermission);
        self.writer.append_i32(p.paused);
        self.writer.append_i32(p.spectator);
        self.writer.append_i32(p.onground);
        self.writer.append_i32(p.waterlevel);
        proof {
            reveal(ref_params_part1_bytes);
        }
        assert(self.writer.data@ =~= old(self).writer.data@ + ref_params_part1_bytes(*p));
    }

    fn write_ref_params_part2(&mut self, p: &RefParams)
        requires
            old(self).writer.wf(),
        ensures
            final(self).writer.wf(),
            final(self).writer.data@ == old(self).writer.data@ + ref_params_part2_bytes(*p),
            final(self).filename == old(self).filename,
    {
        append_vec3(&mut self.writer, p.simvel);
        append_vec3(&mut self.writer, p.simorg);
        append_vec3(&mut self.writer, p.viewheight);
        self.writer.append_u32(p.idealpitch);
        append_vec3(&mut self.writer, p.cl_viewangles);
        self.writer.append_i32(p.health);
        append_vec3(&mut self.writer, p.crosshairangle);
        self.writer.append_u32(p.viewsize);
        append_vec3(&mut self.writer, p.punchangle);
        self.writer.append_i32(p.maxclients);
        self.writer.append_i32(p.viewentity);
        self.writer.append_i32(p.playernum);
        proof {
            reveal(ref_params_part2_bytes);
        }
        assert(self.writer.data@ =~= old(self).writer.data@ + ref_params_part2_bytes(*p));
    }

    fn write_ref_params_part3(&mut self, p: &RefParams)
        requires
            old(self).writer.wf(),
        ensures
            final(self).writer.wf(),
            final(self).writer.data@ == old(self).writer.data@ + ref_params_part3_bytes(*p),
            final(self).filename == old(self).filename,
    {
        self.writer.append_i32(p.max_entities);
        self.writer.append_i32(p.demoplayback);
        self.writer.append_i32(p.hardware);
        self.writer.append_i32(p.smoothing);
        self.writer.append_i32(p.ptr_cmd);
        self.writer.append_i32(p.ptr_movevars);
        self.writer.append_i32_array_4(p.viewport);
        self.writer.append_i32(p.next_view);
        self.writer.append_i32(p.only_client_draw);
        proof {
            reveal(ref_params_part3_bytes);
        }
        assert(self.writer.data@ =~= old(self).writer.data@ + ref_params_part3_bytes(*p));
    }

    fn write_ref_params(&mut self, p: &RefParams)
        requires
            old(self).writer.wf(),
        ensures
            final(self).writer.wf(),
            final(self).writer.data@ == old(self).writer.data@ + ref_params_bytes(*p),
            final(self).filename == old(self).filename,
    {
        self.write_ref_params_part1(p);
        self.write_ref_params_part2(p);
        self.write_ref_params_part3(p);
        proof {
            reveal(ref_params_bytes);
        }
        assert(self.writer.data@ =~= old(self).writer.data@ + ref_params_bytes(*p));
    }

    fn write_usercmd_part1(&mut self, p: &UserCmd)
        requires
            old(self).writer.wf(),
        ensures
            final(self).writer.wf(),
            final(self).writer.data@ == old(self).writer.data@ + usercmd_part1_bytes(*p),
            final(self).filename == old(self).filename,
    {
        self.writer.append_i16(p.lerp_msec);
        self.writer.append_u8(p.msec);
        self.writer.append_u8(0u8); // unknown
        append_vec3(&mut self.writer, p.viewangles);
        self.writer.append_u32(p.forwardmove);
        self.writer.append_u32(p.sidemove);
        self.writer.append_u32(p.upmove);
        self.writer.append_i8(p.lightlevel);
        self.writer.append_u8(0u8); // unknown
        self.writer.append_u16(p.buttons);
        self.writer.append_i8(p.impulse);
        self.writer.append_i8(p.weaponselect);
        proof {
            reveal(usercmd_part1_bytes);
        }
        assert(self.writer.data@ =~= old(self).writer.data@ + usercmd_part1_bytes(*p));
    }

    fn write_usercmd_part2(&mut self, p: &UserCmd)
        requires
            old(self).writer.wf(),
        ensures
            final(self).writer.wf(),
            final(self).writer.data@ == old(self).writer.data@ + usercmd_part2_bytes(*p),
            final(self).filename == old(self).filename,
    {
        self.writer.append_u8(0u8); // unknown
        self.writer.append_u8(0u8); // unknown
        self.writer.append_i32(p.impact_index);
        append_vec3(&mut self.writer, p.impact_position);
        proof {
            reveal(usercmd_part2_bytes);
        }
        assert(self.writer.data@ =~= old(self).writer.data@ + usercmd_part2_bytes(*p));
    }

    fn write_usercmd(&mut self, p: &UserCmd)
        requires
            old(self).writer.wf(),
        ensures
            final(self).writer.wf(),
            final(self).writer.data@ == old(self).writer.data@ + usercmd_bytes(*p),
            final(self).filename == old(self).filename,
    {
        self.write_usercmd_part1(p);
        self.write_usercmd_part2(p);
        proof {
            reveal(usercmd_bytes);
        }
        assert(self.writer.data@ =~= old(self).writer.data@ + usercmd_bytes(*p));
    }

    fn write_movevars_part1(&mut self, p: &MoveVars)
        requires
            old(self).writer.wf(),
        ensures
            final(self).writer.wf(),
            final(self).writer.data@ == old(self).writer.data@ + movevars_part1_bytes(*p),
            final(self).filename == old(self).filename,
    {
        self.writer.append_u32(p.gravity);
        self.writer.append_u32(p.stopspeed);
        self.writer.append_u32(p.maxspeed);
        self.writer.append_u32(p.spectatormaxspeed);
        self.writer.append_u32(p.accelerate);
        self.writer.append_u32(p.airaccelerate);
        self.writer.append_u32(p.wateraccelerate);
        self.writer.append_u32(p.friction);
        self.writer.append_u32(p.edgefriction);
        self.writer.append_u32(p.waterfriction);
        self.writer.append_u32(p.entgravity);
        self.writer.append_u32(p.bounce);
        proof {
            reveal(movevars_part1_bytes);
        }
        assert(self.writer.data@ =~= old(self).writer.data@ + movevars_part1_bytes(*p));
    }

    fn write_movevars_part2(&mut self, p: &MoveVars)
        requires
            old(self).writer.wf(),
        ensures
            final(self).writer.wf(),
            final(self).writer.data@ == old(self).writer.data@ + movevars_part2_bytes(*p),
            final(self).filename == old(self).filename,
    {
        self.writer.append_u32(p.stepsize);
        self.writer.append_u32(p.maxvelocity);
        self.writer.append_u32(p.zmax);
        self.writer.append_u32(p.wave_height);
        self.writer.append_i32(p.footsteps);
        self.writer.append_u8_slice(p.sky_name);
        self.writer.append_u32(p.rollangle);
        self.writer.append_u32(p.rollspeed);
        self.writer.append_u32(p.skycolor_r);
        self.writer.append_u32(p.skycolor_g);
        self.writer.append_u32(p.skycolor_b);
        self.writer.append_u32(p.skyvec_x);
        proof {
            reveal(movevars_part2_bytes);
        }
        assert(self.writer.data@ =~= old(self).writer.data@ + movevars_part2_bytes(*p));
    }

    fn write_movevars_part3(&mut self, p: &MoveVars)
        requires
            old(self).writer.wf(),
        ensures
            final(self).writer.wf(),
            final(self).writer.data@ == old(self).writer.data@ + movevars_part3_bytes(*p),
            final(self).filename == old(self).filename,
    {
        self.writer.append_u32(p.skyvec_y);
        self.writer.append_u32(p.skyvec_z);
        proof {
            reveal(movevars_part3_bytes);
        }
        assert(self.writer.data@ =~= old(self).writer.data@ + movevars_part3_bytes(*p));
    }

    fn write_movevars(&mut self, p: &MoveVars)
        requires
            old(self).writer.wf(),
        ensures
            final(self).writer.wf(),
            final(self).writer.data@ == old(self).writer.data@ + movevars_bytes(*p),
            final(self).filename == old(self).filename,
    {
        self.write_movevars_part1(p);
        self.write_movevars_part2(p);
        self.write_movevars_part3(p);
        proof {
            reveal(movevars_bytes);
        }
        assert(self.writer.data@ =~= old(self).writer.data@ + movevars_bytes(*p));
    }

}

} // verus!
