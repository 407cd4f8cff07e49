//! User messages: messages of the game rather than of the engine, registered by SVC_NEWUSERMSG.

use vstd::prelude::*;
use std::collections::HashMap;
use crate::types::{NetMsgUserMessage, SvcNewUserMsg};
use super::{IResult, ParseError, read_u8, take};

verus! {

/// A registered user message whose size is 255 (read as -1) has its length in its first byte.
pub open spec fn has_fixed_size(c: SvcNewUserMsg) -> bool {
    (c.size as u8) < 255
}

/// The length of the data of a user message with the given registration, and whether a length
/// byte stands before that data: a registered message with a fixed size has that size, one
/// without has the length its first byte gives, and a message that was never registered has one
/// byte.
pub open spec fn user_message_layout(s: Seq<u8>, reg: Option<SvcNewUserMsg>) -> (int, bool) {
    match reg {
        Some(c) => if has_fixed_size(c) {
            ((c.size as u8) as int, false)
        } else {
            (if s.len() >= 1 { s[0] as int } else { 0 }, true)
        },
        None => (1, false),
    }
}

/// The bytes of a user message can be read.
pub open spec fn user_message_readable(s: Seq<u8>, reg: Option<SvcNewUserMsg>) -> bool {
    let (n, prefixed) = user_message_layout(s, reg);
    if prefixed {
        s.len() >= 1 && s.len() - 1 >= n
    } else {
        s.len() >= n
    }
}

pub struct UserMessage {}

impl UserMessage {
    /// Reads the data of the user message `id`, whose layout the message registered under `id`
    /// gives.
    pub fn parse<'a>(
        i: &'a [u8],
        id: u8,
        custom_messages: &mut HashMap<u8, SvcNewUserMsg<'a>>,
    ) -> (res: IResult<'a, NetMsgUserMessage<'a>>)
        ensures
            final(custom_messages)@ == old(custom_messages)@,
            ({
                let reg = if old(custom_messages)@.contains_key(id) {
                    Some(old(custom_messages)@[id])
                } else {
                    None
                };
                let (n, prefixed) = user_message_layout(i@, reg);
                &&& res is Ok <==> user_message_readable(i@, reg)
                &&& res is Err ==> res == IResult::<NetMsgUserMessage>::Err(ParseError::Eof)
                &&& res matches Ok((rest, m)) ==> {
                    &&& m.id == id
                    &&& m.name@ == (match reg {
                        Some(c) => c.name@,
                        None => Seq::<u8>::empty(),
                    })
                    &&& m.data@.len() == n
                    &&& i@ == (if prefixed { seq![n as u8] } else { Seq::empty() }) + m.data@ + rest@
                }
            }),
    {
        let ghost s0 = i@;
        let (no_name, _) = i.split_at(0);
        let custom_message = custom_messages.get(&id);

        let is_set = custom_message.is_some();
        let is_size = custom_message.is_some() && (custom_message.unwrap().size as u8) < 255u8;

        let (i, data) = if is_set {
            if is_size {
                take(i, custom_message.unwrap().size as u8 as usize)?
            } else {
                let (i, length) = read_u8(i)?;
                take(i, length as usize)?
            }
        } else {
            take(i, 1usize)?
        };

        let m = NetMsgUserMessage {
            id,
            name: if is_set {
                custom_message.unwrap().name
            } else {
                no_name
            },
            data,
        };
        Ok((i, m))
    }

    /// Writes a stand-in for a user message: one byte, 69.
    pub fn write(i: NetMsgUserMessage) -> (res: Vec<u8>)
        ensures
            res@ == seq![69u8],
    {
        let mut writer = crate::writer::ByteWriter::new();

        writer.append_u8(69u8); // magic for now

        writer.data
    }
}

} // verus!
