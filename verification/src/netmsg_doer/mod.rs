//! Parsers and writers for the network messages of a demo.
//!
//! A parser takes the bytes that follow a message's type byte and returns the rest of the
//! input with the message; a writer returns the message's type byte followed by its bytes.

use vstd::prelude::*;
use crate::le::{le_u16, le_u32, le_i8, le_i16, le_i32, lemma_u16_bytes, lemma_u32_bytes,
    lemma_i8_bytes, lemma_i16_bytes, lemma_i32_bytes, u16_at, u32_at, i8_at, i16_at, i32_at};

pub mod utils;
pub mod temp_entity;
pub mod stop_sound;
pub mod weapon_anim;
pub mod version;
pub mod time;
pub mod time_scale;
pub mod stuff_text;
pub mod spawn_static;
pub mod spawn_static_sound;
pub mod update_user_info;
pub mod voice_data;
pub mod voice_init;
pub mod user_message;

verus! {

/// Why a message could not be read.
#[derive(Clone, Copy, Debug, PartialEq, Eq)]
pub enum ParseError {
    /// The input ended before the message did.
    Eof,
    /// A string ran to the end of the input without its null terminator.
    MissingNul,
}

/// The rest of the input with what was read from its front, or why nothing could be read.
pub type IResult<'a, T> = Result<(&'a [u8], T), ParseError>;

pub fn read_u8(i: &[u8]) -> (res: IResult<'_, u8>)
    ensures
        res is Ok <==> i@.len() >= 1,
        res is Err ==> res == IResult::<u8>::Err(ParseError::Eof),
        res matches Ok((rest, v)) ==> i@ == seq![v] + rest@,
{
    if i.len() < 1 {
        return Err(ParseError::Eof);
    }
    let v = i[0];
    let (_, rest) = i.split_at(1);
    assert(i@ =~= seq![v] + rest@);
    Ok((rest, v))
}

pub fn read_i8(i: &[u8]) -> (res: IResult<'_, i8>)
    ensures
        res is Ok <==> i@.len() >= 1,
        res is Err ==> res == IResult::<i8>::Err(ParseError::Eof),
        res matches Ok((rest, v)) ==> i@ == le_i8(v) + rest@,
{
    if i.len() < 1 {
        return Err(ParseError::Eof);
    }
    let v = i[0] as i8;
    let (_, rest) = i.split_at(1);
    proof {
        lemma_i8_bytes(i@, 0);
        assert(v == i8_at(i@, 0));
        assert(i@ =~= i@.subrange(0, 1) + rest@);
    }
    Ok((rest, v))
}

pub fn read_u16(i: &[u8]) -> (res: IResult<'_, u16>)
    ensures
        res is Ok <==> i@.len() >= 2,
        res is Err ==> res == IResult::<u16>::Err(ParseError::Eof),
        res matches Ok((rest, v)) ==> i@ == le_u16(v) + rest@,
{
    if i.len() < 2 {
        return Err(ParseError::Eof);
    }
    let v = (i[0] as u16) | ((i[1] as u16) << 8);
    let (_, rest) = i.split_at(2);
    proof {
        lemma_u16_bytes(i@, 0);
        assert(v == u16_at(i@, 0));
        assert(i@ =~= i@.subrange(0, 2) + rest@);
    }
    Ok((rest, v))
}

pub fn read_i16(i: &[u8]) -> (res: IResult<'_, i16>)
    ensures
        res is Ok <==> i@.len() >= 2,
        res is Err ==> res == IResult::<i16>::Err(ParseError::Eof),
        res matches Ok((rest, v)) ==> i@ == le_i16(v) + rest@,
{
    if i.len() < 2 {
        return Err(ParseError::Eof);
    }
    let v = ((i[0] as u16) | ((i[1] as u16) << 8)) as i16;
    let (_, rest) = i.split_at(2);
    proof {
        lemma_i16_bytes(i@, 0);
        assert(v == i16_at(i@, 0));
        assert(i@ =~= i@.subrange(0, 2) + rest@);
    }
    Ok((rest, v))
}

pub fn read_u32(i: &[u8]) -> (res: IResult<'_, u32>)
    ensures
        res is Ok <==> i@.len() >= 4,
        res is Err ==> res == IResult::<u32>::Err(ParseError::Eof),
        res matches Ok((rest, v)) ==> i@ == le_u32(v) + rest@,
{
    if i.len() < 4 {
        return Err(ParseError::Eof);
    }
    let v = (i[0] as u32) | ((i[1] as u32) << 8) | ((i[2] as u32) << 16) | ((i[3] as u32) << 24);
    let (_, rest) = i.split_at(4);
    proof {
        lemma_u32_bytes(i@, 0);
        assert(v == u32_at(i@, 0));
        assert(i@ =~= i@.subrange(0, 4) + rest@);
    }
    Ok((rest, v))
}

pub fn read_i32(i: &[u8]) -> (res: IResult<'_, i32>)
    ensures
        res is Ok <==> i@.len() >= 4,
        res is Err ==> res == IResult::<i32>::Err(ParseError::Eof),
        res matches Ok((rest, v)) ==> i@ == le_i32(v) + rest@,
{
    if i.len() < 4 {
        return Err(ParseError::Eof);
    }
    let v = ((i[0] as u32) | ((i[1] as u32) << 8) | ((i[2] as u32) << 16) | ((i[3] as u32) << 24)) as i32;
    let (_, rest) = i.split_at(4);
    proof {
        lemma_i32_bytes(i@, 0);
        assert(v == i32_at(i@, 0));
        assert(i@ =~= i@.subrange(0, 4) + rest@);
    }
    Ok((rest, v))
}

/// The first `n` bytes of the input.
pub fn take(i: &[u8], n: usize) -> (res: IResult<'_, &[u8]>)
    ensures
        res is Ok <==> i@.len() >= n,
        res is Err ==> res == IResult::<&[u8]>::Err(ParseError::Eof),
        res matches Ok((rest, v)) ==> v@.len() == n && i@ == v@ + rest@,
{
    if i.len() < n {
        return Err(ParseError::Eof);
    }
    let (v, rest) = i.split_at(n);
    assert(i@ =~= v@ + rest@);
    Ok((rest, v))
}

} // verus!
