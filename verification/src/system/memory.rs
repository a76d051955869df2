//! Numbers in the host's memory.
//!
//! The host keeps a number of several bytes with its most significant byte
//! first. The functions here read and write such numbers at a byte offset of
//! a region, and touch no byte but those of the number.

use crate::system::math::{Vec3f, Vec3s};
use vstd::prelude::*;

verus! {

/// The 16-bit number whose bytes lie at `at`.
pub open spec fn u16_at(mem: Seq<u8>, at: int) -> u16 {
    (mem[at] * 0x100 + mem[at + 1]) as u16
}

/// The 32-bit number whose bytes lie at `at`.
pub open spec fn u32_at(mem: Seq<u8>, at: int) -> u32 {
    (mem[at] * 0x100_0000 + mem[at + 1] * 0x1_0000 + mem[at + 2] * 0x100 + mem[at + 3]) as u32
}

/// The signed number that the 16 bits of `raw` stand for.
pub open spec fn signed(raw: u16) -> i16 {
    if raw < 0x8000 {
        raw as i16
    } else {
        (raw - 0x1_0000) as i16
    }
}

/// The 16 bits that stand for `value`.
pub open spec fn unsigned(value: i16) -> u16 {
    if value >= 0 {
        value as u16
    } else {
        (value + 0x1_0000) as u16
    }
}

/// The signed 16-bit number whose bytes lie at `at`.
pub open spec fn i16_at(mem: Seq<u8>, at: int) -> i16 {
    signed(u16_at(mem, at))
}

/// The three signed 16-bit numbers that lie from `at` on.
pub open spec fn vec3s_at(mem: Seq<u8>, at: int) -> Vec3s {
    Vec3s { x: i16_at(mem, at), y: i16_at(mem, at + 2), z: i16_at(mem, at + 4) }
}

/// The three 32-bit numbers that lie from `at` on.
pub open spec fn vec3f_at(mem: Seq<u8>, at: int) -> Vec3f {
    Vec3f { x: u32_at(mem, at), y: u32_at(mem, at + 4), z: u32_at(mem, at + 8) }
}

/// `mem` with the bytes of `value` at `at`.
pub open spec fn with_u16(mem: Seq<u8>, at: int, value: u16) -> Seq<u8> {
    mem.update(at, (value / 0x100) as u8).update(at + 1, (value % 0x100) as u8)
}

/// `mem` with the bytes of `value` at `at`.
pub open spec fn with_u32(mem: Seq<u8>, at: int, value: u32) -> Seq<u8> {
    mem.update(at, (value / 0x100_0000) as u8).update(
        at + 1,
        (value / 0x1_0000 % 0x100) as u8,
    ).update(at + 2, (value / 0x100 % 0x100) as u8).update(at + 3, (value % 0x100) as u8)
}

/// `mem` with the bytes of `value` at `at`.
pub open spec fn with_i16(mem: Seq<u8>, at: int, value: i16) -> Seq<u8> {
    with_u16(mem, at, unsigned(value))
}

/// `mem` with the three numbers of `value` from `at` on.
pub open spec fn with_vec3s(mem: Seq<u8>, at: int, value: Vec3s) -> Seq<u8> {
    with_i16(with_i16(with_i16(mem, at, value.x), at + 2, value.y), at + 4, value.z)
}

/// `mem` with the three numbers of `value` from `at` on.
pub open spec fn with_vec3f(mem: Seq<u8>, at: int, value: Vec3f) -> Seq<u8> {
    with_u32(with_u32(with_u32(mem, at, value.x), at + 4, value.y), at + 8, value.z)
}

/// `after` is as long as `before` and has the same byte wherever the offset
/// is not one of `from`, ..., `to - 1`.
pub open spec fn same_outside(before: Seq<u8>, after: Seq<u8>, from: int, to: int) -> bool {
    &&& after.len() == before.len()
    &&& forall|i: int| 0 <= i < before.len() && !(from <= i < to) ==> after[i] == before[i]
}

/// Writing a 16-bit number changes its two bytes and no other, and the
/// number then reads back.
pub proof fn lemma_with_u16(mem: Seq<u8>, at: int, value: u16)
    requires
        0 <= at,
        at + 2 <= mem.len(),
    ensures
        same_outside(mem, with_u16(mem, at, value), at, at + 2),
        u16_at(with_u16(mem, at, value), at) == value,
{
}

/// Writing a 32-bit number changes its four bytes and no other, and the
/// number then reads back.
pub proof fn lemma_with_u32(mem: Seq<u8>, at: int, value: u32)
    requires
        0 <= at,
        at + 4 <= mem.len(),
    ensures
        same_outside(mem, with_u32(mem, at, value), at, at + 4),
        u32_at(with_u32(mem, at, value), at) == value,
{
}

/// The 16 bits that stand for a signed number stand for no other.
pub proof fn lemma_signed_unsigned(value: i16)
    ensures
        signed(unsigned(value)) == value,
{
}

/// Writing three signed 16-bit numbers changes their six bytes and no
/// other, and the numbers then read back.
pub proof fn lemma_with_vec3s(mem: Seq<u8>, at: int, value: Vec3s)
    requires
        0 <= at,
        at + 6 <= mem.len(),
    ensures
        same_outside(mem, with_vec3s(mem, at, value), at, at + 6),
        vec3s_at(with_vec3s(mem, at, value), at) == value,
{
    let first = with_i16(mem, at, value.x);
    let second = with_i16(first, at + 2, value.y);
    lemma_with_u16(mem, at, unsigned(value.x));
    lemma_with_u16(first, at + 2, unsigned(value.y));
    lemma_with_u16(second, at + 4, unsigned(value.z));
    lemma_signed_unsigned(value.x);
    lemma_signed_unsigned(value.y);
    lemma_signed_unsigned(value.z);
}

/// Writing three 32-bit numbers changes their twelve bytes and no other,
/// and the numbers then read back.
pub proof fn lemma_with_vec3f(mem: Seq<u8>, at: int, value: Vec3f)
    requires
        0 <= at,
        at + 12 <= mem.len(),
    ensures
        same_outside(mem, with_vec3f(mem, at, value), at, at + 12),
        vec3f_at(with_vec3f(mem, at, value), at) == value,
{
    let first = with_u32(mem, at, value.x);
    let second = with_u32(first, at + 4, value.y);
    lemma_with_u32(mem, at, value.x);
    lemma_with_u32(first, at + 4, value.y);
    lemma_with_u32(second, at + 8, value.z);
}

pub fn read_u16(mem: &[u8], at: usize) -> (value: u16)
    requires
        at + 2 <= mem.len(),
    ensures
        value == u16_at(mem@, at as int),
{
    (mem[at] as u16) * 0x100 + (mem[at + 1] as u16)
}

pub fn read_u32(mem: &[u8], at: usize) -> (value: u32)
    requires
        at + 4 <= mem.len(),
    ensures
        value == u32_at(mem@, at as int),
{
    (mem[at] as u32) * 0x100_0000 + (mem[at + 1] as u32) * 0x1_0000 + (mem[at + 2] as u32) * 0x100
        + (mem[at + 3] as u32)
}

pub fn read_i16(mem: &[u8], at: usize) -> (value: i16)
    requires
        at + 2 <= mem.len(),
    ensures
        value == i16_at(mem@, at as int),
{
    let raw: u16 = read_u16(mem, at);
    if raw < 0x8000 {
        raw as i16
    } else {
        (raw as i32 - 0x1_0000) as i16
    }
}

pub fn read_vec3s(mem: &[u8], at: usize) -> (value: Vec3s)
    requires
        at + 6 <= mem.len(),
    ensures
        value == vec3s_at(mem@, at as int),
{
    Vec3s { x: read_i16(mem, at), y: read_i16(mem, at + 2), z: read_i16(mem, at + 4) }
}

pub fn read_vec3f(mem: &[u8], at: usize) -> (value: Vec3f)
    requires
        at + 12 <= mem.len(),
    ensures
        value == vec3f_at(mem@, at as int),
{
    Vec3f { x: read_u32(mem, at), y: read_u32(mem, at + 4), z: read_u32(mem, at + 8) }
}

pub fn write_u16(mem: &mut [u8], at: usize, value: u16)
    requires
        at + 2 <= old(mem).len(),
    ensures
        final(mem)@ == with_u16(old(mem)@, at as int, value),
        same_outside(old(mem)@, final(mem)@, at as int, at + 2),
{
    mem[at] = (value / 0x100) as u8;
    mem[at + 1] = (value % 0x100) as u8;
}

pub fn write_u32(mem: &mut [u8], at: usize, value: u32)
    requires
        at + 4 <= old(mem).len(),
    ensures
        final(mem)@ == with_u32(old(mem)@, at as int, value),
        same_outside(old(mem)@, final(mem)@, at as int, at + 4),
{
    mem[at] = (value / 0x100_0000) as u8;
    mem[at + 1] = (value / 0x1_0000 % 0x100) as u8;
    mem[at + 2] = (value / 0x100 % 0x100) as u8;
    mem[at + 3] = (value % 0x100) as u8;
}

pub fn write_i16(mem: &mut [u8], at: usize, value: i16)
    requires
        at + 2 <= old(mem).len(),
    ensures
        final(mem)@ == with_i16(old(mem)@, at as int, value),
        same_outside(old(mem)@, final(mem)@, at as int, at + 2),
{
    let raw: u16 = if value >= 0 {
        value as u16
    } else {
        (value as i32 + 0x1_0000) as u16
    };
    write_u16(mem, at, raw);
}

pub fn write_vec3s(mem: &mut [u8], at: usize, value: Vec3s)
    requires
        at + 6 <= old(mem).len(),
    ensures
        final(mem)@ == with_vec3s(old(mem)@, at as int, value),
        same_outside(old(mem)@, final(mem)@, at as int, at + 6),
{
    write_i16(mem, at, value.x);
    write_i16(mem, at + 2, value.y);
    write_i16(mem, at + 4, value.z);
}

pub fn write_vec3f(mem: &mut [u8], at: usize, value: Vec3f)
    requires
        at + 12 <= old(mem).len(),
    ensures
        final(mem)@ == with_vec3f(old(mem)@, at as int, value),
        same_outside(old(mem)@, final(mem)@, at as int, at + 12),
{
    write_u32(mem, at, value.x);
    write_u32(mem, at + 4, value.y);
    write_u32(mem, at + 8, value.z);
}

} // verus!
