//! The player's actor, as it lies in the host's memory.

use crate::system::math::{Vec3f, Vec3s};
use crate::system::memory::{
    lemma_with_u32, lemma_with_vec3f, lemma_with_vec3s, read_u32, read_vec3f, read_vec3s,
    same_outside, u32_at, vec3f_at, vec3s_at, with_u32, with_vec3f, with_vec3s, write_u32,
    write_vec3f, write_vec3s,
};
use vstd::prelude::*;

verus! {

/// Offset of the pointer to the actor's table of methods.
pub const VTABLE: usize = 0x60;

/// Offset of the actor's angles.
pub const ANGLE: usize = 0xB8;

/// Offset of the actor's position.
pub const POS: usize = 0xC0;

/// Offset of the actor's speed along its heading.
pub const FORWARD_SPEED: usize = 0x144;

/// Offset of the actor's acceleration along its heading.
pub const FORWARD_ACCEL: usize = 0x148;

/// Offset of the greatest speed the actor reaches along its heading.
pub const FORWARD_MAX_SPEED: usize = 0x14C;

/// Offset of the actor's velocity.
pub const VELOCITY: usize = 0x150;

/// Offset of the actor's stamina.
pub const STAMINA_AMOUNT: usize = 0x4498;

/// The number of bytes from the actor's base to the end of its last field
/// that has a name here. The actor goes on behind them.
pub const ACTOR_SIZE: usize = 0x449C;

/// The fields of the actor that have a name. All bytes between them, before
/// them and behind them are the host's alone.
pub struct ActorFields {
    pub vtable: u32,
    pub angle: Vec3s,
    pub pos: Vec3f,
    pub forward_speed: u32,
    pub forward_accel: u32,
    pub forward_max_speed: u32,
    pub velocity: Vec3f,
    pub stamina_amount: u32,
}

/// The named fields as they read in the actor's bytes.
pub open spec fn fields_of(mem: Seq<u8>) -> ActorFields {
    ActorFields {
        vtable: u32_at(mem, VTABLE as int),
        angle: vec3s_at(mem, ANGLE as int),
        pos: vec3f_at(mem, POS as int),
        forward_speed: u32_at(mem, FORWARD_SPEED as int),
        forward_accel: u32_at(mem, FORWARD_ACCEL as int),
        forward_max_speed: u32_at(mem, FORWARD_MAX_SPEED as int),
        velocity: vec3f_at(mem, VELOCITY as int),
        stamina_amount: u32_at(mem, STAMINA_AMOUNT as int),
    }
}

/// A view of the live actor of the player: the actor's own bytes, borrowed
/// from the host, read and written field by field.
///
/// Every write lands in the host's memory at once. Single-precision fields
/// are read and written as their bit patterns.
pub struct ActorLink<'a> {
    pub mem: &'a mut [u8],
}

impl<'a> View for ActorLink<'a> {
    type V = Seq<u8>;

    open spec fn view(&self) -> Seq<u8> {
        self.mem@
    }
}

/// The view of the player's actor, if there is one.
///
/// `mem` is the actor's memory from its base on, or `None` while the host
/// has no actor for the player. There is a view exactly if there is memory
/// and it is long enough for every named field; memory that is too short is
/// left alone.
pub fn as_mut<'a>(mem: Option<&'a mut [u8]>) -> (link: Option<ActorLink<'a>>)
    ensures
        link is Some <==> mem is Some && mem.unwrap()@.len() >= ACTOR_SIZE,
        link matches Some(actor) ==> actor.wf() && actor@ == mem.unwrap()@ && final(actor.mem)@
            == final(mem.unwrap())@,
        link is None && mem is Some ==> final(mem.unwrap())@ == mem.unwrap()@,
{
    match mem {
        Some(mem) => if mem.len() >= ACTOR_SIZE {
            Some(ActorLink { mem })
        } else {
            None
        },
        None => None,
    }
}

impl<'a> ActorLink<'a> {
    /// The memory holds every named field.
    pub open spec fn wf(&self) -> bool {
        self.mem@.len() >= ACTOR_SIZE
    }

    /// The named fields as they read now.
    pub open spec fn fields(&self) -> ActorFields {
        fields_of(self@)
    }

    pub fn vtable(&self) -> (vtable: u32)
        requires
            self.wf(),
        ensures
            vtable == self.fields().vtable,
    {
        read_u32(self.mem, VTABLE)
    }

    pub fn angle(&self) -> (angle: Vec3s)
        requires
            self.wf(),
        ensures
            angle == self.fields().angle,
    {
        read_vec3s(self.mem, ANGLE)
    }

    pub fn pos(&self) -> (pos: Vec3f)
        requires
            self.wf(),
        ensures
            pos == self.fields().pos,
    {
        read_vec3f(self.mem, POS)
    }

    pub fn forward_speed(&self) -> (speed: u32)
        requires
            self.wf(),
        ensures
            speed == self.fields().forward_speed,
    {
        read_u32(self.mem, FORWARD_SPEED)
    }

    pub fn forward_accel(&self) -> (accel: u32)
        requires
            self.wf(),
        ensures
            accel == self.fields().forward_accel,
    {
        read_u32(self.mem, FORWARD_ACCEL)
    }

    pub fn forward_max_speed(&self) -> (speed: u32)
        requires
            self.wf(),
        ensures
            speed == self.fields().forward_max_speed,
    {
        read_u32(self.mem, FORWARD_MAX_SPEED)
    }

    pub fn velocity(&self) -> (velocity: Vec3f)
        requires
            self.wf(),
        ensures
            velocity == self.fields().velocity,
    {
        read_vec3f(self.mem, VELOCITY)
    }

    pub fn stamina_amount(&self) -> (amount: u32)
        requires
            self.wf(),
        ensures
            amount == self.fields().stamina_amount,
    {
        read_u32(self.mem, STAMINA_AMOUNT)
    }

    pub fn set_angle(&mut self, angle: Vec3s)
        requires
            old(self).wf(),
        ensures
            final(self)@ == with_vec3s(old(self)@, ANGLE as int, angle),
            same_outside(old(self)@, final(self)@, ANGLE as int, ANGLE + 6),
            final(self).fields() == (ActorFields { angle, ..old(self).fields() }),
            final(final(self).mem)@ == final(old(self).mem)@,
    {
        proof {
            lemma_with_vec3s(self@, ANGLE as int, angle);
        }
        write_vec3s(self.mem, ANGLE, angle);
    }

    pub fn set_pos(&mut self, pos: Vec3f)
        requires
            old(self).wf(),
        ensures
            final(self)@ == with_vec3f(old(self)@, POS as int, pos),
            same_outside(old(self)@, final(self)@, POS as int, POS + 12),
            final(self).fields() == (ActorFields { pos, ..old(self).fields() }),
            final(final(self).mem)@ == final(old(self).mem)@,
    {
        proof {
            lemma_with_vec3f(self@, POS as int, pos);
        }
        write_vec3f(self.mem, POS, pos);
    }

    pub fn set_forward_speed(&mut self, speed: u32)
        requires
            old(self).wf(),
        ensures
            final(self)@ == with_u32(old(self)@, FORWARD_SPEED as int, speed),
            same_outside(old(self)@, final(self)@, FORWARD_SPEED as int, FORWARD_SPEED + 4),
            final(self).fields() == (ActorFields { forward_speed: speed, ..old(self).fields() }),
            final(final(self).mem)@ == final(old(self).mem)@,
    {
        proof {
            lemma_with_u32(self@, FORWARD_SPEED as int, speed);
        }
        write_u32(self.mem, FORWARD_SPEED, speed);
    }

    pub fn set_forward_accel(&mut self, accel: u32)
        requires
            old(self).wf(),
        ensures
            final(self)@ == with_u32(old(self)@, FORWARD_ACCEL as int, accel),
            same_outside(old(self)@, final(self)@, FORWARD_ACCEL as int, FORWARD_ACCEL + 4),
            final(self).fields() == (ActorFields { forward_accel: accel, ..old(self).fields() }),
            final(final(self).mem)@ == final(old(self).mem)@,
    {
        proof {
            lemma_with_u32(self@, FORWARD_ACCEL as int, accel);
        }
        write_u32(self.mem, FORWARD_ACCEL, accel);
    }

    pub fn set_forward_max_speed(&mut self, speed: u32)
        requires
            old(self).wf(),
        ensures
            final(self)@ == with_u32(old(self)@, FORWARD_MAX_SPEED as int, speed),
            same_outside(
                old(self)@,
                final(self)@,
                FORWARD_MAX_SPEED as int,
                FORWARD_MAX_SPEED + 4,
            ),
            final(self).fields() == (ActorFields {
                forward_max_speed: speed,
                ..old(self).fields()
            }),
            final(final(self).mem)@ == final(old(self).mem)@,
    {
        proof {
            lemma_with_u32(self@, FORWARD_MAX_SPEED as int, speed);
        }
        write_u32(self.mem, FORWARD_MAX_SPEED, speed);
    }

    pub fn set_velocity(&mut self, velocity: Vec3f)
        requires
            old(self).wf(),
        ensures
            final(self)@ == with_vec3f(old(self)@, VELOCITY as int, velocity),
            same_outside(old(self)@, final(self)@, VELOCITY as int, VELOCITY + 12),
            final(self).fields() == (ActorFields { velocity, ..old(self).fields() }),
            final(final(self).mem)@ == final(old(self).mem)@,
    {
        proof {
            lemma_with_vec3f(self@, VELOCITY as int, velocity);
        }
        write_vec3f(self.mem, VELOCITY, velocity);
    }

    pub fn set_stamina_amount(&mut self, amount: u32)
        requires
            old(self).wf(),
        ensures
            final(self)@ == with_u32(old(self)@, STAMINA_AMOUNT as int, amount),
            same_outside(old(self)@, final(self)@, STAMINA_AMOUNT as int, STAMINA_AMOUNT + 4),
            final(self).fields() == (ActorFields { stamina_amount: amount, ..old(self).fields() }),
            final(final(self).mem)@ == final(old(self).mem)@,
    {
        proof {
            lemma_with_u32(self@, STAMINA_AMOUNT as int, amount);
        }
        write_u32(self.mem, STAMINA_AMOUNT, amount);
    }
}

} // verus!
