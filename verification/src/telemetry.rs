//! The telemetry aggregator: one owned record of the latest value seen on
//! each subscribed vehicle channel, fed by partial updates.
//!
//! Updates arrive as batches of `(stream handle, value)` pairs carrying only
//! the channels that changed; a field keeps its previous value until a sample
//! for its channel arrives. Values are fixed-point integers: milli-metres for
//! lengths, milli-degrees for angles, milli-seconds for times and specific
//! impulse, milli-newtons for thrust, milli-kilograms for mass.

use vstd::prelude::*;

use crate::interpolate::COORD_BOUND;

verus! {

/// The telemetry channels the guidance loop subscribes to.
#[derive(Debug, Clone, Copy, PartialEq, Eq, Structural)]
pub enum Channel {
    /// Surface altitude.
    Alt,
    /// Angle of attack.
    Aoa,
    /// Pitch above the horizon.
    Pitch,
    /// Apoapsis altitude.
    Apop,
    /// Periapsis altitude.
    Perip,
    /// Time to apoapsis.
    EtaApop,
    /// Available thrust.
    Thrust,
    /// Current stage index.
    Stage,
    /// Vehicle mass.
    Mass,
    /// Specific impulse.
    Isp,
}

/// Latest known value of every subscribed channel, or zero before the first
/// observation of that channel.
#[derive(Debug, Clone, Copy, PartialEq, Eq, Structural)]
pub struct Attitude {
    pub alt: i64,
    pub aoa: i64,
    pub pitch: i64,
    pub apop: i64,
    pub perip: i64,
    pub eta_apop: i64,
    pub thrust: i64,
    pub stage: i64,
    pub mass: i64,
    pub isp: i64,
}

/// Maps the stream handles handed out by the vehicle interface to the
/// channels they were subscribed for.
#[derive(Debug, Clone, Copy)]
pub struct StreamTable {
    pub alt: u64,
    pub aoa: u64,
    pub pitch: u64,
    pub apop: u64,
    pub perip: u64,
    pub eta_apop: u64,
    pub thrust: u64,
    pub stage: u64,
    pub mass: u64,
    pub isp: u64,
}

impl StreamTable {
    /// The channel a handle stands for; the first matching field wins.
    pub open spec fn spec_channel_of(self, handle: u64) -> Option<Channel> {
        if handle == self.alt {
            Some(Channel::Alt)
        } else if handle == self.aoa {
            Some(Channel::Aoa)
        } else if handle == self.pitch {
            Some(Channel::Pitch)
        } else if handle == self.apop {
            Some(Channel::Apop)
        } else if handle == self.perip {
            Some(Channel::Perip)
        } else if handle == self.eta_apop {
            Some(Channel::EtaApop)
        } else if handle == self.thrust {
            Some(Channel::Thrust)
        } else if handle == self.stage {
            Some(Channel::Stage)
        } else if handle == self.mass {
            Some(Channel::Mass)
        } else if handle == self.isp {
            Some(Channel::Isp)
        } else {
            None
        }
    }

    pub fn channel_of(&self, handle: u64) -> (r: Option<Channel>)
        ensures
            r == self.spec_channel_of(handle),
    {
        if handle == self.alt {
            Some(Channel::Alt)
        } else if handle == self.aoa {
            Some(Channel::Aoa)
        } else if handle == self.pitch {
            Some(Channel::Pitch)
        } else if handle == self.apop {
            Some(Channel::Apop)
        } else if handle == self.perip {
            Some(Channel::Perip)
        } else if handle == self.eta_apop {
            Some(Channel::EtaApop)
        } else if handle == self.thrust {
            Some(Channel::Thrust)
        } else if handle == self.stage {
            Some(Channel::Stage)
        } else if handle == self.mass {
            Some(Channel::Mass)
        } else if handle == self.isp {
            Some(Channel::Isp)
        } else {
            None
        }
    }
}

impl Default for Attitude {
    /// Every channel starts at zero, the type-appropriate default before the
    /// first observation.
    fn default() -> (r: Self)
        ensures
            r == Attitude::zeroed(),
    {
        Attitude {
            alt: 0,
            aoa: 0,
            pitch: 0,
            apop: 0,
            perip: 0,
            eta_apop: 0,
            thrust: 0,
            stage: 0,
            mass: 0,
            isp: 0,
        }
    }
}

impl Attitude {
    /// Every field within the fixed-point working range; holds of any record
    /// built from realistic telemetry and keeps the guidance arithmetic free
    /// of overflow.
    pub open spec fn wf(self) -> bool {
        &&& -COORD_BOUND <= self.alt <= COORD_BOUND
        &&& -COORD_BOUND <= self.aoa <= COORD_BOUND
        &&& -COORD_BOUND <= self.pitch <= COORD_BOUND
        &&& -COORD_BOUND <= self.apop <= COORD_BOUND
        &&& -COORD_BOUND <= self.perip <= COORD_BOUND
        &&& -COORD_BOUND <= self.eta_apop <= COORD_BOUND
        &&& -COORD_BOUND <= self.thrust <= COORD_BOUND
        &&& -COORD_BOUND <= self.stage <= COORD_BOUND
        &&& -COORD_BOUND <= self.mass <= COORD_BOUND
        &&& -COORD_BOUND <= self.isp <= COORD_BOUND
    }

    pub open spec fn zeroed() -> Attitude {
        Attitude {
            alt: 0,
            aoa: 0,
            pitch: 0,
            apop: 0,
            perip: 0,
            eta_apop: 0,
            thrust: 0,
            stage: 0,
            mass: 0,
            isp: 0,
        }
    }

    /// The record with one channel replaced by a fresh sample.
    pub open spec fn with_sample(self, ch: Channel, value: i64) -> Attitude {
        match ch {
            Channel::Alt => Attitude { alt: value, ..self },
            Channel::Aoa => Attitude { aoa: value, ..self },
            Channel::Pitch => Attitude { pitch: value, ..self },
            Channel::Apop => Attitude { apop: value, ..self },
            Channel::Perip => Attitude { perip: value, ..self },
            Channel::EtaApop => Attitude { eta_apop: value, ..self },
            Channel::Thrust => Attitude { thrust: value, ..self },
            Channel::Stage => Attitude { stage: value, ..self },
            Channel::Mass => Attitude { mass: value, ..self },
            Channel::Isp => Attitude { isp: value, ..self },
        }
    }

    /// The record after one raw `(handle, value)` pair: unknown handles are
    /// ignored, known ones overwrite their channel.
    pub open spec fn with_raw_sample(self, table: StreamTable, sample: (u64, i64)) -> Attitude {
        match table.spec_channel_of(sample.0) {
            Some(ch) => self.with_sample(ch, sample.1),
            None => self,
        }
    }

    /// The record after a whole update batch, applied left to right.
    pub open spec fn with_update(self, table: StreamTable, samples: Seq<(u64, i64)>) -> Attitude
        decreases samples.len(),
    {
        if samples.len() == 0 {
            self
        } else {
            self.with_raw_sample(table, samples[0]).with_update(table, samples.drop_first())
        }
    }

    /// Overwrite one channel with a fresh sample.
    pub fn apply_sample(&mut self, ch: Channel, value: i64)
        ensures
            *final(self) == old(self).with_sample(ch, value),
    {
        match ch {
            Channel::Alt => self.alt = value,
            Channel::Aoa => self.aoa = value,
            Channel::Pitch => self.pitch = value,
            Channel::Apop => self.apop = value,
            Channel::Perip => self.perip = value,
            Channel::EtaApop => self.eta_apop = value,
            Channel::Thrust => self.thrust = value,
            Channel::Stage => self.stage = value,
            Channel::Mass => self.mass = value,
            Channel::Isp => self.isp = value,
        }
    }

    /// Apply a partial update batch: every sample whose handle the table
    /// knows overwrites its channel, in batch order; the other fields keep
    /// their previous values.
    pub fn apply_update(&mut self, table: &StreamTable, samples: &Vec<(u64, i64)>)
        ensures
            *final(self) == old(self).with_update(*table, samples@),
    {
        let mut i: usize = 0;
        proof {
            assert(samples@.skip(0) =~= samples@);
        }
        while i < samples.len()
            invariant
                i <= samples@.len(),
                self.with_update(*table, samples@.skip(i as int))
                    == old(self).with_update(*table, samples@),
            decreases samples@.len() - i,
        {
            proof {
                assert(samples@.skip(i as int).drop_first() =~= samples@.skip(i as int + 1));
                assert(samples@.skip(i as int)[0] == samples@[i as int]);
            }
            let (handle, value) = samples[i];
            if let Some(ch) = table.channel_of(handle) {
                self.apply_sample(ch, value);
            }
            i = i + 1;
        }
        proof {
            assert(samples@.skip(samples@.len() as int) =~= Seq::<(u64, i64)>::empty());
        }
    }
}

} // verus!
