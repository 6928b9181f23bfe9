//! Identities that tie extracted data to the application and the world
//! generation that produced it.

use vstd::prelude::*;

verus! {

/// Identity of one application instance.
#[derive(Debug, Clone, Copy, PartialEq, Eq, Hash, Structural)]
pub struct ApplicationId {
    raw: u64,
}

impl ApplicationId {
    /// The raw identity value.
    pub closed spec fn spec_raw(self) -> u64 {
        self.raw
    }

    /// Wraps a raw identity value.
    pub fn from_raw(raw: u64) -> (id: Self)
        ensures
            id.spec_raw() == raw,
    {
        Self { raw }
    }

    /// Returns the raw identity value.
    pub fn raw(self) -> (raw: u64)
        ensures
            raw == self.spec_raw(),
    {
        self.raw
    }

    /// Two identities are equal exactly when their raw values are.
    pub proof fn raw_is_identity(a: Self, b: Self)
        ensures
            (a == b) <==> (a.spec_raw() == b.spec_raw()),
    {
    }
}

/// One published world of one application: the application and the
/// sequence number of the world it activated.
#[derive(Debug, Clone, Copy, PartialEq, Eq, Hash, Structural)]
pub struct WorldGeneration {
    application: ApplicationId,
    sequence: u64,
}

impl WorldGeneration {
    /// The owning application.
    pub closed spec fn spec_application(self) -> ApplicationId {
        self.application
    }

    /// The sequence number within the application.
    pub closed spec fn spec_sequence(self) -> u64 {
        self.sequence
    }

    /// Creates the generation `sequence` of `application`.
    pub fn new(application: ApplicationId, sequence: u64) -> (generation: Self)
        ensures
            generation.spec_application() == application,
            generation.spec_sequence() == sequence,
    {
        Self { application, sequence }
    }

    /// Returns the owning application.
    pub fn application(self) -> (application: ApplicationId)
        ensures
            application == self.spec_application(),
    {
        self.application
    }

    /// Returns the sequence number.
    pub fn sequence(self) -> (sequence: u64)
        ensures
            sequence == self.spec_sequence(),
    {
        self.sequence
    }

    /// Two generations are equal exactly when application and sequence are.
    pub proof fn fields_are_identity(a: Self, b: Self)
        ensures
            (a == b) <==> (a.spec_application() == b.spec_application() && a.spec_sequence()
                == b.spec_sequence()),
    {
    }
}

/// A managed entity of one world generation: the application, the
/// generation, and the stable bits of the entity within its world.
#[derive(Debug, Clone, Copy, PartialEq, Eq, Hash, Structural)]
pub struct LogicEntity {
    application: ApplicationId,
    generation: WorldGeneration,
    entity: u64,
}

impl LogicEntity {
    /// The owning application.
    pub closed spec fn spec_application(self) -> ApplicationId {
        self.application
    }

    /// The world generation the entity belongs to.
    pub closed spec fn spec_world_generation(self) -> WorldGeneration {
        self.generation
    }

    /// The entity's stable bits within its world.
    pub closed spec fn spec_stable_bits(self) -> u64 {
        self.entity
    }

    /// Names entity `entity` of `generation` in `application`.
    pub fn new(application: ApplicationId, generation: WorldGeneration, entity: u64) -> (logic:
        Self)
        ensures
            logic.spec_application() == application,
            logic.spec_world_generation() == generation,
            logic.spec_stable_bits() == entity,
    {
        LogicEntity { application, generation, entity }
    }

    /// Returns the owning application.
    pub fn application(self) -> (application: ApplicationId)
        ensures
            application == self.spec_application(),
    {
        self.application
    }

    /// Returns the world generation the entity belongs to.
    pub fn world_generation(self) -> (generation: WorldGeneration)
        ensures
            generation == self.spec_world_generation(),
    {
        self.generation
    }

    /// Returns the entity's stable bits, equal across world generations for
    /// the same raw entity.
    pub fn stable_bits(self) -> (bits: u64)
        ensures
            bits == self.spec_stable_bits(),
    {
        self.entity
    }
}

} // verus!
