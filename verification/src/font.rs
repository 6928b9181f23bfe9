//! Application-owned font registrations: a bounded count of fonts and a
//! bounded total of retained source bytes, each font parsed once by
//! Sim;Engine and then shared through a handle.

use vstd::prelude::*;
use crate::identity::ApplicationId;
use crate::limits::TextLimits;
use crate::storage::{vec_capacity, vec_try_reserve_exact};

verus! {

/// Declares `sim_engine::FontFace` to Verus as an opaque type: a parsed
/// font that the registry keeps unopened.
#[verifier::external_type_specification]
#[verifier::external_body]
pub struct ExFontFace(sim_engine::FontFace);

/// Declares `sim_engine::FontError` to Verus as an opaque type, carried
/// unopened in `TextError::Font`.
#[verifier::external_type_specification]
#[verifier::external_body]
pub struct ExFontError(sim_engine::FontError);

/// Why a font could not be registered.
#[derive(Debug)]
pub enum TextError {
    /// Sim;Engine rejected the font bytes or the font's size settings.
    Font(sim_engine::FontError),
    /// The application has reached its fixed registration-count limit.
    FontLimitExceeded {
        /// Maximum distinct font registrations.
        limit: usize,
    },
    /// Source Vec capacity would exceed the application's total font budget.
    FontByteLimitExceeded {
        /// Aggregate permitted font source capacity in bytes.
        limit: usize,
        /// Capacity already retained by successful registrations.
        retained: usize,
        /// Capacity of the rejected incoming font source.
        incoming: usize,
    },
    /// Registry storage could not be reserved.
    AllocationFailed {
        /// Bytes of the registry slot that could not be reserved.
        requested_bytes: usize,
    },
}

/// Whether `sim_engine::FontFace::from_bytes` accepts `bytes` under a glyph
/// budget of `max_font_glyphs` once their capacity fits the byte budget: the
/// bytes parse as an outline TrueType/OpenType face with a valid em size and
/// vertical metrics, and declare no more glyphs than the budget.
pub uninterp spec fn spec_font_parses(bytes: Seq<u8>, max_font_glyphs: usize) -> bool;

/// Calls `sim_engine::FontFace::from_bytes` with
/// `FontBudget::new(max_font_bytes, max_font_glyphs)` and gives back the
/// source capacity it checks together with its result. Per its source, a
/// capacity above `max_font_bytes` is an error; otherwise the outcome depends
/// on the bytes and the glyph budget alone. Which error comes back is not
/// stated.
#[verifier::external_body]
fn font_face_from_bytes(bytes: Vec<u8>, max_font_bytes: usize, max_font_glyphs: usize) -> (r: (
    usize,
    Result<sim_engine::FontFace, sim_engine::FontError>,
))
    ensures
        r.0 >= bytes@.len(),
        r.0 > max_font_bytes ==> r.1 is Err,
        r.0 <= max_font_bytes ==> (r.1 is Ok <==> spec_font_parses(bytes@, max_font_glyphs)),
{
    let capacity = bytes.capacity();
    let budget = sim_engine::FontBudget::new(max_font_bytes, max_font_glyphs);
    (capacity, sim_engine::FontFace::from_bytes(bytes, budget))
}

/// Opaque handle to one application-owned font registration. Equal
/// registrations still issue different handles.
#[derive(Debug, Clone, Copy, PartialEq, Eq, Structural)]
pub struct TextFont {
    application: ApplicationId,
    slot: usize,
    font_bytes: usize,
}

impl TextFont {
    /// The issuing application.
    pub closed spec fn spec_application(self) -> ApplicationId {
        self.application
    }

    /// The registration slot, in registration order from zero.
    pub closed spec fn spec_slot(self) -> usize {
        self.slot
    }

    /// The source capacity charged for this registration.
    pub closed spec fn spec_font_bytes(self) -> usize {
        self.font_bytes
    }

    /// Returns the issuing application.
    pub fn application(self) -> (r: ApplicationId)
        ensures
            r == self.spec_application(),
    {
        self.application
    }

    /// Returns the registration slot.
    pub fn slot(self) -> (r: usize)
        ensures
            r == self.spec_slot(),
    {
        self.slot
    }

    /// Returns the source Vec capacity charged once for this registration.
    pub fn font_bytes(self) -> (r: usize)
        ensures
            r == self.spec_font_bytes(),
    {
        self.font_bytes
    }
}

/// The fonts of one application, within its frozen text limits.
#[derive(Debug)]
pub struct TextRegistry {
    application: ApplicationId,
    limits: TextLimits,
    faces: Vec<sim_engine::FontFace>,
    font_bytes: usize,
}

/// Capacity still allowed under the total font-byte limit.
pub open spec fn font_room(limits: TextLimits, retained: usize) -> int {
    if retained >= limits.spec_max_font_bytes() {
        0
    } else {
        limits.spec_max_font_bytes() - retained
    }
}

impl TextRegistry {
    /// The owning application.
    pub closed spec fn spec_application(&self) -> ApplicationId {
        self.application
    }

    /// The frozen limits.
    pub closed spec fn spec_limits(&self) -> TextLimits {
        self.limits
    }

    /// Number of registered fonts.
    pub closed spec fn spec_count(&self) -> nat {
        self.faces@.len()
    }

    /// Source capacity retained by all registrations.
    pub closed spec fn spec_font_bytes(&self) -> usize {
        self.font_bytes
    }

    /// An empty registry of `application` under `limits`.
    pub fn new(application: ApplicationId, limits: TextLimits) -> (registry: Self)
        ensures
            registry.spec_application() == application,
            registry.spec_limits() == limits,
            registry.spec_count() == 0,
            registry.spec_font_bytes() == 0,
    {
        TextRegistry { application, limits, faces: Vec::new(), font_bytes: 0 }
    }

    /// Returns the number of registered fonts.
    pub fn len(&self) -> (r: usize)
        ensures
            r == self.spec_count(),
    {
        self.faces.len()
    }

    /// Returns the source capacity retained by all registrations.
    pub fn font_bytes(&self) -> (r: usize)
        ensures
            r == self.spec_font_bytes(),
    {
        self.font_bytes
    }

    /// Whether `font` was issued by this registry.
    pub fn contains(&self, font: &TextFont) -> (r: bool)
        ensures
            r == (font.spec_application() == self.spec_application() && font.spec_slot()
                < self.spec_count()),
    {
        font.application == self.application && font.slot < self.faces.len()
    }

    /// Borrows the parsed face of a font issued by this registry.
    pub fn face(&self, font: &TextFont) -> (r: Option<&sim_engine::FontFace>)
        ensures
            r is Some <==> (font.spec_application() == self.spec_application() && font.spec_slot()
                < self.spec_count()),
    {
        if font.application == self.application && font.slot < self.faces.len() {
            Some(&self.faces[font.slot])
        } else {
            None
        }
    }

    /// Registers one font. The count cap is checked first, then the incoming
    /// source capacity against the room left under the total byte cap, then
    /// Sim;Engine parses the bytes under `budget_font_bytes` and
    /// `budget_font_glyphs`, and finally one registry slot is reserved. The
    /// new handle takes the next slot and its capacity is charged once. On
    /// any error the registry is unchanged.
    pub fn register(
        &mut self,
        bytes: Vec<u8>,
        budget_font_bytes: usize,
        budget_font_glyphs: usize,
    ) -> (r: Result<TextFont, TextError>)
        ensures
            r is Err ==> final(self).spec_application() == old(self).spec_application()
                && final(self).spec_limits() == old(self).spec_limits()
                && final(self).spec_count() == old(self).spec_count()
                && final(self).spec_font_bytes() == old(self).spec_font_bytes(),
            old(self).spec_count() >= old(self).spec_limits().spec_max_fonts() ==> (r matches Err(
                TextError::FontLimitExceeded { limit },
            ) && limit == old(self).spec_limits().spec_max_fonts()),
            old(self).spec_count() < old(self).spec_limits().spec_max_fonts() && bytes@.len()
                > font_room(old(self).spec_limits(), old(self).spec_font_bytes()) ==> r matches Err(
                TextError::FontByteLimitExceeded { .. },
            ),
            r matches Err(TextError::FontByteLimitExceeded { limit, retained, incoming }) ==> {
                &&& old(self).spec_count() < old(self).spec_limits().spec_max_fonts()
                &&& limit == old(self).spec_limits().spec_max_font_bytes()
                &&& retained == old(self).spec_font_bytes()
                &&& incoming >= bytes@.len()
                &&& incoming > font_room(old(self).spec_limits(), old(self).spec_font_bytes())
            },
            r matches Err(TextError::Font(_)) ==> old(self).spec_count()
                < old(self).spec_limits().spec_max_fonts(),
            old(self).spec_count() < old(self).spec_limits().spec_max_fonts()
                && !spec_font_parses(bytes@, budget_font_glyphs) ==> {
                ||| r matches Err(TextError::FontByteLimitExceeded { .. })
                ||| r matches Err(TextError::Font(_))
            },
            old(self).spec_count() < old(self).spec_limits().spec_max_fonts() && bytes@.len()
                > budget_font_bytes ==> r is Err,
            r matches Err(TextError::AllocationFailed { requested_bytes }) ==> {
                &&& requested_bytes == vstd::layout::size_of::<sim_engine::FontFace>()
                &&& old(self).spec_count() < old(self).spec_limits().spec_max_fonts()
                &&& spec_font_parses(bytes@, budget_font_glyphs)
            },
            old(self).spec_count() < old(self).spec_limits().spec_max_fonts()
                && old(self).spec_limits().spec_max_font_bytes() == usize::MAX
                && old(self).spec_font_bytes() == 0 && budget_font_bytes == usize::MAX
                && spec_font_parses(bytes@, budget_font_glyphs) ==> {
                ||| r is Ok
                ||| r matches Err(TextError::AllocationFailed { .. })
            },
            r matches Ok(font) ==> {
                &&& old(self).spec_count() < old(self).spec_limits().spec_max_fonts()
                &&& spec_font_parses(bytes@, budget_font_glyphs)
                &&& bytes@.len() <= budget_font_bytes
                &&& font.spec_application() == old(self).spec_application()
                &&& font.spec_slot() == old(self).spec_count()
                &&& bytes@.len() <= font.spec_font_bytes() <= font_room(
                    old(self).spec_limits(),
                    old(self).spec_font_bytes(),
                )
                &&& final(self).spec_application() == old(self).spec_application()
                &&& final(self).spec_limits() == old(self).spec_limits()
                &&& final(self).spec_count() == old(self).spec_count() + 1
                &&& final(self).spec_font_bytes() == old(self).spec_font_bytes()
                    + font.spec_font_bytes()
            },
    {
        let max_fonts = self.limits.max_fonts();
        if self.faces.len() >= max_fonts {
            return Err(TextError::FontLimitExceeded { limit: max_fonts });
        }
        let max_font_bytes = self.limits.max_font_bytes();
        let incoming = vec_capacity(&bytes);
        let room = max_font_bytes.saturating_sub(self.font_bytes);
        if incoming > room {
            return Err(
                TextError::FontByteLimitExceeded {
                    limit: max_font_bytes,
                    retained: self.font_bytes,
                    incoming,
                },
            );
        }
        let (_capacity, parsed) = font_face_from_bytes(bytes, budget_font_bytes, budget_font_glyphs);
        let face = match parsed {
            Ok(face) => face,
            Err(error) => return Err(TextError::Font(error)),
        };
        if !vec_try_reserve_exact(&mut self.faces, 1) {
            return Err(
                TextError::AllocationFailed {
                    requested_bytes: core::mem::size_of::<sim_engine::FontFace>(),
                },
            );
        }
        let font = TextFont { application: self.application, slot: self.faces.len(), font_bytes: incoming };
        self.faces.push(face);
        self.font_bytes = self.font_bytes + incoming;
        Ok(font)
    }
}

} // verus!
