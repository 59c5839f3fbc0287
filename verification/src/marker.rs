//! The kinds of session: which device classes a handle was opened for.

use crate::sdk::{TYPE_COLOR, TYPE_MONO};
use vstd::prelude::*;

verus! {

/// A kind of session.  It says which device classes the session targets;
/// values of the implementing types carry nothing.
pub trait LcdType: Sized {
    /// Whether sessions of this kind target monochrome devices.
    spec fn targets_mono() -> bool;

    /// Whether sessions of this kind target color devices.
    spec fn targets_color() -> bool;
}

/// A kind of session that targets monochrome devices.
pub trait LcdMono: LcdType {
    /// The kind does target monochrome devices.
    proof fn mono_capable()
        ensures
            Self::targets_mono(),
    ;
}

/// A kind of session that targets color devices.
pub trait LcdColor: LcdType {
    /// The kind does target color devices.
    proof fn color_capable()
        ensures
            Self::targets_color(),
    ;
}

/// Sessions for monochrome devices only.
#[derive(Debug, Clone, Copy)]
pub struct LcdTypeMono;

/// Sessions for color devices only.
#[derive(Debug, Clone, Copy)]
pub struct LcdTypeColor;

/// Sessions for whichever device is attached, monochrome or color.
#[derive(Debug, Clone, Copy)]
pub struct LcdTypeBoth;

impl LcdType for LcdTypeMono {
    open spec fn targets_mono() -> bool {
        true
    }

    open spec fn targets_color() -> bool {
        false
    }
}

impl LcdType for LcdTypeColor {
    open spec fn targets_mono() -> bool {
        false
    }

    open spec fn targets_color() -> bool {
        true
    }
}

impl LcdType for LcdTypeBoth {
    open spec fn targets_mono() -> bool {
        true
    }

    open spec fn targets_color() -> bool {
        true
    }
}

impl LcdMono for LcdTypeMono {
    proof fn mono_capable() {
    }
}

impl LcdColor for LcdTypeColor {
    proof fn color_capable() {
    }
}

impl LcdMono for LcdTypeBoth {
    proof fn mono_capable() {
    }
}

impl LcdColor for LcdTypeBoth {
    proof fn color_capable() {
    }
}

/// The capability mask of a choice of device classes: one bit for each
/// class chosen.
pub open spec fn capability_mask(mono: bool, color: bool) -> u32 {
    (if mono { TYPE_MONO } else { 0u32 }) | (if color { TYPE_COLOR } else { 0u32 })
}

/// The capability mask that the SDK is given for sessions of kind `T`.
pub open spec fn flags_of<T: LcdType>() -> u32 {
    capability_mask(T::targets_mono(), T::targets_color())
}

/// The mask of a kind holds the bit of a device class exactly if the kind
/// targets that class, and holds no other bit.
pub proof fn lemma_type_flags_bits<T: LcdType>()
    ensures
        flags_of::<T>() & TYPE_MONO == TYPE_MONO <==> T::targets_mono(),
        flags_of::<T>() & TYPE_COLOR == TYPE_COLOR <==> T::targets_color(),
        flags_of::<T>() & !(TYPE_MONO | TYPE_COLOR) == 0,
{
    assert(0u32 | 0u32 == 0u32) by (bit_vector);
    assert(1u32 | 0u32 == 1u32) by (bit_vector);
    assert(0u32 | 2u32 == 2u32) by (bit_vector);
    assert(1u32 | 2u32 == 3u32) by (bit_vector);
    assert(0u32 & 1u32 == 0u32 && 1u32 & 1u32 == 1u32 && 2u32 & 1u32 == 0u32 && 3u32 & 1u32
        == 1u32) by (bit_vector);
    assert(0u32 & 2u32 == 0u32 && 1u32 & 2u32 == 0u32 && 2u32 & 2u32 == 2u32 && 3u32 & 2u32
        == 2u32) by (bit_vector);
    assert(0u32 & !(1u32 | 2u32) == 0u32 && 1u32 & !(1u32 | 2u32) == 0u32 && 2u32 & !(1u32 | 2u32)
        == 0u32 && 3u32 & !(1u32 | 2u32) == 0u32) by (bit_vector);
}

/// The three kinds have the masks 1, 2 and 3.
pub proof fn lemma_marker_flags()
    ensures
        flags_of::<LcdTypeMono>() == 1,
        flags_of::<LcdTypeColor>() == 2,
        flags_of::<LcdTypeBoth>() == 3,
{
    assert(0u32 | 0u32 == 0u32) by (bit_vector);
    assert(1u32 | 0u32 == 1u32) by (bit_vector);
    assert(0u32 | 2u32 == 2u32) by (bit_vector);
    assert(1u32 | 2u32 == 3u32) by (bit_vector);
}

/// A kind that offers the monochrome operations has the monochrome bit in
/// its mask.
pub proof fn lemma_mono_kind_targets_mono<T: LcdMono>()
    ensures
        flags_of::<T>() & TYPE_MONO == TYPE_MONO,
{
    T::mono_capable();
    lemma_type_flags_bits::<T>();
}

/// A kind that offers the color operations has the color bit in its mask.
pub proof fn lemma_color_kind_targets_color<T: LcdColor>()
    ensures
        flags_of::<T>() & TYPE_COLOR == TYPE_COLOR,
{
    T::color_capable();
    lemma_type_flags_bits::<T>();
}

} // verus!
