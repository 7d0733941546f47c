//! An x86-64 instruction decoder and assembly-text formatter.
//!
//! `decode::decode` reads one instruction from the front of a byte window
//! (at most the 16-byte architectural maximum is examined) and returns the
//! structured [`model::Instruction`], or a failure that distinguishes a
//! truncated window from an encoding this decoder never attempts.
//! `render::render` turns a decoded instruction into its canonical textual
//! form. Both are proved equal to spec-level definitions, so decoding and
//! rendering are deterministic functions of the input alone.

use vstd::prelude::*;

pub mod decode;
pub mod model;
pub mod render;

use crate::model::Instruction;

verus! {

/// Determinism: decoding the same byte sequence always yields the same
/// result, and rendering the same instruction always yields the same
/// text. Both follow from `decode` and `render` returning exactly
/// `s_decode` and `s_render` of their inputs, functions of the arguments
/// alone.
pub proof fn lemma_deterministic(b1: Seq<u8>, b2: Seq<u8>, i1: Instruction, i2: Instruction)
    requires
        b1 == b2,
        i1 == i2,
    ensures
        decode::s_decode(b1) == decode::s_decode(b2),
        render::s_render(i1) == render::s_render(i2),
{
}

} // verus!
