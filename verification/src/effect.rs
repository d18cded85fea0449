//! The selectable visual effect for the rendered text, cycled with a key in
//! the render loop and handed to the fragment shader as an integer code.

use vstd::prelude::*;

verus! {

/// A visual effect applied to the text by the fragment shader.
#[derive(Debug, Clone, Copy, PartialEq, Eq, Structural)]
pub enum TextEffect {
    Normal,
    Outline,
    Shadow,
    Glow,
}

impl TextEffect {
    /// The integer code the fragment shader switches on.
    pub open spec fn code(self) -> int {
        match self {
            TextEffect::Normal => 0,
            TextEffect::Outline => 1,
            TextEffect::Shadow => 2,
            TextEffect::Glow => 3,
        }
    }

    /// The effect that follows this one in the cycle
    /// Normal -> Outline -> Shadow -> Glow -> Normal.
    pub open spec fn next_spec(self) -> TextEffect {
        match self {
            TextEffect::Normal => TextEffect::Outline,
            TextEffect::Outline => TextEffect::Shadow,
            TextEffect::Shadow => TextEffect::Glow,
            TextEffect::Glow => TextEffect::Normal,
        }
    }

    /// The display name of this effect.
    pub open spec fn name_spec(self) -> Seq<char> {
        match self {
            TextEffect::Normal => "일반"@,
            TextEffect::Outline => "외곽선"@,
            TextEffect::Shadow => "그림자"@,
            TextEffect::Glow => "발광"@,
        }
    }

    pub fn to_i32(&self) -> (r: i32)
        ensures
            r == self.code(),
    {
        match self {
            TextEffect::Normal => 0,
            TextEffect::Outline => 1,
            TextEffect::Shadow => 2,
            TextEffect::Glow => 3,
        }
    }

    pub fn next(&self) -> (r: Self)
        ensures
            r == self.next_spec(),
    {
        match self {
            TextEffect::Normal => TextEffect::Outline,
            TextEffect::Outline => TextEffect::Shadow,
            TextEffect::Shadow => TextEffect::Glow,
            TextEffect::Glow => TextEffect::Normal,
        }
    }

    pub fn name(&self) -> (r: &'static str)
        ensures
            r@ == self.name_spec(),
    {
        match self {
            TextEffect::Normal => "일반",
            TextEffect::Outline => "외곽선",
            TextEffect::Shadow => "그림자",
            TextEffect::Glow => "발광",
        }
    }
}

/// Cycling through the effects four times returns to the starting effect.
pub proof fn lemma_effect_cycle(e: TextEffect)
    ensures
        e.next_spec().next_spec().next_spec().next_spec() == e,
{
}

/// The integer code identifies the effect: no two effects share a code.
pub proof fn lemma_effect_code_injective(a: TextEffect, b: TextEffect)
    requires
        a.code() == b.code(),
    ensures
        a == b,
{
}

} // verus!
