//! Decision rules of the graphics setup: which physical device to prefer and
//! which composite-alpha mode to ask of the surface. The setup code feeds in
//! what it enumerated and follows the choice these functions make.

use vstd::prelude::*;

verus! {

/// The kind of a physical graphics device, ordered by preference.
#[derive(Debug, Clone, Copy, PartialEq, Eq, Structural)]
pub enum DeviceClass {
    Discrete,
    Integrated,
    Virtual,
    Cpu,
    Other,
    /// A kind this library does not know; least preferred.
    Unknown,
}

impl DeviceClass {
    /// The preference rank: lower is better, discrete GPUs first.
    pub open spec fn rank_spec(self) -> int {
        match self {
            DeviceClass::Discrete => 0,
            DeviceClass::Integrated => 1,
            DeviceClass::Virtual => 2,
            DeviceClass::Cpu => 3,
            DeviceClass::Other => 4,
            DeviceClass::Unknown => 5,
        }
    }

    pub fn rank(&self) -> (r: u8)
        ensures
            r == self.rank_spec(),
    {
        match self {
            DeviceClass::Discrete => 0,
            DeviceClass::Integrated => 1,
            DeviceClass::Virtual => 2,
            DeviceClass::Cpu => 3,
            DeviceClass::Other => 4,
            DeviceClass::Unknown => 5,
        }
    }
}

/// Picks the device to use among the suitable ones: the first of lowest
/// rank, as a minimum taken over the list in order. None only when the list
/// is empty.
pub fn pick_best_device(classes: &Vec<DeviceClass>) -> (r: Option<usize>)
    ensures
        r is None <==> classes.len() == 0,
        r matches Some(best) ==> {
            &&& 0 <= best < classes.len()
            &&& forall|j: int|
                0 <= j < classes.len() ==> classes[best as int].rank_spec() <= (
                #[trigger] classes[j]).rank_spec()
            &&& forall|j: int|
                0 <= j < best ==> classes[best as int].rank_spec() < (
                #[trigger] classes[j]).rank_spec()
        },
{
    if classes.len() == 0 {
        return None;
    }
    let mut best: usize = 0;
    let mut best_rank: u8 = classes[0].rank();
    let mut i: usize = 1;
    while i < classes.len()
        invariant
            0 < i <= classes.len(),
            0 <= best < i,
            best_rank == classes[best as int].rank_spec(),
            forall|j: int| 0 <= j < i ==> best_rank <= (#[trigger] classes[j]).rank_spec(),
            forall|j: int| 0 <= j < best ==> best_rank < (#[trigger] classes[j]).rank_spec(),
        decreases classes.len() - i,
    {
        let rank = classes[i].rank();
        if rank < best_rank {
            best = i;
            best_rank = rank;
        }
        i = i + 1;
    }
    Some(best)
}

/// A composite-alpha mode of the surface, as far as this library tells them
/// apart: the two premultiplication modes it prefers for a transparent
/// window, and everything else.
#[derive(Debug, Clone, Copy, PartialEq, Eq, Structural)]
pub enum AlphaMode {
    PreMultiplied,
    PostMultiplied,
    Opaque,
    Inherit,
}

/// The modes that suit a transparent window.
pub open spec fn alpha_preferred(a: AlphaMode) -> bool {
    a == AlphaMode::PreMultiplied || a == AlphaMode::PostMultiplied
}

/// The first mode in the list that suits a transparent window, if any.
pub open spec fn first_preferred(s: Seq<AlphaMode>) -> Option<AlphaMode>
    decreases s.len(),
{
    if s.len() == 0 {
        None
    } else if alpha_preferred(s[0]) {
        Some(s[0])
    } else {
        first_preferred(s.drop_first())
    }
}

/// The mode the swapchain gets: the first supported mode that suits a
/// transparent window, or the first supported mode at all when none does,
/// or nothing when the surface supports nothing.
pub open spec fn composite_alpha_spec(s: Seq<AlphaMode>) -> Option<AlphaMode> {
    if first_preferred(s) is Some {
        first_preferred(s)
    } else if s.len() > 0 {
        Some(s[0])
    } else {
        None
    }
}

/// A list with no preferred mode among its first `i` elements has its first
/// preferred mode, if any, past them.
proof fn lemma_first_preferred_skip(s: Seq<AlphaMode>, i: int)
    requires
        0 <= i <= s.len(),
        forall|j: int| 0 <= j < i ==> !alpha_preferred(#[trigger] s[j]),
    ensures
        first_preferred(s) == first_preferred(s.skip(i)),
    decreases i,
{
    if i > 0 {
        lemma_first_preferred_skip(s, i - 1);
        assert(s.skip(i - 1)[0] == s[i - 1]);
        assert(s.skip(i - 1).drop_first() =~= s.skip(i));
    } else {
        assert(s.skip(0) =~= s);
    }
}

/// Picks the composite-alpha mode for the swapchain.
pub fn pick_composite_alpha(supported: &Vec<AlphaMode>) -> (r: Option<AlphaMode>)
    ensures
        r == composite_alpha_spec(supported@),
{
    let mut i: usize = 0;
    while i < supported.len()
        invariant
            i <= supported.len(),
            forall|j: int| 0 <= j < i ==> !alpha_preferred(#[trigger] supported@[j]),
        decreases supported.len() - i,
    {
        let a = supported[i];
        match a {
            AlphaMode::PreMultiplied | AlphaMode::PostMultiplied => {
                proof {
                    lemma_first_preferred_skip(supported@, i as int);
                    assert(supported@.skip(i as int)[0] == supported@[i as int]);
                }
                return Some(a);
            },
            _ => {},
        }
        i = i + 1;
    }
    proof {
        lemma_first_preferred_skip(supported@, supported@.len() as int);
        assert(supported@.skip(supported@.len() as int) =~= Seq::<AlphaMode>::empty());
    }
    if supported.len() > 0 {
        Some(supported[0])
    } else {
        None
    }
}

} // verus!
