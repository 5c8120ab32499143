//! Acquiring the next image of the surface: which format the surface is
//! configured with, and what follows when no image can be acquired.

use vstd::prelude::*;

verus! {

/// Why the next presentable image could not be acquired.
#[derive(Debug, Clone, Copy, PartialEq, Eq, Structural)]
pub enum SurfaceError {
    Timeout,
    Outdated,
    Lost,
    OutOfMemory,
}

/// How the render loop goes on after a failed acquire.
#[derive(Debug, Clone, Copy, PartialEq, Eq, Structural)]
pub enum Recovery {
    /// Configure the surface again and try on the next tick.
    Reconfigure,
    /// Report the failure and try on the next tick.
    SkipFrame,
    /// Leave the render loop.
    Terminate,
}

impl SurfaceError {
    pub open spec fn spec_recovery(self) -> Recovery {
        match self {
            SurfaceError::Lost => Recovery::Reconfigure,
            SurfaceError::Outdated => Recovery::Reconfigure,
            SurfaceError::Timeout => Recovery::SkipFrame,
            SurfaceError::OutOfMemory => Recovery::Terminate,
        }
    }

    /// Only running out of memory ends the render loop.
    pub open spec fn spec_is_fatal(self) -> bool {
        self == SurfaceError::OutOfMemory
    }

    pub fn recovery(self) -> (recovery: Recovery)
        ensures
            recovery == self.spec_recovery(),
            recovery == Recovery::Terminate <==> self.spec_is_fatal(),
    {
        match self {
            SurfaceError::Lost => Recovery::Reconfigure,
            SurfaceError::Outdated => Recovery::Reconfigure,
            SurfaceError::Timeout => Recovery::SkipFrame,
            SurfaceError::OutOfMemory => Recovery::Terminate,
        }
    }

    pub fn is_fatal(self) -> (fatal: bool)
        ensures
            fatal == self.spec_is_fatal(),
    {
        match self {
            SurfaceError::OutOfMemory => true,
            _ => false,
        }
    }
}

/// The format to configure a surface with, as a position in the list of
/// formats that the surface supports: the first sRGB format, or the first
/// format where none is sRGB.
pub open spec fn preferred_format(srgb: Seq<bool>) -> int {
    if exists|i: int| 0 <= i < srgb.len() && srgb[i] {
        choose|i: int| 0 <= i < srgb.len() && srgb[i] && forall|j: int| 0 <= j < i ==> !srgb[j]
    } else {
        0
    }
}

/// Chooses the surface format from the list of supported formats, given for
/// each whether it is sRGB. An empty list offers no choice.
pub fn select_surface_format(srgb: &Vec<bool>) -> (choice: Option<usize>)
    ensures
        choice is None <==> srgb@.len() == 0,
        choice matches Some(i) ==> {
            &&& i < srgb@.len()
            &&& i == preferred_format(srgb@)
            &&& forall|j: int| 0 <= j < i ==> !srgb@[j]
            &&& srgb@[i as int] || (i == 0 && forall|j: int| 0 <= j < srgb@.len() ==> !srgb@[j])
        },
{
    if srgb.len() == 0 {
        return None;
    }
    let mut i: usize = 0;
    while i < srgb.len()
        invariant
            i <= srgb.len(),
            forall|j: int| 0 <= j < i ==> !srgb@[j],
        decreases srgb.len() - i,
    {
        if srgb[i] {
            proof {
                let c = preferred_format(srgb@);
                assert(0 <= c < srgb@.len() && srgb@[c] && forall|j: int| 0 <= j < c ==> !srgb@[j]);
                if c < i {
                    assert(!srgb@[c]);
                } else if i < c {
                    assert(!srgb@[i as int]);
                }
            }
            return Some(i);
        }
        i += 1;
    }
    Some(0)
}

} // verus!
