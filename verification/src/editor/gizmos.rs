use vstd::prelude::*;

verus! {

/// Which transform the gizmo handles edit.
#[derive(Clone, Copy, Debug, PartialEq, Eq, Structural)]
pub enum GizmosMode {
    Translate,
    Rotate,
    Scale,
}

impl GizmosMode {
    /// The label the mode panel shows.
    pub fn to_string(&self) -> (s: String)
        ensures
            s@ == match self {
                GizmosMode::Translate => "Translate"@,
                GizmosMode::Rotate => "Rotate"@,
                GizmosMode::Scale => "Scale"@,
            },
    {
        match self {
            GizmosMode::Scale => "Scale".to_owned(),
            GizmosMode::Rotate => "Rotate".to_owned(),
            GizmosMode::Translate => "Translate".to_owned(),
        }
    }
}

impl Default for GizmosMode {
    fn default() -> (mode: Self)
        ensures
            mode == GizmosMode::Translate,
    {
        GizmosMode::Translate
    }
}

pub struct GizmosManager;

impl GizmosManager {
    /// Switches the gizmo mode from the keys that went down this frame:
    /// `T` translate, `S` scale, `R` rotate; when several go down together the
    /// later in that order wins, and with none the mode stays.
    pub fn mode_keys(t_pressed: bool, s_pressed: bool, r_pressed: bool, mode: &mut GizmosMode)
        ensures
            *final(mode) == (if r_pressed {
                GizmosMode::Rotate
            } else if s_pressed {
                GizmosMode::Scale
            } else if t_pressed {
                GizmosMode::Translate
            } else {
                *old(mode)
            }),
    {
        if t_pressed {
            *mode = GizmosMode::Translate;
        }
        if s_pressed {
            *mode = GizmosMode::Scale;
        }
        if r_pressed {
            *mode = GizmosMode::Rotate;
        }
    }
}

} // verus!
