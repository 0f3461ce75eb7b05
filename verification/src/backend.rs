//! Backend selection: which display/input backend the compositor runs on.
use vstd::prelude::*;

verus! {

/// The kinds of backend MilkyWM can run on.
#[derive(Debug, Clone, Copy, PartialEq, Eq, Structural)]
pub enum BackendKind {
    /// Inside an existing X11/Wayland window.
    Winit,
    /// On the GPU via DRM/KMS with libseat and libinput.
    Drm,
    /// No display, no input, no rendering.
    Headless,
}

/// The backend's name.
pub open spec fn spec_backend_name(k: BackendKind) -> Seq<char> {
    match k {
        BackendKind::Winit => "winit"@,
        BackendKind::Drm => "drm"@,
        BackendKind::Headless => "headless"@,
    }
}

impl BackendKind {
    pub fn name(&self) -> (s: &'static str)
        ensures
            s@ == spec_backend_name(*self),
    {
        match self {
            BackendKind::Winit => "winit",
            BackendKind::Drm => "drm",
            BackendKind::Headless => "headless",
        }
    }
}

/// The headless backend carries no state.
pub struct Headless;

impl Headless {
    pub fn new() -> (h: Self)
        ensures
            h == Headless,
    {
        Headless
    }
}

impl Default for Headless {
    fn default() -> (h: Self)
        ensures
            h == Headless,
    {
        Headless::new()
    }
}

/// The backend chosen by `MILKYWM_BACKEND` (`choice`): a named backend, or,
/// when unset, winit inside another display server and DRM otherwise; any
/// other name is refused.
pub open spec fn spec_choose_backend(choice: Option<Seq<char>>, display_set: bool, wayland_display_set: bool) -> Option<
    BackendKind,
> {
    match choice {
        Some(c) => if c == "headless"@ {
            Some(BackendKind::Headless)
        } else if c == "winit"@ {
            Some(BackendKind::Winit)
        } else if c == "drm"@ {
            Some(BackendKind::Drm)
        } else {
            None
        },
        None => if display_set || wayland_display_set {
            Some(BackendKind::Winit)
        } else {
            Some(BackendKind::Drm)
        },
    }
}

/// Chooses the backend; an unknown name gives the error message.
pub fn choose_backend(choice: Option<String>, display_set: bool, wayland_display_set: bool) -> (r: Result<
    BackendKind,
    String,
>)
    ensures
        ({
            let c = match choice {
                Some(s) => Some(s@),
                None => None,
            };
            match r {
                Ok(k) => spec_choose_backend(c, display_set, wayland_display_set) == Some(k),
                Err(msg) => spec_choose_backend(c, display_set, wayland_display_set) is None && msg@
                    == "unknown MILKYWM_BACKEND: "@ + c.unwrap(),
            }
        }),
{
    match choice {
        Some(c) => {
            if c == String::from_str("headless") {
                Ok(BackendKind::Headless)
            } else if c == String::from_str("winit") {
                Ok(BackendKind::Winit)
            } else if c == String::from_str("drm") {
                Ok(BackendKind::Drm)
            } else {
                let mut msg = String::from_str("unknown MILKYWM_BACKEND: ");
                msg.append(c.as_str());
                Err(msg)
            }
        },
        None => {
            if display_set || wayland_display_set {
                Ok(BackendKind::Winit)
            } else {
                Ok(BackendKind::Drm)
            }
        },
    }
}

/// The first CRTC some encoder can drive: the encoders in order, and for
/// each the CRTCs it is compatible with, in order.
pub open spec fn first_compatible<T>(compatible: Seq<Seq<T>>) -> Option<T>
    decreases compatible.len(),
{
    if compatible.len() == 0 {
        None
    } else if compatible[0].len() > 0 {
        Some(compatible[0][0])
    } else {
        first_compatible(compatible.drop_first())
    }
}

/// The CRTC to drive a connector with: the one its current encoder already
/// drives, otherwise the first compatible one.
pub open spec fn spec_pick_crtc<T>(current: Option<T>, compatible: Seq<Seq<T>>) -> Option<T> {
    match current {
        Some(c) => Some(c),
        None => first_compatible(compatible),
    }
}

/// Picks the CRTC for a connector. `current` is the CRTC of the connector's
/// current encoder; `compatible` lists, per encoder of the connector, the
/// CRTCs that encoder can drive.
pub fn pick_crtc<T: Copy>(current: Option<T>, compatible: &Vec<Vec<T>>) -> (r: Option<T>)
    ensures
        r == spec_pick_crtc(current, compatible@.map_values(|v: Vec<T>| v@)),
{
    if let Some(c) = current {
        return Some(c);
    }
    let ghost cv = compatible@.map_values(|v: Vec<T>| v@);
    let mut i: usize = 0;
    assert(cv.subrange(0, cv.len() as int) =~= cv);
    while i < compatible.len()
        invariant
            current is None,
            cv == compatible@.map_values(|v: Vec<T>| v@),
            i <= compatible@.len(),
            first_compatible(cv) == first_compatible(cv.subrange(i as int, cv.len() as int)),
        decreases compatible@.len() - i,
    {
        let ghost rest = cv.subrange(i as int, cv.len() as int);
        assert(rest[0] == compatible@[i as int]@);
        if compatible[i].len() > 0 {
            let c = compatible[i][0];
            assert(c == rest[0][0]);
            assert(first_compatible(rest) == Some(rest[0][0]));
            return Some(c);
        }
        assert(rest.drop_first() =~= cv.subrange(i + 1, cv.len() as int));
        i += 1;
    }
    assert(cv.subrange(i as int, cv.len() as int) =~= Seq::<Seq<T>>::empty());
    None
}

/// The mode to drive a connector in: the first one marked preferred,
/// otherwise the first one; `None` when the connector has no modes.
pub open spec fn spec_pick_mode(preferred: Seq<bool>) -> Option<int> {
    match preferred.index_of_first(true) {
        Some(i) => Some(i),
        None => if preferred.len() > 0 {
            Some(0)
        } else {
            None
        },
    }
}

/// Picks a connector's mode by index; `preferred` says, mode by mode,
/// whether it is marked preferred.
pub fn pick_mode(preferred: &Vec<bool>) -> (r: Option<usize>)
    ensures
        match r {
            Some(i) => spec_pick_mode(preferred@) == Some(i as int),
            None => spec_pick_mode(preferred@) is None,
        },
{
    let mut i: usize = 0;
    while i < preferred.len()
        invariant
            i <= preferred@.len(),
            forall|k: int| 0 <= k < i ==> !preferred@[k],
        decreases preferred@.len() - i,
    {
        if preferred[i] {
            proof {
                preferred@.index_of_first_ensures(true);
                match preferred@.index_of_first(true) {
                    Some(k) => {
                        assert(k == i as int);
                    },
                    None => {
                        assert(preferred@[i as int]);
                    },
                }
            }
            return Some(i);
        }
        i += 1;
    }
    proof {
        preferred@.index_of_first_ensures(true);
    }
    if preferred.len() > 0 {
        Some(0)
    } else {
        None
    }
}

} // verus!
