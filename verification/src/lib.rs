//! Core logic of a compositor output backend: device hot-plug lifecycle,
//! connector/mode/CRTC selection, and frame scheduling.
//!
//! The backend abstracts the display a compositor presents into. Two variants
//! exist: a windowed variant that presents into a host display surface, and a
//! hardware variant that owns GPU output devices via kernel mode-setting. This
//! crate holds every decision those variants make, stated and verified over
//! plain values; the surrounding process performs the device I/O and hands the
//! results back in.

use vstd::prelude::*;

pub mod input_policy;
pub mod lifecycle;
pub mod scheduler;
pub mod selector;

verus! {

/// The two backend variants a process can run.
#[derive(Clone, Copy, PartialEq, Eq, Structural, Debug)]
pub enum BackendVariant {
    /// Presents into a host display surface.
    Windowed,
    /// Owns GPU output devices via kernel mode-setting.
    Hardware,
}

/// Picks the backend variant once at startup: the windowed variant exactly
/// when a host display is available, the hardware variant otherwise.
pub fn choose_variant(has_host_display: bool) -> (v: BackendVariant)
    ensures
        v == BackendVariant::Windowed <==> has_host_display,
{
    if has_host_display {
        BackendVariant::Windowed
    } else {
        BackendVariant::Hardware
    }
}

/// The seat name a backend reports: the windowed variant names its fixed host
/// seat, the hardware variant reports the seat the session service assigned.
pub fn seat_name(variant: BackendVariant, session_seat: &String) -> (r: String)
    ensures
        variant == BackendVariant::Windowed ==> r@ == "winit"@,
        variant == BackendVariant::Hardware ==> r@ == session_seat@,
{
    match variant {
        BackendVariant::Windowed => "winit".to_owned(),
        BackendVariant::Hardware => session_seat.clone(),
    }
}

} // verus!
