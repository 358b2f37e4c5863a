//! Output device lifecycle: the hardware backend manages at most one output
//! device, created on a matching hot-plug "added" event, replaced wholesale on
//! "changed" (remove then re-add against the same path), destroyed on
//! "removed", and paused across virtual-terminal switches.
//!
//! The state machine lives here; the surrounding process opens devices, builds
//! renderer contexts and registers event sources, and reports the outcomes
//! back in. Each transition says exactly which actions the process must
//! perform and in which order.

use vstd::prelude::*;

verus! {

/// How many attempts to open a device are made before the add fails, when the
/// session reports the device as transiently unavailable.
pub const OPEN_MAX_ATTEMPTS: u64 = 100;

/// The delay, in milliseconds, between two attempts to open a device.
pub const OPEN_RETRY_DELAY_MILLIS: u64 = 20;

/// The mathematical state of the backend: the primary device path it manages,
/// the live device when one exists, whether a logical output is registered
/// with the compositor, and whether the session is paused.
pub struct StateModel {
    pub primary: Seq<char>,
    pub device: Option<DeviceModel>,
    pub output_registered: bool,
    pub paused: bool,
}

/// The mathematical state of the live output device.
pub struct DeviceModel {
    pub id: u64,
    pub path: Seq<char>,
}

/// A hot-plug event together with how the environment answers it: whether the
/// open-and-initialize sequence that an accepted add (or the re-add half of a
/// change) starts would succeed.
pub enum HotplugEvent {
    Added { id: u64, path: Seq<char>, open_ok: bool },
    Changed { id: u64, reopen_ok: bool },
    Removed { id: u64 },
}

/// Well-formedness of a backend state: a live device is always the primary
/// one, and a logical output is registered exactly while a device is live —
/// in particular it is never registered without a live device.
pub open spec fn state_wf(s: StateModel) -> bool {
    &&& match s.device {
        Some(d) => d.path == s.primary,
        None => true,
    }
    &&& (s.output_registered <==> s.device is Some)
}

/// How many output devices are live in a state.
pub open spec fn live_count(s: StateModel) -> nat {
    if s.device is Some {
        1
    } else {
        0
    }
}

/// One hot-plug transition of the backend.
///
/// An add is accepted only for the primary path while no device is live, and
/// takes effect only when the open sequence succeeds. A removal or change
/// acts only on the live device's id. A change is a removal followed by a
/// re-add against the same path: when the re-add succeeds the device is
/// replaced (same id and path, fresh resources), when it fails the backend is
/// left without a display until the next hot-plug event.
pub open spec fn hotplug_step(s: StateModel, e: HotplugEvent) -> StateModel {
    match e {
        HotplugEvent::Added { id, path, open_ok } => {
            if path == s.primary && s.device is None && open_ok {
                StateModel {
                    primary: s.primary,
                    device: Some(DeviceModel { id, path }),
                    output_registered: true,
                    paused: s.paused,
                }
            } else {
                s
            }
        },
        HotplugEvent::Changed { id, reopen_ok } => {
            match s.device {
                Some(d) => {
                    if d.id == id && !reopen_ok {
                        StateModel {
                            primary: s.primary,
                            device: None,
                            output_registered: false,
                            paused: s.paused,
                        }
                    } else {
                        s
                    }
                },
                None => s,
            }
        },
        HotplugEvent::Removed { id } => {
            match s.device {
                Some(d) => {
                    if d.id == id {
                        StateModel {
                            primary: s.primary,
                            device: None,
                            output_registered: false,
                            paused: s.paused,
                        }
                    } else {
                        s
                    }
                },
                None => s,
            }
        },
    }
}

/// The state after a whole sequence of hot-plug events.
pub open spec fn hotplug_run(s: StateModel, es: Seq<HotplugEvent>) -> StateModel
    decreases es.len(),
{
    if es.len() == 0 {
        s
    } else {
        hotplug_run(hotplug_step(s, es[0]), es.drop_first())
    }
}

/// Every single hot-plug transition preserves well-formedness.
pub proof fn lemma_step_preserves_wf(s: StateModel, e: HotplugEvent)
    requires
        state_wf(s),
    ensures
        state_wf(hotplug_step(s, e)),
{
}

/// For every hot-plug sequence, the backend stays well-formed and at most one
/// output device is live at any instant: in particular an add while a device
/// is live is ignored, so a second device never appears.
pub proof fn lemma_at_most_one_live(s: StateModel, es: Seq<HotplugEvent>)
    requires
        state_wf(s),
    ensures
        state_wf(hotplug_run(s, es)),
        live_count(hotplug_run(s, es)) <= 1,
    decreases es.len(),
{
    if es.len() > 0 {
        lemma_step_preserves_wf(s, es[0]);
        lemma_at_most_one_live(hotplug_step(s, es[0]), es.drop_first());
    }
}

/// Removing the same device twice equals removing it once: the second removal
/// finds nothing live with that id and changes nothing.
pub proof fn lemma_removed_idempotent(s: StateModel, id: u64)
    ensures
        hotplug_step(
            hotplug_step(s, HotplugEvent::Removed { id }),
            HotplugEvent::Removed { id },
        ) == hotplug_step(s, HotplugEvent::Removed { id }),
{
}

/// A change event whose id does not name the live device (or arriving while
/// no device is live) is a no-op.
pub proof fn lemma_changed_nonlive_noop(s: StateModel, id: u64, reopen_ok: bool)
    requires
        match s.device {
            Some(d) => d.id != id,
            None => true,
        },
    ensures
        hotplug_step(s, HotplugEvent::Changed { id, reopen_ok }) == s,
{
}

/// A change of the live device is exactly a removal followed by an add of the
/// same device against the same path, answered the same way.
pub proof fn lemma_changed_is_remove_then_add(s: StateModel, id: u64, reopen_ok: bool)
    requires
        state_wf(s),
        match s.device {
            Some(d) => d.id == id,
            None => false,
        },
    ensures
        match s.device {
            Some(d) => hotplug_step(s, HotplugEvent::Changed { id, reopen_ok })
                == hotplug_step(
                    hotplug_step(s, HotplugEvent::Removed { id }),
                    HotplugEvent::Added { id, path: d.path, open_ok: reopen_ok },
                ),
            None => true,
        },
{
}

/// The live output device: its kernel device id and filesystem path. The
/// device handle, renderer context and scanout pipeline it stands for are
/// owned by the surrounding process, which creates and releases them exactly
/// when told to by the transitions below.
pub struct OutputDeviceState {
    id: u64,
    path: String,
}

impl View for OutputDeviceState {
    type V = DeviceModel;

    closed spec fn view(&self) -> DeviceModel {
        DeviceModel { id: self.id, path: self.path@ }
    }
}

/// What to do with a hot-plug "added" event.
#[derive(Clone, Copy, PartialEq, Eq, Structural, Debug)]
pub enum AddDecision {
    /// The path names the primary device and none is live: open it.
    Open,
    /// The path does not name the primary device: log and ignore.
    IgnoreNonPrimary,
    /// A device is already live; this backend manages only one.
    IgnoreAlreadyLive,
}

/// The teardown actions of a device removal, in the order they must be
/// performed: unregister the vertical-blank event source, clear the
/// compositor's reference to the logical output, release the renderer's
/// shared-texture import binding, and only then drop the device handle.
#[derive(Clone, Copy, PartialEq, Eq, Structural, Debug)]
pub enum TeardownStep {
    UnregisterVBlankSource,
    ClearOutputReference,
    UnbindRendererImport,
    DropDeviceHandle,
}

/// The teardown order of a live device.
pub open spec fn teardown_order() -> Seq<TeardownStep> {
    seq![
        TeardownStep::UnregisterVBlankSource,
        TeardownStep::ClearOutputReference,
        TeardownStep::UnbindRendererImport,
        TeardownStep::DropDeviceHandle,
    ]
}

/// The remove-then-re-add pass a device change asks for: tear the live
/// device down in the given order, then open the same device again.
pub struct ReopenPlan {
    /// The teardown actions, in the order to perform them.
    pub teardown: Vec<TeardownStep>,
    /// The id of the device to re-add.
    pub device_id: u64,
    /// The path to open it by: the path the removed device had.
    pub path: String,
}

/// What the surrounding process must do after a session resume.
pub struct ResumePlan {
    /// Reactivate the paused device; set exactly when a device is live.
    pub activate_drm: bool,
    /// The change pass to run against the live device (connector or mode
    /// state may have changed while the session was suspended); absent when
    /// none is live.
    pub reopen: Option<ReopenPlan>,
    /// Request a redraw; always set.
    pub request_redraw: bool,
}

/// The backend's lifecycle state.
pub struct BackendState {
    primary_path: String,
    device: Option<OutputDeviceState>,
    output_registered: bool,
    paused: bool,
}

impl View for BackendState {
    type V = StateModel;

    closed spec fn view(&self) -> StateModel {
        StateModel {
            primary: self.primary_path@,
            device: match self.device {
                Some(d) => Some(d@),
                None => None,
            },
            output_registered: self.output_registered,
            paused: self.paused,
        }
    }
}

impl BackendState {
    /// A fresh backend managing the given primary device path: no device
    /// live, no output registered, session active.
    pub fn new(primary_path: String) -> (s: Self)
        ensures
            s@ == (StateModel {
                primary: primary_path@,
                device: None,
                output_registered: false,
                paused: false,
            }),
            state_wf(s@),
    {
        BackendState { primary_path, device: None, output_registered: false, paused: false }
    }

    /// Whether a device is live.
    pub fn is_live(&self) -> (r: bool)
        ensures
            r <==> self@.device is Some,
    {
        self.device.is_some()
    }

    /// The id of the live device, when one is live.
    pub fn live_device_id(&self) -> (r: Option<u64>)
        ensures
            match self@.device {
                Some(d) => r == Some(d.id),
                None => r is None,
            },
    {
        match &self.device {
            Some(d) => Some(d.id),
            None => None,
        }
    }

    /// Whether the logical output is registered with the compositor.
    pub fn output_registered(&self) -> (r: bool)
        ensures
            r == self@.output_registered,
    {
        self.output_registered
    }

    /// Whether the session is paused (suspended across a virtual-terminal
    /// switch).
    pub fn is_paused(&self) -> (r: bool)
        ensures
            r == self@.paused,
    {
        self.paused
    }

    /// Whether a renderer can be acquired: absent before any device is live.
    pub fn renderer_available(&self) -> (r: bool)
        ensures
            r <==> self@.device is Some,
    {
        self.device.is_some()
    }

    /// Whether a render call may proceed: it must be a no-op (not an error)
    /// while no renderer is available, and no rendering is attempted while
    /// the session is paused.
    pub fn may_render(&self) -> (r: bool)
        ensures
            r <==> (self@.device is Some && !self@.paused),
    {
        self.device.is_some() && !self.paused
    }

    /// Decides a hot-plug "added" event: open exactly when the path names the
    /// primary device and no device is live; every other add is ignored with
    /// no state change.
    pub fn on_device_added(&self, path: &String) -> (d: AddDecision)
        ensures
            d == AddDecision::Open <==> (path@ == self@.primary && self@.device is None),
            d == AddDecision::IgnoreNonPrimary <==> path@ != self@.primary,
            d == AddDecision::IgnoreAlreadyLive <==> (path@ == self@.primary
                && self@.device is Some),
    {
        if *path != self.primary_path {
            AddDecision::IgnoreNonPrimary
        } else if self.device.is_some() {
            AddDecision::IgnoreAlreadyLive
        } else {
            AddDecision::Open
        }
    }

    /// Records that an accepted add completed: the device was opened, the
    /// renderer context built and bound, the output selected, and the logical
    /// output registered with the compositor. An immediate redraw must be
    /// requested.
    pub fn complete_device_added(&mut self, id: u64, path: String) -> (request_redraw: bool)
        requires
            old(self)@.device is None,
            path@ == old(self)@.primary,
        ensures
            final(self)@ == hotplug_step(
                old(self)@,
                HotplugEvent::Added { id, path: path@, open_ok: true },
            ),
            request_redraw,
    {
        self.device = Some(OutputDeviceState { id, path });
        self.output_registered = true;
        true
    }

    /// Handles a hot-plug "removed" event. When the id names the live device
    /// the returned actions tear it down in order and the backend goes back
    /// to having no device; otherwise — in particular when the device was
    /// already removed — nothing changes and there is nothing to do.
    pub fn on_device_removed(&mut self, id: u64) -> (steps: Vec<TeardownStep>)
        ensures
            final(self)@ == hotplug_step(old(self)@, HotplugEvent::Removed { id }),
            match old(self)@.device {
                Some(d) => {
                    if d.id == id {
                        steps@ == teardown_order()
                    } else {
                        steps@ == Seq::<TeardownStep>::empty()
                    }
                },
                None => steps@ == Seq::<TeardownStep>::empty(),
            },
    {
        let matching = match &self.device {
            Some(d) => d.id == id,
            None => false,
        };
        if matching {
            self.device = None;
            self.output_registered = false;
            let mut steps: Vec<TeardownStep> = Vec::new();
            steps.push(TeardownStep::UnregisterVBlankSource);
            steps.push(TeardownStep::ClearOutputReference);
            steps.push(TeardownStep::UnbindRendererImport);
            steps.push(TeardownStep::DropDeviceHandle);
            proof {
                assert(steps@ =~= teardown_order());
            }
            steps
        } else {
            Vec::new()
        }
    }

    /// Handles a hot-plug "changed" event: a change of the live device is a
    /// removal (the returned teardown actions) followed by a re-add against
    /// the returned path, which the caller performs as it would an accepted
    /// add. A change naming anything but the live device is a no-op.
    pub fn on_device_changed(&mut self, id: u64) -> (plan: Option<ReopenPlan>)
        ensures
            final(self)@ == hotplug_step(old(self)@, HotplugEvent::Removed { id }),
            match old(self)@.device {
                Some(d) => {
                    if d.id == id {
                        plan matches Some(p) && p.teardown@ == teardown_order() && p.device_id
                            == d.id && p.path@ == d.path
                    } else {
                        plan is None
                    }
                },
                None => plan is None,
            },
            plan is None ==> final(self)@ == old(self)@,
    {
        let path: Option<String> = match &self.device {
            Some(d) => {
                if d.id == id {
                    Some(d.path.clone())
                } else {
                    None
                }
            },
            None => None,
        };
        match path {
            Some(p) => {
                let teardown = self.on_device_removed(id);
                Some(ReopenPlan { teardown, device_id: id, path: p })
            },
            None => None,
        }
    }

    /// Suspends the backend on a session pause: input delivery is suspended
    /// by the caller, and the live device, when there is one, must be told to
    /// pause. No rendering is attempted while paused.
    pub fn on_session_paused(&mut self) -> (pause_drm: bool)
        ensures
            final(self)@ == (StateModel {
                primary: old(self)@.primary,
                device: old(self)@.device,
                output_registered: old(self)@.output_registered,
                paused: true,
            }),
            pause_drm <==> old(self)@.device is Some,
    {
        let live = self.device.is_some();
        self.paused = true;
        live
    }

    /// Resumes the backend on a session activation: the caller resumes input
    /// delivery, reactivates the live device when the plan says so, runs the
    /// change pass the plan carries (connector or mode state may have changed
    /// while suspended), and requests a redraw unconditionally.
    pub fn on_session_resumed(&mut self) -> (plan: ResumePlan)
        ensures
            final(self)@.paused == false,
            final(self)@.primary == old(self)@.primary,
            final(self)@.device is None,
            plan.activate_drm <==> old(self)@.device is Some,
            plan.request_redraw,
            match old(self)@.device {
                Some(d) => {
                    &&& plan.reopen matches Some(p) && p.teardown@ == teardown_order()
                        && p.device_id == d.id && p.path@ == d.path
                    &&& final(self)@.output_registered == false
                },
                None => {
                    &&& plan.reopen is None
                    &&& final(self)@.output_registered == old(self)@.output_registered
                },
            },
    {
        self.paused = false;
        let id: Option<u64> = match &self.device {
            Some(d) => Some(d.id),
            None => None,
        };
        match id {
            Some(id) => {
                let reopen = self.on_device_changed(id);
                ResumePlan { activate_drm: true, reopen, request_redraw: true }
            },
            None => ResumePlan { activate_drm: false, reopen: None, request_redraw: true },
        }
    }
}

/// Whether another attempt to open the device should be made after a
/// transient "resource unavailable" failure, given how many attempts were
/// already made.
pub fn should_retry_open(attempts_made: u64) -> (r: bool)
    ensures
        r <==> attempts_made < OPEN_MAX_ATTEMPTS,
{
    attempts_made < OPEN_MAX_ATTEMPTS
}

/// Why the backend cannot start at all.
#[derive(Clone, Copy, PartialEq, Eq, Structural, Debug)]
pub enum StartupError {
    /// The primary graphics device could not be resolved for the seat.
    NoPrimaryGpu,
    /// The initial scan found no graphics device.
    NoDisplayDevice,
}

/// Validates the fatal startup conditions: the backend cannot proceed without
/// a resolvable primary device and at least one device attached at the
/// initial scan. On success hands back the primary path to manage.
pub fn validate_startup(primary_gpu: Option<String>, device_count: usize) -> (r: Result<
    String,
    StartupError,
>)
    ensures
        r is Ok <==> (primary_gpu is Some && device_count > 0),
        match r {
            Ok(p) => primary_gpu matches Some(q) && p == q,
            Err(e) => {
                &&& (e == StartupError::NoPrimaryGpu <==> primary_gpu is None)
                &&& (e == StartupError::NoDisplayDevice <==> (primary_gpu is Some
                    && device_count == 0))
            },
        },
{
    match primary_gpu {
        Some(p) => {
            if device_count == 0 {
                Err(StartupError::NoDisplayDevice)
            } else {
                Ok(p)
            }
        },
        None => Err(StartupError::NoPrimaryGpu),
    }
}

} // verus!
