//! Acquiring the adapter and the device.
//!
//! This happens once, when the program starts: one adapter is requested, then
//! one device with its queue. A request that fails is never repeated and
//! there is no fallback.

use crate::error::InitError;
use vstd::prelude::*;

verus! {

/// Which kind of adapter is preferred.
#[derive(Clone, Copy, Debug, PartialEq, Eq, Structural)]
pub enum PowerPreference {
    Default,
    LowPower,
    HighPerformance,
}

/// The graphics backends that an adapter may come from.
#[derive(Clone, Copy, Debug, PartialEq, Eq, Structural)]
pub struct Backends {
    pub vulkan: bool,
    pub gl: bool,
    pub metal: bool,
    pub dx12: bool,
    pub dx11: bool,
}

impl Backends {
    /// The primary backends: Vulkan, Metal and DX12.
    pub open spec fn primary() -> Backends {
        Backends { vulkan: true, gl: false, metal: true, dx12: true, dx11: false }
    }
}

/// What is asked of an adapter.
#[derive(Clone, Copy, Debug, PartialEq, Eq, Structural)]
pub struct AdapterRequest {
    pub power_preference: PowerPreference,
    pub backends: Backends,
}

/// What is asked of a device; its limits are the default ones.
#[derive(Clone, Copy, Debug, PartialEq, Eq, Structural)]
pub struct DeviceRequest {
    pub anisotropic_filtering: bool,
}

/// What the program has to ask the system for next.
#[derive(Clone, Copy, Debug, PartialEq, Eq, Structural)]
pub enum Request {
    Adapter(AdapterRequest),
    Device(DeviceRequest),
}

/// How far the acquisition has come.
#[derive(Clone, Copy, Debug, PartialEq, Eq, Structural)]
pub enum ContextState {
    /// Nothing was acquired yet.
    NeedAdapter,
    /// The adapter is there, the device is not.
    NeedDevice,
    /// Adapter, device and queue are there.
    Ready,
    /// A request failed; nothing more is asked.
    Failed(InitError),
}

/// The request that a state waits for, if any: an adapter with the default
/// power preference from the primary backends, then a device without
/// anisotropic filtering.
pub open spec fn pending_request(state: ContextState) -> Option<Request> {
    match state {
        ContextState::NeedAdapter => Some(
            Request::Adapter(
                AdapterRequest {
                    power_preference: PowerPreference::Default,
                    backends: Backends::primary(),
                },
            ),
        ),
        ContextState::NeedDevice => Some(
            Request::Device(DeviceRequest { anisotropic_filtering: false }),
        ),
        ContextState::Ready => None,
        ContextState::Failed(_) => None,
    }
}

/// The state after the pending request was answered; `obtained` says
/// whether the system gave what was asked.
pub open spec fn resolved(state: ContextState, obtained: bool) -> ContextState {
    match state {
        ContextState::NeedAdapter => if obtained {
            ContextState::NeedDevice
        } else {
            ContextState::Failed(InitError::NoAdapter)
        },
        ContextState::NeedDevice => if obtained {
            ContextState::Ready
        } else {
            ContextState::Failed(InitError::NoDevice)
        },
        ContextState::Ready => state,
        ContextState::Failed(_) => state,
    }
}

/// The state after a run of answers, taken in order.
pub open spec fn resolved_all(state: ContextState, answers: Seq<bool>) -> ContextState
    decreases answers.len(),
{
    if answers.len() == 0 {
        state
    } else {
        resolved(resolved_all(state, answers.drop_last()), answers.last())
    }
}

/// The root of everything the renderer owns on the device.
#[derive(Debug, PartialEq, Eq, Structural)]
pub struct GraphicsContext {
    state: ContextState,
}

impl View for GraphicsContext {
    type V = ContextState;

    closed spec fn view(&self) -> ContextState {
        self.state
    }
}

impl GraphicsContext {
    /// A context that has acquired nothing yet.
    pub fn new() -> (context: GraphicsContext)
        ensures
            context@ == ContextState::NeedAdapter,
    {
        GraphicsContext { state: ContextState::NeedAdapter }
    }

    /// How far the acquisition has come.
    pub fn state(&self) -> (state: ContextState)
        ensures
            state == self@,
    {
        self.state
    }

    /// What to ask the system for next, or `None` when the context is ready
    /// or has failed.
    pub fn pending(&self) -> (request: Option<Request>)
        ensures
            request == pending_request(self@),
    {
        match self.state {
            ContextState::NeedAdapter => Some(
                Request::Adapter(
                    AdapterRequest {
                        power_preference: PowerPreference::Default,
                        backends: Backends {
                            vulkan: true,
                            gl: false,
                            metal: true,
                            dx12: true,
                            dx11: false,
                        },
                    },
                ),
            ),
            ContextState::NeedDevice => Some(
                Request::Device(DeviceRequest { anisotropic_filtering: false }),
            ),
            ContextState::Ready => None,
            ContextState::Failed(_) => None,
        }
    }

    /// Takes the answer to the pending request. A missing adapter or device
    /// is fatal: the error is returned, and again by every later call.
    pub fn resolve(&mut self, obtained: bool) -> (result: Result<(), InitError>)
        ensures
            final(self)@ == resolved(old(self)@, obtained),
            result is Err <==> final(self)@ is Failed,
            result matches Err(e) ==> final(self)@ == ContextState::Failed(e),
    {
        match self.state {
            ContextState::NeedAdapter => {
                if obtained {
                    self.state = ContextState::NeedDevice;
                } else {
                    self.state = ContextState::Failed(InitError::NoAdapter);
                }
            },
            ContextState::NeedDevice => {
                if obtained {
                    self.state = ContextState::Ready;
                } else {
                    self.state = ContextState::Failed(InitError::NoDevice);
                }
            },
            ContextState::Ready => {},
            ContextState::Failed(_) => {},
        }
        match self.state {
            ContextState::Failed(e) => Err(e),
            _ => Ok(()),
        }
    }
}

/// Nothing is retried and nothing is asked twice: a failed context stays
/// failed with the same error and a ready one stays ready, whatever answers
/// follow, and neither asks for anything.
pub proof fn lemma_acquisition_is_final(state: ContextState, answers: Seq<bool>)
    requires
        state is Failed || state is Ready,
    ensures
        resolved_all(state, answers) == state,
        pending_request(state) is None,
    decreases answers.len(),
{
    if answers.len() > 0 {
        lemma_acquisition_is_final(state, answers.drop_last());
    }
}

/// From the start, the context is ready exactly when the first two answers
/// are both positive: one adapter and one device, each asked for once.
pub proof fn lemma_ready_after_adapter_and_device(answers: Seq<bool>)
    ensures
        resolved_all(ContextState::NeedAdapter, answers) is Ready <==> answers.len() >= 2
            && answers[0] && answers[1],
        resolved_all(ContextState::NeedAdapter, answers) == ContextState::Failed(
            InitError::NoAdapter,
        ) <==> answers.len() >= 1 && !answers[0],
        resolved_all(ContextState::NeedAdapter, answers) == ContextState::Failed(
            InitError::NoDevice,
        ) <==> answers.len() >= 2 && answers[0] && !answers[1],
        resolved_all(ContextState::NeedAdapter, answers) is NeedAdapter <==> answers.len() == 0,
        resolved_all(ContextState::NeedAdapter, answers) is NeedDevice <==> answers.len() == 1
            && answers[0],
    decreases answers.len(),
{
    if answers.len() > 0 {
        lemma_ready_after_adapter_and_device(answers.drop_last());
        if answers.len() > 1 {
            assert(answers.drop_last()[0] == answers[0]);
        }
        if answers.len() > 2 {
            assert(answers.drop_last()[1] == answers[1]);
        }
    }
}

} // verus!
