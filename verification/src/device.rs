//! Device resolution: a once-only hardware probe behind a recorded outcome.
//!
//! The embedding layer keeps one `DeviceCache` behind a process-wide mutex;
//! every invocation resolves its device through `get_device`. The first
//! call probes the hardware and records the outcome — success or failure —
//! and every later call returns that recorded outcome without touching the
//! hardware again: there is no invalidation, retry or re-probe path, so a
//! probe failure is fatal for every call that needs the device
//! (`lemma_resolve_once`).
use vstd::prelude::*;
use crate::GatewayError;

verus! {

/// The resolved compute device, as the gateway reads it: the backend that
/// answered the probe and the ordinal it was asked for.
#[derive(Clone, Copy, PartialEq, Eq, Structural, Debug)]
pub enum DeviceHandle {
    Cpu,
    Cuda { ordinal: usize },
    Metal { ordinal: usize },
}

/// The process-wide slot for the probe's outcome. Uninitialized at process
/// start; written by the first `get_device` call, whatever the probe
/// returned; immutable thereafter.
pub struct DeviceCache {
    slot: Option<Result<DeviceHandle, String>>,
}

/// Relies on `candle_core::Device::cuda_if_available`: answers with the
/// CUDA device at the given ordinal when CUDA support is compiled in and
/// the probe succeeds, and with the CPU device otherwise; it never answers
/// with a metal device (that arm only mirrors the device enum's shape). A
/// probe failure is reported through `candle_core::Error`, whose display
/// text is returned.
#[verifier::external_body]
fn probe_device(ordinal: usize) -> (r: Result<DeviceHandle, String>)
    ensures
        r matches Ok(h) ==> h is Cpu || h == (DeviceHandle::Cuda { ordinal }),
{
    match candle_core::Device::cuda_if_available(ordinal) {
        Ok(candle_core::Device::Cpu) => Ok(DeviceHandle::Cpu),
        Ok(candle_core::Device::Cuda(_)) => Ok(DeviceHandle::Cuda { ordinal }),
        Ok(candle_core::Device::Metal(_)) => Ok(DeviceHandle::Metal { ordinal }),
        Err(e) => Err(e.to_string()),
    }
}

/// How one `get_device` call relates to the cache: afterwards an outcome is
/// always on record; a call that found one returns it with the state
/// untouched — the hardware is never probed a second time; the returned
/// value always agrees with the record, a failure surfacing as a `Device`
/// error with the probe's message; and a handle first obtained here names
/// the CPU or the accelerator at ordinal 0.
pub open spec fn resolve_step(
    pre: DeviceCache,
    post: DeviceCache,
    r: Result<DeviceHandle, GatewayError>,
) -> bool {
    &&& post.recorded() is Some
    &&& (pre.recorded() is Some ==> post == pre)
    &&& match r {
        Ok(h) => post.recorded() == Some(Ok::<DeviceHandle, Seq<char>>(h)),
        Err(e) => e is Device && post.recorded() == Some(
            Err::<DeviceHandle, Seq<char>>(e.message_view()),
        ),
    }
    &&& (pre.recorded() is None ==> (r matches Ok(h) ==> h is Cpu || h == (DeviceHandle::Cuda {
        ordinal: 0,
    })))
}

impl DeviceCache {
    /// The recorded probe outcome, if the probe has run: the handle, or
    /// the failure's message text.
    pub closed spec fn recorded(&self) -> Option<Result<DeviceHandle, Seq<char>>> {
        match self.slot {
            Some(Ok(d)) => Some(Ok(d)),
            Some(Err(m)) => Some(Err(m@)),
            None => None,
        }
    }

    /// How many times the hardware has been probed through this cache:
    /// never more than once.
    pub closed spec fn probe_count(&self) -> nat {
        if self.slot is Some {
            1
        } else {
            0
        }
    }

    /// The uninitialized cache: nothing on record, no probe yet.
    pub fn new() -> (c: DeviceCache)
        ensures
            c.recorded() is None,
            c.probe_count() == 0,
    {
        DeviceCache { slot: None }
    }

    /// How many probing attempts have happened, observably.
    pub fn probes(&self) -> (n: u64)
        ensures
            n == self.probe_count(),
    {
        match &self.slot {
            Some(_) => 1,
            None => 0,
        }
    }

    /// Resolve the compute device. The first call probes the hardware,
    /// exactly once for this cache's lifetime, and records the outcome;
    /// every call finding an outcome on record returns it as-is, so a
    /// recorded failure stays fatal: no retry or re-probe path exists.
    pub fn get_device(&mut self) -> (r: Result<DeviceHandle, GatewayError>)
        ensures
            resolve_step(*old(self), *final(self), r),
    {
        if let Some(outcome) = &self.slot {
            return match outcome {
                Ok(d) => Ok(*d),
                Err(m) => Err(GatewayError::Device(m.clone())),
            };
        }
        match probe_device(0) {
            Ok(h) => {
                self.slot = Some(Ok(h));
                Ok(h)
            },
            Err(m) => {
                let msg = m.clone();
                self.slot = Some(Err(m));
                Err(GatewayError::Device(msg))
            },
        }
    }
}

/// The probing action runs exactly once for a cache's lifetime, whatever
/// its outcome: after any call an outcome is on record, every later call
/// leaves the state untouched and returns that same outcome — the same
/// handle after a success, a `Device` failure with the same message text
/// after a failure — and the probe count stands at one.
pub proof fn lemma_resolve_once(
    c0: DeviceCache,
    c1: DeviceCache,
    c2: DeviceCache,
    r1: Result<DeviceHandle, GatewayError>,
    r2: Result<DeviceHandle, GatewayError>,
)
    requires
        resolve_step(c0, c1, r1),
        resolve_step(c1, c2, r2),
    ensures
        c2 == c1,
        c1.probe_count() == 1,
        c2.probe_count() == 1,
        c0.recorded() is Some ==> c1 == c0,
        r1 matches Ok(h1) ==> r2 == Ok::<DeviceHandle, GatewayError>(h1),
        r1 matches Err(e1) ==> r2 matches Err(e2) && e2 is Device && e2.message_view()
            == e1.message_view(),
{
}

} // verus!
