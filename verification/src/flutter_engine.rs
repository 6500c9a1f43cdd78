//! The parts of the Flutter engine glue that are the compositor's own
//! decisions: vsync batons, the intents of the render thread, and the frame
//! timing handed to the engine.
use vstd::prelude::*;

verus! {

/// A vsync request of the Flutter engine. It is neither `Clone` nor `Copy`:
/// the engine must get each baton back exactly once.
#[derive(Debug, PartialEq, Eq)]
pub struct Baton(pub isize);

/// What the Flutter render thread asks of the compositor.
#[derive(Debug, Clone, Copy, PartialEq, Eq)]
pub enum FlutterEngineIntent {
    RequestFramebuffer,
    PresentFramebuffer,
}

impl FlutterEngineIntent {
    /// The number that stands for the intent (its declaration order).
    pub open spec fn spec_code(self) -> u32 {
        match self {
            FlutterEngineIntent::RequestFramebuffer => 0,
            FlutterEngineIntent::PresentFramebuffer => 1,
        }
    }

    /// The intent that `v` stands for; any other number is refused.
    pub fn try_from(v: u32) -> (r: Result<FlutterEngineIntent, ()>)
        ensures
            v == 0 ==> r == Ok::<FlutterEngineIntent, ()>(FlutterEngineIntent::RequestFramebuffer),
            v == 1 ==> r == Ok::<FlutterEngineIntent, ()>(FlutterEngineIntent::PresentFramebuffer),
            v > 1 ==> r == Err::<FlutterEngineIntent, ()>(()),
            r matches Ok(intent) ==> intent.spec_code() == v,
    {
        if v == 0 {
            Ok(FlutterEngineIntent::RequestFramebuffer)
        } else if v == 1 {
            Ok(FlutterEngineIntent::PresentFramebuffer)
        } else {
            Err(())
        }
    }
}

/// The length of a frame at the 144 Hz that the compositor announces, in
/// nanoseconds (rounded down).
pub const FRAME_INTERVAL_NS: u64 = 6_944_444;

/// The frame start and target times sent with a vsync baton when it is
/// returned at engine time `now` (nanoseconds).
pub fn vsync_frame_times(now: u64) -> (r: (u64, u64))
    requires
        now + FRAME_INTERVAL_NS <= u64::MAX,
    ensures
        r.0 == now,
        r.1 == now + 1_000_000_000int / 144,
{
    let next_frame = now + (1_000_000_000 / 144);
    (now, next_frame)
}

/// The engine clock (nanoseconds) divided by a thousand, as the compositor
/// stamps pointer events.
pub fn engine_time_to_event_time(ns: u64) -> (r: u64)
    ensures
        r == ns / 1000,
{
    ns / 1000
}

} // verus!
