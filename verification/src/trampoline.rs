//! The native event trampoline.
//!
//! Each toolkit funnels every native event for the control through one
//! fixed-signature entry point.  The entry point recovers the owning wrapper
//! through the handle registry and redispatches the event: a resize updates
//! the wrapper's recorded extent, a command invocation runs the bound
//! callback, and any event the bridging layer does not understand is passed
//! through to the toolkit's default processing.  A handle that recovers no
//! wrapper — never attached, or detached since — makes the event a no-op:
//! no wrapper is touched and nothing crashes.

use vstd::prelude::*;
use crate::engine::{
    dispatch_post, resize_step, DispatchOutcome, WebviewBindContext, WebviewCallback, Webview,
    WebviewEngine,
};
use crate::registry::{reg_lookup, HandleRegistry};
use crate::text::contains_nul;

verus! {

/// One event the native toolkit delivers against a native handle.
pub enum NativeEvent {
    /// The native widget took a new extent.
    Resize {
        /// The new width.
        width: u16,
        /// The new height.
        height: u16,
    },
    /// Embedded content invoked a bound command; the engine hands back the
    /// bundle's slot key, its request id and the request payload, decoded
    /// from null-terminated native strings.
    Command {
        /// The slot key the command was bound under.
        slot: u64,
        /// The engine-generated request id.
        request_id: String,
        /// The request payload.
        payload: String,
    },
    /// Any event kind the bridging layer does not understand.
    Other,
}

/// The strings of a command event are decodable from null-terminated native
/// strings, so they hold no embedded null.
pub open spec fn event_wf(e: NativeEvent) -> bool {
    match e {
        NativeEvent::Command { slot: _, request_id, payload } => !contains_nul(request_id@)
            && !contains_nul(payload@),
        _ => true,
    }
}

/// What the trampoline did with one native event.
#[derive(Debug)]
pub enum DeliverOutcome {
    /// The handle recovered no wrapper: the event was ignored.
    Ignored,
    /// A resize was recorded; the caller owes the size-changed notification
    /// when the extent changed.
    Resized {
        /// The recorded width.
        width: u16,
        /// The recorded height.
        height: u16,
        /// Whether the recorded extent changed.
        changed: bool,
    },
    /// A command invocation was dispatched.
    Dispatched(DispatchOutcome),
    /// The event is not for the bridging layer: the caller must hand it to
    /// the toolkit's default processing, not swallow it.
    PassThrough,
}

/// The trampoline: recovers the owning wrapper from the native handle and
/// redispatches the event.  Without a recovered wrapper the event is a
/// no-op until a later attach.
pub fn deliver<C: WebviewBindContext, F: WebviewCallback<C>>(
    registry: &HandleRegistry,
    wrappers: &mut Vec<WebviewEngine<C, F>>,
    handle: u64,
    event: &NativeEvent,
) -> (r: DeliverOutcome)
    requires
        forall|k: int| 0 <= k < old(wrappers)@.len() ==> (#[trigger] old(wrappers)@[k]).wf(),
        event_wf(*event),
    ensures
        final(wrappers)@.len() == old(wrappers)@.len(),
        forall|k: int| 0 <= k < final(wrappers)@.len() ==> (#[trigger] final(wrappers)@[k]).wf(),
        reg_lookup(registry@, handle) is None ==> final(wrappers)@ == old(wrappers)@ && r
            is Ignored,
        reg_lookup(registry@, handle) matches Some(i) ==> i >= old(wrappers)@.len()
            ==> final(wrappers)@ == old(wrappers)@ && r is Ignored,
        reg_lookup(registry@, handle) matches Some(i) ==> i < old(wrappers)@.len() ==> {
            &&& forall|k: int|
                0 <= k < old(wrappers)@.len() && k != i
                    ==> final(wrappers)@[k] == old(wrappers)@[k]
            &&& (*event matches NativeEvent::Resize { width, height } ==> {
                &&& final(wrappers)@[i as int]@ == resize_step(
                    old(wrappers)@[i as int]@,
                    width,
                    height,
                )
                &&& r matches DeliverOutcome::Resized { width: rw, height: rh, changed }
                    && rw == width && rh == height && changed == (
                old(wrappers)@[i as int]@.control.measured_w != width
                    || old(wrappers)@[i as int]@.control.measured_h != height)
            })
            &&& (*event matches NativeEvent::Command { slot, request_id, payload } ==> r matches
                DeliverOutcome::Dispatched(d) && dispatch_post(
                old(wrappers)@[i as int]@,
                final(wrappers)@[i as int]@,
                slot,
                request_id@,
                d,
            ))
            &&& (*event is Other ==> final(wrappers)@ == old(wrappers)@ && r is PassThrough)
        },
{
    let target = registry.recover(handle);
    let idx = match target {
        None => {
            return DeliverOutcome::Ignored;
        },
        Some(i) => i,
    };
    if idx >= wrappers.len() {
        return DeliverOutcome::Ignored;
    }
    match event {
        NativeEvent::Resize { width, height } => {
            let w = &mut wrappers[idx];
            let changed = w.on_resize(*width, *height);
            DeliverOutcome::Resized { width: *width, height: *height, changed }
        },
        NativeEvent::Command { slot, request_id, payload } => {
            let w = &mut wrappers[idx];
            let d = w.on_command(*slot, request_id.as_str(), payload.as_str());
            DeliverOutcome::Dispatched(d)
        },
        NativeEvent::Other => DeliverOutcome::PassThrough,
    }
}

} // verus!
