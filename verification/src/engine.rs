//! The engine wrapper: command dispatcher, lifecycle-bound closure store,
//! and the outbound surface toward the native web engine.
//!
//! The wrapper owns everything a native engine needs to call back into the
//! host: a table of named bindings, each owning its callback and its context
//! for exactly as long as the binding is active; the set of engine requests
//! dispatched but not yet answered; and the control's recorded layout.  Every
//! call that must reach the native engine is validated here first and then
//! recorded as a [`NativeCall`]; the embedding drains those calls and
//! performs them, so no string holding an embedded null byte ever reaches
//! the native side, and the native side never holds a pointer into the
//! store — commands come back carrying the binding's slot key instead.

use vstd::prelude::*;
use crate::error::{WebviewError, NATIVE_STATUS_UNSPECIFIED};
use crate::layout::{spec_measure, ControlLayout, Margins, SizeRule, Visibility};
use crate::seq_util::{lemma_remove_first_where_is_remove, remove_first_where};
use crate::text::{contains_nul, str_contains_nul};

verus! {

/// One call the embedding must perform against the native engine, in the
/// order the calls were issued.  Every string in a recorded call is free of
/// embedded null bytes.
#[derive(Debug)]
pub enum NativeCall {
    /// Load the given url.
    Navigate {
        /// The url to load.
        url: String,
    },
    /// Set the page content directly.
    SetHtml {
        /// The page content.
        html: String,
    },
    /// Install a script that runs before any page script.
    Init {
        /// The script to install.
        script: String,
    },
    /// Evaluate a script in the current page.
    Eval {
        /// The script to evaluate.
        script: String,
    },
    /// Register the named command; invocations come back carrying the slot
    /// key.
    Bind {
        /// The exposed name.
        name: String,
        /// The slot key of the stored bundle.
        slot: u64,
    },
    /// Unregister the named command.
    Unbind {
        /// The name to unregister.
        name: String,
    },
    /// Answer the request with the given status and payload.
    Return {
        /// The engine-generated request id being answered.
        request_id: String,
        /// The host-chosen status code.
        status: i32,
        /// The answer payload.
        payload: String,
    },
    /// Go back in the page history.
    Back,
    /// Go forward in the page history.
    Forward,
    /// Stop the current load.
    Stop,
    /// Reload the current page.
    Reload,
}

/// The mathematical shape of one recorded native call.
pub ghost enum CallView {
    /// Load the given url.
    Navigate(Seq<char>),
    /// Set the page content directly.
    SetHtml(Seq<char>),
    /// Install a script that runs before any page script.
    Init(Seq<char>),
    /// Evaluate a script in the current page.
    Eval(Seq<char>),
    /// Register a command: name and slot key.
    Bind(Seq<char>, u64),
    /// Unregister a command by name.
    Unbind(Seq<char>),
    /// Answer a request: id, status, payload.
    Return(Seq<char>, i32, Seq<char>),
    /// Go back in the page history.
    Back,
    /// Go forward in the page history.
    Forward,
    /// Stop the current load.
    Stop,
    /// Reload the current page.
    Reload,
}

impl View for NativeCall {
    type V = CallView;

    open spec fn view(&self) -> CallView {
        match self {
            NativeCall::Navigate { url } => CallView::Navigate(url@),
            NativeCall::SetHtml { html } => CallView::SetHtml(html@),
            NativeCall::Init { script } => CallView::Init(script@),
            NativeCall::Eval { script } => CallView::Eval(script@),
            NativeCall::Bind { name, slot } => CallView::Bind(name@, *slot),
            NativeCall::Unbind { name } => CallView::Unbind(name@),
            NativeCall::Return { request_id, status, payload } => CallView::Return(
                request_id@,
                *status,
                payload@,
            ),
            NativeCall::Back => CallView::Back,
            NativeCall::Forward => CallView::Forward,
            NativeCall::Stop => CallView::Stop,
            NativeCall::Reload => CallView::Reload,
        }
    }
}

/// Every string carried by the call is representable in a null-terminated
/// native encoding.
pub open spec fn call_wf(c: CallView) -> bool {
    match c {
        CallView::Navigate(url) => !contains_nul(url),
        CallView::SetHtml(html) => !contains_nul(html),
        CallView::Init(script) => !contains_nul(script),
        CallView::Eval(script) => !contains_nul(script),
        CallView::Bind(name, _) => !contains_nul(name),
        CallView::Unbind(name) => !contains_nul(name),
        CallView::Return(id, _, payload) => !contains_nul(id) && !contains_nul(payload),
        _ => true,
    }
}

/// Marker for a type usable as the shared context of a binding.
pub trait WebviewBindContext {

}

/// The answer a callback can give synchronously: it is delivered to the
/// native engine as a return call for the dispatched request.
pub struct CommandResponse {
    /// The host-chosen status code.
    pub status: i32,
    /// The answer payload.
    pub payload: String,
}

/// A host-side command callback.  The dispatcher invokes it with the
/// engine-generated request id, the request payload, and exclusive access to
/// the binding's context; answering immediately is optional, and a request
/// left unanswered can be answered later through the wrapper's return call.
pub trait WebviewCallback<C>: Sized {
    /// Handles one invocation of the bound name.
    fn invoke(&mut self, request_id: &str, payload: &str, context: &mut C) -> Option<
        CommandResponse,
    >;
}

/// One live binding: the exposed name, the slot key the native engine hands
/// back on invocation, and the owned callback and context.
struct Binding<C, F> {
    name: String,
    slot: u64,
    context: C,
    callback: F,
}

/// One live binding as the contracts see it: the exposed name, the slot
/// key, and the very context and callback values the store owns for it.
pub ghost struct BindingView<C, F> {
    /// The exposed name.
    pub name: Seq<char>,
    /// The slot key of the stored bundle.
    pub slot: u64,
    /// The context the store owns for the binding.
    pub context: C,
    /// The callback the store owns for the binding.
    pub callback: F,
}

/// The mathematical state of an engine wrapper.
pub ghost struct EngineView<C, F> {
    /// The live bindings, oldest first, each with its owned bundle.
    pub bindings: Seq<BindingView<C, F>>,
    /// Request ids dispatched and not yet answered.
    pub pending: Seq<Seq<char>>,
    /// Calls recorded for the native engine, oldest first.
    pub calls: Seq<CallView>,
    /// The slot key the next successful bind takes.
    pub next_slot: u64,
    /// The control's recorded layout.
    pub control: ControlLayout,
}

/// Whether some live binding carries the name.
pub open spec fn has_binding<C, F>(s: EngineView<C, F>, name: Seq<char>) -> bool {
    exists|i: int| 0 <= i < s.bindings.len() && s.bindings[i].name == name
}

/// Whether some live binding carries the slot key.
pub open spec fn has_slot<C, F>(s: EngineView<C, F>, slot: u64) -> bool {
    exists|i: int| 0 <= i < s.bindings.len() && s.bindings[i].slot == slot
}

/// Whether the request id is dispatched and unanswered.
pub open spec fn pending_has<C, F>(s: EngineView<C, F>, id: Seq<char>) -> bool {
    exists|i: int| 0 <= i < s.pending.len() && s.pending[i] == id
}

/// The predicate picking out the bindings that carry the given name.
pub open spec fn name_pred<C, F>(name: Seq<char>) -> spec_fn(BindingView<C, F>) -> bool {
    |b: BindingView<C, F>| b.name == name
}

/// The predicate picking out the pending entries equal to the given id.
pub open spec fn id_pred(id: Seq<char>) -> spec_fn(Seq<char>) -> bool {
    |p: Seq<char>| p == id
}

/// Well-formedness of an engine state: binding names are unique, slot keys
/// are unique and below the next free one, pending ids are unique, and every
/// recorded string can cross the native boundary.
pub open spec fn wf_view<C, F>(s: EngineView<C, F>) -> bool {
    &&& forall|i: int, j: int|
        0 <= i < j < s.bindings.len() ==> s.bindings[i].name != s.bindings[j].name
    &&& forall|i: int, j: int|
        0 <= i < j < s.bindings.len() ==> s.bindings[i].slot != s.bindings[j].slot
    &&& forall|i: int|
        0 <= i < s.bindings.len() ==> s.bindings[i].slot < s.next_slot && !contains_nul(
            s.bindings[i].name,
        )
    &&& forall|i: int, j: int| 0 <= i < j < s.pending.len() ==> s.pending[i] != s.pending[j]
    &&& forall|i: int| 0 <= i < s.pending.len() ==> !contains_nul(s.pending[i])
    &&& forall|i: int| 0 <= i < s.calls.len() ==> call_wf(s.calls[i])
}

/// The state of a freshly constructed wrapper: nothing bound, nothing
/// pending, nothing recorded, and a default layout.
pub open spec fn fresh_engine_view<C, F>() -> EngineView<C, F> {
    EngineView {
        bindings: Seq::empty(),
        pending: Seq::empty(),
        calls: Seq::empty(),
        next_slot: 0,
        control: ControlLayout {
            visibility: Visibility::Visible,
            width: SizeRule::MatchParent,
            height: SizeRule::MatchParent,
            measured_w: 0,
            measured_h: 0,
        },
    }
}

/// Whether a string argument can cross into the native engine; an embedded
/// null byte is rejected locally as an invalid argument.
pub open spec fn text_arg_outcome(arg: Seq<char>) -> Result<(), WebviewError> {
    if contains_nul(arg) {
        Err(WebviewError::InvalidArgument)
    } else {
        Ok(())
    }
}

/// The state with one more recorded call.
pub open spec fn emit_step<C, F>(s: EngineView<C, F>, call: CallView) -> EngineView<C, F> {
    EngineView {
        bindings: s.bindings,
        pending: s.pending,
        calls: s.calls.push(call),
        next_slot: s.next_slot,
        control: s.control,
    }
}

/// The state after a navigation request: the call is recorded unless the
/// url is rejected.
pub open spec fn navigate_step<C, F>(s: EngineView<C, F>, url: Seq<char>) -> EngineView<C, F> {
    if contains_nul(url) {
        s
    } else {
        emit_step(s, CallView::Navigate(url))
    }
}

/// The state after a set-html request.
pub open spec fn set_html_step<C, F>(s: EngineView<C, F>, html: Seq<char>) -> EngineView<C, F> {
    if contains_nul(html) {
        s
    } else {
        emit_step(s, CallView::SetHtml(html))
    }
}

/// The state after an init-script request.
pub open spec fn init_step<C, F>(s: EngineView<C, F>, script: Seq<char>) -> EngineView<C, F> {
    if contains_nul(script) {
        s
    } else {
        emit_step(s, CallView::Init(script))
    }
}

/// The state after an eval request.
pub open spec fn eval_step<C, F>(s: EngineView<C, F>, script: Seq<char>) -> EngineView<C, F> {
    if contains_nul(script) {
        s
    } else {
        emit_step(s, CallView::Eval(script))
    }
}

/// What a bind request reports: a name with an embedded null is rejected
/// locally; a name already bound is rejected as a duplicate, leaving the
/// original binding intact; a wrapper whose slot-key space is exhausted
/// reports an unclassified failure.
pub open spec fn bind_outcome<C, F>(s: EngineView<C, F>, name: Seq<char>) -> Result<(), WebviewError> {
    if contains_nul(name) {
        Err(WebviewError::InvalidArgument)
    } else if has_binding(s, name) {
        Err(WebviewError::Duplicate)
    } else if s.next_slot == u64::MAX {
        Err(WebviewError::Unspecified(NATIVE_STATUS_UNSPECIFIED))
    } else {
        Ok(())
    }
}

/// The state after a bind request: on success the bundle is stored under a
/// fresh slot key and the registration is recorded; on failure nothing
/// changes.
pub open spec fn bind_step<C, F>(
    s: EngineView<C, F>,
    name: Seq<char>,
    context: C,
    callback: F,
) -> EngineView<C, F> {
    if bind_outcome(s, name) is Ok {
        EngineView {
            bindings: s.bindings.push(BindingView { name, slot: s.next_slot, context, callback }),
            pending: s.pending,
            calls: s.calls.push(CallView::Bind(name, s.next_slot)),
            next_slot: (s.next_slot + 1) as u64,
            control: s.control,
        }
    } else {
        s
    }
}

/// What an unbind request reports: a name with an embedded null is rejected
/// locally, and a name not bound does not exist.
pub open spec fn unbind_outcome<C, F>(s: EngineView<C, F>, name: Seq<char>) -> Result<(), WebviewError> {
    if contains_nul(name) {
        Err(WebviewError::InvalidArgument)
    } else if !has_binding(s, name) {
        Err(WebviewError::NotFound)
    } else {
        Ok(())
    }
}

/// The state after an unbind request: on success the binding is gone — its
/// callback and context released with it — and the deregistration is
/// recorded; on failure nothing changes.
pub open spec fn unbind_step<C, F>(s: EngineView<C, F>, name: Seq<char>) -> EngineView<C, F> {
    if unbind_outcome(s, name) is Ok {
        EngineView {
            bindings: remove_first_where(s.bindings, name_pred(name)),
            pending: s.pending,
            calls: s.calls.push(CallView::Unbind(name)),
            next_slot: s.next_slot,
            control: s.control,
        }
    } else {
        s
    }
}

/// What a return request reports: strings with an embedded null are
/// rejected locally, and a request id that was never dispatched, or was
/// already answered, is an invalid state.
pub open spec fn return_outcome<C, F>(
    s: EngineView<C, F>,
    id: Seq<char>,
    payload: Seq<char>,
) -> Result<(), WebviewError> {
    if contains_nul(id) || contains_nul(payload) {
        Err(WebviewError::InvalidArgument)
    } else if !pending_has(s, id) {
        Err(WebviewError::InvalidState)
    } else {
        Ok(())
    }
}

/// The state after a return request: on success the request is no longer
/// pending and the answer is recorded; on failure nothing changes.
pub open spec fn return_step<C, F>(
    s: EngineView<C, F>,
    id: Seq<char>,
    status: i32,
    payload: Seq<char>,
) -> EngineView<C, F> {
    if return_outcome(s, id, payload) is Ok {
        EngineView {
            bindings: s.bindings,
            pending: remove_first_where(s.pending, id_pred(id)),
            calls: s.calls.push(CallView::Return(id, status, payload)),
            next_slot: s.next_slot,
            control: s.control,
        }
    } else {
        s
    }
}

/// The pending list once a command invocation for the id has been taken in:
/// the id is registered unless the engine reused a pending id.
pub open spec fn pending_after_invoke<C, F>(s: EngineView<C, F>, id: Seq<char>) -> Seq<Seq<char>> {
    if pending_has(s, id) {
        s.pending
    } else {
        s.pending.push(id)
    }
}

/// What one trampoline dispatch did.
#[derive(Debug)]
pub enum DispatchOutcome {
    /// No bundle carries the slot key: the event was ignored.
    Stale,
    /// The callback ran and left the request to be answered later.
    NoResponse,
    /// The callback answered: a return call with this status and payload was
    /// recorded for the request.
    Answered {
        /// The status the callback chose.
        status: i32,
        /// The payload the callback chose.
        payload: String,
    },
    /// The callback answered with a payload holding an embedded null: no
    /// native call was recorded and the request stays pending.
    ResponseRejected,
}

/// Only the bundle stored under the slot key was handed to its callback:
/// some binding carries the slot, every other binding is untouched — its
/// owned context and callback included — and the invoked binding keeps its
/// name and its slot key, only its context and callback taking whatever
/// values the invocation left in them.
pub open spec fn dispatch_bindings_post<C, F>(
    pre: Seq<BindingView<C, F>>,
    post: Seq<BindingView<C, F>>,
    slot: u64,
) -> bool {
    exists|j: int|
        {
            &&& 0 <= j < pre.len()
            &&& #[trigger] pre[j].slot == slot
            &&& post.len() == pre.len()
            &&& (forall|k: int| 0 <= k < pre.len() && k != j ==> post[k] == pre[k])
            &&& post[j].name == pre[j].name
            &&& post[j].slot == slot
        }
}

/// How a dispatch relates the state before it, the state after it, and its
/// outcome: a stale slot changes nothing; otherwise exactly the slot's own
/// bundle was invoked, the request id becomes pending, and a synchronous
/// answer is settled exactly as [`WebviewEngine::settle_response`] settles
/// it.
pub open spec fn dispatch_post<C, F>(
    pre: EngineView<C, F>,
    post: EngineView<C, F>,
    slot: u64,
    id: Seq<char>,
    r: DispatchOutcome,
) -> bool {
    &&& (r is Stale <==> !has_slot(pre, slot))
    &&& (r is Stale ==> post == pre)
    &&& (!(r is Stale) ==> {
        &&& dispatch_bindings_post(pre.bindings, post.bindings, slot)
        &&& post.next_slot == pre.next_slot
        &&& post.control == pre.control
        &&& (r is NoResponse ==> post.pending == pending_after_invoke(pre, id) && post.calls
            == pre.calls)
        &&& (r is ResponseRejected ==> post.pending == pending_after_invoke(pre, id)
            && post.calls == pre.calls)
        &&& (r matches DispatchOutcome::Answered { status, payload } ==> {
            &&& !contains_nul(payload@)
            &&& post.pending == remove_first_where(
                pending_after_invoke(pre, id),
                id_pred(id),
            )
            &&& post.calls == pre.calls.push(CallView::Return(id, status, payload@))
        })
    })
}

/// The abstraction-level control instance: owns the binding store, the
/// pending requests, the recorded outbound calls, and the control's layout.
pub struct WebviewEngine<C, F> {
    bindings: Vec<Binding<C, F>>,
    pending: Vec<String>,
    actions: Vec<NativeCall>,
    next_slot: u64,
    control: ControlLayout,
}

impl<C, F> View for WebviewEngine<C, F> {
    type V = EngineView<C, F>;

    closed spec fn view(&self) -> EngineView<C, F> {
        EngineView {
            bindings: self.bindings@.map_values(
                |b: Binding<C, F>| BindingView {
                    name: b.name@,
                    slot: b.slot,
                    context: b.context,
                    callback: b.callback,
                },
            ),
            pending: self.pending@.map_values(|p: String| p@),
            calls: self.actions@.map_values(|c: NativeCall| c@),
            next_slot: self.next_slot,
            control: self.control,
        }
    }
}

impl<C: WebviewBindContext, F: WebviewCallback<C>> WebviewEngine<C, F> {
    /// Well-formedness of the wrapper; constructors establish it and every
    /// operation preserves it.
    pub open spec fn wf(self) -> bool {
        wf_view(self@)
    }

    /// A freshly constructed wrapper around a native engine.
    pub fn new() -> (r: WebviewEngine<C, F>)
        ensures
            r.wf(),
            r@ == fresh_engine_view::<C, F>(),
    {
        let r = WebviewEngine {
            bindings: Vec::new(),
            pending: Vec::new(),
            actions: Vec::new(),
            next_slot: 0,
            control: ControlLayout::new(),
        };
        proof {
            assert(r@.bindings =~= fresh_engine_view::<C, F>().bindings);
            assert(r@.pending =~= fresh_engine_view::<C, F>().pending);
            assert(r@.calls =~= fresh_engine_view::<C, F>().calls);
        }
        r
    }


    /// Finds the position of the binding carrying the name, if any.
    fn name_position(&self, name: &str) -> (r: Option<usize>)
        ensures
            match r {
                Some(i) => i < self@.bindings.len() && self@.bindings[i as int].name == name@ && (
                forall|j: int| 0 <= j < i ==> self@.bindings[j].name != name@),
                None => forall|j: int|
                    0 <= j < self@.bindings.len() ==> self@.bindings[j].name != name@,
            },
    {
        let name_s = name.to_owned();
        let n = self.bindings.len();
        let mut i: usize = 0;
        while i < n
            invariant
                n == self@.bindings.len(),
                i <= n,
                name_s@ == name@,
                forall|j: int| 0 <= j < i ==> self@.bindings[j].name != name@,
            decreases n - i,
        {
            if self.bindings[i].name == name_s {
                return Some(i);
            }
            i = i + 1;
        }
        None
    }

    /// Finds the position of the binding carrying the slot key, if any.
    fn slot_position(&self, slot: u64) -> (r: Option<usize>)
        ensures
            match r {
                Some(i) => i < self@.bindings.len() && self@.bindings[i as int].slot == slot,
                None => forall|j: int|
                    0 <= j < self@.bindings.len() ==> self@.bindings[j].slot != slot,
            },
    {
        let n = self.bindings.len();
        let mut i: usize = 0;
        while i < n
            invariant
                n == self@.bindings.len(),
                i <= n,
                forall|j: int| 0 <= j < i ==> self@.bindings[j].slot != slot,
            decreases n - i,
        {
            if self.bindings[i].slot == slot {
                return Some(i);
            }
            i = i + 1;
        }
        None
    }

    /// Finds the position of the pending request id, if it is pending.
    fn pending_position(&self, id: &str) -> (r: Option<usize>)
        ensures
            match r {
                Some(i) => i < self@.pending.len() && self@.pending[i as int] == id@ && (forall|
                    j: int,
                |
                    0 <= j < i ==> self@.pending[j] != id@),
                None => forall|j: int| 0 <= j < self@.pending.len() ==> self@.pending[j] != id@,
            },
    {
        let id_s = id.to_owned();
        let n = self.pending.len();
        let mut i: usize = 0;
        while i < n
            invariant
                n == self@.pending.len(),
                i <= n,
                id_s@ == id@,
                forall|j: int| 0 <= j < i ==> self@.pending[j] != id@,
            decreases n - i,
        {
            if self.pending[i] == id_s {
                return Some(i);
            }
            i = i + 1;
        }
        None
    }

    /// Whether the name is currently bound.
    pub fn is_bound(&self, name: &str) -> (r: bool)
        ensures
            r == has_binding(self@, name@),
    {
        match self.name_position(name) {
            Some(i) => {
                proof {
                    assert(self@.bindings[i as int].name == name@);
                }
                true
            },
            None => false,
        }
    }

    /// Whether the request id is dispatched and unanswered.
    pub fn is_pending(&self, id: &str) -> (r: bool)
        ensures
            r == pending_has(self@, id@),
    {
        match self.pending_position(id) {
            Some(i) => {
                proof {
                    assert(self@.pending[i as int] == id@);
                }
                true
            },
            None => false,
        }
    }

    /// The slot key under which the name is bound, if it is.
    pub fn bound_slot(&self, name: &str) -> (r: Option<u64>)
        ensures
            match r {
                Some(slot) => exists|i: int|
                    0 <= i < self@.bindings.len() && self@.bindings[i].name == name@
                        && self@.bindings[i].slot == slot,
                None => !has_binding(self@, name@),
            },
    {
        match self.name_position(name) {
            Some(i) => {
                let slot = self.bindings[i].slot;
                proof {
                    assert(self@.bindings[i as int].name == name@ && self@.bindings[
                        i as int
                    ].slot == slot);
                }
                Some(slot)
            },
            None => None,
        }
    }

    /// How many bindings are live.
    pub fn binding_count(&self) -> (r: usize)
        ensures
            r == self@.bindings.len(),
    {
        self.bindings.len()
    }

    /// How many requests are dispatched and unanswered.
    pub fn pending_count(&self) -> (r: usize)
        ensures
            r == self@.pending.len(),
    {
        self.pending.len()
    }

    /// How many native calls are recorded and not yet drained.
    pub fn call_count(&self) -> (r: usize)
        ensures
            r == self@.calls.len(),
    {
        self.actions.len()
    }

    /// The extent of the last measurement or resize.
    pub fn measured(&self) -> (r: (u16, u16))
        ensures
            r.0 == self@.control.measured_w,
            r.1 == self@.control.measured_h,
    {
        (self.control.measured_w, self.control.measured_h)
    }

    /// Hands the recorded native calls out, in order, for the embedding to
    /// perform; the record is empty afterwards.
    pub fn take_actions(&mut self) -> (calls: Vec<NativeCall>)
        requires
            old(self).wf(),
        ensures
            final(self).wf(),
            calls@.map_values(|c: NativeCall| c@) == old(self)@.calls,
            final(self)@ == drain_step(old(self)@),
    {
        let mut drained: Vec<NativeCall> = Vec::new();
        core::mem::swap(&mut drained, &mut self.actions);
        proof {
            assert(self@.calls =~= Seq::<CallView>::empty());
        }
        drained
    }

    /// Records the extent a native resize event delivered and reports
    /// whether it changed.
    pub fn on_resize(&mut self, width: u16, height: u16) -> (changed: bool)
        requires
            old(self).wf(),
        ensures
            final(self).wf(),
            final(self)@ == resize_step(old(self)@, width, height),
            changed == (old(self)@.control.measured_w != width || old(self)@.control.measured_h
                != height),
    {
        let changed = self.control.measured_w != width || self.control.measured_h != height;
        self.control.measured_w = width;
        self.control.measured_h = height;
        changed
    }

    /// Measures the control against the parent's extent and records the
    /// result; see [`crate::layout::ControlLayout::measure`].
    pub fn measure(&mut self, margins: Margins, parent_w: u16, parent_h: u16) -> (r: (
        u16,
        u16,
        bool,
    ))
        requires
            old(self).wf(),
        ensures
            final(self).wf(),
            final(self)@ == measure_step(old(self)@, margins, parent_w, parent_h),
            r.0 == final(self)@.control.measured_w,
            r.1 == final(self)@.control.measured_h,
            r.2 == (final(self)@.control.measured_w != old(self)@.control.measured_w
                || final(self)@.control.measured_h != old(self)@.control.measured_h),
    {
        self.control.measure(margins, parent_w, parent_h)
    }

    /// Assigns the control's visibility and layout rules; the recorded
    /// extent is kept until the next measurement.
    pub fn set_layout(&mut self, visibility: Visibility, width: SizeRule, height: SizeRule)
        requires
            old(self).wf(),
        ensures
            final(self).wf(),
            final(self)@ == layout_step(old(self)@, visibility, width, height),
    {
        self.control.visibility = visibility;
        self.control.width = width;
        self.control.height = height;
    }

    /// The trampoline's command path: a native command invocation arrived
    /// carrying the slot key of the bundle, the engine-generated request id,
    /// and the request payload.  The bundle is recovered by its slot key; a
    /// stale key — one whose binding is gone — is ignored.  Otherwise the
    /// request becomes pending and the callback runs with exclusive access
    /// to its context; a synchronous answer is recorded for the native
    /// engine as a return call.
    ///
    /// The id and payload are decoded from null-terminated native strings,
    /// so they hold no embedded null.
    pub fn on_command(&mut self, slot: u64, request_id: &str, payload: &str) -> (r:
        DispatchOutcome)
        requires
            old(self).wf(),
            !contains_nul(request_id@),
            !contains_nul(payload@),
        ensures
            final(self).wf(),
            dispatch_post(old(self)@, final(self)@, slot, request_id@, r),
    {
        let idx = match self.slot_position(slot) {
            None => {
                return DispatchOutcome::Stale;
            },
            Some(i) => i,
        };
        proof {
            assert(has_slot(self@, slot));
        }
        if !self.is_pending(request_id) {
            self.pending.push(request_id.to_owned());
            proof {
                assert(self@.pending =~= old(self)@.pending.push(request_id@));
            }
        }
        proof {
            assert(self@.pending == pending_after_invoke(old(self)@, request_id@));
            if pending_has(old(self)@, request_id@) {
                assert(pending_has(self@, request_id@));
            } else {
                assert(self@.pending[self@.pending.len() - 1] == request_id@);
                assert(pending_has(self@, request_id@));
                assert forall|x: int, y: int|
                    0 <= x < y < self@.pending.len() implies self@.pending[x]
                    != self@.pending[y] by {
                    if y == self@.pending.len() - 1 {
                        assert(old(self)@.pending[x] != request_id@);
                    }
                }
                assert forall|x: int|
                    0 <= x < self@.pending.len() implies !contains_nul(
                    #[trigger] self@.pending[x],
                ) by {
                    if x < self@.pending.len() - 1 {
                        assert(self@.pending[x] == old(self)@.pending[x]);
                    }
                }
            }
            assert(self@.calls == old(self)@.calls);
            assert(self.wf());
        }
        let ghost mid = self@;
        let b = &mut self.bindings[idx];
        let resp = b.callback.invoke(request_id, payload, &mut b.context);
        proof {
            // only the bundle under the slot key was handed to its callback
            assert(self@.pending == mid.pending);
            assert(self@.calls == mid.calls);
            assert(self@.bindings.len() == mid.bindings.len());
            assert(forall|k: int|
                0 <= k < mid.bindings.len() && k != idx ==> self@.bindings[k]
                    == mid.bindings[k]);
            assert(self@.bindings[idx as int].name == mid.bindings[idx as int].name);
            assert(self@.bindings[idx as int].slot == slot);
            assert forall|k: int|
                0 <= k < self@.bindings.len() implies #[trigger] self@.bindings[k].name
                == mid.bindings[k].name && self@.bindings[k].slot == mid.bindings[k].slot by {
                if k != idx {
                    assert(self@.bindings[k] == mid.bindings[k]);
                }
            }
            assert(pending_has(self@, request_id@));
            assert forall|x: int, y: int|
                0 <= x < y < self@.bindings.len() implies self@.bindings[x].name
                != self@.bindings[y].name && self@.bindings[x].slot != self@.bindings[y].slot by {
                assert(mid.bindings[x].name != mid.bindings[y].name);
                assert(mid.bindings[x].slot != mid.bindings[y].slot);
            }
            assert forall|x: int|
                0 <= x < self@.bindings.len() implies #[trigger] self@.bindings[x].slot
                < self@.next_slot && !contains_nul(self@.bindings[x].name) by {
                assert(mid.bindings[x].slot < mid.next_slot && !contains_nul(
                    mid.bindings[x].name,
                ));
            }
            assert(self.wf());
            assert(dispatch_bindings_post(mid.bindings, self@.bindings, slot));
        }
        let ghost invoked = self@;
        let outcome = self.settle_response(request_id, resp);
        proof {
            assert(invoked.bindings == final(self)@.bindings);
            assert(dispatch_bindings_post(old(self)@.bindings, final(self)@.bindings, slot));
        }
        outcome
    }

    /// The dispatcher's settling step: what the library does with the
    /// response the invoked callback handed back for a pending request.  No
    /// response leaves the request pending for a later return call; a
    /// response whose payload holds an embedded null is rejected, with no
    /// native call and the request still pending; any other response is
    /// delivered — the request is answered and the return call recorded with
    /// exactly the callback's status and payload.
    pub fn settle_response(&mut self, request_id: &str, response: Option<CommandResponse>) -> (r:
        DispatchOutcome)
        requires
            old(self).wf(),
            !contains_nul(request_id@),
            pending_has(old(self)@, request_id@),
        ensures
            final(self).wf(),
            response is None ==> r is NoResponse && final(self)@ == old(self)@,
            response matches Some(cr) ==> contains_nul(cr.payload@) ==> r is ResponseRejected
                && final(self)@ == old(self)@,
            response matches Some(cr) ==> !contains_nul(cr.payload@) ==> (r matches
                DispatchOutcome::Answered { status, payload } && status == cr.status && payload@
                == cr.payload@) && final(self)@ == return_step(
                old(self)@,
                request_id@,
                cr.status,
                cr.payload@,
            ),
    {
        match response {
            None => DispatchOutcome::NoResponse,
            Some(cr) => {
                if str_contains_nul(cr.payload.as_str()) {
                    DispatchOutcome::ResponseRejected
                } else {
                    let _ = self.return_(request_id, cr.status, cr.payload.as_str());
                    DispatchOutcome::Answered { status: cr.status, payload: cr.payload }
                }
            },
        }
    }
}

/// The state with the recorded calls drained.
pub open spec fn drain_step<C, F>(s: EngineView<C, F>) -> EngineView<C, F> {
    EngineView {
        bindings: s.bindings,
        pending: s.pending,
        calls: Seq::empty(),
        next_slot: s.next_slot,
        control: s.control,
    }
}

/// The state after a native resize event: only the recorded extent changes.
pub open spec fn resize_step<C, F>(s: EngineView<C, F>, width: u16, height: u16) -> EngineView<C, F> {
    EngineView {
        bindings: s.bindings,
        pending: s.pending,
        calls: s.calls,
        next_slot: s.next_slot,
        control: ControlLayout {
            visibility: s.control.visibility,
            width: s.control.width,
            height: s.control.height,
            measured_w: width,
            measured_h: height,
        },
    }
}

/// The state after a measurement: the recorded extent follows the layout
/// arithmetic of [`crate::layout::spec_measure`].
pub open spec fn measure_step<C, F>(
    s: EngineView<C, F>,
    m: Margins,
    parent_w: u16,
    parent_h: u16,
) -> EngineView<C, F> {
    EngineView {
        bindings: s.bindings,
        pending: s.pending,
        calls: s.calls,
        next_slot: s.next_slot,
        control: ControlLayout {
            visibility: s.control.visibility,
            width: s.control.width,
            height: s.control.height,
            measured_w: spec_measure(s.control, m, parent_w, parent_h).0,
            measured_h: spec_measure(s.control, m, parent_w, parent_h).1,
        },
    }
}

/// The state after the layout rules are assigned.
pub open spec fn layout_step<C, F>(
    s: EngineView<C, F>,
    visibility: Visibility,
    width: SizeRule,
    height: SizeRule,
) -> EngineView<C, F> {
    EngineView {
        bindings: s.bindings,
        pending: s.pending,
        calls: s.calls,
        next_slot: s.next_slot,
        control: ControlLayout {
            visibility,
            width,
            height,
            measured_w: s.control.measured_w,
            measured_h: s.control.measured_h,
        },
    }
}

/// The toolkit-independent surface of a webview control toward the native
/// engine: navigation, page content, scripts, and history, each validated
/// locally before anything is recorded for the native side.
pub trait Webview<C, F>: View<V = EngineView<C, F>> + Sized {
    /// Well-formedness of the wrapper's state; constructors establish it
    /// and every operation preserves it.
    spec fn wf(self) -> bool;

    /// Requests navigation to the url; rejected locally, with no native
    /// call, when the url holds an embedded null.
    fn navigate(&mut self, url: &str) -> (r: Result<(), WebviewError>)
        requires
            old(self).wf(),
        ensures
            final(self).wf(),
            r == text_arg_outcome(url@),
            final(self)@ == navigate_step(old(self)@, url@),
    ;

    /// Requests the page content to be set; rejected locally when the
    /// content holds an embedded null.
    fn set_html(&mut self, html: &str) -> (r: Result<(), WebviewError>)
        requires
            old(self).wf(),
        ensures
            final(self).wf(),
            r == text_arg_outcome(html@),
            final(self)@ == set_html_step(old(self)@, html@),
    ;

    /// Requests a script to be installed ahead of page scripts; rejected
    /// locally when the script holds an embedded null.
    fn init(&mut self, script: &str) -> (r: Result<(), WebviewError>)
        requires
            old(self).wf(),
        ensures
            final(self).wf(),
            r == text_arg_outcome(script@),
            final(self)@ == init_step(old(self)@, script@),
    ;

    /// Requests a script evaluation; rejected locally when the script holds
    /// an embedded null.
    fn eval(&mut self, script: &str) -> (r: Result<(), WebviewError>)
        requires
            old(self).wf(),
        ensures
            final(self).wf(),
            r == text_arg_outcome(script@),
            final(self)@ == eval_step(old(self)@, script@),
    ;

    /// Requests one step back in the page history.
    fn back(&mut self) -> (r: Result<(), WebviewError>)
        requires
            old(self).wf(),
        ensures
            final(self).wf(),
            r == Ok::<(), WebviewError>(()),
            final(self)@ == emit_step(old(self)@, CallView::Back),
    ;

    /// Requests one step forward in the page history.
    fn forward(&mut self) -> (r: Result<(), WebviewError>)
        requires
            old(self).wf(),
        ensures
            final(self).wf(),
            r == Ok::<(), WebviewError>(()),
            final(self)@ == emit_step(old(self)@, CallView::Forward),
    ;

    /// Requests the current load to stop.
    fn stop(&mut self) -> (r: Result<(), WebviewError>)
        requires
            old(self).wf(),
        ensures
            final(self).wf(),
            r == Ok::<(), WebviewError>(()),
            final(self)@ == emit_step(old(self)@, CallView::Stop),
    ;

    /// Requests the current page to reload.
    fn reload(&mut self) -> (r: Result<(), WebviewError>)
        requires
            old(self).wf(),
        ensures
            final(self).wf(),
            r == Ok::<(), WebviewError>(()),
            final(self)@ == emit_step(old(self)@, CallView::Reload),
    ;
}

/// The command interface of a webview control: named host functions that
/// embedded content can invoke, and the asynchronous answer path.
pub trait WebviewExt<C: WebviewBindContext, F: WebviewCallback<C>>: Webview<C, F> {
    /// Exposes the callback under the name.  A name holding an embedded
    /// null is rejected locally; a name already bound is rejected as a
    /// duplicate and the original binding stays intact — the caller must
    /// unbind first.  Either way a rejected bundle is released immediately,
    /// never stored.  On success the store owns the callback and the
    /// context until the binding ends.
    fn bind(&mut self, name: &str, context: C, callback: F) -> (r: Result<(), WebviewError>)
        requires
            old(self).wf(),
        ensures
            final(self).wf(),
            r == bind_outcome(old(self)@, name@),
            final(self)@ == bind_step(old(self)@, name@, context, callback),
    ;

    /// Removes the binding, releasing its callback and context exactly
    /// once; a name not bound reports that nothing was found.
    fn unbind(&mut self, name: &str) -> (r: Result<(), WebviewError>)
        requires
            old(self).wf(),
        ensures
            final(self).wf(),
            r == unbind_outcome(old(self)@, name@),
            final(self)@ == unbind_step(old(self)@, name@),
    ;

    /// Answers a dispatched request.  A request id that was never
    /// dispatched, or was already answered, is an invalid state; strings
    /// holding an embedded null are rejected locally.
    fn return_(&mut self, id: &str, status: i32, result: &str) -> (r: Result<(), WebviewError>)
        requires
            old(self).wf(),
        ensures
            final(self).wf(),
            r == return_outcome(old(self)@, id@, result@),
            final(self)@ == return_step(old(self)@, id@, status, result@),
    ;
}

impl<C: WebviewBindContext, F: WebviewCallback<C>> Webview<C, F> for WebviewEngine<C, F> {
    open spec fn wf(self) -> bool {
        wf_view(self@)
    }

    fn navigate(&mut self, url: &str) -> Result<(), WebviewError> {
        if str_contains_nul(url) {
            return Err(WebviewError::InvalidArgument);
        }
        self.actions.push(NativeCall::Navigate { url: url.to_owned() });
        proof {
            assert(self@.calls =~= old(self)@.calls.push(CallView::Navigate(url@)));
        }
        Ok(())
    }

    fn set_html(&mut self, html: &str) -> Result<(), WebviewError> {
        if str_contains_nul(html) {
            return Err(WebviewError::InvalidArgument);
        }
        self.actions.push(NativeCall::SetHtml { html: html.to_owned() });
        proof {
            assert(self@.calls =~= old(self)@.calls.push(CallView::SetHtml(html@)));
        }
        Ok(())
    }

    fn init(&mut self, script: &str) -> Result<(), WebviewError> {
        if str_contains_nul(script) {
            return Err(WebviewError::InvalidArgument);
        }
        self.actions.push(NativeCall::Init { script: script.to_owned() });
        proof {
            assert(self@.calls =~= old(self)@.calls.push(CallView::Init(script@)));
        }
        Ok(())
    }

    fn eval(&mut self, script: &str) -> Result<(), WebviewError> {
        if str_contains_nul(script) {
            return Err(WebviewError::InvalidArgument);
        }
        self.actions.push(NativeCall::Eval { script: script.to_owned() });
        proof {
            assert(self@.calls =~= old(self)@.calls.push(CallView::Eval(script@)));
        }
        Ok(())
    }

    fn back(&mut self) -> Result<(), WebviewError> {
        self.actions.push(NativeCall::Back);
        proof {
            assert(self@.calls =~= old(self)@.calls.push(CallView::Back));
        }
        Ok(())
    }

    fn forward(&mut self) -> Result<(), WebviewError> {
        self.actions.push(NativeCall::Forward);
        proof {
            assert(self@.calls =~= old(self)@.calls.push(CallView::Forward));
        }
        Ok(())
    }

    fn stop(&mut self) -> Result<(), WebviewError> {
        self.actions.push(NativeCall::Stop);
        proof {
            assert(self@.calls =~= old(self)@.calls.push(CallView::Stop));
        }
        Ok(())
    }

    fn reload(&mut self) -> Result<(), WebviewError> {
        self.actions.push(NativeCall::Reload);
        proof {
            assert(self@.calls =~= old(self)@.calls.push(CallView::Reload));
        }
        Ok(())
    }
}

impl<C: WebviewBindContext, F: WebviewCallback<C>> WebviewExt<C, F> for WebviewEngine<C, F> {
    fn bind(&mut self, name: &str, context: C, callback: F) -> Result<(), WebviewError> {
        if str_contains_nul(name) {
            return Err(WebviewError::InvalidArgument);
        }
        if self.is_bound(name) {
            // the rejected bundle is dropped here: released immediately,
            // never stored, and the original binding stays intact
            return Err(WebviewError::Duplicate);
        }
        if self.next_slot == u64::MAX {
            return Err(WebviewError::Unspecified(NATIVE_STATUS_UNSPECIFIED));
        }
        let ghost stored_context = context;
        let ghost stored_callback = callback;
        let slot = self.next_slot;
        self.next_slot = slot + 1;
        self.bindings.push(Binding { name: name.to_owned(), slot, context, callback });
        self.actions.push(NativeCall::Bind { name: name.to_owned(), slot });
        proof {
            assert(self@.bindings =~= old(self)@.bindings.push(
                BindingView {
                    name: name@,
                    slot,
                    context: stored_context,
                    callback: stored_callback,
                },
            ));
            assert(self@.calls =~= old(self)@.calls.push(CallView::Bind(name@, slot)));
        }
        Ok(())
    }

    fn unbind(&mut self, name: &str) -> Result<(), WebviewError> {
        if str_contains_nul(name) {
            return Err(WebviewError::InvalidArgument);
        }
        match self.name_position(name) {
            None => Err(WebviewError::NotFound),
            Some(i) => {
                // dropping the removed binding releases its callback and
                // its context, exactly once
                self.bindings.remove(i);
                self.actions.push(NativeCall::Unbind { name: name.to_owned() });
                proof {
                    assert(self@.bindings =~= old(self)@.bindings.remove(i as int));
                    assert(name_pred(name@)(old(self)@.bindings[i as int]));
                    lemma_remove_first_where_is_remove(
                        old(self)@.bindings,
                        name_pred(name@),
                        i as int,
                    );
                    assert(self@.calls =~= old(self)@.calls.push(CallView::Unbind(name@)));
                    assert(has_binding(old(self)@, name@));
                }
                Ok(())
            },
        }
    }

    fn return_(&mut self, id: &str, status: i32, result: &str) -> Result<(), WebviewError> {
        if str_contains_nul(id) {
            return Err(WebviewError::InvalidArgument);
        }
        if str_contains_nul(result) {
            return Err(WebviewError::InvalidArgument);
        }
        match self.pending_position(id) {
            None => Err(WebviewError::InvalidState),
            Some(i) => {
                self.pending.remove(i);
                self.actions.push(
                    NativeCall::Return {
                        request_id: id.to_owned(),
                        status,
                        payload: result.to_owned(),
                    },
                );
                proof {
                    assert(self@.pending =~= old(self)@.pending.remove(i as int));
                    assert(id_pred(id@)(old(self)@.pending[i as int]));
                    lemma_remove_first_where_is_remove(
                        old(self)@.pending,
                        id_pred(id@),
                        i as int,
                    );
                    assert(self@.calls =~= old(self)@.calls.push(
                        CallView::Return(id@, status, result@),
                    ));
                    assert(pending_has(old(self)@, id@));
                }
                Ok(())
            },
        }
    }
}

} // verus!
