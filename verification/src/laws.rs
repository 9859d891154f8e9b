//! The guarantees the bridging protocol gives as a whole, proved over the
//! state transitions that the wrapper's contracts are written in.

use vstd::prelude::*;
use crate::engine::{
    bind_outcome, bind_step, eval_step, has_binding, init_step, navigate_step, pending_has,
    return_outcome, return_step, set_html_step, text_arg_outcome, unbind_outcome, unbind_step,
    name_pred, wf_view, EngineView,
};
use crate::error::WebviewError;
use crate::registry::{detach_step, handle_pred, lemma_lookup_absent, reg_lookup, reg_wf};
use crate::seq_util::lemma_remove_first_where_is_remove;
use crate::text::contains_nul;

verus! {

/// Binding a free, representable name succeeds, and immediately unbinding
/// it succeeds and leaves the binding table and the pending requests
/// exactly as they were: on an empty table, empty again, with the released
/// bundle gone from the store.
pub proof fn law_bind_then_unbind_restores_table<C, F>(
    s: EngineView<C, F>,
    name: Seq<char>,
    context: C,
    callback: F,
)
    requires
        wf_view(s),
        !contains_nul(name),
        !has_binding(s, name),
        s.next_slot < u64::MAX,
    ensures
        bind_outcome(s, name) is Ok,
        unbind_outcome(bind_step(s, name, context, callback), name) is Ok,
        unbind_step(bind_step(s, name, context, callback), name).bindings == s.bindings,
        unbind_step(bind_step(s, name, context, callback), name).pending == s.pending,
{
    let s1 = bind_step(s, name, context, callback);
    let n = s.bindings.len() as int;
    assert(s1.bindings[n].name == name);
    assert(name_pred(name)(s1.bindings[n]));
    assert(forall|j: int| 0 <= j < n ==> s1.bindings[j] == s.bindings[j]);
    lemma_remove_first_where_is_remove(s1.bindings, name_pred(name), n);
    assert(s1.bindings.remove(n) =~= s.bindings);
}

/// Binding a name that is already bound is rejected as a duplicate and
/// changes nothing: the original binding stays intact and functional, and
/// the rejected bundle is never stored.
pub proof fn law_duplicate_bind_leaves_binding_intact<C, F>(
    s: EngineView<C, F>,
    name: Seq<char>,
    context: C,
    callback: F,
)
    requires
        wf_view(s),
        has_binding(s, name),
    ensures
        bind_outcome(s, name) == Err::<(), WebviewError>(WebviewError::Duplicate),
        bind_step(s, name, context, callback) == s,
{
    let i = choose|i: int| 0 <= i < s.bindings.len() && s.bindings[i].name == name;
    assert(!contains_nul(s.bindings[i].name));
}

/// Unbinding a name that was never bound reports that nothing was found
/// and is a no-op on the whole state, the binding table in particular.
pub proof fn law_unbind_unknown_name_is_noop<C, F>(s: EngineView<C, F>, name: Seq<char>)
    requires
        !contains_nul(name),
        !has_binding(s, name),
    ensures
        unbind_outcome(s, name) == Err::<(), WebviewError>(WebviewError::NotFound),
        unbind_step(s, name) == s,
{
}

/// Answering a request id that was never dispatched, or was already
/// answered — and is therefore no longer pending — is an invalid state and
/// changes nothing.
pub proof fn law_return_unknown_request_rejected<C, F>(
    s: EngineView<C, F>,
    id: Seq<char>,
    status: i32,
    payload: Seq<char>,
)
    requires
        !contains_nul(id),
        !contains_nul(payload),
        !pending_has(s, id),
    ensures
        return_outcome(s, id, payload) == Err::<(), WebviewError>(WebviewError::InvalidState),
        return_step(s, id, status, payload) == s,
{
}

/// A string argument holding an embedded null byte is rejected as an
/// invalid argument by every operation that accepts a string, and no
/// native call is recorded: the state, the recorded calls in particular,
/// is unchanged.
pub proof fn law_embedded_nul_rejected_locally<C, F>(
    s: EngineView<C, F>,
    arg: Seq<char>,
    status: i32,
    other: Seq<char>,
    context: C,
    callback: F,
)
    requires
        contains_nul(arg),
    ensures
        text_arg_outcome(arg) == Err::<(), WebviewError>(WebviewError::InvalidArgument),
        navigate_step(s, arg) == s,
        set_html_step(s, arg) == s,
        init_step(s, arg) == s,
        eval_step(s, arg) == s,
        bind_outcome(s, arg) == Err::<(), WebviewError>(WebviewError::InvalidArgument),
        bind_step(s, arg, context, callback) == s,
        unbind_outcome(s, arg) == Err::<(), WebviewError>(WebviewError::InvalidArgument),
        unbind_step(s, arg) == s,
        return_outcome(s, arg, other) == Err::<(), WebviewError>(WebviewError::InvalidArgument),
        return_step(s, arg, status, other) == s,
        return_outcome(s, other, arg) == Err::<(), WebviewError>(WebviewError::InvalidArgument),
        return_step(s, other, status, arg) == s,
{
}

/// After a detach, the detached handle recovers no wrapper key until a
/// later attach.  Together with the trampoline's contract — an event whose
/// handle recovers nothing leaves every wrapper untouched and is reported
/// as ignored — any native event delivered against the handle in that
/// window is a no-op.
pub proof fn law_detached_handle_recovers_nothing(es: Seq<(u64, usize)>, handle: u64)
    requires
        reg_wf(es),
    ensures
        reg_lookup(detach_step(es, handle), handle) is None,
{
    if exists|i: int| 0 <= i < es.len() && es[i].0 == handle {
        let i = choose|i: int| 0 <= i < es.len() && es[i].0 == handle;
        assert(handle_pred(handle)(es[i]));
        assert(forall|j: int| 0 <= j < i ==> es[j].0 != handle);
        lemma_remove_first_where_is_remove(es, handle_pred(handle), i);
        let removed = es.remove(i);
        assert(forall|j: int| 0 <= j < removed.len() ==> removed[j].0 != handle);
        lemma_lookup_absent(removed, handle);
    } else {
        lemma_lookup_absent(es, handle);
    }
}

} // verus!
