use vstd::prelude::*;

use crate::plan::{
    append_result, buffers_error, destroy_transition, dimensions_error, dimensions_valid,
    initialize_transition, LaunchParams, PlanState, VkFftView, ERR_BUFFER_COUNT_MISMATCH,
    MAX_FFT_DIMENSIONS,
};
use crate::result::{error_of, is_success, VkFFTResult};

verus! {

/// Setting valid dimensions and reading the record back gives a dimension
/// count equal to the number of extents, the extents in order, and 1 in
/// every axis slot past them.
pub proof fn lemma_dimensions_read_back(v: VkFftView, sizes: Seq<u64>)
    requires
        v.wf(),
        dimensions_valid(sizes),
    ensures
        dimensions_error(sizes) is None,
        v.with_dimensions(sizes).config.fft_dim == sizes.len(),
        v.with_dimensions(sizes).config.size@.len() == MAX_FFT_DIMENSIONS,
        forall|i: int| 0 <= i < sizes.len() ==> v.with_dimensions(sizes).config.size@[i] == sizes[i],
        forall|i: int|
            sizes.len() <= i < MAX_FFT_DIMENSIONS ==> v.with_dimensions(sizes).config.size@[i] == 1,
{
}

/// Without a live plan, `append` fails with the plan-not-initialized error
/// whatever command buffer and direction it is given, so nothing reaches the
/// engine.
pub proof fn lemma_append_needs_plan(
    v: VkFftView,
    command_buffer: ash::vk::CommandBuffer,
    direction: i32,
)
    requires
        !(v.state is Initialized),
    ensures
        append_result(v.state, command_buffer, direction) == Err::<LaunchParams, _>(
            error_of(VkFFTResult::VKFFT_ERROR_PLAN_NOT_INITIALIZED),
        ),
{
}

/// Input and output buffer sets of different sizes are always refused, with
/// the count-mismatch error when neither set is empty.
pub proof fn lemma_mismatched_buffers_rejected(
    number_batches: u64,
    inputs: Seq<ash::vk::Buffer>,
    outputs: Seq<ash::vk::Buffer>,
)
    requires
        inputs.len() != outputs.len(),
    ensures
        buffers_error(number_batches, inputs, Some(outputs)) is Some,
        inputs.len() > 0 && outputs.len() > 0 ==> buffers_error(
            number_batches,
            inputs,
            Some(outputs),
        ) == Some(ERR_BUFFER_COUNT_MISMATCH),
{
}

/// After declaring a primary buffer size, reading it back gives that size,
/// and the buffer count is 1.
pub proof fn lemma_buffer_size_round_trip(v: VkFftView, size: u64)
    ensures
        v.with_buffer_size(size).primary_buffer_size() == Some(size),
        v.with_buffer_size(size).buffer_sizes.len() == 1,
        v.with_buffer_size(size).config.buffer_num == 1,
{
}

/// Teardown releases the native plan at most once: a second teardown
/// releases nothing and changes nothing.
pub proof fn lemma_destroy_idempotent(state: PlanState)
    ensures
        !destroy_transition(destroy_transition(state).0).1,
        destroy_transition(destroy_transition(state).0).0 == destroy_transition(state).0,
{
}

/// After a failed plan creation there is no plan, and teardown releases
/// nothing.
pub proof fn lemma_destroy_after_failed_initialize(outcome: VkFFTResult)
    requires
        !is_success(outcome),
    ensures
        initialize_transition(PlanState::Uninitialized, outcome).0 == PlanState::Uninitialized,
        !destroy_transition(initialize_transition(PlanState::Uninitialized, outcome).0).1,
{
}

/// A call that can move a plan through its life stages: the engine's answer
/// to a plan creation, one recorded transform, or a teardown.
pub enum LifecycleEvent {
    Initialize(VkFFTResult),
    Append,
    Destroy,
}

/// The next stage after `event`, and whether the native plan is released.
pub open spec fn lifecycle_step(state: PlanState, event: LifecycleEvent) -> (PlanState, bool) {
    match event {
        LifecycleEvent::Initialize(outcome) => (initialize_transition(state, outcome).0, false),
        LifecycleEvent::Append => (state, false),
        LifecycleEvent::Destroy => destroy_transition(state),
    }
}

/// The stage reached from `state` after `events`, and how many times the
/// native plan was released on the way.
pub open spec fn run_lifecycle(state: PlanState, events: Seq<LifecycleEvent>) -> (PlanState, nat)
    decreases events.len(),
{
    if events.len() == 0 {
        (state, 0)
    } else {
        let (s, n) = run_lifecycle(state, events.drop_last());
        let (next, released) = lifecycle_step(s, events.last());
        (next, n + if released {
            1nat
        } else {
            0nat
        })
    }
}

/// Whether the engine answered some plan creation in `events` with success.
pub open spec fn some_initialize_succeeded(events: Seq<LifecycleEvent>) -> bool {
    exists|i: int|
        0 <= i < events.len() && (#[trigger] events[i] matches LifecycleEvent::Initialize(o)
            && is_success(o))
}

/// Over any sequence of calls on a fresh wrapper the native plan is released
/// at most once, exactly when the wrapper ends torn down, and only if a plan
/// creation succeeded.
pub proof fn lemma_release_at_most_once(events: Seq<LifecycleEvent>)
    ensures
        run_lifecycle(PlanState::Uninitialized, events).1 <= 1,
        run_lifecycle(PlanState::Uninitialized, events).1 == 1 <==> run_lifecycle(
            PlanState::Uninitialized,
            events,
        ).0 is Destroyed,
        !(run_lifecycle(PlanState::Uninitialized, events).0 is Uninitialized)
            ==> some_initialize_succeeded(events),
    decreases events.len(),
{
    if events.len() > 0 {
        let prefix = events.drop_last();
        lemma_release_at_most_once(prefix);
        if some_initialize_succeeded(prefix) {
            let i = choose|i: int|
                0 <= i < prefix.len() && (#[trigger] prefix[i] matches LifecycleEvent::Initialize(
                    o,
                ) && is_success(o));
            assert(events[i] == prefix[i]);
        }
        let last = events.len() - 1;
        assert(events.last() == events[last]);
    }
}

} // verus!
