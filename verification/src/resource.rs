//! The states a device resource is used in, and the barriers that move a resource
//! from one state to the next.

use vstd::prelude::*;

verus! {

/// The subresource index that stands for every subresource of a resource.
pub const ALL_SUBRESOURCES: u32 = 0xFFFF_FFFF;

/// How the device is using a resource.
#[derive(Clone, Copy, Debug, PartialEq, Eq, Structural)]
pub enum ResourceState {
    /// Shown, or waiting to be shown, by the swap chain.
    Present,
    /// Drawn into.
    RenderTarget,
    /// Written by a copy.
    CopyDest,
    /// Sampled by the pixel shader.
    PixelShaderResource,
    /// Read by the device from memory that the processor writes.
    GenericRead,
}

/// The resources that the renderer moves between states.
#[derive(Clone, Copy, Debug, PartialEq, Eq, Structural)]
pub enum ResourceId {
    /// The back buffer with this index in the swap chain.
    BackBuffer(u32),
    /// The texture that the quad is drawn with.
    Texture,
}

/// A change of state that one barrier may make. These are all of them: a back
/// buffer goes from shown to drawn into and back, and a texture goes from copied
/// into to sampled.
pub open spec fn allowed(from: ResourceState, to: ResourceState) -> bool {
    ||| (from is Present && to is RenderTarget)
    ||| (from is RenderTarget && to is Present)
    ||| (from is CopyDest && to is PixelShaderResource)
}

/// Whether a barrier may take a resource from `from` to `to`.
pub fn transition_allowed(from: ResourceState, to: ResourceState) -> (yes: bool)
    ensures
        yes == allowed(from, to),
{
    match (from, to) {
        (ResourceState::Present, ResourceState::RenderTarget) => true,
        (ResourceState::RenderTarget, ResourceState::Present) => true,
        (ResourceState::CopyDest, ResourceState::PixelShaderResource) => true,
        _ => false,
    }
}

/// A transition barrier: the declaration that `resource` leaves `state_before`
/// for `state_after`, in the subresources named.
#[derive(Clone, Copy, Debug, PartialEq, Eq, Structural)]
pub struct TransitionBarrier {
    pub resource: ResourceId,
    pub state_before: ResourceState,
    pub state_after: ResourceState,
    pub subresource: u32,
}

/// Why a barrier was refused.
#[derive(Clone, Copy, Debug, PartialEq, Eq, Structural)]
pub enum BarrierError {
    /// No barrier takes a resource from `from` to `to`.
    Forbidden { from: ResourceState, to: ResourceState },
}

/// The barrier that takes all of `resource` from `state_before` to `state_after`,
/// where the table allows that change; the refusal of it where the table does
/// not.
pub open spec fn barrier_for(
    resource: ResourceId,
    state_before: ResourceState,
    state_after: ResourceState,
) -> Result<TransitionBarrier, BarrierError> {
    if allowed(state_before, state_after) {
        Ok(
            TransitionBarrier {
                resource,
                state_before,
                state_after,
                subresource: ALL_SUBRESOURCES,
            },
        )
    } else {
        Err(BarrierError::Forbidden { from: state_before, to: state_after })
    }
}

/// The barrier that takes all of `resource` from `state_before` to `state_after`.
///
/// There is one exactly for the changes in the table. Every other change, that
/// from a state to itself too, is refused as `Forbidden`, and no barrier is made
/// for it.
pub fn transition_barrier(
    resource: ResourceId,
    state_before: ResourceState,
    state_after: ResourceState,
) -> (barrier: Result<TransitionBarrier, BarrierError>)
    ensures
        barrier == barrier_for(resource, state_before, state_after),
        barrier is Ok <==> allowed(state_before, state_after),
{
    if transition_allowed(state_before, state_after) {
        Ok(TransitionBarrier { resource, state_before, state_after, subresource: ALL_SUBRESOURCES })
    } else {
        Err(BarrierError::Forbidden { from: state_before, to: state_after })
    }
}

/// A resource together with the state that the recorded barriers have left it in.
#[derive(Clone, Copy, Debug, PartialEq, Eq, Structural)]
pub struct TrackedResource {
    id: ResourceId,
    state: ResourceState,
}

impl View for TrackedResource {
    type V = (ResourceId, ResourceState);

    closed spec fn view(&self) -> (ResourceId, ResourceState) {
        (self.id, self.state)
    }
}

impl TrackedResource {
    /// The resource `id`, created in state `initial`.
    pub fn new(id: ResourceId, initial: ResourceState) -> (resource: TrackedResource)
        ensures
            resource@ == (id, initial),
    {
        TrackedResource { id, state: initial }
    }

    /// Which resource this is.
    pub fn id(&self) -> (id: ResourceId)
        ensures
            id == self@.0,
    {
        self.id
    }

    /// The state that the barriers so far have left the resource in.
    pub fn state(&self) -> (state: ResourceState)
        ensures
            state == self@.1,
    {
        self.state
    }

    /// Moves the resource to state `to` and gives the barrier to record for it.
    ///
    /// Refuses, and leaves the resource as it is, exactly where the table has no
    /// change from the current state to `to`.
    pub fn transition(&mut self, to: ResourceState) -> (barrier: Result<
        TransitionBarrier,
        BarrierError,
    >)
        ensures
            barrier == barrier_for(old(self)@.0, old(self)@.1, to),
            allowed(old(self)@.1, to) ==> final(self)@ == (old(self)@.0, to),
            !allowed(old(self)@.1, to) ==> final(self)@ == old(self)@,
    {
        let barrier = transition_barrier(self.id, self.state, to);
        match barrier {
            Ok(_) => {
                self.state = to;
            },
            Err(_) => {},
        }
        barrier
    }
}

/// No barrier names a change outside the table: whatever `transition_barrier`
/// gives as a barrier starts and ends at states that the table joins, and a
/// barrier never leaves a resource in the state it found it in.
pub proof fn lemma_barriers_keep_to_table(
    resource: ResourceId,
    state_before: ResourceState,
    state_after: ResourceState,
)
    ensures
        barrier_for(resource, state_before, state_after) matches Ok(barrier) ==> allowed(
            barrier.state_before,
            barrier.state_after,
        ) && barrier.state_before != barrier.state_after && barrier.resource == resource,
        barrier_for(resource, state_before, state_before) is Err,
        barrier_for(resource, state_before, state_after) is Err <==> !allowed(
            state_before,
            state_after,
        ),
{
}

} // verus!
