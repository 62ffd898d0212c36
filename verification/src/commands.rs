//! The commands of a pass, in the order in which they are recorded, and the
//! resource states that they pass through.

use crate::frame_loop::Pass;
use crate::geometry::INDEX_COUNT;
use crate::resource::{
    allowed, transition_allowed, transition_barrier, ResourceId, ResourceState, TransitionBarrier,
    ALL_SUBRESOURCES,
};
use vstd::prelude::*;

verus! {

/// The number of back buffers in the swap chain.
pub const BACK_BUFFER_COUNT: u32 = 2;

/// The width of the window and of the viewport, in pixels.
pub const WINDOW_WIDTH: u32 = 1280;

/// The height of the window and of the viewport, in pixels.
pub const WINDOW_HEIGHT: u32 = 720;

/// The number of indices that the one draw call reads: all that the quad has.
pub const DRAW_INDEX_COUNT: u32 = 6;

/// The number of instances that the one draw call draws.
pub const INSTANCE_COUNT: u32 = 1;

/// A colour, eight bits to the channel: 0 is none of it, 255 all.
#[derive(Clone, Copy, Debug, PartialEq, Eq, Structural)]
pub struct Color {
    pub red: u8,
    pub green: u8,
    pub blue: u8,
    pub alpha: u8,
}

/// The colour that a frame is cleared to: opaque yellow.
pub open spec fn clear_color_spec() -> Color {
    Color { red: 255, green: 255, blue: 0, alpha: 255 }
}

/// The colour that a frame is cleared to: opaque yellow.
pub fn clear_color() -> (color: Color)
    ensures
        color == clear_color_spec(),
{
    Color { red: 255, green: 255, blue: 0, alpha: 255 }
}

/// One command of a command list.
#[derive(Clone, Copy, Debug, PartialEq, Eq, Structural)]
pub enum Command {
    /// Record this transition barrier.
    Barrier(TransitionBarrier),
    /// Copy the staged texture from the upload buffer into the texture.
    CopyTexture,
    /// Set the pipeline state.
    SetPipelineState,
    /// Render into this back buffer.
    SetRenderTarget { back_buffer: u32 },
    /// Clear this back buffer to this colour.
    ClearRenderTarget { back_buffer: u32, color: Color },
    /// Set the root signature.
    SetRootSignature,
    /// Set the heap with the texture's and the constant buffer's views.
    SetDescriptorHeap,
    /// Point this root parameter at the start of the heap.
    SetRootDescriptorTable { parameter: u32 },
    /// Set the viewport, from the top left corner, to this size.
    SetViewport { width: u32, height: u32 },
    /// Set the scissor rectangle, from the top left corner, to this size.
    SetScissor { width: u32, height: u32 },
    /// Read the vertices as a list of triangles.
    SetTriangleList,
    /// Bind the vertex buffer.
    SetVertexBuffer,
    /// Bind the index buffer.
    SetIndexBuffer,
    /// Draw with these many indices and instances, from the first of each.
    DrawIndexed { index_count: u32, instance_count: u32 },
}

/// The commands that upload the texture: the copy, then the barrier that lets
/// the pixel shader sample what was copied.
pub open spec fn upload_pass() -> Seq<Command> {
    seq![
        Command::CopyTexture,
        Command::Barrier(
            TransitionBarrier {
                resource: ResourceId::Texture,
                state_before: ResourceState::CopyDest,
                state_after: ResourceState::PixelShaderResource,
                subresource: ALL_SUBRESOURCES,
            },
        ),
    ]
}

/// The commands of one frame into back buffer `back_buffer`: the barrier that
/// makes it a render target, the bindings, the clear, the one draw, and the
/// barrier that gives it back for presenting.
pub open spec fn frame_pass(back_buffer: u32) -> Seq<Command> {
    seq![
        Command::Barrier(
            TransitionBarrier {
                resource: ResourceId::BackBuffer(back_buffer),
                state_before: ResourceState::Present,
                state_after: ResourceState::RenderTarget,
                subresource: ALL_SUBRESOURCES,
            },
        ),
        Command::SetPipelineState,
        Command::SetRenderTarget { back_buffer },
        Command::ClearRenderTarget { back_buffer, color: clear_color_spec() },
        Command::SetRootSignature,
        Command::SetDescriptorHeap,
        Command::SetRootDescriptorTable { parameter: 0 },
        Command::SetViewport { width: WINDOW_WIDTH, height: WINDOW_HEIGHT },
        Command::SetScissor { width: WINDOW_WIDTH, height: WINDOW_HEIGHT },
        Command::SetTriangleList,
        Command::SetVertexBuffer,
        Command::SetIndexBuffer,
        Command::DrawIndexed { index_count: DRAW_INDEX_COUNT, instance_count: INSTANCE_COUNT },
        Command::Barrier(
            TransitionBarrier {
                resource: ResourceId::BackBuffer(back_buffer),
                state_before: ResourceState::RenderTarget,
                state_after: ResourceState::Present,
                subresource: ALL_SUBRESOURCES,
            },
        ),
    ]
}

/// The commands of `pass`, a frame going into back buffer `back_buffer`.
pub open spec fn pass_commands(pass: Pass, back_buffer: u32) -> Seq<Command> {
    match pass {
        Pass::Upload => upload_pass(),
        Pass::Frame => frame_pass(back_buffer),
    }
}

/// Adds to `list` the barrier that takes `resource` from `state_before` to
/// `state_after`, a change that the table allows.
fn push_barrier(
    list: &mut Vec<Command>,
    resource: ResourceId,
    state_before: ResourceState,
    state_after: ResourceState,
)
    requires
        allowed(state_before, state_after),
    ensures
        final(list)@ == old(list)@.push(
            Command::Barrier(
                TransitionBarrier {
                    resource,
                    state_before,
                    state_after,
                    subresource: ALL_SUBRESOURCES,
                },
            ),
        ),
{
    match transition_barrier(resource, state_before, state_after) {
        Ok(barrier) => {
            list.push(Command::Barrier(barrier));
        },
        Err(_) => {},
    }
}

/// The commands to record for `pass`, in order; the list is closed after the last.
/// `back_buffer` is the swap chain's current back buffer, which a frame draws
/// into and an upload does not look at.
///
/// `None` exactly where a frame is asked for a back buffer that the swap chain
/// does not have.
pub fn commands_for(pass: Pass, back_buffer: u32) -> (commands: Option<Vec<Command>>)
    ensures
        commands is Some <==> (pass is Upload || back_buffer < BACK_BUFFER_COUNT),
        commands matches Some(list) ==> list@ == pass_commands(pass, back_buffer),
{
    match pass {
        Pass::Upload => {
            let mut list: Vec<Command> = Vec::new();
            list.push(Command::CopyTexture);
            push_barrier(
                &mut list,
                ResourceId::Texture,
                ResourceState::CopyDest,
                ResourceState::PixelShaderResource,
            );
            assert(list@ =~= upload_pass());
            Some(list)
        },
        Pass::Frame => {
            if back_buffer >= BACK_BUFFER_COUNT {
                return None;
            }
            let target = ResourceId::BackBuffer(back_buffer);
            let mut list: Vec<Command> = Vec::new();
            push_barrier(&mut list, target, ResourceState::Present, ResourceState::RenderTarget);
            list.push(Command::SetPipelineState);
            list.push(Command::SetRenderTarget { back_buffer });
            list.push(Command::ClearRenderTarget { back_buffer, color: clear_color() });
            list.push(Command::SetRootSignature);
            list.push(Command::SetDescriptorHeap);
            list.push(Command::SetRootDescriptorTable { parameter: 0 });
            list.push(Command::SetViewport { width: WINDOW_WIDTH, height: WINDOW_HEIGHT });
            list.push(Command::SetScissor { width: WINDOW_WIDTH, height: WINDOW_HEIGHT });
            list.push(Command::SetTriangleList);
            list.push(Command::SetVertexBuffer);
            list.push(Command::SetIndexBuffer);
            list.push(
                Command::DrawIndexed { index_count: DRAW_INDEX_COUNT, instance_count: INSTANCE_COUNT },
            );
            push_barrier(&mut list, target, ResourceState::RenderTarget, ResourceState::Present);
            assert(list@ =~= frame_pass(back_buffer));
            Some(list)
        },
    }
}

/// The state that `command` leaves `resource` in when it finds it in `state`, or
/// `None` where the command must not be recorded with the resource in that
/// state: a barrier on the resource that does not start from `state` or that the
/// table does not allow, a copy into a texture that is no copy destination, a
/// clear of a back buffer that is no render target, a draw that samples a
/// texture that is no pixel shader resource.
pub open spec fn apply(command: Command, resource: ResourceId, state: ResourceState) -> Option<
    ResourceState,
> {
    match command {
        Command::Barrier(barrier) => if barrier.resource != resource {
            Some(state)
        } else if barrier.state_before == state && allowed(state, barrier.state_after) {
            Some(barrier.state_after)
        } else {
            None
        },
        Command::CopyTexture => if resource is Texture && !(state is CopyDest) {
            None
        } else {
            Some(state)
        },
        Command::ClearRenderTarget { back_buffer, .. } => if resource == ResourceId::BackBuffer(
            back_buffer,
        ) && !(state is RenderTarget) {
            None
        } else {
            Some(state)
        },
        Command::DrawIndexed { .. } => if resource is Texture && !(state is PixelShaderResource) {
            None
        } else {
            Some(state)
        },
        _ => Some(state),
    }
}

/// The state that the commands from place `from` on leave `resource` in when
/// they find it in `state`, or `None` where one of them must not be recorded.
pub open spec fn replay_from(
    commands: Seq<Command>,
    from: int,
    resource: ResourceId,
    state: ResourceState,
) -> Option<ResourceState>
    decreases commands.len() - from,
{
    if from < 0 || from >= commands.len() {
        Some(state)
    } else {
        match apply(commands[from], resource, state) {
            Some(after) => replay_from(commands, from + 1, resource, after),
            None => None,
        }
    }
}

/// The state that `commands` leave `resource` in when they find it in `state`, or
/// `None` where one of them must not be recorded.
pub open spec fn replay(commands: Seq<Command>, resource: ResourceId, state: ResourceState)
    -> Option<ResourceState> {
    replay_from(commands, 0, resource, state)
}

/// `apply`, computed.
pub fn apply_command(command: Command, resource: ResourceId, state: ResourceState) -> (after:
    Option<ResourceState>)
    ensures
        after == apply(command, resource, state),
{
    match command {
        Command::Barrier(barrier) => {
            if barrier.resource != resource {
                Some(state)
            } else if barrier.state_before == state && transition_allowed(
                state,
                barrier.state_after,
            ) {
                Some(barrier.state_after)
            } else {
                None
            }
        },
        Command::CopyTexture => {
            if resource == ResourceId::Texture && state != ResourceState::CopyDest {
                None
            } else {
                Some(state)
            }
        },
        Command::ClearRenderTarget { back_buffer, color: _ } => {
            if resource == ResourceId::BackBuffer(back_buffer) && state
                != ResourceState::RenderTarget {
                None
            } else {
                Some(state)
            }
        },
        Command::DrawIndexed { index_count: _, instance_count: _ } => {
            if resource == ResourceId::Texture && state != ResourceState::PixelShaderResource {
                None
            } else {
                Some(state)
            }
        },
        _ => Some(state),
    }
}

/// Follows `resource` through `commands` from `state`: the state they leave it
/// in, or `None` where one of them must not be recorded with the resource in the
/// state it has by then.
pub fn check(commands: &Vec<Command>, resource: ResourceId, state: ResourceState) -> (after:
    Option<ResourceState>)
    ensures
        after == replay(commands@, resource, state),
{
    let mut current = state;
    let mut at: usize = 0;
    while at < commands.len()
        invariant
            at <= commands.len(),
            replay(commands@, resource, state) == replay_from(
                commands@,
                at as int,
                resource,
                current,
            ),
        decreases commands.len() - at,
    {
        match apply_command(commands[at], resource, current) {
            Some(after) => {
                current = after;
            },
            None => {
                return None;
            },
        }
        at = at + 1;
    }
    Some(current)
}

/// A frame finds its back buffer presented and leaves it presented, having
/// cleared it and drawn into it as a render target. It leaves every other back
/// buffer as it is, and the texture too, which it must find uploaded: on a
/// texture that is still a copy destination, the draw must not be recorded.
pub proof fn lemma_frame_pass_states(back_buffer: u32, other: u32, state: ResourceState)
    requires
        other != back_buffer,
    ensures
        replay(frame_pass(back_buffer), ResourceId::BackBuffer(back_buffer), ResourceState::Present)
            == Some(ResourceState::Present),
        replay(frame_pass(back_buffer), ResourceId::BackBuffer(back_buffer), state) is Some
            <==> state is Present,
        replay(frame_pass(back_buffer), ResourceId::BackBuffer(other), state) == Some(state),
        replay(frame_pass(back_buffer), ResourceId::Texture, ResourceState::PixelShaderResource)
            == Some(ResourceState::PixelShaderResource),
        replay(frame_pass(back_buffer), ResourceId::Texture, state) is Some <==> state
            is PixelShaderResource,
{
    reveal_with_fuel(replay_from, 16);
}

/// The upload finds the texture a copy destination and leaves it for the pixel
/// shader to sample; in any other state the copy must not be recorded. It leaves
/// the back buffers as they are.
pub proof fn lemma_upload_pass_states(back_buffer: u32, state: ResourceState)
    ensures
        replay(upload_pass(), ResourceId::Texture, ResourceState::CopyDest) == Some(
            ResourceState::PixelShaderResource,
        ),
        replay(upload_pass(), ResourceId::Texture, state) is Some <==> state is CopyDest,
        replay(upload_pass(), ResourceId::BackBuffer(back_buffer), state) == Some(state),
{
    reveal_with_fuel(replay_from, 4);
}

/// A frame draws once, one instance of all six indices of the quad, between its
/// two barriers. What a frame records depends on nothing but its back buffer.
pub proof fn lemma_frame_pass_draws_once(back_buffer: u32, at: int)
    requires
        0 <= at < frame_pass(back_buffer).len(),
    ensures
        frame_pass(back_buffer).len() == 14,
        frame_pass(back_buffer)[at] is DrawIndexed <==> at == 12,
        frame_pass(back_buffer)[12] == (Command::DrawIndexed { index_count: 6, instance_count: 1 }),
        DRAW_INDEX_COUNT == INDEX_COUNT,
        frame_pass(back_buffer)[at] is Barrier <==> at == 0 || at == 13,
{
}

} // verus!
