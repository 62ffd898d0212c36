//! What the one pipeline state and its root signature are made of.
//!
//! Both are fixed. They are kept here as plain descriptions, so that what they
//! must agree with can be checked against them: the vertex as the vertex buffer
//! holds it, and the places of the views in the shader-visible heap.

use crate::descriptor::{CONSTANT_VIEW_SLOT, TEXTURE_VIEW_SLOT, VIEW_COUNT};
use crate::geometry::VERTEX_STRIDE;
use vstd::prelude::*;

verus! {

/// The format of a vertex attribute, an index, or a pixel.
#[derive(Clone, Copy, Debug, PartialEq, Eq, Structural)]
pub enum Format {
    /// Four channels of eight bits, each read as a number from 0 to 1.
    Rgba8Unorm,
    /// Three 32-bit floating point numbers.
    Rgb32Float,
    /// Two 32-bit floating point numbers.
    Rg32Float,
    /// One unsigned 16-bit number.
    R16Uint,
}

/// The bytes that one element of `format` takes.
pub open spec fn format_bytes(format: Format) -> int {
    match format {
        Format::Rgba8Unorm => 4,
        Format::Rgb32Float => 12,
        Format::Rg32Float => 8,
        Format::R16Uint => 2,
    }
}

impl Format {
    /// The bytes that one element of this format takes.
    pub fn bytes(self) -> (bytes: u32)
        ensures
            bytes == format_bytes(self),
    {
        match self {
            Format::Rgba8Unorm => 4,
            Format::Rgb32Float => 12,
            Format::Rg32Float => 8,
            Format::R16Uint => 2,
        }
    }
}

/// What a vertex attribute means to the vertex shader.
#[derive(Clone, Copy, Debug, PartialEq, Eq, Structural)]
pub enum Semantic {
    Position,
    TexCoord,
}

/// How often an attribute is read anew.
#[derive(Clone, Copy, Debug, PartialEq, Eq, Structural)]
pub enum InputRate {
    /// Once for each vertex.
    PerVertex,
}

/// One attribute of the vertex: what it means, its format, the input slot it is
/// read from and how often it is read. It lies right behind the attribute before
/// it.
#[derive(Clone, Copy, Debug, PartialEq, Eq, Structural)]
pub struct InputElement {
    pub semantic: Semantic,
    pub semantic_index: u32,
    pub format: Format,
    pub input_slot: u32,
    pub rate: InputRate,
}

/// Which shader stages see a binding.
#[derive(Clone, Copy, Debug, PartialEq, Eq, Structural)]
pub enum Visibility {
    All,
    Pixel,
}

/// The kind of view that a descriptor range holds.
#[derive(Clone, Copy, Debug, PartialEq, Eq, Structural)]
pub enum RangeKind {
    ShaderResource,
    ConstantBuffer,
}

/// A range of a descriptor table: `count` views of one kind, bound from shader
/// register `base_register` on. Every range lies right behind the range before
/// it.
#[derive(Clone, Copy, Debug, PartialEq, Eq, Structural)]
pub struct DescriptorRange {
    pub kind: RangeKind,
    pub count: u32,
    pub base_register: u32,
}

/// How a sampler treats texture coordinates outside 0 to 1.
#[derive(Clone, Copy, Debug, PartialEq, Eq, Structural)]
pub enum AddressMode {
    Wrap,
}

/// How a sampler reads between texels and between mip levels.
#[derive(Clone, Copy, Debug, PartialEq, Eq, Structural)]
pub enum Filter {
    Linear,
}

/// The one static sampler.
#[derive(Clone, Copy, Debug, PartialEq, Eq, Structural)]
pub struct Sampler {
    pub address: AddressMode,
    pub filter: Filter,
    pub visibility: Visibility,
}

/// The root signature: one descriptor table of two ranges, and one static
/// sampler.
#[derive(Clone, Copy, Debug, PartialEq, Eq)]
pub struct RootSignature {
    pub ranges: [DescriptorRange; 2],
    pub table_visibility: Visibility,
    pub sampler: Sampler,
}

/// How triangles are filled.
#[derive(Clone, Copy, Debug, PartialEq, Eq, Structural)]
pub enum FillMode {
    Solid,
}

/// Which triangles are left out by the way they face.
#[derive(Clone, Copy, Debug, PartialEq, Eq, Structural)]
pub enum CullMode {
    Off,
}

/// What the vertices make up.
#[derive(Clone, Copy, Debug, PartialEq, Eq, Structural)]
pub enum Topology {
    Triangle,
}

/// The pipeline state, but for the shaders and the root signature.
#[derive(Clone, Copy, Debug, PartialEq, Eq)]
pub struct Pipeline {
    pub input_layout: [InputElement; 2],
    pub blend: bool,
    pub depth: bool,
    pub stencil: bool,
    pub render_targets: u32,
    pub render_target_format: Format,
    pub index_format: Format,
    pub topology: Topology,
    pub fill: FillMode,
    pub cull: CullMode,
}

/// The attributes of the vertex: a position of three floats, then a texture
/// coordinate of two, both read from slot 0 once for each vertex.
pub open spec fn input_layout_spec() -> Seq<InputElement> {
    seq![
        InputElement {
            semantic: Semantic::Position,
            semantic_index: 0,
            format: Format::Rgb32Float,
            input_slot: 0,
            rate: InputRate::PerVertex,
        },
        InputElement {
            semantic: Semantic::TexCoord,
            semantic_index: 0,
            format: Format::Rg32Float,
            input_slot: 0,
            rate: InputRate::PerVertex,
        },
    ]
}

/// The ranges of the descriptor table: the texture's view, then the constant
/// buffer's, each bound to register 0 of its kind.
pub open spec fn ranges_spec() -> Seq<DescriptorRange> {
    seq![
        DescriptorRange { kind: RangeKind::ShaderResource, count: 1, base_register: 0 },
        DescriptorRange { kind: RangeKind::ConstantBuffer, count: 1, base_register: 0 },
    ]
}

/// The bytes that lie before attribute `index` of `layout`, which is where it
/// lies: the bytes of the attributes before it.
pub open spec fn attribute_offset(layout: Seq<InputElement>, index: int) -> int
    decreases index,
{
    if index <= 0 {
        0
    } else {
        attribute_offset(layout, index - 1) + format_bytes(layout[index - 1].format)
    }
}

/// The descriptors that lie before range `index` of `ranges`, which is the place
/// of its first: the descriptors of the ranges before it.
pub open spec fn range_offset(ranges: Seq<DescriptorRange>, index: int) -> int
    decreases index,
{
    if index <= 0 {
        0
    } else {
        range_offset(ranges, index - 1) + ranges[index - 1].count
    }
}

/// The pipeline state: the vertex of a position and a texture coordinate, both
/// per vertex, no blending, no depth and no stencil test, one render target of eight bits to
/// the channel, 16-bit indices, triangles filled and none culled.
pub fn pipeline() -> (description: Pipeline)
    ensures
        description.input_layout@ == input_layout_spec(),
        !description.blend && !description.depth && !description.stencil,
        description.render_targets == 1,
        description.render_target_format == Format::Rgba8Unorm,
        description.index_format == Format::R16Uint,
        description.topology == Topology::Triangle,
        description.fill == FillMode::Solid,
        description.cull == CullMode::Off,
{
    let input_layout = [
        InputElement {
            semantic: Semantic::Position,
            semantic_index: 0,
            format: Format::Rgb32Float,
            input_slot: 0,
            rate: InputRate::PerVertex,
        },
        InputElement {
            semantic: Semantic::TexCoord,
            semantic_index: 0,
            format: Format::Rg32Float,
            input_slot: 0,
            rate: InputRate::PerVertex,
        },
    ];
    assert(input_layout@ =~= input_layout_spec());
    Pipeline {
        input_layout,
        blend: false,
        depth: false,
        stencil: false,
        render_targets: 1,
        render_target_format: Format::Rgba8Unorm,
        index_format: Format::R16Uint,
        topology: Topology::Triangle,
        fill: FillMode::Solid,
        cull: CullMode::Off,
    }
}

/// The root signature: a table that every stage sees, of one shader resource
/// view and one constant buffer view, and a sampler for the pixel shader that
/// wraps and filters linearly.
pub fn root_signature() -> (description: RootSignature)
    ensures
        description.ranges@ == ranges_spec(),
        description.table_visibility == Visibility::All,
        description.sampler == (Sampler {
            address: AddressMode::Wrap,
            filter: Filter::Linear,
            visibility: Visibility::Pixel,
        }),
{
    let ranges = [
        DescriptorRange { kind: RangeKind::ShaderResource, count: 1, base_register: 0 },
        DescriptorRange { kind: RangeKind::ConstantBuffer, count: 1, base_register: 0 },
    ];
    assert(ranges@ =~= ranges_spec());
    RootSignature {
        ranges,
        table_visibility: Visibility::All,
        sampler: Sampler {
            address: AddressMode::Wrap,
            filter: Filter::Linear,
            visibility: Visibility::Pixel,
        },
    }
}

/// The attributes fill the vertex exactly: the position lies at its start, the
/// texture coordinate twelve bytes in, and together they take the vertex stride.
pub proof fn lemma_layout_fills_vertex()
    ensures
        attribute_offset(input_layout_spec(), 0) == 0,
        attribute_offset(input_layout_spec(), 1) == 12,
        attribute_offset(input_layout_spec(), input_layout_spec().len() as int) == VERTEX_STRIDE,
{
    reveal_with_fuel(attribute_offset, 3);
}

/// The table's ranges lie where the views are put in the heap: the shader
/// resource view at the texture's slot, the constant buffer view at the constant
/// buffer's, and together they take the whole heap.
pub proof fn lemma_table_matches_heap()
    ensures
        ranges_spec()[TEXTURE_VIEW_SLOT as int].kind is ShaderResource,
        range_offset(ranges_spec(), TEXTURE_VIEW_SLOT as int) == TEXTURE_VIEW_SLOT,
        ranges_spec()[CONSTANT_VIEW_SLOT as int].kind is ConstantBuffer,
        range_offset(ranges_spec(), CONSTANT_VIEW_SLOT as int) == CONSTANT_VIEW_SLOT,
        range_offset(ranges_spec(), ranges_spec().len() as int) == VIEW_COUNT,
{
    reveal_with_fuel(range_offset, 3);
}

} // verus!
