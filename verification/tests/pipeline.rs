use textured_quad::descriptor::{CONSTANT_VIEW_SLOT, TEXTURE_VIEW_SLOT, VIEW_COUNT};
use textured_quad::geometry::{INDEX_STRIDE, VERTEX_STRIDE};
use textured_quad::pipeline::{
    pipeline, root_signature, AddressMode, CullMode, DescriptorRange, FillMode, Filter, Format,
    InputElement, InputRate, Pipeline, RangeKind, RootSignature, Sampler, Semantic, Topology,
    Visibility,
};

#[test]
fn the_pipeline_is_the_fixed_one() {
    assert_eq!(
        pipeline(),
        Pipeline {
            input_layout: [
                InputElement {
                    semantic: Semantic::Position,
                    semantic_index: 0,
                    format: Format::Rgb32Float,
                    input_slot: 0,
                    rate: InputRate::PerVertex
                },
                InputElement {
                    semantic: Semantic::TexCoord,
                    semantic_index: 0,
                    format: Format::Rg32Float,
                    input_slot: 0,
                    rate: InputRate::PerVertex
                },
            ],
            blend: false,
            depth: false,
            stencil: false,
            render_targets: 1,
            render_target_format: Format::Rgba8Unorm,
            index_format: Format::R16Uint,
            topology: Topology::Triangle,
            fill: FillMode::Solid,
            cull: CullMode::Off,
        }
    );
}

#[test]
fn the_root_signature_is_the_fixed_one() {
    assert_eq!(
        root_signature(),
        RootSignature {
            ranges: [
                DescriptorRange { kind: RangeKind::ShaderResource, count: 1, base_register: 0 },
                DescriptorRange { kind: RangeKind::ConstantBuffer, count: 1, base_register: 0 },
            ],
            table_visibility: Visibility::All,
            sampler: Sampler {
                address: AddressMode::Wrap,
                filter: Filter::Linear,
                visibility: Visibility::Pixel
            },
        }
    );
}

#[test]
fn each_format_takes_its_bytes() {
    assert_eq!(Format::Rgba8Unorm.bytes(), 4);
    assert_eq!(Format::Rgb32Float.bytes(), 12);
    assert_eq!(Format::Rg32Float.bytes(), 8);
    assert_eq!(Format::R16Uint.bytes(), 2);
}

#[test]
fn the_attributes_fill_the_vertex() {
    let layout = pipeline().input_layout;
    let total: u32 = layout.iter().map(|element| element.format.bytes()).sum();
    assert_eq!(total, VERTEX_STRIDE);
    assert_eq!(layout[0].format.bytes(), 12);
    assert_eq!(pipeline().index_format.bytes(), INDEX_STRIDE);
}

#[test]
fn the_ranges_of_the_table_lie_where_the_views_are_put() {
    let ranges = root_signature().ranges;
    let mut slot = 0;
    for range in ranges {
        match range.kind {
            RangeKind::ShaderResource => assert_eq!(slot, TEXTURE_VIEW_SLOT),
            RangeKind::ConstantBuffer => assert_eq!(slot, CONSTANT_VIEW_SLOT),
        }
        slot += range.count;
    }
    assert_eq!(slot, VIEW_COUNT);
}

#[test]
fn every_attribute_is_read_per_vertex_from_slot_zero() {
    for element in pipeline().input_layout {
        assert_eq!(element.rate, InputRate::PerVertex);
        assert_eq!(element.input_slot, 0);
    }
}
