use shaderx_wgpu::gfx::gfx_state::CommonUniformBuffer;
use shaderx_wgpu::gfx::uniform_buffer::{
    BindGroupLayoutEntry, ShaderStages, UniformBuffer, UniformBufferCreateDesc,
};

#[test]
fn uniform_buffer_starts_with_the_given_record() {
    let data = CommonUniformBuffer { time: 5, delta_time: 2 };
    let buffer = UniformBuffer::new(&UniformBufferCreateDesc { data: &data, size: 16, binding: 3 });
    assert_eq!(buffer.contents, data);
    assert_eq!(buffer.size, 16);
    assert_eq!(buffer.binding, 3);
}

#[test]
fn uniform_buffer_update_overwrites_in_place() {
    let data = CommonUniformBuffer { time: 0, delta_time: 0 };
    let mut buffer = UniformBuffer::new(&UniformBufferCreateDesc { data: &data, size: 16, binding: 0 });
    let next = CommonUniformBuffer { time: 1_000_000, delta_time: 1_000_000 };
    buffer.update(&next);
    assert_eq!(buffer, UniformBuffer { contents: next, size: 16, binding: 0 });
    buffer.update(&data);
    assert_eq!(buffer, UniformBuffer { contents: data, size: 16, binding: 0 });
}

#[test]
fn uniform_buffer_is_visible_to_vertex_and_fragment() {
    let buffer = UniformBuffer::new(&UniformBufferCreateDesc { data: &7u32, size: 4, binding: 9 });
    assert_eq!(
        buffer.layout_entry(),
        BindGroupLayoutEntry {
            binding: 9,
            visibility: ShaderStages { vertex: true, fragment: true, compute: false },
            has_dynamic_offset: false,
            min_binding_size: None,
        }
    );
}
