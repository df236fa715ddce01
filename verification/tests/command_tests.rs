use broth::command::{record_command_buffer, record_command_buffers, DrawCommand};
use broth::render::RenderDimension;

#[test]
fn one_buffer_records_the_full_pass() {
    let commands = record_command_buffer(2, 9);
    assert_eq!(
        commands,
        vec![
            DrawCommand::BeginRenderPass { framebuffer: 2 },
            DrawCommand::BindPipeline,
            DrawCommand::BindVertexBuffer,
            DrawCommand::BindIndexBuffer,
            DrawCommand::BindDescriptorSet { set: 2 },
            DrawCommand::DrawIndexed { index_count: 9 },
            DrawCommand::EndRenderPass,
        ]
    );
}

#[test]
fn one_buffer_is_recorded_per_swapchain_image() {
    let buffers = record_command_buffers(3, 36);
    assert_eq!(buffers.len(), 3);
    for (i, commands) in buffers.iter().enumerate() {
        assert_eq!(commands[0], DrawCommand::BeginRenderPass { framebuffer: i });
        assert_eq!(commands[4], DrawCommand::BindDescriptorSet { set: i });
        assert_eq!(commands[5], DrawCommand::DrawIndexed { index_count: 36 });
    }
}

#[test]
fn render_dimension_defaults_to_3d() {
    assert_eq!(RenderDimension::default(), RenderDimension::D3);
}
