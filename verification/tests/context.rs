use cac::buffer::{Access, Buffer, Usage};
use cac::color32::ColorBits;
use cac::gen_vec::GenVec;
use cac::handle;
use cac::image::Format;
use cac::math::URect;
use cac::native::Command;
use cac::opengl::report::BuildReport;
use cac::opengl::{Context, Probe};
use cac::render_target::RenderTarget;
use cac::shader::Stage;
use cac::vertex_layout::{Components, Stride, VertexAttribute, VertexLayout};
use cac::{Error, Primitive};

fn context() -> Context {
    let mut context = Context::new(Some(Probe {
        major: 4,
        minor: 3,
        viewport: [0, 0, 800, 600],
    }))
    .unwrap();
    context.take_commands();
    context
}

fn target(context: &mut Context) -> cac::RenderTargetHandle {
    context
        .create_render_target(RenderTarget {
            clear_color: None,
            viewport: URect::new(0, 0, 800, 600),
        })
        .unwrap()
}

fn program(context: &mut Context, id: u32) -> cac::ShaderHandle {
    let linking = context.begin_shader(id, &[], Vec::new()).unwrap();
    let handle = context
        .create_shader(linking, &BuildReport::success())
        .unwrap();
    context.take_commands();
    handle
}

fn layout(context: &mut Context, id: u32) -> cac::VertexLayoutHandle {
    let handle = context.create_layout(id, &VertexLayout::new()).unwrap();
    context.take_commands();
    handle
}

fn failed(log: &str) -> BuildReport {
    BuildReport {
        status: 0,
        log_length: log.len() as i32,
        log: log.as_bytes().to_vec(),
    }
}

#[test]
fn a_context_needs_loaded_entry_points() {
    match Context::new(None) {
        Err(Error::InvalidContext(cause)) => {
            assert_eq!(cause, "failed to load OpenGL fn pointers")
        }
        _ => panic!("a context without entry points"),
    }
}

#[test]
fn a_context_needs_version_4_3() {
    for (major, minor, text) in [
        (3, 3, "version 4.3 required, received 3.3"),
        (4, 2, "version 4.3 required, received 4.2"),
        (0, 0, "version 4.3 required, received 0.0"),
        (-1, 12, "version 4.3 required, received -1.12"),
        (
            i32::MIN,
            i32::MAX,
            "version 4.3 required, received -2147483648.2147483647",
        ),
    ] {
        match Context::new(Some(Probe { major, minor, viewport: [0; 4] })) {
            Err(Error::InvalidContext(cause)) => assert_eq!(cause, text),
            _ => panic!("a context of version {major}.{minor}"),
        }
    }
    for (major, minor) in [(4, 3), (4, 6), (5, 0)] {
        assert!(Context::new(Some(Probe { major, minor, viewport: [0; 4] })).is_ok());
    }
}

#[test]
fn a_context_needs_a_viewport_without_negative_numbers() {
    for (viewport, what) in [
        ([-1, 0, 0, 0], "viewport x to u32"),
        ([0, -1, 0, 0], "viewport y to u32"),
        ([0, 0, -1, 0], "viewport width to u32"),
        ([0, 0, 0, -1], "viewport height to u32"),
        ([-1, -1, -1, -1], "viewport x to u32"),
    ] {
        match Context::new(Some(Probe { major: 4, minor: 3, viewport })) {
            Err(Error::ConversionFailed(cause)) => assert_eq!(cause, what),
            _ => panic!("a context with viewport {viewport:?}"),
        }
    }
}

#[test]
fn a_new_context_sets_up_the_native_one() {
    let mut context = Context::new(Some(Probe {
        major: 4,
        minor: 5,
        viewport: [1, 2, 640, 480],
    }))
    .unwrap();
    assert_eq!(context.viewport(), URect::new(1, 2, 640, 480));
    assert_eq!(
        context.take_commands(),
        vec![
            Command::Enable { capability: gl::DEBUG_OUTPUT },
            Command::DebugMessageCallback,
            Command::Enable { capability: gl::SCISSOR_TEST },
        ]
    );
    assert!(context.take_commands().is_empty());
    assert_eq!(context.poll_errors(), None);
    context.update();
    assert_eq!(context.take_commands(), vec![Command::SwapBuffers]);
}

#[test]
fn draw_without_render_target_submits_nothing() {
    let mut context = context();
    let mut strangers: GenVec<handle::RenderTarget, u8> = GenVec::new();
    let never_created = strangers.insert(0);
    let layout = layout(&mut context, 1);
    let shader = program(&mut context, 2);

    let result = context.draw(never_created, Primitive::Triangles, shader, layout, 0, 3);

    assert!(matches!(result, Err(Error::ResourceNotFound)));
    let commands = context.take_commands();
    assert!(commands
        .iter()
        .all(|command| !matches!(command, Command::DrawArrays { .. })));
    assert!(commands.is_empty());
}

#[test]
fn draw_binds_target_layout_and_program_in_order() {
    let mut context = context();
    let target = target(&mut context);
    let first = layout(&mut context, 7);
    let layout = layout(&mut context, 8);
    let shader = program(&mut context, 9);
    assert!(first != layout);

    // The layout that was created last is current already.
    context
        .draw(target, Primitive::TriangleStrip, shader, layout, 2, 6)
        .unwrap();
    assert_eq!(
        context.take_commands(),
        vec![
            Command::Viewport { x: 0, y: 0, width: 800, height: 600 },
            Command::Scissor { x: 0, y: 0, width: 800, height: 600 },
            Command::UseProgram { program: 9 },
            Command::DrawArrays { mode: gl::TRIANGLE_STRIP, first: 2, count: 6 },
        ]
    );

    context
        .draw(target, Primitive::Triangles, shader, first, 0, 3)
        .unwrap();
    assert_eq!(
        context.take_commands(),
        vec![
            Command::BindVertexArray { array: 7 },
            Command::DrawArrays { mode: gl::TRIANGLES, first: 0, count: 3 },
        ]
    );
}

#[test]
fn binding_the_same_handles_again_issues_no_bind() {
    let mut context = context();
    let target = target(&mut context);
    let layout = layout(&mut context, 1);
    let shader = program(&mut context, 2);

    context
        .draw(target, Primitive::Triangles, shader, layout, 0, 3)
        .unwrap();
    let first = context.take_commands();
    assert_eq!(first.len(), 4);

    for _ in 0..3 {
        context
            .draw(target, Primitive::Triangles, shader, layout, 0, 3)
            .unwrap();
        assert_eq!(
            context.take_commands(),
            vec![Command::DrawArrays { mode: gl::TRIANGLES, first: 0, count: 3 }]
        );
    }

    assert!(context.render_target_mut(target).is_some());
    assert!(context.layout_mut(layout).is_some());
    assert!(context.shader_mut(shader).is_some());
    assert!(context.take_commands().is_empty());
}

#[test]
fn binds_alternate_with_the_handles() {
    let mut context = context();
    let one = program(&mut context, 1);
    let two = program(&mut context, 2);

    let mut binds = Vec::new();
    for shader in [one, one, two, two, two, one, one] {
        assert!(context.shader_mut(shader).is_some());
        binds.extend(context.take_commands());
    }
    assert_eq!(
        binds,
        vec![
            Command::UseProgram { program: 1 },
            Command::UseProgram { program: 2 },
            Command::UseProgram { program: 1 },
        ]
    );
}

#[test]
fn draw_refuses_numbers_that_do_not_fit_and_keeps_the_binds() {
    let mut context = context();
    let target = target(&mut context);
    let layout = layout(&mut context, 1);
    let shader = program(&mut context, 2);
    let too_large = i32::MAX as usize + 1;

    let result = context.draw(target, Primitive::Triangles, shader, layout, too_large, 3);
    assert!(matches!(
        result,
        Err(Error::ConversionFailed("start wraps around i32"))
    ));
    assert_eq!(
        context.take_commands(),
        vec![
            Command::Viewport { x: 0, y: 0, width: 800, height: 600 },
            Command::Scissor { x: 0, y: 0, width: 800, height: 600 },
            Command::UseProgram { program: 2 },
        ]
    );

    let result = context.draw(target, Primitive::Triangles, shader, layout, 0, too_large);
    assert!(matches!(
        result,
        Err(Error::ConversionFailed("count wraps around i32"))
    ));
    assert!(context.take_commands().is_empty());

    let result = context.draw(
        target,
        Primitive::Triangles,
        shader,
        layout,
        i32::MAX as usize,
        i32::MAX as usize,
    );
    assert!(result.is_ok());
    assert_eq!(
        context.take_commands(),
        vec![Command::DrawArrays { mode: gl::TRIANGLES, first: i32::MAX, count: i32::MAX }]
    );
}

#[test]
fn draw_stops_at_the_first_handle_that_is_unknown() {
    let mut context = context();
    let target = target(&mut context);
    let mut layouts: GenVec<handle::VertexLayout, u8> = GenVec::new();
    let unknown_layout = layouts.insert(0);
    let shader = program(&mut context, 2);

    let result = context.draw(target, Primitive::Triangles, shader, unknown_layout, 0, 3);
    assert!(matches!(result, Err(Error::ResourceNotFound)));
    assert_eq!(
        context.take_commands(),
        vec![
            Command::Viewport { x: 0, y: 0, width: 800, height: 600 },
            Command::Scissor { x: 0, y: 0, width: 800, height: 600 },
        ]
    );
    assert!(context.layout_mut(unknown_layout).is_none());
}

#[test]
fn a_render_target_that_does_not_fit_cannot_be_bound() {
    let mut context = context();
    for (viewport, what) in [
        (URect::new(u32::MAX, 0, 1, 1), "viewport x conversion wraps i32"),
        (URect::new(0, 1 << 31, 1, 1), "viewport y conversion wraps i32"),
        (URect::new(0, 0, u32::MAX, 1), "viewport width conversion wraps i32"),
        (URect::new(0, 0, 1, u32::MAX), "viewport height conversion wraps i32"),
    ] {
        let target = context
            .create_render_target(RenderTarget { clear_color: None, viewport })
            .unwrap();
        let layout = layout(&mut context, 1);
        let shader = program(&mut context, 2);
        match context.draw(target, Primitive::Triangles, shader, layout, 0, 3) {
            Err(Error::ConversionFailed(cause)) => assert_eq!(cause, what),
            _ => panic!("a draw onto {viewport:?}"),
        }
        assert!(context.take_commands().is_empty());
    }
}

#[test]
fn render_targets_clear_with_their_color() {
    let mut context = context();
    let color = ColorBits::from_rgba(0x3f80_0000, 0, 0x3f00_0000, 0x3f80_0000);
    let handle = context
        .create_render_target(RenderTarget::with_clear_color(
            URect::new(0, 0, 64, 64),
            color,
        ))
        .unwrap();
    assert_eq!(
        context.render_target(handle).unwrap().current_clear_color(),
        Some(color)
    );
    assert_eq!(
        context.render_target(handle).unwrap().current_viewport(),
        URect::new(0, 0, 64, 64)
    );

    let mut commands = Vec::new();
    let native = context.render_target_mut(handle).unwrap();
    native.clear(&mut commands);
    native.set_clear_color(None);
    native.clear(&mut commands);
    assert_eq!(
        commands,
        vec![
            Command::ClearColor {
                red: 0x3f80_0000,
                green: 0,
                blue: 0x3f00_0000,
                alpha: 0x3f80_0000
            },
            Command::Clear { mask: gl::COLOR_BUFFER_BIT },
            Command::Clear { mask: 0 },
        ]
    );
    assert_eq!(
        context.take_commands(),
        vec![
            Command::Viewport { x: 0, y: 0, width: 64, height: 64 },
            Command::Scissor { x: 0, y: 0, width: 64, height: 64 },
        ]
    );
}

#[test]
fn a_new_viewport_is_bound_at_once() {
    let mut context = context();
    let handle = target(&mut context);
    let mut commands = Vec::new();
    let native = context.render_target_mut(handle).unwrap();
    assert!(native
        .set_viewport(URect::new(8, 8, 16, 16), &mut commands)
        .is_ok());
    assert_eq!(
        commands,
        vec![
            Command::Viewport { x: 8, y: 8, width: 16, height: 16 },
            Command::Scissor { x: 8, y: 8, width: 16, height: 16 },
        ]
    );
    let failed = native.set_viewport(URect::new(8, 8, u32::MAX, 16), &mut commands);
    assert!(matches!(
        failed,
        Err(Error::ConversionFailed("viewport width conversion wraps i32"))
    ));
    assert_eq!(commands.len(), 2);
    assert_eq!(native.current_viewport(), URect::new(8, 8, u32::MAX, 16));
}

#[test]
fn reading_pixels_asks_for_the_rectangle_in_the_format() {
    let mut context = context();
    let handle = target(&mut context);
    let native = context.render_target(handle).unwrap();
    let request = native
        .read_pixels(Format::RgbaU8, URect::new(1, 2, 30, 40))
        .unwrap();
    assert_eq!(
        (request.x, request.y, request.width, request.height),
        (1, 2, 30, 40)
    );
    assert_eq!(request.format, gl::RGBA);
    assert_eq!(request.kind, gl::UNSIGNED_BYTE);
    assert_eq!(request.len, 30 * 40 * 4);

    let request = native
        .read_pixels(Format::RgbF32, URect::new(0, 0, 8, 8))
        .unwrap();
    assert_eq!(request.format, gl::RGB);
    assert_eq!(request.kind, gl::FLOAT);
    assert_eq!(request.len, 192);
    assert_eq!(
        native.read_pixels(Format::RgbU8, URect::new(0, 0, 1, 1)).unwrap().kind,
        gl::UNSIGNED_BYTE
    );
    assert_eq!(
        native.read_pixels(Format::RgbaF32, URect::new(0, 0, 1, 1)).unwrap().format,
        gl::RGBA
    );

    for (rect, what) in [
        (URect::new(u32::MAX, 0, 1, 1), "rect.x to GLint"),
        (URect::new(0, u32::MAX, 1, 1), "rect.y to GLint"),
        (URect::new(0, 0, u32::MAX, 1), "rect.width to GLsizei"),
        (URect::new(0, 0, 1, u32::MAX), "rect.height to GLsizei"),
    ] {
        match native.read_pixels(Format::RgbU8, rect) {
            Err(Error::ConversionFailed(cause)) => assert_eq!(cause, what),
            _ => panic!("pixels of {rect:?}"),
        }
    }
}

#[test]
fn buffers_upload_their_data_once() {
    let mut context = context();
    let data = [1u32, 2, 3, 4, 5];
    let handle = context
        .create_buffer(
            11,
            &Buffer::with_vertex_data(Access::Frequent, Usage::Write, &data),
        )
        .unwrap();
    assert_eq!(
        context.take_commands(),
        vec![
            Command::BindBuffer { target: gl::ARRAY_BUFFER, buffer: 11 },
            Command::BufferData { target: gl::ARRAY_BUFFER, size: 20, usage: gl::DYNAMIC_DRAW },
        ]
    );
    assert_eq!(context.buffer(handle).unwrap().native_id(), 11);
    assert_eq!(context.buffer(handle).unwrap().native_kind(), gl::ARRAY_BUFFER);
    assert!(context.buffer_mut(handle).is_some());

    let empty = context.create_buffer(12, &Buffer::<u8>::new()).unwrap();
    assert!(context.take_commands().is_empty());
    assert!(context.set_buffer_data(empty, &[7u8, 8, 9]).is_ok());
    assert_eq!(
        context.take_commands(),
        vec![
            Command::BindBuffer { target: gl::ARRAY_BUFFER, buffer: 12 },
            Command::BufferData { target: gl::ARRAY_BUFFER, size: 3, usage: gl::STATIC_DRAW },
        ]
    );
}

#[test]
fn buffer_usage_hints() {
    let mut context = context();
    let data = [0u8];
    for (access, usage, hint) in [
        (Access::Once, Usage::Write, gl::STATIC_DRAW),
        (Access::Frequent, Usage::Write, gl::DYNAMIC_DRAW),
        (Access::Always, Usage::Write, gl::STREAM_DRAW),
        (Access::Once, Usage::Read, gl::STATIC_READ),
        (Access::Frequent, Usage::Read, gl::DYNAMIC_READ),
        (Access::Always, Usage::Read, gl::STREAM_READ),
        (Access::Once, Usage::Copy, gl::STATIC_COPY),
        (Access::Frequent, Usage::Copy, gl::DYNAMIC_COPY),
        (Access::Always, Usage::Copy, gl::STREAM_COPY),
    ] {
        context
            .create_buffer(1, &Buffer::with_vertex_data(access, usage, &data))
            .unwrap();
        assert_eq!(
            context.take_commands()[1],
            Command::BufferData { target: gl::ARRAY_BUFFER, size: 1, usage: hint }
        );
        assert_eq!(
            u32::from(cac::opengl::buffer::AccessUsage(access, usage)),
            hint
        );
    }
    assert_eq!(u32::from(cac::buffer::Kind::Vertex), gl::ARRAY_BUFFER);
    assert_eq!(
        cac::opengl::buffer::kind_of(gl::ARRAY_BUFFER).unwrap(),
        cac::buffer::Kind::Vertex
    );
    assert!(matches!(
        cac::opengl::buffer::kind_of(gl::FLOAT),
        Err(Error::ConversionFailed("glenum to bufferkind"))
    ));
}

#[test]
fn a_buffer_whose_size_does_not_fit_is_refused_and_deleted() {
    let mut context = context();
    // Half a billion and one items of eight bytes: one item more than fits.
    let items = (i32::MAX as usize + 1) / 8;
    let data = vec![0u64; items];
    let result = context.create_buffer(
        5,
        &Buffer::with_vertex_data(Access::Once, Usage::Write, &data),
    );
    assert!(matches!(
        result,
        Err(Error::ConversionFailed("buffer length into i32"))
    ));
    assert_eq!(
        context.take_commands(),
        vec![Command::DeleteBuffer { buffer: 5 }]
    );

    let fits = context.create_buffer(
        6,
        &Buffer::with_vertex_data(Access::Once, Usage::Write, &data[1..]),
    );
    assert!(fits.is_ok());
    assert_eq!(
        context.take_commands()[1],
        Command::BufferData {
            target: gl::ARRAY_BUFFER,
            size: i32::MAX - 7,
            usage: gl::STATIC_DRAW
        }
    );

    let handle = fits.unwrap();
    assert!(matches!(
        context.set_buffer_data(handle, &data),
        Err(Error::ConversionFailed("buffer length into i32"))
    ));
    assert!(context.take_commands().is_empty());
}

#[test]
fn setting_data_needs_a_buffer() {
    let mut context = context();
    let mut strangers: GenVec<handle::Buffer, u8> = GenVec::new();
    let unknown = strangers.insert(0);
    assert!(matches!(
        context.set_buffer_data(unknown, &[1u8]),
        Err(Error::ResourceNotFound)
    ));
    assert!(context.buffer(unknown).is_none());
    assert!(context.buffer_mut(unknown).is_none());
}

#[test]
fn layouts_describe_attributes_and_bind_buffers() {
    let mut context = context();
    let data = [0u8; 56];
    let buffer = context
        .create_buffer(3, &Buffer::with_vertex_data(Access::Once, Usage::Write, &data))
        .unwrap();
    context.take_commands();

    let mut layout = VertexLayout::new();
    layout.push_attributes([
        VertexAttribute::with_f32(0, Components::Vec3, 0),
        VertexAttribute::with_f32(1, Components::Vec4, 12),
    ]);
    layout.push_attributes([VertexAttribute {
        location: 2,
        components: Components::Vec4,
        kind: cac::vertex_layout::AttributeKind::U8,
        normalized: true,
        local_offset: 0,
    }]);
    layout
        .set_buffer(0, buffer, Stride::Interleaved, 4)
        .unwrap();

    let handle = context.create_layout(20, &layout).unwrap();
    assert_eq!(context.layout(handle).unwrap().native_id(), 20);
    assert_eq!(
        context.take_commands(),
        vec![
            Command::BindVertexArray { array: 20 },
            Command::EnableVertexAttribArray { index: 0 },
            Command::VertexAttribFormat {
                index: 0,
                size: 3,
                kind: gl::FLOAT,
                normalized: false,
                relative_offset: 0
            },
            Command::VertexAttribBinding { index: 0, binding: 0 },
            Command::EnableVertexAttribArray { index: 1 },
            Command::VertexAttribFormat {
                index: 1,
                size: 4,
                kind: gl::FLOAT,
                normalized: false,
                relative_offset: 12
            },
            Command::VertexAttribBinding { index: 1, binding: 0 },
            Command::EnableVertexAttribArray { index: 2 },
            Command::VertexAttribFormat {
                index: 2,
                size: 4,
                kind: gl::BYTE,
                normalized: true,
                relative_offset: 0
            },
            Command::VertexAttribBinding { index: 2, binding: 1 },
            Command::BindVertexBuffer { binding: 0, buffer: 3, offset: 4, stride: 28 },
            Command::BindVertexArray { array: 20 },
        ]
    );

    let (found, buffers) = context.layout_mut_and_buffers(handle, &[buffer, buffer]);
    assert!(found.is_some());
    assert_eq!(buffers.len(), 2);
    assert_eq!(buffers[0].unwrap().native_id(), 3);
    assert!(context.take_commands().is_empty());
}

#[test]
fn a_layout_with_an_unknown_buffer_is_refused_and_deleted() {
    let mut context = context();
    let mut strangers: GenVec<handle::Buffer, u8> = GenVec::new();
    let unknown = strangers.insert(0);
    let mut layout = VertexLayout::new();
    layout.push_attributes([VertexAttribute::with_f32(0, Components::Scalar, 0)]);
    layout
        .set_buffer(0, unknown, Stride::Interleaved, 0)
        .unwrap();

    let result = context.create_layout(4, &layout);
    assert!(matches!(result, Err(Error::ResourceNotFound)));
    let commands = context.take_commands();
    assert_eq!(commands.len(), 5);
    assert_eq!(commands[0], Command::BindVertexArray { array: 4 });
    assert_eq!(commands[4], Command::DeleteVertexArray { array: 4 });

    // Nothing was created: the next layout gets the first slot.
    let first = context.create_layout(5, &VertexLayout::new()).unwrap();
    let mut fresh: GenVec<handle::VertexLayout, u8> = GenVec::new();
    assert!(first == fresh.insert(0));
}

#[test]
fn a_layout_whose_numbers_do_not_fit_is_refused() {
    let mut context = context();
    let data = [0u8; 4];
    let buffer = context
        .create_buffer(3, &Buffer::with_vertex_data(Access::Once, Usage::Write, &data))
        .unwrap();
    context.take_commands();
    let too_large = i32::MAX as usize + 1;

    let mut layout = VertexLayout::new();
    layout.push_attributes([VertexAttribute::with_f32(0, Components::Scalar, 0)]);
    layout
        .set_buffer(0, buffer, Stride::Bytes(too_large), 0)
        .unwrap();
    assert!(matches!(
        context.create_layout(4, &layout),
        Err(Error::ConversionFailed("buffer stride wraps"))
    ));
    assert_eq!(
        context.take_commands().last(),
        Some(&Command::DeleteVertexArray { array: 4 })
    );

    layout
        .set_buffer(0, buffer, Stride::Bytes(16), usize::MAX)
        .unwrap();
    assert!(matches!(
        context.create_layout(4, &layout),
        Err(Error::ConversionFailed("buffer offset wraps"))
    ));
    context.take_commands();

    let mut layout = VertexLayout::new();
    layout.push_attributes([
        VertexAttribute::with_f32(0, Components::Scalar, 0),
        VertexAttribute::with_f32(1, Components::Scalar, usize::MAX),
        VertexAttribute::with_f32(2, Components::Scalar, 8),
    ]);
    assert!(matches!(
        context.create_layout(4, &layout),
        Err(Error::ConversionFailed("local attribute offset to GLuint"))
    ));
    assert_eq!(
        context.take_commands(),
        vec![
            Command::BindVertexArray { array: 4 },
            Command::EnableVertexAttribArray { index: 0 },
            Command::VertexAttribFormat {
                index: 0,
                size: 1,
                kind: gl::FLOAT,
                normalized: false,
                relative_offset: 0
            },
            Command::VertexAttribBinding { index: 0, binding: 0 },
            Command::DeleteVertexArray { array: 4 },
        ]
    );
}

#[test]
fn stages_are_compiled_and_kept() {
    let mut context = context();
    let sources = ["#version 430 core\n", "void main() {}"];
    let native = context.begin_stage(31, Stage::new_vertex(&sources)).unwrap();
    assert_eq!(native.native_id(), 31);
    assert_eq!(native.stage_kind(), cac::shader::Kind::Vertex);
    assert_eq!(
        context.take_commands(),
        vec![
            Command::ShaderSource { shader: 31, count: 2 },
            Command::CompileShader { shader: 31 },
        ]
    );
    let handle = context
        .create_stage(native, &BuildReport::success())
        .unwrap();
    assert!(context.take_commands().is_empty());
    assert_eq!(context.stage(handle).unwrap().native_id(), 31);
    assert_eq!(u32::from(cac::shader::Kind::Vertex), gl::VERTEX_SHADER);
    assert_eq!(u32::from(cac::shader::Kind::Fragment), gl::FRAGMENT_SHADER);
}

#[test]
fn a_stage_that_fails_to_compile_carries_the_text_of_the_compiler() {
    let mut context = context();
    let sources = ["void main() {"];
    let native = context
        .begin_stage(32, Stage::new_fragment(&sources))
        .unwrap();
    context.take_commands();
    let result = context.create_stage(native, &failed("0:1(14): error: syntax error"));
    match result {
        Err(Error::FailedToCompileShader(cause)) => {
            assert_eq!(cause, "0:1(14): error: syntax error")
        }
        _ => panic!("a stage from a source with an error"),
    }
    assert_eq!(
        context.take_commands(),
        vec![Command::DeleteShader { shader: 32 }]
    );

    let native = context
        .begin_stage(33, Stage::new_fragment(&sources))
        .unwrap();
    let report = BuildReport { status: 0, log_length: -1, log: Vec::new() };
    assert!(matches!(
        context.compile_stage(native, &report),
        Err(Error::ConversionFailed("failed to convert stage error length"))
    ));

    let native = context
        .begin_stage(34, Stage::new_fragment(&sources))
        .unwrap();
    let report = BuildReport { status: 0, log_length: 2, log: vec![b'o', 0xff] };
    match context.compile_stage(native, &report) {
        Err(Error::FailedToCompileShader(cause)) => assert_eq!(cause, "o\u{fffd}"),
        _ => panic!("a stage from a source with an error"),
    }
}

#[test]
fn a_source_with_a_zero_byte_is_refused() {
    let mut context = context();
    let sources = ["void main() {}", "uniform\0 float x;"];
    match context.begin_stage(40, Stage::new_vertex(&sources)) {
        Err(Error::FailedToCompileShader(cause)) => {
            assert_eq!(cause, "source is not a valid CString")
        }
        _ => panic!("a stage from a source with a zero byte"),
    }
    assert_eq!(
        context.take_commands(),
        vec![Command::DeleteShader { shader: 40 }]
    );
    assert!(cac::opengl::stage::is_terminable(b"void"));
    assert!(cac::opengl::stage::is_terminable(b""));
    assert!(!cac::opengl::stage::is_terminable(b"vo\0id"));
}

#[test]
fn programs_attach_link_and_detach_their_stages() {
    let mut context = context();
    let sources = ["void main() {}"];
    let native = context.begin_stage(1, Stage::new_vertex(&sources)).unwrap();
    let kept = context
        .create_stage(native, &BuildReport::success())
        .unwrap();
    let temporary = context
        .begin_stage(2, Stage::new_fragment(&sources))
        .unwrap();
    let temporary = context
        .compile_stage(temporary, &BuildReport::success())
        .unwrap();
    context.take_commands();

    let linking = context.begin_shader(9, &[kept], vec![temporary]).unwrap();
    assert_eq!(linking.native_id(), 9);
    assert_eq!(
        context.take_commands(),
        vec![
            Command::AttachShader { program: 9, shader: 2 },
            Command::AttachShader { program: 9, shader: 1 },
            Command::LinkProgram { program: 9 },
        ]
    );
    let handle = context
        .create_shader(linking, &BuildReport::success())
        .unwrap();
    assert_eq!(
        context.take_commands(),
        vec![
            Command::DetachShader { program: 9, shader: 2 },
            Command::DetachShader { program: 9, shader: 1 },
            Command::DeleteShader { shader: 2 },
        ]
    );
    assert_eq!(context.shader(handle).unwrap().native_id(), 9);
}

#[test]
fn a_program_that_fails_to_link_is_deleted() {
    let mut context = context();
    let sources = ["void main() {}"];
    let temporary = context
        .begin_stage(2, Stage::new_fragment(&sources))
        .unwrap();
    context.take_commands();
    let linking = context.begin_shader(9, &[], vec![temporary]).unwrap();
    context.take_commands();
    match context.create_shader(linking, &failed("error: no vertex stage")) {
        Err(Error::FailedToLinkShader(cause)) => assert_eq!(cause, "error: no vertex stage"),
        _ => panic!("a program that does not link"),
    }
    assert_eq!(
        context.take_commands(),
        vec![
            Command::DeleteShader { shader: 2 },
            Command::DeleteProgram { program: 9 },
        ]
    );

    let linking = context.begin_shader(10, &[], Vec::new()).unwrap();
    let report = BuildReport { status: 0, log_length: -5, log: Vec::new() };
    assert!(matches!(
        context.create_shader(linking, &report),
        Err(Error::ConversionFailed("failed to convert program error length"))
    ));
}

#[test]
fn a_program_with_an_unknown_stage_is_given_up() {
    let mut context = context();
    let mut strangers: GenVec<handle::Stage, u8> = GenVec::new();
    let unknown = strangers.insert(0);
    let sources = ["void main() {}"];
    let temporary = context
        .begin_stage(2, Stage::new_fragment(&sources))
        .unwrap();
    context.take_commands();

    let result = context.begin_shader(9, &[unknown], vec![temporary]);
    assert!(matches!(result, Err(Error::ResourceNotFound)));
    assert_eq!(
        context.take_commands(),
        vec![
            Command::DeleteShader { shader: 2 },
            Command::DeleteProgram { program: 9 },
        ]
    );

    let temporary = context
        .begin_stage(3, Stage::new_fragment(&sources))
        .unwrap();
    context.take_commands();
    context.abandon_shader(12, vec![temporary]);
    assert_eq!(
        context.take_commands(),
        vec![
            Command::DeleteShader { shader: 3 },
            Command::DeleteProgram { program: 12 },
        ]
    );
}

#[test]
fn reset_releases_everything_and_forgets_the_handles() {
    let mut context = context();
    let target = target(&mut context);
    let data = [0u8];
    let description = Buffer::with_vertex_data(Access::Once, Usage::Write, &data);
    let first = context.create_buffer(1, &description).unwrap();
    let second = context.create_buffer(2, &description).unwrap();
    let layout = layout(&mut context, 3);
    let sources = ["void main() {}"];
    let native = context.begin_stage(4, Stage::new_vertex(&sources)).unwrap();
    let stage = context
        .create_stage(native, &BuildReport::success())
        .unwrap();
    let shader = program(&mut context, 5);
    context
        .draw(target, Primitive::Triangles, shader, layout, 0, 3)
        .unwrap();
    context.debug_message(
        gl::DEBUG_SOURCE_API,
        gl::DEBUG_TYPE_ERROR,
        1,
        gl::DEBUG_SEVERITY_HIGH,
        "x",
    );
    context.take_commands();

    context.reset();

    assert_eq!(
        context.take_commands(),
        vec![
            Command::DeleteBuffer { buffer: 1 },
            Command::DeleteBuffer { buffer: 2 },
            Command::DeleteVertexArray { array: 3 },
            Command::DeleteShader { shader: 4 },
            Command::DeleteProgram { program: 5 },
        ]
    );
    assert!(context.buffer(first).is_none());
    assert!(context.buffer(second).is_none());
    assert!(context.layout(layout).is_none());
    assert!(context.stage(stage).is_none());
    assert!(context.shader(shader).is_none());
    assert!(context.render_target(target).is_none());
    assert_eq!(context.poll_errors(), None);
    assert_eq!(context.viewport(), URect::new(0, 0, 800, 600));

    // Nothing is bound any more: the first draw binds again.
    let target = self::target(&mut context);
    let layout = self::layout(&mut context, 6);
    let shader = program(&mut context, 7);
    context
        .draw(target, Primitive::Triangles, shader, layout, 0, 3)
        .unwrap();
    assert_eq!(context.take_commands().len(), 4);
}

#[test]
fn the_context_keeps_what_the_driver_reports() {
    let mut context = context();
    let capacity = cac::opengl::diagnostics::LOG_CAPACITY;
    assert_eq!(capacity, 20);
    let mut warnings = 0;
    for id in 0..capacity as u32 + 5 {
        let record = context.debug_message(
            gl::DEBUG_SOURCE_APPLICATION,
            gl::DEBUG_TYPE_PORTABILITY,
            id,
            gl::DEBUG_SEVERITY_MEDIUM,
            "careful",
        );
        assert_eq!(record.level, cac::opengl::diagnostics::Level::Warn);
        if record.discarded {
            warnings += 1;
        }
    }
    assert_eq!(warnings, 1);
    let polled = context.poll_errors().unwrap();
    assert_eq!(polled.len(), capacity);
    assert_eq!(polled[0], "0: PORTABILITY from APPLICATION: careful");
    assert_eq!(polled[19], "19: PORTABILITY from APPLICATION: careful");
    assert_eq!(context.poll_errors(), None);
}

#[test]
fn build_reports_say_what_to_fetch() {
    assert!(!BuildReport::wants_log(1));
    assert!(BuildReport::wants_log(0));
    assert!(BuildReport::wants_log(-1));
    assert_eq!(BuildReport::log_size(0), Some(0));
    assert_eq!(BuildReport::log_size(512), Some(512));
    assert_eq!(BuildReport::log_size(-1), None);
    assert_eq!(failed("abc").read_log(), "abc");
    assert!(cac::opengl::stage::judge(1, -1, String::new()).is_ok());
    assert!(cac::opengl::shader::judge(1, -1, String::new()).is_ok());
    assert!(matches!(
        cac::opengl::shader::judge(0, 3, "abc".to_owned()),
        Err(Error::FailedToLinkShader(_))
    ));
    assert!(matches!(
        cac::opengl::stage::judge(2, 3, "abc".to_owned()),
        Err(Error::FailedToCompileShader(_))
    ));
}
