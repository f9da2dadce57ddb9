use cac::native;
use cac::Primitive;

#[test]
fn the_numbers_are_those_of_the_native_api() {
    assert_eq!(native::ARRAY_BUFFER, gl::ARRAY_BUFFER);
    assert_eq!(native::STREAM_DRAW, gl::STREAM_DRAW);
    assert_eq!(native::STREAM_READ, gl::STREAM_READ);
    assert_eq!(native::STREAM_COPY, gl::STREAM_COPY);
    assert_eq!(native::STATIC_DRAW, gl::STATIC_DRAW);
    assert_eq!(native::STATIC_READ, gl::STATIC_READ);
    assert_eq!(native::STATIC_COPY, gl::STATIC_COPY);
    assert_eq!(native::DYNAMIC_DRAW, gl::DYNAMIC_DRAW);
    assert_eq!(native::DYNAMIC_READ, gl::DYNAMIC_READ);
    assert_eq!(native::DYNAMIC_COPY, gl::DYNAMIC_COPY);
    assert_eq!(native::BYTE, gl::BYTE);
    assert_eq!(native::UNSIGNED_BYTE, gl::UNSIGNED_BYTE);
    assert_eq!(native::FLOAT, gl::FLOAT);
    assert_eq!(native::RGB, gl::RGB);
    assert_eq!(native::RGBA, gl::RGBA);
    assert_eq!(native::TRIANGLES, gl::TRIANGLES);
    assert_eq!(native::TRIANGLE_STRIP, gl::TRIANGLE_STRIP);
    assert_eq!(native::FRAGMENT_SHADER, gl::FRAGMENT_SHADER);
    assert_eq!(native::VERTEX_SHADER, gl::VERTEX_SHADER);
    assert_eq!(native::COLOR_BUFFER_BIT, gl::COLOR_BUFFER_BIT);
    assert_eq!(native::SCISSOR_TEST, gl::SCISSOR_TEST);
    assert_eq!(native::DEBUG_OUTPUT, gl::DEBUG_OUTPUT);
}

#[test]
fn the_numbers_of_messages_are_those_of_the_native_api() {
    assert_eq!(native::DEBUG_SOURCE_API, gl::DEBUG_SOURCE_API);
    assert_eq!(native::DEBUG_SOURCE_WINDOW_SYSTEM, gl::DEBUG_SOURCE_WINDOW_SYSTEM);
    assert_eq!(native::DEBUG_SOURCE_SHADER_COMPILER, gl::DEBUG_SOURCE_SHADER_COMPILER);
    assert_eq!(native::DEBUG_SOURCE_THIRD_PARTY, gl::DEBUG_SOURCE_THIRD_PARTY);
    assert_eq!(native::DEBUG_SOURCE_APPLICATION, gl::DEBUG_SOURCE_APPLICATION);
    assert_eq!(native::DEBUG_SOURCE_OTHER, gl::DEBUG_SOURCE_OTHER);
    assert_eq!(native::DEBUG_TYPE_ERROR, gl::DEBUG_TYPE_ERROR);
    assert_eq!(native::DEBUG_TYPE_DEPRECATED_BEHAVIOR, gl::DEBUG_TYPE_DEPRECATED_BEHAVIOR);
    assert_eq!(native::DEBUG_TYPE_UNDEFINED_BEHAVIOR, gl::DEBUG_TYPE_UNDEFINED_BEHAVIOR);
    assert_eq!(native::DEBUG_TYPE_PORTABILITY, gl::DEBUG_TYPE_PORTABILITY);
    assert_eq!(native::DEBUG_TYPE_PERFORMANCE, gl::DEBUG_TYPE_PERFORMANCE);
    assert_eq!(native::DEBUG_SEVERITY_HIGH, gl::DEBUG_SEVERITY_HIGH);
    assert_eq!(native::DEBUG_SEVERITY_MEDIUM, gl::DEBUG_SEVERITY_MEDIUM);
    assert_eq!(native::DEBUG_SEVERITY_LOW, gl::DEBUG_SEVERITY_LOW);
    assert_eq!(native::DEBUG_SEVERITY_NOTIFICATION, gl::DEBUG_SEVERITY_NOTIFICATION);
}

#[test]
fn primitives_map_to_draw_modes() {
    assert_eq!(u32::from(Primitive::Triangles), gl::TRIANGLES);
    assert_eq!(u32::from(Primitive::TriangleStrip), gl::TRIANGLE_STRIP);
}

#[test]
fn conversions_keep_the_number_or_name_what_failed() {
    assert_eq!(native::to_i32(0, "x").unwrap(), 0);
    assert_eq!(native::to_i32(i32::MAX as usize, "x").unwrap(), i32::MAX);
    assert!(matches!(
        native::to_i32(i32::MAX as usize + 1, "count"),
        Err(cac::Error::ConversionFailed("count"))
    ));
    assert_eq!(native::to_u32(u32::MAX as usize, "x").unwrap(), u32::MAX);
    assert_eq!(native::to_isize(12, "x").unwrap(), 12);
    assert!(matches!(
        native::to_isize(usize::MAX, "offset"),
        Err(cac::Error::ConversionFailed("offset"))
    ));
    assert_eq!(native::u32_to_i32(7, "x").unwrap(), 7);
    assert!(matches!(
        native::u32_to_i32(u32::MAX, "width"),
        Err(cac::Error::ConversionFailed("width"))
    ));
}
