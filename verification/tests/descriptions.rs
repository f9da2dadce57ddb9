use cac::buffer::{Access, Buffer, Kind, Usage};
use cac::color32::ColorBits;
use cac::image::Format;
use cac::math::{IRect, Origin, Rect, URect};
use cac::render_target::RenderTarget;
use cac::shader::{Shader, Stage};
use cac::Error;

#[test]
fn error_messages() {
    assert_eq!(
        Error::InvalidContext("no loader".to_owned()).message(),
        "invalid context, caused by no loader"
    );
    assert_eq!(Error::ResourceNotFound.message(), "resource not found");
    assert_eq!(
        Error::FailedToCompileShader("0:1 syntax".to_owned()).message(),
        "failed to compile shader stage, caused by 0:1 syntax"
    );
    assert_eq!(
        Error::FailedToLinkShader("missing main".to_owned()).message(),
        "failed to link shader, caused by missing main"
    );
    assert_eq!(
        Error::ConversionFailed("start wraps around i32").message(),
        "conversion failed, caused by start wraps around i32"
    );
    assert_eq!(
        Error::ExternalError("png".to_owned()).message(),
        "external error, caused by png"
    );
}

#[test]
fn image_error_messages() {
    assert_eq!(
        cac::image::Error::ConversionFailed("width to usize").message(),
        "conversion failed, caused by width to usize"
    );
    assert_eq!(
        cac::image::Error::FileNotFound("ferris.png".to_owned()).message(),
        "ferris.png not found"
    );
    assert_eq!(
        cac::image::Error::UpScalingNotSupported.message(),
        "upscaling is not supported yet"
    );
    assert_eq!(
        cac::image::Error::DimensionMismatch.message(),
        "not enough data provided for all channels with width/height"
    );
    assert_eq!(
        cac::image::Error::EncodingFailed("disk full".to_owned()).message(),
        "encoding failed, caused by disk full"
    );
}

#[test]
fn formats_and_storage() {
    assert_eq!(Format::RgbU8.channels(), 3);
    assert_eq!(Format::RgbF32.channels(), 3);
    assert_eq!(Format::RgbaU8.channels(), 4);
    assert_eq!(Format::RgbaF32.channels(), 4);
    assert_eq!(Format::RgbU8.storage_len(8, 8), Some(192));
    assert_eq!(Format::RgbaF32.storage_len(640, 480), Some(1_228_800));
    assert_eq!(Format::RgbaU8.storage_len(0, 480), Some(0));
    assert!(Format::RgbU8.holds(8, 8, 192));
    assert!(Format::RgbU8.holds(8, 8, 200));
    assert!(!Format::RgbU8.holds(8, 8, 191));
    assert!(!Format::RgbaU8.holds(8, 8, 192));
}

#[test]
fn buffer_descriptions() {
    let empty = Buffer::<u8>::new();
    assert_eq!(empty.kind, Kind::Vertex);
    assert_eq!(empty.access, Access::Once);
    assert_eq!(empty.usage, Usage::Write);
    assert!(empty.data.is_none());

    let data = [1u16, 2, 3];
    let filled = Buffer::with_vertex_data(Access::Always, Usage::Copy, &data);
    assert_eq!(filled.kind, Kind::Vertex);
    assert_eq!(filled.access, Access::Always);
    assert_eq!(filled.usage, Usage::Copy);
    assert_eq!(filled.data, Some(&data[..]));
    assert_eq!(Access::default(), Access::Once);
    assert_eq!(Usage::default(), Usage::Write);
    assert_eq!(Kind::Vertex.name(), "vertex");
}

#[test]
fn shader_descriptions() {
    let sources = ["void main() {}"];
    let vertex = Stage::new_vertex(&sources);
    assert_eq!(vertex.kind, cac::shader::Kind::Vertex);
    assert_eq!(vertex.sources, &sources);
    let fragment = Stage::new_fragment(&sources);
    assert_eq!(fragment.kind, cac::shader::Kind::Fragment);

    let stages = [vertex, fragment];
    let inline = Shader::with_stages(&stages);
    assert!(inline.stages.is_empty());
    assert_eq!(inline.stage_sources.len(), 2);

    let by_handle = Shader::with_handles(&[]);
    assert!(by_handle.stages.is_empty());
    assert!(by_handle.stage_sources.is_empty());
    assert_eq!(cac::shader::Kind::Vertex.name(), "vertex");
    assert_eq!(cac::shader::Kind::Fragment.name(), "fragment");
}

#[test]
fn rectangles() {
    let rect = URect::new(1, 2, 3, 4);
    assert_eq!(rect, Rect { x: 1, y: 2, width: 3, height: 4 });
    assert_eq!(
        URect::with_points((10, 20), (110, 70)),
        Rect { x: 10, y: 20, width: 100, height: 50 }
    );
    assert_eq!(
        IRect::with_points((-10, 5), (10, -5)),
        Rect { x: -10, y: 5, width: 20, height: -10 }
    );
    assert_eq!(URect::zero(), Rect { x: 0, y: 0, width: 0, height: 0 });
    assert_eq!(Origin::default(), Origin::TopLeft);
}

#[test]
fn render_target_description() {
    let color = ColorBits::from_rgba(1, 2, 3, 4);
    assert_eq!(color.as_rgba(), [1, 2, 3, 4]);
    let target = RenderTarget::with_clear_color(URect::new(0, 0, 800, 600), color);
    assert_eq!(target.clear_color, Some(color));
    assert_eq!(target.viewport, URect::new(0, 0, 800, 600));
}
