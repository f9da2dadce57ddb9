//! Render targets as the native API sees them.

use crate::color32::ColorBits;
use crate::error::{Error, Failure};
use crate::image::Format;
use crate::math::URect;
use crate::native::{u32_to_i32, Command, Trace, COLOR_BUFFER_BIT, FLOAT, RGB, RGBA, UNSIGNED_BYTE};
use crate::render_target::RenderTarget;
use vstd::prelude::*;

verus! {

/// A render target: the part of the surface that is drawn onto, and the
/// colour it is cleared with, if it is cleared at all.
#[derive(Debug)]
pub struct Native {
    viewport: URect,
    clear_color: Option<ColorBits>,
}

/// What making a viewport current asks for: the viewport and the scissor
/// rectangle are set to it, unless one of its numbers does not fit the
/// native call.
pub open spec fn binding(viewport: URect) -> Trace {
    if viewport.x > i32::MAX {
        Trace::unfit("viewport x conversion wraps i32"@)
    } else if viewport.y > i32::MAX {
        Trace::unfit("viewport y conversion wraps i32"@)
    } else if viewport.width > i32::MAX {
        Trace::unfit("viewport width conversion wraps i32"@)
    } else if viewport.height > i32::MAX {
        Trace::unfit("viewport height conversion wraps i32"@)
    } else {
        Trace::done(
            seq![
                Command::Viewport {
                    x: viewport.x as i32,
                    y: viewport.y as i32,
                    width: viewport.width as i32,
                    height: viewport.height as i32,
                },
                Command::Scissor {
                    x: viewport.x as i32,
                    y: viewport.y as i32,
                    width: viewport.width as i32,
                    height: viewport.height as i32,
                },
            ],
        )
    }
}

/// What clearing asks for: with a colour, the colour is set and the colour
/// buffer cleared; without one, nothing is cleared.
pub open spec fn clearing(clear_color: Option<ColorBits>) -> Seq<Command> {
    match clear_color {
        Some(color) => seq![
            Command::ClearColor { red: color.r, green: color.g, blue: color.b, alpha: color.a },
            Command::Clear { mask: COLOR_BUFFER_BIT },
        ],
        None => seq![Command::Clear { mask: 0 }],
    }
}

/// What the native API is asked for when pixels are read back: the
/// rectangle, how the pixels are laid out, and how many channel values come
/// back.
#[derive(Copy, Clone, Debug, PartialEq, Eq, Structural)]
pub struct ReadPixels {
    pub x: i32,
    pub y: i32,
    pub width: i32,
    pub height: i32,
    pub format: u32,
    pub kind: u32,
    pub len: usize,
}

/// The layout that the native API names a pixel format by.
pub open spec fn layout_of(format: Format) -> (u32, u32) {
    match format {
        Format::RgbU8 => (RGB, UNSIGNED_BYTE),
        Format::RgbF32 => (RGB, FLOAT),
        Format::RgbaU8 => (RGBA, UNSIGNED_BYTE),
        Format::RgbaF32 => (RGBA, FLOAT),
    }
}

/// Why the pixels of the rectangle cannot be read back, if they cannot.
pub open spec fn unreadable(format: Format, rect: URect) -> Option<Seq<char>> {
    if format.value_count(rect.width as nat, rect.height as nat) > usize::MAX {
        Some("rect dimensions to usize"@)
    } else if rect.x > i32::MAX {
        Some("rect.x to GLint"@)
    } else if rect.y > i32::MAX {
        Some("rect.y to GLint"@)
    } else if rect.width > i32::MAX {
        Some("rect.width to GLsizei"@)
    } else if rect.height > i32::MAX {
        Some("rect.height to GLsizei"@)
    } else {
        None
    }
}

impl Native {
    pub closed spec fn viewport(&self) -> URect {
        self.viewport
    }

    pub closed spec fn clear_color(&self) -> Option<ColorBits> {
        self.clear_color
    }

    pub fn new(render_target: RenderTarget) -> (native: Self)
        ensures
            native.viewport() == render_target.viewport,
            native.clear_color() == render_target.clear_color,
    {
        let mut native = Self {
            viewport: render_target.viewport,
            clear_color: render_target.clear_color,
        };
        native.set_clear_color(render_target.clear_color);
        native
    }

    /// The part of the surface that is drawn onto.
    pub fn current_viewport(&self) -> (viewport: URect)
        ensures
            viewport == self.viewport(),
    {
        self.viewport
    }

    /// The colour that the target is cleared with.
    pub fn current_clear_color(&self) -> (color: Option<ColorBits>)
        ensures
            color == self.clear_color(),
    {
        self.clear_color
    }

    /// Makes the render target current.
    pub fn bind(&self, commands: &mut Vec<Command>) -> (done: Result<(), Error>)
        ensures
            binding(self.viewport()).matches(old(commands)@, final(commands)@, done),
    {
        proof {
            assert(old(commands)@ + Seq::<Command>::empty() =~= old(commands)@);
        }
        let x = u32_to_i32(self.viewport.x, "viewport x conversion wraps i32")?;
        let y = u32_to_i32(self.viewport.y, "viewport y conversion wraps i32")?;
        let width = u32_to_i32(self.viewport.width, "viewport width conversion wraps i32")?;
        let height = u32_to_i32(self.viewport.height, "viewport height conversion wraps i32")?;
        commands.push(Command::Viewport { x, y, width, height });
        commands.push(Command::Scissor { x, y, width, height });
        assert(commands@ =~= old(commands)@ + binding(self.viewport()).commands);
        Ok(())
    }

    /// Clears the render target with its colour.
    pub fn clear(&mut self, commands: &mut Vec<Command>)
        ensures
            *final(self) == *old(self),
            final(commands)@ == old(commands)@ + clearing(old(self).clear_color()),
    {
        let mut flags: u32 = 0;
        if let Some(color) = self.clear_color {
            flags = COLOR_BUFFER_BIT;
            commands.push(
                Command::ClearColor { red: color.r, green: color.g, blue: color.b, alpha: color.a },
            );
        }
        commands.push(Command::Clear { mask: flags });
        assert(commands@ =~= old(commands)@ + clearing(self.clear_color()));
    }

    pub fn set_clear_color(&mut self, color: Option<ColorBits>)
        ensures
            final(self).clear_color() == color,
            final(self).viewport() == old(self).viewport(),
    {
        self.clear_color = color;
    }

    /// Sets the viewport and makes the render target current again, since it
    /// has changed. The viewport stays set where that fails.
    pub fn set_viewport(&mut self, viewport: URect, commands: &mut Vec<Command>) -> (done: Result<
        (),
        Error,
    >)
        ensures
            final(self).viewport() == viewport,
            final(self).clear_color() == old(self).clear_color(),
            binding(viewport).matches(old(commands)@, final(commands)@, done),
    {
        self.viewport = viewport;
        self.bind(commands)
    }

    /// What reading the pixels of the rectangle asks of the native API, or
    /// the error that names the number that does not fit its call.
    pub fn read_pixels(&self, format: Format, rect: URect) -> (request: Result<ReadPixels, Error>)
        ensures
            match unreadable(format, rect) {
                Some(what) => request matches Err(error) && error@ == Failure::ConversionFailed(
                    what,
                ),
                None => request == Ok::<ReadPixels, Error>(
                    ReadPixels {
                        x: rect.x as i32,
                        y: rect.y as i32,
                        width: rect.width as i32,
                        height: rect.height as i32,
                        format: layout_of(format).0,
                        kind: layout_of(format).1,
                        len: format.value_count(rect.width as nat, rect.height as nat) as usize,
                    },
                ),
            },
    {
        let len = match format.storage_len(rect.width, rect.height) {
            Some(len) => len,
            None => {
                return Err(Error::ConversionFailed("rect dimensions to usize"));
            },
        };
        let (layout, kind) = match format {
            Format::RgbU8 => (RGB, UNSIGNED_BYTE),
            Format::RgbF32 => (RGB, FLOAT),
            Format::RgbaU8 => (RGBA, UNSIGNED_BYTE),
            Format::RgbaF32 => (RGBA, FLOAT),
        };
        let x = u32_to_i32(rect.x, "rect.x to GLint")?;
        let y = u32_to_i32(rect.y, "rect.y to GLint")?;
        let width = u32_to_i32(rect.width, "rect.width to GLsizei")?;
        let height = u32_to_i32(rect.height, "rect.height to GLsizei")?;
        Ok(ReadPixels { x, y, width, height, format: layout, kind, len })
    }
}

} // verus!
