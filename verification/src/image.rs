//! Pixel formats, and the size of the storage an image of a format needs.

use vstd::prelude::*;
use vstd::string::StringExecFns;

verus! {

#[derive(PartialEq, Eq, Debug, Clone, Copy, Structural)]
pub enum Format {
    RgbU8,
    RgbF32,
    RgbaU8,
    RgbaF32,
}

#[derive(Debug)]
pub enum Error {
    ConversionFailed(&'static str),
    FileNotFound(String),
    UpScalingNotSupported,
    DimensionMismatch,
    EncodingFailed(String),
}

impl Error {
    /// The message of the error, as it is shown to a reader.
    pub open spec fn message_text(&self) -> Seq<char> {
        match self {
            Error::ConversionFailed(cause) => "conversion failed, caused by "@ + cause@,
            Error::FileNotFound(path) => path@ + " not found"@,
            Error::UpScalingNotSupported => "upscaling is not supported yet"@,
            Error::DimensionMismatch =>
                "not enough data provided for all channels with width/height"@,
            Error::EncodingFailed(cause) => "encoding failed, caused by "@ + cause@,
        }
    }

    pub fn message(&self) -> (text: String)
        ensures
            text@ == self.message_text(),
    {
        match self {
            Error::ConversionFailed(cause) => String::from_str(
                "conversion failed, caused by ",
            ).concat(cause),
            Error::FileNotFound(path) => path.clone().concat(" not found"),
            Error::UpScalingNotSupported => String::from_str("upscaling is not supported yet"),
            Error::DimensionMismatch => String::from_str(
                "not enough data provided for all channels with width/height",
            ),
            Error::EncodingFailed(cause) => String::from_str("encoding failed, caused by ").concat(
                cause.as_str(),
            ),
        }
    }
}

impl Format {
    pub open spec fn channel_count(self) -> nat {
        match self {
            Format::RgbU8 | Format::RgbF32 => 3,
            Format::RgbaU8 | Format::RgbaF32 => 4,
        }
    }

    /// The number of channels of a pixel.
    #[must_use]
    pub fn channels(&self) -> (count: u8)
        ensures
            count == self.channel_count(),
    {
        match self {
            Self::RgbU8 | Self::RgbF32 => 3,
            Self::RgbaU8 | Self::RgbaF32 => 4,
        }
    }

    /// The number of channel values that an image of `width` by `height`
    /// pixels holds.
    pub open spec fn value_count(self, width: nat, height: nat) -> nat {
        width * height * self.channel_count()
    }

    /// The number of channel values that an image of `width` by `height`
    /// pixels holds, or `None` where the machine cannot count that far.
    #[must_use]
    pub fn storage_len(&self, width: u32, height: u32) -> (len: Option<usize>)
        ensures
            match len {
                Some(len) => len == self.value_count(width as nat, height as nat),
                None => self.value_count(width as nat, height as nat) > usize::MAX,
            },
    {
        assert(width as nat * height as nat <= 0xFFFF_FFFF * 0xFFFF_FFFF) by (nonlinear_arith)
            requires
                width <= 0xFFFF_FFFF,
                height <= 0xFFFF_FFFF,
        ;
        let pixels: u64 = (width as u64) * (height as u64);
        let channels: u64 = self.channels() as u64;
        assert(pixels as nat * channels as nat <= 0xFFFF_FFFF * 0xFFFF_FFFF * 4) by (nonlinear_arith)
            requires
                pixels <= 0xFFFF_FFFF * 0xFFFF_FFFF,
                channels <= 4,
        ;
        let values: u128 = (pixels as u128) * (channels as u128);
        if values <= usize::MAX as u128 {
            Some(values as usize)
        } else {
            None
        }
    }

    /// Whether `len` channel values are enough for an image of `width` by
    /// `height` pixels: an image with less is refused as a mismatch of its
    /// dimensions.
    #[must_use]
    pub fn holds(&self, width: u32, height: u32, len: usize) -> (enough: bool)
        ensures
            enough == (len >= self.value_count(width as nat, height as nat)),
    {
        match self.storage_len(width, height) {
            Some(needed) => len >= needed,
            None => false,
        }
    }
}

} // verus!
