//! The errors of the converter and the words in which the host reads them.

use vstd::prelude::*;
use vstd::string::StringExecFns;

verus! {

/// Why the converter refused a request.
#[derive(Debug, PartialEq, Eq)]
pub enum ConverterError {
    /// `tick` was called before an image had been handed over.
    Uninitialized,
    /// The byte buffer does not hold exactly four bytes for each of `width * height` pixels.
    InvalidImageSize,
    /// The image has more pixels, or a longer side, than the segmentation engine and the
    /// outline tracer can take.
    ImageTooLarge,
    /// The hierarchy selector is neither `stacked` nor `cutout`; the offending value is kept.
    UnknownMode(String),
    /// A numeric parameter lies outside the range the engine or the tracer works on.
    InvalidParameter,
    /// Every candidate key color already occurs in the image.
    NoKeyColor,
    /// The outline of the next region has more sides than the outline tracer can take.
    OutlineTooLong,
}

impl ConverterError {
    /// The text shown to the host for this error.
    pub open spec fn message_spec(self) -> Seq<char> {
        match self {
            ConverterError::Uninitialized => "uninitialized"@,
            ConverterError::InvalidImageSize => "invalid image size"@,
            ConverterError::ImageTooLarge => "image too large"@,
            ConverterError::UnknownMode(mode) => "unknown mode `"@ + mode@ + "`"@,
            ConverterError::InvalidParameter => "invalid parameter"@,
            ConverterError::NoKeyColor => "no key color available"@,
            ConverterError::OutlineTooLong => "outline too long"@,
        }
    }

    /// Renders the error for the host; an unknown mode is named in the text.
    pub fn message(&self) -> (text: String)
        ensures
            text@ == self.message_spec(),
    {
        match self {
            ConverterError::Uninitialized => String::from_str("uninitialized"),
            ConverterError::InvalidImageSize => String::from_str("invalid image size"),
            ConverterError::ImageTooLarge => String::from_str("image too large"),
            ConverterError::UnknownMode(mode) => {
                let mut text = String::from_str("unknown mode `");
                text.append(mode.as_str());
                text.append("`");
                text
            },
            ConverterError::InvalidParameter => String::from_str("invalid parameter"),
            ConverterError::NoKeyColor => String::from_str("no key color available"),
            ConverterError::OutlineTooLong => String::from_str("outline too long"),
        }
    }
}

} // verus!
