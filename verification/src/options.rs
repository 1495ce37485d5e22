use vstd::prelude::*;

verus! {

/// The channel layout of the canvas: how many bytes each pixel stores.
#[derive(Clone, Copy, Debug, PartialEq, Eq, Structural)]
pub enum ImageColor {
    Gray,
    GrayA,
    Rgb,
    RgbA,
}

/// Where the payload (or the container) is read from.
#[derive(Clone, Debug)]
pub enum InputFile {
    File(String),
    Stdin,
}

/// The direction of a run: payload to image, or image to payload.
#[derive(Clone, Copy, Debug, PartialEq, Eq, Structural)]
pub enum Mode {
    Encode,
    Decode,
}

/// One run's configuration, built once from the command line and passed
/// explicitly; there is no ambient state.
#[derive(Clone, Debug)]
pub struct Options {
    pub input_file: InputFile,
    pub output_file: Option<String>,
    pub color_type: Option<ImageColor>,
    pub mode: Mode,
}

} // verus!
