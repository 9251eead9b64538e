//! The messages of the task that produces icon files from an SVG file.
use vstd::prelude::*;
use vstd::string::StringExecFns;
use crate::text::{decimal, decimal_text_usize};

verus! {

/// The side lengths, in pixels, of the square images that an icon file holds.
pub const ICONS_DIMENTIONS: [u32; 6] = [16u32, 32u32, 64u32, 128u32, 256u32, 512u32];

/// The milliseconds that the task pauses between its steps, so that its progress can be seen.
pub const SLEEP: u64 = 0u64;

/// The progress of producing icons.
#[derive(Debug, Clone)]
pub enum IconTaskMessage {
    BeganProducingIcons { source_svg_path: String },
    WrittenIconsFile { icons_file_path: String, icons_file_kind: String },
    EncodingPNG { png_dimension: usize, source_svg_size: usize },
    WrittenPNG { png_dimension: usize, png_path: String },
    FinishedProducingIcons { target_icons_file_path: String },
}

impl IconTaskMessage {
    /// Producing icons from the SVG file at the path has begun.
    pub fn began_production(source_svg_path: String) -> (r: IconTaskMessage)
        ensures
            r == (IconTaskMessage::BeganProducingIcons { source_svg_path }),
    {
        IconTaskMessage::BeganProducingIcons { source_svg_path }
    }

    /// An icons file of the kind has been written at the path.
    pub fn written_icons_file(icons_file_path: String, icons_file_kind: String) -> (r:
        IconTaskMessage)
        ensures
            r == (IconTaskMessage::WrittenIconsFile { icons_file_path, icons_file_kind }),
    {
        IconTaskMessage::WrittenIconsFile { icons_file_path, icons_file_kind }
    }

    /// A PNG image of the side length is being encoded from an SVG of the size.
    pub fn encoding_png(png_dimension: usize, source_svg_size: usize) -> (r: IconTaskMessage)
        ensures
            r == (IconTaskMessage::EncodingPNG { png_dimension, source_svg_size }),
    {
        IconTaskMessage::EncodingPNG { png_dimension, source_svg_size }
    }

    /// A PNG image of the side length has been written at the path.
    pub fn written_png(png_dimension: usize, png_path: String) -> (r: IconTaskMessage)
        ensures
            r == (IconTaskMessage::WrittenPNG { png_dimension, png_path }),
    {
        IconTaskMessage::WrittenPNG { png_dimension, png_path }
    }

    /// Producing icons into the file at the path has finished.
    pub fn finished(target_icons_file_path: String) -> (r: IconTaskMessage)
        ensures
            r == (IconTaskMessage::FinishedProducingIcons { target_icons_file_path }),
    {
        IconTaskMessage::FinishedProducingIcons { target_icons_file_path }
    }

    /// Replace this message by a newer one.
    pub fn set(&mut self, new_progress_message: IconTaskMessage)
        ensures
            *final(self) == new_progress_message,
    {
        *self = new_progress_message;
    }
}

/// The text of a message on producing icons.
pub open spec fn icon_task_text(m: IconTaskMessage) -> Seq<char> {
    match m {
        IconTaskMessage::BeganProducingIcons { source_svg_path } => "Began producing icons from SVG file "@
            + source_svg_path@ + "."@,
        IconTaskMessage::WrittenIconsFile { icons_file_path, icons_file_kind } => "Written "@
            + icons_file_kind@ + " icons file at "@ + icons_file_path@,
        IconTaskMessage::EncodingPNG { png_dimension, source_svg_size } => "Encoding "@ + decimal(
            png_dimension as int,
        ) + "x"@ + decimal(png_dimension as int) + ".png, from SVG of size "@ + decimal(
            source_svg_size as int,
        ) + "x"@ + decimal(source_svg_size as int),
        IconTaskMessage::WrittenPNG { png_dimension, png_path } => "Saving PNG file "@ + decimal(
            png_dimension as int,
        ) + "x"@ + decimal(png_dimension as int) + ".png, to path "@ + png_path@,
        IconTaskMessage::FinishedProducingIcons { target_icons_file_path } =>
            "Finished producing icons to file: "@ + target_icons_file_path@,
    }
}

impl IconTaskMessage {
    /// The message as text for people to read.
    pub fn text(&self) -> (r: String)
        ensures
            r@ == icon_task_text(*self),
    {
        match self {
            IconTaskMessage::BeganProducingIcons { source_svg_path } => {
                let mut t = String::from_str("Began producing icons from SVG file ");
                t.append(source_svg_path.as_str());
                t.append(".");
                t
            },
            IconTaskMessage::WrittenIconsFile { icons_file_path, icons_file_kind } => {
                let mut t = String::from_str("Written ");
                t.append(icons_file_kind.as_str());
                t.append(" icons file at ");
                t.append(icons_file_path.as_str());
                t
            },
            IconTaskMessage::EncodingPNG { png_dimension, source_svg_size } => {
                let d = decimal_text_usize(*png_dimension);
                let s = decimal_text_usize(*source_svg_size);
                let mut t = String::from_str("Encoding ");
                t.append(d.as_str());
                t.append("x");
                t.append(d.as_str());
                t.append(".png, from SVG of size ");
                t.append(s.as_str());
                t.append("x");
                t.append(s.as_str());
                t
            },
            IconTaskMessage::WrittenPNG { png_dimension, png_path } => {
                let d = decimal_text_usize(*png_dimension);
                let mut t = String::from_str("Saving PNG file ");
                t.append(d.as_str());
                t.append("x");
                t.append(d.as_str());
                t.append(".png, to path ");
                t.append(png_path.as_str());
                t
            },
            IconTaskMessage::FinishedProducingIcons { target_icons_file_path } => {
                let mut t = String::from_str("Finished producing icons to file: ");
                t.append(target_icons_file_path.as_str());
                t
            },
        }
    }
}

} // verus!
