use vstd::prelude::*;
use crate::text::str_eq;
use crate::uuid::UUID;

verus! {

/// The two kinds of display that a stored picture can be meant for.
#[derive(Debug, Clone, Copy, Hash, PartialEq, Eq, Structural)]
pub enum DisplayFormat {
    /// The monochrome panel of 128 by 64 pixels, fed with packed bitmaps.
    Monochrome128x64,
    /// The colour panel of 320 by 240 pixels, fed with raw red, green and blue bytes.
    RGB320x240,
}

impl DisplayFormat {
    /// The tag under which the format is stored with a picture.
    pub open spec fn tag(self) -> Seq<char> {
        match self {
            DisplayFormat::Monochrome128x64 => "Monochrome128x64"@,
            DisplayFormat::RGB320x240 => "RGB320x240"@,
        }
    }

    /// The format that a stored tag stands for, if it stands for one.
    pub open spec fn of_tag(tag: Seq<char>) -> Option<DisplayFormat> {
        if tag == DisplayFormat::RGB320x240.tag() {
            Some(DisplayFormat::RGB320x240)
        } else if tag == DisplayFormat::Monochrome128x64.tag() {
            Some(DisplayFormat::Monochrome128x64)
        } else {
            None
        }
    }

    /// The tag under which the format is stored with a picture.
    pub fn as_str(&self) -> (tag: &'static str)
        ensures
            tag@ == self.tag(),
    {
        match self {
            DisplayFormat::Monochrome128x64 => "Monochrome128x64",
            DisplayFormat::RGB320x240 => "RGB320x240",
        }
    }

    /// Reads a stored tag.
    pub fn from_tag(tag: &str) -> (format: Option<DisplayFormat>)
        ensures
            format == DisplayFormat::of_tag(tag@),
    {
        if str_eq(tag, DisplayFormat::RGB320x240.as_str()) {
            Some(DisplayFormat::RGB320x240)
        } else if str_eq(tag, DisplayFormat::Monochrome128x64.as_str()) {
            Some(DisplayFormat::Monochrome128x64)
        } else {
            None
        }
    }
}

/// Each format is read back from its own tag.
pub proof fn lemma_tag_roundtrip(format: DisplayFormat)
    ensures
        DisplayFormat::of_tag(format.tag()) == Some(format),
{
    reveal_strlit("Monochrome128x64");
    reveal_strlit("RGB320x240");
    assert("Monochrome128x64"@.len() == 16);
    assert("RGB320x240"@.len() == 10);
}

/// An uploaded picture as it is stored.
pub struct Upload {
    /// The identifier of the picture.
    pub uuid: UUID,
    /// A caption.
    pub message: Option<String>,
    /// The bytes that were uploaded: an encoded picture, or a packed bitmap for the
    /// monochrome panel.
    pub data: Vec<u8>,
    /// Whether the picture is listed for everyone.
    pub public: bool,
    /// When the picture was uploaded, as the store writes time.
    pub uploaded_at: Option<String>,
    /// A name to show.
    pub name: Option<String>,
    /// The tag of the display that the picture is meant for.
    pub display: Option<String>,
}

impl Upload {
    /// The display that the picture is meant for, if its tag names one.
    pub open spec fn format(&self) -> Option<DisplayFormat> {
        match self.display {
            Some(tag) => DisplayFormat::of_tag(tag@),
            None => None,
        }
    }

    /// Whether the picture is meant for the given display.
    pub open spec fn is_for(&self, format: DisplayFormat) -> bool {
        self.format() == Some(format)
    }

    /// The display that the picture is meant for, if its tag names one.
    pub fn display_format(&self) -> (format: Option<DisplayFormat>)
        ensures
            format == self.format(),
    {
        match &self.display {
            Some(tag) => DisplayFormat::from_tag(tag.as_str()),
            None => None,
        }
    }

    /// Whether the picture is meant for the given display.
    pub fn targets(&self, format: DisplayFormat) -> (r: bool)
        ensures
            r == self.is_for(format),
    {
        match self.display_format() {
            Some(f) => f == format,
            None => false,
        }
    }
}

} // verus!
