//! Text layout parameters that travel to and from the native layout engine as
//! codes, and the result of hit-testing a layout.
use vstd::prelude::*;

verus! {

/// Where the lines of a paragraph sit along the reading direction.
#[derive(Clone, Copy, PartialEq, Eq, Debug)]
pub enum TextAlignment {
    Leading,
    Center,
    Trailing,
    Justified,
}

impl TextAlignment {
    /// The native `DWRITE_TEXT_ALIGNMENT` value of this alignment.
    pub open spec fn native_code(self) -> i32 {
        match self {
            TextAlignment::Leading => 0,
            TextAlignment::Trailing => 1,
            TextAlignment::Center => 2,
            TextAlignment::Justified => 3,
        }
    }

    /// The alignment whose native value is `v`, if there is one.
    pub open spec fn decode(v: i32) -> Option<TextAlignment> {
        if v == 0 {
            Some(TextAlignment::Leading)
        } else if v == 1 {
            Some(TextAlignment::Trailing)
        } else if v == 2 {
            Some(TextAlignment::Center)
        } else if v == 3 {
            Some(TextAlignment::Justified)
        } else {
            None
        }
    }

    pub fn code(self) -> (r: i32)
        ensures
            r == self.native_code(),
    {
        match self {
            TextAlignment::Leading => 0,
            TextAlignment::Trailing => 1,
            TextAlignment::Center => 2,
            TextAlignment::Justified => 3,
        }
    }

    pub fn from_code(v: i32) -> (r: Option<TextAlignment>)
        ensures
            r == TextAlignment::decode(v),
    {
        if v == 0 {
            Some(TextAlignment::Leading)
        } else if v == 1 {
            Some(TextAlignment::Trailing)
        } else if v == 2 {
            Some(TextAlignment::Center)
        } else if v == 3 {
            Some(TextAlignment::Justified)
        } else {
            None
        }
    }
}

/// Reading an alignment back from its native value gives the same alignment,
/// and a native value that reads back as an alignment is that alignment's value.
pub proof fn lemma_text_alignment_round_trip(a: TextAlignment, v: i32)
    ensures
        TextAlignment::decode(a.native_code()) == Some(a),
        TextAlignment::decode(v) matches Some(b) ==> b.native_code() == v,
{
}

/// Where a paragraph sits across the reading direction.
#[derive(Clone, Copy, PartialEq, Eq, Debug)]
pub enum ParagraphAlignment {
    Near,
    Center,
    Far,
}

impl ParagraphAlignment {
    /// The native `DWRITE_PARAGRAPH_ALIGNMENT` value of this alignment.
    pub open spec fn native_code(self) -> i32 {
        match self {
            ParagraphAlignment::Near => 0,
            ParagraphAlignment::Far => 1,
            ParagraphAlignment::Center => 2,
        }
    }

    /// The alignment whose native value is `v`, if there is one.
    pub open spec fn decode(v: i32) -> Option<ParagraphAlignment> {
        if v == 0 {
            Some(ParagraphAlignment::Near)
        } else if v == 1 {
            Some(ParagraphAlignment::Far)
        } else if v == 2 {
            Some(ParagraphAlignment::Center)
        } else {
            None
        }
    }

    pub fn code(self) -> (r: i32)
        ensures
            r == self.native_code(),
    {
        match self {
            ParagraphAlignment::Near => 0,
            ParagraphAlignment::Far => 1,
            ParagraphAlignment::Center => 2,
        }
    }

    pub fn from_code(v: i32) -> (r: Option<ParagraphAlignment>)
        ensures
            r == ParagraphAlignment::decode(v),
    {
        if v == 0 {
            Some(ParagraphAlignment::Near)
        } else if v == 1 {
            Some(ParagraphAlignment::Far)
        } else if v == 2 {
            Some(ParagraphAlignment::Center)
        } else {
            None
        }
    }
}

/// Reading a paragraph alignment back from its native value gives the same
/// alignment, and a native value that reads back is that alignment's value.
pub proof fn lemma_paragraph_alignment_round_trip(a: ParagraphAlignment, v: i32)
    ensures
        ParagraphAlignment::decode(a.native_code()) == Some(a),
        ParagraphAlignment::decode(v) matches Some(b) ==> b.native_code() == v,
{
}

/// Whether the line gap that a font declares counts toward its line height.
#[derive(Clone, Copy, PartialEq, Eq, Debug)]
pub enum FontLineGapUsage {
    Default,
    Enabled,
    Disabled,
}

impl FontLineGapUsage {
    /// The native `DWRITE_FONT_LINE_GAP_USAGE` value of this usage.
    pub open spec fn native_code(self) -> i32 {
        match self {
            FontLineGapUsage::Default => 0,
            FontLineGapUsage::Disabled => 1,
            FontLineGapUsage::Enabled => 2,
        }
    }

    /// The usage whose native value is `v`, if there is one.
    pub open spec fn decode(v: i32) -> Option<FontLineGapUsage> {
        if v == 0 {
            Some(FontLineGapUsage::Default)
        } else if v == 1 {
            Some(FontLineGapUsage::Disabled)
        } else if v == 2 {
            Some(FontLineGapUsage::Enabled)
        } else {
            None
        }
    }

    pub fn code(self) -> (r: i32)
        ensures
            r == self.native_code(),
    {
        match self {
            FontLineGapUsage::Default => 0,
            FontLineGapUsage::Disabled => 1,
            FontLineGapUsage::Enabled => 2,
        }
    }

    pub fn from_code(v: i32) -> (r: Option<FontLineGapUsage>)
        ensures
            r == FontLineGapUsage::decode(v),
    {
        if v == 0 {
            Some(FontLineGapUsage::Default)
        } else if v == 1 {
            Some(FontLineGapUsage::Disabled)
        } else if v == 2 {
            Some(FontLineGapUsage::Enabled)
        } else {
            None
        }
    }
}

impl Default for FontLineGapUsage {
    fn default() -> (r: Self)
        ensures
            r == FontLineGapUsage::Default,
    {
        FontLineGapUsage::Default
    }
}

/// Reading a line-gap usage back from its native value gives the same usage,
/// and a native value that reads back is that usage's value.
pub proof fn lemma_font_line_gap_usage_round_trip(a: FontLineGapUsage, v: i32)
    ensures
        FontLineGapUsage::decode(a.native_code()) == Some(a),
        FontLineGapUsage::decode(v) matches Some(b) ==> b.native_code() == v,
{
}

/// The character of a laid-out text under a point, and how the point lies on it.
#[derive(Clone, PartialEq, Eq, Debug)]
pub struct HitTestResult {
    /// The character at `text_position`.
    pub c: char,
    /// The index of the character in the layout's text.
    pub text_position: usize,
    /// Whether the point lies inside the text.
    pub inside: bool,
    /// Whether the point lies on the trailing half of the character.
    pub trailing_hit: bool,
}

impl HitTestResult {
    /// The result of a hit on position `text_position` of the text `chars`,
    /// or `None` where the text has no character at that position.
    pub fn from_position(chars: &[char], text_position: u32, inside: bool, trailing_hit: bool) -> (r:
        Option<HitTestResult>)
        ensures
            r is Some <==> text_position < chars@.len(),
            r matches Some(h) ==> h == (HitTestResult {
                c: chars@[text_position as int],
                text_position: text_position as usize,
                inside,
                trailing_hit,
            }),
    {
        let i = text_position as usize;
        if i < chars.len() {
            Some(HitTestResult { c: chars[i], text_position: i, inside, trailing_hit })
        } else {
            None
        }
    }
}

} // verus!
