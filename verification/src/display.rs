//! The display job: what the screen shows, and in which order it is drawn.

use crate::bounded::{show_within, TextOverflow};
use crate::binary32::{hundredths, is_finite};
use crate::decimal::{lemma_two_places_is_ascii, lemma_two_places_length, pow10};
use crate::decimal::{two_places, two_places_chars};
use crate::reading::Reading;
use crate::store::SharedReading;
use vstd::prelude::*;
use vstd::string::StringExecFns;
use vstd::utf8::{is_ascii_chars, is_ascii_chars_encode_utf8};

verus! {

/// Width of the screen in pixels.
pub const SCREEN_WIDTH: u32 = 128;

/// Height of the screen in pixels.
pub const SCREEN_HEIGHT: u32 = 64;

/// Bytes that the text of one frame may take.
pub const TEXT_CAPACITY: usize = 64;

/// Milliseconds between the end of one frame and the start of the next.
pub const FRAME_PAUSE_MS: u64 = 2000;

/// A pixel position, counted from the top left corner of the screen.
#[derive(Clone, Copy, Debug, PartialEq, Eq, Structural)]
pub struct Point {
    pub x: i32,
    pub y: i32,
}

/// An axis-parallel rectangle, by its top left corner and its size.
#[derive(Clone, Copy, Debug, PartialEq, Eq, Structural)]
pub struct Rectangle {
    pub top_left: Point,
    pub width: u32,
    pub height: u32,
}

/// A straight line between two pixels, both included.
#[derive(Clone, Copy, Debug, PartialEq, Eq, Structural)]
pub struct Segment {
    pub start: Point,
    pub end: Point,
}

/// The rectangle that leaves a margin of one pixel on every side of a screen
/// of the given size.
pub open spec fn border_within(width: u32, height: u32) -> Rectangle {
    Rectangle {
        top_left: Point { x: 1, y: 1 },
        width: (width - 2) as u32,
        height: (height - 2) as u32,
    }
}

/// The vertical line at the horizontal midpoint of a screen of the given
/// size, from the top edge of the border to its bottom edge.
pub open spec fn divider_within(width: u32, height: u32) -> Segment {
    Segment {
        start: Point { x: (width / 2) as i32, y: 1 },
        end: Point { x: (width / 2) as i32, y: (height - 2) as i32 },
    }
}

/// Where the top left corner of the text goes.
pub open spec fn text_anchor() -> Point {
    Point { x: 1, y: 10 }
}

/// The two lines of a frame: the column titles, then both numbers of the
/// reading to two places.
pub open spec fn display_chars(reading: Reading) -> Seq<char> {
    " TEMP  HUM \n "@ + two_places_chars(reading.temperature) + " "@ + two_places_chars(
        reading.humidity,
    ) + "\n"@
}

/// The border of the screen.
pub fn border() -> (rectangle: Rectangle)
    ensures
        rectangle == border_within(SCREEN_WIDTH, SCREEN_HEIGHT),
{
    Rectangle {
        top_left: Point { x: 1, y: 1 },
        width: SCREEN_WIDTH - 2,
        height: SCREEN_HEIGHT - 2,
    }
}

/// The line between the two columns.
pub fn divider() -> (segment: Segment)
    ensures
        segment == divider_within(SCREEN_WIDTH, SCREEN_HEIGHT),
{
    let middle: i32 = (SCREEN_WIDTH / 2) as i32;
    Segment {
        start: Point { x: middle, y: 1 },
        end: Point { x: middle, y: (SCREEN_HEIGHT - 2) as i32 },
    }
}

/// The anchor of the text.
pub fn anchor() -> (point: Point)
    ensures
        point == text_anchor(),
{
    Point { x: 1, y: 10 }
}

/// The text of a frame is ASCII: it takes one byte for each character.
pub proof fn lemma_display_chars_are_ascii(reading: Reading)
    ensures
        is_ascii_chars(display_chars(reading)),
        display_chars(reading).len() == 15 + two_places_chars(reading.temperature).len()
            + two_places_chars(reading.humidity).len(),
{
    reveal_strlit(" TEMP  HUM \n ");
    reveal_strlit(" ");
    reveal_strlit("\n");
    lemma_two_places_is_ascii(reading.temperature);
    lemma_two_places_is_ascii(reading.humidity);
}

/// The text of a frame fits its buffer for every reading that a sensor can
/// plausibly give: it is enough that both numbers are finite and, rounded,
/// below ten to the twentieth in magnitude.
pub proof fn lemma_moderate_readings_fit(reading: Reading)
    requires
        is_finite(reading.temperature),
        is_finite(reading.humidity),
        hundredths(reading.temperature) < 100 * pow10(20),
        hundredths(reading.humidity) < 100 * pow10(20),
    ensures
        display_chars(reading).len() <= TEXT_CAPACITY,
{
    lemma_display_chars_are_ascii(reading);
    lemma_two_places_length(reading.temperature, 20);
    lemma_two_places_length(reading.humidity, 20);
}

/// Formats the text of a frame for `reading`, through the frame's text
/// buffer. The text fails to fit only for numbers far beyond what a sensor
/// measures.
pub fn display_text(reading: Reading) -> (result: Result<String, TextOverflow>)
    ensures
        result is Ok <==> display_chars(reading).len() <= TEXT_CAPACITY,
        result is Ok ==> result.unwrap()@ == display_chars(reading),
{
    let mut text = String::from_str(" TEMP  HUM \n ");
    let temperature = two_places(reading.temperature);
    text.append(temperature.as_str());
    text.append(" ");
    let humidity = two_places(reading.humidity);
    text.append(humidity.as_str());
    text.append("\n");
    proof {
        lemma_display_chars_are_ascii(reading);
        is_ascii_chars_encode_utf8(display_chars(reading));
    }
    match show_within(text.as_str(), TEXT_CAPACITY) {
        Some(shown) => Ok(shown),
        None => Err(TextOverflow),
    }
}

/// What the display job is waiting for.
#[derive(Clone, Copy, Debug, PartialEq, Eq, Structural)]
pub enum DisplayPhase {
    /// The buffer is being cleared.
    Clearing,
    /// The border is being drawn.
    DrawingBorder,
    /// The divider is being drawn.
    DrawingDivider,
    /// The text is being drawn.
    DrawingText,
    /// The buffer is being sent to the device.
    Flushing,
    /// The pause between two frames is running.
    Resting,
    /// A step of a frame failed; the job has ended.
    Halted,
}

/// What the caller reports back to the display job.
#[derive(Clone, Copy, Debug, PartialEq, Eq, Structural)]
pub enum DisplayEvent {
    /// The device carried out the last step.
    Completed,
    /// The device refused the last step.
    Failed,
    /// The pause is over.
    Elapsed,
}

/// What the display job asks its caller to do next.
#[derive(Clone, Copy, Debug, PartialEq, Eq, Structural)]
pub enum DisplayAction {
    /// Clear the display buffer.
    Clear,
    /// Draw the outline of this rectangle, one pixel wide.
    DrawBorder(Rectangle),
    /// Draw this line, one pixel wide.
    DrawDivider(Segment),
    /// Draw the job's text with its top left corner at this point.
    DrawText(Point),
    /// Send the buffer to the device.
    Flush,
    /// Wait this many milliseconds.
    Pause(u64),
    /// Stop: the job has ended.
    Halt,
}

/// How a frame opens: with the clearing of the buffer where its text fits,
/// and with the end of the job where it does not.
pub open spec fn frame_opening(fits: bool) -> (DisplayPhase, DisplayAction) {
    if fits {
        (DisplayPhase::Clearing, DisplayAction::Clear)
    } else {
        (DisplayPhase::Halted, DisplayAction::Halt)
    }
}

/// The display job's transitions. A frame is cleared, bordered, divided,
/// lettered and flushed, in this order; then the job rests and opens the next
/// frame. The first step that fails ends the job. `fits` says whether the text
/// of the frame that would open now fits its buffer. An event that the phase
/// does not wait for has no transition.
pub open spec fn display_transition(phase: DisplayPhase, event: DisplayEvent, fits: bool) -> Option<
    (DisplayPhase, DisplayAction),
> {
    match (phase, event) {
        (DisplayPhase::Clearing, DisplayEvent::Completed) => Some(
            (
                DisplayPhase::DrawingBorder,
                DisplayAction::DrawBorder(border_within(SCREEN_WIDTH, SCREEN_HEIGHT)),
            ),
        ),
        (DisplayPhase::DrawingBorder, DisplayEvent::Completed) => Some(
            (
                DisplayPhase::DrawingDivider,
                DisplayAction::DrawDivider(divider_within(SCREEN_WIDTH, SCREEN_HEIGHT)),
            ),
        ),
        (DisplayPhase::DrawingDivider, DisplayEvent::Completed) => Some(
            (DisplayPhase::DrawingText, DisplayAction::DrawText(text_anchor())),
        ),
        (DisplayPhase::DrawingText, DisplayEvent::Completed) => Some(
            (DisplayPhase::Flushing, DisplayAction::Flush),
        ),
        (DisplayPhase::Flushing, DisplayEvent::Completed) => Some(
            (DisplayPhase::Resting, DisplayAction::Pause(FRAME_PAUSE_MS)),
        ),
        (DisplayPhase::Clearing, DisplayEvent::Failed)
        | (DisplayPhase::DrawingBorder, DisplayEvent::Failed)
        | (DisplayPhase::DrawingDivider, DisplayEvent::Failed)
        | (DisplayPhase::DrawingText, DisplayEvent::Failed)
        | (DisplayPhase::Flushing, DisplayEvent::Failed) => Some(
            (DisplayPhase::Halted, DisplayAction::Halt),
        ),
        (DisplayPhase::Resting, DisplayEvent::Elapsed) => Some(frame_opening(fits)),
        _ => None,
    }
}

/// Whether `event` in `phase` opens a new frame.
pub open spec fn opens_frame(phase: DisplayPhase, event: DisplayEvent) -> bool {
    phase == DisplayPhase::Resting && event == DisplayEvent::Elapsed
}

/// The display job: its phase, and the text of the frame it is drawing.
pub struct DisplayJob {
    pub phase: DisplayPhase,
    pub text: String,
}

impl DisplayJob {
    /// Starts the job: reads the store and opens the first frame.
    pub fn begin(store: &SharedReading) -> (started: (DisplayJob, DisplayAction))
        ensures
            (started.0.phase, started.1) == frame_opening(
                display_chars(store@).len() <= TEXT_CAPACITY,
            ),
            started.0.text@ == if display_chars(store@).len() <= TEXT_CAPACITY {
                display_chars(store@)
            } else {
                Seq::<char>::empty()
            },
    {
        match display_text(store.get()) {
            Ok(text) => (DisplayJob { phase: DisplayPhase::Clearing, text }, DisplayAction::Clear),
            Err(_) => (
                DisplayJob { phase: DisplayPhase::Halted, text: String::new() },
                DisplayAction::Halt,
            ),
        }
    }

    /// The text of the frame that is being drawn.
    pub fn text(&self) -> (text: &str)
        ensures
            text@ == self.text@,
    {
        self.text.as_str()
    }

    /// Takes the outcome of the last action and says what to do next, or
    /// `None`, changing nothing, where the job was not waiting for `event`.
    /// The store is read when a frame opens, and only then: the text of a
    /// frame is that of the reading stored at that moment.
    pub fn step(&mut self, event: DisplayEvent, store: &SharedReading) -> (action: Option<
        DisplayAction,
    >)
        ensures
            match display_transition(
                old(self).phase,
                event,
                display_chars(store@).len() <= TEXT_CAPACITY,
            ) {
                Some((phase, next)) => final(self).phase == phase && action == Some(next),
                None => action is None && *final(self) == *old(self),
            },
            final(self).text@ == if opens_frame(old(self).phase, event) && display_chars(
                store@,
            ).len() <= TEXT_CAPACITY {
                display_chars(store@)
            } else {
                old(self).text@
            },
    {
        let (phase, action) = match (self.phase, event) {
            (DisplayPhase::Clearing, DisplayEvent::Completed) => (
                DisplayPhase::DrawingBorder,
                DisplayAction::DrawBorder(border()),
            ),
            (DisplayPhase::DrawingBorder, DisplayEvent::Completed) => (
                DisplayPhase::DrawingDivider,
                DisplayAction::DrawDivider(divider()),
            ),
            (DisplayPhase::DrawingDivider, DisplayEvent::Completed) => (
                DisplayPhase::DrawingText,
                DisplayAction::DrawText(anchor()),
            ),
            (DisplayPhase::DrawingText, DisplayEvent::Completed) => (
                DisplayPhase::Flushing,
                DisplayAction::Flush,
            ),
            (DisplayPhase::Flushing, DisplayEvent::Completed) => (
                DisplayPhase::Resting,
                DisplayAction::Pause(FRAME_PAUSE_MS),
            ),
            (DisplayPhase::Clearing, DisplayEvent::Failed)
            | (DisplayPhase::DrawingBorder, DisplayEvent::Failed)
            | (DisplayPhase::DrawingDivider, DisplayEvent::Failed)
            | (DisplayPhase::DrawingText, DisplayEvent::Failed)
            | (DisplayPhase::Flushing, DisplayEvent::Failed) => (
                DisplayPhase::Halted,
                DisplayAction::Halt,
            ),
            (DisplayPhase::Resting, DisplayEvent::Elapsed) => {
                match display_text(store.get()) {
                    Ok(text) => {
                        self.text = text;
                        (DisplayPhase::Clearing, DisplayAction::Clear)
                    },
                    Err(_) => (DisplayPhase::Halted, DisplayAction::Halt),
                }
            },
            _ => {
                return None;
            },
        };
        self.phase = phase;
        Some(action)
    }
}

/// The job ends only where a step of a frame fails or the text of a frame
/// does not fit its buffer. Once it has ended, it takes no further event.
pub proof fn lemma_display_ends_only_on_fault(phase: DisplayPhase, event: DisplayEvent, fits: bool)
    ensures
        match display_transition(phase, event, fits) {
            Some((next, action)) => {
                &&& phase != DisplayPhase::Halted
                &&& next == DisplayPhase::Halted <==> action == DisplayAction::Halt
                &&& next == DisplayPhase::Halted <==> event == DisplayEvent::Failed || (event
                    == DisplayEvent::Elapsed && !fits)
            },
            None => true,
        },
{
}

} // verus!
