//! The render loop's decisions as a state machine. Startup demands a
//! loaded font; each tick turns the current time and viewport into a
//! drawing plan; the quit key moves the loop to `Exiting`. The terminal
//! work around these decisions (drawing, polling, sleeping) is
//! unverified glue that performs the plan and hands back the events.

use crate::clock::{format_hms, is_clock_text, is_decimal_digit, time_text};
use crate::glyph::{glyph_lines, is_renderable, render, GlyphBlock, StandardFont};
use crate::layout::{compute_region, region_spec, LayoutRegion, Viewport, CLOCK_HEIGHT, CLOCK_WIDTH};
use vstd::prelude::*;

verus! {

/// The one key that quits the clock.
pub const QUIT_KEY: char = 'q';

/// The two states of the render loop.
#[derive(Clone, Copy, PartialEq, Eq, Structural, Debug)]
pub enum LoopState {
    Running,
    Exiting,
}

/// The loop's transition on one tick's polled input: the quit key
/// moves `Running` to `Exiting`, `Exiting` is final, and every other
/// input leaves the state alone.
pub open spec fn next_state(state: LoopState, key: Option<char>) -> LoopState {
    if state is Exiting || key == Some(QUIT_KEY) {
        LoopState::Exiting
    } else {
        LoopState::Running
    }
}

/// One tick's drawing plan: the glyph block and the centered region of
/// the current viewport to draw it into.
pub struct Frame {
    pub block: GlyphBlock,
    pub region: LayoutRegion,
}

/// Law: every character of a well-formed `HH:MM:SS` text is printable
/// ASCII, so the standard font renders every formatted time.
pub proof fn lemma_clock_text_renderable(t: Seq<char>)
    requires
        is_clock_text(t),
    ensures
        forall|i: int| 0 <= i < t.len() ==> is_renderable(t[i]),
{
    assert forall|i: int| 0 <= i < t.len() implies is_renderable(t[i]) by {
        assert(is_decimal_digit(t[i]) || t[i] == ':');
    }
}

/// The render loop's owned state: the font, loaded once at startup,
/// and the current loop state.
pub struct ClockApp {
    pub font: StandardFont,
    pub state: LoopState,
}

impl ClockApp {
    /// Startup: a loaded font enters the loop in `Running`; a font that
    /// failed to load is a fatal error, passed on with the loader's
    /// message, and the loop is never entered.
    pub fn startup(font_load: Result<StandardFont, String>) -> (r: Result<ClockApp, String>)
        ensures
            r is Ok <==> font_load is Ok,
            r matches Ok(app) ==> app.state is Running,
            r matches Err(e) ==> (font_load matches Err(f) && e == f),
    {
        match font_load {
            Ok(font) => Ok(ClockApp { font, state: LoopState::Running }),
            Err(e) => Err(e),
        }
    }

    /// Plan one tick while running: format the given time, render it
    /// with the font, and center it in the current viewport. Every
    /// valid time renders, so the plan always draws; a rendering
    /// failure would skip this tick's draw and keep the loop alive.
    pub fn plan_tick(&self, vp: Viewport, h: u8, m: u8, s: u8) -> (r: Option<Frame>)
        requires
            self.state is Running,
            h < 24,
            m < 60,
            s < 60,
        ensures
            r is Some,
            r matches Some(f) ==> f.block@ == glyph_lines(
                time_text(h as int, m as int, s as int),
            ) && f.block.wf() && f.region == region_spec(vp, CLOCK_WIDTH, CLOCK_HEIGHT),
    {
        let text = format_hms(h, m, s);
        proof {
            lemma_clock_text_renderable(text@);
        }
        match render(&self.font, text.as_str()) {
            Ok(block) => {
                let region = compute_region(vp, CLOCK_WIDTH, CLOCK_HEIGHT);
                Some(Frame { block, region })
            },
            Err(_) => None,
        }
    }

    /// Consume one tick's polled input, `Some(c)` standing for a press
    /// of the character key `c` and `None` for any other event or none.
    pub fn on_input(&mut self, key: Option<char>)
        ensures
            final(self).state == next_state(old(self).state, key),
            final(self).font == old(self).font,
    {
        let quit = match key {
            Some(c) => c == QUIT_KEY,
            None => false,
        };
        if quit {
            self.state = LoopState::Exiting;
        }
    }
}

} // verus!
