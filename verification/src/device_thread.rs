//! Decisions of the device thread: which key changes to report, and how to bring a button's
//! image up to date.

use vstd::prelude::*;

verus! {

/// The key events that a new reading of the button states gives, compared with the last
/// reading: for each key (numbered modulo 256) whose state changed, whether it went down
/// (was up before); a key the last reading did not have counts only if it is down, as a press.
pub open spec fn key_events(last: Seq<u8>, current: Seq<u8>, n: int) -> Seq<(u8, bool)>
    decreases n,
{
    if n <= 0 {
        Seq::empty()
    } else {
        let init = key_events(last, current, n - 1);
        let k = n - 1;
        if k < last.len() {
            if last[k] != current[k] {
                init.push(((k % 256) as u8, last[k] == 0))
            } else {
                init
            }
        } else if current[k] > 0 {
            init.push(((k % 256) as u8, true))
        } else {
            init
        }
    }
}

/// The key events that a new reading of the button states gives, compared with the last reading.
pub fn button_changes(last: &Vec<u8>, current: &Vec<u8>) -> (r: Vec<(u8, bool)>)
    ensures
        r@ == key_events(last@, current@, current@.len() as int),
{
    let mut r: Vec<(u8, bool)> = Vec::new();
    let mut k: usize = 0;
    while k < current.len()
        invariant
            k <= current@.len(),
            r@ == key_events(last@, current@, k as int),
        decreases current@.len() - k,
    {
        let key = (k % 256) as u8;
        if k < last.len() {
            if last[k] != current[k] {
                r.push((key, last[k] == 0));
            }
        } else if current[k] > 0 {
            r.push((key, true));
        }
        k += 1;
    }
    r
}

/// What to do for a button in one round of drawing.
#[derive(Clone, Copy, Debug, PartialEq, Eq, Structural)]
pub enum RenderStep {
    /// Show the cached image of the button's look
    ShowCached,
    /// Leave the button as it is
    Keep,
    /// Draw the button's image anew and show it
    Draw,
    /// Clear the button to black
    Clear,
}

/// What to do for a button: a button without a renderer is cleared if something was shown
/// on it before; one whose look is cached (and may be cached) shows the cached image unless
/// that look is already shown; any other is drawn anew. `previous` is the hash of the look
/// last shown on the button, if any.
pub open spec fn render_step_for(has_renderer: bool, to_cache: bool, cached: bool, hash: u64, previous: Option<u64>) -> RenderStep {
    let prev = match previous {
        Some(p) => p,
        None => 0,
    };
    if !has_renderer {
        if prev != 0 {
            RenderStep::Clear
        } else {
            RenderStep::Keep
        }
    } else if to_cache && cached {
        if hash != prev {
            RenderStep::ShowCached
        } else {
            RenderStep::Keep
        }
    } else {
        RenderStep::Draw
    }
}

/// Decides what to do for a button in one round of drawing.
pub fn render_step(has_renderer: bool, to_cache: bool, cached: bool, hash: u64, previous: Option<u64>) -> (r: RenderStep)
    ensures
        r == render_step_for(has_renderer, to_cache, cached, hash, previous),
{
    let prev: u64 = match previous {
        Some(p) => p,
        None => 0,
    };
    if !has_renderer {
        if prev != 0 {
            RenderStep::Clear
        } else {
            RenderStep::Keep
        }
    } else if to_cache && cached {
        if hash != prev {
            RenderStep::ShowCached
        } else {
            RenderStep::Keep
        }
    } else {
        RenderStep::Draw
    }
}

} // verus!
