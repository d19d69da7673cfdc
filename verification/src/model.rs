//! The model and its event reducer.
//!
//! One owned state — tree, grid, cursor, screen size — advances by one
//! input event at a time.  The reducer mutates the state and returns the
//! effects (note datagrams, render-target resizes) for the shell to
//! execute at its I/O boundary, together with the redraw and termination
//! flags.  Every recognized window event requests a redraw.

use vstd::prelude::*;

verus! {

use crate::cursor::{Cursor, BandRect, cursor_band_ok};
use crate::dispatch::{NoteMessage, is_note_on, is_note_off, note_on, note_off};
use crate::geom::ScreenSize;
use crate::grid::{Grid, GridRect, grid_output_ok};
use crate::tree::{SbTree, TreeGlyph, tree_layers, tree_output_ok, MAX_DEPTH};

/// Layers generated below the root at startup.
pub const DEFAULT_LAYERS: usize = 8;

/// One input event, as the windowing shell delivers them.
#[derive(Clone, Copy, PartialEq, Eq, Structural, Debug)]
pub enum InputEvent {
    Closed,
    CursorMoved(i32),
    PointerPress,
    PointerRelease,
    Resized(u32, u32),
    Other,
}

/// An effect for the shell to execute after a reducer step.
#[derive(Clone, Copy, PartialEq, Eq, Structural, Debug)]
pub enum Effect {
    SendNote(NoteMessage),
    NotifyResize(ScreenSize),
}

/// The outcome of one reducer step.
pub struct StepResult {
    pub effects: Vec<Effect>,
    pub redraw: bool,
    pub running: bool,
}

/// The complete application state.
pub struct Model {
    pub tree: SbTree,
    pub grid: Grid,
    pub cursor: Cursor,
    pub screen: ScreenSize,
}

/// The draw primitives of one frame, in paint order: grid, tree, cursor.
pub struct Frame {
    pub grid: Vec<Vec<GridRect>>,
    pub tree: Vec<Vec<TreeGlyph>>,
    pub cursor: BandRect,
}

impl Model {
    /// The tree is fully generated and the grid is within layout limits.
    pub open spec fn wf(&self) -> bool {
        &&& self.tree.wf()
        &&& 1 <= self.tree.depth() <= MAX_DEPTH
        &&& self.grid.edos_ok()
    }

    /// The startup state: tree of depth 8, grid [12, 31, 53], cursor at 0,
    /// a 960 by 600 screen.
    pub fn new() -> (m: Model)
        ensures
            m.wf(),
            m.tree@ == tree_layers(DEFAULT_LAYERS as nat),
            m.grid.edos@ == seq![12usize, 31usize, 53usize],
            m.cursor.pos == 0,
            m.screen == (ScreenSize { w: 960, h: 600 }),
    {
        let mut tree = SbTree::new();
        tree.set_layers_number(DEFAULT_LAYERS);
        let edos: Vec<usize> = vec![12, 31, 53];
        proof {
            assert(edos@ =~= seq![12usize, 31usize, 53usize]);
        }
        Model {
            tree,
            grid: Grid { edos },
            cursor: Cursor { pos: 0 },
            screen: ScreenSize { w: 960, h: 600 },
        }
    }

    /// Applies one input event.
    ///
    /// A cursor move stores the new position; a press emits exactly one
    /// note-on built from the current cursor and screen width; a release
    /// emits exactly one note-off; a resize stores the new screen size and
    /// asks the renderer to follow, touching nothing else; a close stops
    /// the loop; anything else only requests a redraw.
    pub fn update(&mut self, ev: InputEvent) -> (r: StepResult)
        requires
            old(self).wf(),
        ensures
            final(self).wf(),
            final(self).tree == old(self).tree,
            final(self).grid.edos@ == old(self).grid.edos@,
            r.redraw == true,
            r.running == !(ev matches InputEvent::Closed),
            ev matches InputEvent::Closed ==> *final(self) == *old(self) && r.effects@.len() == 0,
            ev matches InputEvent::CursorMoved(x) ==> final(self).cursor.pos == x
                && final(self).screen == old(self).screen && r.effects@.len() == 0,
            ev matches InputEvent::PointerPress ==> *final(self) == *old(self)
                && r.effects@.len() == 1
                && (r.effects@[0] matches Effect::SendNote(msg)
                && is_note_on(msg, old(self).cursor.pos as int, old(self).screen.w as int)),
            ev matches InputEvent::PointerRelease ==> *final(self) == *old(self)
                && r.effects@.len() == 1
                && (r.effects@[0] matches Effect::SendNote(msg) && is_note_off(msg)),
            ev matches InputEvent::Resized(w, h) ==> final(self).cursor == old(self).cursor
                && final(self).screen == (ScreenSize { w, h }) && r.effects@.len() == 1
                && r.effects@[0] == Effect::NotifyResize(ScreenSize { w, h }),
            ev matches InputEvent::Other ==> *final(self) == *old(self) && r.effects@.len() == 0,
    {
        match ev {
            InputEvent::Closed => StepResult { effects: Vec::new(), redraw: true, running: false },
            InputEvent::CursorMoved(x) => {
                self.cursor.set_position(x);
                StepResult { effects: Vec::new(), redraw: true, running: true }
            },
            InputEvent::PointerPress => {
                let msg = note_on(&self.cursor, self.screen.w);
                let mut effects: Vec<Effect> = Vec::new();
                effects.push(Effect::SendNote(msg));
                StepResult { effects, redraw: true, running: true }
            },
            InputEvent::PointerRelease => {
                let mut effects: Vec<Effect> = Vec::new();
                effects.push(Effect::SendNote(note_off()));
                StepResult { effects, redraw: true, running: true }
            },
            InputEvent::Resized(w, h) => {
                let ns = ScreenSize { w, h };
                self.screen = ns;
                let mut effects: Vec<Effect> = Vec::new();
                effects.push(Effect::NotifyResize(ns));
                StepResult { effects, redraw: true, running: true }
            },
            InputEvent::Other => StepResult { effects: Vec::new(), redraw: true, running: true },
        }
    }
}

/// Computes one frame of draw primitives from the current state, in the
/// paint order grid, tree, cursor.
pub fn draw_model(m: &Model) -> (f: Frame)
    requires
        m.wf(),
    ensures
        grid_output_ok(f.grid@, m.grid.edos@, m.screen.w as int, m.screen.h as int),
        tree_output_ok(f.tree@, m.tree@, m.screen.h as int),
        cursor_band_ok(f.cursor, m.cursor.pos as int, m.screen.w as int, m.screen.h as int),
{
    Frame {
        grid: m.grid.draw(m.screen),
        tree: m.tree.draw(m.screen),
        cursor: m.cursor.draw(m.screen),
    }
}

} // verus!
