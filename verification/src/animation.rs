//! Per-frame bookkeeping of the animation: the field of raindrops, one per
//! terminal column, and the decisions of the fixed-framerate render loop.
//!
//! The render loop itself performs terminal I/O and lives outside the
//! library; it builds a `DropField`, asks it for one styled row at a time,
//! advances it once per frame, and hands it every input event through
//! `handle_event`.

use vstd::prelude::*;

use crate::raindrop::color_algorithms::{head_color_spec, ColorAlgorithm, StyledChar};
use crate::raindrop::randomness::new_thread_rng;
use crate::raindrop::{Raindrop, ADVANCE_CHANCE_SCALE};

verus! {

/// Returns one freshly initialized raindrop per terminal column, each with
/// its own random source.
fn create_raindrops<'a, C: ColorAlgorithm>(
    charset: &'a Vec<char>,
    color_algorithm: C,
    advance_chance: u32,
    terminal_width: u16,
    terminal_height: u16,
) -> (raindrops: Vec<Raindrop<'a, C>>)
    requires
        charset@.len() >= 1,
        1 <= advance_chance <= ADVANCE_CHANCE_SCALE,
        color_algorithm.params_valid(),
    ensures
        raindrops@.len() == terminal_width,
        forall|i: int|
            0 <= i < raindrops@.len() ==> {
                &&& (#[trigger] raindrops@[i]).wf()
                &&& raindrops@[i].spec_charset() == charset@
                &&& raindrops@[i].spec_color_algorithm() == color_algorithm
                &&& raindrops@[i].spec_advance_chance() == advance_chance
                &&& raindrops@[i].freshly_reinitialized(terminal_height as int)
            },
{
    let mut raindrop_vec: Vec<Raindrop<'a, C>> = Vec::with_capacity(terminal_width as usize);
    let mut column: u16 = 0;
    while column < terminal_width
        invariant
            column <= terminal_width,
            raindrop_vec@.len() == column,
            charset@.len() >= 1,
            1 <= advance_chance <= ADVANCE_CHANCE_SCALE,
            color_algorithm.params_valid(),
            forall|i: int|
                0 <= i < raindrop_vec@.len() ==> {
                    &&& (#[trigger] raindrop_vec@[i]).wf()
                    &&& raindrop_vec@[i].spec_charset() == charset@
                    &&& raindrop_vec@[i].spec_color_algorithm() == color_algorithm
                    &&& raindrop_vec@[i].spec_advance_chance() == advance_chance
                    &&& raindrop_vec@[i].freshly_reinitialized(terminal_height as int)
                },
        decreases terminal_width - column,
    {
        let new_rng = new_thread_rng();
        raindrop_vec.push(
            Raindrop::new(charset, color_algorithm, advance_chance, new_rng, terminal_height),
        );
        column = column + 1;
    }
    raindrop_vec
}

/// An input event as the render loop classifies it: a terminal resize
/// carrying the new width and height in that order, or any other key or
/// mouse event.
#[derive(Clone, Copy, Debug)]
pub enum AnimEvent {
    Resize(u16, u16),
    Other,
}

/// The complete set of per-column falling streams for the current terminal
/// size: one `Raindrop` per column, all sharing one character set, one
/// coloring strategy and one advance chance.  The field is rebuilt, not
/// mutated in place, whenever the terminal dimensions change.
pub struct DropField<'a, C: ColorAlgorithm> {
    charset: &'a Vec<char>,
    color_algorithm: C,
    advance_chance: u32,
    terminal_height: u16,
    raindrops: Vec<Raindrop<'a, C>>,
}

impl<'a, C: ColorAlgorithm> DropField<'a, C> {
    /// The characters of the set every raindrop samples from.
    pub closed spec fn spec_charset(&self) -> Seq<char> {
        self.charset@
    }

    /// The coloring strategy shared by every raindrop.
    pub closed spec fn spec_color_algorithm(&self) -> C {
        self.color_algorithm
    }

    /// The advance chance shared by every raindrop, in thousandths.
    pub closed spec fn spec_advance_chance(&self) -> u32 {
        self.advance_chance
    }

    /// The terminal height the field is currently built for.
    pub closed spec fn spec_terminal_height(&self) -> int {
        self.terminal_height as int
    }

    /// The raindrops of the field, in column order.
    pub closed spec fn spec_drops(&self) -> Seq<Raindrop<'a, C>> {
        self.raindrops@
    }

    /// The number of columns, one raindrop each.
    pub open spec fn spec_drop_count(&self) -> int {
        self.spec_drops().len() as int
    }

    /// Well-formedness: a sound shared configuration, and every raindrop
    /// well-formed and carrying exactly that configuration.
    pub open spec fn wf(&self) -> bool {
        &&& self.spec_charset().len() >= 1
        &&& 1 <= self.spec_advance_chance() <= ADVANCE_CHANCE_SCALE
        &&& self.spec_color_algorithm().params_valid()
        &&& forall|i: int|
            0 <= i < self.spec_drops().len() ==> {
                &&& (#[trigger] self.spec_drops()[i]).wf()
                &&& self.spec_drops()[i].spec_charset() == self.spec_charset()
                &&& self.spec_drops()[i].spec_color_algorithm() == self.spec_color_algorithm()
                &&& self.spec_drops()[i].spec_advance_chance() == self.spec_advance_chance()
            }
    }

    /// The two fields agree on character set, coloring strategy and
    /// advance chance.
    pub open spec fn same_config(pre: Self, post: Self) -> bool {
        &&& post.spec_charset() == pre.spec_charset()
        &&& post.spec_color_algorithm() == pre.spec_color_algorithm()
        &&& post.spec_advance_chance() == pre.spec_advance_chance()
    }

    /// Builds a field of one freshly initialized raindrop per column for a
    /// terminal of the given dimensions.
    pub fn new(
        charset: &'a Vec<char>,
        color_algorithm: C,
        advance_chance: u32,
        terminal_width: u16,
        terminal_height: u16,
    ) -> (field: Self)
        requires
            charset@.len() >= 1,
            1 <= advance_chance <= ADVANCE_CHANCE_SCALE,
            color_algorithm.params_valid(),
        ensures
            field.wf(),
            field.spec_charset() == charset@,
            field.spec_color_algorithm() == color_algorithm,
            field.spec_advance_chance() == advance_chance,
            field.spec_terminal_height() == terminal_height,
            field.spec_drop_count() == terminal_width,
            forall|i: int|
                0 <= i < field.spec_drop_count() ==> (#[trigger] field.spec_drops()[i])
                    .freshly_reinitialized(terminal_height as int),
    {
        let raindrops = create_raindrops(
            charset,
            color_algorithm,
            advance_chance,
            terminal_width,
            terminal_height,
        );
        DropField { charset, color_algorithm, advance_chance, terminal_height, raindrops }
    }

    /// The number of columns (and raindrops) of the field.
    pub fn drop_count(&self) -> (count: usize)
        ensures
            count == self.spec_drop_count(),
    {
        self.raindrops.len()
    }

    /// The terminal height the field is currently built for.
    pub fn terminal_height(&self) -> (height: u16)
        ensures
            height as int == self.spec_terminal_height(),
    {
        self.terminal_height
    }

    /// The current head row of the raindrop in the given column.
    pub fn drop_position(&self, column: usize) -> (row: i32)
        requires
            column < self.spec_drop_count(),
        ensures
            row as int == self.spec_drops()[column as int].spec_row_index(),
    {
        self.raindrops[column].position()
    }

    /// The styled characters of one terminal row, one entry per column:
    /// the column's raindrop contributes its head (bright white, bold) or
    /// a colored follower character, or nothing — a blank cell.  Reading a
    /// head resamples it, so the raindrops' random sources advance;
    /// nothing else changes.
    pub fn styled_row(&mut self, row_index: u16) -> (row: Vec<Option<StyledChar>>)
        requires
            old(self).wf(),
        ensures
            final(self).wf(),
            Self::same_config(*old(self), *final(self)),
            final(self).spec_terminal_height() == old(self).spec_terminal_height(),
            final(self).spec_drop_count() == old(self).spec_drop_count(),
            row@.len() == old(self).spec_drop_count(),
            forall|i: int|
                0 <= i < row@.len() ==> Raindrop::only_rng_differs(
                    #[trigger] old(self).spec_drops()[i],
                    final(self).spec_drops()[i],
                ),
            forall|i: int|
                0 <= i < row@.len() && row_index as int != old(self).spec_drops()[i]
                    .spec_row_index() ==> #[trigger] row@[i] == old(self).spec_drops()[i]
                    .spec_styled_at_non_head(row_index as int),
            forall|i: int|
                0 <= i < row@.len() && row_index as int == old(self).spec_drops()[i]
                    .spec_row_index() ==> (#[trigger] row@[i] matches Some(sc) && sc.bold
                    && sc.color == head_color_spec()),
    {
        let ghost entry_state = *self;
        let drop_count = self.raindrops.len();
        let mut row: Vec<Option<StyledChar>> = Vec::with_capacity(drop_count);
        let mut column: usize = 0;
        while column < drop_count
            invariant
                column <= drop_count,
                row@.len() == column,
                self.spec_drops().len() == drop_count,
                entry_state.spec_drops().len() == drop_count,
                self.wf(),
                entry_state.wf(),
                Self::same_config(entry_state, *self),
                self.spec_terminal_height() == entry_state.spec_terminal_height(),
                forall|i: int|
                    0 <= i < drop_count ==> Raindrop::only_rng_differs(
                        #[trigger] entry_state.spec_drops()[i],
                        self.spec_drops()[i],
                    ),
                forall|i: int|
                    0 <= i < column && row_index as int != entry_state.spec_drops()[i]
                        .spec_row_index() ==> #[trigger] row@[i] == entry_state.spec_drops()[i]
                        .spec_styled_at_non_head(row_index as int),
                forall|i: int|
                    0 <= i < column && row_index as int == entry_state.spec_drops()[i]
                        .spec_row_index() ==> (#[trigger] row@[i] matches Some(sc) && sc.bold
                        && sc.color == head_color_spec()),
            decreases drop_count - column,
        {
            let drop = &mut self.raindrops[column];
            let styled = drop.get_styled_char_at_row(row_index);
            row.push(styled);
            column = column + 1;
        }
        row
    }

    /// What one frame's `advance_animation` call does to the raindrop of
    /// one column, stated over the field's terminal height: a drop fully
    /// below the screen is recycled, any other either holds or moves down
    /// one row — always down, when the advance chance is one.
    pub open spec fn drop_advanced(
        &self,
        pre: Raindrop<'a, C>,
        post: Raindrop<'a, C>,
    ) -> bool {
        &&& Raindrop::same_config(pre, post)
        &&& (pre.spec_row_index() >= 0 && !pre.spec_is_visible(self.spec_terminal_height()))
            ==> post.freshly_reinitialized(self.spec_terminal_height())
        &&& !(pre.spec_row_index() >= 0 && !pre.spec_is_visible(self.spec_terminal_height()))
            ==> {
            &&& post.spec_follower() == pre.spec_follower()
            &&& (post.spec_row_index() == pre.spec_row_index() + 1 || post.spec_row_index()
                == pre.spec_row_index())
            &&& pre.spec_advance_chance() == ADVANCE_CHANCE_SCALE ==> post.spec_row_index()
                == pre.spec_row_index() + 1
        }
    }

    /// Calls `advance_animation` on every raindrop, strictly sequentially:
    /// the per-frame tick of the whole field.
    pub fn advance_all(&mut self)
        requires
            old(self).wf(),
        ensures
            final(self).wf(),
            Self::same_config(*old(self), *final(self)),
            final(self).spec_terminal_height() == old(self).spec_terminal_height(),
            final(self).spec_drop_count() == old(self).spec_drop_count(),
            forall|i: int|
                0 <= i < final(self).spec_drop_count() ==> old(self).drop_advanced(
                    #[trigger] old(self).spec_drops()[i],
                    final(self).spec_drops()[i],
                ),
    {
        let ghost entry_state = *self;
        let terminal_height = self.terminal_height;
        let drop_count = self.raindrops.len();
        let mut column: usize = 0;
        while column < drop_count
            invariant
                column <= drop_count,
                self.spec_drops().len() == drop_count,
                entry_state.spec_drops().len() == drop_count,
                self.wf(),
                entry_state.wf(),
                Self::same_config(entry_state, *self),
                self.spec_terminal_height() == entry_state.spec_terminal_height(),
                terminal_height as int == entry_state.spec_terminal_height(),
                forall|i: int|
                    column <= i < drop_count ==> #[trigger] self.spec_drops()[i] == entry_state
                        .spec_drops()[i],
                forall|i: int|
                    0 <= i < column ==> entry_state.drop_advanced(
                        #[trigger] entry_state.spec_drops()[i],
                        self.spec_drops()[i],
                    ),
            decreases drop_count - column,
        {
            let drop = &mut self.raindrops[column];
            drop.advance_animation(terminal_height);
            column = column + 1;
        }
    }

    /// Discards the current raindrops and rebuilds the field for the new
    /// terminal dimensions; every drop restarts from a fresh random
    /// above-screen position.
    pub fn resize(&mut self, new_width: u16, new_height: u16)
        requires
            old(self).wf(),
        ensures
            final(self).wf(),
            Self::same_config(*old(self), *final(self)),
            final(self).spec_terminal_height() == new_height,
            final(self).spec_drop_count() == new_width,
            forall|i: int|
                0 <= i < final(self).spec_drop_count() ==> (#[trigger] final(self).spec_drops()[i])
                    .freshly_reinitialized(new_height as int),
    {
        self.terminal_height = new_height;
        self.raindrops = create_raindrops(
            self.charset,
            self.color_algorithm,
            self.advance_chance,
            new_width,
            new_height,
        );
    }

    /// The render loop's reaction to the outcome of one frame's input
    /// poll: a timeout (no event) keeps the loop running with the field
    /// untouched; a resize rebuilds the field at the new dimensions and
    /// keeps running; any other event terminates the loop.
    pub fn handle_event(&mut self, event: Option<AnimEvent>) -> (keep_running: bool)
        requires
            old(self).wf(),
        ensures
            final(self).wf(),
            Self::same_config(*old(self), *final(self)),
            match event {
                None => keep_running && *final(self) == *old(self),
                Some(AnimEvent::Resize(new_width, new_height)) => {
                    &&& keep_running
                    &&& final(self).spec_drop_count() == new_width
                    &&& final(self).spec_terminal_height() == new_height
                    &&& forall|i: int|
                        0 <= i < final(self).spec_drop_count() ==> (#[trigger] final(self)
                            .spec_drops()[i]).freshly_reinitialized(new_height as int)
                },
                Some(AnimEvent::Other) => !keep_running && *final(self) == *old(self),
            },
    {
        match event {
            None => true,
            Some(AnimEvent::Resize(new_width, new_height)) => {
                self.resize(new_width, new_height);
                true
            },
            Some(AnimEvent::Other) => false,
        }
    }
}

/// The frame budget for a target framerate, in nanoseconds: one second
/// divided by the framerate, rounded down.  A framerate of zero is a fatal
/// configuration error, checked once at startup, never per frame.
pub fn target_frame_duration_nanos(target_framerate: usize) -> (nanos: u64)
    requires
        target_framerate > 0,
    ensures
        nanos == 1_000_000_000u64 / (target_framerate as u64),
{
    1_000_000_000u64 / (target_framerate as u64)
}

} // verus!
