//! The `Raindrop` structure: a single falling stream of randomized
//! characters.
//!
//! Raindrops consist of a leader (the "head") and a follower.  The head is
//! a continuously (per frame) resampled single character at the bottom of
//! the raindrop.  The follower is a string of characters above the head
//! with randomized length and content, fixed between reinitializations.

use std::io::Write;
use vstd::prelude::*;

pub mod charsets;
pub mod color_algorithms;
pub(crate) mod randomness;

use crate::raindrop::color_algorithms::{
    head_color, head_color_spec, ColorAlgorithm, Hsl, StyledChar, PROPORTION_SCALE,
};
use crate::raindrop::randomness::gen_range_usize;

verus! {

/// Shortest length a follower will be.
pub const FOLLOWER_MIN_LENGTH: u16 = 4;

/// The longest follower is the terminal height minus this offset.
pub const FOLLOWER_MAX_LENGTH_OFFSET: u16 = 4;

/// A reinitialized raindrop starts at a row between `-START_OFFSET_MAGNITUDE`
/// and `-1`, above the visible area.
pub const START_OFFSET_MAGNITUDE: u16 = 64;

/// An advance chance of one (move every frame) expressed in thousandths;
/// advance chances range over `1..=ADVANCE_CHANCE_SCALE`.
pub const ADVANCE_CHANCE_SCALE: u32 = 1000;

/// The greatest row index a raindrop can reach before being reinitialized:
/// just past the bottom of the tallest terminal with the longest follower,
/// `u16::MAX + u16::MAX`.
pub const MAX_ROW_INDEX: i32 = 0x1fffe;

/// The longest follower a terminal of the given height allows:
/// `terminal_height - FOLLOWER_MAX_LENGTH_OFFSET` (saturating at zero), but
/// at least `FOLLOWER_MIN_LENGTH + 1`.
pub open spec fn max_follower_length_spec(terminal_height: int) -> int {
    let uncapped = if terminal_height >= FOLLOWER_MAX_LENGTH_OFFSET as int {
        terminal_height - FOLLOWER_MAX_LENGTH_OFFSET as int
    } else {
        0
    };
    if uncapped >= FOLLOWER_MIN_LENGTH as int + 1 {
        uncapped
    } else {
        FOLLOWER_MIN_LENGTH as int + 1
    }
}

/// The proportional distance of a follower character from the head, in
/// thousandths, clamped to one: `follower_index / follower_length`, where
/// index 0 is the character immediately above the head.
pub open spec fn proportion_milli_spec(follower_index: int, follower_length: int) -> int {
    let proportion = PROPORTION_SCALE as int * follower_index / follower_length;
    if proportion > PROPORTION_SCALE as int {
        PROPORTION_SCALE as int
    } else {
        proportion
    }
}

/// Relies on writeln to the standard error stream of std::io: emits one
/// diagnostic line and touches nothing else.
#[verifier::external_body]
fn log_skipped_char(follower_index: i32) {
    let _ = writeln!(
        std::io::stderr(),
        "failed to represent follower index ({}) as a usize; skipping char",
        follower_index,
    );
}

/// A `Raindrop` describes a single falling stream of randomized characters.
///
/// It owns its follower buffer, its head position, its coloring strategy
/// and a private random source, and shares (read-only) the character set it
/// samples from.
pub struct Raindrop<'a, C: ColorAlgorithm> {
    // the set of characters heads and followers are sampled from; shared
    // read-only by every raindrop of a field
    charset: &'a Vec<char>,
    // the strategy that colors follower characters
    color_algorithm: C,
    // probability that the drop moves on a given frame, in thousandths,
    // within 1..=ADVANCE_CHANCE_SCALE
    advance_chance: u32,
    // follower_content is ordered such that index 0 represents the first
    // char above the leader, index 1 the second, and so on
    follower_content: Vec<char>,
    // row index of the leader; may be negative (above the visible area) or
    // beyond the terminal height (below it, pending reinitialization)
    row_index: i32,
    // locally cached random number generator
    local_rng: rand::rngs::ThreadRng,
}

impl<'a, C: ColorAlgorithm> Raindrop<'a, C> {
    /// The characters of the set this raindrop samples from.
    pub closed spec fn spec_charset(&self) -> Seq<char> {
        self.charset@
    }

    /// The coloring strategy applied to follower characters.
    pub closed spec fn spec_color_algorithm(&self) -> C {
        self.color_algorithm
    }

    /// The chance, in thousandths, that the drop moves on a given frame.
    pub closed spec fn spec_advance_chance(&self) -> u32 {
        self.advance_chance
    }

    /// The follower characters, index 0 immediately above the head.
    pub closed spec fn spec_follower(&self) -> Seq<char> {
        self.follower_content@
    }

    /// The row index of the head.
    pub closed spec fn spec_row_index(&self) -> int {
        self.row_index as int
    }

    /// The configuration a raindrop is built with is sound: a non-empty
    /// character set, an advance chance within `(0, 1]`, and coloring
    /// parameters in their declared ranges.
    pub open spec fn config_wf(&self) -> bool {
        &&& self.spec_charset().len() >= 1
        &&& 1 <= self.spec_advance_chance() <= ADVANCE_CHANCE_SCALE
        &&& self.spec_color_algorithm().params_valid()
    }

    /// Well-formedness of the whole raindrop: sound configuration, a
    /// follower of bounded length drawn from the character set, and a row
    /// index within the band the state machine can reach.
    pub open spec fn wf(&self) -> bool {
        &&& self.config_wf()
        &&& FOLLOWER_MIN_LENGTH as int <= self.spec_follower().len() <= u16::MAX as int
        &&& -(START_OFFSET_MAGNITUDE as int) <= self.spec_row_index() <= MAX_ROW_INDEX as int
        &&& forall|i: int|
            0 <= i < self.spec_follower().len() ==> self.spec_charset().contains(
                self.spec_follower()[i],
            )
    }

    /// The two raindrops agree on character set, coloring strategy and
    /// advance chance.
    pub open spec fn same_config(pre: Self, post: Self) -> bool {
        &&& post.spec_charset() == pre.spec_charset()
        &&& post.spec_color_algorithm() == pre.spec_color_algorithm()
        &&& post.spec_advance_chance() == pre.spec_advance_chance()
    }

    /// The two raindrops agree on everything but (possibly) the state of
    /// their random source.
    pub open spec fn only_rng_differs(pre: Self, post: Self) -> bool {
        &&& Self::same_config(pre, post)
        &&& post.spec_follower() == pre.spec_follower()
        &&& post.spec_row_index() == pre.spec_row_index()
    }

    /// The state `reinit_state` establishes: a follower of fresh random
    /// length within the terminal's bounds and a starting row above the
    /// screen, within `[-START_OFFSET_MAGNITUDE, -1]`.
    pub open spec fn freshly_reinitialized(&self, terminal_height: int) -> bool {
        &&& FOLLOWER_MIN_LENGTH as int <= self.spec_follower().len() <= max_follower_length_spec(
            terminal_height,
        )
        &&& -(START_OFFSET_MAGNITUDE as int) <= self.spec_row_index() <= -1
    }

    /// Whether the raindrop displays any character on a terminal of the
    /// given height: its head has entered the screen and its last follower
    /// character has not yet scrolled past the bottom edge.
    pub open spec fn spec_is_visible(&self, terminal_height: int) -> bool {
        0 <= self.spec_row_index() && self.spec_row_index() < terminal_height
            + self.spec_follower().len()
    }

    /// The character this raindrop contributes at a row other than its
    /// head row: nothing below the head, the follower character at
    /// `position - 1 - row` above it, and nothing beyond the follower's
    /// end.
    pub open spec fn spec_char_at_non_head(&self, row: int) -> Option<char>
        recommends
            row != self.spec_row_index(),
    {
        if row > self.spec_row_index() {
            None
        } else {
            let follower_index = self.spec_row_index() - 1 - row;
            if 0 <= follower_index < self.spec_follower().len() {
                Some(self.spec_follower()[follower_index])
            } else {
                None
            }
        }
    }

    /// The styled character this raindrop contributes at a row other than
    /// its head row: the follower character of `spec_char_at_non_head`,
    /// colored by the strategy at its proportional distance from the head,
    /// not bold.
    pub open spec fn spec_styled_at_non_head(&self, row: int) -> Option<StyledChar> {
        match self.spec_char_at_non_head(row) {
            None => None,
            Some(c) => Some(
                StyledChar {
                    ch: c,
                    color: self.spec_color_algorithm().color_spec(
                        proportion_milli_spec(
                            self.spec_row_index() - 1 - row,
                            self.spec_follower().len() as int,
                        ),
                    ),
                    bold: false,
                },
            ),
        }
    }

    /// Returns a pseudorandomly selected character of this raindrop's
    /// character set.  Sampling mutates the drop's private random source;
    /// nothing else changes.
    pub fn gen_char(&mut self) -> (c: char)
        requires
            old(self).config_wf(),
        ensures
            Self::only_rng_differs(*old(self), *final(self)),
            final(self).spec_charset().contains(c),
    {
        let charset_size = self.charset.len();
        let index = gen_range_usize(&mut self.local_rng, 0, charset_size - 1);
        self.charset[index]
    }

    /// Returns a new `Raindrop` built from the given character set,
    /// coloring strategy, advance chance (in thousandths, within `(0, 1]`)
    /// and random source, immediately reinitialized for the given terminal
    /// height.
    pub fn new(
        charset: &'a Vec<char>,
        color_algorithm: C,
        advance_chance: u32,
        existing_rng: rand::rngs::ThreadRng,
        terminal_height: u16,
    ) -> (drop: Self)
        requires
            charset@.len() >= 1,
            1 <= advance_chance <= ADVANCE_CHANCE_SCALE,
            color_algorithm.params_valid(),
        ensures
            drop.wf(),
            drop.spec_charset() == charset@,
            drop.spec_color_algorithm() == color_algorithm,
            drop.spec_advance_chance() == advance_chance,
            drop.freshly_reinitialized(terminal_height as int),
    {
        let mut new_instance = Raindrop {
            charset,
            color_algorithm,
            advance_chance,
            follower_content: Vec::new(),
            row_index: 0,
            local_rng: existing_rng,
        };
        new_instance.reinit_state(terminal_height);
        new_instance
    }

    /// Re-initializes the raindrop: a fresh random follower (new length,
    /// new content) and a fresh random starting row above the screen.
    /// This is the recycle operation; it is callable at any time with
    /// identical semantics, including right after construction.
    pub fn reinit_state(&mut self, terminal_height: u16)
        requires
            old(self).config_wf(),
        ensures
            final(self).wf(),
            Self::same_config(*old(self), *final(self)),
            final(self).freshly_reinitialized(terminal_height as int),
    {
        // determine max follower length by subtracting the offset from the
        // terminal height (saturating), but never below FOLLOWER_MIN_LENGTH + 1
        let uncapped = if terminal_height >= FOLLOWER_MAX_LENGTH_OFFSET {
            terminal_height - FOLLOWER_MAX_LENGTH_OFFSET
        } else {
            0
        };
        let max_follower_length = if uncapped >= FOLLOWER_MIN_LENGTH + 1 {
            uncapped
        } else {
            FOLLOWER_MIN_LENGTH + 1
        };
        let follower_length = gen_range_usize(
            &mut self.local_rng,
            FOLLOWER_MIN_LENGTH as usize,
            max_follower_length as usize,
        );
        let ghost entry_state = *self;
        let mut new_follower_content: Vec<char> = Vec::with_capacity(follower_length);
        while new_follower_content.len() < follower_length
            invariant
                new_follower_content@.len() <= follower_length,
                self.config_wf(),
                Self::same_config(entry_state, *self),
                self.spec_follower() == entry_state.spec_follower(),
                self.spec_row_index() == entry_state.spec_row_index(),
                forall|i: int|
                    0 <= i < new_follower_content@.len() ==> self.spec_charset().contains(
                        new_follower_content@[i],
                    ),
            decreases follower_length - new_follower_content@.len(),
        {
            let c = self.gen_char();
            new_follower_content.push(c);
        }
        self.follower_content = new_follower_content;
        let offset = gen_range_usize(&mut self.local_rng, 0, START_OFFSET_MAGNITUDE as usize - 1);
        self.row_index = -1 - (offset as i32);
    }

    /// Returns the character that should be printed for the given row, or
    /// `None` when this raindrop has no character there.  Reading the head
    /// row resamples its character (a side-effecting read of the random
    /// source); reading any other row changes nothing.
    pub fn get_char_at_row(&mut self, row_index: u16) -> (ch: Option<char>)
        requires
            old(self).wf(),
        ensures
            Self::only_rng_differs(*old(self), *final(self)),
            row_index as int == old(self).spec_row_index() ==> (ch matches Some(c)
                && final(self).spec_charset().contains(c)),
            row_index as int != old(self).spec_row_index() ==> ch == old(self)
                .spec_char_at_non_head(row_index as int),
    {
        let provided_row_index: i32 = row_index as i32;
        if self.row_index < provided_row_index {
            return None;
        }
        if self.row_index == provided_row_index {
            return Some(self.gen_char());
        }
        // the follower starts one row above the head
        let follower_index_raw: i32 = (self.row_index - 1) - provided_row_index;
        if follower_index_raw < 0 {
            // the index cannot be represented in the follower's indexing
            // domain: report the anomaly and degrade this cell to a blank
            // rather than fail
            log_skipped_char(follower_index_raw);
            return None;
        }
        let follower_index = follower_index_raw as usize;
        if follower_index < self.follower_content.len() {
            Some(self.follower_content[follower_index])
        } else {
            None
        }
    }

    /// Returns the character for the given row with its styling: the head
    /// is always bright neutral white and bold, while follower characters
    /// are colored by the strategy according to their proportional
    /// distance from the head.
    pub fn get_styled_char_at_row(&mut self, row_index: u16) -> (styled: Option<StyledChar>)
        requires
            old(self).wf(),
        ensures
            Self::only_rng_differs(*old(self), *final(self)),
            row_index as int == old(self).spec_row_index() ==> (styled matches Some(sc)
                && final(self).spec_charset().contains(sc.ch)
                && sc.color == head_color_spec()
                && sc.bold),
            row_index as int != old(self).spec_row_index() ==> styled == old(self)
                .spec_styled_at_non_head(row_index as int),
    {
        match self.get_char_at_row(row_index) {
            None => None,
            Some(unstyled_char) => {
                if self.row_index == row_index as i32 {
                    // the leader is styled white and bold regardless of the
                    // coloring strategy
                    Some(StyledChar { ch: unstyled_char, color: head_color(), bold: true })
                } else {
                    proof {
                        // a follower character came back, so the index is
                        // within the follower
                        assert(0 <= self.spec_row_index() - 1 - row_index
                            < self.spec_follower().len());
                    }
                    let follower_index: usize = ((self.row_index - 1) - (row_index as i32))
                        as usize;
                    let follower_length: usize = self.follower_content.len();
                    proof {
                        // the product stays far below the usize range
                        assert(1000 * follower_index < 0x10000000) by (nonlinear_arith)
                            requires
                                follower_index < 0x10000,
                        ;
                    }
                    let proportion_raw: usize = (PROPORTION_SCALE as usize * follower_index)
                        / follower_length;
                    let proportion: u32 = if proportion_raw > PROPORTION_SCALE as usize {
                        PROPORTION_SCALE
                    } else {
                        proportion_raw as u32
                    };
                    let color = self.color_algorithm.gen_color(proportion);
                    Some(StyledChar { ch: unstyled_char, color, bold: false })
                }
            },
        }
    }

    /// Moves the raindrop down one row.  To reset to the top, use
    /// `reinit_state`.
    pub fn move_drop(&mut self)
        requires
            old(self).wf(),
            old(self).spec_row_index() < MAX_ROW_INDEX as int,
        ensures
            final(self).wf(),
            Self::same_config(*old(self), *final(self)),
            final(self).spec_follower() == old(self).spec_follower(),
            final(self).spec_row_index() == old(self).spec_row_index() + 1,
    {
        self.row_index = self.row_index + 1;
    }

    /// Returns `true` iff the raindrop displays any character on a
    /// terminal of the given height.
    pub fn is_visible(&self, terminal_height: u16) -> (visible: bool)
        requires
            self.wf(),
        ensures
            visible == self.spec_is_visible(terminal_height as int),
    {
        if self.row_index < 0 {
            return false;
        }
        self.row_index < (terminal_height as i32) + (self.follower_content.len() as i32)
    }

    /// Advances the raindrop by one frame.  A drop that has scrolled fully
    /// below the screen is reinitialized (and does not also move this
    /// frame); otherwise it moves down one row with probability
    /// `advance_chance` — always, when the chance is one, in which case no
    /// random draw is made.
    ///
    /// The visibility check is skipped while the row index is negative:
    /// drops start above the screen and are never visible until they reach
    /// row 0, so without this guard a drop would be endlessly
    /// reinitialized before ever appearing.
    pub fn advance_animation(&mut self, terminal_height: u16)
        requires
            old(self).wf(),
        ensures
            final(self).wf(),
            Self::same_config(*old(self), *final(self)),
            (old(self).spec_row_index() >= 0 && !old(self).spec_is_visible(
                terminal_height as int,
            )) ==> final(self).freshly_reinitialized(terminal_height as int),
            !(old(self).spec_row_index() >= 0 && !old(self).spec_is_visible(
                terminal_height as int,
            )) ==> {
                &&& final(self).spec_follower() == old(self).spec_follower()
                &&& (final(self).spec_row_index() == old(self).spec_row_index() + 1
                    || final(self).spec_row_index() == old(self).spec_row_index())
                &&& old(self).spec_advance_chance() == ADVANCE_CHANCE_SCALE
                    ==> final(self).spec_row_index() == old(self).spec_row_index() + 1
            },
    {
        if !(self.row_index < 0) {
            if !self.is_visible(terminal_height) {
                self.reinit_state(terminal_height);
                return ;
            }
        }
        if self.advance_chance == ADVANCE_CHANCE_SCALE {
            self.move_drop();
        } else {
            let draw = gen_range_usize(&mut self.local_rng, 0, ADVANCE_CHANCE_SCALE as usize - 1);
            if (draw as u32) < self.advance_chance {
                self.move_drop();
            }
        }
    }

    /// The current row index of the head.
    pub fn position(&self) -> (row: i32)
        ensures
            row as int == self.spec_row_index(),
    {
        self.row_index
    }

    /// The current length of the follower.
    pub fn follower_len(&self) -> (length: usize)
        ensures
            length == self.spec_follower().len(),
    {
        self.follower_content.len()
    }
}

/// On a terminal of height at least `FOLLOWER_MIN_LENGTH +
/// FOLLOWER_MAX_LENGTH_OFFSET + 1`, a freshly reinitialized raindrop has a
/// follower length within `[FOLLOWER_MIN_LENGTH, terminal_height -
/// FOLLOWER_MAX_LENGTH_OFFSET]` and a starting row within
/// `[-START_OFFSET_MAGNITUDE, -1]`.
pub proof fn lemma_fresh_drop_bounds<'a, C: ColorAlgorithm>(
    drop: Raindrop<'a, C>,
    terminal_height: int,
)
    requires
        terminal_height >= FOLLOWER_MIN_LENGTH + FOLLOWER_MAX_LENGTH_OFFSET + 1,
        drop.freshly_reinitialized(terminal_height),
    ensures
        FOLLOWER_MIN_LENGTH as int <= drop.spec_follower().len() <= terminal_height
            - FOLLOWER_MAX_LENGTH_OFFSET,
        -(START_OFFSET_MAGNITUDE as int) <= drop.spec_row_index() <= -1,
{
}

/// Away from its head, a raindrop contributes no character to rows below
/// the head, nor to rows at or beyond the follower's length above it.
pub proof fn lemma_char_at_outside_stream<'a, C: ColorAlgorithm>(
    drop: Raindrop<'a, C>,
    row: int,
)
    requires
        row != drop.spec_row_index(),
        row > drop.spec_row_index() || drop.spec_row_index() - 1 - row
            >= drop.spec_follower().len(),
    ensures
        drop.spec_char_at_non_head(row) is None,
{
}

/// Away from the head, the character at a row is a pure function of the
/// follower content and the head position: raindrops that agree on both
/// agree on every such row.  Follower content is fixed between
/// reinitializations, so repeated reads of a follower row yield the same
/// character — unlike the head, which is resampled on every read.
pub proof fn lemma_follower_char_deterministic<'a, C: ColorAlgorithm>(
    first: Raindrop<'a, C>,
    second: Raindrop<'a, C>,
    row: int,
)
    requires
        first.spec_follower() == second.spec_follower(),
        first.spec_row_index() == second.spec_row_index(),
    ensures
        first.spec_char_at_non_head(row) == second.spec_char_at_non_head(row),
{
}

/// Visibility window: a raindrop is invisible while above the screen
/// (negative row index) and once its head reaches `terminal_height +
/// follower length`; it is visible everywhere in between.
pub proof fn lemma_visibility_window<'a, C: ColorAlgorithm>(
    drop: Raindrop<'a, C>,
    terminal_height: int,
)
    ensures
        drop.spec_row_index() < 0 ==> !drop.spec_is_visible(terminal_height),
        drop.spec_row_index() >= terminal_height + drop.spec_follower().len() ==> !drop
            .spec_is_visible(terminal_height),
        0 <= drop.spec_row_index() < terminal_height + drop.spec_follower().len() ==> drop
            .spec_is_visible(terminal_height),
{
}

/// Whether an advance call finding the drop at this position with this
/// follower length reinitializes it: the head is at or past the bottom
/// edge including the follower.
pub open spec fn reinit_triggered(position: int, follower_length: int, terminal_height: int) -> bool {
    position >= 0 && position >= terminal_height + follower_length
}

/// One `advance_animation` call of a raindrop whose advance chance is one,
/// abstracted to the position and follower length it may produce: past the
/// bottom edge the drop is reinitialized (fresh bounded follower, fresh
/// negative position); anywhere else the head moves down one row and the
/// follower is kept.
pub open spec fn advance_step(
    position: int,
    follower_length: int,
    next_position: int,
    next_follower_length: int,
    terminal_height: int,
) -> bool {
    if reinit_triggered(position, follower_length, terminal_height) {
        &&& -(START_OFFSET_MAGNITUDE as int) <= next_position <= -1
        &&& FOLLOWER_MIN_LENGTH as int <= next_follower_length <= max_follower_length_spec(
            terminal_height,
        )
    } else {
        next_position == position + 1 && next_follower_length == follower_length
    }
}

/// With an advance chance of one, every `advance_animation` call satisfies
/// the `advance_step` relation between its pre- and post-states: the
/// lemma's hypotheses are the call's postconditions.
pub proof fn lemma_advance_matches_step<'a, C: ColorAlgorithm>(
    pre: Raindrop<'a, C>,
    post: Raindrop<'a, C>,
    terminal_height: int,
)
    requires
        (pre.spec_row_index() >= 0 && !pre.spec_is_visible(terminal_height)) ==> post
            .freshly_reinitialized(terminal_height),
        !(pre.spec_row_index() >= 0 && !pre.spec_is_visible(terminal_height)) ==> (post
            .spec_follower() == pre.spec_follower() && post.spec_row_index() == pre.spec_row_index()
            + 1),
    ensures
        advance_step(
            pre.spec_row_index(),
            pre.spec_follower().len() as int,
            post.spec_row_index(),
            post.spec_follower().len() as int,
            terminal_height,
        ),
{
}

/// While no reinitialization is triggered, advancing with a chance of one
/// moves the head down one row per call and keeps the follower: after `k`
/// calls from a position that stays at or above the bottom edge, the
/// position has grown by exactly `k`.
proof fn lemma_steady_descent(
    positions: Seq<int>,
    lengths: Seq<int>,
    terminal_height: int,
    k: int,
)
    requires
        positions.len() == lengths.len(),
        0 <= k < positions.len(),
        forall|i: int|
            0 <= i < positions.len() - 1 ==> advance_step(
                #[trigger] positions[i],
                lengths[i],
                positions[i + 1],
                lengths[i + 1],
                terminal_height,
            ),
        positions[0] + k <= terminal_height + lengths[0],
    ensures
        forall|i: int|
            0 <= i <= k ==> #[trigger] positions[i] == positions[0] + i && lengths[i] == lengths[0],
    decreases k,
{
    if k > 0 {
        lemma_steady_descent(positions, lengths, terminal_height, k - 1);
        assert(positions[k - 1] == positions[0] + k - 1);
        assert(positions[k - 1] < terminal_height + lengths[k - 1]);
        assert(!reinit_triggered(positions[k - 1], lengths[k - 1], terminal_height));
        assert(advance_step(
            positions[k - 1],
            lengths[k - 1],
            positions[k],
            lengths[k],
            terminal_height,
        ));
    }
}

/// A raindrop cycles rather than growing its position unboundedly: with an
/// advance chance of one, starting from position `p` at most
/// `terminal_height + follower_length`, exactly one reinitialization is
/// triggered among the first `terminal_height + follower_length - p + 1`
/// advance calls — at the last of them, and at no earlier one.  Once the
/// head has entered the screen (`p >= 1`), that lies within the first
/// `terminal_height + follower_length` calls.
pub proof fn lemma_drop_cycles(positions: Seq<int>, lengths: Seq<int>, terminal_height: int)
    requires
        positions.len() == lengths.len(),
        positions.len() > terminal_height + lengths[0] - positions[0] + 1,
        0 <= terminal_height + lengths[0],
        positions[0] <= terminal_height + lengths[0],
        forall|i: int|
            0 <= i < positions.len() - 1 ==> advance_step(
                #[trigger] positions[i],
                lengths[i],
                positions[i + 1],
                lengths[i + 1],
                terminal_height,
            ),
    ensures
        ({
            let reinit_call = terminal_height + lengths[0] - positions[0];
            &&& 0 <= reinit_call
            &&& reinit_triggered(positions[reinit_call], lengths[reinit_call], terminal_height)
            &&& forall|i: int|
                0 <= i < reinit_call ==> !reinit_triggered(
                    #[trigger] positions[i],
                    lengths[i],
                    terminal_height,
                )
            &&& positions[0] >= 1 ==> reinit_call < terminal_height + lengths[0]
        }),
{
    let reinit_call = terminal_height + lengths[0] - positions[0];
    lemma_steady_descent(positions, lengths, terminal_height, reinit_call);
    assert(positions[reinit_call] == terminal_height + lengths[reinit_call]);
    assert forall|i: int| 0 <= i < reinit_call implies !reinit_triggered(
        #[trigger] positions[i],
        lengths[i],
        terminal_height,
    ) by {
        assert(positions[i] == positions[0] + i);
        assert(positions[i] < terminal_height + lengths[i]);
    }
}

} // verus!
