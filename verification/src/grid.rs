//! The simulation grid, its compute dispatch and the ping-pong schedule of
//! the two cell textures.
use vstd::prelude::*;

verus! {

/// Side length, in cells, of the square simulation grid (and of the window).
pub const SIM_SIZE: u32 = 1024;

/// Side length, in invocations, of one square compute work group.
pub const WORK_GROUP_SIZE: u32 = 32;

/// Work groups dispatched along each axis so that the groups tile the grid.
pub open spec fn spec_groups_per_axis() -> int {
    (SIM_SIZE / WORK_GROUP_SIZE) as int
}

/// The dispatch size of every compute pass over the grid (initialisation,
/// generation update and drawing): one work group per tile along `x` and
/// `y`, a single layer along `z`.
pub fn dispatch_size() -> (groups: (u32, u32, u32))
    ensures
        groups.0 == spec_groups_per_axis(),
        groups.1 == spec_groups_per_axis(),
        groups.2 == 1,
        groups.0 * WORK_GROUP_SIZE == SIM_SIZE,
        groups.1 * WORK_GROUP_SIZE == SIM_SIZE,
{
    let n: u32 = SIM_SIZE / WORK_GROUP_SIZE;
    (n, n, 1)
}

/// The exact cover of the grid by the dispatch: the work groups of one pass
/// cover every cell along each axis and none beyond it.
pub proof fn lemma_dispatch_covers_grid()
    ensures
        SIM_SIZE % WORK_GROUP_SIZE == 0,
        spec_groups_per_axis() * WORK_GROUP_SIZE == SIM_SIZE,
        spec_groups_per_axis() > 0,
{
}

/// One of the two cell textures that the generation update ping-pongs between.
#[derive(Clone, Copy, Debug, PartialEq, Eq)]
pub enum Texture {
    /// The texture that the screen quad shows.
    Canvas,
    /// The second cell texture.
    DataIn,
}

/// Which texture the generation update binds at each of its two bind slots.
#[derive(Clone, Copy, Debug, PartialEq, Eq)]
pub struct UpdateBindings {
    /// The texture bound at slot 0.
    pub slot0: Texture,
    /// The texture bound at slot 1.
    pub slot1: Texture,
}

impl UpdateBindings {
    /// The same two textures with their slots exchanged.
    pub open spec fn swapped(self) -> UpdateBindings {
        UpdateBindings { slot0: self.slot1, slot1: self.slot0 }
    }
}

/// The bindings of the update that computes generation `generation + 1` from
/// generation `generation`: even generations bind the canvas at slot 0 and
/// the second texture at slot 1, odd generations the other way round.
pub open spec fn spec_update_bindings(generation: int) -> UpdateBindings {
    if generation % 2 == 0 {
        UpdateBindings { slot0: Texture::Canvas, slot1: Texture::DataIn }
    } else {
        UpdateBindings { slot0: Texture::DataIn, slot1: Texture::Canvas }
    }
}

/// The texture bindings of the update pass run when `generation` updates
/// have already been run.
pub fn update_bindings(generation: usize) -> (b: UpdateBindings)
    ensures
        b == spec_update_bindings(generation as int),
{
    if generation % 2 == 0 {
        UpdateBindings { slot0: Texture::Canvas, slot1: Texture::DataIn }
    } else {
        UpdateBindings { slot0: Texture::DataIn, slot1: Texture::Canvas }
    }
}

/// The ping-pong schedule: every update binds the two distinct textures,
/// consecutive updates bind them in exchanged slots (what one pass has at
/// one slot, the next has at the other), and the schedule repeats every two
/// generations.
pub proof fn lemma_update_bindings_alternate(generation: int)
    ensures
        spec_update_bindings(generation).slot0 != spec_update_bindings(generation).slot1,
        spec_update_bindings(generation + 1) == spec_update_bindings(generation).swapped(),
        spec_update_bindings(generation + 2) == spec_update_bindings(generation),
{
}

/// Which texture sits at which slot depends on the parity of the number of
/// updates run so far alone: after an even number the canvas is at slot 0
/// and the second texture at slot 1, after an odd number the other way round.
pub proof fn lemma_update_bindings_by_parity(generation: int)
    ensures
        generation % 2 == 0 ==> spec_update_bindings(generation) == (UpdateBindings {
            slot0: Texture::Canvas,
            slot1: Texture::DataIn,
        }),
        generation % 2 != 0 ==> spec_update_bindings(generation) == (UpdateBindings {
            slot0: Texture::DataIn,
            slot1: Texture::Canvas,
        }),
        spec_update_bindings(0) == (UpdateBindings { slot0: Texture::Canvas, slot1: Texture::DataIn }),
{
}

} // verus!
