use vstd::prelude::*;
use crate::actions::{ActionState, Actions, NothingActionState};
use crate::door::Openable;
use crate::index::TextureIndex;
use crate::map::{LevelMap, Tile};

verus! {

/// What a ray meets when it crosses into a tile.
#[derive(Debug, Copy, Clone, PartialEq, Eq, Structural)]
pub enum Crossing {
    /// The ray leaves the map: it stops on the map's border texture.
    Border(TextureIndex),
    /// A wall stops the ray.
    Wall(TextureIndex),
    /// Free space: the ray goes on.
    Open,
    /// A door or a pane: its frame is met first, then the door itself, half a
    /// tile further in; the ray goes on behind it.
    Door {
        inside: TextureIndex,
        outside: TextureIndex,
        blocking: bool,
        openable: Openable,
        opening: u32,
    },
}

/// What a ray meets in a tile holding `tile` (or `None` outside the map),
/// whose animated state is `state`.
pub open spec fn crossing_of(tile: Option<Tile>, state: ActionState, border: TextureIndex) -> Crossing {
    match tile {
        None => Crossing::Border(border),
        Some(Tile::Solid(texture)) => Crossing::Wall(texture),
        Some(Tile::Nothing) => Crossing::Open,
        Some(Tile::Dynamic(inside, outside, _)) => Crossing::Door {
            inside,
            outside,
            blocking: state.spec_activated_percentage() != crate::door::FULL,
            openable: state.spec_openable(),
            opening: state.spec_activated_percentage(),
        },
    }
}

/// What a ray meets when it crosses into tile `(x, y)` of `map`, whose
/// states are `actions`.
pub open spec fn crossing_in(map: LevelMap, actions: Actions, x: int, y: int) -> Crossing {
    crossing_of(
        if map.in_bounds(x, y) {
            Some(map.spec_paving()[x][y])
        } else {
            None
        },
        if map.in_bounds(x, y) {
            actions.spec_states()[x][y]
        } else {
            ActionState::Nothing(NothingActionState {  })
        },
        map.spec_border_texture(),
    )
}

/// What a ray meets in a tile depends on that tile, its state and the
/// border texture alone: a door next to it changes nothing.
pub proof fn lemma_crossing_is_local(
    map: LevelMap,
    actions: Actions,
    other_map: LevelMap,
    other_actions: Actions,
    x: int,
    y: int,
)
    requires
        map.in_bounds(x, y) == other_map.in_bounds(x, y),
        map.spec_border_texture() == other_map.spec_border_texture(),
        map.in_bounds(x, y) ==> map.spec_paving()[x][y] == other_map.spec_paving()[x][y]
            && actions.spec_states()[x][y] == other_actions.spec_states()[x][y],
    ensures
        crossing_in(map, actions, x, y) == crossing_in(other_map, other_actions, x, y),
{
}

/// What a ray meets when it crosses into tile `(x, y)` of `map`, whose
/// states are `actions`.
pub fn crossing_at(map: &LevelMap, actions: &Actions, x: i16, y: i16) -> (r: Crossing)
    requires
        map.wf(),
        actions.wf(),
        actions.spec_width() == map.spec_width(),
        actions.spec_height() == map.spec_height(),
    ensures
        r == crossing_in(*map, *actions, x as int, y as int),
        r matches Crossing::Door { opening, .. } ==> opening <= crate::door::FULL,
{
    match map.paving_at(x, y) {
        None => Crossing::Border(map.border_texture()),
        Some(Tile::Solid(texture)) => Crossing::Wall(*texture),
        Some(Tile::Nothing) => Crossing::Open,
        Some(Tile::Dynamic(inside, outside, _)) => {
            match actions.state_at(x, y) {
                Some(state) => Crossing::Door {
                    inside: *inside,
                    outside: *outside,
                    blocking: state.blocks_movement(),
                    openable: state.openable(),
                    opening: state.activated_percentage(),
                },
                None => Crossing::Open,
            }
        },
    }
}

} // verus!
