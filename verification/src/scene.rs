//! A small registry of entities and the per-tick pipeline that runs on it.

use vstd::prelude::*;
use crate::input::{MoveKeys, TurnKeys};
use crate::kinematics::{MotionError, MovableEntity, StaticMarker, Transform2D, FULL_TURN};
use crate::relation::{classify, facing_alignment, norms_product, within, Alignment, Containment};
use crate::vector::{dot, representable};

verus! {

/// What an entity is for.
#[derive(Clone, Copy, Debug, PartialEq, Eq, Structural)]
pub enum Kind {
    /// The entity that input moves.
    Movable,
    /// A fixed reference point.
    Marker,
}

/// An entity of the scene.
#[derive(Clone, Copy, Debug, PartialEq, Eq, Structural)]
pub enum Entity {
    Movable(MovableEntity),
    Marker(StaticMarker),
}

/// A lookup that needs exactly one entity of a kind found none, or several.
#[derive(Clone, Copy, Debug, PartialEq, Eq, Structural)]
pub enum CardinalityError {
    Missing,
    Multiple,
}

impl Entity {
    /// The kind of this entity.
    pub open spec fn kind_spec(self) -> Kind {
        match self {
            Entity::Movable(_) => Kind::Movable,
            Entity::Marker(_) => Kind::Marker,
        }
    }

    /// The transform of this entity.
    pub open spec fn transform_spec(self) -> Transform2D {
        match self {
            Entity::Movable(m) => m.transform,
            Entity::Marker(s) => s.transform,
        }
    }

    /// The kind of this entity.
    pub fn kind(&self) -> (k: Kind)
        ensures
            k == self.kind_spec(),
    {
        match self {
            Entity::Movable(_) => Kind::Movable,
            Entity::Marker(_) => Kind::Marker,
        }
    }

    /// The transform of this entity.
    pub fn transform(&self) -> (t: Transform2D)
        ensures
            t == self.transform_spec(),
    {
        match self {
            Entity::Movable(m) => m.transform,
            Entity::Marker(s) => s.transform,
        }
    }
}

/// Entity `i` exists and is of the given kind.
pub open spec fn matches_at(entities: Seq<Entity>, kind: Kind, i: int) -> bool {
    0 <= i < entities.len() && entities[i].kind_spec() == kind
}

/// Entity `i` is the one and only entity of the given kind.
pub open spec fn sole_match(entities: Seq<Entity>, kind: Kind, i: int) -> bool {
    &&& matches_at(entities, kind, i)
    &&& forall|j: int| #[trigger] matches_at(entities, kind, j) ==> j == i
}

/// No entity is of the given kind.
pub open spec fn no_match(entities: Seq<Entity>, kind: Kind) -> bool {
    forall|j: int| !#[trigger] matches_at(entities, kind, j)
}

/// At least two entities are of the given kind.
pub open spec fn several_match(entities: Seq<Entity>, kind: Kind) -> bool {
    exists|j: int, k: int|
        j != k && #[trigger] matches_at(entities, kind, j) && #[trigger] matches_at(
            entities,
            kind,
            k,
        )
}

/// What a lookup of the single entity of a kind must answer.
pub open spec fn lookup_result(
    entities: Seq<Entity>,
    kind: Kind,
    r: Result<usize, CardinalityError>,
) -> bool {
    match r {
        Ok(i) => sole_match(entities, kind, i as int),
        Err(CardinalityError::Missing) => no_match(entities, kind),
        Err(CardinalityError::Multiple) => several_match(entities, kind),
    }
}

/// Finds the single entity of the given kind.
///
/// Answers with its index when exactly one exists, and otherwise says
/// whether none or several were found.
pub fn find_single(entities: &Vec<Entity>, kind: Kind) -> (r: Result<usize, CardinalityError>)
    ensures
        lookup_result(entities@, kind, r),
{
    let mut found: Option<usize> = None;
    let mut i: usize = 0;
    while i < entities.len()
        invariant
            i <= entities.len(),
            found.is_some() ==> found.unwrap() < i && matches_at(
                entities@,
                kind,
                found.unwrap() as int,
            ),
            forall|j: int|
                0 <= j < i && #[trigger] matches_at(entities@, kind, j) ==> found == Some(
                    j as usize,
                ),
        decreases entities.len() - i,
    {
        if entities[i].kind() == kind {
            match found {
                Some(first) => {
                    assert(matches_at(entities@, kind, first as int));
                    assert(matches_at(entities@, kind, i as int));
                    return Err(CardinalityError::Multiple);
                },
                None => {
                    found = Some(i);
                },
            }
        }
        i += 1;
    }
    match found {
        Some(at) => Ok(at),
        None => Err(CardinalityError::Missing),
    }
}

/// The three outcomes of a lookup exclude one another, so a lookup has one
/// right answer: two answers that both fit are the same answer.
pub proof fn lemma_lookup_unique(
    entities: Seq<Entity>,
    kind: Kind,
    a: Result<usize, CardinalityError>,
    b: Result<usize, CardinalityError>,
)
    requires
        lookup_result(entities, kind, a),
        lookup_result(entities, kind, b),
    ensures
        a == b,
{
    match (a, b) {
        (Ok(i), Ok(j)) => {
            assert(matches_at(entities, kind, j as int));
        },
        (Ok(i), Err(CardinalityError::Missing)) => {
            assert(matches_at(entities, kind, i as int));
        },
        (Err(CardinalityError::Missing), Ok(i)) => {
            assert(matches_at(entities, kind, i as int));
        },
        (Ok(i), Err(CardinalityError::Multiple)) => {
            let (j, k) = choose|j: int, k: int|
                j != k && #[trigger] matches_at(entities, kind, j) && #[trigger] matches_at(
                    entities,
                    kind,
                    k,
                );
            assert(j == i && k == i);
        },
        (Err(CardinalityError::Multiple), Ok(i)) => {
            let (j, k) = choose|j: int, k: int|
                j != k && #[trigger] matches_at(entities, kind, j) && #[trigger] matches_at(
                    entities,
                    kind,
                    k,
                );
            assert(j == i && k == i);
        },
        (Err(CardinalityError::Missing), Err(CardinalityError::Multiple)) => {
            let (j, k) = choose|j: int, k: int|
                j != k && #[trigger] matches_at(entities, kind, j) && #[trigger] matches_at(
                    entities,
                    kind,
                    k,
                );
            assert(matches_at(entities, kind, j));
        },
        (Err(CardinalityError::Multiple), Err(CardinalityError::Missing)) => {
            let (j, k) = choose|j: int, k: int|
                j != k && #[trigger] matches_at(entities, kind, j) && #[trigger] matches_at(
                    entities,
                    kind,
                    k,
                );
            assert(matches_at(entities, kind, j));
        },
        _ => {},
    }
}

/// What one tick reports about the player and the marker.
#[derive(Clone, Copy, Debug, PartialEq, Eq, Structural)]
pub struct Observation {
    /// Whether the player is inside the marker's square.
    pub containment: Containment,
    /// How well the player's and the marker's directions from the origin agree.
    pub alignment: Alignment,
}

/// Why a tick did nothing.
#[derive(Clone, Copy, Debug, PartialEq, Eq, Structural)]
pub enum TickError {
    /// There is not exactly one movable entity.
    Player(CardinalityError),
    /// There is not exactly one marker.
    Marker(CardinalityError),
    /// The player would leave the lattice's range.
    Motion(MotionError),
}

/// The entities of one scene, with the half side length of the marker's square.
pub struct Scene {
    pub entities: Vec<Entity>,
    pub half_side: u32,
}

/// What an observation of a player at `player` and a marker at `marker` holds.
pub open spec fn observes(
    o: Observation,
    player: (int, int),
    marker: (int, int),
    half_side: int,
) -> bool {
    &&& o.containment == Containment::Inside <==> within(player, marker, half_side)
    &&& o.containment == Containment::Outside <==> !within(player, marker, half_side)
    &&& o.alignment.dot as int == dot(player, marker)
    &&& o.alignment.norms as int == norms_product(player, marker)
}

/// Evaluates both relations between a player and a marker position.
pub fn observe(player: &Transform2D, marker: &Transform2D, half_side: u32) -> (o: Observation)
    ensures
        observes(o, player.position@, marker.position@, half_side as int),
{
    Observation {
        containment: classify(player.position, marker.position, half_side),
        alignment: facing_alignment(player.position, marker.position),
    }
}

impl Scene {
    /// Every transform of the scene is well formed.
    pub open spec fn wf(self) -> bool {
        forall|i: int|
            0 <= i < self.entities@.len() ==> (#[trigger] self.entities@[i]).transform_spec().wf()
    }

    /// The movable entity stored at `i`.
    pub open spec fn movable_at(self, i: int) -> MovableEntity {
        match self.entities@[i] {
            Entity::Movable(m) => m,
            Entity::Marker(s) => MovableEntity {
                transform: s.transform,
                speed: 0,
                angular_speed: None,
            },
        }
    }

    /// An empty scene.
    pub fn new(half_side: u32) -> (s: Scene)
        ensures
            s.wf(),
            s.entities@.len() == 0,
            s.half_side == half_side,
    {
        Scene { entities: Vec::new(), half_side }
    }

    /// Adds an entity and answers with its index, or hands the scene back
    /// unchanged with `None` when the entity's transform is not well formed.
    pub fn spawn(&mut self, entity: Entity) -> (at: Option<usize>)
        ensures
            old(self).wf() ==> final(self).wf(),
            final(self).half_side == old(self).half_side,
            at.is_some() <==> entity.transform_spec().wf(),
            at.is_some() ==> at.unwrap() == old(self).entities@.len() && final(self).entities@
                == old(self).entities@.push(entity),
            at.is_none() ==> final(self).entities@ == old(self).entities@,
    {
        let t: Transform2D = entity.transform();
        if 0 <= t.rotation && t.rotation < FULL_TURN && t.scale.x >= 0 && t.scale.y >= 0 {
            let at: usize = self.entities.len();
            self.entities.push(entity);
            Some(at)
        } else {
            None
        }
    }

    /// Runs one tick: finds the player and the marker, moves and turns the
    /// player as the keys ask, then evaluates the relations between the
    /// player's new position and the marker.
    ///
    /// A tick that fails changes nothing. It fails when the scene does not
    /// hold exactly one movable entity, or exactly one marker, or when the
    /// player would leave the lattice's range, in that order of precedence.
    pub fn tick(&mut self, moves: MoveKeys, turns: TurnKeys, elapsed: u32) -> (r: Result<
        Observation,
        TickError,
    >)
        ensures
            old(self).wf() ==> final(self).wf(),
            final(self).half_side == old(self).half_side,
            final(self).entities@.len() == old(self).entities@.len(),
            r.is_err() ==> final(self).entities@ == old(self).entities@,
            match r {
                Ok(o) => exists|p: int, m: int|
                    {
                        &&& sole_match(old(self).entities@, Kind::Movable, p)
                        &&& sole_match(old(self).entities@, Kind::Marker, m)
                        &&& final(self).entities@ == old(self).entities@.update(
                            p,
                            Entity::Movable(final(self).movable_at(p)),
                        )
                        &&& final(self).movable_at(p).is_step_of(
                            old(self).movable_at(p),
                            moves,
                            turns,
                            elapsed as int,
                        )
                        &&& observes(
                            o,
                            final(self).movable_at(p).transform.position@,
                            old(self).entities@[m].transform_spec().position@,
                            old(self).half_side as int,
                        )
                    },
                Err(TickError::Player(e)) => lookup_result(
                    old(self).entities@,
                    Kind::Movable,
                    Err(e),
                ),
                Err(TickError::Marker(e)) => {
                    &&& exists|p: int| sole_match(old(self).entities@, Kind::Movable, p)
                    &&& lookup_result(old(self).entities@, Kind::Marker, Err(e))
                },
                Err(TickError::Motion(e)) => exists|p: int, m: int|
                    {
                        &&& sole_match(old(self).entities@, Kind::Movable, p)
                        &&& sole_match(old(self).entities@, Kind::Marker, m)
                        &&& !representable(
                            old(self).movable_at(p).moved_position(moves, elapsed as int),
                        )
                    },
            },
    {
        let p: usize = match find_single(&self.entities, Kind::Movable) {
            Ok(p) => p,
            Err(e) => {
                return Err(TickError::Player(e));
            },
        };
        let m: usize = match find_single(&self.entities, Kind::Marker) {
            Ok(m) => m,
            Err(e) => {
                return Err(TickError::Marker(e));
            },
        };
        let marker: Transform2D = self.entities[m].transform();
        let mut player: MovableEntity = match self.entities[p] {
            Entity::Movable(body) => body,
            Entity::Marker(s) => MovableEntity {
                transform: s.transform,
                speed: 0,
                angular_speed: None,
            },
        };
        assert(player == self.movable_at(p as int));
        assert(self.wf() ==> self.entities@[p as int].transform_spec().wf());
        match player.step(moves, turns, elapsed) {
            Ok(()) => {
                self.entities.set(p, Entity::Movable(player));
                let o: Observation = observe(&player.transform, &marker, self.half_side);
                assert(self.movable_at(p as int) == player);
                Ok(o)
            },
            Err(e) => Err(TickError::Motion(e)),
        }
    }
}

} // verus!
