//! A flat scene of drawable entities and the packed world-space vertex buffer
//! built from it.
//!
//! Coordinates are fixed-point integers: one clip-space unit is
//! `UNITS_PER_CLIP` steps.
use vstd::prelude::*;

verus! {

/// Fixed-point steps in one clip-space unit.
pub const UNITS_PER_CLIP: i32 = 1_000_000;

/// Half a clip-space unit, and its negation.
pub const HALF_UNIT: i32 = 500_000;
pub const NEG_HALF_UNIT: i32 = -500_000;

/// Nanoseconds per fixed-point step of motion: the animated entity moves half a
/// clip-space unit per second.
pub const NANOS_PER_STEP: u64 = 2_000;

/// A 2D position in fixed-point clip-space steps.
#[derive(Clone, Copy, Debug, PartialEq, Eq, Structural)]
pub struct Vertex {
    pub x: i32,
    pub y: i32,
}

/// A world-space vertex: a local vertex translated by its entity's offset.
#[derive(Clone, Copy, Debug, PartialEq, Eq, Structural)]
pub struct WorldVertex {
    pub x: i64,
    pub y: i64,
}

/// A drawable: local vertices and a world-space offset.
pub struct Entity {
    pub vertices: Vec<Vertex>,
    pub position: Vertex,
}

pub open spec fn translate(v: Vertex, offset: Vertex) -> WorldVertex {
    WorldVertex { x: (v.x + offset.x) as i64, y: (v.y + offset.y) as i64 }
}

/// The world-space vertices of one entity, in order.
pub open spec fn entity_world(e: Entity) -> Seq<WorldVertex> {
    e.vertices@.map_values(|v: Vertex| translate(v, e.position))
}

/// The world-space vertices of all entities, entity after entity.
pub open spec fn world_vertices(es: Seq<Entity>) -> Seq<WorldVertex>
    decreases es.len(),
{
    if es.len() == 0 {
        seq![]
    } else {
        world_vertices(es.drop_last()) + entity_world(es.last())
    }
}

/// The number of vertices over all entities.
pub open spec fn vertex_total(es: Seq<Entity>) -> nat
    decreases es.len(),
{
    if es.len() == 0 {
        0
    } else {
        vertex_total(es.drop_last()) + es.last().vertices@.len()
    }
}

/// Moving `x` forward by `steps`, stopping at the largest coordinate.
pub open spec fn advance_coord(x: i32, steps: nat) -> i32 {
    if x + steps > i32::MAX {
        i32::MAX
    } else {
        (x + steps) as i32
    }
}

impl Entity {
    pub fn new(vertices: Vec<Vertex>, position: Vertex) -> (r: Self)
        ensures
            r.vertices@ == vertices@,
            r.position == position,
    {
        Entity { vertices, position }
    }
}

/// The scene: an ordered list of entities and the cached vertex buffer.
pub struct Scene {
    entities: Vec<Entity>,
    vertex_buffer: Option<Vec<WorldVertex>>,
}

impl Scene {
    pub closed spec fn entities(&self) -> Seq<Entity> {
        self.entities@
    }

    /// The cached buffer, absent until the first rebuild.
    pub closed spec fn buffer(&self) -> Option<Seq<WorldVertex>> {
        match self.vertex_buffer {
            Some(b) => Some(b@),
            None => None,
        }
    }

    /// A draw call counts vertices in 32 bits.
    pub open spec fn wf(&self) -> bool {
        vertex_total(self.entities()) <= u32::MAX
    }

    /// The starting scene: one triangle at the origin, with vertices (0, 0.5),
    /// (-0.5, -0.5) and (0.5, -0.5), and no buffer built yet.
    pub open spec fn is_initial(&self) -> bool {
        &&& self.entities().len() == 1
        &&& self.entities()[0].position == (Vertex { x: 0, y: 0 })
        &&& self.entities()[0].vertices@ == seq![
            Vertex { x: 0, y: HALF_UNIT },
            Vertex { x: NEG_HALF_UNIT, y: NEG_HALF_UNIT },
            Vertex { x: HALF_UNIT, y: NEG_HALF_UNIT },
        ]
        &&& self.buffer() is None
    }

    /// The starting scene.
    pub fn new() -> (r: Self)
        ensures
            r.wf(),
            r.is_initial(),
    {
        let triangle = Entity {
            vertices: vec![
                Vertex { x: 0, y: HALF_UNIT },
                Vertex { x: NEG_HALF_UNIT, y: NEG_HALF_UNIT },
                Vertex { x: HALF_UNIT, y: NEG_HALF_UNIT },
            ],
            position: Vertex { x: 0, y: 0 },
        };
        let entities = vec![triangle];
        proof {
            assert(entities@.drop_last() =~= Seq::<Entity>::empty());
            assert(vertex_total(entities@.drop_last()) == 0);
            assert(vertex_total(entities@) == 3);
        }
        Scene { entities, vertex_buffer: None }
    }

    /// A scene of the given entities, with no buffer built yet.
    pub fn with_entities(entities: Vec<Entity>) -> (r: Self)
        requires
            vertex_total(entities@) <= u32::MAX,
        ensures
            r.wf(),
            r.entities() == entities@,
            r.buffer() is None,
    {
        Scene { entities, vertex_buffer: None }
    }

    /// Recomputes the world-space vertex buffer from the current entities,
    /// replacing any previous one.
    pub fn initialize_buffer(&mut self)
        ensures
            final(self).entities() == old(self).entities(),
            final(self).buffer() == Some(world_vertices(old(self).entities())),
    {
        let mut out: Vec<WorldVertex> = Vec::new();
        let mut i: usize = 0;
        while i < self.entities.len()
            invariant
                i <= self.entities@.len(),
                out@ == world_vertices(self.entities@.subrange(0, i as int)),
            decreases self.entities@.len() - i,
        {
            let e = &self.entities[i];
            let mut j: usize = 0;
            while j < e.vertices.len()
                invariant
                    j <= e.vertices@.len(),
                    out@ == world_vertices(self.entities@.subrange(0, i as int)) + entity_world(
                        *e,
                    ).subrange(0, j as int),
                decreases e.vertices@.len() - j,
            {
                let v = e.vertices[j];
                out.push(
                    WorldVertex { x: v.x as i64 + e.position.x as i64, y: v.y as i64 + e.position.y as i64 },
                );
                proof {
                    assert(entity_world(*e).subrange(0, j + 1) =~= entity_world(*e).subrange(0, j as int).push(
                        translate(v, e.position),
                    ));
                }
                j = j + 1;
            }
            proof {
                let pre = self.entities@.subrange(0, i as int + 1);
                assert(pre.drop_last() =~= self.entities@.subrange(0, i as int));
                assert(entity_world(*e).subrange(0, j as int) =~= entity_world(*e));
            }
            i = i + 1;
        }
        proof {
            assert(self.entities@.subrange(0, i as int) =~= self.entities@);
        }
        self.vertex_buffer = Some(out);
    }

    /// The cached buffer, absent before the first rebuild.
    pub fn vertex_buffer(&self) -> (r: Option<&Vec<WorldVertex>>)
        ensures
            match r {
                Some(b) => self.buffer() == Some(b@),
                None => self.buffer() is None,
            },
    {
        match &self.vertex_buffer {
            Some(b) => Some(b),
            None => None,
        }
    }

    /// The number of vertices over all entities.
    pub fn vertex_count(&self) -> (r: u32)
        requires
            self.wf(),
        ensures
            r as nat == vertex_total(self.entities()),
    {
        let mut sum: u32 = 0;
        let mut i: usize = 0;
        while i < self.entities.len()
            invariant
                i <= self.entities@.len(),
                sum as nat == vertex_total(self.entities@.subrange(0, i as int)),
                vertex_total(self.entities@) <= u32::MAX,
            decreases self.entities@.len() - i,
        {
            proof {
                let pre = self.entities@.subrange(0, i as int + 1);
                assert(pre.drop_last() =~= self.entities@.subrange(0, i as int));
                lemma_total_of_prefix(self.entities@, i as int + 1);
            }
            sum = sum + self.entities[i].vertices.len() as u32;
            i = i + 1;
        }
        proof {
            assert(self.entities@.subrange(0, i as int) =~= self.entities@);
        }
        sum
    }

    /// Advances the animation by `delta` nanoseconds: the first entity moves
    /// along the x axis by one step per `NANOS_PER_STEP`, stopping at the largest
    /// coordinate. Nothing else changes.
    pub fn update(&mut self, delta: u64)
        ensures
            final(self).entities().len() == old(self).entities().len(),
            final(self).buffer() == old(self).buffer(),
            old(self).entities().len() == 0 ==> final(self).entities() == old(self).entities(),
            old(self).entities().len() > 0 ==> {
                let before = old(self).entities()[0];
                let after = final(self).entities()[0];
                &&& after.vertices@ == before.vertices@
                &&& after.position.y == before.position.y
                &&& after.position.x == advance_coord(
                    before.position.x,
                    delta as nat / NANOS_PER_STEP as nat,
                )
            },
            forall|k: int|
                1 <= k < old(self).entities().len() ==> final(self).entities()[k] == old(
                    self,
                ).entities()[k],
            vertex_total(final(self).entities()) == vertex_total(old(self).entities()),
    {
        if self.entities.len() > 0 {
            let steps: u64 = delta / NANOS_PER_STEP;
            let x = self.entities[0].position.x;
            let moved: i64 = x as i64 + steps as i64;
            let nx: i32 = if moved > i32::MAX as i64 {
                i32::MAX
            } else {
                moved as i32
            };
            self.entities[0].position.x = nx;
            proof {
                lemma_total_same_lengths(old(self).entities(), self.entities@);
            }
        }
    }
}

/// A prefix holds no more vertices than the whole.
proof fn lemma_total_of_prefix(es: Seq<Entity>, i: int)
    requires
        0 <= i <= es.len(),
    ensures
        vertex_total(es.subrange(0, i)) <= vertex_total(es),
    decreases es.len(),
{
    if i < es.len() {
        lemma_total_of_prefix(es.drop_last(), i);
        assert(es.drop_last().subrange(0, i) =~= es.subrange(0, i));
    } else {
        assert(es.subrange(0, i) =~= es);
    }
}

/// Entity lists whose vertex lists have the same lengths hold the same number
/// of vertices.
proof fn lemma_total_same_lengths(a: Seq<Entity>, b: Seq<Entity>)
    requires
        a.len() == b.len(),
        forall|k: int| 0 <= k < a.len() ==> a[k].vertices@.len() == b[k].vertices@.len(),
    ensures
        vertex_total(a) == vertex_total(b),
    decreases a.len(),
{
    if a.len() > 0 {
        lemma_total_same_lengths(a.drop_last(), b.drop_last());
    }
}

/// The world-space buffer holds one vertex per entity vertex.
pub proof fn lemma_world_len(es: Seq<Entity>)
    ensures
        world_vertices(es).len() == vertex_total(es),
    decreases es.len(),
{
    if es.len() > 0 {
        lemma_world_len(es.drop_last());
    }
}

/// After a rebuild, the buffer holds exactly as many vertices as the entities
/// do, and that is the count a draw call is given.
pub proof fn lemma_rebuild_then_count(s: Scene, rebuilt: Scene, count: u32)
    requires
        s.wf(),
        rebuilt.entities() == s.entities(),
        rebuilt.buffer() == Some(world_vertices(s.entities())),
        count as nat == vertex_total(rebuilt.entities()),
    ensures
        rebuilt.buffer()->Some_0.len() == count as nat,
        count as nat == vertex_total(s.entities()),
{
    lemma_world_len(s.entities());
}

} // verus!
