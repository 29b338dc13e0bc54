//! A doubly connected edge list, built by Euler operators, for meshes of points of type `P`.
use vstd::prelude::*;

verus! {

/// Value of a mesh tag that has not been assigned.
pub const MUID_NULL: usize = usize::MAX;

/// Identifiers that may be unassigned.
pub trait Muid: Sized {
    spec fn spec_is_null(&self) -> bool;

    spec fn spec_null() -> Self;

    fn is_null(&self) -> (r: bool)
        ensures
            r == self.spec_is_null(),
    ;

    fn null() -> (r: Self)
        ensures
            r == Self::spec_null(),
            r.spec_is_null(),
    ;
}

impl Muid for usize {
    open spec fn spec_is_null(&self) -> bool {
        *self == MUID_NULL
    }

    open spec fn spec_null() -> Self {
        MUID_NULL
    }

    fn is_null(&self) -> (r: bool) {
        *self == MUID_NULL
    }

    fn null() -> (r: Self) {
        MUID_NULL
    }
}

/// A mesh entity with a tag in its mesh.
pub trait Mnode {
    spec fn spec_mtag(&self) -> usize;

    fn mtag(&self) -> (r: usize)
        ensures
            r == self.spec_mtag(),
    ;
}

/// Handle of a vertex in a mesh.
#[derive(Clone, Copy, Debug, PartialEq, Eq, Structural)]
pub struct Vertex(pub usize);

/// Handle of a fin (half-edge) in a mesh.
#[derive(Clone, Copy, Debug, PartialEq, Eq, Structural)]
pub struct Fin(pub usize);

/// Handle of a face in a mesh.
#[derive(Clone, Copy, Debug, PartialEq, Eq, Structural)]
pub struct Face(pub usize);

/// A mesh vertex: its position and one fin that leaves it.
pub struct VertexDef<P> {
    pub mtag: usize,
    pub position: P,
    pub out_fin: Option<Fin>,
}

impl<P> VertexDef<P> {
    pub fn new(position: P) -> (r: Self)
        ensures
            r.mtag == MUID_NULL,
            r.position == position,
            r.out_fin is None,
    {
        VertexDef { mtag: MUID_NULL, position, out_fin: None }
    }
}

/// A mesh fin: its twin, the next fin around its face, the vertex it leaves and its face.
pub struct FinDef {
    pub mtag: usize,
    pub twin: Option<Fin>,
    pub next: Option<Fin>,
    pub vertex: Option<Vertex>,
    pub face: Option<Face>,
}

impl FinDef {
    pub fn new() -> (r: Self)
        ensures
            r.mtag == MUID_NULL,
            r.twin is None,
            r.next is None,
            r.vertex is None,
            r.face is None,
    {
        FinDef { mtag: MUID_NULL, twin: None, next: None, vertex: None, face: None }
    }
}

/// A mesh face: a fin of each of its outer and inner boundary loops.
pub struct FaceDef {
    pub mtag: usize,
    pub outer_loops: Vec<Fin>,
    pub inner_loops: Vec<Fin>,
}

impl FaceDef {
    pub fn new() -> (r: Self)
        ensures
            r.mtag == MUID_NULL,
            r.outer_loops@.len() == 0,
            r.inner_loops@.len() == 0,
    {
        FaceDef { mtag: MUID_NULL, outer_loops: Vec::new(), inner_loops: Vec::new() }
    }
}

impl<P> Mnode for VertexDef<P> {
    open spec fn spec_mtag(&self) -> usize {
        self.mtag
    }

    fn mtag(&self) -> (r: usize) {
        self.mtag
    }
}

impl Mnode for FinDef {
    open spec fn spec_mtag(&self) -> usize {
        self.mtag
    }

    fn mtag(&self) -> (r: usize) {
        self.mtag
    }
}

impl Mnode for FaceDef {
    open spec fn spec_mtag(&self) -> usize {
        self.mtag
    }

    fn mtag(&self) -> (r: usize) {
        self.mtag
    }
}

/// A mesh under construction: the arenas of its entities and the counter that tags them.
pub struct DynMesh<P> {
    next_mtag: usize,
    vertices: Vec<VertexDef<P>>,
    fins: Vec<FinDef>,
    faces: Vec<FaceDef>,
}

impl<P> DynMesh<P> {
    pub closed spec fn vertices(&self) -> Seq<VertexDef<P>> {
        self.vertices@
    }

    pub closed spec fn fins(&self) -> Seq<FinDef> {
        self.fins@
    }

    pub closed spec fn faces(&self) -> Seq<FaceDef> {
        self.faces@
    }

    /// The tag that the next entity will get.
    pub closed spec fn spec_next_mtag(&self) -> usize {
        self.next_mtag
    }

    /// Every handle held by a record names an entity of the mesh, and every tag is one that
    /// the counter handed out, in the order of creation.
    pub closed spec fn wf(&self) -> bool {
        &&& forall|i: int| 0 <= i < self.vertices@.len() ==> {
            let d = #[trigger] self.vertices@[i];
            &&& d.mtag < self.next_mtag
            &&& d.out_fin matches Some(f) ==> f.0 < self.fins@.len()
        }
        &&& forall|i: int| 0 <= i < self.fins@.len() ==> {
            let d = #[trigger] self.fins@[i];
            &&& d.mtag < self.next_mtag
            &&& d.twin matches Some(f) ==> f.0 < self.fins@.len()
            &&& d.next matches Some(f) ==> f.0 < self.fins@.len()
            &&& d.vertex matches Some(v) ==> v.0 < self.vertices@.len()
            &&& d.face matches Some(f) ==> f.0 < self.faces@.len()
        }
        &&& forall|i: int| 0 <= i < self.faces@.len() ==> {
            let d = #[trigger] self.faces@[i];
            &&& d.mtag < self.next_mtag
            &&& forall|j: int| 0 <= j < d.outer_loops@.len() ==> #[trigger] d.outer_loops@[j].0 < self.fins@.len()
            &&& forall|j: int| 0 <= j < d.inner_loops@.len() ==> #[trigger] d.inner_loops@[j].0 < self.fins@.len()
        }
    }

    /// An empty mesh.
    pub fn new() -> (r: Self)
        ensures
            r.wf(),
            r.spec_next_mtag() == 0,
            r.vertices().len() == 0,
            r.fins().len() == 0,
            r.faces().len() == 0,
    {
        DynMesh { next_mtag: 0, vertices: Vec::new(), fins: Vec::new(), faces: Vec::new() }
    }

    /// The record of vertex `v`.
    pub fn vertex(&self, v: Vertex) -> (r: &VertexDef<P>)
        requires
            v.0 < self.vertices().len(),
        ensures
            *r == self.vertices()[v.0 as int],
    {
        &self.vertices[v.0]
    }

    /// The record of face `f`.
    pub fn face(&self, f: Face) -> (r: &FaceDef)
        requires
            f.0 < self.faces().len(),
        ensures
            *r == self.faces()[f.0 as int],
    {
        &self.faces[f.0]
    }

    /// The record of fin `f`.
    pub fn fin(&self, f: Fin) -> (r: &FinDef)
        requires
            f.0 < self.fins().len(),
        ensures
            *r == self.fins()[f.0 as int],
    {
        &self.fins[f.0]
    }

    /// Make-vertex-face, the first Euler operator: a vertex at `point` and the unbounded face.
    pub fn make_vert_face(&mut self, point: P) -> (r: (Vertex, Face))
        requires
            old(self).wf(),
            old(self).spec_next_mtag() + 2 <= MUID_NULL,
        ensures
            final(self).wf(),
            r.0.0 == old(self).vertices().len(),
            r.1.0 == old(self).faces().len(),
            final(self).vertices() == old(self).vertices().push(final(self).vertices()[r.0.0 as int]),
            final(self).faces() == old(self).faces().push(final(self).faces()[r.1.0 as int]),
            final(self).fins() == old(self).fins(),
            final(self).vertices()[r.0.0 as int].position == point,
            final(self).vertices()[r.0.0 as int].mtag == old(self).spec_next_mtag(),
            final(self).vertices()[r.0.0 as int].out_fin is None,
            final(self).faces()[r.1.0 as int].mtag == old(self).spec_next_mtag() + 1,
            final(self).faces()[r.1.0 as int].outer_loops@.len() == 0,
            final(self).faces()[r.1.0 as int].inner_loops@.len() == 0,
            final(self).spec_next_mtag() == old(self).spec_next_mtag() + 2,
    {
        let v0 = self.add_vertex(point);
        let f0 = self.add_face();
        (v0, f0)
    }

    /// Adds a vertex at `point` with the next tag.
    pub fn add_vertex(&mut self, point: P) -> (r: Vertex)
        requires
            old(self).wf(),
            old(self).spec_next_mtag() < MUID_NULL,
        ensures
            final(self).wf(),
            r.0 == old(self).vertices().len(),
            final(self).vertices() == old(self).vertices().push(final(self).vertices()[r.0 as int]),
            final(self).vertices()[r.0 as int].position == point,
            final(self).vertices()[r.0 as int].mtag == old(self).spec_next_mtag(),
            final(self).vertices()[r.0 as int].out_fin is None,
            final(self).fins() == old(self).fins(),
            final(self).faces() == old(self).faces(),
            final(self).spec_next_mtag() == old(self).spec_next_mtag() + 1,
    {
        let mut d = VertexDef::new(point);
        d.mtag = self.get_next_mtag();
        let r = Vertex(self.vertices.len());
        self.vertices.push(d);
        proof {
            assert(self.vertices@ =~= old(self).vertices@.push(self.vertices@[r.0 as int]));
        }
        r
    }

    /// Adds an unlinked fin with the next tag.
    pub fn add_fin(&mut self) -> (r: Fin)
        requires
            old(self).wf(),
            old(self).spec_next_mtag() < MUID_NULL,
        ensures
            final(self).wf(),
            r.0 == old(self).fins().len(),
            final(self).fins() == old(self).fins().push(final(self).fins()[r.0 as int]),
            final(self).fins()[r.0 as int] == (FinDef {
                mtag: old(self).spec_next_mtag(),
                twin: None,
                next: None,
                vertex: None,
                face: None,
            }),
            final(self).vertices() == old(self).vertices(),
            final(self).faces() == old(self).faces(),
            final(self).spec_next_mtag() == old(self).spec_next_mtag() + 1,
    {
        let mut d = FinDef::new();
        d.mtag = self.get_next_mtag();
        let r = Fin(self.fins.len());
        self.fins.push(d);
        proof {
            assert(self.fins@ =~= old(self).fins@.push(self.fins@[r.0 as int]));
        }
        r
    }

    /// Adds a face with no loops and the next tag.
    pub fn add_face(&mut self) -> (r: Face)
        requires
            old(self).wf(),
            old(self).spec_next_mtag() < MUID_NULL,
        ensures
            final(self).wf(),
            r.0 == old(self).faces().len(),
            final(self).faces() == old(self).faces().push(final(self).faces()[r.0 as int]),
            final(self).faces()[r.0 as int].mtag == old(self).spec_next_mtag(),
            final(self).faces()[r.0 as int].outer_loops@.len() == 0,
            final(self).faces()[r.0 as int].inner_loops@.len() == 0,
            final(self).vertices() == old(self).vertices(),
            final(self).fins() == old(self).fins(),
            final(self).spec_next_mtag() == old(self).spec_next_mtag() + 1,
    {
        let mut d = FaceDef::new();
        d.mtag = self.get_next_mtag();
        let r = Face(self.faces.len());
        self.faces.push(d);
        proof {
            assert(self.faces@ =~= old(self).faces@.push(self.faces@[r.0 as int]));
        }
        r
    }

    /// Hands out the next tag.
    fn get_next_mtag(&mut self) -> (r: usize)
        requires
            old(self).next_mtag < MUID_NULL,
        ensures
            r == old(self).next_mtag,
            final(self).next_mtag == old(self).next_mtag + 1,
            final(self).vertices@ == old(self).vertices@,
            final(self).fins@ == old(self).fins@,
            final(self).faces@ == old(self).faces@,
    {
        let next_mtag = self.next_mtag;
        self.next_mtag = next_mtag + 1;
        next_mtag
    }
}

} // verus!
