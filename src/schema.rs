//! The data structures that represent the topology of the modeller.
//!
//! Every entity lives in an arena owned by a [`Session`] and is addressed by a small handle, the
//! index of its record in that arena. Structural containment (a body's regions, a region's
//! shells, a shell's faces, a face's loops, an edge's fins) is held as lists of handles in the
//! owning record. Upward and lateral references (fin to edge, fin to vertex, face to shell,
//! shell to region, region to body) are plain handles too; none of them decides lifetime, since
//! the arena owns every record.
use vstd::prelude::*;

verus! {

/// Value of a tag or node id that has not been assigned.
pub const UID_NULL: usize = usize::MAX;

/// Handle of a vertex in a session.
#[derive(Clone, Copy, Debug, PartialEq, Eq, Structural)]
pub struct Vertex(pub usize);

/// Handle of an edge in a session.
#[derive(Clone, Copy, Debug, PartialEq, Eq, Structural)]
pub struct Edge(pub usize);

/// Handle of a fin (half-edge) in a session.
#[derive(Clone, Copy, Debug, PartialEq, Eq, Structural)]
pub struct Fin(pub usize);

/// Handle of a loop in a session.
#[derive(Clone, Copy, Debug, PartialEq, Eq, Structural)]
pub struct Loop(pub usize);

/// Handle of a face in a session.
#[derive(Clone, Copy, Debug, PartialEq, Eq, Structural)]
pub struct Face(pub usize);

/// Handle of a shell in a session.
#[derive(Clone, Copy, Debug, PartialEq, Eq, Structural)]
pub struct Shell(pub usize);

/// Handle of a region in a session.
#[derive(Clone, Copy, Debug, PartialEq, Eq, Structural)]
pub struct Region(pub usize);

/// Handle of a body in a session.
#[derive(Clone, Copy, Debug, PartialEq, Eq, Structural)]
pub struct Body(pub usize);

/// A topological entity with a session tag and a local node number.
pub trait Node {
    /// The tag, as a value.
    spec fn spec_tag(&self) -> usize;

    /// The node id, as a value.
    spec fn spec_node_id(&self) -> usize;

    /// Identifier of the entity in its session.
    fn tag(&self) -> (r: usize)
        ensures
            r == self.spec_tag(),
    ;

    /// Number of the entity in its body; not assigned yet ([`UID_NULL`]).
    fn node_id(&self) -> (r: usize)
        ensures
            r == self.spec_node_id(),
    ;
}

/// The vertex definition.
///
/// A vertex is defined by its position in 3D space and the set of fins that point to it. The
/// vertex is the 0D entity of the schema. There can be two types of vertex:
/// - A normal vertex, which bounds edges.
/// - An acorn vertex, which exists on its own and is bounded by a minimal shell.
pub struct VertexDef<P> {
    pub tag: usize,
    pub node_id: usize,
    /// Point in 3-space of the vertex
    pub point: P,
    /// Set of fins which point to this vertex
    pub fins: Vec<Fin>,
}

impl<P> VertexDef<P> {
    pub fn new(point: P) -> (r: Self)
        ensures
            r.tag == UID_NULL,
            r.node_id == UID_NULL,
            r.point == point,
            r.fins@ == Seq::<Fin>::empty(),
    {
        VertexDef { tag: UID_NULL, node_id: UID_NULL, point, fins: Vec::new() }
    }
}

/// The edge definition: an edge is defined by the set of fins that lie on it.
pub struct EdgeDef {
    pub tag: usize,
    pub node_id: usize,
    /// Set of fins attached to the edge in counter-clockwise order
    pub fins: Vec<Fin>,
}

impl EdgeDef {
    pub fn new() -> (r: Self)
        ensures
            r.tag == UID_NULL,
            r.node_id == UID_NULL,
            r.fins@ == Seq::<Fin>::empty(),
    {
        EdgeDef { tag: UID_NULL, node_id: UID_NULL, fins: Vec::new() }
    }

    /// Adds `fin` after the fins already on the edge.
    pub fn add_fin(&mut self, fin: Fin)
        ensures
            final(self).fins@ == old(self).fins@.push(fin),
            final(self).tag == old(self).tag,
            final(self).node_id == old(self).node_id,
    {
        self.fins.push(fin);
    }
}

/// The fin definition: one use of an edge by a loop, in one direction.
pub struct FinDef {
    /// tag in the session
    pub tag: usize,
    /// node id in the body
    pub node_id: usize,
    /// loop to which the fin belongs
    pub looop: Option<Loop>,
    /// forward vertex of the fin
    pub forward_vertex: Option<Vertex>,
    /// Edge to which fin belongs
    pub edge: Option<Edge>,
    /// next fin in the loop
    pub next_in_loop: Option<Fin>,
    /// next fin on edge looking counter-clockwise down edge
    pub next_around_edge: Option<Fin>,
    /// next fin referencing the vertex of this fin
    pub next_at_vertex: Option<Fin>,
    /// same direction as edge (true), opposite direction to edge (false)
    pub sense: bool,
}

impl FinDef {
    pub fn new() -> (r: Self)
        ensures
            r.tag == UID_NULL,
            r.node_id == UID_NULL,
            r.looop is None,
            r.forward_vertex is None,
            r.edge is None,
            r.next_in_loop is None,
            r.next_around_edge is None,
            r.next_at_vertex is None,
            r.sense,
    {
        FinDef {
            tag: UID_NULL,
            node_id: UID_NULL,
            looop: None,
            forward_vertex: None,
            edge: None,
            next_in_loop: None,
            next_around_edge: None,
            next_at_vertex: None,
            sense: true,
        }
    }
}

/// The loop definition: a closed chain of fins bounding a face.
pub struct LoopDef {
    pub tag: usize,
    pub node_id: usize,
    /// first fin in loop
    pub fin: Option<Fin>,
    /// Face to which loop belongs
    pub face: Option<Face>,
}

impl LoopDef {
    pub fn new() -> (r: Self)
        ensures
            r.tag == UID_NULL,
            r.node_id == UID_NULL,
            r.fin is None,
            r.face is None,
    {
        LoopDef { tag: UID_NULL, node_id: UID_NULL, fin: None, face: None }
    }
}

/// The face definition: an outer loop followed by the loops of its holes.
pub struct FaceDef {
    pub tag: usize,
    pub node_id: usize,
    /// First loop outer loop, other loops are holes
    pub loops: Vec<Loop>,
    /// shell of which this is a front face
    pub front_shell: Option<Shell>,
    /// shell of which this is a back face
    pub back_shell: Option<Shell>,
}

impl FaceDef {
    pub fn new() -> (r: Self)
        ensures
            r.tag == UID_NULL,
            r.node_id == UID_NULL,
            r.loops@ == Seq::<Loop>::empty(),
            r.front_shell is None,
            r.back_shell is None,
    {
        FaceDef { tag: UID_NULL, node_id: UID_NULL, loops: Vec::new(), front_shell: None, back_shell: None }
    }

    /// Makes `looop` the outer loop; the loops already there follow it.
    pub fn set_outer_loop(&mut self, looop: Loop)
        ensures
            final(self).loops@ == seq![looop] + old(self).loops@,
            final(self).tag == old(self).tag,
            final(self).node_id == old(self).node_id,
            final(self).front_shell == old(self).front_shell,
            final(self).back_shell == old(self).back_shell,
    {
        self.loops.insert(0, looop);
        proof {
            assert(self.loops@ =~= seq![looop] + old(self).loops@);
        }
    }

    /// Adds `looop` as the loop of a hole, after the loops already there.
    pub fn add_inner_loop(&mut self, looop: Loop)
        ensures
            final(self).loops@ == old(self).loops@.push(looop),
            final(self).tag == old(self).tag,
            final(self).node_id == old(self).node_id,
            final(self).front_shell == old(self).front_shell,
            final(self).back_shell == old(self).back_shell,
    {
        self.loops.push(looop);
    }

    pub fn set_front_shell(&mut self, shell: Shell)
        ensures
            final(self).front_shell == Some(shell),
            final(self).loops@ == old(self).loops@,
            final(self).back_shell == old(self).back_shell,
            final(self).tag == old(self).tag,
            final(self).node_id == old(self).node_id,
    {
        self.front_shell = Some(shell);
    }

    pub fn set_back_shell(&mut self, shell: Shell)
        ensures
            final(self).back_shell == Some(shell),
            final(self).loops@ == old(self).loops@,
            final(self).front_shell == old(self).front_shell,
            final(self).tag == old(self).tag,
            final(self).node_id == old(self).node_id,
    {
        self.back_shell = Some(shell);
    }
}

/// The shell definition: a connected boundary of a region.
pub struct ShellDef {
    pub tag: usize,
    pub node_id: usize,
    /// Acorn vertices
    pub ac_vertices: Vec<Vertex>,
    /// Wireframe edges
    pub wf_edges: Vec<Edge>,
    /// Front faces, whose normal points into the shell's region; the shell owns them
    pub front_faces: Vec<Face>,
    /// Back faces, whose normal points out of the shell's region; the shell does not own them
    pub back_faces: Vec<Face>,
    /// Region which this shell bounds
    pub region: Option<Region>,
}

impl ShellDef {
    pub fn new() -> (r: ShellDef)
        ensures
            r.tag == UID_NULL,
            r.node_id == UID_NULL,
            r.ac_vertices@ == Seq::<Vertex>::empty(),
            r.wf_edges@ == Seq::<Edge>::empty(),
            r.front_faces@ == Seq::<Face>::empty(),
            r.back_faces@ == Seq::<Face>::empty(),
            r.region is None,
    {
        ShellDef {
            tag: UID_NULL,
            node_id: UID_NULL,
            ac_vertices: Vec::new(),
            wf_edges: Vec::new(),
            front_faces: Vec::new(),
            back_faces: Vec::new(),
            region: None,
        }
    }
}

/// What fills a region.
#[derive(Clone, Copy, Debug, PartialEq, Eq, Structural)]
pub enum RegionMaterial {
    Void,
    Solid,
}

/// The region definition: a volume of space bounded by shells.
pub struct RegionDef {
    pub tag: usize,
    pub node_id: usize,
    pub material: RegionMaterial,
    pub shells: Vec<Shell>,
    pub body: Option<Body>,
}

impl RegionDef {
    pub fn new() -> (r: Self)
        ensures
            r.tag == UID_NULL,
            r.node_id == UID_NULL,
            r.material == RegionMaterial::Void,
            r.shells@ == Seq::<Shell>::empty(),
            r.body is None,
    {
        RegionDef {
            tag: UID_NULL,
            node_id: UID_NULL,
            material: RegionMaterial::Void,
            shells: Vec::new(),
            body: None,
        }
    }

    pub fn append_shell(&mut self, shell: Shell)
        ensures
            final(self).shells@ == old(self).shells@.push(shell),
            final(self).material == old(self).material,
            final(self).body == old(self).body,
            final(self).tag == old(self).tag,
            final(self).node_id == old(self).node_id,
    {
        self.shells.push(shell);
    }
}

/// The body definition: the regions that make up a solid, sheet or wire model.
pub struct BodyDef {
    pub tag: usize,
    pub node_id: usize,
    /// Set of regions which constitute the body
    pub regions: Vec<Region>,
    /// Set of non-wireframe edges in body
    pub edges: Vec<Edge>,
    /// Set of non-acorn vertices
    pub vertices: Vec<Vertex>,
}

impl BodyDef {
    pub fn new() -> (r: Self)
        ensures
            r.tag == UID_NULL,
            r.node_id == UID_NULL,
            r.regions@ == Seq::<Region>::empty(),
            r.edges@ == Seq::<Edge>::empty(),
            r.vertices@ == Seq::<Vertex>::empty(),
    {
        BodyDef {
            tag: UID_NULL,
            node_id: UID_NULL,
            regions: Vec::new(),
            edges: Vec::new(),
            vertices: Vec::new(),
        }
    }

    pub fn num_regions(&self) -> (r: usize)
        ensures
            r == self.regions@.len(),
    {
        self.regions.len()
    }

    /// The first region of the body.
    pub fn outer_region(&self) -> (r: Region)
        requires
            self.regions@.len() > 0,
        ensures
            r == self.regions@[0],
    {
        self.regions[0]
    }

    pub fn append_region(&mut self, region: Region)
        ensures
            final(self).regions@ == old(self).regions@.push(region),
            final(self).edges@ == old(self).edges@,
            final(self).vertices@ == old(self).vertices@,
            final(self).tag == old(self).tag,
            final(self).node_id == old(self).node_id,
    {
        self.regions.push(region);
    }
}

impl<P> Node for VertexDef<P> {
    open spec fn spec_tag(&self) -> usize {
        self.tag
    }

    open spec fn spec_node_id(&self) -> usize {
        self.node_id
    }

    fn tag(&self) -> (r: usize) {
        self.tag
    }

    fn node_id(&self) -> (r: usize) {
        self.node_id
    }
}

impl Node for EdgeDef {
    open spec fn spec_tag(&self) -> usize {
        self.tag
    }

    open spec fn spec_node_id(&self) -> usize {
        self.node_id
    }

    fn tag(&self) -> (r: usize) {
        self.tag
    }

    fn node_id(&self) -> (r: usize) {
        self.node_id
    }
}

impl Node for FinDef {
    open spec fn spec_tag(&self) -> usize {
        self.tag
    }

    open spec fn spec_node_id(&self) -> usize {
        self.node_id
    }

    fn tag(&self) -> (r: usize) {
        self.tag
    }

    fn node_id(&self) -> (r: usize) {
        self.node_id
    }
}

impl Node for LoopDef {
    open spec fn spec_tag(&self) -> usize {
        self.tag
    }

    open spec fn spec_node_id(&self) -> usize {
        self.node_id
    }

    fn tag(&self) -> (r: usize) {
        self.tag
    }

    fn node_id(&self) -> (r: usize) {
        self.node_id
    }
}

impl Node for FaceDef {
    open spec fn spec_tag(&self) -> usize {
        self.tag
    }

    open spec fn spec_node_id(&self) -> usize {
        self.node_id
    }

    fn tag(&self) -> (r: usize) {
        self.tag
    }

    fn node_id(&self) -> (r: usize) {
        self.node_id
    }
}

impl Node for ShellDef {
    open spec fn spec_tag(&self) -> usize {
        self.tag
    }

    open spec fn spec_node_id(&self) -> usize {
        self.node_id
    }

    fn tag(&self) -> (r: usize) {
        self.tag
    }

    fn node_id(&self) -> (r: usize) {
        self.node_id
    }
}

impl Node for RegionDef {
    open spec fn spec_tag(&self) -> usize {
        self.tag
    }

    open spec fn spec_node_id(&self) -> usize {
        self.node_id
    }

    fn tag(&self) -> (r: usize) {
        self.tag
    }

    fn node_id(&self) -> (r: usize) {
        self.node_id
    }
}

impl Node for BodyDef {
    open spec fn spec_tag(&self) -> usize {
        self.tag
    }

    open spec fn spec_node_id(&self) -> usize {
        self.node_id
    }

    fn tag(&self) -> (r: usize) {
        self.tag
    }

    fn node_id(&self) -> (r: usize) {
        self.node_id
    }
}

/// `d` holds no links and no node id, as a record has when it is created.
pub open spec fn vertex_is_new<P>(d: VertexDef<P>) -> bool {
    &&& d.node_id == UID_NULL
    &&& d.fins@.len() == 0
}

/// `d` holds no links and no node id, as a record has when it is created.
pub open spec fn edge_is_new(d: EdgeDef) -> bool {
    &&& d.node_id == UID_NULL
    &&& d.fins@.len() == 0
}

/// `d` holds no links and no node id, as a record has when it is created.
pub open spec fn fin_is_new(d: FinDef) -> bool {
    &&& d.node_id == UID_NULL
    &&& d.looop is None
    &&& d.forward_vertex is None
    &&& d.edge is None
    &&& d.next_in_loop is None
    &&& d.next_around_edge is None
    &&& d.next_at_vertex is None
    &&& d.sense
}

/// `d` holds no links and no node id, as a record has when it is created.
pub open spec fn loop_def_is_new(d: LoopDef) -> bool {
    &&& d.node_id == UID_NULL
    &&& d.fin is None
    &&& d.face is None
}

/// `d` holds no links and no node id, as a record has when it is created.
pub open spec fn face_is_new(d: FaceDef) -> bool {
    &&& d.node_id == UID_NULL
    &&& d.loops@.len() == 0
    &&& d.front_shell is None
    &&& d.back_shell is None
}

/// `d` holds no links and no node id, as a record has when it is created.
pub open spec fn shell_is_new(d: ShellDef) -> bool {
    &&& d.node_id == UID_NULL
    &&& d.ac_vertices@.len() == 0
    &&& d.wf_edges@.len() == 0
    &&& d.front_faces@.len() == 0
    &&& d.back_faces@.len() == 0
    &&& d.region is None
}

/// `d` holds no links and no node id, as a record has when it is created.
pub open spec fn region_is_new(d: RegionDef) -> bool {
    &&& d.node_id == UID_NULL
    &&& d.material == RegionMaterial::Void
    &&& d.shells@.len() == 0
    &&& d.body is None
}

/// `d` holds no links and no node id, as a record has when it is created.
pub open spec fn body_is_new(d: BodyDef) -> bool {
    &&& d.node_id == UID_NULL
    &&& d.regions@.len() == 0
    &&& d.edges@.len() == 0
    &&& d.vertices@.len() == 0
}

/// The arenas of every topological entity, and the counter that tags new entities.
pub struct Session<P> {
    next_tag: usize,
    vertices: Vec<VertexDef<P>>,
    edges: Vec<EdgeDef>,
    fins: Vec<FinDef>,
    loops: Vec<LoopDef>,
    faces: Vec<FaceDef>,
    shells: Vec<ShellDef>,
    regions: Vec<RegionDef>,
    bodies: Vec<BodyDef>,
}

/// `s` and `o` agree everywhere except possibly at index `i`, and have the same length.
pub open spec fn same_except<T>(s: Seq<T>, o: Seq<T>, i: int) -> bool {
    &&& s.len() == o.len()
    &&& forall|j: int| 0 <= j < s.len() && j != i ==> #[trigger] s[j] == o[j]
}


impl<P> Session<P> {
    /// The vertices of the session, indexed by their handles.
    pub closed spec fn vertices(&self) -> Seq<VertexDef<P>> {
        self.vertices@
    }

    pub open spec fn has_vertex(&self, h: Vertex) -> bool {
        h.0 < self.vertices().len()
    }

    /// The edges of the session, indexed by their handles.
    pub closed spec fn edges(&self) -> Seq<EdgeDef> {
        self.edges@
    }

    pub open spec fn has_edge(&self, h: Edge) -> bool {
        h.0 < self.edges().len()
    }

    /// The fins of the session, indexed by their handles.
    pub closed spec fn fins(&self) -> Seq<FinDef> {
        self.fins@
    }

    pub open spec fn has_fin(&self, h: Fin) -> bool {
        h.0 < self.fins().len()
    }

    /// The loops of the session, indexed by their handles.
    pub closed spec fn loops(&self) -> Seq<LoopDef> {
        self.loops@
    }

    pub open spec fn has_loop_def(&self, h: Loop) -> bool {
        h.0 < self.loops().len()
    }

    /// The faces of the session, indexed by their handles.
    pub closed spec fn faces(&self) -> Seq<FaceDef> {
        self.faces@
    }

    pub open spec fn has_face(&self, h: Face) -> bool {
        h.0 < self.faces().len()
    }

    /// The shells of the session, indexed by their handles.
    pub closed spec fn shells(&self) -> Seq<ShellDef> {
        self.shells@
    }

    pub open spec fn has_shell(&self, h: Shell) -> bool {
        h.0 < self.shells().len()
    }

    /// The regions of the session, indexed by their handles.
    pub closed spec fn regions(&self) -> Seq<RegionDef> {
        self.regions@
    }

    pub open spec fn has_region(&self, h: Region) -> bool {
        h.0 < self.regions().len()
    }

    /// The bodies of the session, indexed by their handles.
    pub closed spec fn bodies(&self) -> Seq<BodyDef> {
        self.bodies@
    }

    pub open spec fn has_body(&self, h: Body) -> bool {
        h.0 < self.bodies().len()
    }

    /// The tag that the next entity will get.
    pub closed spec fn spec_next_tag(&self) -> usize {
        self.next_tag
    }

    /// Number of tags handed out so far.
    pub fn tags_used(&self) -> (r: usize)
        ensures
            r == self.spec_next_tag(),
    {
        self.next_tag
    }

    pub open spec fn opt_vertex_ok(&self, h: Option<Vertex>) -> bool {
        h matches Some(v) ==> self.has_vertex(v)
    }

    pub open spec fn opt_fin_ok(&self, h: Option<Fin>) -> bool {
        h matches Some(v) ==> self.has_fin(v)
    }

    pub open spec fn opt_edge_ok(&self, h: Option<Edge>) -> bool {
        h matches Some(v) ==> self.has_edge(v)
    }

    pub open spec fn opt_loop_ok(&self, h: Option<Loop>) -> bool {
        h matches Some(v) ==> self.has_loop_def(v)
    }

    pub open spec fn opt_face_ok(&self, h: Option<Face>) -> bool {
        h matches Some(v) ==> self.has_face(v)
    }

    pub open spec fn opt_shell_ok(&self, h: Option<Shell>) -> bool {
        h matches Some(v) ==> self.has_shell(v)
    }

    pub open spec fn opt_region_ok(&self, h: Option<Region>) -> bool {
        h matches Some(v) ==> self.has_region(v)
    }

    pub open spec fn opt_body_ok(&self, h: Option<Body>) -> bool {
        h matches Some(v) ==> self.has_body(v)
    }

    /// Every handle held by any record names an entity of the session, and every tag was
    /// handed out by the session's counter.
    pub closed spec fn wf(&self) -> bool {
        &&& forall|i: int| 0 <= i < self.vertices@.len() ==> {
            let d = #[trigger] self.vertices@[i];
            &&& d.tag < self.next_tag
            &&& forall|j: int| 0 <= j < d.fins@.len() ==> #[trigger] d.fins@[j].0 < self.fins@.len()
        }
        &&& forall|i: int| 0 <= i < self.edges@.len() ==> {
            let d = #[trigger] self.edges@[i];
            &&& d.tag < self.next_tag
            &&& forall|j: int| 0 <= j < d.fins@.len() ==> #[trigger] d.fins@[j].0 < self.fins@.len()
        }
        &&& forall|i: int| 0 <= i < self.fins@.len() ==> {
            let d = #[trigger] self.fins@[i];
            &&& d.tag < self.next_tag
            &&& self.opt_loop_ok(d.looop)
            &&& self.opt_vertex_ok(d.forward_vertex)
            &&& self.opt_edge_ok(d.edge)
            &&& self.opt_fin_ok(d.next_in_loop)
            &&& self.opt_fin_ok(d.next_around_edge)
            &&& self.opt_fin_ok(d.next_at_vertex)
        }
        &&& forall|i: int| 0 <= i < self.loops@.len() ==> {
            let d = #[trigger] self.loops@[i];
            &&& d.tag < self.next_tag
            &&& self.opt_fin_ok(d.fin)
            &&& self.opt_face_ok(d.face)
        }
        &&& forall|i: int| 0 <= i < self.faces@.len() ==> {
            let d = #[trigger] self.faces@[i];
            &&& d.tag < self.next_tag
            &&& forall|j: int| 0 <= j < d.loops@.len() ==> #[trigger] d.loops@[j].0 < self.loops@.len()
            &&& self.opt_shell_ok(d.front_shell)
            &&& self.opt_shell_ok(d.back_shell)
        }
        &&& forall|i: int| 0 <= i < self.shells@.len() ==> {
            let d = #[trigger] self.shells@[i];
            &&& d.tag < self.next_tag
            &&& forall|j: int| 0 <= j < d.ac_vertices@.len() ==> #[trigger] d.ac_vertices@[j].0 < self.vertices@.len()
            &&& forall|j: int| 0 <= j < d.wf_edges@.len() ==> #[trigger] d.wf_edges@[j].0 < self.edges@.len()
            &&& forall|j: int| 0 <= j < d.front_faces@.len() ==> #[trigger] d.front_faces@[j].0 < self.faces@.len()
            &&& forall|j: int| 0 <= j < d.back_faces@.len() ==> #[trigger] d.back_faces@[j].0 < self.faces@.len()
            &&& self.opt_region_ok(d.region)
        }
        &&& forall|i: int| 0 <= i < self.regions@.len() ==> {
            let d = #[trigger] self.regions@[i];
            &&& d.tag < self.next_tag
            &&& forall|j: int| 0 <= j < d.shells@.len() ==> #[trigger] d.shells@[j].0 < self.shells@.len()
            &&& self.opt_body_ok(d.body)
        }
        &&& forall|i: int| 0 <= i < self.bodies@.len() ==> {
            let d = #[trigger] self.bodies@[i];
            &&& d.tag < self.next_tag
            &&& forall|j: int| 0 <= j < d.regions@.len() ==> #[trigger] d.regions@[j].0 < self.regions@.len()
            &&& forall|j: int| 0 <= j < d.edges@.len() ==> #[trigger] d.edges@[j].0 < self.edges@.len()
            &&& forall|j: int| 0 <= j < d.vertices@.len() ==> #[trigger] d.vertices@[j].0 < self.vertices@.len()
        }
    }

    /// `self` is `o` with at most the record at the given index of each arena changed (an index
    /// of -1 leaves that arena as it was), and the same tag counter.
    pub open spec fn frame(
        &self,
        o: &Self,
        vi: int,
        ei: int,
        fi: int,
        li: int,
        fai: int,
        si: int,
        ri: int,
        bi: int,
    ) -> bool {
        &&& same_except(self.vertices(), o.vertices(), vi)
        &&& same_except(self.edges(), o.edges(), ei)
        &&& same_except(self.fins(), o.fins(), fi)
        &&& same_except(self.loops(), o.loops(), li)
        &&& same_except(self.faces(), o.faces(), fai)
        &&& same_except(self.shells(), o.shells(), si)
        &&& same_except(self.regions(), o.regions(), ri)
        &&& same_except(self.bodies(), o.bodies(), bi)
        &&& self.spec_next_tag() == o.spec_next_tag()
    }

    /// An empty session.
    pub fn new() -> (r: Self)
        ensures
            r.wf(),
            r.spec_next_tag() == 0,
            r.vertices().len() == 0,
            r.edges().len() == 0,
            r.fins().len() == 0,
            r.loops().len() == 0,
            r.faces().len() == 0,
            r.shells().len() == 0,
            r.regions().len() == 0,
            r.bodies().len() == 0,
    {
        Session {
            next_tag: 0,
            vertices: Vec::new(),
            edges: Vec::new(),
            fins: Vec::new(),
            loops: Vec::new(),
            faces: Vec::new(),
            shells: Vec::new(),
            regions: Vec::new(),
            bodies: Vec::new(),
        }
    }

    /// Hands out the next tag.
    fn take_tag(&mut self) -> (r: usize)
        requires
            old(self).next_tag < UID_NULL,
        ensures
            r == old(self).next_tag,
            final(self).next_tag == old(self).next_tag + 1,
            final(self).vertices@ == old(self).vertices@,
            final(self).edges@ == old(self).edges@,
            final(self).fins@ == old(self).fins@,
            final(self).loops@ == old(self).loops@,
            final(self).faces@ == old(self).faces@,
            final(self).shells@ == old(self).shells@,
            final(self).regions@ == old(self).regions@,
            final(self).bodies@ == old(self).bodies@,
    {
        let t = self.next_tag;
        self.next_tag = t + 1;
        t
    }

    /// Adds a new vertex with the next tag.
    pub fn create_vertex(&mut self, point: P) -> (h: Vertex)
        requires
            old(self).wf(),
            old(self).spec_next_tag() < UID_NULL,
        ensures
            final(self).wf(),
            h.0 == old(self).vertices().len(),
            final(self).vertices() == old(self).vertices().push(final(self).vertices()[h.0 as int]),
            final(self).vertices()[h.0 as int].tag == old(self).spec_next_tag(),
            vertex_is_new(final(self).vertices()[h.0 as int]),
            final(self).vertices()[h.0 as int].point == point,
            final(self).edges() == old(self).edges(),
            final(self).fins() == old(self).fins(),
            final(self).loops() == old(self).loops(),
            final(self).faces() == old(self).faces(),
            final(self).shells() == old(self).shells(),
            final(self).regions() == old(self).regions(),
            final(self).bodies() == old(self).bodies(),
            final(self).spec_next_tag() == old(self).spec_next_tag() + 1,
    {
        let tag = self.take_tag();
        let mut d = VertexDef::new(point);
        d.tag = tag;
        let h = Vertex(self.vertices.len());
        self.vertices.push(d);
        proof {
            assert(self.vertices@ =~= old(self).vertices@.push(self.vertices@[h.0 as int]));
        }
        h
    }

    /// Adds a new edge with the next tag.
    pub fn create_edge(&mut self) -> (h: Edge)
        requires
            old(self).wf(),
            old(self).spec_next_tag() < UID_NULL,
        ensures
            final(self).wf(),
            h.0 == old(self).edges().len(),
            final(self).edges() == old(self).edges().push(final(self).edges()[h.0 as int]),
            final(self).edges()[h.0 as int].tag == old(self).spec_next_tag(),
            edge_is_new(final(self).edges()[h.0 as int]),
            final(self).vertices() == old(self).vertices(),
            final(self).fins() == old(self).fins(),
            final(self).loops() == old(self).loops(),
            final(self).faces() == old(self).faces(),
            final(self).shells() == old(self).shells(),
            final(self).regions() == old(self).regions(),
            final(self).bodies() == old(self).bodies(),
            final(self).spec_next_tag() == old(self).spec_next_tag() + 1,
    {
        let tag = self.take_tag();
        let mut d = EdgeDef::new();
        d.tag = tag;
        let h = Edge(self.edges.len());
        self.edges.push(d);
        proof {
            assert(self.edges@ =~= old(self).edges@.push(self.edges@[h.0 as int]));
        }
        h
    }

    /// Adds a new fin with the next tag.
    pub fn create_fin(&mut self) -> (h: Fin)
        requires
            old(self).wf(),
            old(self).spec_next_tag() < UID_NULL,
        ensures
            final(self).wf(),
            h.0 == old(self).fins().len(),
            final(self).fins() == old(self).fins().push(final(self).fins()[h.0 as int]),
            final(self).fins()[h.0 as int].tag == old(self).spec_next_tag(),
            fin_is_new(final(self).fins()[h.0 as int]),
            final(self).vertices() == old(self).vertices(),
            final(self).edges() == old(self).edges(),
            final(self).loops() == old(self).loops(),
            final(self).faces() == old(self).faces(),
            final(self).shells() == old(self).shells(),
            final(self).regions() == old(self).regions(),
            final(self).bodies() == old(self).bodies(),
            final(self).spec_next_tag() == old(self).spec_next_tag() + 1,
    {
        let tag = self.take_tag();
        let mut d = FinDef::new();
        d.tag = tag;
        let h = Fin(self.fins.len());
        self.fins.push(d);
        proof {
            assert(self.fins@ =~= old(self).fins@.push(self.fins@[h.0 as int]));
        }
        h
    }

    /// Adds a new loop with the next tag.
    pub fn create_loop(&mut self) -> (h: Loop)
        requires
            old(self).wf(),
            old(self).spec_next_tag() < UID_NULL,
        ensures
            final(self).wf(),
            h.0 == old(self).loops().len(),
            final(self).loops() == old(self).loops().push(final(self).loops()[h.0 as int]),
            final(self).loops()[h.0 as int].tag == old(self).spec_next_tag(),
            loop_def_is_new(final(self).loops()[h.0 as int]),
            final(self).vertices() == old(self).vertices(),
            final(self).edges() == old(self).edges(),
            final(self).fins() == old(self).fins(),
            final(self).faces() == old(self).faces(),
            final(self).shells() == old(self).shells(),
            final(self).regions() == old(self).regions(),
            final(self).bodies() == old(self).bodies(),
            final(self).spec_next_tag() == old(self).spec_next_tag() + 1,
    {
        let tag = self.take_tag();
        let mut d = LoopDef::new();
        d.tag = tag;
        let h = Loop(self.loops.len());
        self.loops.push(d);
        proof {
            assert(self.loops@ =~= old(self).loops@.push(self.loops@[h.0 as int]));
        }
        h
    }

    /// Adds a new face with the next tag.
    pub fn create_face(&mut self) -> (h: Face)
        requires
            old(self).wf(),
            old(self).spec_next_tag() < UID_NULL,
        ensures
            final(self).wf(),
            h.0 == old(self).faces().len(),
            final(self).faces() == old(self).faces().push(final(self).faces()[h.0 as int]),
            final(self).faces()[h.0 as int].tag == old(self).spec_next_tag(),
            face_is_new(final(self).faces()[h.0 as int]),
            final(self).vertices() == old(self).vertices(),
            final(self).edges() == old(self).edges(),
            final(self).fins() == old(self).fins(),
            final(self).loops() == old(self).loops(),
            final(self).shells() == old(self).shells(),
            final(self).regions() == old(self).regions(),
            final(self).bodies() == old(self).bodies(),
            final(self).spec_next_tag() == old(self).spec_next_tag() + 1,
    {
        let tag = self.take_tag();
        let mut d = FaceDef::new();
        d.tag = tag;
        let h = Face(self.faces.len());
        self.faces.push(d);
        proof {
            assert(self.faces@ =~= old(self).faces@.push(self.faces@[h.0 as int]));
        }
        h
    }

    /// Adds a new shell with the next tag.
    pub fn create_shell(&mut self) -> (h: Shell)
        requires
            old(self).wf(),
            old(self).spec_next_tag() < UID_NULL,
        ensures
            final(self).wf(),
            h.0 == old(self).shells().len(),
            final(self).shells() == old(self).shells().push(final(self).shells()[h.0 as int]),
            final(self).shells()[h.0 as int].tag == old(self).spec_next_tag(),
            shell_is_new(final(self).shells()[h.0 as int]),
            final(self).vertices() == old(self).vertices(),
            final(self).edges() == old(self).edges(),
            final(self).fins() == old(self).fins(),
            final(self).loops() == old(self).loops(),
            final(self).faces() == old(self).faces(),
            final(self).regions() == old(self).regions(),
            final(self).bodies() == old(self).bodies(),
            final(self).spec_next_tag() == old(self).spec_next_tag() + 1,
    {
        let tag = self.take_tag();
        let mut d = ShellDef::new();
        d.tag = tag;
        let h = Shell(self.shells.len());
        self.shells.push(d);
        proof {
            assert(self.shells@ =~= old(self).shells@.push(self.shells@[h.0 as int]));
        }
        h
    }

    /// Adds a new region with the next tag.
    pub fn create_region(&mut self) -> (h: Region)
        requires
            old(self).wf(),
            old(self).spec_next_tag() < UID_NULL,
        ensures
            final(self).wf(),
            h.0 == old(self).regions().len(),
            final(self).regions() == old(self).regions().push(final(self).regions()[h.0 as int]),
            final(self).regions()[h.0 as int].tag == old(self).spec_next_tag(),
            region_is_new(final(self).regions()[h.0 as int]),
            final(self).vertices() == old(self).vertices(),
            final(self).edges() == old(self).edges(),
            final(self).fins() == old(self).fins(),
            final(self).loops() == old(self).loops(),
            final(self).faces() == old(self).faces(),
            final(self).shells() == old(self).shells(),
            final(self).bodies() == old(self).bodies(),
            final(self).spec_next_tag() == old(self).spec_next_tag() + 1,
    {
        let tag = self.take_tag();
        let mut d = RegionDef::new();
        d.tag = tag;
        let h = Region(self.regions.len());
        self.regions.push(d);
        proof {
            assert(self.regions@ =~= old(self).regions@.push(self.regions@[h.0 as int]));
        }
        h
    }

    /// Adds a new body with the next tag.
    pub fn create_body(&mut self) -> (h: Body)
        requires
            old(self).wf(),
            old(self).spec_next_tag() < UID_NULL,
        ensures
            final(self).wf(),
            h.0 == old(self).bodies().len(),
            final(self).bodies() == old(self).bodies().push(final(self).bodies()[h.0 as int]),
            final(self).bodies()[h.0 as int].tag == old(self).spec_next_tag(),
            body_is_new(final(self).bodies()[h.0 as int]),
            final(self).vertices() == old(self).vertices(),
            final(self).edges() == old(self).edges(),
            final(self).fins() == old(self).fins(),
            final(self).loops() == old(self).loops(),
            final(self).faces() == old(self).faces(),
            final(self).shells() == old(self).shells(),
            final(self).regions() == old(self).regions(),
            final(self).spec_next_tag() == old(self).spec_next_tag() + 1,
    {
        let tag = self.take_tag();
        let mut d = BodyDef::new();
        d.tag = tag;
        let h = Body(self.bodies.len());
        self.bodies.push(d);
        proof {
            assert(self.bodies@ =~= old(self).bodies@.push(self.bodies@[h.0 as int]));
        }
        h
    }

    /// Adds `r` to the regions of `b`, and makes `b` the body of `r`.
    pub fn link_region(&mut self, b: Body, r: Region)
        requires
            old(self).wf(),
            old(self).has_body(b),
            old(self).has_region(r),
        ensures
            final(self).wf(),
            final(self).frame(old(self), -1, -1, -1, -1, -1, -1, r.0 as int, b.0 as int),
            final(self).bodies()[b.0 as int].regions@ == old(self).bodies()[b.0 as int].regions@.push(r),
            final(self).bodies()[b.0 as int].edges@ == old(self).bodies()[b.0 as int].edges@,
            final(self).bodies()[b.0 as int].vertices@ == old(self).bodies()[b.0 as int].vertices@,
            final(self).bodies()[b.0 as int].tag == old(self).bodies()[b.0 as int].tag,
            final(self).bodies()[b.0 as int].node_id == old(self).bodies()[b.0 as int].node_id,
            final(self).regions()[r.0 as int].body == Some(b),
            final(self).regions()[r.0 as int].shells@ == old(self).regions()[r.0 as int].shells@,
            final(self).regions()[r.0 as int].material == old(self).regions()[r.0 as int].material,
            final(self).regions()[r.0 as int].tag == old(self).regions()[r.0 as int].tag,
            final(self).regions()[r.0 as int].node_id == old(self).regions()[r.0 as int].node_id,
    {
        self.bodies[b.0].append_region(r);
        self.regions[r.0].body = Some(b);
    }

    /// Adds `sh` to the shells of `r`, and makes `r` the region of `sh`.
    pub fn link_shell(&mut self, r: Region, sh: Shell)
        requires
            old(self).wf(),
            old(self).has_region(r),
            old(self).has_shell(sh),
        ensures
            final(self).wf(),
            final(self).frame(old(self), -1, -1, -1, -1, -1, sh.0 as int, r.0 as int, -1),
            final(self).regions()[r.0 as int].shells@ == old(self).regions()[r.0 as int].shells@.push(sh),
            final(self).regions()[r.0 as int].body == old(self).regions()[r.0 as int].body,
            final(self).regions()[r.0 as int].material == old(self).regions()[r.0 as int].material,
            final(self).regions()[r.0 as int].tag == old(self).regions()[r.0 as int].tag,
            final(self).regions()[r.0 as int].node_id == old(self).regions()[r.0 as int].node_id,
            final(self).shells()[sh.0 as int].region == Some(r),
            final(self).shells()[sh.0 as int].ac_vertices@ == old(self).shells()[sh.0 as int].ac_vertices@,
            final(self).shells()[sh.0 as int].wf_edges@ == old(self).shells()[sh.0 as int].wf_edges@,
            final(self).shells()[sh.0 as int].front_faces@ == old(self).shells()[sh.0 as int].front_faces@,
            final(self).shells()[sh.0 as int].back_faces@ == old(self).shells()[sh.0 as int].back_faces@,
            final(self).shells()[sh.0 as int].tag == old(self).shells()[sh.0 as int].tag,
            final(self).shells()[sh.0 as int].node_id == old(self).shells()[sh.0 as int].node_id,
    {
        self.regions[r.0].append_shell(sh);
        self.shells[sh.0].region = Some(r);
    }

    /// Adds `f` to the front faces of `sh`, and makes `sh` the front shell of `f`.
    pub fn add_front_face(&mut self, sh: Shell, f: Face)
        requires
            old(self).wf(),
            old(self).has_shell(sh),
            old(self).has_face(f),
        ensures
            final(self).wf(),
            final(self).frame(old(self), -1, -1, -1, -1, f.0 as int, sh.0 as int, -1, -1),
            final(self).shells()[sh.0 as int].front_faces@ == old(self).shells()[sh.0 as int].front_faces@.push(f),
            final(self).shells()[sh.0 as int].back_faces@ == old(self).shells()[sh.0 as int].back_faces@,
            final(self).shells()[sh.0 as int].ac_vertices@ == old(self).shells()[sh.0 as int].ac_vertices@,
            final(self).shells()[sh.0 as int].wf_edges@ == old(self).shells()[sh.0 as int].wf_edges@,
            final(self).shells()[sh.0 as int].region == old(self).shells()[sh.0 as int].region,
            final(self).shells()[sh.0 as int].tag == old(self).shells()[sh.0 as int].tag,
            final(self).shells()[sh.0 as int].node_id == old(self).shells()[sh.0 as int].node_id,
            final(self).faces()[f.0 as int].front_shell == Some(sh),
            final(self).faces()[f.0 as int].back_shell == old(self).faces()[f.0 as int].back_shell,
            final(self).faces()[f.0 as int].loops@ == old(self).faces()[f.0 as int].loops@,
            final(self).faces()[f.0 as int].tag == old(self).faces()[f.0 as int].tag,
            final(self).faces()[f.0 as int].node_id == old(self).faces()[f.0 as int].node_id,
    {
        self.shells[sh.0].front_faces.push(f);
        self.faces[f.0].set_front_shell(sh);
    }

    /// Adds `f` to the back faces of `sh`, and makes `sh` the back shell of `f`.
    pub fn add_back_face(&mut self, sh: Shell, f: Face)
        requires
            old(self).wf(),
            old(self).has_shell(sh),
            old(self).has_face(f),
        ensures
            final(self).wf(),
            final(self).frame(old(self), -1, -1, -1, -1, f.0 as int, sh.0 as int, -1, -1),
            final(self).shells()[sh.0 as int].back_faces@ == old(self).shells()[sh.0 as int].back_faces@.push(f),
            final(self).shells()[sh.0 as int].front_faces@ == old(self).shells()[sh.0 as int].front_faces@,
            final(self).shells()[sh.0 as int].ac_vertices@ == old(self).shells()[sh.0 as int].ac_vertices@,
            final(self).shells()[sh.0 as int].wf_edges@ == old(self).shells()[sh.0 as int].wf_edges@,
            final(self).shells()[sh.0 as int].region == old(self).shells()[sh.0 as int].region,
            final(self).shells()[sh.0 as int].tag == old(self).shells()[sh.0 as int].tag,
            final(self).shells()[sh.0 as int].node_id == old(self).shells()[sh.0 as int].node_id,
            final(self).faces()[f.0 as int].back_shell == Some(sh),
            final(self).faces()[f.0 as int].front_shell == old(self).faces()[f.0 as int].front_shell,
            final(self).faces()[f.0 as int].loops@ == old(self).faces()[f.0 as int].loops@,
            final(self).faces()[f.0 as int].tag == old(self).faces()[f.0 as int].tag,
            final(self).faces()[f.0 as int].node_id == old(self).faces()[f.0 as int].node_id,
    {
        self.shells[sh.0].back_faces.push(f);
        self.faces[f.0].set_back_shell(sh);
    }

    /// Makes `l` the outer loop of `f`, ahead of the loops already there, and makes `f` the
    /// face of `l`.
    pub fn set_outer_loop(&mut self, f: Face, l: Loop)
        requires
            old(self).wf(),
            old(self).has_face(f),
            old(self).has_loop_def(l),
        ensures
            final(self).wf(),
            final(self).frame(old(self), -1, -1, -1, l.0 as int, f.0 as int, -1, -1, -1),
            final(self).faces()[f.0 as int].loops@ == seq![l] + old(self).faces()[f.0 as int].loops@,
            final(self).faces()[f.0 as int].front_shell == old(self).faces()[f.0 as int].front_shell,
            final(self).faces()[f.0 as int].back_shell == old(self).faces()[f.0 as int].back_shell,
            final(self).faces()[f.0 as int].tag == old(self).faces()[f.0 as int].tag,
            final(self).faces()[f.0 as int].node_id == old(self).faces()[f.0 as int].node_id,
            final(self).loops()[l.0 as int].face == Some(f),
            final(self).loops()[l.0 as int].fin == old(self).loops()[l.0 as int].fin,
            final(self).loops()[l.0 as int].tag == old(self).loops()[l.0 as int].tag,
            final(self).loops()[l.0 as int].node_id == old(self).loops()[l.0 as int].node_id,
    {
        self.faces[f.0].set_outer_loop(l);
        self.loops[l.0].face = Some(f);
    }

    /// Makes `fi` the first fin of `l`, and makes `l` the loop of `fi`.
    pub fn set_loop_fin(&mut self, l: Loop, fi: Fin)
        requires
            old(self).wf(),
            old(self).has_loop_def(l),
            old(self).has_fin(fi),
        ensures
            final(self).wf(),
            final(self).frame(old(self), -1, -1, fi.0 as int, l.0 as int, -1, -1, -1, -1),
            final(self).loops()[l.0 as int].fin == Some(fi),
            final(self).loops()[l.0 as int].face == old(self).loops()[l.0 as int].face,
            final(self).loops()[l.0 as int].tag == old(self).loops()[l.0 as int].tag,
            final(self).loops()[l.0 as int].node_id == old(self).loops()[l.0 as int].node_id,
            final(self).fins()[fi.0 as int] == (FinDef { looop: Some(l), ..old(self).fins()[fi.0 as int] }),
    {
        self.loops[l.0].fin = Some(fi);
        self.fins[fi.0].looop = Some(l);
    }

    /// Adds `fi` to the fins of `e`, and makes `e` the edge of `fi`, used in the direction
    /// that `sense` gives.
    pub fn add_edge_fin(&mut self, e: Edge, fi: Fin, sense: bool)
        requires
            old(self).wf(),
            old(self).has_edge(e),
            old(self).has_fin(fi),
        ensures
            final(self).wf(),
            final(self).frame(old(self), -1, e.0 as int, fi.0 as int, -1, -1, -1, -1, -1),
            final(self).edges()[e.0 as int].fins@ == old(self).edges()[e.0 as int].fins@.push(fi),
            final(self).edges()[e.0 as int].tag == old(self).edges()[e.0 as int].tag,
            final(self).edges()[e.0 as int].node_id == old(self).edges()[e.0 as int].node_id,
            final(self).fins()[fi.0 as int] == (FinDef { edge: Some(e), sense, ..old(self).fins()[fi.0 as int] }),
    {
        self.edges[e.0].add_fin(fi);
        self.fins[fi.0].edge = Some(e);
        self.fins[fi.0].sense = sense;
    }

    /// Makes `next` the fin after `fi` in its loop.
    pub fn set_next_in_loop(&mut self, fi: Fin, next: Fin)
        requires
            old(self).wf(),
            old(self).has_fin(fi),
            old(self).has_fin(next),
        ensures
            final(self).wf(),
            final(self).frame(old(self), -1, -1, fi.0 as int, -1, -1, -1, -1, -1),
            final(self).fins()[fi.0 as int] == (FinDef { next_in_loop: Some(next), ..old(self).fins()[fi.0 as int] }),
    {
        self.fins[fi.0].next_in_loop = Some(next);
    }

    /// Makes `next` the fin after `fi` around their edge.
    pub fn set_next_around_edge(&mut self, fi: Fin, next: Fin)
        requires
            old(self).wf(),
            old(self).has_fin(fi),
            old(self).has_fin(next),
        ensures
            final(self).wf(),
            final(self).frame(old(self), -1, -1, fi.0 as int, -1, -1, -1, -1, -1),
            final(self).fins()[fi.0 as int] == (FinDef { next_around_edge: Some(next), ..old(self).fins()[fi.0 as int] }),
    {
        self.fins[fi.0].next_around_edge = Some(next);
    }

    /// The record of `h`.
    pub fn vertex(&self, h: Vertex) -> (r: &VertexDef<P>)
        requires
            self.has_vertex(h),
        ensures
            *r == self.vertices()[h.0 as int],
    {
        &self.vertices[h.0]
    }

    /// The record of `h`.
    pub fn edge(&self, h: Edge) -> (r: &EdgeDef)
        requires
            self.has_edge(h),
        ensures
            *r == self.edges()[h.0 as int],
    {
        &self.edges[h.0]
    }

    /// The record of `h`.
    pub fn fin(&self, h: Fin) -> (r: &FinDef)
        requires
            self.has_fin(h),
        ensures
            *r == self.fins()[h.0 as int],
    {
        &self.fins[h.0]
    }

    /// The record of `h`.
    pub fn loop_def(&self, h: Loop) -> (r: &LoopDef)
        requires
            self.has_loop_def(h),
        ensures
            *r == self.loops()[h.0 as int],
    {
        &self.loops[h.0]
    }

    /// The record of `h`.
    pub fn face(&self, h: Face) -> (r: &FaceDef)
        requires
            self.has_face(h),
        ensures
            *r == self.faces()[h.0 as int],
    {
        &self.faces[h.0]
    }

    /// The record of `h`.
    pub fn shell(&self, h: Shell) -> (r: &ShellDef)
        requires
            self.has_shell(h),
        ensures
            *r == self.shells()[h.0 as int],
    {
        &self.shells[h.0]
    }

    /// The record of `h`.
    pub fn region(&self, h: Region) -> (r: &RegionDef)
        requires
            self.has_region(h),
        ensures
            *r == self.regions()[h.0 as int],
    {
        &self.regions[h.0]
    }

    /// The record of `h`.
    pub fn body(&self, h: Body) -> (r: &BodyDef)
        requires
            self.has_body(h),
        ensures
            *r == self.bodies()[h.0 as int],
    {
        &self.bodies[h.0]
    }

}

} // verus!
