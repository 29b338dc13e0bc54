use topohedral_modeller::dcel::{DynMesh, Mnode, Muid, MUID_NULL};
use topohedral_modeller::euler;
use topohedral_modeller::euler::make_region_body;
use topohedral_modeller::schema::{
    BodyDef, FaceDef, Loop, Node, RegionDef, RegionMaterial, Session, Shell, UID_NULL,
};

#[test]
fn make_region_body_test() {
    let mut session: Session<[f64; 3]> = Session::new();
    let body = make_region_body(&mut session);
    assert_eq!(session.body(body).num_regions(), 1);
}

#[test]
fn make_open_shell() {
    let mut session: Session<[f64; 3]> = Session::new();
    let body = make_region_body(&mut session);
    assert_eq!(session.body(body).num_regions(), 1);
}

#[test]
fn region_body_has_one_void_region() {
    let mut session: Session<[f64; 3]> = Session::new();
    let body = make_region_body(&mut session);
    let region = session.body(body).outer_region();
    assert_eq!(session.region(region).material, RegionMaterial::Void);
    assert_eq!(session.region(region).body, Some(body));
    assert!(session.region(region).shells.is_empty());
    assert_eq!(session.body(body).tag(), 0);
    assert_eq!(session.region(region).tag(), 1);
    assert_eq!(session.body(body).node_id(), UID_NULL);
    assert_eq!(session.tags_used(), 2);
}

#[test]
fn open_shell_is_linked_in_a_ring() {
    let mut session: Session<[f64; 3]> = Session::new();
    let body = make_region_body(&mut session);
    let region = session.body(body).outer_region();
    let shell = euler::make_open_shell(&mut session, region);

    assert_eq!(session.region(region).shells, vec![shell]);
    let sh = session.shell(shell);
    assert_eq!(sh.region, Some(region));
    assert_eq!(sh.front_faces.len(), 1);
    assert_eq!(sh.back_faces, sh.front_faces);
    assert!(sh.ac_vertices.is_empty());

    let face = sh.front_faces[0];
    let fa = session.face(face);
    assert_eq!(fa.front_shell, Some(shell));
    assert_eq!(fa.back_shell, Some(shell));
    assert_eq!(fa.loops.len(), 1);

    let lo = fa.loops[0];
    assert_eq!(session.loop_def(lo).face, Some(face));
    let fin = session.loop_def(lo).fin.unwrap();
    let fi = session.fin(fin);
    assert_eq!(fi.looop, Some(lo));
    assert_eq!(fi.next_in_loop, Some(fin));
    assert_eq!(fi.next_around_edge, Some(fin));
    assert_eq!(fi.forward_vertex, None);
    assert!(fi.sense);
    let edge = fi.edge.unwrap();
    assert_eq!(session.edge(edge).fins, vec![fin]);
    assert_eq!(session.tags_used(), 7);
}

#[test]
fn second_shell_follows_the_first() {
    let mut session: Session<()> = Session::new();
    let body = make_region_body(&mut session);
    let region = session.body(body).outer_region();
    let first = euler::make_open_shell(&mut session, region);
    let second = euler::make_open_shell(&mut session, region);
    assert_eq!(session.region(region).shells, vec![first, second]);
    assert_ne!(session.shell(first).tag(), session.shell(second).tag());
}

#[test]
fn created_vertex_keeps_its_point() {
    let mut session: Session<[f64; 3]> = Session::new();
    let v = session.create_vertex([1.0, 2.0, 3.0]);
    assert_eq!(session.vertex(v).point, [1.0, 2.0, 3.0]);
    assert!(session.vertex(v).fins.is_empty());
}

#[test]
fn face_loops_keep_the_outer_loop_first() {
    let mut face = FaceDef::new();
    face.add_inner_loop(Loop(3));
    face.set_outer_loop(Loop(1));
    face.add_inner_loop(Loop(4));
    assert_eq!(face.loops, vec![Loop(1), Loop(3), Loop(4)]);
    face.set_front_shell(Shell(2));
    face.set_back_shell(Shell(5));
    assert_eq!(face.front_shell, Some(Shell(2)));
    assert_eq!(face.back_shell, Some(Shell(5)));
}

#[test]
fn new_records_are_untagged() {
    let body = BodyDef::new();
    assert_eq!(body.num_regions(), 0);
    assert_eq!(body.tag(), UID_NULL);
    let mut region = RegionDef::new();
    region.append_shell(Shell(0));
    assert_eq!(region.shells, vec![Shell(0)]);
    assert_eq!(region.material, RegionMaterial::Void);
}

#[test]
fn mesh_tags_follow_creation_order() {
    let mut mesh: DynMesh<[f64; 2]> = DynMesh::new();
    let (v0, f0) = mesh.make_vert_face([0.5, -1.0]);
    let fin = mesh.add_fin();
    let v1 = mesh.add_vertex([2.0, 0.0]);
    assert_eq!(mesh.vertex(v0).mtag(), 0);
    assert_eq!(mesh.face(f0).mtag(), 1);
    assert_eq!(mesh.fin(fin).mtag(), 2);
    assert_eq!(mesh.vertex(v1).mtag(), 3);
    assert_eq!(mesh.vertex(v0).position, [0.5, -1.0]);
    assert!(mesh.face(f0).outer_loops.is_empty());
    assert_eq!(mesh.fin(fin).twin, None);
}

#[test]
fn null_mesh_identifier() {
    assert!(MUID_NULL.is_null());
    assert!(!0usize.is_null());
    assert_eq!(<usize as Muid>::null(), usize::MAX);
}
