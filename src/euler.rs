//! Euler operators that build bodies, regions and shells.
use vstd::prelude::*;
use crate::schema::{same_except, Body, Region, RegionMaterial, Session, Shell, UID_NULL};

verus! {

/// `sh` is a shell of one face, bounded by one loop of one fin on one ring edge: the face is
/// both the front and the back face of the shell, the loop's fin chain closes on itself, and
/// the edge carries that fin alone.
pub open spec fn is_open_shell<P>(s: &Session<P>, sh: Shell) -> bool {
    &&& s.has_shell(sh)
    &&& s.shells()[sh.0 as int].front_faces@.len() == 1
    &&& s.shells()[sh.0 as int].back_faces@ == s.shells()[sh.0 as int].front_faces@
    &&& s.shells()[sh.0 as int].ac_vertices@.len() == 0
    &&& s.shells()[sh.0 as int].wf_edges@.len() == 0
    &&& {
        let fa = s.shells()[sh.0 as int].front_faces@[0];
        &&& s.has_face(fa)
        &&& s.faces()[fa.0 as int].front_shell == Some(sh)
        &&& s.faces()[fa.0 as int].back_shell == Some(sh)
        &&& s.faces()[fa.0 as int].loops@.len() == 1
        &&& {
            let lo = s.faces()[fa.0 as int].loops@[0];
            &&& s.has_loop_def(lo)
            &&& s.loops()[lo.0 as int].face == Some(fa)
            &&& s.loops()[lo.0 as int].fin matches Some(fi) && {
                &&& s.has_fin(fi)
                &&& s.fins()[fi.0 as int].looop == Some(lo)
                &&& s.fins()[fi.0 as int].next_in_loop == Some(fi)
                &&& s.fins()[fi.0 as int].next_around_edge == Some(fi)
                &&& s.fins()[fi.0 as int].forward_vertex is None
                &&& s.fins()[fi.0 as int].sense
                &&& s.fins()[fi.0 as int].edge matches Some(ed) && {
                    &&& s.has_edge(ed)
                    &&& s.edges()[ed.0 as int].fins@ == seq![fi]
                }
            }
        }
    }
}

/// Creates a new body with a single void region, the minimal valid body.
pub fn make_region_body<P>(session: &mut Session<P>) -> (b: Body)
    requires
        old(session).wf(),
        old(session).spec_next_tag() + 2 <= UID_NULL,
    ensures
        final(session).wf(),
        b.0 == old(session).bodies().len(),
        final(session).bodies().len() == old(session).bodies().len() + 1,
        final(session).bodies()[b.0 as int].regions@.len() == 1,
        final(session).bodies()[b.0 as int].edges@.len() == 0,
        final(session).bodies()[b.0 as int].vertices@.len() == 0,
        final(session).bodies()[b.0 as int].regions@[0].0 == old(session).regions().len(),
        final(session).regions().len() == old(session).regions().len() + 1,
        final(session).regions()[old(session).regions().len() as int].material == RegionMaterial::Void,
        final(session).regions()[old(session).regions().len() as int].body == Some(b),
        final(session).regions()[old(session).regions().len() as int].shells@.len() == 0,
        final(session).bodies().take(old(session).bodies().len() as int) == old(session).bodies(),
        final(session).regions().take(old(session).regions().len() as int) == old(session).regions(),
        final(session).shells() == old(session).shells(),
        final(session).faces() == old(session).faces(),
        final(session).loops() == old(session).loops(),
        final(session).fins() == old(session).fins(),
        final(session).edges() == old(session).edges(),
        final(session).vertices() == old(session).vertices(),
        final(session).spec_next_tag() == old(session).spec_next_tag() + 2,
{
    let b = session.create_body();
    let r = session.create_region();
    session.link_region(b, r);
    proof {
        assert(session.bodies().take(old(session).bodies().len() as int) =~= old(session).bodies());
        assert(session.regions().take(old(session).regions().len() as int) =~= old(session).regions());
    }
    b
}

/// Adds to region `rg` an open shell: one face, one outer loop, one ring edge and one fin, and
/// no vertices.
pub fn make_open_shell<P>(session: &mut Session<P>, rg: Region) -> (sh: Shell)
    requires
        old(session).wf(),
        old(session).has_region(rg),
        old(session).spec_next_tag() + 5 <= UID_NULL,
    ensures
        final(session).wf(),
        is_open_shell(final(session), sh),
        sh.0 == old(session).shells().len(),
        final(session).shells()[sh.0 as int].region == Some(rg),
        final(session).regions()[rg.0 as int].shells@ == old(session).regions()[rg.0 as int].shells@.push(sh),
        final(session).regions()[rg.0 as int].material == old(session).regions()[rg.0 as int].material,
        final(session).regions()[rg.0 as int].body == old(session).regions()[rg.0 as int].body,
        same_except(final(session).regions(), old(session).regions(), rg.0 as int),
        final(session).bodies() == old(session).bodies(),
        final(session).vertices() == old(session).vertices(),
        final(session).spec_next_tag() == old(session).spec_next_tag() + 5,
{
    let sh = session.create_shell();
    session.link_shell(rg, sh);
    let fa = session.create_face();
    let lo = session.create_loop();
    let ed = session.create_edge();
    let fi = session.create_fin();
    session.set_outer_loop(fa, lo);
    session.add_front_face(sh, fa);
    session.add_back_face(sh, fa);
    session.set_loop_fin(lo, fi);
    session.add_edge_fin(ed, fi, true);
    session.set_next_in_loop(fi, fi);
    session.set_next_around_edge(fi, fi);
    proof {
        assert(session.shells()[sh.0 as int].front_faces@ =~= seq![fa]);
        assert(session.shells()[sh.0 as int].back_faces@ =~= seq![fa]);
        assert(session.faces()[fa.0 as int].loops@ =~= seq![lo]);
        assert(session.edges()[ed.0 as int].fins@ =~= seq![fi]);
    }
    sh
}

} // verus!
