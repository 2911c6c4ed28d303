//! Logical description of one frame's render graph: which passes run,
//! in what order, and which resources each one reads and writes. The
//! description is plain data; executing it against a GPU belongs to the
//! renderer.

use vstd::prelude::*;

verus! {

/// Logical resource identifier for this frame.
#[derive(Copy, Clone, Debug, Eq, PartialEq, Hash, Structural)]
pub struct ResourceId(pub u32);

/// Resource kind classification.
#[derive(Copy, Clone, Debug, Eq, PartialEq, Structural)]
pub enum ResourceKind {
    Color,
    Depth,
}

/// Per-frame logical resource description.
#[derive(Clone, Debug)]
pub struct ResourceDesc {
    pub id: ResourceId,
    pub name: &'static str,
    pub kind: ResourceKind,
    /// Resources sharing the same group may alias the same memory, but
    /// only if their lifetimes do not overlap.
    pub alias_group: Option<u32>,
}

/// What kind of work a pass performs.
#[derive(Copy, Clone, Debug, Eq, PartialEq, Structural)]
pub enum PassKind {
    Sprite,
    SceneToBackbuffer,
    Gui,
}

/// One render pass in the graph, with the resources it touches.
#[derive(Clone, Debug)]
pub struct PassDesc {
    pub name: &'static str,
    pub kind: PassKind,
    pub reads: Vec<ResourceId>,
    pub writes: Vec<ResourceId>,
}

/// The frame graph for one frame: resources, then passes in execution
/// order.
#[derive(Clone, Debug)]
pub struct FrameGraphDesc {
    pub resources: Vec<ResourceDesc>,
    pub passes: Vec<PassDesc>,
}

/// Outputs of one executed frame. Empty for now; kept so timing and
/// profiling data can be attached later.
pub struct FrameOutputs;

/// Why a frame-graph description is structurally unsound.
#[derive(Copy, Clone, Debug, Eq, PartialEq, Structural)]
pub enum GraphError {
    /// Two resource declarations share one id.
    DuplicateResource(ResourceId),
    /// A pass reads or writes a resource that was never declared.
    UnknownResource { pass: usize, id: ResourceId },
    /// A resource is first read in an earlier pass than its first write.
    ReadBeforeWrite { id: ResourceId, read_pass: usize, write_pass: usize },
    /// Two resources of one alias group have overlapping lifetimes, so
    /// they cannot safely share memory.
    AliasOverlap { group: u32, first: ResourceId, second: ResourceId },
}

/// Whether `id` occurs in a pass's read or write list.
pub open spec fn in_list(ids: Seq<ResourceId>, id: ResourceId) -> bool {
    exists|k: int| 0 <= k < ids.len() && ids[k] == id
}

/// Whether some declaration carries `id`.
pub open spec fn id_declared(desc: FrameGraphDesc, id: ResourceId) -> bool {
    exists|j: int| 0 <= j < desc.resources@.len() && desc.resources@[j].id == id
}

/// No two declarations share an id.
pub open spec fn distinct_resource_ids(desc: FrameGraphDesc) -> bool {
    forall|i: int, j: int|
        0 <= i < j < desc.resources@.len() ==> desc.resources@[i].id != desc.resources@[j].id
}

/// Whether pass `p` reads `id`.
pub open spec fn reads_at(desc: FrameGraphDesc, p: int, id: ResourceId) -> bool {
    0 <= p < desc.passes@.len() && in_list(desc.passes@[p].reads@, id)
}

/// Whether pass `p` writes `id`.
pub open spec fn writes_at(desc: FrameGraphDesc, p: int, id: ResourceId) -> bool {
    0 <= p < desc.passes@.len() && in_list(desc.passes@[p].writes@, id)
}

/// Whether pass `p` touches `id` at all.
pub open spec fn accesses_at(desc: FrameGraphDesc, p: int, id: ResourceId) -> bool {
    reads_at(desc, p, id) || writes_at(desc, p, id)
}

/// Every resource a pass mentions is declared.
pub open spec fn references_declared(desc: FrameGraphDesc) -> bool {
    forall|p: int, id: ResourceId|
        #![trigger reads_at(desc, p, id)]
        #![trigger writes_at(desc, p, id)]
        reads_at(desc, p, id) || writes_at(desc, p, id) ==> id_declared(desc, id)
}

/// A resource that is both written and read is never read strictly
/// before its first write in the declared pass order.
pub open spec fn no_read_before_write(desc: FrameGraphDesc) -> bool {
    forall|p: int, id: ResourceId|
        #[trigger] reads_at(desc, p, id) && (exists|q: int| writes_at(desc, q, id)) ==> (exists|
            q: int,
        |
            writes_at(desc, q, id) && q <= p)
}

/// Two resources' lifetimes overlap when each is accessed no later than
/// some access of the other: the spans of their accesses intersect.
pub open spec fn lifetimes_overlap(desc: FrameGraphDesc, a: ResourceId, b: ResourceId) -> bool {
    &&& exists|p: int, q: int| accesses_at(desc, p, a) && accesses_at(desc, q, b) && p <= q
    &&& exists|p: int, q: int| accesses_at(desc, p, b) && accesses_at(desc, q, a) && p <= q
}

/// Resources sharing an alias group never have overlapping lifetimes.
pub open spec fn aliasing_safe(desc: FrameGraphDesc) -> bool {
    forall|i: int, j: int|
        0 <= i < j < desc.resources@.len() && (#[trigger] desc.resources@[i].alias_group) is Some
            && desc.resources@[i].alias_group == (#[trigger] desc.resources@[j].alias_group)
            ==> !lifetimes_overlap(desc, desc.resources@[i].id, desc.resources@[j].id)
}

/// A structurally sound graph: distinct declarations, no dangling
/// references, writes before reads, and alias groups whose members never
/// coexist.
pub open spec fn graph_valid(desc: FrameGraphDesc) -> bool {
    &&& distinct_resource_ids(desc)
    &&& references_declared(desc)
    &&& no_read_before_write(desc)
    &&& aliasing_safe(desc)
}

/// Whether `id` occurs in `ids`.
fn list_contains(ids: &Vec<ResourceId>, id: ResourceId) -> (r: bool)
    ensures
        r == in_list(ids@, id),
{
    let n = ids.len();
    let mut k: usize = 0;
    while k < n
        invariant
            n == ids@.len(),
            k <= n,
            forall|t: int| 0 <= t < k ==> ids@[t] != id,
        decreases n - k,
    {
        if ids[k] == id {
            return true;
        }
        k += 1;
    }
    false
}

/// Whether `id` is declared in `desc`.
fn resource_declared(desc: &FrameGraphDesc, id: ResourceId) -> (r: bool)
    ensures
        r == id_declared(*desc, id),
{
    let n = desc.resources.len();
    let mut j: usize = 0;
    while j < n
        invariant
            n == desc.resources@.len(),
            j <= n,
            forall|t: int| 0 <= t < j ==> desc.resources@[t].id != id,
        decreases n - j,
    {
        if desc.resources[j].id == id {
            return true;
        }
        j += 1;
    }
    false
}

/// The first pass that reads (`want_read`) or otherwise writes `id`, if
/// any.
fn first_pass_touching(desc: &FrameGraphDesc, id: ResourceId, want_read: bool) -> (r: Option<
    usize,
>)
    ensures
        want_read ==> match r {
            Some(p) => reads_at(*desc, p as int, id) && forall|q: int|
                0 <= q < p ==> !reads_at(*desc, q, id),
            None => forall|q: int| !reads_at(*desc, q, id),
        },
        !want_read ==> match r {
            Some(p) => writes_at(*desc, p as int, id) && forall|q: int|
                0 <= q < p ==> !writes_at(*desc, q, id),
            None => forall|q: int| !writes_at(*desc, q, id),
        },
{
    let n = desc.passes.len();
    let mut p: usize = 0;
    while p < n
        invariant
            n == desc.passes@.len(),
            p <= n,
            want_read ==> forall|q: int| 0 <= q < p ==> !reads_at(*desc, q, id),
            !want_read ==> forall|q: int| 0 <= q < p ==> !writes_at(*desc, q, id),
        decreases n - p,
    {
        let touched = if want_read {
            list_contains(&desc.passes[p].reads, id)
        } else {
            list_contains(&desc.passes[p].writes, id)
        };
        if touched {
            return Some(p);
        }
        p += 1;
    }
    None
}

/// The first and last pass accessing `id` — its lifetime — or `None`
/// when no pass touches it.
fn lifetime_of(desc: &FrameGraphDesc, id: ResourceId) -> (r: Option<(usize, usize)>)
    ensures
        match r {
            Some((first, last)) => {
                &&& first <= last
                &&& accesses_at(*desc, first as int, id)
                &&& accesses_at(*desc, last as int, id)
                &&& forall|q: int| #[trigger]
                    accesses_at(*desc, q, id) ==> first <= q <= last
            },
            None => forall|q: int| !#[trigger] accesses_at(*desc, q, id),
        },
{
    let n = desc.passes.len();
    let mut p: usize = 0;
    let mut found: Option<(usize, usize)> = None;
    while p < n
        invariant
            n == desc.passes@.len(),
            p <= n,
            match found {
                Some((first, last)) => {
                    &&& first <= last < p
                    &&& accesses_at(*desc, first as int, id)
                    &&& accesses_at(*desc, last as int, id)
                    &&& forall|q: int|
                        0 <= q < p && #[trigger] accesses_at(*desc, q, id) ==> first <= q <= last
                },
                None => forall|q: int| 0 <= q < p ==> !#[trigger] accesses_at(*desc, q, id),
            },
        decreases n - p,
    {
        let touched = list_contains(&desc.passes[p].reads, id) || list_contains(
            &desc.passes[p].writes,
            id,
        );
        if touched {
            found = match found {
                Some((first, _)) => Some((first, p)),
                None => Some((p, p)),
            };
        }
        p += 1;
    }
    proof {
        if found is None {
            assert forall|q: int| !#[trigger] accesses_at(*desc, q, id) by {
                if accesses_at(*desc, q, id) {
                    assert(0 <= q < n);
                }
            }
        }
    }
    found
}

/// Validates the logical graph before anything touches the GPU:
/// resource ids must be unique, every referenced resource must exist, a
/// resource written and read must not be read before its first write,
/// and resources of one alias group must not have overlapping lifetimes.
/// Returns the first violation found, in that order of rules.
pub fn validate_graph(desc: &FrameGraphDesc) -> (r: Result<(), GraphError>)
    ensures
        r is Ok <==> graph_valid(*desc),
{
    let n_res = desc.resources.len();
    let n_pass = desc.passes.len();

    // Rule 1: no duplicate resource ids.
    let mut i: usize = 0;
    while i < n_res
        invariant
            n_res == desc.resources@.len(),
            i <= n_res,
            forall|a: int, b: int|
                0 <= a < b < desc.resources@.len() && a < i ==> desc.resources@[a].id
                    != desc.resources@[b].id,
        decreases n_res - i,
    {
        let mut j: usize = i + 1;
        while j < n_res
            invariant
                n_res == desc.resources@.len(),
                i < j,
                i < n_res,
                j <= n_res,
                forall|b: int| i < b < j ==> desc.resources@[i as int].id != desc.resources@[b].id,
            decreases n_res - j,
        {
            if desc.resources[i].id == desc.resources[j].id {
                proof {
                    assert(!distinct_resource_ids(*desc)) by {
                        assert(0 <= i as int && i < j && (j as int) < desc.resources@.len());
                        assert(desc.resources@[i as int].id == desc.resources@[j as int].id);
                    }
                }
                return Err(GraphError::DuplicateResource(desc.resources[i].id));
            }
            j += 1;
        }
        i += 1;
    }

    // Rule 2: every read and written resource is declared.
    let mut p: usize = 0;
    while p < n_pass
        invariant
            n_res == desc.resources@.len(),
            n_pass == desc.passes@.len(),
            p <= n_pass,
            distinct_resource_ids(*desc),
            forall|q: int, t: int|
                0 <= q < p && 0 <= t < desc.passes@[q].reads@.len() ==> id_declared(
                    *desc,
                    #[trigger] desc.passes@[q].reads@[t],
                ),
            forall|q: int, t: int|
                0 <= q < p && 0 <= t < desc.passes@[q].writes@.len() ==> id_declared(
                    *desc,
                    #[trigger] desc.passes@[q].writes@[t],
                ),
        decreases n_pass - p,
    {
        let n_reads = desc.passes[p].reads.len();
        let mut k: usize = 0;
        while k < n_reads
            invariant
                n_pass == desc.passes@.len(),
                p < n_pass,
                n_reads == desc.passes@[p as int].reads@.len(),
                k <= n_reads,
                forall|t: int|
                    0 <= t < k ==> id_declared(*desc, #[trigger] desc.passes@[p as int].reads@[t]),
            decreases n_reads - k,
        {
            let id = desc.passes[p].reads[k];
            if !resource_declared(desc, id) {
                proof {
                    assert(desc.passes@[p as int].reads@[k as int] == id);
                    assert(reads_at(*desc, p as int, id));
                    assert(!id_declared(*desc, id));
                    assert(!references_declared(*desc));
                }
                return Err(GraphError::UnknownResource { pass: p, id });
            }
            k += 1;
        }
        let n_writes = desc.passes[p].writes.len();
        let mut k: usize = 0;
        while k < n_writes
            invariant
                n_pass == desc.passes@.len(),
                p < n_pass,
                n_writes == desc.passes@[p as int].writes@.len(),
                k <= n_writes,
                forall|t: int|
                    0 <= t < k ==> id_declared(*desc, #[trigger] desc.passes@[p as int].writes@[t]),
            decreases n_writes - k,
        {
            let id = desc.passes[p].writes[k];
            if !resource_declared(desc, id) {
                proof {
                    assert(desc.passes@[p as int].writes@[k as int] == id);
                    assert(writes_at(*desc, p as int, id));
                    assert(!id_declared(*desc, id));
                    assert(!references_declared(*desc));
                }
                return Err(GraphError::UnknownResource { pass: p, id });
            }
            k += 1;
        }
        p += 1;
    }
    proof {
        assert(references_declared(*desc)) by {
            assert forall|p2: int, id: ResourceId|
                #![trigger reads_at(*desc, p2, id)]
                #![trigger writes_at(*desc, p2, id)]
                reads_at(*desc, p2, id) || writes_at(*desc, p2, id) implies id_declared(
                *desc,
                id,
            ) by {
                if reads_at(*desc, p2, id) {
                    let t = choose|t: int|
                        0 <= t < desc.passes@[p2].reads@.len() && desc.passes@[p2].reads@[t] == id;
                    assert(id_declared(*desc, desc.passes@[p2].reads@[t]));
                } else {
                    let t = choose|t: int|
                        0 <= t < desc.passes@[p2].writes@.len() && desc.passes@[p2].writes@[t]
                            == id;
                    assert(id_declared(*desc, desc.passes@[p2].writes@[t]));
                }
            }
        }
    }

    // Rule 3: nothing is read before its first write.
    let mut i: usize = 0;
    while i < n_res
        invariant
            n_res == desc.resources@.len(),
            i <= n_res,
            distinct_resource_ids(*desc),
            references_declared(*desc),
            forall|a: int, p: int|
                0 <= a < i && #[trigger] reads_at(*desc, p, desc.resources@[a].id) && (exists|
                    q: int,
                |
                    writes_at(*desc, q, desc.resources@[a].id)) ==> (exists|q: int|
                    writes_at(*desc, q, desc.resources@[a].id) && q <= p),
        decreases n_res - i,
    {
        let id = desc.resources[i].id;
        let first_read = first_pass_touching(desc, id, true);
        let first_write = first_pass_touching(desc, id, false);
        if let (Some(fr), Some(fw)) = (first_read, first_write) {
            if fr < fw {
                proof {
                    assert(!no_read_before_write(*desc)) by {
                        assert(reads_at(*desc, fr as int, id));
                        assert(writes_at(*desc, fw as int, id));
                        assert forall|q: int| !(writes_at(*desc, q, id) && q <= fr as int) by {
                            if writes_at(*desc, q, id) {
                                assert(q >= fw);
                            }
                        }
                    }
                }
                return Err(GraphError::ReadBeforeWrite { id, read_pass: fr, write_pass: fw });
            }
        }
        proof {
            assert forall|p: int|
                #[trigger] reads_at(*desc, p, id) && (exists|q: int|
                    writes_at(*desc, q, id)) implies (exists|q: int|
                writes_at(*desc, q, id) && q <= p) by {
                if first_read is Some && first_write is Some {
                    let fr = first_read->0;
                    let fw = first_write->0;
                    assert(p >= fr);
                    assert(writes_at(*desc, fw as int, id) && fw <= fr <= p);
                } else if first_read is None {
                    assert(!reads_at(*desc, p, id));
                } else {
                    let q = choose|q: int| writes_at(*desc, q, id);
                    assert(0 <= q < desc.passes@.len());
                    assert(!writes_at(*desc, q, id));
                }
            }
        }
        i += 1;
    }
    proof {
        assert(no_read_before_write(*desc)) by {
            assert forall|p: int, id: ResourceId|
                #[trigger] reads_at(*desc, p, id) && (exists|q: int|
                    writes_at(*desc, q, id)) implies (exists|q: int|
                writes_at(*desc, q, id) && q <= p) by {
                assert(id_declared(*desc, id));
                let a = choose|a: int|
                    0 <= a < desc.resources@.len() && desc.resources@[a].id == id;
                assert(reads_at(*desc, p, desc.resources@[a].id));
            }
        }
    }

    // Rule 4: alias-group members must not coexist.
    let mut i: usize = 0;
    while i < n_res
        invariant
            n_res == desc.resources@.len(),
            i <= n_res,
            distinct_resource_ids(*desc),
            references_declared(*desc),
            no_read_before_write(*desc),
            forall|a: int, b: int|
                0 <= a < b < desc.resources@.len() && a < i && (#[trigger] desc.resources@[
                    a
                ].alias_group) is Some && desc.resources@[a].alias_group == (
                #[trigger] desc.resources@[b].alias_group) ==> !lifetimes_overlap(
                    *desc,
                    desc.resources@[a].id,
                    desc.resources@[b].id,
                ),
        decreases n_res - i,
    {
        if let Some(group) = desc.resources[i].alias_group {
            let id_a = desc.resources[i].id;
            let span_a = lifetime_of(desc, id_a);
            let mut j: usize = i + 1;
            while j < n_res
                invariant
                    n_res == desc.resources@.len(),
                    i < n_res,
                    i < j,
                    j <= n_res,
                    desc.resources@[i as int].alias_group == Some(group),
                    id_a == desc.resources@[i as int].id,
                    match span_a {
                        Some((first, last)) => {
                            &&& first <= last
                            &&& accesses_at(*desc, first as int, id_a)
                            &&& accesses_at(*desc, last as int, id_a)
                            &&& forall|q: int| #[trigger]
                                accesses_at(*desc, q, id_a) ==> first <= q <= last
                        },
                        None => forall|q: int| !#[trigger] accesses_at(*desc, q, id_a),
                    },
                    forall|b: int|
                        i < b < j && (#[trigger] desc.resources@[b].alias_group) == Some(group)
                            ==> !lifetimes_overlap(*desc, id_a, desc.resources@[b].id),
                decreases n_res - j,
            {
                let same = match desc.resources[j].alias_group {
                    Some(g) => g == group,
                    None => false,
                };
                if same {
                    let id_b = desc.resources[j].id;
                    let span_b = lifetime_of(desc, id_b);
                    match (span_a, span_b) {
                        (Some((fa, la)), Some((fb, lb))) => {
                            if fa <= lb && fb <= la {
                                // Both spans contain a point of the
                                // other: the lifetimes overlap.
                                proof {
                                    assert(lifetimes_overlap(*desc, id_a, id_b)) by {
                                        assert(accesses_at(*desc, fa as int, id_a) && accesses_at(
                                            *desc,
                                            lb as int,
                                            id_b,
                                        ) && fa <= lb);
                                        assert(accesses_at(*desc, fb as int, id_b) && accesses_at(
                                            *desc,
                                            la as int,
                                            id_a,
                                        ) && fb <= la);
                                    }
                                    assert(!aliasing_safe(*desc)) by {
                                        assert(0 <= i as int && i < j && (j as int)
                                            < desc.resources@.len());
                                        assert((desc.resources@[i as int].alias_group) is Some);
                                        assert(desc.resources@[i as int].alias_group
                                            == desc.resources@[j as int].alias_group);
                                    }
                                }
                                return Err(
                                    GraphError::AliasOverlap { group, first: id_a, second: id_b },
                                );
                            } else {
                                proof {
                                    assert(!lifetimes_overlap(*desc, id_a, id_b)) by {
                                        if lifetimes_overlap(*desc, id_a, id_b) {
                                            let (p1, q1) = choose|p: int, q: int|
                                                accesses_at(*desc, p, id_a) && accesses_at(
                                                    *desc,
                                                    q,
                                                    id_b,
                                                ) && p <= q;
                                            let (p2, q2) = choose|p: int, q: int|
                                                accesses_at(*desc, p, id_b) && accesses_at(
                                                    *desc,
                                                    q,
                                                    id_a,
                                                ) && p <= q;
                                            assert(fa <= p1 && q1 <= lb);
                                            assert(fb <= p2 && q2 <= la);
                                        }
                                    }
                                }
                            }
                        },
                        _ => {
                            // A resource no pass touches overlaps with
                            // nothing.
                            proof {
                                assert(!lifetimes_overlap(*desc, id_a, id_b)) by {
                                    if lifetimes_overlap(*desc, id_a, id_b) {
                                        let (p1, q1) = choose|p: int, q: int|
                                            accesses_at(*desc, p, id_a) && accesses_at(
                                                *desc,
                                                q,
                                                id_b,
                                            ) && p <= q;
                                    }
                                }
                            }
                        },
                    }
                }
                j += 1;
            }
        }
        i += 1;
    }

    Ok(())
}

/// The current pipeline: an off-screen scene color buffer and the
/// backbuffer; a sprite pass renders the scene off screen, a copy pass
/// moves it to the backbuffer, and the overlay pass draws on top.
pub fn frame_graph_desc() -> (r: FrameGraphDesc)
    ensures
        r.resources@.len() == 2,
        r.resources@[0].id == ResourceId(0),
        r.resources@[0].kind == ResourceKind::Color,
        r.resources@[0].alias_group == Some(0u32),
        r.resources@[1].id == ResourceId(1),
        r.resources@[1].kind == ResourceKind::Color,
        r.resources@[1].alias_group is None,
        r.passes@.len() == 3,
        r.passes@[0].kind == PassKind::Sprite,
        r.passes@[0].reads@ =~= Seq::<ResourceId>::empty(),
        r.passes@[0].writes@ =~= seq![ResourceId(0)],
        r.passes@[1].kind == PassKind::SceneToBackbuffer,
        r.passes@[1].reads@ =~= seq![ResourceId(0)],
        r.passes@[1].writes@ =~= seq![ResourceId(1)],
        r.passes@[2].kind == PassKind::Gui,
        r.passes@[2].reads@ =~= seq![ResourceId(1)],
        r.passes@[2].writes@ =~= seq![ResourceId(1)],
{
    let scene_color = ResourceId(0);
    let backbuffer = ResourceId(1);
    let mut resources: Vec<ResourceDesc> = Vec::new();
    resources.push(
        ResourceDesc {
            id: scene_color,
            name: "SceneColor",
            kind: ResourceKind::Color,
            // The only member of its group so far; sets the pattern for
            // future aliasable temporaries.
            alias_group: Some(0u32),
        },
    );
    resources.push(
        ResourceDesc {
            id: backbuffer,
            name: "Backbuffer",
            kind: ResourceKind::Color,
            // The surface is not aliasable in this design.
            alias_group: None,
        },
    );
    let mut passes: Vec<PassDesc> = Vec::new();
    let mut sprite_writes: Vec<ResourceId> = Vec::new();
    sprite_writes.push(scene_color);
    passes.push(
        PassDesc {
            name: "SpritePass",
            kind: PassKind::Sprite,
            reads: Vec::new(),
            writes: sprite_writes,
        },
    );
    let mut copy_reads: Vec<ResourceId> = Vec::new();
    copy_reads.push(scene_color);
    let mut copy_writes: Vec<ResourceId> = Vec::new();
    copy_writes.push(backbuffer);
    passes.push(
        PassDesc {
            name: "SceneToBackbuffer",
            kind: PassKind::SceneToBackbuffer,
            reads: copy_reads,
            writes: copy_writes,
        },
    );
    let mut gui_reads: Vec<ResourceId> = Vec::new();
    gui_reads.push(backbuffer);
    let mut gui_writes: Vec<ResourceId> = Vec::new();
    gui_writes.push(backbuffer);
    passes.push(
        PassDesc { name: "GuiPass", kind: PassKind::Gui, reads: gui_reads, writes: gui_writes },
    );
    FrameGraphDesc { resources, passes }
}

} // verus!
