use vstd::prelude::*;
use crate::gpu::{activated, GlCall, GpuContext};
use crate::shader::{log_message, log_message_of, BuildStatus, Shader};

verus! {

/// The handles of a sequence of shaders, in order.
pub open spec fn shader_ids(s: Seq<Shader>) -> Seq<u32> {
    s.map_values(|x: Shader| x.spec_id())
}

/// Attaching each shader of `ids` to `program`, in order.
pub open spec fn attach_calls(program: u32, ids: Seq<u32>) -> Seq<GlCall> {
    ids.map_values(|i: u32| GlCall::AttachShader { program, shader: i })
}

/// Detaching each shader of `ids` from `program`, in order.
pub open spec fn detach_calls(program: u32, ids: Seq<u32>) -> Seq<GlCall> {
    ids.map_values(|i: u32| GlCall::DetachShader { program, shader: i })
}

/// The shaders attached to `program` once `calls` have been issued, starting
/// from a program with none attached.
pub open spec fn attached_after(program: u32, calls: Seq<GlCall>) -> Set<u32>
    decreases calls.len(),
{
    if calls.len() == 0 {
        Set::empty()
    } else {
        let before = attached_after(program, calls.drop_last());
        match calls.last() {
            GlCall::AttachShader { program: p, shader } => if p == program {
                before.insert(shader)
            } else {
                before
            },
            GlCall::DetachShader { program: p, shader } => if p == program {
                before.remove(shader)
            } else {
                before
            },
            _ => before,
        }
    }
}

/// Why a program did not link.
#[derive(Clone, Debug)]
pub struct LinkError {
    pub message: String,
}

impl LinkError {
    pub fn message(&self) -> (r: String)
        ensures
            r@ == self.message@,
    {
        self.message.clone()
    }
}

/// A linked shader program. Its handle stays valid until it is released.
#[derive(Debug)]
pub struct Program {
    id: u32,
    released: bool,
}

/// What `release` does: the first time it hands back the handle to delete,
/// after that nothing.
pub open spec fn release_step(before: Program, after: Program, r: Option<u32>) -> bool {
    &&& after.spec_id() == before.spec_id()
    &&& after.is_released()
    &&& r == if before.is_released() { None } else { Some(before.spec_id()) }
}

impl Program {
    pub closed spec fn spec_id(&self) -> u32 {
        self.id
    }

    pub closed spec fn is_released(&self) -> bool {
        self.released
    }

    /// The calls that precede the link status query: attach every shader to
    /// `program_id` in the given order, then link.
    pub fn link_calls(program_id: u32, shaders: &[Shader]) -> (r: Vec<GlCall>)
        ensures
            r@ == attach_calls(program_id, shader_ids(shaders@)).push(
                GlCall::LinkProgram { program: program_id },
            ),
    {
        let mut calls: Vec<GlCall> = Vec::new();
        let mut i: usize = 0;
        while i < shaders.len()
            invariant
                i <= shaders@.len(),
                calls@ == attach_calls(program_id, shader_ids(shaders@.subrange(0, i as int))),
            decreases shaders@.len() - i,
        {
            calls.push(GlCall::AttachShader { program: program_id, shader: shaders[i].id() });
            i = i + 1;
            assert(calls@ =~= attach_calls(program_id, shader_ids(shaders@.subrange(0, i as int))));
        }
        assert(shaders@.subrange(0, i as int) =~= shaders@);
        calls.push(GlCall::LinkProgram { program: program_id });
        calls
    }

    /// The outcome of linking program object `program_id` from `shaders`,
    /// given the link status that the driver reported.
    pub fn from_shaders(program_id: u32, shaders: &[Shader], status: BuildStatus) -> (r: Result<Program, LinkError>)
        ensures
            status is Success <==> r is Ok,
            r is Ok ==> r->Ok_0.spec_id() == program_id && !r->Ok_0.is_released(),
            status is Failure ==> log_message_of(status->log@, r->Err_0.message@),
    {
        match status {
            BuildStatus::Success => Ok(Program { id: program_id, released: false }),
            BuildStatus::Failure { log } => Err(LinkError { message: log_message(&log) }),
        }
    }

    /// The calls that follow a successful link: detach every shader, in the
    /// given order, so the program holds no reference to them.
    pub fn detach_calls(&self, shaders: &[Shader]) -> (r: Vec<GlCall>)
        ensures
            r@ == detach_calls(self.spec_id(), shader_ids(shaders@)),
    {
        let mut calls: Vec<GlCall> = Vec::new();
        let mut i: usize = 0;
        while i < shaders.len()
            invariant
                i <= shaders@.len(),
                calls@ == detach_calls(self.spec_id(), shader_ids(shaders@.subrange(0, i as int))),
            decreases shaders@.len() - i,
        {
            calls.push(GlCall::DetachShader { program: self.id, shader: shaders[i].id() });
            i = i + 1;
            assert(calls@ =~= detach_calls(self.spec_id(), shader_ids(shaders@.subrange(0, i as int))));
        }
        assert(shaders@.subrange(0, i as int) =~= shaders@);
        calls
    }

    pub fn id(&self) -> (r: u32)
        ensures
            r == self.spec_id(),
    {
        self.id
    }

    /// Makes this program the active one of `ctx`.
    pub fn set_used(&self, ctx: &mut GpuContext) -> (r: GlCall)
        ensures
            *final(ctx) == activated(*old(ctx), self.spec_id()),
            r == (GlCall::UseProgram { program: self.spec_id() }),
    {
        ctx.active_program = Some(self.id);
        GlCall::UseProgram { program: self.id }
    }

    /// Marks the program released, handing back its handle to delete the
    /// first time only.
    pub fn release(&mut self) -> (r: Option<u32>)
        ensures
            release_step(*old(self), *final(self), r),
    {
        if self.released {
            None
        } else {
            self.released = true;
            Some(self.id)
        }
    }
}

/// Releasing a program a second time deletes nothing and changes nothing.
pub proof fn lemma_release_twice(p0: Program, p1: Program, p2: Program, r1: Option<u32>, r2: Option<u32>)
    requires
        release_step(p0, p1, r1),
        release_step(p1, p2, r2),
    ensures
        r2 is None,
        p2.spec_id() == p0.spec_id(),
        p2.is_released(),
        r1 is Some ==> r1 == Some(p0.spec_id()),
{
}

proof fn lemma_attach_all(program: u32, ids: Seq<u32>)
    ensures
        attached_after(program, attach_calls(program, ids)) == ids.to_set(),
    decreases ids.len(),
{
    if ids.len() == 0 {
        assert(attach_calls(program, ids) =~= Seq::<GlCall>::empty());
        assert(ids.to_set() =~= Set::<u32>::empty());
    } else {
        let front = ids.drop_last();
        lemma_attach_all(program, front);
        assert(attach_calls(program, ids).drop_last() =~= attach_calls(program, front));
        assert forall|x: u32| ids.contains(x) <==> front.contains(x) || x == ids.last() by {
            if ids.contains(x) {
                let j = choose|j: int| 0 <= j < ids.len() && ids[j] == x;
                if j < ids.len() - 1 {
                    assert(front[j] == x);
                }
            }
            if front.contains(x) {
                let j = choose|j: int| 0 <= j < front.len() && front[j] == x;
                assert(ids[j] == x);
            }
            if x == ids.last() {
                assert(ids[ids.len() - 1] == x);
            }
        }
        assert(ids.to_set() =~= front.to_set().insert(ids.last()));
    }
}

proof fn lemma_detach_all(program: u32, before: Seq<GlCall>, ids: Seq<u32>)
    ensures
        attached_after(program, before + detach_calls(program, ids))
            == attached_after(program, before).difference(ids.to_set()),
    decreases ids.len(),
{
    if ids.len() == 0 {
        assert(before + detach_calls(program, ids) =~= before);
        assert(attached_after(program, before).difference(ids.to_set()) =~= attached_after(program, before));
    } else {
        let front = ids.drop_last();
        lemma_detach_all(program, before, front);
        assert((before + detach_calls(program, ids)).drop_last() =~= before + detach_calls(program, front));
        assert forall|x: u32| ids.contains(x) <==> front.contains(x) || x == ids.last() by {
            if ids.contains(x) {
                let j = choose|j: int| 0 <= j < ids.len() && ids[j] == x;
                if j < ids.len() - 1 {
                    assert(front[j] == x);
                }
            }
            if front.contains(x) {
                let j = choose|j: int| 0 <= j < front.len() && front[j] == x;
                assert(ids[j] == x);
            }
            if x == ids.last() {
                assert(ids[ids.len() - 1] == x);
            }
        }
        assert(attached_after(program, before + detach_calls(program, ids))
            =~= attached_after(program, before).difference(ids.to_set()));
    }
}

/// Attaching shaders and linking leaves every one of them attached, which is
/// where a failed link stops; detaching them all after a successful link
/// leaves none attached.
pub proof fn lemma_link_detaches_all(program_id: u32, shaders: Seq<Shader>)
    ensures
        attached_after(
            program_id,
            attach_calls(program_id, shader_ids(shaders)).push(GlCall::LinkProgram { program: program_id }),
        ) == shader_ids(shaders).to_set(),
        attached_after(
            program_id,
            attach_calls(program_id, shader_ids(shaders)).push(GlCall::LinkProgram { program: program_id })
                + detach_calls(program_id, shader_ids(shaders)),
        ) == Set::<u32>::empty(),
{
    let ids = shader_ids(shaders);
    let linked = attach_calls(program_id, ids).push(GlCall::LinkProgram { program: program_id });
    lemma_attach_all(program_id, ids);
    assert(linked.drop_last() =~= attach_calls(program_id, ids));
    lemma_detach_all(program_id, linked, ids);
    assert(ids.to_set().difference(ids.to_set()) =~= Set::<u32>::empty());
}

} // verus!
