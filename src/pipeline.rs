use vstd::prelude::*;
use crate::error::{GpuObject, Stage, VeilError};

verus! {

/// Where one stage's shader object stands.
#[derive(Clone, Copy, Debug, PartialEq, Eq, Structural)]
pub enum ShaderSlot {
    Absent,
    Created,
    Attached,
}

/// The next GPU operation that the pipeline asks its executor to perform, or
/// the state in which the pipeline rests.
#[derive(Clone, Copy, Debug, PartialEq, Eq, Structural)]
pub enum PipelineCommand {
    CreateProgram,
    CreateVertexArray,
    CreateShader(Stage),
    /// Upload the stage's versioned source and compile it.
    CompileShader(Stage),
    AttachShader(Stage),
    LinkProgram,
    DetachShader(Stage),
    DeleteShader(Stage),
    DeleteVertexArray,
    DeleteProgram,
    /// Built: the program and the vertex array are live, no stage is.
    Ready,
    /// Construction failed and everything it created has been released.
    Failed,
    /// Shut down: everything has been released.
    Retired,
}

/// The forward step at which the program has been linked.
pub const LINKED: u8 = 9;

/// The life of the GPU resource pipeline: it builds the fixed program from two
/// stages plus one vertex array, releases the stage objects on every path, and
/// releases everything again on failure or at shutdown.
///
/// The executor asks `command`, performs it, and hands the outcome to `report`,
/// until the command is one of the resting states.
pub struct PipelineLifecycle {
    /// The forward step that comes next, up to `LINKED`.
    pub step: u8,
    pub program: bool,
    pub vertex_array: bool,
    pub vertex_shader: ShaderSlot,
    pub fragment_shader: ShaderSlot,
    /// The failure that ended construction, if any.
    pub failure: Option<VeilError>,
    /// Shutdown has been requested.
    pub retiring: bool,
}

/// The forward command at `step`, before the program is linked.
pub open spec fn forward_command(step: u8) -> PipelineCommand {
    if step == 0 {
        PipelineCommand::CreateProgram
    } else if step == 1 {
        PipelineCommand::CreateVertexArray
    } else if step == 2 {
        PipelineCommand::CreateShader(Stage::Vertex)
    } else if step == 3 {
        PipelineCommand::CompileShader(Stage::Vertex)
    } else if step == 4 {
        PipelineCommand::AttachShader(Stage::Vertex)
    } else if step == 5 {
        PipelineCommand::CreateShader(Stage::Fragment)
    } else if step == 6 {
        PipelineCommand::CompileShader(Stage::Fragment)
    } else if step == 7 {
        PipelineCommand::AttachShader(Stage::Fragment)
    } else {
        PipelineCommand::LinkProgram
    }
}

/// The slot of a stage whose shader is created at forward step `first`.
pub open spec fn slot_at(step: u8, first: u8) -> ShaderSlot {
    if step <= first {
        ShaderSlot::Absent
    } else if step <= first + 2 {
        ShaderSlot::Created
    } else {
        ShaderSlot::Attached
    }
}

pub open spec fn slot_weight(s: ShaderSlot) -> nat {
    match s {
        ShaderSlot::Absent => 0,
        ShaderSlot::Created => 1,
        ShaderSlot::Attached => 2,
    }
}

/// The resting states: `report` is not called in them.
pub open spec fn is_resting(c: PipelineCommand) -> bool {
    c is Ready || c is Failed || c is Retired
}

/// How the set of live GPU objects changes when `c` was performed, with
/// `ok` telling whether it succeeded.
pub open spec fn objects_after(before: Set<GpuObject>, c: PipelineCommand, ok: bool) -> Set<GpuObject> {
    match c {
        PipelineCommand::CreateProgram => if ok { before.insert(GpuObject::Program) } else { before },
        PipelineCommand::CreateVertexArray => if ok { before.insert(GpuObject::VertexArray) } else { before },
        PipelineCommand::CreateShader(s) => if ok { before.insert(GpuObject::Shader(s)) } else { before },
        PipelineCommand::DeleteShader(s) => before.remove(GpuObject::Shader(s)),
        PipelineCommand::DeleteVertexArray => before.remove(GpuObject::VertexArray),
        PipelineCommand::DeleteProgram => before.remove(GpuObject::Program),
        _ => before,
    }
}

/// The failure recorded when `c` ended with `outcome`: a failed allocation
/// names the object; a failed compile names the stage and carries a non-empty
/// diagnostic, the driver's own text whenever it gave one; a failed link
/// carries the driver's link log as it stands. Any other outcome leaves the
/// record as it was.
pub open spec fn failure_after(
    before: Option<VeilError>,
    after: Option<VeilError>,
    c: PipelineCommand,
    outcome: Result<(), String>,
) -> bool {
    match outcome {
        Ok(_) => after == before,
        Err(text) => match c {
            PipelineCommand::CreateProgram => after == Some(
                VeilError::ResourceCreation { object: GpuObject::Program, detail: text },
            ),
            PipelineCommand::CreateVertexArray => after == Some(
                VeilError::ResourceCreation { object: GpuObject::VertexArray, detail: text },
            ),
            PipelineCommand::CreateShader(s) => after == Some(
                VeilError::ResourceCreation { object: GpuObject::Shader(s), detail: text },
            ),
            PipelineCommand::CompileShader(s) => match after {
                Some(VeilError::ShaderCompile { stage, log }) => stage == s && is_diagnostic_of(
                    log@,
                    text@,
                ),
                _ => false,
            },
            PipelineCommand::LinkProgram => after == Some(VeilError::ProgramLink { log: text }),
            _ => after == before,
        },
    }
}

/// The pipeline after its current command ended, successfully or not as `ok`
/// says, with `failure` as the new failure record (see `failure_after`).
/// A successful forward step moves to the next one and records what it
/// created or attached; a failed one only records the failure; a release step
/// clears what it released.
pub open spec fn advanced(p: PipelineLifecycle, ok: bool, failure: Option<VeilError>) -> PipelineLifecycle {
    let q = PipelineLifecycle { failure, ..p };
    match p.next_command() {
        PipelineCommand::CreateProgram => if ok { PipelineLifecycle { step: 1, program: true, ..q } } else { q },
        PipelineCommand::CreateVertexArray => if ok {
            PipelineLifecycle { step: 2, vertex_array: true, ..q }
        } else {
            q
        },
        PipelineCommand::CreateShader(Stage::Vertex) => if ok {
            PipelineLifecycle { step: 3, vertex_shader: ShaderSlot::Created, ..q }
        } else {
            q
        },
        PipelineCommand::CreateShader(Stage::Fragment) => if ok {
            PipelineLifecycle { step: 6, fragment_shader: ShaderSlot::Created, ..q }
        } else {
            q
        },
        PipelineCommand::CompileShader(_) => if ok { PipelineLifecycle { step: (p.step + 1) as u8, ..q } } else { q },
        PipelineCommand::AttachShader(Stage::Vertex) => PipelineLifecycle {
            step: 5,
            vertex_shader: ShaderSlot::Attached,
            ..q
        },
        PipelineCommand::AttachShader(Stage::Fragment) => PipelineLifecycle {
            step: 8,
            fragment_shader: ShaderSlot::Attached,
            ..q
        },
        PipelineCommand::LinkProgram => if ok { PipelineLifecycle { step: LINKED, ..q } } else { q },
        PipelineCommand::DetachShader(Stage::Vertex) => PipelineLifecycle { vertex_shader: ShaderSlot::Created, ..q },
        PipelineCommand::DetachShader(Stage::Fragment) => PipelineLifecycle {
            fragment_shader: ShaderSlot::Created,
            ..q
        },
        PipelineCommand::DeleteShader(Stage::Vertex) => PipelineLifecycle { vertex_shader: ShaderSlot::Absent, ..q },
        PipelineCommand::DeleteShader(Stage::Fragment) => PipelineLifecycle {
            fragment_shader: ShaderSlot::Absent,
            ..q
        },
        PipelineCommand::DeleteVertexArray => PipelineLifecycle { vertex_array: false, ..q },
        PipelineCommand::DeleteProgram => PipelineLifecycle { program: false, ..q },
        _ => q,
    }
}

/// `log` is never empty, and is the driver's text whenever there is one.
pub open spec fn is_diagnostic_of(log: Seq<char>, driver: Seq<char>) -> bool {
    &&& log.len() > 0
    &&& driver.len() > 0 ==> log == driver
}

/// The driver's diagnostic, or a fixed text where it gave none.
fn diagnostic(driver: String) -> (log: String)
    ensures
        is_diagnostic_of(log@, driver@),
{
    if driver.as_str().is_empty() {
        proof {
            reveal_strlit("the driver reported no diagnostic");
        }
        String::from_str("the driver reported no diagnostic")
    } else {
        driver
    }
}

impl PipelineLifecycle {
    pub open spec fn slot(&self, s: Stage) -> ShaderSlot {
        match s {
            Stage::Vertex => self.vertex_shader,
            Stage::Fragment => self.fragment_shader,
        }
    }

    /// The GPU objects that have been created and not yet deleted.
    pub open spec fn live_objects(&self) -> Set<GpuObject> {
        Set::new(
            |o: GpuObject|
                match o {
                    GpuObject::Program => self.program,
                    GpuObject::VertexArray => self.vertex_array,
                    GpuObject::Shader(s) => self.slot(s) != ShaderSlot::Absent,
                },
        )
    }

    /// Construction is over (failed or linked) or shutdown was asked for:
    /// only releases remain.
    pub open spec fn releasing(&self) -> bool {
        self.failure is Some || self.step == LINKED || self.retiring
    }

    pub open spec fn release_command(&self) -> PipelineCommand {
        if self.vertex_shader == ShaderSlot::Attached {
            PipelineCommand::DetachShader(Stage::Vertex)
        } else if self.vertex_shader == ShaderSlot::Created {
            PipelineCommand::DeleteShader(Stage::Vertex)
        } else if self.fragment_shader == ShaderSlot::Attached {
            PipelineCommand::DetachShader(Stage::Fragment)
        } else if self.fragment_shader == ShaderSlot::Created {
            PipelineCommand::DeleteShader(Stage::Fragment)
        } else if self.failure is Some || self.retiring {
            if self.vertex_array {
                PipelineCommand::DeleteVertexArray
            } else if self.program {
                PipelineCommand::DeleteProgram
            } else if self.failure is Some {
                PipelineCommand::Failed
            } else {
                PipelineCommand::Retired
            }
        } else {
            PipelineCommand::Ready
        }
    }

    pub open spec fn next_command(&self) -> PipelineCommand {
        if self.releasing() {
            self.release_command()
        } else {
            forward_command(self.step)
        }
    }

    /// Decreases with every report, so the executor's loop ends.
    pub open spec fn measure(&self) -> nat {
        (if self.program { 1nat } else { 0nat }) + (if self.vertex_array { 1nat } else { 0nat })
            + slot_weight(self.vertex_shader) + slot_weight(self.fragment_shader) + (if self.releasing() {
            0nat
        } else {
            (30 + 3 * (LINKED - self.step)) as nat
        })
    }

    pub open spec fn wf(&self) -> bool {
        &&& self.step <= LINKED
        &&& self.retiring ==> {
            &&& self.step == LINKED
            &&& self.failure is None
            &&& self.vertex_shader == ShaderSlot::Absent
            &&& self.fragment_shader == ShaderSlot::Absent
        }
        &&& self.program ==> self.step >= 1
        &&& self.vertex_array ==> self.step >= 2
        &&& self.vertex_shader != ShaderSlot::Absent ==> self.step >= 3
        &&& self.fragment_shader != ShaderSlot::Absent ==> self.step >= 6
        &&& !self.releasing() ==> {
            &&& self.program == (self.step >= 1)
            &&& self.vertex_array == (self.step >= 2)
            &&& self.vertex_shader == slot_at(self.step, 2)
            &&& self.fragment_shader == slot_at(self.step, 5)
        }
        &&& (self.step == LINKED && self.failure is None && !self.retiring) ==> {
            &&& self.program
            &&& self.vertex_array
        }
    }

    /// A pipeline about to be built: nothing exists yet.
    pub fn new() -> (r: PipelineLifecycle)
        ensures
            r.wf(),
            r.live_objects() == Set::<GpuObject>::empty(),
            r.failure is None,
            r.next_command() == PipelineCommand::CreateProgram,
    {
        let r = PipelineLifecycle {
            step: 0,
            program: false,
            vertex_array: false,
            vertex_shader: ShaderSlot::Absent,
            fragment_shader: ShaderSlot::Absent,
            failure: None,
            retiring: false,
        };
        assert(r.live_objects() =~= Set::<GpuObject>::empty());
        r
    }

    /// The operation to perform next.
    pub fn command(&self) -> (c: PipelineCommand)
        ensures
            c == self.next_command(),
    {
        if self.failure.is_some() || self.step == LINKED || self.retiring {
            if self.vertex_shader == ShaderSlot::Attached {
                PipelineCommand::DetachShader(Stage::Vertex)
            } else if self.vertex_shader == ShaderSlot::Created {
                PipelineCommand::DeleteShader(Stage::Vertex)
            } else if self.fragment_shader == ShaderSlot::Attached {
                PipelineCommand::DetachShader(Stage::Fragment)
            } else if self.fragment_shader == ShaderSlot::Created {
                PipelineCommand::DeleteShader(Stage::Fragment)
            } else if self.failure.is_some() || self.retiring {
                if self.vertex_array {
                    PipelineCommand::DeleteVertexArray
                } else if self.program {
                    PipelineCommand::DeleteProgram
                } else if self.failure.is_some() {
                    PipelineCommand::Failed
                } else {
                    PipelineCommand::Retired
                }
            } else {
                PipelineCommand::Ready
            }
        } else if self.step == 0 {
            PipelineCommand::CreateProgram
        } else if self.step == 1 {
            PipelineCommand::CreateVertexArray
        } else if self.step == 2 {
            PipelineCommand::CreateShader(Stage::Vertex)
        } else if self.step == 3 {
            PipelineCommand::CompileShader(Stage::Vertex)
        } else if self.step == 4 {
            PipelineCommand::AttachShader(Stage::Vertex)
        } else if self.step == 5 {
            PipelineCommand::CreateShader(Stage::Fragment)
        } else if self.step == 6 {
            PipelineCommand::CompileShader(Stage::Fragment)
        } else if self.step == 7 {
            PipelineCommand::AttachShader(Stage::Fragment)
        } else {
            PipelineCommand::LinkProgram
        }
    }
    /// Records the outcome of the command that `command` returned. Creation,
    /// compilation and linking can fail; a failure ends construction, and the
    /// pipeline then releases what it created. The other operations cannot
    /// fail and their outcome is disregarded.
    pub fn report(&mut self, outcome: Result<(), String>)
        requires
            old(self).wf(),
            !is_resting(old(self).next_command()),
        ensures
            final(self).wf(),
            final(self).measure() < old(self).measure(),
            final(self).live_objects() == objects_after(
                old(self).live_objects(),
                old(self).next_command(),
                outcome is Ok,
            ),
            failure_after(old(self).failure, final(self).failure, old(self).next_command(), outcome),
            *final(self) == advanced(*old(self), outcome is Ok, final(self).failure),
    {
        let c = self.command();
        let ghost before = self.live_objects();
        match c {
            PipelineCommand::CreateProgram => match outcome {
                Ok(_) => {
                    self.program = true;
                    self.step = 1;
                },
                Err(detail) => {
                    self.failure = Some(
                        VeilError::ResourceCreation { object: GpuObject::Program, detail },
                    );
                },
            },
            PipelineCommand::CreateVertexArray => match outcome {
                Ok(_) => {
                    self.vertex_array = true;
                    self.step = 2;
                },
                Err(detail) => {
                    self.failure = Some(
                        VeilError::ResourceCreation { object: GpuObject::VertexArray, detail },
                    );
                },
            },
            PipelineCommand::CreateShader(stage) => match outcome {
                Ok(_) => {
                    match stage {
                        Stage::Vertex => self.vertex_shader = ShaderSlot::Created,
                        Stage::Fragment => self.fragment_shader = ShaderSlot::Created,
                    }
                    self.step = self.step + 1;
                },
                Err(detail) => {
                    self.failure = Some(
                        VeilError::ResourceCreation { object: GpuObject::Shader(stage), detail },
                    );
                },
            },
            PipelineCommand::CompileShader(stage) => match outcome {
                Ok(_) => {
                    self.step = self.step + 1;
                },
                Err(text) => {
                    let log = diagnostic(text);
                    self.failure = Some(VeilError::ShaderCompile { stage, log });
                },
            },
            PipelineCommand::AttachShader(stage) => {
                match stage {
                    Stage::Vertex => self.vertex_shader = ShaderSlot::Attached,
                    Stage::Fragment => self.fragment_shader = ShaderSlot::Attached,
                }
                self.step = self.step + 1;
            },
            PipelineCommand::LinkProgram => match outcome {
                Ok(_) => {
                    self.step = LINKED;
                },
                Err(log) => {
                    self.failure = Some(VeilError::ProgramLink { log });
                },
            },
            PipelineCommand::DetachShader(stage) => match stage {
                Stage::Vertex => self.vertex_shader = ShaderSlot::Created,
                Stage::Fragment => self.fragment_shader = ShaderSlot::Created,
            },
            PipelineCommand::DeleteShader(stage) => match stage {
                Stage::Vertex => self.vertex_shader = ShaderSlot::Absent,
                Stage::Fragment => self.fragment_shader = ShaderSlot::Absent,
            },
            PipelineCommand::DeleteVertexArray => {
                self.vertex_array = false;
            },
            PipelineCommand::DeleteProgram => {
                self.program = false;
            },
            _ => {},
        }
        assert(self.live_objects() =~= objects_after(before, c, outcome is Ok));
    }

    /// Starts the release of a built pipeline: the vertex array and the
    /// program are deleted next, after which the pipeline is inert.
    pub fn shutdown(&mut self)
        requires
            old(self).wf(),
            old(self).next_command() == PipelineCommand::Ready,
        ensures
            final(self).wf(),
            final(self).live_objects() == old(self).live_objects(),
            final(self).failure is None,
            final(self).next_command() == PipelineCommand::DeleteVertexArray,
            *final(self) == (PipelineLifecycle { retiring: true, ..*old(self) }),
    {
        self.retiring = true;
        assert(self.live_objects() =~= old(self).live_objects());
    }

    /// The failure that ended construction, handed on once the pipeline has
    /// released everything it created.
    pub fn into_error(self) -> (e: Option<VeilError>)
        ensures
            e == self.failure,
    {
        self.failure
    }
}

/// At rest no shader stage object is ever live: it is released whether
/// compilation failed, linking failed, or linking succeeded. A built pipeline
/// holds exactly its program and vertex array; a failed or retired one holds
/// nothing, so building and destroying pipelines never grows the set of live
/// GPU objects.
pub proof fn lemma_no_leak_at_rest(p: PipelineLifecycle)
    requires
        p.wf(),
        is_resting(p.next_command()),
    ensures
        forall|s: Stage| !p.live_objects().contains(GpuObject::Shader(s)),
        p.next_command() is Ready ==> p.live_objects() == set![GpuObject::Program, GpuObject::VertexArray]
            && p.failure is None,
        p.next_command() is Failed ==> p.live_objects() == Set::<GpuObject>::empty()
            && p.failure is Some,
        p.next_command() is Retired ==> p.live_objects() == Set::<GpuObject>::empty(),
{
    if p.next_command() is Ready {
        assert(p.live_objects() =~= set![GpuObject::Program, GpuObject::VertexArray]);
    }
    if !(p.next_command() is Ready) {
        assert(p.live_objects() =~= Set::<GpuObject>::empty());
    }
}

/// Once construction has failed the recorded failure is kept while the
/// pipeline releases what it created, so the error that reaches the caller is
/// the one that ended construction.
pub proof fn lemma_failure_is_kept(
    p: PipelineLifecycle,
    q: PipelineLifecycle,
    outcome: Result<(), String>,
)
    requires
        p.wf(),
        !is_resting(p.next_command()),
        p.failure is Some,
        failure_after(p.failure, q.failure, p.next_command(), outcome),
    ensures
        q.failure == p.failure,
{
}

/// The pipeline after up to `n` release steps, each performed as asked.
pub open spec fn release_run(p: PipelineLifecycle, n: nat) -> PipelineLifecycle
    decreases n,
{
    if n == 0 || is_resting(p.next_command()) {
        p
    } else {
        release_run(advanced(p, true, p.failure), (n - 1) as nat)
    }
}

proof fn lemma_release_run(p: PipelineLifecycle, n: nat)
    requires
        p.wf(),
        p.releasing(),
        n >= p.measure(),
    ensures
        release_run(p, n).wf(),
        is_resting(release_run(p, n).next_command()),
        release_run(p, n).failure == p.failure,
        release_run(p, n).retiring == p.retiring,
    decreases n,
{
    if n > 0 && !is_resting(p.next_command()) {
        let q = advanced(p, true, p.failure);
        assert(q.wf());
        assert(q.measure() < p.measure());
        lemma_release_run(q, (n - 1) as nat);
    }
}

/// A failed compile of either stage, or a failed link after both compiled,
/// ends construction with `ShaderCompile`, which names the stage and carries a
/// non-empty diagnostic that is the driver's own text whenever it gave one, or
/// with `ProgramLink`, which carries the driver's link log. The releases that follow, at most six, bring the pipeline to rest
/// as failed with no GPU object live, and the error unchanged.
pub proof fn lemma_failed_build_leaks_nothing(p: PipelineLifecycle, failure: Option<VeilError>, text: String)
    requires
        p.wf(),
        p.next_command() is CompileShader || p.next_command() is LinkProgram,
        failure_after(p.failure, failure, p.next_command(), Err(text)),
    ensures
        ({
            let r = release_run(advanced(p, false, failure), 6);
            &&& r.next_command() is Failed
            &&& r.live_objects() == Set::<GpuObject>::empty()
            &&& r.failure == failure
        }),
        match p.next_command() {
            PipelineCommand::CompileShader(s) => match failure {
                Some(VeilError::ShaderCompile { stage, log }) => stage == s && log@.len() > 0
                    && (text@.len() > 0 ==> log@ == text@),
                _ => false,
            },
            _ => failure == Some(VeilError::ProgramLink { log: text }),
        },
{
    let q = advanced(p, false, failure);
    assert(q.wf());
    lemma_release_run(q, 6);
    lemma_no_leak_at_rest(release_run(q, 6));
}

/// Shutting down a built pipeline releases its vertex array and program, and
/// leaves it retired with no GPU object live: a build followed by a shutdown
/// returns the set of live objects to where it started.
pub proof fn lemma_shutdown_leaks_nothing(p: PipelineLifecycle)
    requires
        p.wf(),
        p.next_command() is Ready,
    ensures
        ({
            let r = release_run(PipelineLifecycle { retiring: true, ..p }, 6);
            &&& r.next_command() is Retired
            &&& r.live_objects() == Set::<GpuObject>::empty()
        }),
{
    let q = PipelineLifecycle { retiring: true, ..p };
    assert(q.wf());
    lemma_release_run(q, 6);
    lemma_no_leak_at_rest(release_run(q, 6));
}

} // verus!
