//! Building a shader or a program, one driver call at a time.
//!
//! A `Build` holds what is being built and how far the work has come. It
//! names the next call to make on the driver (`request`), takes the driver's
//! answer (`advance`), and ends with the object accepted or with the
//! driver's diagnostic. The status of an object is read only after it has
//! been compiled or linked, and its log is fetched only when it was refused.

use vstd::prelude::*;
use vstd::utf8::{decode_utf8, valid_utf8};
use crate::driver::{
    blanks, reports_success, Kind, Reply, ReplyModel, Request, RequestModel, BLANK,
    COMPILE_STATUS, INFO_LOG_LENGTH, LINK_STATUS, TRUE,
};
use crate::text::{decode_lossy, lossy_text};
use crate::types::{GLboolean, GLenum, GLint, GLuint, Program, Shader};

verus! {

/// What is being built.
pub enum Target {
    /// A shader of type `shader_type` from the one source string `source`.
    Shader { shader_type: GLenum, source: Vec<u8> },
    /// A program that links the named shaders, attached in this order.
    Program { shaders: Vec<GLuint> },
}

/// What a `Target` is as a mathematical value.
pub enum TargetModel {
    Shader { shader_type: GLenum, source: Seq<u8> },
    Program { shaders: Seq<GLuint> },
}

impl View for Target {
    type V = TargetModel;

    open spec fn view(&self) -> TargetModel {
        match *self {
            Target::Shader { shader_type, source } => TargetModel::Shader {
                shader_type,
                source: source@,
            },
            Target::Program { shaders } => TargetModel::Program { shaders: shaders@ },
        }
    }
}

impl TargetModel {
    /// The kind of object that comes out.
    pub open spec fn kind(self) -> Kind {
        match self {
            TargetModel::Shader { .. } => Kind::Shader,
            TargetModel::Program { .. } => Kind::Program,
        }
    }

    /// The call that creates the object.
    pub open spec fn creation(self) -> RequestModel {
        match self {
            TargetModel::Shader { shader_type, .. } => RequestModel::CreateShader { shader_type },
            TargetModel::Program { .. } => RequestModel::CreateProgram,
        }
    }

    /// The calls that follow creation and precede the status check, in
    /// order. A shader is given its source and compiled; a program has each
    /// shader attached and is then linked.
    pub open spec fn script(self, object: GLuint) -> Seq<RequestModel> {
        match self {
            TargetModel::Shader { source, .. } => seq![
                RequestModel::ShaderSource { shader: object, source },
                RequestModel::CompileShader { shader: object },
            ],
            TargetModel::Program { shaders } => Seq::new(
                shaders.len(),
                |i: int| RequestModel::AttachShader { program: object, shader: shaders[i] },
            ).push(RequestModel::LinkProgram { program: object }),
        }
    }

    /// The parameter that tells whether the object was accepted.
    pub open spec fn status_parameter(self) -> GLenum {
        match self {
            TargetModel::Shader { .. } => COMPILE_STATUS,
            TargetModel::Program { .. } => LINK_STATUS,
        }
    }
}

/// How far a build has come.
pub enum Stage {
    /// Nothing was asked yet: the object is to be created.
    Create,
    /// The object exists; `done` calls of its script have been made.
    Setup { object: GLuint, done: usize },
    /// The script is through; the status parameter is to be read.
    Status { object: GLuint },
    /// The object was refused; the length of its log is to be read.
    LogLength { object: GLuint },
    /// The log, `len` bytes long, is to be read.
    Log { object: GLuint, len: usize },
    /// The driver accepted the object.
    Accepted { object: GLuint },
    /// The driver refused the object and gave `log` as its reason.
    Refused { log: String },
}

/// What a `Stage` is as a mathematical value.
pub enum StageModel {
    Create,
    Setup { object: GLuint, done: nat },
    Status { object: GLuint },
    LogLength { object: GLuint },
    Log { object: GLuint, len: nat },
    Accepted { object: GLuint },
    Refused { log: Seq<char> },
}

impl View for Stage {
    type V = StageModel;

    open spec fn view(&self) -> StageModel {
        match *self {
            Stage::Create => StageModel::Create,
            Stage::Setup { object, done } => StageModel::Setup { object, done: done as nat },
            Stage::Status { object } => StageModel::Status { object },
            Stage::LogLength { object } => StageModel::LogLength { object },
            Stage::Log { object, len } => StageModel::Log { object, len: len as nat },
            Stage::Accepted { object } => StageModel::Accepted { object },
            Stage::Refused { log } => StageModel::Refused { log: log@ },
        }
    }
}

/// What a `Build` is as a mathematical value: the target and the stage.
pub struct BuildModel {
    pub target: TargetModel,
    pub stage: StageModel,
}

impl BuildModel {
    /// A build of `target` of which nothing has been asked yet.
    pub open spec fn start(target: TargetModel) -> BuildModel {
        BuildModel { target, stage: StageModel::Create }
    }

    /// While the script runs, the count of calls made stays below its length.
    pub open spec fn wf(self) -> bool {
        self.stage matches StageModel::Setup { object, done } ==> done < self.target.script(
            object,
        ).len()
    }

    /// The call to make next, or `None` once the build has ended.
    pub open spec fn request(self) -> Option<RequestModel> {
        match self.stage {
            StageModel::Create => Some(self.target.creation()),
            StageModel::Setup { object, done } => Some(self.target.script(object)[done as int]),
            StageModel::Status { object } => Some(
                RequestModel::GetParameter {
                    kind: self.target.kind(),
                    object,
                    pname: self.target.status_parameter(),
                },
            ),
            StageModel::LogLength { object } => Some(
                RequestModel::GetParameter {
                    kind: self.target.kind(),
                    object,
                    pname: INFO_LOG_LENGTH,
                },
            ),
            StageModel::Log { object, len } => Some(
                RequestModel::GetInfoLog {
                    kind: self.target.kind(),
                    object,
                    buffer: blanks(len),
                },
            ),
            StageModel::Accepted { .. } | StageModel::Refused { .. } => None,
        }
    }

    /// Whether `reply` answers the call that was asked for. A parameter that
    /// still holds `-1` was not written by the driver, and a log cannot have
    /// a negative length: neither is an answer.
    pub open spec fn accepts(self, reply: ReplyModel) -> bool {
        match (self.stage, reply) {
            (StageModel::Create, ReplyModel::Object(_)) => true,
            (StageModel::Setup { .. }, ReplyModel::Done) => true,
            (StageModel::Status { .. }, ReplyModel::Parameter(status)) => status != -1,
            (StageModel::LogLength { .. }, ReplyModel::Parameter(len)) => len >= 0,
            (StageModel::Log { .. }, ReplyModel::InfoLog(_)) => true,
            _ => false,
        }
    }

    /// The stage that `reply` leads to.
    pub open spec fn next_stage(self, reply: ReplyModel) -> StageModel
        recommends
            self.accepts(reply),
    {
        match (self.stage, reply) {
            (StageModel::Create, ReplyModel::Object(object)) => StageModel::Setup {
                object,
                done: 0,
            },
            (StageModel::Setup { object, done }, ReplyModel::Done) => {
                if done + 1 < self.target.script(object).len() {
                    StageModel::Setup { object, done: done + 1 }
                } else {
                    StageModel::Status { object }
                }
            },
            (StageModel::Status { object }, ReplyModel::Parameter(status)) => {
                if reports_success(status as int) {
                    StageModel::Accepted { object }
                } else {
                    StageModel::LogLength { object }
                }
            },
            (StageModel::LogLength { object }, ReplyModel::Parameter(len)) => StageModel::Log {
                object,
                len: len as nat,
            },
            (StageModel::Log { .. }, ReplyModel::InfoLog(buffer)) => StageModel::Refused {
                log: lossy_text(buffer),
            },
            _ => self.stage,
        }
    }

    /// The build after `reply`.
    pub open spec fn next(self, reply: ReplyModel) -> BuildModel
        recommends
            self.accepts(reply),
    {
        BuildModel { target: self.target, stage: self.next_stage(reply) }
    }

    /// How the build ended: the object's name, or the driver's diagnostic;
    /// `None` while it is still under way.
    pub open spec fn outcome(self) -> Option<Result<GLuint, Seq<char>>> {
        match self.stage {
            StageModel::Accepted { object } => Some(Ok(object)),
            StageModel::Refused { log } => Some(Err(log)),
            _ => None,
        }
    }
}

impl BuildModel {
    /// The build after `count` calls that returned nothing.
    pub open spec fn after_calls(self, count: nat) -> BuildModel
        decreases count,
    {
        if count == 0 {
            self
        } else {
            self.after_calls((count - 1) as nat).next(ReplyModel::Done)
        }
    }
}

/// An answer that is accepted leaves the build well-formed.
pub proof fn lemma_next_keeps_wf(build: BuildModel, reply: ReplyModel)
    requires
        build.wf(),
        build.accepts(reply),
    ensures
        build.next(reply).wf(),
{
}

/// Once the object `object` exists, the calls asked for are those of the
/// target's script, each in its place, and the status parameter is asked for
/// when the whole script has been run and not before. So a shader is
/// compiled, and a program has every shader attached and is linked, before
/// its status is read.
pub proof fn lemma_script_runs_in_order(target: TargetModel, object: GLuint, count: nat)
    requires
        count <= target.script(object).len(),
    ensures
        ({
            let created = BuildModel::start(target).next(ReplyModel::Object(object));
            let build = created.after_calls(count);
            &&& build.wf()
            &&& build.target == target
            &&& count < target.script(object).len() ==> {
                &&& build.stage == StageModel::Setup { object, done: count }
                &&& build.request() == Some(target.script(object)[count as int])
                &&& build.accepts(ReplyModel::Done)
            }
            &&& count == target.script(object).len() ==> {
                &&& build.stage == StageModel::Status { object }
                &&& build.request() == Some(
                    RequestModel::GetParameter {
                        kind: target.kind(),
                        object,
                        pname: target.status_parameter(),
                    },
                )
            }
        }),
    decreases count,
{
    if count > 0 {
        lemma_script_runs_in_order(target, object, (count - 1) as nat);
    }
}

/// The script of a program attaches each shader, in the order given, and
/// links last.
pub proof fn lemma_program_links_last(shaders: Seq<GLuint>, object: GLuint)
    ensures
        ({
            let script = (TargetModel::Program { shaders }).script(object);
            &&& script.len() == shaders.len() + 1
            &&& forall|i: int|
                0 <= i < shaders.len() ==> #[trigger] script[i] == (RequestModel::AttachShader {
                    program: object,
                    shader: shaders[i],
                })
            &&& script.last() == (RequestModel::LinkProgram { program: object })
        }),
{
}

/// A status that reports success ends the build with the object accepted.
/// Any other status leads to the log: its length is asked for, then the log
/// itself in a buffer of that many blanks, and the build ends refused with
/// the text of what the driver wrote.
pub proof fn lemma_status_decides(
    target: TargetModel,
    object: GLuint,
    status: GLint,
    len: GLint,
    log: Seq<u8>,
)
    requires
        status != -1,
        len >= 0,
    ensures
        ({
            let checking = BuildModel { target, stage: StageModel::Status { object } };
            let checked = checking.next(ReplyModel::Parameter(status));
            let sized = checked.next(ReplyModel::Parameter(len));
            let ended = sized.next(ReplyModel::InfoLog(log));
            &&& checking.accepts(ReplyModel::Parameter(status))
            &&& reports_success(status as int) ==> checked.outcome() == Some(
                Ok::<GLuint, Seq<char>>(object),
            )
            &&& !reports_success(status as int) ==> {
                &&& checked.request() == Some(
                    RequestModel::GetParameter {
                        kind: target.kind(),
                        object,
                        pname: INFO_LOG_LENGTH,
                    },
                )
                &&& checked.accepts(ReplyModel::Parameter(len))
                &&& sized.request() == Some(
                    RequestModel::GetInfoLog {
                        kind: target.kind(),
                        object,
                        buffer: blanks(len as nat),
                    },
                )
                &&& sized.accepts(ReplyModel::InfoLog(log))
                &&& ended.outcome() == Some(Err::<GLuint, Seq<char>>(lossy_text(log)))
            }
        }),
{
}

/// A build that has ended asks for nothing and takes no answer; one that
/// has not ended asks for a call.
pub proof fn lemma_ended_is_final(build: BuildModel, reply: ReplyModel)
    ensures
        build.outcome() is Some <==> build.request() is None,
        build.outcome() is Some ==> !build.accepts(reply),
{
}

/// A shader or a program under construction.
pub struct Build {
    target: Target,
    stage: Stage,
}

impl View for Build {
    type V = BuildModel;

    closed spec fn view(&self) -> BuildModel {
        BuildModel { target: self.target@, stage: self.stage@ }
    }
}

impl Build {
    #[verifier::type_invariant]
    spec fn inv(&self) -> bool {
        self@.wf()
    }

    /// A build of `target` of which nothing has been asked yet.
    pub(crate) fn new(target: Target) -> (build: Build)
        ensures
            build@ == BuildModel::start(target@),
    {
        Build { target, stage: Stage::Create }
    }

    /// The kind of object that this build makes.
    pub fn kind(&self) -> (kind: Kind)
        ensures
            kind == self@.target.kind(),
    {
        match &self.target {
            Target::Shader { .. } => Kind::Shader,
            Target::Program { .. } => Kind::Program,
        }
    }

    /// The call to make on the driver next, or `None` once the build has
    /// ended.
    pub fn request(&self) -> (request: Option<Request>)
        ensures
            self@.wf(),
            match request {
                Some(q) => self@.request() == Some(q@),
                None => self@.request() is None,
            },
    {
        proof {
            use_type_invariant(self);
        }
        let kind = self.kind();
        match &self.stage {
            Stage::Create => match &self.target {
                Target::Shader { shader_type, .. } => Some(
                    Request::CreateShader { shader_type: *shader_type },
                ),
                Target::Program { .. } => Some(Request::CreateProgram),
            },
            Stage::Setup { object, done } => match &self.target {
                Target::Shader { source, .. } => {
                    if *done == 0 {
                        let copy = source.clone();
                        assert(copy@ =~= source@);
                        Some(Request::ShaderSource { shader: *object, source: copy })
                    } else {
                        Some(Request::CompileShader { shader: *object })
                    }
                },
                Target::Program { shaders } => {
                    if *done < shaders.len() {
                        Some(Request::AttachShader { program: *object, shader: shaders[*done] })
                    } else {
                        Some(Request::LinkProgram { program: *object })
                    }
                },
            },
            Stage::Status { object } => {
                let pname = match kind {
                    Kind::Shader => COMPILE_STATUS,
                    Kind::Program => LINK_STATUS,
                };
                Some(Request::GetParameter { kind, object: *object, pname })
            },
            Stage::LogLength { object } => Some(
                Request::GetParameter { kind, object: *object, pname: INFO_LOG_LENGTH },
            ),
            Stage::Log { object, len } => {
                let buffer = vec![BLANK; *len];
                assert(buffer@ =~= blanks(*len as nat));
                Some(Request::GetInfoLog { kind, object: *object, buffer })
            },
            Stage::Accepted { .. } => None,
            Stage::Refused { .. } => None,
        }
    }

    /// Whether `reply` answers the call that `request` names. `advance`
    /// takes no other reply.
    pub fn accepts(&self, reply: &Reply) -> (ok: bool)
        ensures
            ok == self@.accepts(reply@),
    {
        match (&self.stage, reply) {
            (Stage::Create, Reply::Object(_)) => true,
            (Stage::Setup { .. }, Reply::Done) => true,
            (Stage::Status { .. }, Reply::Parameter(status)) => *status != -1,
            (Stage::LogLength { .. }, Reply::Parameter(len)) => *len >= 0,
            (Stage::Log { .. }, Reply::InfoLog(_)) => true,
            _ => false,
        }
    }

    /// Takes the driver's answer to the call that `request` named and moves
    /// on: through the script, then to the status check, and from a refusal
    /// to the log. A log that is valid UTF-8 comes out as the text it
    /// encodes.
    pub fn advance(self, reply: Reply) -> (build: Build)
        requires
            self@.accepts(reply@),
        ensures
            build@ == self@.next(reply@),
            build@.wf(),
            self@.stage is Log ==> (reply@ matches ReplyModel::InfoLog(buffer) && (valid_utf8(
                buffer,
            ) ==> build@.stage == StageModel::Refused { log: decode_utf8(buffer) })),
    {
        proof {
            use_type_invariant(&self);
        }
        let Build { target, stage } = self;
        let stage = match (stage, reply) {
            (Stage::Create, Reply::Object(object)) => Stage::Setup { object, done: 0 },
            (Stage::Setup { object, done }, Reply::Done) => {
                let last = match &target {
                    Target::Shader { .. } => done != 0,
                    Target::Program { shaders } => done >= shaders.len(),
                };
                if last {
                    Stage::Status { object }
                } else {
                    Stage::Setup { object, done: done + 1 }
                }
            },
            (Stage::Status { object }, Reply::Parameter(status)) => {
                if status_is_true(status) {
                    Stage::Accepted { object }
                } else {
                    Stage::LogLength { object }
                }
            },
            (Stage::LogLength { object }, Reply::Parameter(len)) => Stage::Log {
                object,
                len: len as usize,
            },
            (Stage::Log { .. }, Reply::InfoLog(buffer)) => Stage::Refused {
                log: decode_lossy(buffer.as_slice()),
            },
            (stage, _) => stage,
        };
        Build { target, stage }
    }

    /// The shader that was built, or the driver's diagnostic; `None` while
    /// the build is under way, and for the build of a program.
    pub fn shader(self) -> (outcome: Option<Result<Shader, String>>)
        ensures
            match outcome {
                Some(Ok(shader)) => self@.target.kind() == Kind::Shader && self@.outcome() == Some(
                    Ok::<GLuint, Seq<char>>(shader@),
                ),
                Some(Err(log)) => self@.target.kind() == Kind::Shader && self@.outcome() == Some(
                    Err::<GLuint, Seq<char>>(log@),
                ),
                None => self@.target.kind() != Kind::Shader || self@.outcome() is None,
            },
    {
        match (self.target, self.stage) {
            (Target::Shader { .. }, Stage::Accepted { object }) => Some(
                Ok(Shader::accepted(object)),
            ),
            (Target::Shader { .. }, Stage::Refused { log }) => Some(Err(log)),
            _ => None,
        }
    }

    /// The program that was built, or the driver's diagnostic; `None` while
    /// the build is under way, and for the build of a shader.
    pub fn program(self) -> (outcome: Option<Result<Program, String>>)
        ensures
            match outcome {
                Some(Ok(program)) => self@.target.kind() == Kind::Program && self@.outcome()
                    == Some(Ok::<GLuint, Seq<char>>(program@)),
                Some(Err(log)) => self@.target.kind() == Kind::Program && self@.outcome() == Some(
                    Err::<GLuint, Seq<char>>(log@),
                ),
                None => self@.target.kind() != Kind::Program || self@.outcome() is None,
            },
    {
        match (self.target, self.stage) {
            (Target::Program { .. }, Stage::Accepted { object }) => Some(
                Ok(Program::accepted(object)),
            ),
            (Target::Program { .. }, Stage::Refused { log }) => Some(Err(log)),
            _ => None,
        }
    }

    /// Whether the build has ended, in either way.
    pub fn is_finished(&self) -> (finished: bool)
        ensures
            finished == self@.outcome().is_some(),
            finished == self@.request().is_none(),
    {
        match &self.stage {
            Stage::Accepted { .. } => true,
            Stage::Refused { .. } => true,
            _ => false,
        }
    }
}

/// Whether a status parameter, narrowed to the driver's boolean, is `TRUE`.
pub fn status_is_true(status: GLint) -> (yes: bool)
    ensures
        yes == reports_success(status as int),
{
    assert((status as u8 == 1u8) == ((status as int) % 256 == 1)) by (bit_vector);
    #[verifier::truncate]
    let flag = status as GLboolean;
    flag == TRUE
}

} // verus!
