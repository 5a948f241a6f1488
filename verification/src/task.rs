use vstd::prelude::*;
use vstd::utf8::{decode_utf8, encode_utf8, encode_utf8_decode_utf8, encode_utf8_valid_utf8, valid_utf8};
use crate::checks::{
    check_shared_read, check_task_read, lossy_text, utf8_error_text, mismatch_message, shared_read_verdict, starts_with,
    task_read_verdict,
};
use crate::decimal::decimal;
use crate::names::{
    ops_base_path, ops_dir_path, ops_file_content, ops_file_path, race_content, race_file_path,
    race_padding, shared_content, shared_file_path, spec_ops_base_path, spec_ops_dir_path,
    spec_ops_file_path, spec_race_content, spec_race_padding, spec_shared_content, spec_task_base_path,
    spec_task_content, spec_task_file_path, task_base_path, task_content, task_file_path, two_numbers,
};

verus! {

// ---------------------------------------------------------------------------
// The tasks, the operations they ask for and what comes back
// ---------------------------------------------------------------------------

/// The four kinds of stress task that run many at a time.
#[derive(Clone, Copy, Debug, PartialEq, Eq, Structural)]
pub enum TaskKind {
    /// Each task writes and reads back files of its own.
    IndependentFiles,
    /// All tasks write and read one shared file.
    SharedFile,
    /// Each task creates, fills and removes directories and files of its own.
    FsOps,
    /// All tasks write, read and remove one file at the same time.
    RaceCondition,
}

/// A file-system operation that a task asks its driver to perform, or the
/// task's end with its result.
pub enum FsOp {
    CreateDirAll(String),
    Write(String, String),
    Read(String),
    RemoveFile(String),
    RemoveDir(String),
    /// A write and a read of the same file, started together.
    WriteAndRead(String, String),
    Finish(Result<(), String>),
}

/// What came of the operation that a task asked for last.
pub enum OpOutcome {
    /// It succeeded and returned nothing.
    Completed,
    /// A read succeeded with these bytes.
    Bytes(Vec<u8>),
    /// It failed; the error's text.
    Failed(String),
}

/// An `FsOp` with its strings taken as character sequences.
pub enum FsOpView {
    CreateDirAll(Seq<char>),
    Write(Seq<char>, Seq<char>),
    Read(Seq<char>),
    RemoveFile(Seq<char>),
    RemoveDir(Seq<char>),
    WriteAndRead(Seq<char>, Seq<char>),
    Finish(Result<(), Seq<char>>),
}

/// An `OpOutcome` with its data taken as sequences.
pub enum OutcomeView {
    Completed,
    Bytes(Seq<u8>),
    Failed(Seq<char>),
}

impl View for FsOp {
    type V = FsOpView;

    open spec fn view(&self) -> FsOpView {
        match self {
            FsOp::CreateDirAll(p) => FsOpView::CreateDirAll(p@),
            FsOp::Write(p, c) => FsOpView::Write(p@, c@),
            FsOp::Read(p) => FsOpView::Read(p@),
            FsOp::RemoveFile(p) => FsOpView::RemoveFile(p@),
            FsOp::RemoveDir(p) => FsOpView::RemoveDir(p@),
            FsOp::WriteAndRead(p, c) => FsOpView::WriteAndRead(p@, c@),
            FsOp::Finish(Ok(())) => FsOpView::Finish(Ok(())),
            FsOp::Finish(Err(m)) => FsOpView::Finish(Err(m@)),
        }
    }
}

impl View for OpOutcome {
    type V = OutcomeView;

    open spec fn view(&self) -> OutcomeView {
        match self {
            OpOutcome::Completed => OutcomeView::Completed,
            OpOutcome::Bytes(b) => OutcomeView::Bytes(b@),
            OpOutcome::Failed(m) => OutcomeView::Failed(m@),
        }
    }
}

// ---------------------------------------------------------------------------
// The script of each kind of task
// ---------------------------------------------------------------------------

/// Where a task stands in its script.
pub enum Pos {
    /// The preparatory operation before the first iteration.
    Setup,
    /// Operation `step` of iteration `i`.
    At(nat, nat),
    /// The task has finished.
    End,
}

/// The abstract state of a task.
pub struct TaskModel {
    pub kind: TaskKind,
    pub id: nat,
    pub iterations: nat,
    pub pos: Pos,
}

/// Whether the kind of task prepares a directory before its first iteration.
pub open spec fn has_setup(kind: TaskKind) -> bool {
    kind == TaskKind::IndependentFiles || kind == TaskKind::FsOps
}

/// The number of operations in each iteration of the kind of task.
pub open spec fn per_iteration(kind: TaskKind) -> nat {
    if kind == TaskKind::FsOps {
        4
    } else {
        2
    }
}

/// Where a task of `iterations` iterations begins.
pub open spec fn first_pos(kind: TaskKind, iterations: nat) -> Pos {
    if has_setup(kind) {
        Pos::Setup
    } else if iterations > 0 {
        Pos::At(0, 0)
    } else {
        Pos::End
    }
}

/// The position after `pos`.
pub open spec fn next_pos(kind: TaskKind, iterations: nat, pos: Pos) -> Pos {
    match pos {
        Pos::Setup => if iterations > 0 {
            Pos::At(0, 0)
        } else {
            Pos::End
        },
        Pos::At(i, step) => if step + 1 < per_iteration(kind) {
            Pos::At(i, step + 1)
        } else if i + 1 < iterations {
            Pos::At(i + 1, 0)
        } else {
            Pos::End
        },
        Pos::End => Pos::End,
    }
}

/// How many operations are left to ask for from `pos` on, the one at `pos`
/// included.
pub open spec fn remaining(kind: TaskKind, iterations: nat, pos: Pos) -> nat {
    match pos {
        Pos::Setup => 1 + per_iteration(kind) * iterations,
        Pos::At(i, step) => if i < iterations && step < per_iteration(kind) {
            (per_iteration(kind) * (iterations - i) - step) as nat
        } else {
            0
        },
        Pos::End => 0,
    }
}

/// Whether `pos` is a place in the script of the task.
pub open spec fn valid_pos(kind: TaskKind, iterations: nat, pos: Pos) -> bool {
    match pos {
        Pos::Setup => has_setup(kind),
        Pos::At(i, step) => i < iterations && step < per_iteration(kind),
        Pos::End => true,
    }
}

/// The operation that task `id` asks for at `pos`.
pub open spec fn op_at(kind: TaskKind, id: nat, pos: Pos) -> FsOpView {
    match pos {
        Pos::Setup => if kind == TaskKind::IndependentFiles {
            FsOpView::CreateDirAll(spec_task_base_path(id))
        } else {
            FsOpView::CreateDirAll(spec_ops_base_path(id))
        },
        Pos::At(i, step) => match kind {
            TaskKind::IndependentFiles => if step == 0 {
                FsOpView::Write(spec_task_file_path(id, i), spec_task_content(id, i))
            } else {
                FsOpView::Read(spec_task_file_path(id, i))
            },
            TaskKind::SharedFile => if step == 0 {
                FsOpView::Write("/stress/shared_file.txt"@, spec_shared_content(id, i))
            } else {
                FsOpView::Read("/stress/shared_file.txt"@)
            },
            TaskKind::FsOps => if step == 0 {
                FsOpView::CreateDirAll(spec_ops_dir_path(id, i))
            } else if step == 1 {
                FsOpView::Write(spec_ops_file_path(id, i), "content"@)
            } else if step == 2 {
                FsOpView::RemoveFile(spec_ops_file_path(id, i))
            } else {
                FsOpView::RemoveDir(spec_ops_dir_path(id, i))
            },
            TaskKind::RaceCondition => if step == 0 {
                FsOpView::WriteAndRead("/stress/race_file.txt"@, spec_race_content(id, i))
            } else {
                FsOpView::RemoveFile("/stress/race_file.txt"@)
            },
        },
        Pos::End => FsOpView::Finish(Ok(())),
    }
}

/// The bytes that an outcome carries; none unless it is a read's.
pub open spec fn outcome_bytes(o: OutcomeView) -> Seq<u8> {
    match o {
        OutcomeView::Bytes(b) => b,
        _ => Seq::empty(),
    }
}

/// The error with which task `id` at `pos` ends on outcome `o`, if it ends
/// with one: a failed operation ends every kind of task but the race task,
/// and a read back that fails its check ends the task that reads.
pub open spec fn error_after(kind: TaskKind, id: nat, pos: Pos, o: OutcomeView) -> Option<Seq<char>> {
    if o is Failed && kind != TaskKind::RaceCondition {
        Some(o->Failed_0)
    } else {
        match pos {
            Pos::At(i, step) => if step == 1 && kind == TaskKind::IndependentFiles {
                match task_read_verdict(
                    spec_task_file_path(id, i),
                    spec_task_content(id, i),
                    outcome_bytes(o),
                ) {
                    Ok(()) => None,
                    Err(e) => Some(e),
                }
            } else if step == 1 && kind == TaskKind::SharedFile {
                match shared_read_verdict("/stress/shared_file.txt"@, outcome_bytes(o)) {
                    Ok(()) => None,
                    Err(e) => Some(e),
                }
            } else {
                None
            },
            _ => None,
        }
    }
}

/// What a task does when outcome `o` comes back for the operation at its
/// position: the state it moves to and what it asks for next.
pub open spec fn spec_advance(m: TaskModel, o: OutcomeView) -> (TaskModel, FsOpView) {
    match error_after(m.kind, m.id, m.pos, o) {
        Some(e) => (TaskModel { pos: Pos::End, ..m }, FsOpView::Finish(Err(e))),
        None => {
            let n = next_pos(m.kind, m.iterations, m.pos);
            (TaskModel { pos: n, ..m }, op_at(m.kind, m.id, n))
        },
    }
}

/// The outcome of the operation at `pos` when the file system does its part:
/// a read gives back the bytes that the write before it wrote, and every
/// other operation completes.
pub open spec fn faithful_outcome(kind: TaskKind, id: nat, pos: Pos) -> OutcomeView {
    match pos {
        Pos::At(i, step) => if step == 1 && kind == TaskKind::IndependentFiles {
            OutcomeView::Bytes(encode_utf8(spec_task_content(id, i)))
        } else if step == 1 && kind == TaskKind::SharedFile {
            OutcomeView::Bytes(encode_utf8(spec_shared_content(id, i)))
        } else {
            OutcomeView::Completed
        },
        _ => OutcomeView::Completed,
    }
}

// ---------------------------------------------------------------------------
// The task itself
// ---------------------------------------------------------------------------

enum Stage {
    Setup,
    Iteration,
    Done,
}

/// One stress task: it asks for file-system operations one at a time, is
/// told what came of each, and decides what to ask for next and when to end.
pub struct StressTask {
    kind: TaskKind,
    id: usize,
    iterations: usize,
    stage: Stage,
    i: usize,
    step: usize,
    padding: String,
}

impl View for StressTask {
    type V = TaskModel;

    closed spec fn view(&self) -> TaskModel {
        TaskModel {
            kind: self.kind,
            id: self.id as nat,
            iterations: self.iterations as nat,
            pos: match self.stage {
                Stage::Setup => Pos::Setup,
                Stage::Iteration => Pos::At(self.i as nat, self.step as nat),
                Stage::Done => Pos::End,
            },
        }
    }
}

/// The number of operations in each iteration of the kind of task.
fn steps_per_iteration(kind: TaskKind) -> (r: usize)
    ensures
        r == per_iteration(kind),
{
    match kind {
        TaskKind::FsOps => 4,
        _ => 2,
    }
}

/// Whether the kind of task prepares a directory first.
fn kind_has_setup(kind: TaskKind) -> (r: bool)
    ensures
        r == has_setup(kind),
{
    match kind {
        TaskKind::IndependentFiles => true,
        TaskKind::FsOps => true,
        _ => false,
    }
}

impl StressTask {
    /// The task's own consistency: it stands at a place in its script.
    pub closed spec fn inv(&self) -> bool {
        &&& valid_pos(self@.kind, self@.iterations, self@.pos)
        &&& self.padding@ == spec_race_padding()
    }

    /// Whether the task has finished.
    pub open spec fn finished(&self) -> bool {
        self@.pos is End
    }

    /// The operation at the task's position.
    fn current_op(&self) -> (op: FsOp)
        requires
            self.inv(),
            !self.finished(),
        ensures
            op@ == op_at(self@.kind, self@.id, self@.pos),
    {
        let id = self.id;
        let i = self.i;
        match self.stage {
            Stage::Setup => match self.kind {
                TaskKind::IndependentFiles => FsOp::CreateDirAll(task_base_path(id)),
                _ => FsOp::CreateDirAll(ops_base_path(id)),
            },
            Stage::Iteration => match self.kind {
                TaskKind::IndependentFiles => if self.step == 0 {
                    FsOp::Write(task_file_path(id, i), task_content(id, i))
                } else {
                    FsOp::Read(task_file_path(id, i))
                },
                TaskKind::SharedFile => if self.step == 0 {
                    FsOp::Write(String::from_str(shared_file_path()), shared_content(id, i))
                } else {
                    FsOp::Read(String::from_str(shared_file_path()))
                },
                TaskKind::FsOps => if self.step == 0 {
                    FsOp::CreateDirAll(ops_dir_path(id, i))
                } else if self.step == 1 {
                    FsOp::Write(ops_file_path(id, i), String::from_str(ops_file_content()))
                } else if self.step == 2 {
                    FsOp::RemoveFile(ops_file_path(id, i))
                } else {
                    FsOp::RemoveDir(ops_dir_path(id, i))
                },
                TaskKind::RaceCondition => if self.step == 0 {
                    FsOp::WriteAndRead(
                        String::from_str(race_file_path()),
                        race_content(id, i, self.padding.as_str()),
                    )
                } else {
                    FsOp::RemoveFile(String::from_str(race_file_path()))
                },
            },
            Stage::Done => FsOp::Finish(Ok(())),
        }
    }

    /// Starts task `id` of the given kind with `iterations` iterations, and
    /// gives the first operation it asks for (or its end, when it has
    /// nothing to do).
    pub fn start(kind: TaskKind, id: usize, iterations: usize) -> (r: (StressTask, FsOp))
        ensures
            r.0.inv(),
            r.0@ == (TaskModel {
                kind,
                id: id as nat,
                iterations: iterations as nat,
                pos: first_pos(kind, iterations as nat),
            }),
            r.1@ == op_at(kind, id as nat, first_pos(kind, iterations as nat)),
    {
        let stage = if kind_has_setup(kind) {
            Stage::Setup
        } else if iterations > 0 {
            Stage::Iteration
        } else {
            Stage::Done
        };
        let task = StressTask { kind, id, iterations, stage, i: 0, step: 0, padding: race_padding() };
        let op = match task.stage {
            Stage::Done => FsOp::Finish(Ok(())),
            _ => task.current_op(),
        };
        (task, op)
    }

    /// Whether the task has finished.
    pub fn is_finished(&self) -> (r: bool)
        ensures
            r == self.finished(),
    {
        match self.stage {
            Stage::Done => true,
            _ => false,
        }
    }

    /// The error with which the task ends on `outcome`, if any.
    fn error_on(&self, outcome: OpOutcome) -> (r: Option<String>)
        requires
            self.inv(),
        ensures
            match (r, error_after(self@.kind, self@.id, self@.pos, outcome@)) {
                (Some(m), Some(e)) => m@ == e,
                (None, None) => true,
                _ => false,
            },
    {
        let ghost o = outcome@;
        let bytes: Vec<u8> = match outcome {
            OpOutcome::Failed(m) => match self.kind {
                TaskKind::RaceCondition => Vec::new(),
                _ => {
                    return Some(m);
                },
            },
            OpOutcome::Bytes(b) => b,
            OpOutcome::Completed => Vec::new(),
        };
        assert(bytes@ =~= outcome_bytes(o));
        match self.stage {
            Stage::Iteration => {
                if self.step != 1 {
                    return None;
                }
                match self.kind {
                    TaskKind::IndependentFiles => {
                        let path = task_file_path(self.id, self.i);
                        let content = task_content(self.id, self.i);
                        match check_task_read(path.as_str(), content.as_str(), bytes.as_slice()) {
                            Ok(()) => None,
                            Err(m) => Some(m),
                        }
                    },
                    TaskKind::SharedFile => match check_shared_read(shared_file_path(), bytes) {
                        Ok(()) => None,
                        Err(m) => Some(m),
                    },
                    _ => None,
                }
            },
            _ => None,
        }
    }

    /// Tells the running task what came of the operation it asked for last,
    /// and gives what it asks for next: another operation, or its end.
    pub fn advance(&mut self, outcome: OpOutcome) -> (op: FsOp)
        requires
            old(self).inv(),
            !old(self).finished(),
        ensures
            final(self).inv(),
            (final(self)@, op@) == spec_advance(old(self)@, outcome@),
    {
        match self.error_on(outcome) {
            Some(m) => {
                self.stage = Stage::Done;
                return FsOp::Finish(Err(m));
            },
            None => {},
        }
        match self.stage {
            Stage::Setup => {
                if self.iterations > 0 {
                    self.stage = Stage::Iteration;
                    self.i = 0;
                    self.step = 0;
                } else {
                    self.stage = Stage::Done;
                }
            },
            Stage::Iteration => {
                if self.step + 1 < steps_per_iteration(self.kind) {
                    self.step = self.step + 1;
                } else if self.i < self.iterations - 1 {
                    self.i = self.i + 1;
                    self.step = 0;
                } else {
                    self.stage = Stage::Done;
                }
            },
            Stage::Done => {},
        }
        match self.stage {
            Stage::Done => FsOp::Finish(Ok(())),
            _ => self.current_op(),
        }
    }
}

// ---------------------------------------------------------------------------
// Laws
// ---------------------------------------------------------------------------

/// A task asks for the operations of its script one after another: from any
/// place in the script, whatever comes back, it either ends or moves to a
/// later place with one operation fewer left; it asks for an operation
/// exactly when it has not ended. A task therefore ends after at most
/// `remaining` outcomes.
pub proof fn lemma_advance_progress(m: TaskModel, o: OutcomeView)
    requires
        valid_pos(m.kind, m.iterations, m.pos),
        !(m.pos is End),
    ensures
        ({
            let (m2, op) = spec_advance(m, o);
            &&& valid_pos(m2.kind, m2.iterations, m2.pos)
            &&& m2.kind == m.kind && m2.id == m.id && m2.iterations == m.iterations
            &&& remaining(m2.kind, m2.iterations, m2.pos) < remaining(m.kind, m.iterations, m.pos)
            &&& (m2.pos is End <==> op is Finish)
        }),
{
}

/// The script of a task is as long as its preparatory operation and its
/// iterations together.
pub proof fn lemma_script_length(kind: TaskKind, iterations: nat)
    ensures
        remaining(kind, iterations, first_pos(kind, iterations))
            == (if has_setup(kind) { 1nat } else { 0nat }) + per_iteration(kind) * iterations,
{
}

/// When nothing goes wrong, each step moves exactly one operation further.
pub proof fn lemma_next_pos_counts_down(kind: TaskKind, iterations: nat, pos: Pos)
    requires
        valid_pos(kind, iterations, pos),
        !(pos is End),
    ensures
        remaining(kind, iterations, next_pos(kind, iterations, pos)) + 1
            == remaining(kind, iterations, pos),
        valid_pos(kind, iterations, next_pos(kind, iterations, pos)),
{
    match pos {
        Pos::At(i, step) => {
            let per = per_iteration(kind);
            if step + 1 < per {
            } else if i + 1 < iterations {
                assert(per * (iterations - i) == per * (iterations - (i + 1)) + per) by (nonlinear_arith);
            } else {
                assert(per * (iterations - i) == per) by (nonlinear_arith)
                    requires i + 1 == iterations;
            }
        },
        _ => {},
    }
}

/// A failed operation ends every task but a race task, with the failure's
/// text as its error.
pub proof fn lemma_failure_ends_task(m: TaskModel, e: Seq<char>)
    requires
        m.kind != TaskKind::RaceCondition,
    ensures
        spec_advance(m, OutcomeView::Failed(e)) == (TaskModel { pos: Pos::End, ..m }, FsOpView::Finish(
            Err(e),
        )),
{
}

/// A race task never ends with an error, whatever its operations report.
pub proof fn lemma_race_task_never_fails(m: TaskModel, o: OutcomeView)
    requires
        m.kind == TaskKind::RaceCondition,
    ensures
        !(spec_advance(m, o).1 matches FsOpView::Finish(Err(_))),
{
}

/// Each task that reads reads the file that it has just written, and what
/// a faithful file system gives back there is what was written.
pub proof fn lemma_read_follows_write(kind: TaskKind, id: nat, i: nat)
    requires
        kind == TaskKind::IndependentFiles || kind == TaskKind::SharedFile,
    ensures
        op_at(kind, id, Pos::At(i, 0)) matches FsOpView::Write(path, content) && op_at(
            kind,
            id,
            Pos::At(i, 1),
        ) == FsOpView::Read(path) && faithful_outcome(kind, id, Pos::At(i, 1)) == OutcomeView::Bytes(
            encode_utf8(content),
        ),
{
}

/// Every shared write begins as the shared-file check demands.
pub proof fn lemma_shared_content_prefix(id: nat, i: nat)
    ensures
        starts_with(spec_shared_content(id, i), "shared_content_task_"@),
{
    let c = spec_shared_content(id, i);
    assert(c.subrange(0, ("shared_content_task_"@).len() as int) =~= "shared_content_task_"@);
}

/// When the file system does its part, no check fails: at every place of
/// the script the faithful outcome lets the task go on.
pub proof fn lemma_faithful_outcomes_pass(kind: TaskKind, id: nat, pos: Pos)
    ensures
        error_after(kind, id, pos, faithful_outcome(kind, id, pos)) is None,
{
    match pos {
        Pos::At(i, step) => {
            if step == 1 && kind == TaskKind::SharedFile {
                let c = spec_shared_content(id, i);
                encode_utf8_valid_utf8(c);
                encode_utf8_decode_utf8(c);
                lemma_shared_content_prefix(id, i);
            }
        },
        _ => {},
    }
}

/// What a task asks for last after `n` outcomes, when the file system does
/// its part each time (or on the outcome that ends it, if that comes first).
pub open spec fn last_op_when_faithful(m: TaskModel, n: nat) -> FsOpView
    decreases n,
{
    let (m2, op) = spec_advance(m, faithful_outcome(m.kind, m.id, m.pos));
    if n <= 1 || m2.pos is End {
        op
    } else {
        last_op_when_faithful(m2, (n - 1) as nat)
    }
}

/// When the file system does its part, a task runs its whole script and
/// ends with success, after exactly as many outcomes as operations remain.
pub proof fn lemma_faithful_run_succeeds(m: TaskModel)
    requires
        valid_pos(m.kind, m.iterations, m.pos),
        !(m.pos is End),
    ensures
        last_op_when_faithful(m, remaining(m.kind, m.iterations, m.pos)) == FsOpView::Finish(Ok(())),
    decreases remaining(m.kind, m.iterations, m.pos),
{
    let n = remaining(m.kind, m.iterations, m.pos);
    lemma_faithful_outcomes_pass(m.kind, m.id, m.pos);
    lemma_next_pos_counts_down(m.kind, m.iterations, m.pos);
    let (m2, op) = spec_advance(m, faithful_outcome(m.kind, m.id, m.pos));
    assert(m2.pos == next_pos(m.kind, m.iterations, m.pos));
    if m2.pos is End {
    } else {
        assert(n > 1);
        lemma_faithful_run_succeeds(m2);
    }
}

/// A read that does not give back exactly the bytes that an
/// independent-files task wrote ends that task with the mismatch error.
pub proof fn lemma_wrong_read_fails(m: TaskModel, i: nat, got: Seq<u8>)
    requires
        m.kind == TaskKind::IndependentFiles,
        m.pos == Pos::At(i, 1),
        got != encode_utf8(spec_task_content(m.id, i)),
    ensures
        spec_advance(m, OutcomeView::Bytes(got)) == (TaskModel { pos: Pos::End, ..m }, FsOpView::Finish(
            Err(
                mismatch_message(spec_task_file_path(m.id, i), spec_task_content(m.id, i), lossy_text(got)),
            ),
        )),
{
}


/// The path that an operation works on, if it works on one.
pub open spec fn op_path(op: FsOpView) -> Option<Seq<char>> {
    match op {
        FsOpView::CreateDirAll(p) => Some(p),
        FsOpView::Write(p, _) => Some(p),
        FsOpView::Read(p) => Some(p),
        FsOpView::RemoveFile(p) => Some(p),
        FsOpView::RemoveDir(p) => Some(p),
        FsOpView::WriteAndRead(p, _) => Some(p),
        FsOpView::Finish(_) => None,
    }
}

proof fn lemma_starts_with_extend(x: Seq<char>, y: Seq<char>, pre: Seq<char>)
    requires
        starts_with(x, pre),
    ensures
        starts_with(x + y, pre),
{
    assert((x + y).subrange(0, pre.len() as int) =~= x.subrange(0, pre.len() as int));
}

proof fn lemma_literal_under_stress(lit: Seq<char>)
    requires
        lit.len() >= 8,
        lit.subrange(0, 8) =~= "/stress/"@,
    ensures
        starts_with(lit, "/stress/"@),
{
    reveal_strlit("/stress/");
}

proof fn lemma_two_numbers_under_stress(p: Seq<char>, a: nat, q: Seq<char>, b: nat, r: Seq<char>)
    requires
        starts_with(p, "/stress/"@),
    ensures
        starts_with(two_numbers(p, a, q, b, r), "/stress/"@),
{
    lemma_starts_with_extend(p, decimal(a), "/stress/"@);
    lemma_starts_with_extend(p + decimal(a), q, "/stress/"@);
    lemma_starts_with_extend(p + decimal(a) + q, decimal(b), "/stress/"@);
    lemma_starts_with_extend(p + decimal(a) + q + decimal(b), r, "/stress/"@);
}

/// Every operation of every stress task works under the `/stress`
/// directory, which the suite creates before the tasks that need it.
pub proof fn lemma_paths_under_stress_dir(kind: TaskKind, id: nat, pos: Pos)
    requires
        !(pos is End),
    ensures
        op_path(op_at(kind, id, pos)) matches Some(p) && starts_with(p, "/stress/"@),
{
    reveal_strlit("/stress/");
    reveal_strlit("/stress/task_");
    reveal_strlit("/stress/ops_task_");
    reveal_strlit("/stress/shared_file.txt");
    reveal_strlit("/stress/race_file.txt");
    lemma_literal_under_stress("/stress/task_"@);
    lemma_literal_under_stress("/stress/ops_task_"@);
    lemma_literal_under_stress("/stress/shared_file.txt"@);
    lemma_literal_under_stress("/stress/race_file.txt"@);
    lemma_starts_with_extend("/stress/task_"@, decimal(id), "/stress/"@);
    lemma_starts_with_extend("/stress/ops_task_"@, decimal(id), "/stress/"@);
    match pos {
        Pos::At(i, _) => {
            lemma_two_numbers_under_stress("/stress/task_"@, id, "/file_"@, i, ".txt"@);
            lemma_two_numbers_under_stress("/stress/ops_task_"@, id, "/dir_"@, i, Seq::empty());
            lemma_two_numbers_under_stress("/stress/ops_task_"@, id, "/dir_"@, i, "/file.txt"@);
        },
        _ => {},
    }
}

/// Where a task begins and how it moves through its script: independent
/// files and file operations prepare a directory first; then iteration `i`
/// runs its steps in order (four for file operations, two for the others)
/// before iteration `i + 1`, and the task ends after the last step of the
/// last iteration.
pub proof fn lemma_script_order(kind: TaskKind, n: nat, i: nat, step: nat)
    ensures
        first_pos(kind, n) == (if kind == TaskKind::IndependentFiles || kind == TaskKind::FsOps {
            Pos::Setup
        } else if n > 0 {
            Pos::At(0, 0)
        } else {
            Pos::End
        }),
        valid_pos(kind, n, Pos::Setup) <==> (kind == TaskKind::IndependentFiles || kind
            == TaskKind::FsOps),
        next_pos(kind, n, Pos::Setup) == (if n > 0 {
            Pos::At(0, 0)
        } else {
            Pos::End
        }),
        valid_pos(kind, n, Pos::At(i, step)) <==> i < n && step < (if kind == TaskKind::FsOps {
            4nat
        } else {
            2nat
        }),
        valid_pos(kind, n, Pos::At(i, step)) ==> next_pos(kind, n, Pos::At(i, step)) == (if step + 1 < (
        if kind == TaskKind::FsOps {
            4nat
        } else {
            2nat
        }) {
            Pos::At(i, step + 1)
        } else if i + 1 < n {
            Pos::At(i + 1, 0)
        } else {
            Pos::End
        }),
        op_at(kind, 0, Pos::End) == FsOpView::Finish(Ok(())),
{
}

/// What each kind of task asks for at each step: the names of task `id` and
/// iteration `i`, in that order.
pub proof fn lemma_script_ops(id: nat, i: nat)
    ensures
        op_at(TaskKind::IndependentFiles, id, Pos::Setup) == FsOpView::CreateDirAll(
            spec_task_base_path(id),
        ),
        op_at(TaskKind::FsOps, id, Pos::Setup) == FsOpView::CreateDirAll(spec_ops_base_path(id)),
        op_at(TaskKind::IndependentFiles, id, Pos::At(i, 0)) == FsOpView::Write(
            spec_task_file_path(id, i),
            spec_task_content(id, i),
        ),
        op_at(TaskKind::IndependentFiles, id, Pos::At(i, 1)) == FsOpView::Read(
            spec_task_file_path(id, i),
        ),
        op_at(TaskKind::SharedFile, id, Pos::At(i, 0)) == FsOpView::Write(
            "/stress/shared_file.txt"@,
            "shared_content_task_"@ + decimal(id) + "_iter_"@ + decimal(i),
        ),
        op_at(TaskKind::SharedFile, id, Pos::At(i, 1)) == FsOpView::Read("/stress/shared_file.txt"@),
        op_at(TaskKind::FsOps, id, Pos::At(i, 0)) == FsOpView::CreateDirAll(spec_ops_dir_path(id, i)),
        op_at(TaskKind::FsOps, id, Pos::At(i, 1)) == FsOpView::Write(
            spec_ops_file_path(id, i),
            "content"@,
        ),
        op_at(TaskKind::FsOps, id, Pos::At(i, 2)) == FsOpView::RemoveFile(spec_ops_file_path(id, i)),
        op_at(TaskKind::FsOps, id, Pos::At(i, 3)) == FsOpView::RemoveDir(spec_ops_dir_path(id, i)),
        op_at(TaskKind::RaceCondition, id, Pos::At(i, 0)) == FsOpView::WriteAndRead(
            "/stress/race_file.txt"@,
            "race_content_"@ + decimal(id) + "_"@ + decimal(i) + "_"@ + Seq::new(10240, |k: int| 'a'),
        ),
        op_at(TaskKind::RaceCondition, id, Pos::At(i, 1)) == FsOpView::RemoveFile(
            "/stress/race_file.txt"@,
        ),
{
    crate::names::lemma_names_spelled_out(Seq::empty(), id, i);
}

/// The task's next step when nothing ends it: it moves to the next place
/// of its script and asks for the operation there.
pub open spec fn goes_on(m: TaskModel) -> (TaskModel, FsOpView) {
    (
        TaskModel { pos: next_pos(m.kind, m.iterations, m.pos), ..m },
        op_at(m.kind, m.id, next_pos(m.kind, m.iterations, m.pos)),
    )
}

/// The bytes of a read outcome; an outcome without bytes counts as an empty
/// read.
pub open spec fn bytes_read(o: OutcomeView) -> Seq<u8> {
    match o {
        OutcomeView::Bytes(b) => b,
        _ => Seq::empty(),
    }
}

/// Outside reads, a task that is not told of a failure goes on, and a race
/// task goes on whatever it is told.
pub proof fn lemma_advance_goes_on(m: TaskModel, o: OutcomeView)
    requires
        valid_pos(m.kind, m.iterations, m.pos),
        !(m.pos is End),
        m.kind == TaskKind::RaceCondition || (!(o is Failed) && !(m.pos matches Pos::At(_, step) && step
            == 1 && (m.kind == TaskKind::IndependentFiles || m.kind == TaskKind::SharedFile))),
    ensures
        spec_advance(m, o) == goes_on(m),
{
}

/// The read of an independent-files task goes on exactly when it gives back
/// the UTF-8 bytes of what the task wrote in that iteration, and otherwise
/// ends the task with the mismatch error.
pub proof fn lemma_independent_read(m: TaskModel, i: nat, o: OutcomeView)
    requires
        m.kind == TaskKind::IndependentFiles,
        m.pos == Pos::At(i, 1),
        !(o is Failed),
    ensures
        bytes_read(o) == encode_utf8("content_task_"@ + decimal(m.id) + "_iter_"@ + decimal(i))
            ==> spec_advance(m, o) == goes_on(m),
        bytes_read(o) != encode_utf8("content_task_"@ + decimal(m.id) + "_iter_"@ + decimal(i))
            ==> spec_advance(m, o) == (TaskModel { pos: Pos::End, ..m }, FsOpView::Finish(
            Err(
                "Stress test mismatch in "@ + spec_task_file_path(m.id, i) + ": expected '"@ + (
                "content_task_"@ + decimal(m.id) + "_iter_"@ + decimal(i)) + "', got '"@ + lossy_text(
                    bytes_read(o),
                ) + "'"@,
            ),
        )),
{
    crate::names::lemma_names_spelled_out(Seq::empty(), m.id, i);
    assert(outcome_bytes(o) == bytes_read(o));
    crate::checks::lemma_task_read_verdict(
        spec_task_file_path(m.id, i),
        spec_task_content(m.id, i),
        bytes_read(o),
    );
}

/// The read of a shared-file task: bytes that are not UTF-8 end the task
/// with the invalid-UTF-8 error, whatever they look like; UTF-8 that does
/// not begin with `shared_content_task_` (an empty read among it) ends it
/// with the corruption error; any other read lets it go on.
pub proof fn lemma_shared_read(m: TaskModel, i: nat, o: OutcomeView)
    requires
        m.kind == TaskKind::SharedFile,
        m.pos == Pos::At(i, 1),
        !(o is Failed),
    ensures
        !valid_utf8(bytes_read(o)) ==> spec_advance(m, o) == (TaskModel { pos: Pos::End, ..m }, FsOpView::Finish(
            Err("Invalid UTF-8 read in shared test: "@ + utf8_error_text(bytes_read(o))),
        )),
        valid_utf8(bytes_read(o)) && ("shared_content_task_"@).len() <= decode_utf8(bytes_read(o)).len()
            && decode_utf8(bytes_read(o)).subrange(0, ("shared_content_task_"@).len() as int)
            == "shared_content_task_"@ ==> spec_advance(m, o) == goes_on(m),
        valid_utf8(bytes_read(o)) && !(("shared_content_task_"@).len() <= decode_utf8(bytes_read(o)).len()
            && decode_utf8(bytes_read(o)).subrange(0, ("shared_content_task_"@).len() as int)
            == "shared_content_task_"@) ==> spec_advance(m, o) == (TaskModel { pos: Pos::End, ..m }, FsOpView::Finish(
            Err(
                "Shared file stress test corruption in /stress/shared_file.txt: got '"@ + decode_utf8(
                    bytes_read(o),
                ) + "'"@,
            ),
        )),
{
    assert(outcome_bytes(o) == bytes_read(o));
    crate::checks::lemma_shared_read_verdict("/stress/shared_file.txt"@, bytes_read(o));
    let text = decode_utf8(bytes_read(o));
    assert("Shared file stress test corruption in "@ + "/stress/shared_file.txt"@ + ": got '"@ + text
        + "'"@ == "Shared file stress test corruption in /stress/shared_file.txt: got '"@ + text + "'"@) by {
        reveal_strlit("Shared file stress test corruption in ");
        reveal_strlit("/stress/shared_file.txt");
        reveal_strlit(": got '");
        reveal_strlit("Shared file stress test corruption in /stress/shared_file.txt: got '");
        assert("Shared file stress test corruption in "@ + "/stress/shared_file.txt"@ + ": got '"@
            =~= "Shared file stress test corruption in /stress/shared_file.txt: got '"@);
    }
}

} // verus!
