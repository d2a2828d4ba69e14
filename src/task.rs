//! Off-thread codec tasks: the request a task computes, the references it
//! holds on host-owned buffers, and its lifecycle
//! `Submitted -> Running -> Resolved | Rejected`. A submitted task always
//! runs to completion; there is no cancellation.
use vstd::prelude::*;
use crate::codec::{
    block_compress, block_compress_result, block_decompress, block_decompress_result,
    frame_compress, frame_compress_result, frame_decompress, frame_decompress_result,
};
use crate::error::CodecError;
use crate::input::{CodecInput, dict_bytes};
use crate::lz4::bytes_result;

verus! {

/// Which of the four codec operations a request asks for.
#[derive(Debug, Clone, Copy, PartialEq, Eq, Structural)]
pub enum CodecOp {
    Compress,
    Decompress,
    CompressFrame,
    DecompressFrame,
}

/// One unit of codec work: an operation, its input, and a dictionary for the
/// block operations.
#[derive(Debug, Clone)]
pub struct CodecRequest {
    pub op: CodecOp,
    pub data: CodecInput,
    pub dict: Option<CodecInput>,
}

impl CodecRequest {
    /// A block to compress must have a length that its four-byte size prefix
    /// can hold.
    pub open spec fn wf(&self) -> bool {
        self.op is Compress ==> self.data.bytes().len() <= u32::MAX
    }

    /// Whether `out` is what computing this request yields.
    pub open spec fn computes(&self, out: Result<Seq<u8>, CodecError>) -> bool {
        let data = self.data.bytes();
        match self.op {
            CodecOp::Compress => out is Ok && block_compress_result(data, dict_bytes(self.dict), out->Ok_0),
            CodecOp::Decompress => block_decompress_result(data, dict_bytes(self.dict), out),
            CodecOp::CompressFrame => frame_compress_result(data, out),
            CodecOp::DecompressFrame => frame_decompress_result(data, out),
        }
    }

    /// Whether the request reads its input from a host-owned buffer.
    pub open spec fn data_external(&self) -> bool {
        self.data.is_external()
    }

    /// Whether the request reads a dictionary from a host-owned buffer.
    pub open spec fn dict_external(&self) -> bool {
        self.dict is Some && self.dict->Some_0.is_external()
    }
}

/// A block compression of `data`, keyed by `dict` when one is given.
pub fn compress(data: CodecInput, dict: Option<CodecInput>) -> (r: CodecRequest)
    requires
        data.bytes().len() <= u32::MAX,
    ensures
        r == (CodecRequest { op: CodecOp::Compress, data, dict }),
        r.wf(),
{
    CodecRequest { op: CodecOp::Compress, data, dict }
}

/// A block decompression of `data`, keyed by `dict` when one is given.
pub fn uncompress(data: CodecInput, dict: Option<CodecInput>) -> (r: CodecRequest)
    ensures
        r == (CodecRequest { op: CodecOp::Decompress, data, dict }),
        r.wf(),
{
    CodecRequest { op: CodecOp::Decompress, data, dict }
}

/// A frame compression of `data`; frames take no dictionary.
pub fn compress_frame(data: CodecInput) -> (r: CodecRequest)
    ensures
        r == (CodecRequest { op: CodecOp::CompressFrame, data, dict: None }),
        r.wf(),
{
    CodecRequest { op: CodecOp::CompressFrame, data, dict: None }
}

/// A frame decompression of `data`; frames take no dictionary.
pub fn decompress_frame(data: CodecInput) -> (r: CodecRequest)
    ensures
        r == (CodecRequest { op: CodecOp::DecompressFrame, data, dict: None }),
        r.wf(),
{
    CodecRequest { op: CodecOp::DecompressFrame, data, dict: None }
}

/// Runs the codec operation that `request` names. This is the compute step
/// of a task; it reads its inputs and never writes them.
pub fn run_request(request: &CodecRequest) -> (r: Result<Vec<u8>, CodecError>)
    requires
        request.wf(),
    ensures
        request.computes(bytes_result(r)),
{
    let data = request.data.as_bytes();
    let dict: Option<&[u8]> = match &request.dict {
        Some(d) => Some(d.as_bytes()),
        None => None,
    };
    match request.op {
        CodecOp::Compress => Ok(block_compress(data, dict)),
        CodecOp::Decompress => block_decompress(data, dict),
        CodecOp::CompressFrame => frame_compress(data),
        CodecOp::DecompressFrame => frame_decompress(data),
    }
}

/// The reference count of one host-owned buffer, and whether the host has
/// begun tearing it down.
pub struct RefsView {
    pub count: nat,
    pub closing: bool,
}

/// Whether a reference can still be taken on a buffer in state `v`.
pub open spec fn can_acquire(v: RefsView) -> bool {
    !v.closing && v.count < u64::MAX
}

/// `v` after one more reference, when `take` holds.
pub open spec fn acquired(v: RefsView, take: bool) -> RefsView {
    if take {
        RefsView { count: v.count + 1, closing: v.closing }
    } else {
        v
    }
}

/// `v` after one reference fewer, when `give` holds.
pub open spec fn released(v: RefsView, give: bool) -> RefsView {
    if give {
        RefsView { count: (v.count - 1) as nat, closing: v.closing }
    } else {
        v
    }
}

/// The host's reference count on one buffer that it owns.
pub struct HostRefs {
    count: u64,
    closing: bool,
}

impl View for HostRefs {
    type V = RefsView;

    closed spec fn view(&self) -> RefsView {
        RefsView { count: self.count as nat, closing: self.closing }
    }
}

impl HostRefs {
    /// A live buffer with `count` references.
    pub fn new(count: u64) -> (r: Self)
        ensures
            r@ == (RefsView { count: count as nat, closing: false }),
    {
        HostRefs { count, closing: false }
    }

    /// The number of references held.
    pub fn count(&self) -> (r: u64)
        ensures
            r == self@.count,
    {
        self.count
    }

    /// Whether the host has begun tearing the buffer down.
    pub fn is_closing(&self) -> (r: bool)
        ensures
            r == self@.closing,
    {
        self.closing
    }

    /// Marks the buffer as being torn down: no new reference can be taken.
    pub fn begin_teardown(&mut self)
        ensures
            final(self)@ == (RefsView { count: old(self)@.count, closing: true }),
    {
        self.closing = true;
    }

    /// Takes a reference. Fails with `InternalFailure`, and takes none, once
    /// the buffer is being torn down or its count is at its maximum.
    pub fn acquire(&mut self) -> (r: Result<(), CodecError>)
        ensures
            r is Ok <==> can_acquire(old(self)@),
            r is Ok ==> final(self)@ == acquired(old(self)@, true),
            r is Err ==> r->Err_0 is InternalFailure && final(self)@ == old(self)@,
    {
        if self.closing {
            return Err(CodecError::InternalFailure("buffer is being torn down".to_owned()));
        }
        if self.count == u64::MAX {
            return Err(CodecError::InternalFailure("buffer reference count is at its maximum".to_owned()));
        }
        self.count = self.count + 1;
        Ok(())
    }

    /// Gives a reference back.
    pub fn release(&mut self)
        requires
            old(self)@.count > 0,
        ensures
            final(self)@ == released(old(self)@, true),
    {
        self.count = self.count - 1;
    }
}

/// Where a task is in its lifecycle.
#[derive(Debug, Clone, Copy, PartialEq, Eq, Structural)]
pub enum TaskPhase {
    /// Created, with its references taken; not yet handed to a worker.
    Submitted,
    /// Handed to a worker, which computes it.
    Running,
    /// The worker produced bytes, and the references are given back.
    Resolved,
    /// The worker produced an error, and the references are given back.
    Rejected,
}

/// A task's phase, the references that it holds, and whether its compute
/// step has run.
pub struct TaskView {
    pub phase: TaskPhase,
    pub holds_data: bool,
    pub holds_dict: bool,
    pub computed: bool,
}

/// The task and the two buffers' states after a successful submission of a
/// request with the given external inputs.
pub open spec fn submit_step(data_external: bool, dict_external: bool, data: RefsView, dict: RefsView) -> (TaskView, RefsView, RefsView) {
    (
        TaskView { phase: TaskPhase::Submitted, holds_data: data_external, holds_dict: dict_external, computed: false },
        acquired(data, data_external),
        acquired(dict, dict_external),
    )
}

/// Whether submitting a request with the given external inputs succeeds.
pub open spec fn submit_succeeds(data_external: bool, dict_external: bool, data: RefsView, dict: RefsView) -> bool {
    &&& data_external ==> can_acquire(data)
    &&& dict_external ==> can_acquire(dict)
}

/// The task and the two buffers' states after the task settles on
/// `outcome`: every held reference is given back, whatever the outcome.
pub open spec fn settle_step(t: TaskView, data: RefsView, dict: RefsView, outcome: Result<Seq<u8>, CodecError>) -> (TaskView, RefsView, RefsView) {
    (
        TaskView {
            phase: if outcome is Ok {
                TaskPhase::Resolved
            } else {
                TaskPhase::Rejected
            },
            holds_data: false,
            holds_dict: false,
            computed: false,
        },
        released(data, t.holds_data),
        released(dict, t.holds_dict),
    )
}

/// A scheduled codec request with the references it holds on host-owned
/// buffers.
pub struct CodecTask {
    request: CodecRequest,
    phase: TaskPhase,
    holds_data: bool,
    holds_dict: bool,
    outcome: Option<Result<Vec<u8>, CodecError>>,
}

impl View for CodecTask {
    type V = TaskView;

    closed spec fn view(&self) -> TaskView {
        TaskView {
            phase: self.phase,
            holds_data: self.holds_data,
            holds_dict: self.holds_dict,
            computed: self.outcome is Some,
        }
    }
}

impl CodecTask {
    /// A computed outcome is the one that the request computes, and it is
    /// there only while the task runs.
    pub closed spec fn wf(&self) -> bool {
        &&& self.request.wf()
        &&& self.outcome is Some ==> self.phase is Running && self.request.computes(bytes_result(self.outcome->Some_0))
    }

    /// The outcome of the compute step, once it has run.
    pub closed spec fn spec_outcome(&self) -> Result<Seq<u8>, CodecError> {
        bytes_result(self.outcome->Some_0)
    }

    /// The request that the task was submitted with, in specifications.
    pub closed spec fn spec_request(&self) -> CodecRequest {
        self.request
    }

    /// Takes a reference on each host-owned input of `request` and creates
    /// its task. When a reference cannot be taken, the ones already taken
    /// are given back and nothing is created.
    pub fn submit(request: CodecRequest, data_refs: &mut HostRefs, dict_refs: &mut HostRefs) -> (r: Result<CodecTask, CodecError>)
        requires
            request.wf(),
        ensures
            r is Ok ==> r->Ok_0.wf(),
            r is Ok <==> submit_succeeds(request.data_external(), request.dict_external(), old(data_refs)@, old(dict_refs)@),
            r is Ok ==> (r->Ok_0@, final(data_refs)@, final(dict_refs)@) == submit_step(request.data_external(), request.dict_external(), old(data_refs)@, old(dict_refs)@),
            r is Ok ==> r->Ok_0.spec_request() == request,
            r is Err ==> r->Err_0 is InternalFailure && final(data_refs)@ == old(data_refs)@,
            r is Err ==> final(dict_refs)@ == old(dict_refs)@,
    {
        let data_external = request.data.is_buffer();
        let dict_external = match &request.dict {
            Some(d) => d.is_buffer(),
            None => false,
        };
        if data_external {
            match data_refs.acquire() {
                Ok(()) => {},
                Err(e) => return Err(e),
            }
        }
        if dict_external {
            match dict_refs.acquire() {
                Ok(()) => {},
                Err(e) => {
                    if data_external {
                        data_refs.release();
                    }
                    return Err(e);
                },
            }
        }
        Ok(CodecTask { request, phase: TaskPhase::Submitted, holds_data: data_external, holds_dict: dict_external, outcome: None })
    }

    /// The request that the task was submitted with.
    pub fn request(&self) -> (r: &CodecRequest)
        ensures
            *r == self.spec_request(),
    {
        &self.request
    }

    /// Where the task is in its lifecycle.
    pub fn phase(&self) -> (r: TaskPhase)
        ensures
            r == self@.phase,
    {
        self.phase
    }

    /// Whether the compute step has run and its outcome awaits settling.
    pub fn is_computed(&self) -> (r: bool)
        ensures
            r == self@.computed,
    {
        self.outcome.is_some()
    }

    /// Hands the task to a worker.
    pub fn start(&mut self)
        requires
            old(self).wf(),
            old(self)@.phase is Submitted,
        ensures
            final(self).wf(),
            final(self)@ == (TaskView { phase: TaskPhase::Running, ..old(self)@ }),
            final(self).spec_request() == old(self).spec_request(),
    {
        self.phase = TaskPhase::Running;
    }

    /// The worker's step: runs the request and keeps its outcome for the
    /// host. It touches no host state.
    pub fn compute(&mut self)
        requires
            old(self).wf(),
            old(self)@.phase is Running,
        ensures
            final(self).wf(),
            final(self)@ == (TaskView { computed: true, ..old(self)@ }),
            final(self).spec_request() == old(self).spec_request(),
            final(self).spec_request().computes(final(self).spec_outcome()),
    {
        let out = run_request(&self.request);
        self.outcome = Some(out);
    }

    /// Back on the host, after the compute step: gives back every reference
    /// the task holds, on success and on failure alike, and returns the
    /// computed outcome.
    pub fn settle(&mut self, data_refs: &mut HostRefs, dict_refs: &mut HostRefs) -> (r: Result<Vec<u8>, CodecError>)
        requires
            old(self).wf(),
            old(self)@.phase is Running,
            old(self)@.computed,
            old(self)@.holds_data ==> old(data_refs)@.count > 0,
            old(self)@.holds_dict ==> old(dict_refs)@.count > 0,
        ensures
            final(self).wf(),
            bytes_result(r) == old(self).spec_outcome(),
            old(self).spec_request().computes(bytes_result(r)),
            (final(self)@, final(data_refs)@, final(dict_refs)@) == settle_step(old(self)@, old(data_refs)@, old(dict_refs)@, bytes_result(r)),
            final(self).spec_request() == old(self).spec_request(),
    {
        let outcome = self.outcome.take().unwrap();
        if self.holds_data {
            data_refs.release();
            self.holds_data = false;
        }
        if self.holds_dict {
            dict_refs.release();
            self.holds_dict = false;
        }
        self.phase = match &outcome {
            Ok(_) => TaskPhase::Resolved,
            Err(_) => TaskPhase::Rejected,
        };
        outcome
    }
}

/// Every task gives back exactly the references it took: after a successful
/// submission, the start, the compute step and settling on any outcome,
/// both buffers' counts
/// are what they were before, the task holds nothing, and it can never
/// settle again.
pub proof fn lemma_task_releases_what_it_took(request: CodecRequest, data: RefsView, dict: RefsView, outcome: Result<Seq<u8>, CodecError>)
    requires
        submit_succeeds(request.data_external(), request.dict_external(), data, dict),
    ensures
        ({
            let (t, d1, k1) = submit_step(request.data_external(), request.dict_external(), data, dict);
            let (t2, d2, k2) = settle_step(TaskView { phase: TaskPhase::Running, computed: true, ..t }, d1, k1, outcome);
            &&& d2 == data
            &&& k2 == dict
            &&& !t2.holds_data && !t2.holds_dict
            &&& !(t2.phase is Running)
        }),
{
}

} // verus!
