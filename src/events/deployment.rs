//! Events about a running deployment.
use vstd::prelude::*;
use vstd::utf8::encode_utf8;

verus! {

#[derive(Debug, Clone)]
pub struct Event {
    pub deployment_id: uuid::Uuid,
    pub event: DeploymentEventKind,
}

#[derive(Debug, Clone)]
pub enum DeploymentEventKind {
    Started,
    StartFailed,
    Stopped,
    StopFailed,
    ExitedUnexpectedly,
    GstError(GstError),
    FunctionNodeError(FunctionNodeError),
    NodeLog(NodeLogs),
}

/// Error domains of the media framework; on the wire 1 to 4 in this order.
#[derive(Debug, Clone, Copy, PartialEq, Eq, Structural)]
pub enum GstErrorDomain {
    Core,
    Library,
    Resource,
    Stream,
}

impl GstErrorDomain {
    /// The domain's number on the wire.
    pub fn code(&self) -> (r: u32)
        ensures
            r == match *self {
                GstErrorDomain::Core => 1u32,
                GstErrorDomain::Library => 2u32,
                GstErrorDomain::Resource => 3u32,
                GstErrorDomain::Stream => 4u32,
            },
    {
        match self {
            GstErrorDomain::Core => 1,
            GstErrorDomain::Library => 2,
            GstErrorDomain::Resource => 3,
            GstErrorDomain::Stream => 4,
        }
    }
}

#[derive(Debug, Clone)]
pub struct GstError {
    pub domain: GstErrorDomain,
    pub code: i32,
    pub description: String,
}

#[derive(Debug, Clone)]
pub struct FunctionNodeError {
    pub node_id: String,
    pub code: i32,
    pub traceback: String,
}

#[derive(Debug, Clone)]
pub struct NodeLog {
    pub msg: String,
}

#[derive(Debug, Clone)]
pub struct NodeLogs {
    pub logs: Vec<NodeLog>,
}

/// The UTF-8 length of the messages, summed.
pub open spec fn logs_bytes(logs: Seq<NodeLog>) -> nat
    decreases logs.len(),
{
    if logs.len() == 0 {
        0
    } else {
        logs_bytes(logs.drop_last()) + encode_utf8(logs.last().msg@).len()
    }
}

impl NodeLogs {
    /// The size of the messages in bytes.
    pub fn bytes_len(&self) -> (r: usize)
        requires
            logs_bytes(self.logs@) <= usize::MAX,
        ensures
            r == logs_bytes(self.logs@),
    {
        let n = self.logs.len();
        let mut total: usize = 0;
        let mut i: usize = 0;
        while i < n
            invariant
                n == self.logs@.len(),
                i <= n,
                logs_bytes(self.logs@) <= usize::MAX,
                total == logs_bytes(self.logs@.subrange(0, i as int)),
            decreases n - i,
        {
            proof {
                assert(self.logs@.subrange(0, i + 1).drop_last() =~= self.logs@.subrange(
                    0,
                    i as int,
                ));
                lemma_logs_bytes_prefix(self.logs@, i + 1);
            }
            total = total + self.logs[i].msg.as_str().len();
            i = i + 1;
        }
        proof {
            assert(self.logs@.subrange(0, n as int) =~= self.logs@);
        }
        total
    }
}

proof fn lemma_logs_bytes_prefix(logs: Seq<NodeLog>, k: int)
    requires
        0 <= k <= logs.len(),
    ensures
        logs_bytes(logs.subrange(0, k)) <= logs_bytes(logs),
    decreases logs.len(),
{
    if k < logs.len() {
        assert(logs.drop_last() =~= logs.subrange(0, logs.len() - 1));
        assert(logs.drop_last().subrange(0, k) =~= logs.subrange(0, k));
        lemma_logs_bytes_prefix(logs.drop_last(), k);
    } else {
        assert(logs.subrange(0, k) =~= logs);
    }
}

} // verus!
