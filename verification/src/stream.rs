//! The stream router: named partitions of the task queue, one per owner and
//! kind of work, created on first use.

use vstd::prelude::*;
use vstd::string::StringExecFns;
use crate::work::WorkType;

verus! {

pub const AUX_WORK_TYPE: &'static str = "aux";

pub const EXEC_WORK_TYPE: &'static str = "exec";

pub const PROVE_WORK_TYPE: &'static str = "prove";

pub const COPROC_WORK_TYPE: &'static str = "coproc";

pub const JOIN_WORK_TYPE: &'static str = "join";

pub const SNARK_WORK_TYPE: &'static str = "snark";

/// The owner of the streams that serve the remote task channel.
pub const REMOTE_OWNER: &'static str = "grpc";

/// Scheduling parameters of a stream.
#[derive(Clone, Copy, Debug, PartialEq, Eq, Structural)]
pub struct StreamSettings {
    /// Workers reserved for the stream.
    pub reserved: i32,
    /// Priority weight of the stream, in whole units.
    pub weight: u32,
}

/// The name of a kind of work.
pub open spec fn work_type_name(w: WorkType) -> Seq<char> {
    match w {
        WorkType::Aux => "aux"@,
        WorkType::Exec => "exec"@,
        WorkType::Prove => "prove"@,
        WorkType::Coproc => "coproc"@,
        WorkType::Join => "join"@,
        WorkType::Snark => "snark"@,
    }
}

/// The kind of work with the given name, if there is one.
pub open spec fn work_type_named(name: Seq<char>) -> Option<WorkType> {
    if name == "aux"@ {
        Some(WorkType::Aux)
    } else if name == "exec"@ {
        Some(WorkType::Exec)
    } else if name == "prove"@ {
        Some(WorkType::Prove)
    } else if name == "coproc"@ {
        Some(WorkType::Coproc)
    } else if name == "join"@ {
        Some(WorkType::Join)
    } else if name == "snark"@ {
        Some(WorkType::Snark)
    } else {
        None
    }
}

/// The parameters a stream is created with. They are fixed per kind of
/// work: the streams that keep accelerators busy, proving and joining, weigh
/// double, and proving keeps two workers reserved.
pub open spec fn default_settings(w: WorkType) -> StreamSettings {
    match w {
        WorkType::Aux => StreamSettings { reserved: 1, weight: 1 },
        WorkType::Exec => StreamSettings { reserved: 1, weight: 1 },
        WorkType::Prove => StreamSettings { reserved: 2, weight: 2 },
        WorkType::Coproc => StreamSettings { reserved: 0, weight: 1 },
        WorkType::Join => StreamSettings { reserved: 0, weight: 2 },
        WorkType::Snark => StreamSettings { reserved: 0, weight: 1 },
    }
}

/// The names of the kinds of work differ from one another, so a name
/// stands for one kind only.
pub proof fn lemma_names_distinct(w: WorkType)
    ensures
        work_type_named(work_type_name(w)) == Some(w),
{
    reveal_strlit("aux");
    reveal_strlit("exec");
    reveal_strlit("prove");
    reveal_strlit("coproc");
    reveal_strlit("join");
    reveal_strlit("snark");
    assert("aux"@.len() == 3 && "exec"@.len() == 4 && "prove"@.len() == 5 && "coproc"@.len() == 6);
    assert("exec"@[0] != "join"@[0]);
    assert("prove"@[0] != "snark"@[0]);
}

fn same_text(a: &str, b: &str) -> (same: bool)
    ensures
        same == (a@ == b@),
{
    let x = String::from_str(a);
    let y = String::from_str(b);
    x == y
}

impl WorkType {
    /// The name of this kind of work.
    pub fn name(self) -> (name: &'static str)
        ensures
            name@ == work_type_name(self),
    {
        match self {
            WorkType::Aux => AUX_WORK_TYPE,
            WorkType::Exec => EXEC_WORK_TYPE,
            WorkType::Prove => PROVE_WORK_TYPE,
            WorkType::Coproc => COPROC_WORK_TYPE,
            WorkType::Join => JOIN_WORK_TYPE,
            WorkType::Snark => SNARK_WORK_TYPE,
        }
    }

    /// The kind of work with the given name, if there is one.
    pub fn from_name(name: &str) -> (w: Option<WorkType>)
        ensures
            w == work_type_named(name@),
    {
        if same_text(name, AUX_WORK_TYPE) {
            Some(WorkType::Aux)
        } else if same_text(name, EXEC_WORK_TYPE) {
            Some(WorkType::Exec)
        } else if same_text(name, PROVE_WORK_TYPE) {
            Some(WorkType::Prove)
        } else if same_text(name, COPROC_WORK_TYPE) {
            Some(WorkType::Coproc)
        } else if same_text(name, JOIN_WORK_TYPE) {
            Some(WorkType::Join)
        } else if same_text(name, SNARK_WORK_TYPE) {
            Some(WorkType::Snark)
        } else {
            None
        }
    }

    /// The parameters a stream of this kind of work is created with.
    pub fn settings(self) -> (s: StreamSettings)
        ensures
            s == default_settings(self),
    {
        match self {
            WorkType::Aux => StreamSettings { reserved: 1, weight: 1 },
            WorkType::Exec => StreamSettings { reserved: 1, weight: 1 },
            WorkType::Prove => StreamSettings { reserved: 2, weight: 2 },
            WorkType::Coproc => StreamSettings { reserved: 0, weight: 1 },
            WorkType::Join => StreamSettings { reserved: 0, weight: 2 },
            WorkType::Snark => StreamSettings { reserved: 0, weight: 1 },
        }
    }
}

/// A stream: the partition of one owner for one kind of work.
#[derive(Debug, PartialEq, Eq)]
pub struct Stream {
    pub owner: String,
    pub work_type: WorkType,
    pub settings: StreamSettings,
}

/// Mathematical content of a [`Stream`].
pub struct StreamView {
    pub owner: Seq<char>,
    pub work_type: WorkType,
    pub settings: StreamSettings,
}

impl View for Stream {
    type V = StreamView;

    open spec fn view(&self) -> StreamView {
        StreamView { owner: self.owner@, work_type: self.work_type, settings: self.settings }
    }
}

/// The streams that serve the remote task channel, one per kind of work.
#[derive(Clone, Copy, Debug, PartialEq, Eq, Structural)]
pub struct RemoteStreams {
    pub aux_stream: usize,
    pub exec_stream: usize,
    pub gpu_prove_stream: usize,
    pub gpu_coproc_stream: usize,
    pub gpu_join_stream: usize,
    pub snark_stream: usize,
}

/// Whether a stream is the one of `owner` for `work_type`.
pub open spec fn is_stream_of(s: StreamView, owner: Seq<char>, work_type: WorkType) -> bool {
    s.owner == owner && s.work_type == work_type
}

/// The id of the stream of `owner` for `work_type`: the position of the
/// first such stream, or `None` where there is none.
pub open spec fn find_stream(streams: Seq<StreamView>, owner: Seq<char>, work_type: WorkType)
    -> Option<nat>
    decreases streams.len(),
{
    if streams.len() == 0 {
        None
    } else {
        match find_stream(streams.drop_last(), owner, work_type) {
            Some(id) => Some(id),
            None => if is_stream_of(streams.last(), owner, work_type) {
                Some((streams.len() - 1) as nat)
            } else {
                None
            },
        }
    }
}

/// The streams after `owner` asked for its stream for `work_type`: as they
/// were where the stream existed, with the new stream at the end otherwise.
pub open spec fn streams_after_request(
    streams: Seq<StreamView>,
    owner: Seq<char>,
    work_type: WorkType,
) -> Seq<StreamView> {
    match find_stream(streams, owner, work_type) {
        Some(_) => streams,
        None => streams.push(
            StreamView { owner, work_type, settings: default_settings(work_type) },
        ),
    }
}

/// The id that `owner` is given for its stream for `work_type`.
pub open spec fn stream_id_given(streams: Seq<StreamView>, owner: Seq<char>, work_type: WorkType)
    -> nat {
    match find_stream(streams, owner, work_type) {
        Some(id) => id,
        None => streams.len(),
    }
}

/// The number of streams of `owner` for `work_type`.
pub open spec fn count_streams(streams: Seq<StreamView>, owner: Seq<char>, work_type: WorkType)
    -> nat
    decreases streams.len(),
{
    if streams.len() == 0 {
        0
    } else {
        count_streams(streams.drop_last(), owner, work_type) + if is_stream_of(
            streams.last(),
            owner,
            work_type,
        ) {
            1nat
        } else {
            0nat
        }
    }
}

/// What `find_stream` finds is a stream of the owner for the kind of work,
/// and it finds one whenever there is one.
pub proof fn lemma_find_stream(streams: Seq<StreamView>, owner: Seq<char>, work_type: WorkType)
    ensures
        match find_stream(streams, owner, work_type) {
            Some(id) => id < streams.len() && is_stream_of(streams[id as int], owner, work_type)
                && count_streams(streams, owner, work_type) >= 1,
            None => count_streams(streams, owner, work_type) == 0 && forall|i: int|
                0 <= i < streams.len() ==> !is_stream_of(#[trigger] streams[i], owner, work_type),
        },
    decreases streams.len(),
{
    if streams.len() > 0 {
        let front = streams.drop_last();
        lemma_find_stream(front, owner, work_type);
        if find_stream(front, owner, work_type).is_none() && !is_stream_of(
            streams.last(),
            owner,
            work_type,
        ) {
            assert forall|i: int| 0 <= i < streams.len() implies !is_stream_of(
                #[trigger] streams[i],
                owner,
                work_type,
            ) by {
                if i < front.len() {
                    assert(front[i] == streams[i]);
                }
            }
        }
    }
}

/// Two callers that ask for the same stream one after the other are given
/// the same id, whether or not the stream existed before, and the second
/// request leaves the streams as the first one left them. Where the stream
/// did not exist it is created exactly once.
pub proof fn lemma_requests_converge(streams: Seq<StreamView>, owner: Seq<char>, work_type: WorkType)
    ensures
        ({
            let first_id = stream_id_given(streams, owner, work_type);
            let after_first = streams_after_request(streams, owner, work_type);
            let second_id = stream_id_given(after_first, owner, work_type);
            let after_second = streams_after_request(after_first, owner, work_type);
            &&& second_id == first_id
            &&& after_second == after_first
            &&& count_streams(streams, owner, work_type) == 0 ==> count_streams(
                after_second,
                owner,
                work_type,
            ) == 1 && after_second.len() == streams.len() + 1
            &&& count_streams(streams, owner, work_type) > 0 ==> after_second == streams
        }),
{
    lemma_find_stream(streams, owner, work_type);
    let after_first = streams_after_request(streams, owner, work_type);
    if find_stream(streams, owner, work_type).is_none() {
        assert(after_first.drop_last() =~= streams);
        lemma_find_stream(after_first, owner, work_type);
    }
}

/// A request for one stream leaves the stream of every other owner or kind
/// of work, and the id it is known by, as they were.
pub proof fn lemma_requests_are_independent(
    streams: Seq<StreamView>,
    owner: Seq<char>,
    work_type: WorkType,
    other_owner: Seq<char>,
    other_type: WorkType,
)
    requires
        owner != other_owner || work_type != other_type,
    ensures
        find_stream(streams_after_request(streams, owner, work_type), other_owner, other_type)
            == find_stream(streams, other_owner, other_type),
{
    let after = streams_after_request(streams, owner, work_type);
    if find_stream(streams, owner, work_type).is_none() {
        assert(after.drop_last() =~= streams);
    }
}

/// The streams known to the queue. The id of a stream is its position.
pub struct StreamTable {
    pub streams: Vec<Stream>,
}

impl View for StreamTable {
    type V = Seq<StreamView>;

    open spec fn view(&self) -> Seq<StreamView> {
        Seq::new(self.streams@.len(), |i: int| self.streams@[i]@)
    }
}

impl StreamTable {
    /// A table without streams.
    pub fn new() -> (table: Self)
        ensures
            table@ == Seq::<StreamView>::empty(),
    {
        let table = StreamTable { streams: Vec::new() };
        table
    }

    /// The id of the stream of `owner` for `work_type`, if it exists.
    pub fn get_stream(&self, owner: &str, work_type: WorkType) -> (id: Option<usize>)
        ensures
            match id {
                Some(i) => find_stream(self@, owner@, work_type) == Some(i as nat),
                None => find_stream(self@, owner@, work_type).is_none(),
            },
    {
        let who = String::from_str(owner);
        let mut i: usize = 0;
        while i < self.streams.len()
            invariant
                i <= self.streams@.len(),
                who@ == owner@,
                find_stream(self@.take(i as int), owner@, work_type).is_none(),
            decreases self.streams@.len() - i,
        {
            let hit = self.streams[i].owner == who && self.streams[i].work_type == work_type;
            proof {
                let upto = self@.take(i + 1);
                assert(upto.drop_last() =~= self@.take(i as int));
                if hit {
                    lemma_found_stays(self@, i + 1, owner@, work_type);
                }
            }
            if hit {
                return Some(i);
            }
            i += 1;
        }
        assert(self@.take(i as int) =~= self@);
        None
    }

    /// The id of the stream of `owner` for `work_type`, which is created
    /// with the parameters of its kind of work where it does not exist.
    pub fn get_or_create_stream(&mut self, owner: &str, work_type: WorkType) -> (id: usize)
        ensures
            final(self)@ == streams_after_request(old(self)@, owner@, work_type),
            id == stream_id_given(old(self)@, owner@, work_type),
    {
        match self.get_stream(owner, work_type) {
            Some(id) => id,
            None => {
                let id = self.streams.len();
                self.streams.push(
                    Stream {
                        owner: String::from_str(owner),
                        work_type,
                        settings: work_type.settings(),
                    },
                );
                id
            },
        }
    }

    /// The streams of the remote task channel, each created where it does
    /// not exist.
    pub fn remote_streams(&mut self) -> (ids: RemoteStreams)
        ensures
            final(self)@ == remote_streams_after(old(self)@, 6),
            ids.aux_stream == stream_id_given(old(self)@, REMOTE_OWNER@, WorkType::Aux),
            ids.exec_stream == stream_id_given(
                remote_streams_after(old(self)@, 1),
                REMOTE_OWNER@,
                WorkType::Exec,
            ),
            ids.gpu_prove_stream == stream_id_given(
                remote_streams_after(old(self)@, 2),
                REMOTE_OWNER@,
                WorkType::Prove,
            ),
            ids.gpu_coproc_stream == stream_id_given(
                remote_streams_after(old(self)@, 3),
                REMOTE_OWNER@,
                WorkType::Coproc,
            ),
            ids.gpu_join_stream == stream_id_given(
                remote_streams_after(old(self)@, 4),
                REMOTE_OWNER@,
                WorkType::Join,
            ),
            ids.snark_stream == stream_id_given(
                remote_streams_after(old(self)@, 5),
                REMOTE_OWNER@,
                WorkType::Snark,
            ),
    {
        reveal_with_fuel(remote_streams_after, 7);
        let aux_stream = self.get_or_create_stream(REMOTE_OWNER, WorkType::Aux);
        let exec_stream = self.get_or_create_stream(REMOTE_OWNER, WorkType::Exec);
        let gpu_prove_stream = self.get_or_create_stream(REMOTE_OWNER, WorkType::Prove);
        let gpu_coproc_stream = self.get_or_create_stream(REMOTE_OWNER, WorkType::Coproc);
        let gpu_join_stream = self.get_or_create_stream(REMOTE_OWNER, WorkType::Join);
        let snark_stream = self.get_or_create_stream(REMOTE_OWNER, WorkType::Snark);
        RemoteStreams {
            aux_stream,
            exec_stream,
            gpu_prove_stream,
            gpu_coproc_stream,
            gpu_join_stream,
            snark_stream,
        }
    }
}

/// The order in which the streams of the remote task channel are asked for.
pub open spec fn remote_stream_order(i: nat) -> WorkType {
    if i == 0 {
        WorkType::Aux
    } else if i == 1 {
        WorkType::Exec
    } else if i == 2 {
        WorkType::Prove
    } else if i == 3 {
        WorkType::Coproc
    } else if i == 4 {
        WorkType::Join
    } else {
        WorkType::Snark
    }
}

/// The streams after the first `count` streams of the remote task channel
/// have been asked for.
pub open spec fn remote_streams_after(streams: Seq<StreamView>, count: nat) -> Seq<StreamView>
    decreases count,
{
    if count == 0 {
        streams
    } else {
        streams_after_request(
            remote_streams_after(streams, (count - 1) as nat),
            REMOTE_OWNER@,
            remote_stream_order((count - 1) as nat),
        )
    }
}

/// Asking for the streams of the remote task channel never removes a stream,
/// and every id that is handed out is the id of a stream afterwards.
pub proof fn lemma_remote_streams(streams: Seq<StreamView>)
    ensures
        streams.len() <= remote_streams_after(streams, 6).len(),
        stream_id_given(remote_streams_after(streams, 1), REMOTE_OWNER@, WorkType::Exec)
            < remote_streams_after(streams, 6).len(),
        stream_id_given(remote_streams_after(streams, 5), REMOTE_OWNER@, WorkType::Snark)
            < remote_streams_after(streams, 6).len(),
{
    reveal_with_fuel(remote_streams_after, 7);
    lemma_find_stream(remote_streams_after(streams, 0), REMOTE_OWNER@, WorkType::Aux);
    lemma_find_stream(remote_streams_after(streams, 1), REMOTE_OWNER@, WorkType::Exec);
    lemma_find_stream(remote_streams_after(streams, 2), REMOTE_OWNER@, WorkType::Prove);
    lemma_find_stream(remote_streams_after(streams, 3), REMOTE_OWNER@, WorkType::Coproc);
    lemma_find_stream(remote_streams_after(streams, 4), REMOTE_OWNER@, WorkType::Join);
    lemma_find_stream(remote_streams_after(streams, 5), REMOTE_OWNER@, WorkType::Snark);
}

proof fn lemma_found_stays(streams: Seq<StreamView>, upto: int, owner: Seq<char>, work_type: WorkType)
    requires
        0 <= upto <= streams.len(),
        find_stream(streams.take(upto), owner, work_type).is_some(),
    ensures
        find_stream(streams, owner, work_type) == find_stream(streams.take(upto), owner, work_type),
    decreases streams.len() - upto,
{
    if upto < streams.len() {
        assert(streams.take(upto + 1).drop_last() =~= streams.take(upto));
        lemma_found_stays(streams, upto + 1, owner, work_type);
    } else {
        assert(streams.take(upto) =~= streams);
    }
}

} // verus!
