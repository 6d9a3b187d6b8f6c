use workflow::stream::{
    RemoteStreams, StreamSettings, StreamTable, AUX_WORK_TYPE, COPROC_WORK_TYPE, EXEC_WORK_TYPE,
    JOIN_WORK_TYPE, PROVE_WORK_TYPE, REMOTE_OWNER, SNARK_WORK_TYPE,
};
use workflow::work::{Stage, WorkType};

const ALL: [WorkType; 6] = [
    WorkType::Aux,
    WorkType::Exec,
    WorkType::Prove,
    WorkType::Coproc,
    WorkType::Join,
    WorkType::Snark,
];

#[test]
fn work_types_have_their_names() {
    assert_eq!(WorkType::Aux.name(), "aux");
    assert_eq!(WorkType::Exec.name(), "exec");
    assert_eq!(WorkType::Prove.name(), "prove");
    assert_eq!(WorkType::Coproc.name(), "coproc");
    assert_eq!(WorkType::Join.name(), "join");
    assert_eq!(WorkType::Snark.name(), "snark");
    assert_eq!(
        [
            AUX_WORK_TYPE,
            EXEC_WORK_TYPE,
            PROVE_WORK_TYPE,
            COPROC_WORK_TYPE,
            JOIN_WORK_TYPE,
            SNARK_WORK_TYPE
        ],
        ["aux", "exec", "prove", "coproc", "join", "snark"]
    );
    assert_eq!(REMOTE_OWNER, "grpc");
}

#[test]
fn names_read_back_to_their_work_type() {
    for w in ALL {
        assert_eq!(WorkType::from_name(w.name()), Some(w));
    }
    assert_eq!(WorkType::from_name("EXEC"), None);
    assert_eq!(WorkType::from_name(""), None);
    assert_eq!(WorkType::from_name("exec "), None);
}

#[test]
fn default_settings_are_fixed_per_work_type() {
    assert_eq!(WorkType::Aux.settings(), StreamSettings { reserved: 1, weight: 1 });
    assert_eq!(WorkType::Exec.settings(), StreamSettings { reserved: 1, weight: 1 });
    assert_eq!(WorkType::Prove.settings(), StreamSettings { reserved: 2, weight: 2 });
    assert_eq!(WorkType::Coproc.settings(), StreamSettings { reserved: 0, weight: 1 });
    assert_eq!(WorkType::Join.settings(), StreamSettings { reserved: 0, weight: 2 });
    assert_eq!(WorkType::Snark.settings(), StreamSettings { reserved: 0, weight: 1 });
}

#[test]
fn stages_are_routed_to_their_stream() {
    assert_eq!(Stage::Executor.work_type(), WorkType::Exec);
    assert_eq!(Stage::Prove.work_type(), WorkType::Prove);
    assert_eq!(Stage::Join.work_type(), WorkType::Join);
    assert_eq!(Stage::Resolve.work_type(), WorkType::Join);
    assert_eq!(Stage::Finalize.work_type(), WorkType::Aux);
    assert_eq!(Stage::Snark.work_type(), WorkType::Snark);
    assert_eq!(Stage::Keccak.work_type(), WorkType::Coproc);
    assert_eq!(Stage::Union.work_type(), WorkType::Coproc);
}

#[test]
fn stream_is_created_once_for_two_callers() {
    let mut table = StreamTable::new();
    assert_eq!(table.get_stream("tenant", WorkType::Prove), None);
    let first = table.get_or_create_stream("tenant", WorkType::Prove);
    let second = table.get_or_create_stream("tenant", WorkType::Prove);
    assert_eq!(first, second);
    assert_eq!(table.streams.len(), 1);
    assert_eq!(table.get_stream("tenant", WorkType::Prove), Some(first));
    assert_eq!(table.streams[first].owner, "tenant");
    assert_eq!(table.streams[first].work_type, WorkType::Prove);
    assert_eq!(table.streams[first].settings, StreamSettings { reserved: 2, weight: 2 });
}

#[test]
fn streams_differ_by_owner_and_work_type() {
    let mut table = StreamTable::new();
    let a = table.get_or_create_stream("a", WorkType::Exec);
    let b = table.get_or_create_stream("b", WorkType::Exec);
    let c = table.get_or_create_stream("a", WorkType::Join);
    assert_eq!((a, b, c), (0, 1, 2));
    assert_eq!(table.get_or_create_stream("b", WorkType::Exec), b);
    assert_eq!(table.get_or_create_stream("a", WorkType::Exec), a);
    assert_eq!(table.get_stream("b", WorkType::Join), None);
    assert_eq!(table.streams.len(), 3);
}

#[test]
fn remote_streams_are_created_in_order_and_reused() {
    let mut table = StreamTable::new();
    let other = table.get_or_create_stream("someone", WorkType::Exec);
    let first = table.remote_streams();
    assert_eq!(
        first,
        RemoteStreams {
            aux_stream: 1,
            exec_stream: 2,
            gpu_prove_stream: 3,
            gpu_coproc_stream: 4,
            gpu_join_stream: 5,
            snark_stream: 6,
        }
    );
    assert_eq!(table.remote_streams(), first);
    assert_eq!(table.streams.len(), 7);
    assert_eq!(table.get_stream("someone", WorkType::Exec), Some(other));
    assert_eq!(table.get_stream("grpc", WorkType::Snark), Some(6));
}

#[test]
fn accelerator_streams_weigh_more_than_the_executor_stream() {
    assert!(WorkType::Prove.settings().weight > WorkType::Exec.settings().weight);
    assert!(WorkType::Join.settings().weight > WorkType::Exec.settings().weight);
}
