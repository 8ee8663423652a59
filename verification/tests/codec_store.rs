//! The durable record codec and restart recovery: records read back as
//! the tasks they were written from, and hydration rejects what is not a
//! well-formed record.

use angel_core::codec::{decode_task, encode_task};
use angel_core::gateway::{get_task, GetTaskReq, GetTaskResp};
use angel_core::scheduler::CognitiveSystem;
use angel_core::task::{Task, TaskStatus};

#[test]
fn encode_exact_record() {
    let t = Task {
        id: "u1".to_string(),
        description: "buy milk".to_string(),
        step: 0,
        status: TaskStatus::Active,
    };
    assert_eq!(encode_task(&t), "2\nu18\nbuy milk0\na");
}

#[test]
fn round_trip_simple() {
    let t = Task {
        id: "u1".to_string(),
        description: "buy milk".to_string(),
        step: 13,
        status: TaskStatus::Completed,
    };
    let r = decode_task(&encode_task(&t)).expect("record decodes");
    assert_eq!(r.id, "u1");
    assert_eq!(r.description, "buy milk");
    assert_eq!(r.step, 13);
    assert!(matches!(r.status, TaskStatus::Completed));
}

#[test]
fn round_trip_awkward_text() {
    let t = Task {
        id: "user\n42".to_string(),
        description: "héllo \"world\"\n\\🚀 12\n34".to_string(),
        step: 4294967295,
        status: TaskStatus::Failed,
    };
    let r = decode_task(&encode_task(&t)).expect("record decodes");
    assert_eq!(r.id, t.id);
    assert_eq!(r.description, t.description);
    assert_eq!(r.step, t.step);
    assert!(matches!(r.status, TaskStatus::Failed));
}

#[test]
fn round_trip_empty_fields() {
    let t = Task {
        id: "".to_string(),
        description: "".to_string(),
        step: 0,
        status: TaskStatus::Pending,
    };
    let r = decode_task(&encode_task(&t)).expect("record decodes");
    assert_eq!(r.id, "");
    assert_eq!(r.description, "");
    assert_eq!(r.step, 0);
    assert!(matches!(r.status, TaskStatus::Pending));
}

#[test]
fn decode_rejects_junk() {
    assert!(decode_task("").is_none());
    assert!(decode_task("hello").is_none());
    assert!(decode_task("2\nu1").is_none());
    assert!(decode_task("2\nu18\nbuy milk0\n").is_none());
    assert!(decode_task("2\nu18\nbuy milk0\nz").is_none());
    assert!(decode_task("2\nu18\nbuy milk0\naa").is_none());
    assert!(decode_task("99\nu18\nbuy milk0\na").is_none());
    // A step beyond the counter's range is rejected.
    assert!(decode_task("2\nu11\nd4294967296\na").is_none());
    // A numeral beyond the reader's range is rejected rather than wrapped.
    assert!(decode_task("2\nu11\nd99999999999999999999\na").is_none());
}

#[test]
fn restart_recovery_after_assignment() {
    let mut sys = CognitiveSystem::new();
    let record = sys.set_goal("u1".to_string(), "water the plants".to_string());

    // The process restarts before the next tick: only the durable
    // records survive.
    let store: Vec<(String, String)> = vec![record];
    let revived = CognitiveSystem::hydrate(&store);
    match get_task(&revived, &GetTaskReq { user_id: "u1".to_string() }) {
        GetTaskResp::Found(s) => {
            assert_eq!(s.description, "water the plants");
            assert_eq!(s.step, 0);
            assert!(matches!(s.status, TaskStatus::Active));
        },
        GetTaskResp::NotFound => panic!("assigned task must survive the restart"),
    }
}

#[test]
fn restart_recovery_mid_task() {
    let mut sys = CognitiveSystem::new();
    sys.set_goal("u1".to_string(), "long errand".to_string());
    sys.tick_update("u1", false);
    let record = sys.tick_update("u1", false).expect("task exists");

    let revived = CognitiveSystem::hydrate(&vec![record]);
    match get_task(&revived, &GetTaskReq { user_id: "u1".to_string() }) {
        GetTaskResp::Found(s) => {
            assert_eq!(s.description, "long errand");
            assert_eq!(s.step, 2);
            assert!(matches!(s.status, TaskStatus::Active));
        },
        GetTaskResp::NotFound => panic!("ticked task must survive the restart"),
    }
}

#[test]
fn hydrate_skips_undecodable_and_misfiled_records() {
    let good = Task {
        id: "u2".to_string(),
        description: "ok".to_string(),
        step: 3,
        status: TaskStatus::Active,
    };
    let store: Vec<(String, String)> = vec![
        ("u1".to_string(), "not a record".to_string()),
        // Filed under a key other than the task's own id.
        ("someone-else".to_string(), encode_task(&good)),
        ("u2".to_string(), encode_task(&good)),
        // An active task past the step ceiling is not well formed.
        (
            "u3".to_string(),
            encode_task(
                &Task {
                    id: "u3".to_string(),
                    description: "stale".to_string(),
                    step: 25,
                    status: TaskStatus::Active,
                },
            ),
        ),
    ];
    let sys = CognitiveSystem::hydrate(&store);
    assert!(matches!(
        get_task(&sys, &GetTaskReq { user_id: "u1".to_string() }),
        GetTaskResp::NotFound
    ));
    assert!(matches!(
        get_task(&sys, &GetTaskReq { user_id: "someone-else".to_string() }),
        GetTaskResp::NotFound
    ));
    assert!(matches!(
        get_task(&sys, &GetTaskReq { user_id: "u3".to_string() }),
        GetTaskResp::NotFound
    ));
    match get_task(&sys, &GetTaskReq { user_id: "u2".to_string() }) {
        GetTaskResp::Found(s) => assert_eq!(s.step, 3),
        GetTaskResp::NotFound => panic!("good record must load"),
    }
}

#[test]
fn hydrate_takes_the_last_record_for_a_key() {
    let older = Task {
        id: "u1".to_string(),
        description: "old".to_string(),
        step: 1,
        status: TaskStatus::Active,
    };
    let newer = Task {
        id: "u1".to_string(),
        description: "new".to_string(),
        step: 0,
        status: TaskStatus::Active,
    };
    let store: Vec<(String, String)> = vec![
        ("u1".to_string(), encode_task(&older)),
        ("u1".to_string(), encode_task(&newer)),
    ];
    let sys = CognitiveSystem::hydrate(&store);
    match get_task(&sys, &GetTaskReq { user_id: "u1".to_string() }) {
        GetTaskResp::Found(s) => {
            assert_eq!(s.description, "new");
            assert_eq!(s.step, 0);
        },
        GetTaskResp::NotFound => panic!("record must load"),
    }
}

#[test]
fn hydrate_keeps_terminal_tasks_out_of_ticks() {
    let done = Task {
        id: "u1".to_string(),
        description: "finished".to_string(),
        step: 21,
        status: TaskStatus::Failed,
    };
    let sys = CognitiveSystem::hydrate(&vec![("u1".to_string(), encode_task(&done))]);
    assert!(sys.active_users().is_empty());
}
