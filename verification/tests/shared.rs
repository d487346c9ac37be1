use radis::frame::PlainFrame;
use radis::session::Session;
use radis::shared::SharedStore;
use std::sync::Arc;
use tokio::sync::Barrier;

fn token(text: &str) -> PlainFrame {
    PlainFrame::Bulk(text.as_bytes().to_vec())
}

fn dispatching(frames: Vec<PlainFrame>) -> Session {
    Session::start().received(Some(PlainFrame::Array(frames)))
}

#[test]
fn new_shared_store_holds_no_key() {
    let shared = SharedStore::new();
    assert_eq!(shared.get("hello"), None);
    assert_eq!(shared.get(""), None);
    let read = shared.dispatch(dispatching(vec![token("get"), token("hello")]));
    assert_eq!(read, Session::Responding { response: PlainFrame::Null });
}

#[test]
fn handles_reach_the_same_store() {
    let first = SharedStore::new();
    let second = first.handle();
    assert_eq!(second.get("k"), None);
    first.set("k".to_string(), b"v".to_vec());
    assert_eq!(second.get("k"), Some(b"v".to_vec()));
    second.set("k".to_string(), b"w".to_vec());
    assert_eq!(first.get("k"), Some(b"w".to_vec()));
}

#[test]
fn new_stores_are_separate() {
    let first = SharedStore::new();
    let second = SharedStore::new();
    first.set("k".to_string(), b"v".to_vec());
    assert_eq!(second.get("k"), None);
}

#[test]
fn sessions_of_two_handles_share_the_store() {
    let writer = SharedStore::new();
    let reader = writer.handle();

    let written = writer.dispatch(dispatching(vec![token("set"), token("hello"), token("world")]));
    assert_eq!(written, Session::Responding { response: PlainFrame::Simple("OK".to_string()) });

    let read = reader.dispatch(dispatching(vec![token("get"), token("hello")]));
    assert_eq!(read, Session::Responding { response: PlainFrame::Bulk(b"world".to_vec()) });

    let missing = reader.dispatch(dispatching(vec![token("get"), token("missing")]));
    assert_eq!(missing, Session::Responding { response: PlainFrame::Null });
}

#[test]
fn shared_dispatch_leaves_other_states_alone() {
    let shared = SharedStore::new();
    assert_eq!(shared.dispatch(Session::start()), Session::Reading);
}

fn runtime() -> tokio::runtime::Runtime {
    tokio::runtime::Builder::new_multi_thread().worker_threads(4).enable_all().build().unwrap()
}

#[test]
fn ordered_sets_from_two_tasks_keep_the_later_value() {
    runtime().block_on(async {
        let shared = SharedStore::new();
        let barrier = Arc::new(Barrier::new(2));

        let first = {
            let shared = shared.handle();
            let barrier = barrier.clone();
            tokio::spawn(async move {
                shared.set("k".to_string(), b"v1".to_vec());
                barrier.wait().await;
            })
        };
        let second = {
            let shared = shared.handle();
            let barrier = barrier.clone();
            tokio::spawn(async move {
                barrier.wait().await;
                shared.set("k".to_string(), b"v2".to_vec());
            })
        };
        first.await.unwrap();
        second.await.unwrap();
        assert_eq!(shared.get("k"), Some(b"v2".to_vec()));
    });
}

#[test]
fn tasks_on_disjoint_keys_see_only_their_own_writes() {
    runtime().block_on(async {
        let shared = SharedStore::new();
        let workers: Vec<_> = (0..4u8)
            .map(|worker| {
                let shared = shared.handle();
                tokio::spawn(async move {
                    let key = format!("key{}", worker);
                    let mut seen = Vec::new();
                    for round in 0..50u8 {
                        shared.set(key.clone(), vec![worker, round]);
                        tokio::task::yield_now().await;
                        seen.push(shared.get(&key));
                    }
                    seen
                })
            })
            .collect();
        for (worker, task) in workers.into_iter().enumerate() {
            let seen = task.await.unwrap();
            let expected: Vec<_> =
                (0..50u8).map(|round| Some(vec![worker as u8, round])).collect();
            assert_eq!(seen, expected);
        }
    });
}
