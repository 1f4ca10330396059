use std::sync::{Arc, Mutex};

use todo_service::router::{handle, Request, Status};
use todo_service::store::Gateway;
use todo_service::todo::CreateTodo;

#[test]
fn concurrent_creates_all_succeed_with_distinct_ids() {
    let mut gateway = Gateway::open(":memory:").expect("an in-memory database opens");
    gateway
        .create(CreateTodo { author: "seed".to_string(), body: "zero".to_string() })
        .unwrap();
    let initial = gateway.list().unwrap().len();
    let shared = Arc::new(Mutex::new(gateway));

    let workers = 8;
    let each = 5;
    let runtime = tokio::runtime::Builder::new_multi_thread()
        .worker_threads(4)
        .build()
        .expect("a runtime starts");
    runtime.block_on(async {
        let mut tasks = Vec::new();
        for w in 0..workers {
            let shared = Arc::clone(&shared);
            tasks.push(tokio::spawn(async move {
                for i in 0..each {
                    let request = Request::Create(CreateTodo {
                        author: format!("worker {}", w),
                        body: format!("job {}", i),
                    });
                    let response = handle(&mut shared.lock().unwrap(), request);
                    assert_eq!(response.status, Status::Created);
                    tokio::task::yield_now().await;
                }
            }));
        }
        for task in tasks {
            task.await.expect("a worker finishes");
        }
    });

    let todos = shared.lock().unwrap().list().unwrap();
    assert_eq!(todos.len(), initial + workers * each);
    let mut ids: Vec<u64> = todos.iter().map(|t| t.id).collect();
    ids.sort();
    ids.dedup();
    assert_eq!(ids.len(), initial + workers * each);
    for w in 0..workers {
        let author = format!("worker {}", w);
        assert_eq!(todos.iter().filter(|t| t.author == author).count(), each);
    }
}
