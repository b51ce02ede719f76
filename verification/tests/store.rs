use serde_json::Number;
use std::collections::BTreeMap;
use std::collections::BTreeSet;
use transaction_store::load_transactions;
use transaction_store::save_transactions;
use transaction_store::Operation;
use transaction_store::Reply;
use transaction_store::Request;
use transaction_store::StoreError;
use transaction_store::Task;
use transaction_store::Transaction;

/// A host in memory. A fault set here is reported in place of doing the work.
struct Host {
    data_directory: Option<String>,
    directories: BTreeSet<String>,
    files: BTreeMap<(String, String), String>,
    create_fault: Option<String>,
    read_fault: Option<String>,
    write_fault: Option<String>,
    served: Vec<Request>,
}

impl Host {
    fn new(data_directory: Option<&str>) -> Host {
        Host {
            data_directory: data_directory.map(|directory| directory.to_string()),
            directories: BTreeSet::new(),
            files: BTreeMap::new(),
            create_fault: None,
            read_fault: None,
            write_fault: None,
            served: Vec::new(),
        }
    }

    fn with_file(mut self, text: &str) -> Host {
        let directory = self.data_directory.clone().unwrap();
        self.directories.insert(directory.clone());
        self.files.insert((directory, "transactions.json".to_string()), text.to_string());
        self
    }

    fn file(&self) -> Option<&String> {
        let directory = self.data_directory.clone().unwrap();
        self.files.get(&(directory, "transactions.json".to_string()))
    }

    fn serve(&mut self, request: Request) -> Reply {
        self.served.push(request.clone());
        match request {
            Request::DataDirectory => Reply::DataDirectory(self.data_directory.clone()),
            Request::CreateDirectory { directory } => match self.create_fault.clone() {
                Some(fault) => Reply::DirectoryCreated(Err(fault)),
                None => {
                    self.directories.insert(directory);
                    Reply::DirectoryCreated(Ok(()))
                }
            },
            Request::Probe { directory, file_name } => {
                Reply::Probed(self.files.contains_key(&(directory, file_name)))
            }
            Request::Read { directory, file_name } => match self.read_fault.clone() {
                Some(fault) => Reply::Contents(Err(fault)),
                None => match self.files.get(&(directory, file_name)) {
                    Some(text) => Reply::Contents(Ok(text.clone())),
                    None => Reply::Contents(Err("no such file".to_string())),
                },
            },
            Request::Write { directory, file_name, contents } => match self.write_fault.clone() {
                Some(fault) => Reply::Written(Err(fault)),
                None => {
                    if self.directories.contains(&directory) {
                        self.files.insert((directory, file_name), contents);
                        Reply::Written(Ok(()))
                    } else {
                        Reply::Written(Err("no such directory".to_string()))
                    }
                }
            },
        }
    }

    fn run(&mut self, task: Task) -> Task {
        let mut task = task;
        let mut steps = 0;
        while let Some(request) = task.request() {
            let reply = self.serve(request);
            task = task.advance(reply);
            steps += 1;
            assert!(steps <= 4);
        }
        task
    }

    fn save(&mut self, records: Vec<Transaction>) -> Result<(), StoreError> {
        match self.run(save_transactions(records)) {
            Task::Saved(outcome) => outcome,
            other => panic!("a save ended as {:?}", other),
        }
    }

    fn load(&mut self) -> Result<Vec<Transaction>, StoreError> {
        match self.run(load_transactions()) {
            Task::Loaded(outcome) => outcome,
            other => panic!("a load ended as {:?}", other),
        }
    }
}

fn record(id: &str, description: &str, amount: f64) -> Transaction {
    Transaction {
        id: id.to_string(),
        description: description.to_string(),
        amount: Number::from_f64(amount).unwrap(),
        transaction_type: "expense".to_string(),
        category: "Food".to_string(),
        account: "Checking".to_string(),
        month: "2024-01".to_string(),
        date: "2024-01-15".to_string(),
    }
}

fn probe() -> Request {
    Request::Probe { directory: "/data/app".to_string(), file_name: "transactions.json".to_string() }
}

#[test]
fn scenario_save_coffee_then_load() {
    let saved = vec![Transaction {
        id: "1".to_string(),
        description: "Coffee".to_string(),
        amount: Number::from_f64(-4.50).unwrap(),
        transaction_type: "expense".to_string(),
        category: "Food".to_string(),
        account: "Checking".to_string(),
        month: "2024-01".to_string(),
        date: "2024-01-15".to_string(),
    }];
    let mut host = Host::new(Some("/data/app"));
    assert_eq!(host.save(saved.clone()), Ok(()));
    let loaded = host.load().unwrap();
    assert_eq!(loaded.len(), 1);
    assert_eq!(loaded, saved);
    assert_eq!(loaded[0].id, "1");
    assert_eq!(loaded[0].description, "Coffee");
    assert_eq!(loaded[0].amount.as_f64(), Some(-4.50));
    assert_eq!(loaded[0].transaction_type, "expense");
    assert_eq!(loaded[0].category, "Food");
    assert_eq!(loaded[0].account, "Checking");
    assert_eq!(loaded[0].month, "2024-01");
    assert_eq!(loaded[0].date, "2024-01-15");
}

#[test]
fn save_then_load_returns_the_collection() {
    let records = vec![record("b", "Tea", 2.25), record("a", "Rent", -900.0), record("b", "Tea", 2.25)];
    let mut host = Host::new(Some("/data/app"));
    assert_eq!(host.save(records.clone()), Ok(()));
    assert_eq!(host.load(), Ok(records));
}

#[test]
fn save_then_load_of_the_empty_collection() {
    let mut host = Host::new(Some("/data/app"));
    assert_eq!(host.save(Vec::new()), Ok(()));
    assert_eq!(host.file(), Some(&"[]".to_string()));
    assert_eq!(host.load(), Ok(Vec::new()));
}

#[test]
fn first_load_returns_the_empty_collection() {
    let mut host = Host::new(Some("/data/app"));
    assert_eq!(host.load(), Ok(Vec::new()));
    assert_eq!(host.file(), None);
    assert_eq!(
        host.served,
        vec![
            Request::DataDirectory,
            Request::CreateDirectory { directory: "/data/app".to_string() },
            probe(),
        ]
    );
}

#[test]
fn second_save_replaces_the_first() {
    let first = vec![record("1", "Coffee", -4.5), record("2", "Tea", -3.0)];
    let second = vec![record("3", "Rent", -900.0)];
    let mut host = Host::new(Some("/data/app"));
    assert_eq!(host.save(first), Ok(()));
    assert_eq!(host.save(second.clone()), Ok(()));
    assert_eq!(host.load(), Ok(second));
}

#[test]
fn save_has_the_directory_created_before_it_writes() {
    let mut host = Host::new(Some("/data/app"));
    assert!(host.directories.is_empty());
    assert_eq!(host.save(vec![record("1", "Coffee", -4.5)]), Ok(()));
    assert!(host.directories.contains("/data/app"));
    assert_eq!(host.served.len(), 3);
    assert_eq!(host.served[0], Request::DataDirectory);
    assert_eq!(host.served[1], Request::CreateDirectory { directory: "/data/app".to_string() });
    match &host.served[2] {
        Request::Write { directory, file_name, contents } => {
            assert_eq!(directory, "/data/app");
            assert_eq!(file_name, "transactions.json");
            assert_eq!(Some(contents), host.file());
            assert!(contents.starts_with("[\n  {\n    \"id\": \"1\","));
        }
        other => panic!("the third request was {:?}", other),
    }
}

#[test]
fn load_asks_for_the_directory_the_file_and_its_text() {
    let mut host = Host::new(Some("/data/app")).with_file("[]");
    assert_eq!(host.load(), Ok(Vec::new()));
    assert_eq!(
        host.served,
        vec![
            Request::DataDirectory,
            Request::CreateDirectory { directory: "/data/app".to_string() },
            probe(),
            Request::Read {
                directory: "/data/app".to_string(),
                file_name: "transactions.json".to_string()
            },
        ]
    );
}

#[test]
fn load_of_a_malformed_file_fails() {
    let mut host = Host::new(Some("/data/app")).with_file("[{\"id\": \"1\", \"descr");
    match host.load() {
        Err(StoreError::Deserialization(detail)) => {
            assert_eq!(detail, "EOF while parsing a string at line 1 column 19")
        }
        other => panic!("the load ended as {:?}", other),
    }
    let mut host = Host::new(Some("/data/app")).with_file("[{\"id\": \"1\"}]");
    assert_eq!(
        host.load(),
        Err(StoreError::Deserialization("missing field `description`".to_string()))
    );
    let mut host = Host::new(Some("/data/app")).with_file("");
    match host.load() {
        Err(error) => assert_eq!(
            error.message(),
            "Failed to parse transactions: EOF while parsing a value at line 1 column 0"
        ),
        other => panic!("the load ended as {:?}", other),
    }
}

#[test]
fn both_operations_fail_without_a_data_directory() {
    let mut host = Host::new(None);
    assert_eq!(host.save(vec![record("1", "Coffee", -4.5)]), Err(StoreError::PathResolution));
    assert_eq!(host.load(), Err(StoreError::PathResolution));
    assert_eq!(host.served, vec![Request::DataDirectory, Request::DataDirectory]);
    assert!(host.files.is_empty());
    assert!(host.directories.is_empty());
}

#[test]
fn both_operations_fail_when_the_directory_cannot_be_created() {
    let mut host = Host::new(Some("/data/app"));
    host.create_fault = Some("Permission denied (os error 13)".to_string());
    let expected = StoreError::DirectoryCreation("Permission denied (os error 13)".to_string());
    assert_eq!(host.save(vec![record("1", "Coffee", -4.5)]), Err(expected.clone()));
    assert_eq!(host.load(), Err(expected.clone()));
    assert_eq!(
        expected.message(),
        "Failed to get data file path: Permission denied (os error 13)"
    );
    assert_eq!(host.served.len(), 4);
    assert!(host.files.is_empty());
}

#[test]
fn save_fails_when_the_file_cannot_be_written() {
    let mut host = Host::new(Some("/data/app")).with_file("[]");
    host.write_fault = Some("No space left on device (os error 28)".to_string());
    assert_eq!(
        host.save(vec![record("1", "Coffee", -4.5)]),
        Err(StoreError::Write("No space left on device (os error 28)".to_string()))
    );
    assert_eq!(host.file(), Some(&"[]".to_string()));
}

#[test]
fn load_fails_when_the_file_cannot_be_read() {
    let mut host = Host::new(Some("/data/app")).with_file("[]");
    host.read_fault = Some("Permission denied (os error 13)".to_string());
    assert_eq!(
        host.load(),
        Err(StoreError::Read("Permission denied (os error 13)".to_string()))
    );
}

#[test]
fn load_changes_nothing_and_can_be_repeated() {
    let records = vec![record("1", "Coffee", -4.5)];
    let mut host = Host::new(Some("/data/app"));
    assert_eq!(host.save(records.clone()), Ok(()));
    let text = host.file().cloned();
    assert_eq!(host.load(), Ok(records.clone()));
    assert_eq!(host.load(), Ok(records));
    assert_eq!(host.file().cloned(), text);
}

#[test]
fn saving_twice_leaves_the_same_file() {
    let records = vec![record("1", "Coffee", -4.5), record("2", "Tea", -3.0)];
    let mut host = Host::new(Some("/data/app"));
    assert_eq!(host.save(records.clone()), Ok(()));
    let once = host.file().cloned();
    assert_eq!(host.save(records), Ok(()));
    assert_eq!(host.file().cloned(), once);
    assert_eq!(host.files.len(), 1);
}

#[test]
fn a_new_task_asks_for_the_data_directory() {
    let save = save_transactions(vec![record("1", "Coffee", -4.5)]);
    assert_eq!(
        save,
        Task::Locating { operation: Operation::Save(vec![record("1", "Coffee", -4.5)]) }
    );
    assert_eq!(save.request(), Some(Request::DataDirectory));
    let load = load_transactions();
    assert_eq!(load, Task::Locating { operation: Operation::Load });
    assert_eq!(load.request(), Some(Request::DataDirectory));
}

#[test]
fn each_reply_leads_to_the_next_task() {
    let task = load_transactions().advance(Reply::DataDirectory(Some("/data/app".to_string())));
    assert_eq!(
        task,
        Task::Preparing { operation: Operation::Load, directory: "/data/app".to_string() }
    );
    let task = task.advance(Reply::DirectoryCreated(Ok(())));
    assert_eq!(task, Task::Probing { directory: "/data/app".to_string() });
    let task = task.advance(Reply::Probed(true));
    assert_eq!(task, Task::Reading { directory: "/data/app".to_string() });
    let task = task.advance(Reply::Contents(Ok("[]".to_string())));
    assert_eq!(task, Task::Loaded(Ok(Vec::new())));
    assert_eq!(task.request(), None);

    let task = save_transactions(Vec::new())
        .advance(Reply::DataDirectory(Some("/data/app".to_string())))
        .advance(Reply::DirectoryCreated(Ok(())));
    assert_eq!(
        task,
        Task::Writing { directory: "/data/app".to_string(), contents: "[]".to_string() }
    );
    let task = task.advance(Reply::Written(Ok(())));
    assert_eq!(task, Task::Saved(Ok(())));
    assert_eq!(task.request(), None);
}

#[test]
fn a_reply_that_answers_another_request_changes_nothing() {
    let task = load_transactions().advance(Reply::Probed(true));
    assert_eq!(task, load_transactions());
    let task = task
        .advance(Reply::DataDirectory(Some("/data/app".to_string())))
        .advance(Reply::DataDirectory(None));
    assert_eq!(
        task,
        Task::Preparing { operation: Operation::Load, directory: "/data/app".to_string() }
    );
    let task = task.advance(Reply::DirectoryCreated(Ok(()))).advance(Reply::Written(Ok(())));
    assert_eq!(task, Task::Probing { directory: "/data/app".to_string() });
    let task = task.advance(Reply::Probed(true)).advance(Reply::Probed(false));
    assert_eq!(task, Task::Reading { directory: "/data/app".to_string() });
    let task = save_transactions(Vec::new())
        .advance(Reply::DataDirectory(Some("/data/app".to_string())))
        .advance(Reply::DirectoryCreated(Ok(())))
        .advance(Reply::Contents(Ok("[]".to_string())));
    assert_eq!(
        task,
        Task::Writing { directory: "/data/app".to_string(), contents: "[]".to_string() }
    );
}

#[test]
fn a_task_that_has_ended_stays_as_it_is() {
    let saved = Task::Saved(Err(StoreError::Write("full".to_string())));
    assert_eq!(
        saved.advance(Reply::Written(Ok(()))),
        Task::Saved(Err(StoreError::Write("full".to_string())))
    );
    let loaded = Task::Loaded(Ok(vec![record("1", "Coffee", -4.5)]));
    assert_eq!(
        loaded.advance(Reply::Probed(false)),
        Task::Loaded(Ok(vec![record("1", "Coffee", -4.5)]))
    );
}

#[test]
fn the_caller_is_told_the_result_or_the_message() {
    let mut host = Host::new(Some("/data/app"));
    let records = vec![record("1", "Coffee", -4.5)];
    assert_eq!(host.run(save_transactions(records.clone())).saved(), Some(Ok(())));
    assert_eq!(host.run(load_transactions()).loaded(), Some(Ok(records)));
    host.write_fault = Some("disk full".to_string());
    assert_eq!(
        host.run(save_transactions(Vec::new())).saved(),
        Some(Err("Failed to write transactions file: disk full".to_string()))
    );
    host.read_fault = Some("denied".to_string());
    assert_eq!(
        host.run(load_transactions()).loaded(),
        Some(Err("Failed to read transactions file: denied".to_string()))
    );
    let mut nowhere = Host::new(None);
    assert_eq!(
        nowhere.run(load_transactions()).loaded(),
        Some(Err("Failed to get data file path: Failed to get app data directory".to_string()))
    );
}

#[test]
fn nothing_is_told_before_the_end_or_of_the_other_operation() {
    assert_eq!(save_transactions(Vec::new()).saved(), None);
    assert_eq!(load_transactions().loaded(), None);
    assert_eq!(Task::Probing { directory: "/data/app".to_string() }.loaded(), None);
    assert_eq!(Task::Saved(Ok(())).loaded(), None);
    assert_eq!(Task::Loaded(Ok(Vec::new())).saved(), None);
}
