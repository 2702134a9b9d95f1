use rlink::metadata::{
    Application, ApplicationDescriptor, MetadataStorage, MetadataStorageType, RetryPolicy,
    StorageError, Status, TMetadataStorage, TaskManagerDescriptor, TaskManagerStatus,
};

fn descriptor() -> ApplicationDescriptor {
    ApplicationDescriptor {
        job_manager_status: TaskManagerStatus::Pending,
        task_managers: vec![
            TaskManagerDescriptor {
                task_manager_id: "tm-0".to_string(),
                task_manager_address: "10.0.0.1:70".to_string(),
                metrics_address: "10.0.0.1:71".to_string(),
                task_status: TaskManagerStatus::Pending,
            },
            TaskManagerDescriptor {
                task_manager_id: "tm-1".to_string(),
                task_manager_address: "10.0.0.2:70".to_string(),
                metrics_address: "10.0.0.2:71".to_string(),
                task_status: TaskManagerStatus::Pending,
            },
        ],
    }
}

#[test]
fn application_starts_ready() {
    let app = Application::new("app-1".to_string(), "job.bin".to_string());
    assert_eq!(app.application_id, "app-1");
    assert_eq!(app.execute_file, "job.bin");
    assert_eq!(app.status, Status::Ready);
    let copy = app.clone();
    assert!(copy == app);
}

#[test]
fn read_on_empty_store_fails() {
    let storage = MetadataStorage::new(&MetadataStorageType::Memory);
    assert!(matches!(
        storage.read_job_descriptor(),
        Err(StorageError::NoDescriptor)
    ));
}

#[test]
fn save_then_read_then_delete() {
    let mut storage = MetadataStorage::new(&MetadataStorageType::Memory);
    storage.save_job_descriptor(descriptor()).unwrap();
    let read = storage.read_job_descriptor().unwrap();
    assert_eq!(read.job_manager_status, TaskManagerStatus::Pending);
    assert_eq!(read.task_managers.len(), 2);
    assert_eq!(read.task_managers[1].task_manager_id, "tm-1");

    storage.delete_job_descriptor().unwrap();
    assert!(storage.read_job_descriptor().is_err());
}

#[test]
fn update_job_status_replaces_coordinator_status() {
    let mut storage = MetadataStorage::new(&MetadataStorageType::Memory);
    assert!(matches!(
        storage.update_job_status(TaskManagerStatus::Registered),
        Err(StorageError::NoDescriptor)
    ));
    storage.save_job_descriptor(descriptor()).unwrap();
    storage.update_job_status(TaskManagerStatus::Registered).unwrap();
    let read = storage.read_job_descriptor().unwrap();
    assert_eq!(read.job_manager_status, TaskManagerStatus::Registered);
}

#[test]
fn update_task_status_touches_only_the_named_task_manager() {
    let mut storage = MetadataStorage::new(&MetadataStorageType::Memory);
    storage.save_job_descriptor(descriptor()).unwrap();
    storage
        .update_task_status(
            "tm-1",
            "10.0.0.9:70",
            TaskManagerStatus::Registered,
            "10.0.0.9:71",
        )
        .unwrap();
    let read = storage.read_job_descriptor().unwrap();
    assert_eq!(read.task_managers[0].task_status, TaskManagerStatus::Pending);
    assert_eq!(read.task_managers[0].task_manager_address, "10.0.0.1:70");
    assert_eq!(read.task_managers[1].task_status, TaskManagerStatus::Registered);
    assert_eq!(read.task_managers[1].task_manager_address, "10.0.0.9:70");
    assert_eq!(read.task_managers[1].metrics_address, "10.0.0.9:71");
}

#[test]
fn update_task_status_fails_for_unknown_id() {
    let mut storage = MetadataStorage::new(&MetadataStorageType::Memory);
    storage.save_job_descriptor(descriptor()).unwrap();
    assert!(matches!(
        storage.update_task_status(
            "tm-9",
            "x",
            TaskManagerStatus::Registered,
            "y"
        ),
        Err(StorageError::TaskManagerNotFound)
    ));
}

#[test]
fn update_task_status_on_empty_store_names_the_missing_descriptor() {
    let mut storage = MetadataStorage::new(&MetadataStorageType::Memory);
    assert!(matches!(
        storage.update_task_status(
            "tm-0",
            "x",
            TaskManagerStatus::Registered,
            "y"
        ),
        Err(StorageError::NoDescriptor)
    ));
}

#[test]
fn retry_policy_waits_one_interval_and_zero_delay_is_injectable() {
    let policy = RetryPolicy::new(2_000);
    assert_eq!(policy.delay_after_failure(&StorageError::NoDescriptor), 2_000);
    assert_eq!(
        policy.delay_after_failure(&StorageError::TaskManagerNotFound),
        2_000
    );
    let instant = RetryPolicy::new(0);
    assert_eq!(instant.delay_after_failure(&StorageError::NoDescriptor), 0);
}
