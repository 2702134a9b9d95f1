//! Metadata of a running application and its storage.
//!
//! The data plane's task-resolution logic transitively depends on a
//! descriptor of the application: the status of the coordinator and of each
//! task manager.  `MetadataStorage` is a capability interface (save, delete,
//! read, update status) with one in-memory backend today and room for other
//! backends later, selected at construction time.

use vstd::prelude::*;

verus! {

/// Lifecycle status of a deployed application.
#[derive(Clone, Copy, Debug, PartialEq, Eq, Structural)]
pub enum Status {
    Ready,
    Running,
    Killed,
}

/// Descriptor of one deployed application: its identity, its executable and
/// its lifecycle status.  Serialized as text to a fixed file by the
/// deployment collaborator; only its shape matters to the data plane.
#[derive(Debug)]
pub struct Application {
    pub application_id: String,
    pub execute_file: String,
    pub status: Status,
}

/// The mathematical value of an [`Application`].
pub struct ApplicationView {
    pub application_id: Seq<char>,
    pub execute_file: Seq<char>,
    pub status: Status,
}

impl View for Application {
    type V = ApplicationView;

    open spec fn view(&self) -> ApplicationView {
        ApplicationView {
            application_id: self.application_id@,
            execute_file: self.execute_file@,
            status: self.status,
        }
    }
}

impl Application {
    /// A fresh application starts `Ready`.
    pub fn new(application_id: String, execute_file: String) -> (a: Application)
        ensures
            a@.application_id == application_id@,
            a@.execute_file == execute_file@,
            a@.status == Status::Ready,
    {
        Application { application_id, execute_file, status: Status::Ready }
    }
}

impl Clone for Application {
    fn clone(&self) -> (r: Self)
        ensures
            r@ == self@,
    {
        Application {
            application_id: self.application_id.clone(),
            execute_file: self.execute_file.clone(),
            status: self.status,
        }
    }
}

impl PartialEq for Application {
    fn eq(&self, other: &Self) -> (r: bool) {
        self.application_id == other.application_id && self.execute_file == other.execute_file
            && self.status == other.status
    }
}

impl vstd::std_specs::cmp::PartialEqSpecImpl for Application {
    open spec fn obeys_eq_spec() -> bool {
        true
    }

    open spec fn eq_spec(&self, other: &Self) -> bool {
        self@.application_id == other@.application_id && self@.execute_file
            == other@.execute_file && self@.status == other@.status
    }
}

/// Registration status of a coordinator or task manager.
#[derive(Clone, Copy, Debug, PartialEq, Eq, Structural)]
pub enum TaskManagerStatus {
    /// Waiting for the process to register itself.
    Pending,
    /// The process has registered and serves traffic.
    Registered,
}

/// One task manager as the coordinator sees it.
#[derive(Debug)]
pub struct TaskManagerDescriptor {
    pub task_manager_id: String,
    pub task_manager_address: String,
    pub metrics_address: String,
    pub task_status: TaskManagerStatus,
}

/// The mathematical value of a [`TaskManagerDescriptor`].
pub struct TaskManagerView {
    pub task_manager_id: Seq<char>,
    pub task_manager_address: Seq<char>,
    pub metrics_address: Seq<char>,
    pub task_status: TaskManagerStatus,
}

impl View for TaskManagerDescriptor {
    type V = TaskManagerView;

    open spec fn view(&self) -> TaskManagerView {
        TaskManagerView {
            task_manager_id: self.task_manager_id@,
            task_manager_address: self.task_manager_address@,
            metrics_address: self.metrics_address@,
            task_status: self.task_status,
        }
    }
}

impl Clone for TaskManagerDescriptor {
    fn clone(&self) -> (r: Self)
        ensures
            r@ == self@,
    {
        TaskManagerDescriptor {
            task_manager_id: self.task_manager_id.clone(),
            task_manager_address: self.task_manager_address.clone(),
            metrics_address: self.metrics_address.clone(),
            task_status: self.task_status,
        }
    }
}

/// The whole job descriptor: coordinator status and the task managers.
#[derive(Debug)]
pub struct ApplicationDescriptor {
    pub job_manager_status: TaskManagerStatus,
    pub task_managers: Vec<TaskManagerDescriptor>,
}

/// The mathematical value of an [`ApplicationDescriptor`].
#[verifier::ext_equal]
pub struct DescriptorView {
    pub job_manager_status: TaskManagerStatus,
    pub task_managers: Seq<TaskManagerView>,
}

impl View for ApplicationDescriptor {
    type V = DescriptorView;

    open spec fn view(&self) -> DescriptorView {
        DescriptorView {
            job_manager_status: self.job_manager_status,
            task_managers: self.task_managers@.map_values(|t: TaskManagerDescriptor| t@),
        }
    }
}

impl Clone for ApplicationDescriptor {
    fn clone(&self) -> (r: Self)
        ensures
            r@ == self@,
    {
        let mut task_managers: Vec<TaskManagerDescriptor> = Vec::new();
        let n = self.task_managers.len();
        let mut i: usize = 0;
        while i < n
            invariant
                i <= n,
                n == self.task_managers@.len(),
                task_managers@.len() == i,
                forall|j: int| 0 <= j < i ==> task_managers@[j]@ == self.task_managers@[j]@,
            decreases n - i,
        {
            task_managers.push(self.task_managers[i].clone());
            i = i + 1;
        }
        let r = ApplicationDescriptor { job_manager_status: self.job_manager_status, task_managers };
        assert(r@.task_managers =~= self@.task_managers);
        r
    }
}

/// Retry policy of the storage loops: a failed attempt is always retried
/// after one fixed interval.  The interval is a parameter so that tests can
/// inject a zero-length one instead of real sleeping; the waiting itself is
/// the surrounding loop's business.
#[derive(Clone, Copy, Debug, PartialEq, Eq, Structural)]
pub struct RetryPolicy {
    pub interval_ms: u64,
}

impl RetryPolicy {
    pub fn new(interval_ms: u64) -> (p: RetryPolicy)
        ensures
            p.interval_ms == interval_ms,
    {
        RetryPolicy { interval_ms }
    }

    /// The wait a failed attempt earns before the next one: always one full
    /// interval, whatever the failure was.
    pub fn delay_after_failure(&self, attempt_failure: &StorageError) -> (d: u64)
        ensures
            d == self.interval_ms,
    {
        let _ = attempt_failure;
        self.interval_ms
    }
}

/// Failure of a metadata storage operation.
#[derive(Clone, Copy, Debug, PartialEq, Eq, Structural)]
pub enum StorageError {
    /// No descriptor has been stored.
    NoDescriptor,
    /// No task manager carries the given identifier.
    TaskManagerNotFound,
}

/// The capability interface of a metadata store: what a backend must do to
/// hold the one job descriptor of its application.
pub trait TMetadataStorage: Sized {
    /// The descriptor the store currently holds, if any.
    spec fn stored(&self) -> Option<DescriptorView>;

    /// Stores the descriptor, replacing whatever was held.
    fn save_job_descriptor(&mut self, metadata: ApplicationDescriptor) -> (r: Result<
        (),
        StorageError,
    >)
        ensures
            r is Ok ==> final(self).stored() == Some(metadata@),
            r is Err ==> final(self).stored() == old(self).stored(),
    ;

    /// Removes the descriptor, leaving the store empty.
    fn delete_job_descriptor(&mut self) -> (r: Result<(), StorageError>)
        ensures
            r is Ok ==> final(self).stored() is None,
            r is Err ==> final(self).stored() == old(self).stored(),
    ;

    /// Reads the held descriptor; fails exactly when the store is empty.
    fn read_job_descriptor(&self) -> (r: Result<ApplicationDescriptor, StorageError>)
        ensures
            match r {
                Ok(d) => self.stored() == Some(d@),
                Err(e) => self.stored() is None && e == StorageError::NoDescriptor,
            },
    ;

    /// Replaces the coordinator status of the held descriptor; fails exactly
    /// when the store is empty.
    fn update_job_status(&mut self, job_manager_status: TaskManagerStatus) -> (r: Result<
        (),
        StorageError,
    >)
        ensures
            old(self).stored() matches Some(d) ==> r is Ok && final(self).stored() == Some(
                (DescriptorView { job_manager_status, ..d }),
            ),
            old(self).stored() is None ==> r == Err::<(), StorageError>(StorageError::NoDescriptor)
                && final(self).stored() == old(self).stored(),
    ;

    /// Replaces status and addresses of the first task manager carrying the
    /// given identifier; fails when the store is empty or no task manager
    /// matches.
    fn update_task_status(
        &mut self,
        task_manager_id: &str,
        task_manager_address: &str,
        task_manager_status: TaskManagerStatus,
        metrics_address: &str,
    ) -> (r: Result<(), StorageError>)
        ensures
            r is Ok <==> (old(self).stored() matches Some(d) && (exists|i: int|
                0 <= i < d.task_managers.len() && d.task_managers[i].task_manager_id
                    == task_manager_id@)),
            r is Ok ==> (old(self).stored() matches Some(d) && exists|i: int|
                {
                    &&& 0 <= i < d.task_managers.len()
                    &&& d.task_managers[i].task_manager_id == task_manager_id@
                    &&& (forall|j: int|
                        0 <= j < i ==> d.task_managers[j].task_manager_id != task_manager_id@)
                    &&& final(self).stored() == Some(
                        (DescriptorView {
                            task_managers: d.task_managers.update(
                                i,
                                (TaskManagerView {
                                    task_manager_id: task_manager_id@,
                                    task_manager_address: task_manager_address@,
                                    metrics_address: metrics_address@,
                                    task_status: task_manager_status,
                                }),
                            ),
                            ..d
                        }),
                    )
                }),
            r is Err ==> final(self).stored() == old(self).stored(),
            old(self).stored() is None ==> r == Err::<(), StorageError>(
                StorageError::NoDescriptor,
            ),
            (old(self).stored() matches Some(d) && !(exists|i: int|
                0 <= i < d.task_managers.len() && d.task_managers[i].task_manager_id
                    == task_manager_id@)) ==> r == Err::<(), StorageError>(
                StorageError::TaskManagerNotFound,
            ),
    ;
}

/// The in-memory backend: the one descriptor, held directly.
#[derive(Debug)]
pub struct MemoryMetadataStorage {
    pub job_descriptor: Option<ApplicationDescriptor>,
}

impl MemoryMetadataStorage {
    pub fn new() -> (s: MemoryMetadataStorage)
        ensures
            s.stored() is None,
    {
        MemoryMetadataStorage { job_descriptor: None }
    }
}

impl TMetadataStorage for MemoryMetadataStorage {
    open spec fn stored(&self) -> Option<DescriptorView> {
        match self.job_descriptor {
            Some(d) => Some(d@),
            None => None,
        }
    }

    fn save_job_descriptor(&mut self, metadata: ApplicationDescriptor) -> (r: Result<
        (),
        StorageError,
    >)
        ensures
            r is Ok,
    {
        self.job_descriptor = Some(metadata);
        Ok(())
    }

    fn delete_job_descriptor(&mut self) -> (r: Result<(), StorageError>)
        ensures
            r is Ok,
    {
        self.job_descriptor = None;
        Ok(())
    }

    fn read_job_descriptor(&self) -> (r: Result<ApplicationDescriptor, StorageError>) {
        match &self.job_descriptor {
            Some(d) => Ok(d.clone()),
            None => Err(StorageError::NoDescriptor),
        }
    }

    fn update_job_status(&mut self, job_manager_status: TaskManagerStatus) -> (r: Result<
        (),
        StorageError,
    >) {
        match self.job_descriptor.take() {
            Some(mut d) => {
                d.job_manager_status = job_manager_status;
                self.job_descriptor = Some(d);
                Ok(())
            },
            None => Err(StorageError::NoDescriptor),
        }
    }

    #[verifier::loop_isolation(false)]
    fn update_task_status(
        &mut self,
        task_manager_id: &str,
        task_manager_address: &str,
        task_manager_status: TaskManagerStatus,
        metrics_address: &str,
    ) -> (r: Result<(), StorageError>) {
        let needle: String = task_manager_id.to_owned();
        match self.job_descriptor.take() {
            Some(mut d) => {
                let ghost d0 = d@;
                let n = d.task_managers.len();
                let mut i: usize = 0;
                while i < n
                    invariant
                        i <= n,
                        n == d.task_managers@.len(),
                        d@ == d0,
                        needle@ == task_manager_id@,
                        forall|j: int|
                            0 <= j < i ==> d0.task_managers[j].task_manager_id
                                != task_manager_id@,
                    decreases n - i,
                {
                    let hit = {
                        let tm = &d.task_managers[i];
                        tm.task_manager_id == needle
                    };
                    if hit {
                        let ghost wi = i as int;
                        let updated = TaskManagerDescriptor {
                            task_manager_id: task_manager_id.to_owned(),
                            task_manager_address: task_manager_address.to_owned(),
                            metrics_address: metrics_address.to_owned(),
                            task_status: task_manager_status,
                        };
                        let ghost tv = (TaskManagerView {
                            task_manager_id: task_manager_id@,
                            task_manager_address: task_manager_address@,
                            metrics_address: metrics_address@,
                            task_status: task_manager_status,
                        });
                        d.task_managers.set(i, updated);
                        proof {
                            assert(d0.task_managers[wi].task_manager_id == task_manager_id@);
                            assert(d@.task_managers =~= d0.task_managers.update(wi, tv));
                            assert(d@ =~= (DescriptorView {
                                task_managers: d0.task_managers.update(wi, tv),
                                ..d0
                            }));
                        }
                        self.job_descriptor = Some(d);
                        proof {
                            assert(d0.task_managers[wi].task_manager_id == task_manager_id@);
                        }
                        return Ok(());
                    }
                    i = i + 1;
                }
                self.job_descriptor = Some(d);
                Err(StorageError::TaskManagerNotFound)
            },
            None => Err(StorageError::NoDescriptor),
        }
    }
}

/// Which backend a store is built on.
#[derive(Clone, Copy, Debug, PartialEq, Eq, Structural)]
pub enum MetadataStorageType {
    Memory,
}

/// The metadata store of an application, dispatching to the backend chosen
/// at construction time.
#[derive(Debug)]
pub enum MetadataStorage {
    MemoryMetadataStorage(MemoryMetadataStorage),
}

impl MetadataStorage {
    pub fn new(mode: &MetadataStorageType) -> (s: MetadataStorage)
        ensures
            s.stored() is None,
    {
        match mode {
            MetadataStorageType::Memory => {
                let storage = MemoryMetadataStorage::new();
                MetadataStorage::MemoryMetadataStorage(storage)
            },
        }
    }
}

impl TMetadataStorage for MetadataStorage {
    open spec fn stored(&self) -> Option<DescriptorView> {
        match self {
            MetadataStorage::MemoryMetadataStorage(storage) => storage.stored(),
        }
    }

    fn save_job_descriptor(&mut self, metadata: ApplicationDescriptor) -> (r: Result<
        (),
        StorageError,
    >)
        ensures
            r is Ok,
    {
        match self {
            MetadataStorage::MemoryMetadataStorage(storage) => storage.save_job_descriptor(
                metadata,
            ),
        }
    }

    fn delete_job_descriptor(&mut self) -> (r: Result<(), StorageError>)
        ensures
            r is Ok,
    {
        match self {
            MetadataStorage::MemoryMetadataStorage(storage) => storage.delete_job_descriptor(),
        }
    }

    fn read_job_descriptor(&self) -> (r: Result<ApplicationDescriptor, StorageError>) {
        match self {
            MetadataStorage::MemoryMetadataStorage(storage) => storage.read_job_descriptor(),
        }
    }

    fn update_job_status(&mut self, job_manager_status: TaskManagerStatus) -> (r: Result<
        (),
        StorageError,
    >) {
        match self {
            MetadataStorage::MemoryMetadataStorage(storage) => storage.update_job_status(
                job_manager_status,
            ),
        }
    }

    fn update_task_status(
        &mut self,
        task_manager_id: &str,
        task_manager_address: &str,
        task_manager_status: TaskManagerStatus,
        metrics_address: &str,
    ) -> (r: Result<(), StorageError>) {
        match self {
            MetadataStorage::MemoryMetadataStorage(storage) => storage.update_task_status(
                task_manager_id,
                task_manager_address,
                task_manager_status,
                metrics_address,
            ),
        }
    }
}

} // verus!
