//! Dataflow operator helpers of the transport layer.
//!
//! `BroadcastFlagMapFunction` fans one record out to every parallel instance
//! of the single child job: one copy per partition, with the partition
//! number stamped on each copy.

use vstd::prelude::*;

use crate::runtime::TaskId;

verus! {

/// A typed record flowing between operators: the partition it is routed to
/// and its engine-defined payload.
#[derive(Debug, PartialEq, Eq)]
pub struct Record {
    pub partition_num: u16,
    pub payload: Vec<u8>,
}

/// The mathematical value of a [`Record`].
pub struct RecordView {
    pub partition_num: u16,
    pub payload: Seq<u8>,
}

impl View for Record {
    type V = RecordView;

    open spec fn view(&self) -> RecordView {
        RecordView { partition_num: self.partition_num, payload: self.payload@ }
    }
}

impl Record {
    pub fn new(partition_num: u16, payload: Vec<u8>) -> (r: Record)
        ensures
            r@.partition_num == partition_num,
            r@.payload == payload@,
    {
        Record { partition_num, payload }
    }
}

impl Clone for Record {
    fn clone(&self) -> (r: Self)
        ensures
            r@ == self@,
    {
        let payload = self.payload.clone();
        assert(payload@ =~= self.payload@);
        Record { partition_num: self.partition_num, payload }
    }
}

/// What an operator learns when it is opened: here, the parallel instances
/// of its child job.
pub struct Context {
    pub children: Vec<TaskId>,
}

/// An operator that carries a schema: the type tag of each field it emits.
pub trait FunctionSchema {
    fn get_schema_types(&self) -> Vec<u8>;
}

/// Fans each record out to every partition of the one child job.
pub struct BroadcastFlagMapFunction {
    pub child_job_parallelism: u16,
}

impl BroadcastFlagMapFunction {
    /// The parallelism is learned at open time; it starts at zero.
    pub fn new() -> (f: BroadcastFlagMapFunction)
        ensures
            f.child_job_parallelism == 0,
    {
        BroadcastFlagMapFunction { child_job_parallelism: 0 }
    }

    /// Learns the child job's parallelism from the context.
    pub fn open(&mut self, context: &Context) -> (r: Result<(), ()>)
        requires
            context.children@.len() <= u16::MAX,
        ensures
            r is Ok,
            final(self).child_job_parallelism == context.children@.len(),
    {
        self.child_job_parallelism = context.children.len() as u16;
        Ok(())
    }

    /// One copy of the record per child partition, in partition order, each
    /// carrying its partition number and the unchanged payload.
    pub fn flat_map(&mut self, record: Record) -> (records: Vec<Record>)
        ensures
            records@.len() == old(self).child_job_parallelism,
            forall|i: int|
                0 <= i < records@.len() ==> records@[i]@.partition_num == i && records@[i]@.payload
                    == record@.payload,
            *final(self) == *old(self),
    {
        let mut records: Vec<Record> = Vec::new();
        let n = self.child_job_parallelism;
        let mut partition_num: u16 = 0;
        while partition_num < n
            invariant
                partition_num <= n,
                records@.len() == partition_num,
                forall|i: int|
                    0 <= i < partition_num ==> records@[i]@.partition_num == i
                        && records@[i]@.payload == record@.payload,
            decreases n - partition_num,
        {
            let mut r = record.clone();
            r.partition_num = partition_num;
            records.push(r);
            partition_num = partition_num + 1;
        }
        records
    }

    /// Nothing to release.
    pub fn close(&mut self) -> (r: Result<(), ()>)
        ensures
            r is Ok,
            *final(self) == *old(self),
    {
        Ok(())
    }

    /// The operator's display name.
    pub fn get_name(&self) -> (s: &'static str)
        ensures
            s@ == "BroadcastFlagMapFunction"@,
    {
        "BroadcastFlagMapFunction"
    }
}

} // verus!
