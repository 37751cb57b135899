//! File transfers: their registry, size limit and status changes. Reading
//! and writing the files is the host's part.

use vstd::prelude::*;
use crate::crypto::{is_uuid_v4_text, new_uuid_v4};
use crate::error::CoreError;
use crate::table::Table;

verus! {

/// Largest file that may be sent: 4 GiB.
pub const MAX_FILE_SIZE: u64 = 4 * 1024 * 1024 * 1024;

/// Status of a transfer.
#[derive(Debug, Clone, Copy, PartialEq, Eq, Structural)]
pub enum TransferStatus {
    Pending,
    InProgress,
    Paused,
    Completed,
    Failed,
    Cancelled,
}

/// Progress of a transfer.
#[derive(Debug, Clone)]
pub struct TransferProgress {
    pub transfer_id: String,
    pub filename: String,
    pub total_size: u64,
    pub transferred_size: u64,
    /// Bytes per second.
    pub speed: u64,
    /// Seconds remaining.
    pub estimated_time: u64,
    pub status: TransferStatus,
}

/// Outcome of a transfer.
#[derive(Debug, Clone)]
pub struct TransferResult {
    pub transfer_id: String,
    pub success: bool,
    pub error_message: Option<String>,
    pub final_size: u64,
    /// Seconds.
    pub duration: u64,
}

/// The registry of active transfers.
pub struct FileTransfer {
    active_transfers: Table<TransferProgress>,
    max_file_size: u64,
}

impl FileTransfer {
    pub closed spec fn wf(&self) -> bool {
        self.active_transfers.wf()
    }

    /// Active transfers by ID.
    pub closed spec fn transfers(&self) -> Map<Seq<char>, TransferProgress> {
        self.active_transfers@
    }

    pub closed spec fn limit(&self) -> u64 {
        self.max_file_size
    }

    /// An empty registry with the 4 GiB limit.
    pub fn new() -> (r: Self)
        ensures
            r.wf(),
            r.transfers() == Map::<Seq<char>, TransferProgress>::empty(),
            r.limit() == MAX_FILE_SIZE,
    {
        FileTransfer { active_transfers: Table::new(), max_file_size: MAX_FILE_SIZE }
    }

    /// Registers a pending transfer of a file of `file_size` bytes named
    /// `filename` and returns its fresh ID. Fails with `InvalidParam` for a
    /// file over the limit.
    pub fn send_file(&mut self, filename: String, file_size: u64, target_id: &str) -> (r: Result<String, CoreError>)
        requires
            old(self).wf(),
        ensures
            final(self).wf(),
            r is Err <==> file_size > old(self).limit(),
            r matches Err(e) ==> e == CoreError::InvalidParam && final(self).transfers() == old(self).transfers(),
            r matches Ok(id) ==> {
                &&& is_uuid_v4_text(id@)
                &&& final(self).transfers().contains_key(id@)
                &&& final(self).transfers()[id@].status == TransferStatus::Pending
                &&& final(self).transfers()[id@].total_size == file_size
                &&& final(self).transfers()[id@].transferred_size == 0
                &&& final(self).transfers()[id@].filename@ == filename@
                &&& final(self).transfers().remove(id@) == old(self).transfers().remove(id@)
            },
            final(self).limit() == old(self).limit(),
    {
        if file_size > self.max_file_size {
            return Err(CoreError::InvalidParam);
        }
        let transfer_id = new_uuid_v4();
        let progress = TransferProgress {
            transfer_id: transfer_id.clone(),
            filename,
            total_size: file_size,
            transferred_size: 0,
            speed: 0,
            estimated_time: 0,
            status: TransferStatus::Pending,
        };
        self.active_transfers.insert(transfer_id.clone(), progress);
        proof {
            assert(self.transfers().remove(transfer_id@) =~= old(self).transfers().remove(transfer_id@));
        }
        Ok(transfer_id)
    }

    /// Completes the receiving side of a transfer: it leaves the registry.
    pub fn receive_file(&mut self, transfer_id: String) -> (r: TransferResult)
        requires
            old(self).wf(),
        ensures
            final(self).wf(),
            r.transfer_id == transfer_id,
            r.success,
            final(self).transfers() == old(self).transfers().remove(transfer_id@),
            final(self).limit() == old(self).limit(),
    {
        self.active_transfers.remove(transfer_id.as_str());
        TransferResult { transfer_id, success: true, error_message: None, final_size: 0, duration: 0 }
    }

    fn set_status(&mut self, transfer_id: &str, status: TransferStatus) -> (r: Result<(), CoreError>)
        requires
            old(self).wf(),
        ensures
            final(self).wf(),
            r is Err <==> !old(self).transfers().contains_key(transfer_id@),
            r matches Err(e) ==> e == CoreError::NotFound && final(self).transfers() == old(self).transfers(),
            r is Ok ==> final(self).transfers() == old(self).transfers().insert(
                transfer_id@,
                TransferProgress { status, ..old(self).transfers()[transfer_id@] },
            ),
            final(self).limit() == old(self).limit(),
    {
        match self.active_transfers.remove(transfer_id) {
            Some(mut p) => {
                p.status = status;
                self.active_transfers.insert(transfer_id.to_string(), p);
                proof {
                    assert(self.transfers() =~= old(self).transfers().insert(
                        transfer_id@,
                        TransferProgress { status, ..old(self).transfers()[transfer_id@] },
                    ));
                }
                Ok(())
            },
            None => Err(CoreError::NotFound),
        }
    }

    /// Pauses a transfer. Fails with `NotFound` for an unknown one.
    pub fn pause_transfer(&mut self, transfer_id: &str) -> (r: Result<(), CoreError>)
        requires
            old(self).wf(),
        ensures
            final(self).wf(),
            r is Err <==> !old(self).transfers().contains_key(transfer_id@),
            r is Ok ==> final(self).transfers() == old(self).transfers().insert(
                transfer_id@,
                TransferProgress { status: TransferStatus::Paused, ..old(self).transfers()[transfer_id@] },
            ),
            r is Err ==> final(self).transfers() == old(self).transfers(),
    {
        self.set_status(transfer_id, TransferStatus::Paused)
    }

    /// Resumes a transfer. Fails with `NotFound` for an unknown one.
    pub fn resume_transfer(&mut self, transfer_id: &str) -> (r: Result<(), CoreError>)
        requires
            old(self).wf(),
        ensures
            final(self).wf(),
            r is Err <==> !old(self).transfers().contains_key(transfer_id@),
            r is Ok ==> final(self).transfers() == old(self).transfers().insert(
                transfer_id@,
                TransferProgress { status: TransferStatus::InProgress, ..old(self).transfers()[transfer_id@] },
            ),
            r is Err ==> final(self).transfers() == old(self).transfers(),
    {
        self.set_status(transfer_id, TransferStatus::InProgress)
    }

    /// Resumes a transfer from the bytes already transferred. Fails with
    /// `NotFound` for an unknown one.
    pub fn resume_from_breakpoint(&mut self, transfer_id: &str) -> (r: Result<(), CoreError>)
        requires
            old(self).wf(),
        ensures
            final(self).wf(),
            r is Err <==> !old(self).transfers().contains_key(transfer_id@),
            r is Ok ==> final(self).transfers() == old(self).transfers().insert(
                transfer_id@,
                TransferProgress { status: TransferStatus::InProgress, ..old(self).transfers()[transfer_id@] },
            ),
    {
        self.set_status(transfer_id, TransferStatus::InProgress)
    }

    /// Cancels a transfer: it leaves the registry. Fails with `NotFound` for
    /// an unknown one.
    pub fn cancel_transfer(&mut self, transfer_id: &str) -> (r: Result<(), CoreError>)
        requires
            old(self).wf(),
        ensures
            final(self).wf(),
            r is Err <==> !old(self).transfers().contains_key(transfer_id@),
            r matches Err(e) ==> e == CoreError::NotFound,
            final(self).transfers() == old(self).transfers().remove(transfer_id@),
    {
        match self.active_transfers.remove(transfer_id) {
            Some(_) => Ok(()),
            None => Err(CoreError::NotFound),
        }
    }

    /// The progress of a transfer.
    pub fn get_transfer_progress(&self, transfer_id: &str) -> (r: Option<&TransferProgress>)
        requires
            self.wf(),
        ensures
            r is Some <==> self.transfers().contains_key(transfer_id@),
            r matches Some(p) ==> *p == self.transfers()[transfer_id@],
    {
        self.active_transfers.get(transfer_id)
    }

    /// The active transfers, oldest first.
    pub fn get_active_transfers(&self) -> (r: Vec<&TransferProgress>)
        requires
            self.wf(),
        ensures
            r@.len() == self.transfers().dom().len(),
            forall|i: int| 0 <= i < r@.len() ==> self.transfers().values().contains(*#[trigger] r@[i]),
    {
        proof {
            self.active_transfers.lemma_len();
            self.active_transfers.lemma_keys();
        }
        let r = self.active_transfers.values();
        proof {
            assert forall|i: int| 0 <= i < r@.len() implies self.transfers().values().contains(*#[trigger] r@[i]) by {
                let k = self.active_transfers.key_seq()[i];
                assert(self.transfers().contains_key(k));
            }
        }
        r
    }

    /// The size limit in bytes.
    pub fn get_max_file_size(&self) -> (r: u64)
        ensures
            r == self.limit(),
    {
        self.max_file_size
    }
}

} // verus!
