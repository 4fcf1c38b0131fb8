use vstd::prelude::*;

verus! {

/// Where the single transfer command buffer stands.
#[derive(Clone, Copy, Debug, PartialEq, Eq, Structural)]
pub enum TransferPhase {
    /// Reset, not yet reopened for recording.
    Idle,
    /// Open: copy and layout commands may be recorded.
    Recording,
    /// Ended and submitted: waiting for the transfer fence.
    Submitted,
}

/// A transfer operation asked for in a phase that does not allow it.
#[derive(Clone, Copy, Debug, PartialEq, Eq, Structural)]
pub enum TransferError {
    NotIdle,
    NotRecording,
    NotSubmitted,
}

/// The transfer batch as mathematical values.
pub struct TransferView<S> {
    pub phase: TransferPhase,
    /// Staging buffers that the recorded (or submitted) commands read from.
    pub staging: Seq<S>,
    /// Resources that the recorded (or submitted) commands write.
    pub pending: Seq<u64>,
    /// Resources whose last recorded upload has completed on the device.
    pub uploaded: Set<u64>,
}

/// The batch after it is opened for recording.
pub open spec fn begin_spec<S>(v: TransferView<S>) -> (TransferView<S>, Result<(), TransferError>) {
    if v.phase == TransferPhase::Idle {
        (TransferView { phase: TransferPhase::Recording, ..v }, Ok(()))
    } else {
        (v, Err(TransferError::NotIdle))
    }
}

/// The batch after commands writing `destination` (from `staging`, if any) are recorded.
pub open spec fn record_spec<S>(v: TransferView<S>, staging: Option<S>, destination: u64) -> (TransferView<S>, Result<(), TransferError>) {
    if v.phase == TransferPhase::Recording {
        (TransferView {
            staging: match staging {
                Some(s) => v.staging.push(s),
                None => v.staging,
            },
            pending: v.pending.push(destination),
            uploaded: v.uploaded.remove(destination),
            ..v
        }, Ok(()))
    } else {
        (v, Err(TransferError::NotRecording))
    }
}

/// The batch after it is ended and submitted.
pub open spec fn submit_spec<S>(v: TransferView<S>) -> (TransferView<S>, Result<(), TransferError>) {
    if v.phase == TransferPhase::Recording {
        (TransferView { phase: TransferPhase::Submitted, ..v }, Ok(()))
    } else {
        (v, Err(TransferError::NotRecording))
    }
}

/// The batch after its fence has signalled, with the staging buffers it gives back.
pub open spec fn complete_spec<S>(v: TransferView<S>) -> (TransferView<S>, Result<Seq<S>, TransferError>) {
    if v.phase == TransferPhase::Submitted {
        (TransferView {
            phase: TransferPhase::Idle,
            staging: Seq::empty(),
            pending: Seq::empty(),
            uploaded: v.uploaded + v.pending.to_set(),
        }, Ok(v.staging))
    } else {
        (v, Err(TransferError::NotSubmitted))
    }
}

/// Data written through the batch is present only once the batch has
/// completed: recording and submitting leave the destination not uploaded,
/// completion marks it uploaded and hands back the staging buffer it read.
pub proof fn lemma_upload_present_after_flush<S>(v: TransferView<S>, staging: Option<S>, destination: u64)
    requires
        v.phase == TransferPhase::Recording,
    ensures
        ({
            let v1 = record_spec(v, staging, destination).0;
            let v2 = submit_spec(v1).0;
            let (v3, released) = complete_spec(v2);
            &&& !v1.uploaded.contains(destination)
            &&& !v2.uploaded.contains(destination)
            &&& v3.uploaded.contains(destination)
            &&& released is Ok
            &&& (staging matches Some(s) ==> released->Ok_0.contains(s))
            &&& v3.phase == TransferPhase::Idle
        }),
{
    let v1 = record_spec(v, staging, destination).0;
    assert(v1.pending[v1.pending.len() - 1] == destination);
    assert(v1.pending.to_set().contains(destination));
    if let Some(s) = staging {
        assert(v1.staging[v1.staging.len() - 1] == s);
    }
}

/// Staging buffers are held until the fence has signalled: no step but the
/// completion of a submitted batch gives any of them back, and every other
/// step keeps those already held.
pub proof fn lemma_staging_held_until_complete<S>(v: TransferView<S>, staging: Option<S>, destination: u64)
    ensures
        begin_spec(v).0.staging == v.staging,
        submit_spec(v).0.staging == v.staging,
        v.staging.is_prefix_of(record_spec(v, staging, destination).0.staging),
        complete_spec(v).1 is Ok ==> v.phase == TransferPhase::Submitted,
        complete_spec(v).1 is Ok ==> complete_spec(v).1->Ok_0 == v.staging,
{
    let w = record_spec(v, staging, destination).0;
    assert forall|k: int| 0 <= k < v.staging.len() implies v.staging[k] == w.staging[k] by {}
}

/// The one transfer command buffer of an allocator, with the staging
/// buffers that its commands read from.
pub struct TransferBatch<S> {
    phase: TransferPhase,
    staging: Vec<S>,
    pending: Vec<u64>,
    uploaded: Ghost<Set<u64>>,
}

impl<S> View for TransferBatch<S> {
    type V = TransferView<S>;

    closed spec fn view(&self) -> TransferView<S> {
        TransferView {
            phase: self.phase,
            staging: self.staging@,
            pending: self.pending@,
            uploaded: self.uploaded@,
        }
    }
}

impl<S> TransferBatch<S> {
    pub fn new() -> (r: TransferBatch<S>)
        ensures
            r@.phase == TransferPhase::Idle,
            r@.staging == Seq::<S>::empty(),
            r@.pending == Seq::<u64>::empty(),
            r@.uploaded == Set::<u64>::empty(),
    {
        TransferBatch {
            phase: TransferPhase::Idle,
            staging: Vec::new(),
            pending: Vec::new(),
            uploaded: Ghost(Set::empty()),
        }
    }

    pub fn phase(&self) -> (r: TransferPhase)
        ensures
            r == self@.phase,
    {
        self.phase
    }

    /// Number of staging buffers held for the current batch.
    pub fn staging_count(&self) -> (r: usize)
        ensures
            r == self@.staging.len(),
    {
        self.staging.len()
    }

    /// Opens the command buffer for recording.
    pub fn begin_recording(&mut self) -> (r: Result<(), TransferError>)
        ensures
            (final(self)@, r) == begin_spec(old(self)@),
    {
        if self.phase != TransferPhase::Idle {
            return Err(TransferError::NotIdle);
        }
        self.phase = TransferPhase::Recording;
        Ok(())
    }

    /// Records commands that write `destination`, reading from the staging
    /// buffer `staging` if there is one; the batch keeps the staging buffer
    /// until it completes.
    pub fn record_upload(&mut self, staging: Option<S>, destination: u64) -> (r: Result<(), TransferError>)
        ensures
            (final(self)@, r) == record_spec(old(self)@, staging, destination),
    {
        if self.phase != TransferPhase::Recording {
            return Err(TransferError::NotRecording);
        }
        match staging {
            Some(s) => self.staging.push(s),
            None => {},
        }
        self.pending.push(destination);
        self.uploaded = Ghost(self.uploaded@.remove(destination));
        Ok(())
    }

    /// Ends the command buffer and hands it to the transfer queue.
    pub fn submit(&mut self) -> (r: Result<(), TransferError>)
        ensures
            (final(self)@, r) == submit_spec(old(self)@),
    {
        if self.phase != TransferPhase::Recording {
            return Err(TransferError::NotRecording);
        }
        self.phase = TransferPhase::Submitted;
        Ok(())
    }

    /// Called once the transfer fence has signalled and the fence and command
    /// buffer are reset: the writes are done, and the staging buffers that the
    /// batch read from are handed back, to be dropped.
    pub fn complete(&mut self) -> (r: Result<Vec<S>, TransferError>)
        ensures
            match (complete_spec(old(self)@), r) {
                ((v, Ok(s)), Ok(x)) => final(self)@ == v && x@ == s,
                ((v, Err(e)), Err(x)) => final(self)@ == v && x == e,
                _ => false,
            },
    {
        if self.phase != TransferPhase::Submitted {
            return Err(TransferError::NotSubmitted);
        }
        let ghost before = self.staging@;
        let released = self.staging.split_off(0);
        assert(released@ =~= before);
        let ghost written = self.pending@.to_set();
        self.pending = Vec::new();
        self.uploaded = Ghost(self.uploaded@ + written);
        self.phase = TransferPhase::Idle;
        assert(self.staging@ =~= Seq::<S>::empty());
        assert(self.pending@ =~= Seq::<u64>::empty());
        Ok(released)
    }
}

} // verus!
