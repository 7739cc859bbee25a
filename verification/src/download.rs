//! Atomic completion for downloads: response bytes are staged in a
//! temporary file under the destination directory, and only after the
//! full body is received and flushed durably is the temporary file
//! renamed to the final filename. On any failure the temporary file is
//! removed. The destination directory therefore never holds a
//! partially-written file under its final name: a failed transfer
//! leaves either nothing or a complete file.
//!
//! The caller owns the filesystem; this machine owns the order of the
//! steps and the received body, and models which of the two paths
//! (temporary, final) currently holds a file.

use vstd::prelude::*;

verus! {

/// Where one download's completion protocol stands.
#[derive(Clone, Copy, PartialEq, Eq, Structural, Debug)]
pub enum DownloadStage {
    /// Nothing on disk yet.
    Started,
    /// The temporary file exists; body bytes are being received.
    Receiving,
    /// The body was flushed durably and the temporary file was renamed
    /// to the final name: the final file is complete.
    Committed,
    /// The transfer failed; the temporary file was removed.
    Aborted,
}

/// The completion protocol for one download: stages the body, and
/// tracks which of the destination's two paths (temporary and final)
/// holds a file.
pub struct DownloadTransfer {
    stage: DownloadStage,
    received: Vec<u8>,
    temp_present: bool,
    final_present: bool,
}

impl DownloadTransfer {
    /// Where the protocol stands.
    pub closed spec fn stage(self) -> DownloadStage {
        self.stage
    }

    /// The body bytes received so far.
    pub closed spec fn received_seq(self) -> Seq<u8> {
        self.received@
    }

    /// Whether a file sits at the temporary path.
    pub closed spec fn temp_present(self) -> bool {
        self.temp_present
    }

    /// Whether a file sits at the final path.
    pub closed spec fn final_present(self) -> bool {
        self.final_present
    }

    /// The protocol's invariant: a file sits at the final path exactly
    /// when the transfer committed, and at the temporary path exactly
    /// while the body is in flight.
    pub closed spec fn wf(self) -> bool {
        &&& self.final_present <==> self.stage is Committed
        &&& self.temp_present <==> self.stage is Receiving
    }

    /// A fresh protocol: nothing received, nothing on disk.
    pub fn new() -> (t: DownloadTransfer)
        ensures
            t.wf(),
            t.stage() is Started,
            t.received_seq() == Seq::<u8>::empty(),
            !t.temp_present(),
            !t.final_present(),
    {
        DownloadTransfer {
            stage: DownloadStage::Started,
            received: Vec::new(),
            temp_present: false,
            final_present: false,
        }
    }

    /// The caller created the temporary file under the destination
    /// directory.
    pub fn temp_created(&mut self)
        requires
            old(self).wf(),
            old(self).stage() is Started,
        ensures
            final(self).wf(),
            final(self).stage() is Receiving,
            final(self).temp_present(),
            !final(self).final_present(),
            final(self).received_seq() == old(self).received_seq(),
    {
        self.stage = DownloadStage::Receiving;
        self.temp_present = true;
    }

    /// One frame of the response body arrived.
    pub fn on_chunk(&mut self, chunk: &[u8])
        requires
            old(self).wf(),
            old(self).stage() is Receiving,
            old(self).received_seq().len() + chunk@.len() <= usize::MAX,
        ensures
            final(self).wf(),
            final(self).stage() is Receiving,
            final(self).received_seq() == old(self).received_seq() + chunk@,
    {
        let ghost prev = self.received@;
        let mut i: usize = 0;
        while i < chunk.len()
            invariant
                0 <= i <= chunk@.len(),
                prev.len() + chunk@.len() <= usize::MAX,
                self.received@ == prev + chunk@.take(i as int),
                self.stage is Receiving,
                self.temp_present,
                !self.final_present,
            decreases chunk@.len() - i,
        {
            self.received.push(chunk[i]);
            proof {
                assert(prev + chunk@.take(i + 1) =~= (prev + chunk@.take(i as int)).push(
                    chunk@[i as int],
                ));
            }
            i = i + 1;
        }
        proof {
            assert(prev + chunk@.take(chunk@.len() as int) =~= prev + chunk@);
        }
    }

    /// How many body bytes have been received, for progress display.
    pub fn received_len(&self) -> (n: usize)
        ensures
            n == self.received_seq().len(),
    {
        self.received.len()
    }

    /// The full body, for the caller to write to the temporary file.
    pub fn body(&self) -> (b: &Vec<u8>)
        ensures
            b@ == self.received_seq(),
    {
        &self.received
    }

    /// The caller wrote the full body to the temporary file, flushed it
    /// durably, and renamed the temporary file to the final name: the
    /// final path now holds the complete body.
    pub fn commit(&mut self)
        requires
            old(self).wf(),
            old(self).stage() is Receiving,
        ensures
            final(self).wf(),
            final(self).stage() is Committed,
            final(self).final_present(),
            !final(self).temp_present(),
            final(self).received_seq() == old(self).received_seq(),
    {
        self.stage = DownloadStage::Committed;
        self.temp_present = false;
        self.final_present = true;
    }

    /// The transfer failed before commit; the caller removed the
    /// temporary file. Nothing remains on disk.
    pub fn abort(&mut self)
        requires
            old(self).wf(),
            old(self).stage() is Started || old(self).stage() is Receiving,
        ensures
            final(self).wf(),
            final(self).stage() is Aborted,
            !final(self).temp_present(),
            !final(self).final_present(),
            final(self).received_seq() == old(self).received_seq(),
    {
        self.stage = DownloadStage::Aborted;
        self.temp_present = false;
    }

    /// Where the protocol stands, for the caller's control flow.
    pub fn current_stage(&self) -> (s: DownloadStage)
        ensures
            s == self.stage(),
    {
        self.stage
    }

    /// Whether a file sits at the temporary path.
    pub fn has_temp_file(&self) -> (r: bool)
        ensures
            r == self.temp_present(),
    {
        self.temp_present
    }

    /// Whether a file sits at the final path.
    pub fn has_final_file(&self) -> (r: bool)
        ensures
            r == self.final_present(),
    {
        self.final_present
    }
}

/// Download atomicity: in every reachable protocol state, a file sits
/// at the final path only once the transfer has committed, and after an
/// abort neither the temporary nor the final path holds a file.
pub proof fn lemma_download_atomicity(t: DownloadTransfer)
    requires
        t.wf(),
    ensures
        !(t.stage() is Committed) ==> !t.final_present(),
        t.stage() is Aborted ==> !t.temp_present() && !t.final_present(),
{
}

} // verus!
