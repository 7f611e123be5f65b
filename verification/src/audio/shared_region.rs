//! The write cursor of the shared audio region.
//!
//! Captured audio is exposed to a reader in another process through a named
//! region of memory. The writer appends samples and then publishes how many
//! are valid; a reader trusts exactly the samples below the published cursor.
//! The region never wraps: once it is full, or once it has been finalized,
//! nothing more is written. A region serves one session: once finalized it
//! stays finalized, with its cursor where it was.

use vstd::prelude::*;
use vstd::string::StringExecFns;

verus! {

/// Bytes per sample in the region.
pub const BYTES_PER_SAMPLE: usize = 4;

/// Start of the region's name; the process id follows.
pub const REGION_NAME_PREFIX: &'static str = "v2m_audio_";

/// Default capacity of the region in samples: ten minutes at 16 kHz.
pub const DEFAULT_CAPACITY_SAMPLES: usize = 9_600_000;

/// Why a region cannot be made.
#[derive(Debug, Clone, Copy, PartialEq, Eq, Structural)]
pub enum SharedMemError {
    /// The region's size in bytes does not fit the address space.
    TooLarge,
}

/// The cursor as contracts see it.
pub struct RegionModel {
    /// Samples the region can hold.
    pub capacity: nat,
    /// Samples written and published so far.
    pub write_pos: nat,
    /// Whether the session has ended.
    pub finalized: bool,
    /// Everything written so far, in order.
    pub written: Seq<u32>,
}

/// How many of `offered` samples a write takes.
pub open spec fn spec_writable(m: RegionModel, offered: nat) -> nat {
    if m.finalized {
        0
    } else if offered <= m.capacity - m.write_pos {
        offered
    } else {
        (m.capacity - m.write_pos) as nat
    }
}

/// The region after a write of `samples`.
pub open spec fn spec_after_write(m: RegionModel, samples: Seq<u32>) -> RegionModel {
    let n = spec_writable(m, samples.len());
    RegionModel { write_pos: m.write_pos + n, written: m.written + samples.take(n as int), ..m }
}

/// Where a write has to put its samples and how many of them.
#[derive(Debug, Clone, Copy, PartialEq, Eq, Structural)]
pub struct WritePlan {
    /// Position of the first sample to write, in samples from the region's
    /// start.
    pub offset: usize,
    /// How many samples to write.
    pub count: usize,
}

/// What a reader that waits for data is told.
#[derive(Debug, Clone, Copy, PartialEq, Eq, Structural)]
pub enum DataWait {
    /// The session has ended: no more data will come.
    Closed,
    /// Data is there.
    Ready,
    /// Nothing yet: wait for the next notification.
    Pending,
}

/// The bookkeeping of one shared region.
pub struct SharedAudioBuffer {
    capacity: usize,
    write_pos: usize,
    is_finalized: bool,
    written: Ghost<Seq<u32>>,
}

impl View for SharedAudioBuffer {
    type V = RegionModel;

    closed spec fn view(&self) -> RegionModel {
        RegionModel {
            capacity: self.capacity as nat,
            write_pos: self.write_pos as nat,
            finalized: self.is_finalized,
            written: self.written@,
        }
    }
}

/// The cursor never passes the capacity, and it counts what was written.
pub open spec fn region_wf(m: RegionModel) -> bool {
    &&& m.write_pos <= m.capacity
    &&& m.written.len() == m.write_pos
}

impl SharedAudioBuffer {
    /// The invariant that every method keeps.
    pub open spec fn wf(&self) -> bool {
        region_wf(self@)
    }

    /// The bookkeeping of an empty region for `capacity_samples` samples.
    pub fn new(capacity_samples: usize) -> (r: Result<Self, SharedMemError>)
        ensures
            capacity_samples * BYTES_PER_SAMPLE > usize::MAX ==> r is Err && r->Err_0
                == SharedMemError::TooLarge,
            capacity_samples * BYTES_PER_SAMPLE <= usize::MAX ==> r is Ok && r->Ok_0.wf()
                && r->Ok_0@ == (RegionModel {
                capacity: capacity_samples as nat,
                write_pos: 0,
                finalized: false,
                written: Seq::<u32>::empty(),
            }),
    {
        if capacity_samples > usize::MAX / BYTES_PER_SAMPLE {
            Err(SharedMemError::TooLarge)
        } else {
            Ok(
                SharedAudioBuffer {
                    capacity: capacity_samples,
                    write_pos: 0,
                    is_finalized: false,
                    written: Ghost(Seq::<u32>::empty()),
                },
            )
        }
    }

    /// The size of the region in bytes.
    pub fn byte_size(&self) -> (n: usize)
        requires
            self@.capacity * BYTES_PER_SAMPLE <= usize::MAX,
        ensures
            n == self@.capacity * BYTES_PER_SAMPLE,
    {
        self.capacity * BYTES_PER_SAMPLE
    }

    /// Says where a write of `samples` has to go and how much of it; nothing
    /// is published yet.
    pub fn plan_write(&self, samples: &[u32]) -> (plan: WritePlan)
        requires
            self.wf(),
        ensures
            plan.offset == self@.write_pos,
            plan.count == spec_writable(self@, samples@.len()),
            plan.offset + plan.count <= self@.capacity,
    {
        if self.is_finalized {
            return WritePlan { offset: self.write_pos, count: 0 };
        }
        let room: usize = self.capacity - self.write_pos;
        let count: usize = if samples.len() < room {
            samples.len()
        } else {
            room
        };
        WritePlan { offset: self.write_pos, count }
    }

    /// Writes `samples`: takes as many as there is room for, advances the
    /// cursor past them and returns their number. A finalized or full region
    /// takes none.
    pub fn write_samples(&mut self, samples: &[u32]) -> (count: usize)
        requires
            old(self).wf(),
        ensures
            final(self).wf(),
            final(self)@ == spec_after_write(old(self)@, samples@),
            count == spec_writable(old(self)@, samples@.len()),
    {
        let plan: WritePlan = self.plan_write(samples);
        self.write_pos = self.write_pos + plan.count;
        proof {
            self.written@ = self.written@ + samples@.take(plan.count as int);
        }
        plan.count
    }

    /// Ends the session: from now on nothing is written.
    pub fn finalize(&mut self)
        ensures
            final(self)@ == (RegionModel { finalized: true, ..old(self)@ }),
    {
        self.is_finalized = true;
    }

    /// Makes an open region ready for a session by emptying it, and says
    /// whether it did. A finalized region belongs to a session that has ended:
    /// it stays as it is, and a new session takes a new region.
    pub fn reset(&mut self) -> (emptied: bool)
        ensures
            emptied == !old(self)@.finalized,
            final(self)@ == spec_after_reset(old(self)@),
            !old(self)@.finalized ==> final(self).wf(),
            old(self).wf() ==> final(self).wf(),
    {
        if self.is_finalized {
            return false;
        }
        self.write_pos = 0;
        proof {
            self.written@ = Seq::<u32>::empty();
        }
        true
    }

    /// Says what a reader that waits for data is to do: give up once the
    /// region is finalized, read when samples are there, wait otherwise.
    pub fn poll_data(&self) -> (r: DataWait)
        ensures
            r == if self@.finalized {
                DataWait::Closed
            } else if self@.write_pos > 0 {
                DataWait::Ready
            } else {
                DataWait::Pending
            },
    {
        if self.is_finalized {
            DataWait::Closed
        } else if self.write_pos > 0 {
            DataWait::Ready
        } else {
            DataWait::Pending
        }
    }

    /// Samples written and published so far.
    pub fn get_data_len(&self) -> (n: usize)
        ensures
            n == self@.write_pos,
    {
        self.write_pos
    }

    /// Samples the region can hold.
    pub fn get_capacity(&self) -> (n: usize)
        ensures
            n == self@.capacity,
    {
        self.capacity
    }

    /// Whether the session has ended.
    pub fn is_finalized(&self) -> (r: bool)
        ensures
            r == self@.finalized,
    {
        self.is_finalized
    }
}

/// The name of the region of the process with the id `pid`, given in decimal.
pub fn region_name(pid: &str) -> (name: String)
    ensures
        name@ == REGION_NAME_PREFIX@ + pid@,
{
    String::from_str(REGION_NAME_PREFIX).concat(pid)
}

/// A write only appends: what a reader saw below the cursor stays as it was,
/// the cursor never goes back and never passes the capacity, and a finalized
/// region stays finalized and unchanged.
pub proof fn lemma_write_appends(m: RegionModel, samples: Seq<u32>)
    requires
        region_wf(m),
    ensures
        ({
            let after = spec_after_write(m, samples);
            &&& region_wf(after)
            &&& after.write_pos >= m.write_pos
            &&& after.capacity == m.capacity
            &&& after.finalized == m.finalized
            &&& after.written.take(m.write_pos as int) == m.written
            &&& m.finalized ==> after == m
            &&& samples.len() >= m.write_pos + samples.len() - after.write_pos
        }),
{
    let after = spec_after_write(m, samples);
    let n = spec_writable(m, samples.len());
    assert(after.written.take(m.write_pos as int) =~= m.written);
    if m.finalized {
        assert(samples.take(0) =~= Seq::<u32>::empty());
        assert(after.written =~= m.written);
    }
}

/// The region after an attempt to make it ready for a session.
pub open spec fn spec_after_reset(m: RegionModel) -> RegionModel {
    if m.finalized {
        m
    } else {
        RegionModel { write_pos: 0, written: Seq::<u32>::empty(), ..m }
    }
}

/// Finalizing is for good: whatever is tried on a finalized region, a write,
/// a reset or another finalizing, it stays finalized and keeps its cursor and
/// its content, so that readers go on seeing the end where it was.
pub proof fn lemma_finalized_is_final(m: RegionModel, samples: Seq<u32>)
    requires
        m.finalized,
    ensures
        spec_after_write(m, samples) == m,
        spec_after_reset(m) == m,
        (RegionModel { finalized: true, ..m }) == m,
{
    assert(samples.take(0) =~= Seq::<u32>::empty());
    assert(spec_after_write(m, samples).written =~= m.written);
}

/// What the region holds is what the writes brought, in order: two writes in
/// a row leave what one write of both pieces leaves.
pub proof fn lemma_writes_compose(m: RegionModel, first: Seq<u32>, second: Seq<u32>)
    requires
        region_wf(m),
    ensures
        spec_after_write(spec_after_write(m, first), second) == spec_after_write(m, first + second),
{
    let one = spec_after_write(m, first);
    let two = spec_after_write(one, second);
    let both = spec_after_write(m, first + second);
    let n1 = spec_writable(m, first.len());
    let n2 = spec_writable(one, second.len());
    let n = spec_writable(m, (first + second).len());
    assert(n == n1 + n2);
    assert(two.written =~= both.written);
}

} // verus!
