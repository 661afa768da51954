//! Privileged memory patch path: to write into a nominally read-only
//! mapping, the range is described by a temporary page descriptor, the pages
//! are locked, mapped at a temporary kernel address, re-protected
//! read-write, written through that temporary alias, and then unmapped,
//! unlocked and freed in strict reverse-acquisition order.  The guarantee
//! is that no exit, success or failure, leaves a page locked or mapped or a
//! descriptor live.
//!
//! The four acquisition steps are host calls; their outcomes enter as
//! `PatchHost`, and the verified path decides, for every combination of
//! outcomes, the result, the exact trace of host effects, and the bytes the
//! destination holds afterwards.

use vstd::prelude::*;

use crate::basedef::{NTSTATUS, STATUS_ACCESS_DENIED};
use crate::ntstatus::{spec_is_error, NtStatus};

verus! {

/// One observable effect on the host, in the order the path causes them.
/// An effect is recorded only when the host call succeeded, so a trace
/// holds exactly the resources that were really acquired and released.
#[derive(Copy, Clone, PartialEq, Eq, Structural, Debug)]
pub enum PatchEvent {
    DescriptorAllocated,
    PagesLocked,
    PagesMapped,
    ProtectionChanged,
    SourceCopied,
    PagesUnmapped,
    PagesUnlocked,
    DescriptorFreed,
}

/// The host's answer at each acquisition step: whether the descriptor was
/// created, how locking classified, whether the temporary mapping was
/// created, and how the re-protection classified.
#[derive(Copy, Clone, PartialEq, Eq, Structural, Debug)]
pub struct PatchHost {
    pub descriptor_created: bool,
    pub lock_status: NTSTATUS,
    pub map_created: bool,
    pub protect_status: NTSTATUS,
}

/// What the patch run produced: its classified result, the trace of host
/// effects it caused, and the destination range's bytes after the run.
pub struct PatchOutcome {
    pub result: Result<(), NTSTATUS>,
    pub trace: Vec<PatchEvent>,
    pub destination: Vec<u8>,
}

/// The first failing step's classified error, if any: a descriptor or
/// mapping that could not be created is an access denial; a lock or
/// re-protection that classified as Error propagates its own status.
pub open spec fn patch_error(h: PatchHost) -> Option<NTSTATUS> {
    if !h.descriptor_created {
        Some(STATUS_ACCESS_DENIED)
    } else if spec_is_error(h.lock_status) {
        Some(h.lock_status)
    } else if !h.map_created {
        Some(STATUS_ACCESS_DENIED)
    } else if spec_is_error(h.protect_status) {
        Some(h.protect_status)
    } else {
        None
    }
}

/// The exact trace of host effects for given step outcomes: everything
/// acquired before the failing step is released, in reverse-acquisition
/// order, and on success the source is copied through the mapped alias
/// before the teardown.
pub open spec fn patch_trace(h: PatchHost) -> Seq<PatchEvent> {
    if !h.descriptor_created {
        seq![]
    } else if spec_is_error(h.lock_status) {
        seq![PatchEvent::DescriptorAllocated, PatchEvent::DescriptorFreed]
    } else if !h.map_created {
        seq![
            PatchEvent::DescriptorAllocated,
            PatchEvent::PagesLocked,
            PatchEvent::PagesUnlocked,
            PatchEvent::DescriptorFreed,
        ]
    } else if spec_is_error(h.protect_status) {
        seq![
            PatchEvent::DescriptorAllocated,
            PatchEvent::PagesLocked,
            PatchEvent::PagesMapped,
            PatchEvent::PagesUnmapped,
            PatchEvent::PagesUnlocked,
            PatchEvent::DescriptorFreed,
        ]
    } else {
        seq![
            PatchEvent::DescriptorAllocated,
            PatchEvent::PagesLocked,
            PatchEvent::PagesMapped,
            PatchEvent::ProtectionChanged,
            PatchEvent::SourceCopied,
            PatchEvent::PagesUnmapped,
            PatchEvent::PagesUnlocked,
            PatchEvent::DescriptorFreed,
        ]
    }
}

/// The host call a patch session must make next.
#[derive(Copy, Clone, PartialEq, Eq, Structural, Debug)]
pub enum PatchStep {
    DescribeDestination,
    LockPages,
    MapPages,
    ChangeProtection,
    WriteThroughAlias,
    Finished,
}

/// A live run of the patch path, driven one host call at a time: the
/// driver makes the call named by `step`, feeds the outcome in, and
/// performs, in order, the teardown effects handed back.  The session
/// decides when to stop, which error the run returns, and which resources
/// to release; once it is finished it holds no resource, whatever the
/// host answered.
pub struct PatchSession {
    pub step: PatchStep,
    pub descriptor_held: bool,
    pub pages_locked: bool,
    pub pages_mapped: bool,
    pub failure: Option<NTSTATUS>,
}

impl PatchSession {
    /// The resources held, and whether a failure is recorded, agree with
    /// the step the session has reached; in particular a finished session
    /// holds nothing.
    pub open spec fn wf(self) -> bool {
        match self.step {
            PatchStep::DescribeDestination => !self.descriptor_held && !self.pages_locked
                && !self.pages_mapped && self.failure is None,
            PatchStep::LockPages => self.descriptor_held && !self.pages_locked
                && !self.pages_mapped && self.failure is None,
            PatchStep::MapPages => self.descriptor_held && self.pages_locked && !self.pages_mapped
                && self.failure is None,
            PatchStep::ChangeProtection => self.descriptor_held && self.pages_locked
                && self.pages_mapped && self.failure is None,
            PatchStep::WriteThroughAlias => self.descriptor_held && self.pages_locked
                && self.pages_mapped && self.failure is None,
            PatchStep::Finished => !self.descriptor_held && !self.pages_locked
                && !self.pages_mapped,
        }
    }

    pub fn begin() -> (r: Self)
        ensures
            r.wf(),
            r.step == PatchStep::DescribeDestination,
    {
        PatchSession {
            step: PatchStep::DescribeDestination,
            descriptor_held: false,
            pages_locked: false,
            pages_mapped: false,
            failure: None,
        }
    }

    /// Feed in whether the page descriptor was created.  A creation
    /// failure is an access denial with nothing yet to release.
    pub fn on_described(&mut self, descriptor_created: bool) -> (teardown: Vec<PatchEvent>)
        requires
            old(self).wf(),
            old(self).step == PatchStep::DescribeDestination,
        ensures
            final(self).wf(),
            descriptor_created ==> final(self).step == PatchStep::LockPages && teardown@
                == Seq::<PatchEvent>::empty(),
            !descriptor_created ==> final(self).step == PatchStep::Finished && final(self).failure
                == Some(STATUS_ACCESS_DENIED) && teardown@ == Seq::<PatchEvent>::empty(),
    {
        if descriptor_created {
            self.descriptor_held = true;
            self.step = PatchStep::LockPages;
        } else {
            self.failure = Some(STATUS_ACCESS_DENIED);
            self.step = PatchStep::Finished;
        }
        Vec::new()
    }

    /// Feed in how locking classified.  An Error-class outcome ends the
    /// run with that status; the descriptor is released.
    pub fn on_locked(&mut self, status: NtStatus) -> (teardown: Vec<PatchEvent>)
        requires
            old(self).wf(),
            old(self).step == PatchStep::LockPages,
        ensures
            final(self).wf(),
            !spec_is_error(status.0) ==> final(self).step == PatchStep::MapPages && teardown@
                == Seq::<PatchEvent>::empty(),
            spec_is_error(status.0) ==> final(self).step == PatchStep::Finished
                && final(self).failure == Some(status.0) && teardown@ == seq![PatchEvent::DescriptorFreed],
    {
        if status.is_error() {
            self.failure = Some(status.0);
            self.descriptor_held = false;
            self.step = PatchStep::Finished;
            let mut teardown: Vec<PatchEvent> = Vec::new();
            teardown.push(PatchEvent::DescriptorFreed);
            assert(teardown@ =~= seq![PatchEvent::DescriptorFreed]);
            teardown
        } else {
            self.pages_locked = true;
            self.step = PatchStep::MapPages;
            Vec::new()
        }
    }

    /// Feed in whether the temporary mapping was created.  A creation
    /// failure is an access denial; the lock and the descriptor are
    /// released, in that order.
    pub fn on_mapped(&mut self, map_created: bool) -> (teardown: Vec<PatchEvent>)
        requires
            old(self).wf(),
            old(self).step == PatchStep::MapPages,
        ensures
            final(self).wf(),
            map_created ==> final(self).step == PatchStep::ChangeProtection && teardown@
                == Seq::<PatchEvent>::empty(),
            !map_created ==> final(self).step == PatchStep::Finished && final(self).failure
                == Some(STATUS_ACCESS_DENIED) && teardown@ == seq![
                PatchEvent::PagesUnlocked,
                PatchEvent::DescriptorFreed,
            ],
    {
        if map_created {
            self.pages_mapped = true;
            self.step = PatchStep::ChangeProtection;
            Vec::new()
        } else {
            self.failure = Some(STATUS_ACCESS_DENIED);
            self.pages_locked = false;
            self.descriptor_held = false;
            self.step = PatchStep::Finished;
            let mut teardown: Vec<PatchEvent> = Vec::new();
            teardown.push(PatchEvent::PagesUnlocked);
            teardown.push(PatchEvent::DescriptorFreed);
            assert(teardown@ =~= seq![PatchEvent::PagesUnlocked, PatchEvent::DescriptorFreed]);
            teardown
        }
    }

    /// Feed in how the re-protection classified.  An Error-class outcome
    /// ends the run with that status, after unwinding the mapping, the
    /// lock and the descriptor in strict reverse-acquisition order.
    pub fn on_protected(&mut self, status: NtStatus) -> (teardown: Vec<PatchEvent>)
        requires
            old(self).wf(),
            old(self).step == PatchStep::ChangeProtection,
        ensures
            final(self).wf(),
            !spec_is_error(status.0) ==> final(self).step == PatchStep::WriteThroughAlias
                && teardown@ == Seq::<PatchEvent>::empty(),
            spec_is_error(status.0) ==> final(self).step == PatchStep::Finished
                && final(self).failure == Some(status.0) && teardown@ == seq![
                PatchEvent::PagesUnmapped,
                PatchEvent::PagesUnlocked,
                PatchEvent::DescriptorFreed,
            ],
    {
        if status.is_error() {
            self.failure = Some(status.0);
            self.pages_mapped = false;
            self.pages_locked = false;
            self.descriptor_held = false;
            self.step = PatchStep::Finished;
            let mut teardown: Vec<PatchEvent> = Vec::new();
            teardown.push(PatchEvent::PagesUnmapped);
            teardown.push(PatchEvent::PagesUnlocked);
            teardown.push(PatchEvent::DescriptorFreed);
            assert(teardown@ =~= seq![
                PatchEvent::PagesUnmapped,
                PatchEvent::PagesUnlocked,
                PatchEvent::DescriptorFreed,
            ]);
            teardown
        } else {
            self.step = PatchStep::WriteThroughAlias;
            Vec::new()
        }
    }

    /// The write through the alias is done; tear everything down in
    /// strict reverse-acquisition order and finish successfully.
    pub fn on_written(&mut self) -> (teardown: Vec<PatchEvent>)
        requires
            old(self).wf(),
            old(self).step == PatchStep::WriteThroughAlias,
        ensures
            final(self).wf(),
            final(self).step == PatchStep::Finished,
            final(self).failure is None,
            teardown@ == seq![
                PatchEvent::PagesUnmapped,
                PatchEvent::PagesUnlocked,
                PatchEvent::DescriptorFreed,
            ],
    {
        self.pages_mapped = false;
        self.pages_locked = false;
        self.descriptor_held = false;
        self.step = PatchStep::Finished;
        let mut teardown: Vec<PatchEvent> = Vec::new();
        teardown.push(PatchEvent::PagesUnmapped);
        teardown.push(PatchEvent::PagesUnlocked);
        teardown.push(PatchEvent::DescriptorFreed);
        assert(teardown@ =~= seq![
            PatchEvent::PagesUnmapped,
            PatchEvent::PagesUnlocked,
            PatchEvent::DescriptorFreed,
        ]);
        teardown
    }

    pub fn finished(&self) -> (r: bool)
        ensures
            r == (self.step == PatchStep::Finished),
    {
        self.step == PatchStep::Finished
    }

    /// The run's classified result: the first failing step's error, or
    /// success with no value.
    pub fn result(&self) -> (r: Result<(), NTSTATUS>)
        requires
            self.wf(),
            self.step == PatchStep::Finished,
        ensures
            r == (match self.failure {
                Some(e) => Err::<(), NTSTATUS>(e),
                None => Ok::<(), NTSTATUS>(()),
            }),
    {
        match self.failure {
            Some(e) => Err(e),
            None => Ok(()),
        }
    }
}

/// Copy `source` into a read-only destination range by patching through a
/// temporary writable alias.  `destination` is the range's bytes before the
/// call; the returned outcome carries the range's bytes after it, which
/// equal the source exactly when every step succeeded, and are untouched
/// otherwise.  The run drives a `PatchSession` over the given step
/// outcomes, so this contract also certifies the session's decisions: for
/// every combination of host answers the trace it produces is exactly
/// `patch_trace` and the result exactly the first failing step's error.
pub fn safe_copy(source: &Vec<u8>, destination: &Vec<u8>, host: &PatchHost) -> (r: PatchOutcome)
    requires
        source@.len() == destination@.len(),
    ensures
        r.result == (match patch_error(*host) {
            Some(e) => Err::<(), NTSTATUS>(e),
            None => Ok::<(), NTSTATUS>(()),
        }),
        r.trace@ == patch_trace(*host),
        patch_error(*host) is None ==> r.destination@ == source@,
        patch_error(*host) is Some ==> r.destination@ == destination@,
{
    let mut session = PatchSession::begin();
    let mut trace: Vec<PatchEvent> = Vec::new();

    // Step 1: describe the destination range as a page descriptor.
    let mut teardown = session.on_described(host.descriptor_created);
    if host.descriptor_created {
        trace.push(PatchEvent::DescriptorAllocated);
    }
    trace.append(&mut teardown);
    if session.finished() {
        let dest = copy_bytes(destination);
        assert(trace@ =~= patch_trace(*host));
        return PatchOutcome { result: session.result(), trace, destination: dest };
    }

    // Step 2: lock the described pages against paging and reuse.
    let lock_ok = !crate::ntstatus::nt_error(host.lock_status);
    let mut teardown = session.on_locked(NtStatus(host.lock_status));
    if lock_ok {
        trace.push(PatchEvent::PagesLocked);
    }
    trace.append(&mut teardown);
    if session.finished() {
        let dest = copy_bytes(destination);
        assert(trace@ =~= patch_trace(*host));
        return PatchOutcome { result: session.result(), trace, destination: dest };
    }

    // Step 3: map the locked pages at a temporary kernel address.
    let mut teardown = session.on_mapped(host.map_created);
    if host.map_created {
        trace.push(PatchEvent::PagesMapped);
    }
    trace.append(&mut teardown);
    if session.finished() {
        let dest = copy_bytes(destination);
        assert(trace@ =~= patch_trace(*host));
        return PatchOutcome { result: session.result(), trace, destination: dest };
    }

    // Step 4: make the temporary mapping writable; on failure the session
    // still unwinds steps 3 to 1 before the classified error returns.
    let protect_ok = !crate::ntstatus::nt_error(host.protect_status);
    let mut teardown = session.on_protected(NtStatus(host.protect_status));
    if protect_ok {
        trace.push(PatchEvent::ProtectionChanged);
    }
    trace.append(&mut teardown);
    if session.finished() {
        let dest = copy_bytes(destination);
        assert(trace@ =~= patch_trace(*host));
        return PatchOutcome { result: session.result(), trace, destination: dest };
    }

    // Step 5: write through the temporary alias; the physical pages are
    // shared, so the original mapping observes the new bytes.  Step 6: the
    // session tears down in strict reverse-acquisition order.
    let dest = copy_bytes(source);
    trace.push(PatchEvent::SourceCopied);
    let mut teardown = session.on_written();
    trace.append(&mut teardown);
    assert(trace@ =~= patch_trace(*host));
    PatchOutcome { result: session.result(), trace, destination: dest }
}

/// An owned copy of the bytes.
fn copy_bytes(b: &Vec<u8>) -> (r: Vec<u8>)
    ensures
        r@ == b@,
{
    let n = b.len();
    let mut out: Vec<u8> = Vec::new();
    let mut i: usize = 0;
    while i < n
        invariant
            i <= n,
            n == b@.len(),
            out@.len() == i,
            forall|j: int| 0 <= j < i ==> out@[j] == b@[j],
        decreases n - i,
    {
        out.push(b[i]);
        i = i + 1;
    }
    assert(out@ =~= b@);
    out
}

/// How many of the first `n` events of a trace equal `e`.
pub open spec fn event_count(t: Seq<PatchEvent>, n: int, e: PatchEvent) -> int
    decreases n,
{
    if n <= 0 {
        0
    } else {
        event_count(t, n - 1, e) + if t[n - 1] == e {
            1int
        } else {
            0int
        }
    }
}

/// Resource teardown happens on every path: whatever the host answered at
/// each step, the trace of a patch run releases exactly what it acquired.
/// every descriptor allocation is paired with a free, every lock with an
/// unlock, every mapping with an unmapping.
pub proof fn lemma_patch_releases_everything(h: PatchHost)
    ensures
        event_count(patch_trace(h), patch_trace(h).len() as int, PatchEvent::DescriptorAllocated)
            == event_count(patch_trace(h), patch_trace(h).len() as int, PatchEvent::DescriptorFreed),
        event_count(patch_trace(h), patch_trace(h).len() as int, PatchEvent::PagesLocked)
            == event_count(patch_trace(h), patch_trace(h).len() as int, PatchEvent::PagesUnlocked),
        event_count(patch_trace(h), patch_trace(h).len() as int, PatchEvent::PagesMapped)
            == event_count(patch_trace(h), patch_trace(h).len() as int, PatchEvent::PagesUnmapped),
{
    reveal_with_fuel(event_count, 10);
}

/// A failing run acquires nothing it keeps: the trace stops after the
/// releases, and the destination bytes are untouched; only a fully
/// successful run reaches the copy, and then exactly once.
pub proof fn lemma_patch_copies_once_on_success(h: PatchHost)
    ensures
        patch_error(h) is None ==> event_count(
            patch_trace(h),
            patch_trace(h).len() as int,
            PatchEvent::SourceCopied,
        ) == 1,
        patch_error(h) is Some ==> event_count(
            patch_trace(h),
            patch_trace(h).len() as int,
            PatchEvent::SourceCopied,
        ) == 0,
{
    reveal_with_fuel(event_count, 10);
}

} // verus!
