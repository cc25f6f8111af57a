//! The native-framework I/O bridge, modeled as what can be decided and
//! tracked outside the native library: the five-step construction sequence
//! with its all-or-nothing resource rollback, the single-teardown rule, and
//! the read/seek callback contract over the wrapped byte source.
//!
//! The embedder performs the actual native calls; after each one it advances
//! this state machine with the call's outcome and releases exactly the
//! resources the machine hands back.

use vstd::prelude::*;

verus! {

/// The lifecycle of one natively allocated resource: never released unless
/// held, never held again once released.
#[derive(Debug, Clone, Copy, PartialEq, Eq, Structural)]
pub enum ResourceState {
    Free,
    Held,
    Released,
}

/// The native allocations the bridge owns, in allocation order: the
/// fixed-size I/O buffer, the I/O context wrapping it, and the format/demux
/// context the I/O context is attached to.
#[derive(Debug, Clone, Copy, PartialEq, Eq, Structural)]
pub struct BridgeResources {
    pub io_buffer: ResourceState,
    pub io_context: ResourceState,
    pub format_context: ResourceState,
}

/// Which native resource a release names.
#[derive(Debug, Clone, Copy, PartialEq, Eq, Structural)]
pub enum BridgeResourceKind {
    IoBuffer,
    IoContext,
    FormatContext,
}

/// Nothing is still held: the state after any complete rollback or
/// teardown.
pub open spec fn spec_no_leak(r: BridgeResources) -> bool {
    &&& !(r.io_buffer is Held)
    &&& !(r.io_context is Held)
    &&& !(r.format_context is Held)
}

/// Every held resource becomes released; free and already-released ones are
/// untouched, so nothing is ever released twice or released without having
/// been allocated.
pub open spec fn spec_release_all(r: BridgeResources) -> BridgeResources {
    BridgeResources {
        io_buffer: if r.io_buffer is Held {
            ResourceState::Released
        } else {
            r.io_buffer
        },
        io_context: if r.io_context is Held {
            ResourceState::Released
        } else {
            r.io_context
        },
        format_context: if r.format_context is Held {
            ResourceState::Released
        } else {
            r.format_context
        },
    }
}

/// The held resources in release order — reverse allocation order, so the
/// format context goes before the I/O context it points at, and the I/O
/// context before its buffer.
pub open spec fn spec_release_order(r: BridgeResources) -> Seq<BridgeResourceKind> {
    (if r.format_context is Held {
        seq![BridgeResourceKind::FormatContext]
    } else {
        Seq::empty()
    }) + (if r.io_context is Held {
        seq![BridgeResourceKind::IoContext]
    } else {
        Seq::empty()
    }) + (if r.io_buffer is Held {
        seq![BridgeResourceKind::IoBuffer]
    } else {
        Seq::empty()
    })
}

/// Number of construction steps: allocate the I/O buffer, allocate the I/O
/// context, allocate the format context, open the input, find the stream
/// info. (Probing the content type sits between the third and fourth but
/// cannot fail.) Each of the five can fail, and a failure must unwind
/// everything allocated before it.
pub const BRIDGE_STEPS: u8 = 5;

/// The bridge construction and teardown tracker.
///
/// `step` counts the construction steps that have succeeded; the first
/// three each allocate one native resource. A failure releases everything
/// held and latches `failed`; after successful construction, `teardown`
/// releases everything exactly once and latches `torn_down`.
#[derive(Debug, Clone, Copy, PartialEq, Eq, Structural)]
pub struct BridgeBuilder {
    pub resources: BridgeResources,
    /// Construction steps completed so far, up to `BRIDGE_STEPS`.
    pub step: u8,
    /// A construction step failed; everything already allocated has been
    /// released.
    pub failed: bool,
    /// Teardown ran; everything has been released.
    pub torn_down: bool,
}

/// What each resource's state must be while construction is under way:
/// held exactly when its allocation step has completed, released never.
pub open spec fn spec_states_match_step(b: BridgeBuilder) -> bool {
    &&& b.resources.io_buffer == (if b.step >= 1 {
        ResourceState::Held
    } else {
        ResourceState::Free
    })
    &&& b.resources.io_context == (if b.step >= 2 {
        ResourceState::Held
    } else {
        ResourceState::Free
    })
    &&& b.resources.format_context == (if b.step >= 3 {
        ResourceState::Held
    } else {
        ResourceState::Free
    })
}

/// The successor state when construction step `b.step` succeeds: its
/// resource (if it allocates one) becomes held and the count moves on.
pub open spec fn spec_step_success(b: BridgeBuilder) -> BridgeBuilder {
    let resources = if b.step == 0 {
        BridgeResources { io_buffer: ResourceState::Held, ..b.resources }
    } else if b.step == 1 {
        BridgeResources { io_context: ResourceState::Held, ..b.resources }
    } else if b.step == 2 {
        BridgeResources { format_context: ResourceState::Held, ..b.resources }
    } else {
        b.resources
    };
    BridgeBuilder { resources, step: (b.step + 1) as u8, ..b }
}

/// The successor state when construction step `b.step` fails: every held
/// resource is released and the failure is latched.
pub open spec fn spec_step_failure(b: BridgeBuilder) -> BridgeBuilder {
    BridgeBuilder { resources: spec_release_all(b.resources), failed: true, ..b }
}

impl BridgeBuilder {
    /// A consistent tracker: the step count is in range, and while neither
    /// failure nor teardown has struck, each resource is held exactly when
    /// its allocation step has completed. After a failure or a teardown,
    /// nothing is held.
    pub open spec fn wf(&self) -> bool {
        &&& self.step <= BRIDGE_STEPS
        &&& (!self.failed && !self.torn_down) ==> spec_states_match_step(*self)
        &&& (self.failed || self.torn_down) ==> spec_no_leak(self.resources)
    }

    /// Construction about to begin: nothing allocated yet.
    pub fn new() -> (b: Self)
        ensures
            b.wf(),
            b.step == 0,
            !b.failed,
            !b.torn_down,
            b.resources == (BridgeResources {
                io_buffer: ResourceState::Free,
                io_context: ResourceState::Free,
                format_context: ResourceState::Free,
            }),
    {
        BridgeBuilder {
            resources: BridgeResources {
                io_buffer: ResourceState::Free,
                io_context: ResourceState::Free,
                format_context: ResourceState::Free,
            },
            step: 0,
            failed: false,
            torn_down: false,
        }
    }

    /// Record the outcome of the construction step just performed. On
    /// success the step's resource (if any) is now held and construction
    /// moves on; on failure every resource held so far must be released, and
    /// the returned list names them, in release order. The embedder performs
    /// exactly these releases and abandons the construction.
    pub fn advance(&mut self, ok: bool) -> (released: Vec<BridgeResourceKind>)
        requires
            old(self).wf(),
            !old(self).failed,
            !old(self).torn_down,
            old(self).step < BRIDGE_STEPS,
        ensures
            final(self).wf(),
            ok ==> {
                &&& *final(self) == spec_step_success(*old(self))
                &&& released@ == Seq::<BridgeResourceKind>::empty()
            },
            !ok ==> {
                &&& *final(self) == spec_step_failure(*old(self))
                &&& released@ == spec_release_order(old(self).resources)
                &&& spec_no_leak(final(self).resources)
            },
    {
        if ok {
            if self.step == 0 {
                self.resources.io_buffer = ResourceState::Held;
            } else if self.step == 1 {
                self.resources.io_context = ResourceState::Held;
            } else if self.step == 2 {
                self.resources.format_context = ResourceState::Held;
            }
            self.step = self.step + 1;
            Vec::new()
        } else {
            self.failed = true;
            self.release_held()
        }
    }

    /// Construction has completed: every step succeeded.
    pub fn is_complete(&self) -> (r: bool)
        ensures
            r == (self.step == BRIDGE_STEPS && !self.failed && !self.torn_down),
    {
        self.step == BRIDGE_STEPS && !self.failed && !self.torn_down
    }

    /// Tear the bridge down, once: every held resource is released, and the
    /// returned list names them in release order. The contract forbids a
    /// second teardown and a teardown after a failure (which already
    /// released everything), so each resource is released exactly once on
    /// every path.
    pub fn teardown(&mut self) -> (released: Vec<BridgeResourceKind>)
        requires
            old(self).wf(),
            !old(self).failed,
            !old(self).torn_down,
        ensures
            final(self).wf(),
            final(self).torn_down,
            final(self).resources == spec_release_all(old(self).resources),
            released@ == spec_release_order(old(self).resources),
            spec_no_leak(final(self).resources),
    {
        self.torn_down = true;
        self.release_held()
    }

    /// Mark every held resource released and name them in release order.
    fn release_held(&mut self) -> (released: Vec<BridgeResourceKind>)
        ensures
            final(self).resources == spec_release_all(old(self).resources),
            final(self).step == old(self).step,
            final(self).failed == old(self).failed,
            final(self).torn_down == old(self).torn_down,
            released@ == spec_release_order(old(self).resources),
    {
        let mut released: Vec<BridgeResourceKind> = Vec::new();
        if matches!(self.resources.format_context, ResourceState::Held) {
            self.resources.format_context = ResourceState::Released;
            released.push(BridgeResourceKind::FormatContext);
        }
        if matches!(self.resources.io_context, ResourceState::Held) {
            self.resources.io_context = ResourceState::Released;
            released.push(BridgeResourceKind::IoContext);
        }
        if matches!(self.resources.io_buffer, ResourceState::Held) {
            self.resources.io_buffer = ResourceState::Released;
            released.push(BridgeResourceKind::IoBuffer);
        }
        proof {
            assert(released@ =~= spec_release_order(old(self).resources));
        }
        released
    }
}

/// Failing at any point of the construction releases exactly what the
/// prior steps allocated: afterwards nothing is held, what was held is
/// released, and what was never allocated stays untouched.
pub proof fn lemma_failure_releases_all(b: BridgeBuilder)
    requires
        b.wf(),
        !b.failed,
        !b.torn_down,
    ensures
        spec_no_leak(spec_step_failure(b).resources),
        b.resources.io_buffer is Held ==> spec_step_failure(b).resources.io_buffer is Released,
        b.resources.io_context is Held ==> spec_step_failure(b).resources.io_context is Released,
        b.resources.format_context is Held ==> spec_step_failure(
            b,
        ).resources.format_context is Released,
        b.resources.io_buffer is Free ==> spec_step_failure(b).resources.io_buffer is Free,
        b.resources.io_context is Free ==> spec_step_failure(b).resources.io_context is Free,
        b.resources.format_context is Free ==> spec_step_failure(b).resources.format_context is Free,
{
}

/// What the read callback reports for a read of `n_read` bytes from the
/// wrapped byte source: the end-of-data marker when nothing remained, else
/// the byte count.
#[derive(Debug, Clone, Copy, PartialEq, Eq, Structural)]
pub enum ReadCallbackResult {
    /// This many bytes, more than zero, were copied into the native buffer.
    Bytes(usize),
    /// Nothing remained: the framework's end-of-data sentinel.
    EndOfData,
}

/// Turn the byte count of a read on the wrapped source into what the read
/// callback reports: zero bytes is end of data, never an error.
pub fn read_callback_result(n_read: usize) -> (r: ReadCallbackResult)
    ensures
        n_read == 0 ==> r == ReadCallbackResult::EndOfData,
        n_read > 0 ==> r == ReadCallbackResult::Bytes(n_read),
{
    if n_read == 0 {
        ReadCallbackResult::EndOfData
    } else {
        ReadCallbackResult::Bytes(n_read)
    }
}

/// The four modes of the native seek callback: the three ordinary seek
/// origins, and a size query that reports the total length without moving
/// the position.
#[derive(Debug, Clone, Copy, PartialEq, Eq, Structural)]
pub enum NativeSeekRequest {
    Absolute(i64),
    FromCurrent(i64),
    FromEnd(i64),
    Size,
}

/// The position a native seek request resolves to over a source of `len`
/// bytes with cursor `pos`, or nothing when the result falls outside
/// `[0, len]` — reported to the framework as its error sentinel, never
/// silently clamped. A size query yields `len` and leaves the cursor alone.
pub open spec fn spec_native_seek(len: int, pos: int, req: NativeSeekRequest) -> Option<int> {
    match req {
        NativeSeekRequest::Size => Option::Some(len),
        NativeSeekRequest::Absolute(offset) => if 0 <= offset <= len {
            Option::Some(offset as int)
        } else {
            Option::None
        },
        NativeSeekRequest::FromCurrent(offset) => if 0 <= pos + offset <= len {
            Option::Some(pos + offset)
        } else {
            Option::None
        },
        NativeSeekRequest::FromEnd(offset) => if 0 <= len + offset <= len {
            Option::Some(len + offset)
        } else {
            Option::None
        },
    }
}

/// Resolve a native seek request: the new cursor position (or, for a size
/// query, the total length), or None for the framework's error sentinel
/// when the request lands outside the source.
pub fn native_seek(len: u64, pos: u64, req: NativeSeekRequest) -> (r: Option<u64>)
    requires
        pos <= len,
        len <= i64::MAX,
    ensures
        match r {
            Some(p) => spec_native_seek(len as int, pos as int, req) == Some(p as int),
            None => spec_native_seek(len as int, pos as int, req) is None,
        },
{
    match req {
        NativeSeekRequest::Size => Some(len),
        NativeSeekRequest::Absolute(offset) => {
            if 0 <= offset && offset as u64 <= len {
                Some(offset as u64)
            } else {
                None
            }
        }
        NativeSeekRequest::FromCurrent(offset) => {
            let target: i128 = pos as i128 + offset as i128;
            if 0 <= target && target <= len as i128 {
                Some(target as u64)
            } else {
                None
            }
        }
        NativeSeekRequest::FromEnd(offset) => {
            let target: i128 = len as i128 + offset as i128;
            if 0 <= target && target <= len as i128 {
                Some(target as u64)
            } else {
                None
            }
        }
    }
}

} // verus!
