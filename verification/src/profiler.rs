use std::collections::VecDeque;
use vstd::prelude::*;

verus! {

/// Frames whose GPU queries may still be in flight.
pub const MAX_PENDING_FRAMES: usize = 4;

/// Completed frames whose results are kept.
pub const MAX_RESULT_FRAMES: usize = 10;

/// One profiling scope of a frame: its name, nesting depth and the queries
/// that time it.
pub struct ScopeRecord<Q> {
    pub name: String,
    pub depth: u32,
    pub query: Q,
}

/// The scopes recorded during one frame.
pub struct FrameQueries<Q> {
    pub queries: Vec<ScopeRecord<Q>>,
    pub frame_index: u64,
}

/// What ending a scope did.
#[derive(Clone, Copy, Debug, PartialEq, Eq, Structural)]
pub enum ScopeEnd {
    /// Profiling is off; nothing happened.
    Disabled,
    /// The handle names no scope of the current frame; nothing happened.
    InvalidHandle,
    /// The scope's queries are to be ended and the depth went down by one.
    Ended,
    /// The scope's queries are to be ended, but more scopes were ended than
    /// begun (the depth was already zero).
    EndedUnbalanced,
}

/// The bookkeeping of the GPU profiler: the scopes of the current frame,
/// the frames waiting for their GPU results, and the results of the last
/// frames.
pub struct ProfilerState<Q, R> {
    pub enabled: bool,
    pub current_frame: FrameQueries<Q>,
    pub pending_frames: VecDeque<FrameQueries<Q>>,
    pub results: Vec<Vec<R>>,
    pub frame_index: u64,
    pub scope_depth: u32,
}

impl<Q, R> ProfilerState<Q, R> {
    /// At most `MAX_PENDING_FRAMES` frames wait and at most
    /// `MAX_RESULT_FRAMES` results are kept.
    pub open spec fn wf(&self) -> bool {
        &&& self.pending_frames@.len() <= MAX_PENDING_FRAMES
        &&& self.results@.len() <= MAX_RESULT_FRAMES
    }

    pub fn new() -> (r: ProfilerState<Q, R>)
        ensures
            r.wf(),
            r.enabled,
            r.current_frame.queries@.len() == 0,
            r.current_frame.frame_index == 0,
            r.pending_frames@.len() == 0,
            r.results@.len() == 0,
            r.frame_index == 0,
            r.scope_depth == 0,
    {
        ProfilerState {
            enabled: true,
            current_frame: FrameQueries { queries: Vec::new(), frame_index: 0 },
            pending_frames: VecDeque::new(),
            results: Vec::new(),
            frame_index: 0,
            scope_depth: 0,
        }
    }

    pub fn is_enabled(&self) -> (r: bool)
        ensures
            r == self.enabled,
    {
        self.enabled
    }

    /// Records a new scope of the current frame at the current depth and
    /// returns its index; later scopes nest one level deeper until it ends.
    pub fn start_scope(&mut self, name: String, query: Q) -> (index: usize)
        requires
            old(self).scope_depth < u32::MAX,
        ensures
            index == old(self).current_frame.queries@.len(),
            final(self).current_frame.queries@.len() == old(self).current_frame.queries@.len() + 1,
            final(self).current_frame.queries@.subrange(0, index as int)
                == old(self).current_frame.queries@,
            final(self).current_frame.queries@[index as int].name == name,
            final(self).current_frame.queries@[index as int].depth == old(self).scope_depth,
            final(self).current_frame.queries@[index as int].query == query,
            final(self).current_frame.frame_index == old(self).current_frame.frame_index,
            final(self).scope_depth == old(self).scope_depth + 1,
            final(self).enabled == old(self).enabled,
            final(self).pending_frames == old(self).pending_frames,
            final(self).results == old(self).results,
            final(self).frame_index == old(self).frame_index,
    {
        let index = self.current_frame.queries.len();
        let depth = self.scope_depth;
        self.current_frame.queries.push(ScopeRecord { name, depth, query });
        self.scope_depth = depth + 1;
        assert(self.current_frame.queries@.subrange(0, index as int) =~= old(self).current_frame.queries@);
        index
    }

    /// Opens a scope when profiling is on: its index, or none (and no change)
    /// when profiling is off.
    pub fn scope(&mut self, name: String, query: Q) -> (r: Option<usize>)
        requires
            old(self).scope_depth < u32::MAX,
        ensures
            !old(self).enabled ==> r is None && *final(self) == *old(self),
            old(self).enabled ==> r == Some(old(self).current_frame.queries@.len() as usize)
                && final(self).current_frame.queries@.len() == old(self).current_frame.queries@.len() + 1
                && final(self).current_frame.queries@.subrange(0, old(self).current_frame.queries@.len() as int)
                    == old(self).current_frame.queries@
                && final(self).current_frame.queries@.last().name == name
                && final(self).current_frame.queries@.last().depth == old(self).scope_depth
                && final(self).current_frame.queries@.last().query == query
                && final(self).scope_depth == old(self).scope_depth + 1,
            final(self).enabled == old(self).enabled,
            final(self).pending_frames == old(self).pending_frames,
            final(self).results == old(self).results,
            final(self).frame_index == old(self).frame_index,
    {
        if !self.enabled {
            return None;
        }
        Some(self.start_scope(name, query))
    }

    /// Ends the scope with the given index.
    pub fn end_scope(&mut self, index: usize) -> (r: ScopeEnd)
        ensures
            r == (if !old(self).enabled {
                ScopeEnd::Disabled
            } else if index >= old(self).current_frame.queries@.len() {
                ScopeEnd::InvalidHandle
            } else if old(self).scope_depth == 0 {
                ScopeEnd::EndedUnbalanced
            } else {
                ScopeEnd::Ended
            }),
            r == ScopeEnd::Ended ==> final(self).scope_depth == old(self).scope_depth - 1,
            r != ScopeEnd::Ended ==> final(self).scope_depth == old(self).scope_depth,
            final(self).enabled == old(self).enabled,
            final(self).current_frame == old(self).current_frame,
            final(self).pending_frames == old(self).pending_frames,
            final(self).results == old(self).results,
            final(self).frame_index == old(self).frame_index,
    {
        if !self.enabled {
            return ScopeEnd::Disabled;
        }
        if index >= self.current_frame.queries.len() {
            return ScopeEnd::InvalidHandle;
        }
        match self.scope_depth.checked_sub(1) {
            Some(d) => {
                self.scope_depth = d;
                ScopeEnd::Ended
            },
            None => ScopeEnd::EndedUnbalanced,
        }
    }

    /// First half of ending a frame: the current frame joins the pending
    /// frames (the oldest are dropped beyond `MAX_PENDING_FRAMES`) and a new
    /// frame begins. Returns false, changing nothing, when profiling is off.
    /// The caller then reads the GPU results of the oldest pending frame and
    /// passes them to `finish_frame`.
    pub fn begin_frame_end(&mut self) -> (r: bool)
        requires
            old(self).wf(),
            old(self).frame_index < u64::MAX,
        ensures
            r == old(self).enabled,
            !r ==> *final(self) == *old(self),
            r ==> {
                let all = old(self).pending_frames@.push(old(self).current_frame);
                let dropped = all.len() - MAX_PENDING_FRAMES;
                &&& final(self).pending_frames@ == if dropped > 0 { all.subrange(dropped, all.len() as int) } else { all }
                &&& final(self).current_frame.queries@.len() == 0
                &&& final(self).current_frame.frame_index == old(self).frame_index
                &&& final(self).frame_index == old(self).frame_index + 1
                &&& final(self).results == old(self).results
                &&& final(self).scope_depth == old(self).scope_depth
                &&& final(self).enabled
                &&& final(self).pending_frames@.len() >= 1
                &&& final(self).wf()
            },
    {
        if !self.enabled {
            return false;
        }
        let mut frame = FrameQueries { queries: Vec::new(), frame_index: self.frame_index };
        std::mem::swap(&mut frame, &mut self.current_frame);
        self.pending_frames.push_back(frame);
        self.frame_index = self.frame_index + 1;
        let ghost all = old(self).pending_frames@.push(old(self).current_frame);
        assert(self.pending_frames@ == all);
        let ghost before = *self;
        while self.pending_frames.len() > MAX_PENDING_FRAMES
            invariant
                self.current_frame == before.current_frame,
                self.results == before.results,
                self.frame_index == before.frame_index,
                self.scope_depth == before.scope_depth,
                self.enabled == before.enabled,
                all.len() <= MAX_PENDING_FRAMES + 1,
                self.pending_frames@ == (if self.pending_frames@.len() == all.len() { all } else {
                    all.subrange(all.len() - MAX_PENDING_FRAMES, all.len() as int) }),
                self.pending_frames@.len() == all.len() || self.pending_frames@.len() == MAX_PENDING_FRAMES,
                self.pending_frames@.len() <= all.len(),
            decreases self.pending_frames@.len(),
        {
            self.pending_frames.pop_front();
            assert(self.pending_frames@ =~= all.subrange(all.len() - MAX_PENDING_FRAMES, all.len() as int));
        }
        proof {
            if all.len() > MAX_PENDING_FRAMES {
                assert(self.pending_frames@.len() == MAX_PENDING_FRAMES);
                assert(self.pending_frames@ == all.subrange(all.len() - MAX_PENDING_FRAMES, all.len() as int));
            } else {
                assert(self.pending_frames@ == all);
            }
        }
        true
    }

    /// Second half of ending a frame: the results of the oldest pending
    /// frame, when the GPU had them, are kept (the oldest results are
    /// dropped beyond `MAX_RESULT_FRAMES`) and the frame stops pending.
    /// Unbalanced scopes are forgotten.
    pub fn finish_frame(&mut self, oldest_results: Option<Vec<R>>)
        requires
            old(self).wf(),
            old(self).pending_frames@.len() >= 1,
        ensures
            final(self).wf(),
            final(self).scope_depth == 0,
            final(self).enabled == old(self).enabled,
            final(self).current_frame == old(self).current_frame,
            final(self).frame_index == old(self).frame_index,
            oldest_results is None ==> final(self).pending_frames == old(self).pending_frames
                && final(self).results == old(self).results,
            oldest_results matches Some(r) ==> {
                let all = old(self).results@.push(r);
                let dropped = all.len() - MAX_RESULT_FRAMES;
                &&& final(self).pending_frames@ == old(self).pending_frames@.drop_first()
                &&& final(self).results@ == if dropped > 0 { all.subrange(dropped, all.len() as int) } else { all }
            },
    {
        match oldest_results {
            Some(r) => {
                let ghost all = old(self).results@.push(r);
                self.results.push(r);
                let ghost before = *self;
                while self.results.len() > MAX_RESULT_FRAMES
                    invariant
                        self.current_frame == before.current_frame,
                        self.pending_frames == before.pending_frames,
                        self.frame_index == before.frame_index,
                        self.scope_depth == before.scope_depth,
                        self.enabled == before.enabled,
                        all.len() <= MAX_RESULT_FRAMES + 1,
                        self.results@ == (if self.results@.len() == all.len() { all } else {
                            all.subrange(all.len() - MAX_RESULT_FRAMES, all.len() as int) }),
                        self.results@.len() == all.len() || self.results@.len() == MAX_RESULT_FRAMES,
                        self.results@.len() <= all.len(),
                    decreases self.results@.len(),
                {
                    self.results.remove(0);
                    assert(self.results@ =~= all.subrange(all.len() - MAX_RESULT_FRAMES, all.len() as int));
                }
                proof {
                    if all.len() > MAX_RESULT_FRAMES {
                        assert(self.results@.len() == MAX_RESULT_FRAMES);
                        assert(self.results@ == all.subrange(all.len() - MAX_RESULT_FRAMES, all.len() as int));
                    } else {
                        assert(self.results@ == all);
                    }
                }
                self.pending_frames.pop_front();
            },
            None => {},
        }
        if self.scope_depth != 0 {
            self.scope_depth = 0;
        }
    }
}

} // verus!
