use vstd::prelude::*;

verus! {

/// The device queues that frame graphs run on.
#[derive(Clone, Copy, Debug, PartialEq, Eq, Hash, Structural)]
pub enum Queue {
    Graphics,
    Compute,
}

impl Default for Queue {
    fn default() -> (r: Self)
        ensures
            r == Queue::Graphics,
    {
        Queue::Graphics
    }
}

/// The number of frames that a queue graph records ahead: its command
/// buffers are double buffered.
pub const FRAMES_IN_FLIGHT: u32 = 2;

/// Why a queue graph refuses a request.
#[derive(Clone, Copy, Debug, PartialEq, Eq, Structural)]
pub enum QueueError {
    /// Nodes were added after the graph was run.
    Locked,
    /// A submission was asked for with no nodes added since the last one.
    NoUnsubmittedNodes,
    /// The graph was run with nodes that no submission covers.
    UnsubmittedNodes,
}

impl QueueError {
    pub fn message(&self) -> (r: &'static str)
        ensures
            *self == QueueError::Locked ==> r@ == "Cannot add nodes to a queue that has already been run."@,
            *self == QueueError::NoUnsubmittedNodes ==> r@ == "Queue has no unsubmitted nodes."@,
            *self == QueueError::UnsubmittedNodes ==> r@ == "Queue has unsubmitted nodes."@,
    {
        match self {
            QueueError::Locked => "Cannot add nodes to a queue that has already been run.",
            QueueError::NoUnsubmittedNodes => "Queue has no unsubmitted nodes.",
            QueueError::UnsubmittedNodes => "Queue has unsubmitted nodes.",
        }
    }
}

/// The value that submission `index` of frame `frame` waits for on the
/// queue's timeline semaphore.
pub open spec fn timeline_wait_value(frame: u64, submit_count: nat, index: nat) -> int {
    frame * submit_count + index
}

/// The value that submission `index` of frame `frame` signals.
pub open spec fn timeline_signal_value(frame: u64, submit_count: nat, index: nat) -> int {
    frame * submit_count + index + 1
}

/// The value that the host waits for before recording frame `frame`, from
/// the third frame on.
pub open spec fn host_wait_value(frame: u64, submit_count: nat) -> int {
    (frame - 1) * submit_count
}

/// The abstract state of a queue graph.
pub struct QueueGraphModel<C> {
    pub queue: Queue,
    pub frame_number: u64,
    /// The command buffers of each submission, for even and for odd frames.
    pub command_buffers: (Seq<C>, Seq<C>),
    /// What each submission waits for on another queue's timeline.
    pub queue_waits: Seq<Option<(Queue, u32)>>,
    pub open_submit: bool,
    pub locked: bool,
}

/// The command buffers of both frame parities are paired, submission by
/// submission.
pub open spec fn graph_wf<C>(m: QueueGraphModel<C>) -> bool {
    m.command_buffers.0.len() == m.command_buffers.1.len()
}

/// Whether running the graph now keeps all timeline values within `u64`.
pub open spec fn run_fits<C>(m: QueueGraphModel<C>) -> bool {
    &&& m.frame_number < u64::MAX
    &&& (m.frame_number + 1) * m.command_buffers.0.len() <= u64::MAX
}

/// What one submission of a run is made of.
pub struct SubmitPlan<C> {
    pub command_buffer: C,
    /// The timeline values of other queues that it waits for.
    pub queue_waits: Vec<(Queue, u32)>,
    /// The value of this queue's timeline that it waits for.
    pub timeline_wait: u64,
    /// The value of this queue's timeline that it signals.
    pub timeline_signal: u64,
    /// Whether it also waits for the surfaces' acquired images (the first
    /// submission of a graphics run).
    pub waits_for_acquire: bool,
    /// Whether it signals the surfaces' present semaphores and records their
    /// transition to presentation (the last submission).
    pub finishes_surfaces: bool,
}

/// What a run of a queue graph submits.
pub struct RunPlan<C> {
    /// Which half of the double buffered command buffers the run records.
    pub frame_index: usize,
    /// The timeline value that the host waits for before recording, if any.
    pub host_wait: Option<u64>,
    /// Whether the surfaces' next images are acquired before recording.
    pub acquires_surfaces: bool,
    pub command_buffers: Vec<C>,
    pub submits: Vec<SubmitPlan<C>>,
}

/// The waits on other queues that every submission of a run carries: each
/// recorded wait, in order.
pub open spec fn present_waits(waits: Seq<Option<(Queue, u32)>>) -> Seq<(Queue, u32)> {
    waits.filter_map(|w: Option<(Queue, u32)>| w)
}

/// A run of the graph in state `m`: its frame index, the host wait, and for
/// each submission its command buffer, waits and signal.
pub open spec fn run_plan_ok<C>(m: QueueGraphModel<C>, p: RunPlan<C>) -> bool {
    let count = m.command_buffers.0.len();
    let bufs = if m.frame_number % 2 == 0 { m.command_buffers.0 } else { m.command_buffers.1 };
    &&& p.frame_index == (m.frame_number % 2) as usize
    &&& p.host_wait == if m.frame_number >= 2 && count > 0 {
        Some(host_wait_value(m.frame_number, count) as u64)
    } else {
        None::<u64>
    }
    &&& p.acquires_surfaces == (count > 0 && m.queue == Queue::Graphics)
    &&& p.command_buffers@ == bufs
    &&& p.submits@.len() == count
    &&& forall|i: int| #![trigger p.submits@[i]] 0 <= i < count ==> {
        let s = p.submits@[i];
        &&& s.command_buffer == bufs[i]
        &&& s.queue_waits@ == present_waits(m.queue_waits)
        &&& s.timeline_wait == timeline_wait_value(m.frame_number, count, i as nat)
        &&& s.timeline_signal == timeline_signal_value(m.frame_number, count, i as nat)
        &&& s.waits_for_acquire == (i == 0 && m.queue == Queue::Graphics)
        &&& s.finishes_surfaces == (i == count - 1)
    }
}

/// The latest submit set: the one that the next submission closes, numbered
/// by the submissions closed before it.
pub open spec fn latest_submit_set<C>(m: QueueGraphModel<C>) -> u32 {
    m.command_buffers.0.len() as u32
}

/// Adding nodes: refused once the graph has run; otherwise the nodes join
/// the latest submit set, which runs after every earlier one.
pub open spec fn spec_add_nodes<C>(m: QueueGraphModel<C>) -> (QueueGraphModel<C>, Result<u32, QueueError>) {
    if m.locked {
        (m, Err(QueueError::Locked))
    } else {
        (QueueGraphModel { open_submit: true, ..m }, Ok(latest_submit_set(m)))
    }
}

/// Adding a submission: refused when no nodes are open; otherwise the open
/// nodes become a submission with a command buffer per frame parity and a
/// wait on another queue. Answers the submit set it closes; the next set
/// comes after it.
pub open spec fn spec_add_submit<C>(m: QueueGraphModel<C>, command_buffers: (C, C), wait: Option<(Queue, u32)>) -> (
    QueueGraphModel<C>,
    Result<u32, QueueError>,
) {
    if !m.open_submit {
        (m, Err(QueueError::NoUnsubmittedNodes))
    } else {
        (
            QueueGraphModel {
                command_buffers: (m.command_buffers.0.push(command_buffers.0), m.command_buffers.1.push(command_buffers.1)),
                queue_waits: m.queue_waits.push(wait),
                open_submit: false,
                ..m
            },
            Ok(latest_submit_set(m)),
        )
    }
}

/// Clearing a queue drops its submissions' command buffers; recorded waits,
/// open nodes and the lock stay.
pub open spec fn spec_clear<C>(m: QueueGraphModel<C>) -> QueueGraphModel<C> {
    QueueGraphModel { command_buffers: (Seq::<C>::empty(), Seq::<C>::empty()), ..m }
}

/// The frame graph of one device queue: its submissions, each a set of
/// nodes recorded into a command buffer per frame parity, and the frame
/// counter that drives its timeline semaphore.
pub struct QueueGraph<C> {
    queue: Queue,
    frame_number: u64,
    /// The command buffers of each submission: for even and for odd frames.
    command_buffers: Vec<(C, C)>,
    queue_waits: Vec<Option<(Queue, u32)>>,
    open_submit: bool,
    locked: bool,
}

/// The first command buffer of each pair.
pub open spec fn evens<C>(pairs: Seq<(C, C)>) -> Seq<C> {
    pairs.map_values(|p: (C, C)| p.0)
}

/// The second command buffer of each pair.
pub open spec fn odds<C>(pairs: Seq<(C, C)>) -> Seq<C> {
    pairs.map_values(|p: (C, C)| p.1)
}

impl<C> View for QueueGraph<C> {
    type V = QueueGraphModel<C>;

    closed spec fn view(&self) -> QueueGraphModel<C> {
        QueueGraphModel {
            queue: self.queue,
            frame_number: self.frame_number,
            command_buffers: (evens(self.command_buffers@), odds(self.command_buffers@)),
            queue_waits: self.queue_waits@,
            open_submit: self.open_submit,
            locked: self.locked,
        }
    }
}

impl<C: Copy> QueueGraph<C> {
    /// A graph with no nodes that has never run.
    pub fn new(queue: Queue) -> (r: Self)
        ensures
            r@.queue == queue,
            r@.frame_number == 0,
            r@.command_buffers.0.len() == 0,
            r@.command_buffers.1.len() == 0,
            r@.queue_waits.len() == 0,
            !r@.open_submit,
            !r@.locked,
    {
        QueueGraph {
            queue,
            frame_number: 0,
            command_buffers: Vec::new(),
            queue_waits: Vec::new(),
            open_submit: false,
            locked: false,
        }
    }

    /// The queue that the graph runs on.
    pub fn queue(&self) -> (r: Queue)
        ensures
            r == self@.queue,
    {
        self.queue
    }

    /// Whether nodes were added since the last submission.
    pub fn has_open_submit(&self) -> (r: bool)
        ensures
            r == self@.open_submit,
    {
        self.open_submit
    }

    /// The number of submissions.
    pub fn submit_count(&self) -> (r: usize)
        ensures
            r == self@.command_buffers.0.len(),
    {
        self.command_buffers.len()
    }

    /// Whether `run` can be called.
    pub fn run_fits(&self) -> (r: bool)
        ensures
            r == run_fits(self@),
    {
        let count = self.command_buffers.len() as u64;
        if self.frame_number == u64::MAX {
            return false;
        }
        let frames = self.frame_number + 1;
        match frames.checked_mul(count) {
            Some(_) => true,
            None => false,
        }
    }

    /// Opens a submission for new nodes; refused once the graph has run.
    /// Answers the submit set that the nodes join: the latest one, numbered
    /// by the submissions closed so far.
    pub fn add_nodes(&mut self) -> (r: Result<u32, QueueError>)
        requires
            old(self)@.command_buffers.0.len() <= u32::MAX,
        ensures
            (final(self)@, r) == spec_add_nodes(old(self)@),
    {
        if self.locked {
            return Err(QueueError::Locked);
        }
        if !self.open_submit {
            self.open_submit = true;
        }
        Ok(self.command_buffers.len() as u32)
    }

    /// Closes the open submission: it gets a command buffer per frame parity
    /// and its wait on another queue. Refused when no nodes were added since
    /// the last submission. Answers the submit set that it closes.
    pub fn add_submit(&mut self, command_buffers: (C, C), wait: Option<(Queue, u32)>) -> (r: Result<u32, QueueError>)
        requires
            old(self)@.command_buffers.0.len() < u32::MAX,
        ensures
            (final(self)@, r) == spec_add_submit(old(self)@, command_buffers, wait),
    {
        if !self.open_submit {
            return Err(QueueError::NoUnsubmittedNodes);
        }
        let index = self.command_buffers.len() as u32;
        let ghost old_pairs = self.command_buffers@;
        self.command_buffers.push(command_buffers);
        assert(evens(self.command_buffers@) =~= evens(old_pairs).push(command_buffers.0));
        assert(odds(self.command_buffers@) =~= odds(old_pairs).push(command_buffers.1));
        self.queue_waits.push(wait);
        self.open_submit = false;
        Ok(index)
    }

    /// Drops all submissions' command buffers. Recorded waits, open nodes and
    /// the lock stay.
    pub fn clear(&mut self)
        ensures
            final(self)@ == spec_clear(old(self)@),
    {
        self.command_buffers = Vec::new();
        assert(evens(self.command_buffers@) =~= Seq::<C>::empty());
        assert(odds(self.command_buffers@) =~= Seq::<C>::empty());
    }

    /// The waits on other queues that every submission carries.
    fn present_waits(&self) -> (r: Vec<(Queue, u32)>)
        ensures
            r@ == present_waits(self@.queue_waits),
    {
        let mut r: Vec<(Queue, u32)> = Vec::new();
        let mut k: usize = 0;
        assert(self.queue_waits@.take(0).filter_map(|w: Option<(Queue, u32)>| w) =~= Seq::<(Queue, u32)>::empty());
        while k < self.queue_waits.len()
            invariant
                k <= self.queue_waits@.len(),
                r@ == self.queue_waits@.take(k as int).filter_map(|w: Option<(Queue, u32)>| w),
            decreases self.queue_waits.len() - k,
        {
            proof {
                self.queue_waits@.lemma_filter_map_take_succ(|w: Option<(Queue, u32)>| w, k as int);
            }
            match self.queue_waits[k] {
                Some(w) => r.push(w),
                None => {},
            }
            k = k + 1;
        }
        assert(self.queue_waits@.take(k as int) =~= self.queue_waits@);
        r
    }

    /// Plans a run of the graph: refused while nodes wait for a submission;
    /// otherwise the frame's submissions, as `run_plan_ok` states. The graph
    /// itself changes only when the run completes.
    pub fn plan_run(&self) -> (r: Result<RunPlan<C>, QueueError>)
        requires
            run_fits(self@),
        ensures
            self@.open_submit ==> (r matches Err(e) && e == QueueError::UnsubmittedNodes),
            !self@.open_submit ==> (r matches Ok(p) && run_plan_ok(self@, p)),
    {
        if self.open_submit {
            return Err(QueueError::UnsubmittedNodes);
        }
        let count = self.command_buffers.len();
        let frame = self.frame_number;
        let frame_index = (frame % 2) as usize;
        let ghost bufs = if frame % 2 == 0 { evens(self.command_buffers@) } else { odds(self.command_buffers@) };
        let mut command_buffers: Vec<C> = Vec::new();
        let mut submits: Vec<SubmitPlan<C>> = Vec::new();
        let mut host_wait: Option<u64> = None;
        if count > 0 {
            proof {
                lemma_timeline_bounds(frame, count as nat);
            }
            if frame >= 2 {
                host_wait = Some((frame - 1) * (count as u64));
            }
            let waits = self.present_waits();
            let mut i: usize = 0;
            while i < count
                invariant
                    count == self.command_buffers@.len(),
                    count > 0,
                    frame == self.frame_number,
                    (frame + 1) * count <= u64::MAX,
                    frame_index == frame % 2,
                    bufs == if frame % 2 == 0 { evens(self.command_buffers@) } else { odds(self.command_buffers@) },
                    i <= count,
                    waits@ == present_waits(self@.queue_waits),
                    command_buffers@ == bufs.take(i as int),
                    submits@.len() == i,
                    forall|j: int| #![trigger submits@[j]] 0 <= j < i ==> {
                        let s = submits@[j];
                        &&& s.command_buffer == bufs[j]
                        &&& s.queue_waits@ == present_waits(self@.queue_waits)
                        &&& s.timeline_wait == timeline_wait_value(frame, count as nat, j as nat)
                        &&& s.timeline_signal == timeline_signal_value(frame, count as nat, j as nat)
                        &&& s.waits_for_acquire == (j == 0 && self@.queue == Queue::Graphics)
                        &&& s.finishes_surfaces == (j == count - 1)
                    },
                decreases count - i,
            {
                proof {
                    lemma_timeline_index_bound(frame, count as nat, i as nat);
                }
                let command_buffer = if frame_index == 0 {
                    self.command_buffers[i].0
                } else {
                    self.command_buffers[i].1
                };
                let timeline_wait = frame * (count as u64) + (i as u64);
                let mut queue_waits: Vec<(Queue, u32)> = Vec::new();
                let mut k: usize = 0;
                while k < waits.len()
                    invariant
                        k <= waits@.len(),
                        queue_waits@ == waits@.take(k as int),
                    decreases waits.len() - k,
                {
                    queue_waits.push(waits[k]);
                    assert(waits@.take(k + 1) =~= waits@.take(k as int).push(waits@[k as int]));
                    k = k + 1;
                }
                assert(waits@.take(k as int) =~= waits@);
                let ghost old_submits = submits@;
                submits.push(
                    SubmitPlan {
                        command_buffer,
                        queue_waits,
                        timeline_wait,
                        timeline_signal: timeline_wait + 1,
                        waits_for_acquire: i == 0 && self.queue == Queue::Graphics,
                        finishes_surfaces: i == count - 1,
                    },
                );
                assert forall|j: int| 0 <= j < i implies #[trigger] submits@[j] == old_submits[j] by {}
                command_buffers.push(command_buffer);
                assert(bufs.take(i + 1) =~= bufs.take(i as int).push(bufs[i as int]));
                i = i + 1;
            }
            assert(bufs.take(count as int) =~= bufs);
        } else {
            assert(command_buffers@ =~= bufs);
        }
        let acquires_surfaces = count > 0 && self.queue == Queue::Graphics;
        Ok(RunPlan { frame_index, host_wait, acquires_surfaces, command_buffers, submits })
    }

    /// Completes a run: the graph is locked against new nodes and the frame
    /// is counted.
    pub fn complete_run(&mut self)
        requires
            old(self)@.frame_number < u64::MAX,
        ensures
            final(self)@ == spec_complete_run(old(self)@),
    {
        self.locked = true;
        self.frame_number = self.frame_number + 1;
    }
}

/// The graph after a completed run.
pub open spec fn spec_complete_run<C>(m: QueueGraphModel<C>) -> QueueGraphModel<C> {
    QueueGraphModel { locked: true, frame_number: (m.frame_number + 1) as u64, ..m }
}

proof fn lemma_timeline_bounds(frame: u64, count: nat)
    requires
        count > 0,
        frame < u64::MAX,
        (frame + 1) * count <= u64::MAX,
    ensures
        frame >= 2 ==> 0 <= (frame - 1) * count <= u64::MAX,
        frame * count + count <= u64::MAX,
        frame * count >= 0,
{
    assert((frame + 1) * count == frame * count + count) by (nonlinear_arith);
    assert(frame * count >= 0) by (nonlinear_arith)
        requires
            count > 0,
    ;
    if frame >= 2 {
        assert((frame - 1) * count <= frame * count) by (nonlinear_arith)
            requires
                frame >= 2,
                count > 0,
        ;
        assert((frame - 1) * count >= 0) by (nonlinear_arith)
            requires
                frame >= 2,
                count > 0,
        ;
    }
}

proof fn lemma_timeline_index_bound(frame: u64, count: nat, i: nat)
    requires
        i < count,
        (frame + 1) * count <= u64::MAX,
    ensures
        frame * count + i + 1 <= u64::MAX,
        frame * count >= 0,
{
    assert((frame + 1) * count == frame * count + count) by (nonlinear_arith);
    assert(frame * count >= 0) by (nonlinear_arith);
}

/// Each submission of a frame waits for the value that the one before it
/// signals.
pub proof fn law_timeline_chain_within_frame(frame: u64, submit_count: nat, i: nat)
    requires
        i + 1 < submit_count,
    ensures
        timeline_wait_value(frame, submit_count, i + 1) == timeline_signal_value(frame, submit_count, i),
{
}

/// The first submission of a frame waits for the value that the last
/// submission of the frame before signals.
pub proof fn law_timeline_chain_across_frames(frame: u64, submit_count: nat)
    requires
        submit_count > 0,
        frame < u64::MAX,
    ensures
        timeline_wait_value((frame + 1) as u64, submit_count, 0) == timeline_signal_value(
            frame,
            submit_count,
            (submit_count - 1) as nat,
        ),
{
    assert((frame + 1) * submit_count == frame * submit_count + submit_count) by (nonlinear_arith);
}

/// Before recording a frame, the host waits for the last submission of the
/// frame two before it: at most two frames are in flight.
pub proof fn law_host_waits_two_frames_back(frame: u64, submit_count: nat)
    requires
        submit_count > 0,
        frame >= 2,
    ensures
        host_wait_value(frame, submit_count) == timeline_signal_value(
            (frame - 2) as u64,
            submit_count,
            (submit_count - 1) as nat,
        ),
{
    assert((frame - 1) * submit_count == (frame - 2) * submit_count + submit_count) by (nonlinear_arith);
}

/// Timeline values only grow: a submission that comes later, in a later
/// frame or later in the same frame, waits for and signals larger values.
pub proof fn law_timeline_increasing(frame_a: u64, i: nat, frame_b: u64, j: nat, submit_count: nat)
    requires
        i < submit_count,
        j < submit_count,
        frame_a < frame_b || (frame_a == frame_b && i < j),
    ensures
        timeline_wait_value(frame_a, submit_count, i) < timeline_wait_value(frame_b, submit_count, j),
        timeline_signal_value(frame_a, submit_count, i) < timeline_signal_value(frame_b, submit_count, j),
{
    if frame_a < frame_b {
        assert(frame_a * submit_count + submit_count <= frame_b * submit_count) by (nonlinear_arith)
            requires
                frame_a < frame_b,
        ;
    }
}

/// The command buffers of a graph always pair up, one per frame parity for
/// each submission.
pub proof fn law_command_buffers_pair_up<C>(g: QueueGraph<C>)
    ensures
        graph_wf(g@),
{
}

/// What a planned run waits for and signals, for a graph with `n`
/// submissions at frame `f`: submission `i` waits for `f * n + i` on the
/// queue's timeline and signals `f * n + i + 1`. From the third frame on,
/// the host first waits for `(f - 1) * n`, the value that the last
/// submission of frame `f - 2` signals, so at most two frames are in flight
/// when frame `f` re-records the command buffers of frame `f - 2`.
/// Before that, and for a graph with no submission, the host does not wait.
pub proof fn law_plan_waits<C>(m: QueueGraphModel<C>, p: RunPlan<C>)
    requires
        graph_wf(m),
        run_fits(m),
        run_plan_ok(m, p),
    ensures
        ({
            let f = m.frame_number as int;
            let n = m.command_buffers.0.len() as int;
            &&& f >= 2 && n > 0 ==> (p.host_wait matches Some(v) && v == (f - 1) * n && v == (f - 2) * n + (n - 1)
                + 1)
            &&& f < 2 || n == 0 ==> p.host_wait is None
            &&& p.submits@.len() == n
            &&& forall|i: int|
                0 <= i < n ==> (#[trigger] p.submits@[i]).timeline_wait == f * n + i
                    && p.submits@[i].timeline_signal == f * n + i + 1
        }),
{
    let f = m.frame_number as int;
    let n = m.command_buffers.0.len() as int;
    if f >= 2 && n > 0 {
        assert((f - 1) * n <= (f + 1) * n) by (nonlinear_arith)
            requires
                n > 0,
        ;
        assert((f - 1) * n >= 0) by (nonlinear_arith)
            requires
                n > 0,
                f >= 2,
        ;
        assert((f - 1) * n == (f - 2) * n + (n - 1) + 1) by (nonlinear_arith);
    }
}

/// A graph that has run refuses new nodes, and refusing changes nothing.
pub proof fn law_run_locks<C>(m: QueueGraphModel<C>)
    requires
        m.frame_number < u64::MAX,
    ensures
        spec_add_nodes(spec_complete_run(m)).1 == Err::<u32, QueueError>(QueueError::Locked),
        spec_add_nodes(spec_complete_run(m)).0 == spec_complete_run(m),
{
}

/// Nodes followed by a submission always add exactly one submission with
/// the given command buffers and wait, and leave no nodes open. The nodes
/// join submit set `k`, `k` the number of submissions before, and the
/// submission closes that same set: it is submission `k`, and the next nodes
/// join set `k + 1`.
pub proof fn law_nodes_then_submit<C>(m: QueueGraphModel<C>, command_buffers: (C, C), wait: Option<(Queue, u32)>)
    requires
        graph_wf(m),
        !m.locked,
        m.command_buffers.0.len() < u32::MAX,
    ensures
        ({
            let k = m.command_buffers.0.len();
            let m1 = spec_add_nodes(m).0;
            let (m2, r) = spec_add_submit(m1, command_buffers, wait);
            &&& spec_add_nodes(m).1 == Ok::<u32, QueueError>(k as u32)
            &&& r == Ok::<u32, QueueError>(k as u32)
            &&& m2.command_buffers.0[k as int] == command_buffers.0
            &&& m2.command_buffers.1[k as int] == command_buffers.1
            &&& spec_add_nodes(m2).1 == Ok::<u32, QueueError>((k + 1) as u32)
            &&& m2.command_buffers.0 == m.command_buffers.0.push(command_buffers.0)
            &&& m2.command_buffers.1 == m.command_buffers.1.push(command_buffers.1)
            &&& m2.queue_waits == m.queue_waits.push(wait)
            &&& !m2.open_submit
        }),
{
}

} // verus!
verus! {

/// The frame graphs of a device: one per queue.
pub struct FrameGraph<C> {
    graphics: QueueGraph<C>,
    compute: QueueGraph<C>,
}

/// The graph of `queue` in a pair of graphics and compute graphs.
pub open spec fn graph_of<C>(g: (QueueGraphModel<C>, QueueGraphModel<C>), queue: Queue) -> QueueGraphModel<C> {
    match queue {
        Queue::Graphics => g.0,
        Queue::Compute => g.1,
    }
}

/// The pair with the graph of `queue` replaced.
pub open spec fn with_graph<C>(
    g: (QueueGraphModel<C>, QueueGraphModel<C>),
    queue: Queue,
    m: QueueGraphModel<C>,
) -> (QueueGraphModel<C>, QueueGraphModel<C>) {
    match queue {
        Queue::Graphics => (m, g.1),
        Queue::Compute => (g.0, m),
    }
}

impl<C> View for FrameGraph<C> {
    type V = (QueueGraphModel<C>, QueueGraphModel<C>);

    closed spec fn view(&self) -> (QueueGraphModel<C>, QueueGraphModel<C>) {
        (self.graphics@, self.compute@)
    }
}

impl<C: Copy> FrameGraph<C> {
    /// Empty graphs for both queues.
    pub fn new() -> (r: Self)
        ensures
            r@.0.queue == Queue::Graphics,
            r@.1.queue == Queue::Compute,
            graph_wf(r@.0) && graph_wf(r@.1),
            r@.0.frame_number == 0 && r@.1.frame_number == 0,
            r@.0.command_buffers.0.len() == 0 && r@.1.command_buffers.0.len() == 0,
            r@.0.queue_waits.len() == 0 && r@.1.queue_waits.len() == 0,
            !r@.0.open_submit && !r@.1.open_submit,
            !r@.0.locked && !r@.1.locked,
    {
        FrameGraph { graphics: QueueGraph::new(Queue::Graphics), compute: QueueGraph::new(Queue::Compute) }
    }

    /// Adds nodes to the graph of `queue`, as `spec_add_nodes` states.
    pub fn add_nodes(&mut self, queue: Queue) -> (r: Result<u32, QueueError>)
        requires
            graph_of(old(self)@, queue).command_buffers.0.len() <= u32::MAX,
        ensures
            final(self)@ == with_graph(old(self)@, queue, spec_add_nodes(graph_of(old(self)@, queue)).0),
            r == spec_add_nodes(graph_of(old(self)@, queue)).1,
    {
        match queue {
            Queue::Compute => self.compute.add_nodes(),
            Queue::Graphics => self.graphics.add_nodes(),
        }
    }

    /// Closes the open submission of `queue`, as `spec_add_submit` states;
    /// `wait` names a value of the other queue's timeline.
    pub fn add_submit(&mut self, queue: Queue, command_buffers: (C, C), wait: Option<(Queue, u32)>) -> (r: Result<u32, QueueError>)
        requires
            graph_of(old(self)@, queue).command_buffers.0.len() < u32::MAX,
        ensures
            final(self)@ == with_graph(
                old(self)@,
                queue,
                spec_add_submit(graph_of(old(self)@, queue), command_buffers, wait).0,
            ),
            r == spec_add_submit(graph_of(old(self)@, queue), command_buffers, wait).1,
    {
        match queue {
            Queue::Compute => self.compute.add_submit(command_buffers, wait),
            Queue::Graphics => self.graphics.add_submit(command_buffers, wait),
        }
    }

    /// Clears the command buffers of `queue`.
    pub fn clear_queue(&mut self, queue: Queue)
        ensures
            final(self)@ == with_graph(old(self)@, queue, spec_clear(graph_of(old(self)@, queue))),
    {
        match queue {
            Queue::Compute => self.compute.clear(),
            Queue::Graphics => self.graphics.clear(),
        }
    }

    /// Whether nodes of `queue` wait for a submission.
    pub fn has_open_submit(&self, queue: Queue) -> (r: bool)
        ensures
            r == graph_of(self@, queue).open_submit,
    {
        match queue {
            Queue::Compute => self.compute.has_open_submit(),
            Queue::Graphics => self.graphics.has_open_submit(),
        }
    }

    /// The number of submissions of `queue`.
    pub fn submit_count(&self, queue: Queue) -> (r: usize)
        ensures
            r == graph_of(self@, queue).command_buffers.0.len(),
    {
        match queue {
            Queue::Compute => self.compute.submit_count(),
            Queue::Graphics => self.graphics.submit_count(),
        }
    }

    /// Whether the graph of `queue` can run.
    pub fn run_fits(&self, queue: Queue) -> (r: bool)
        ensures
            r == run_fits(graph_of(self@, queue)),
    {
        match queue {
            Queue::Compute => self.compute.run_fits(),
            Queue::Graphics => self.graphics.run_fits(),
        }
    }

    /// Plans a run of the graph of `queue`.
    pub fn plan_run(&self, queue: Queue) -> (r: Result<RunPlan<C>, QueueError>)
        requires
            run_fits(graph_of(self@, queue)),
        ensures
            graph_of(self@, queue).open_submit ==> (r matches Err(e) && e == QueueError::UnsubmittedNodes),
            !graph_of(self@, queue).open_submit ==> (r matches Ok(p) && run_plan_ok(graph_of(self@, queue), p)),
    {
        match queue {
            Queue::Compute => self.compute.plan_run(),
            Queue::Graphics => self.graphics.plan_run(),
        }
    }

    /// Completes a run of the graph of `queue`.
    pub fn complete_run(&mut self, queue: Queue)
        requires
            graph_of(old(self)@, queue).frame_number < u64::MAX,
        ensures
            final(self)@ == with_graph(old(self)@, queue, spec_complete_run(graph_of(old(self)@, queue))),
    {
        match queue {
            Queue::Compute => self.compute.complete_run(),
            Queue::Graphics => self.graphics.complete_run(),
        }
    }
}

/// The graphs of a device run compute first, then graphics.
pub fn execution_order() -> (r: [Queue; 2])
    ensures
        r@ == seq![Queue::Compute, Queue::Graphics],
{
    [Queue::Compute, Queue::Graphics]
}

/// Frame graph operations on one queue leave the other queue's graph as it
/// was.
pub proof fn law_queues_independent<C>(
    g: (QueueGraphModel<C>, QueueGraphModel<C>),
    queue: Queue,
    other: Queue,
    m: QueueGraphModel<C>,
)
    requires
        queue != other,
    ensures
        graph_of(with_graph(g, queue, m), other) == graph_of(g, other),
        graph_of(with_graph(g, queue, m), queue) == m,
{
}

} // verus!
