//! The session controller: construction, the per-step protocol, the frame
//! boundary check that gates the rebuild pipeline, and the checked vertex
//! override.
//!
//! The controller is a state machine over plain values. The host driver
//! performs every external effect — solver boundary calls, file probes,
//! channel traffic, scalar arithmetic — and feeds the observations back in;
//! the controller decides, and its decisions and bookkeeping are verified
//! here. Scalar payloads (vertex coordinates, the simulation time) are
//! carried as the solver's raw 32-bit scalar encoding, never interpreted and
//! never altered, so a value written through the controller reads back
//! bit-identical.
//!
//! The stable buffers of the dataset are written only element-wise, in
//! place: no operation after construction replaces or resizes them, which is
//! this model's rendering of the rule that the solver keeps raw references
//! into their memory for the session's lifetime.

use vstd::prelude::*;
use vstd::string::StringExecFns;

use crate::config::SessionConfig;
use crate::errors::ConfigField;
use crate::errors::SessionError;
use crate::slot::outstanding_jobs;
use crate::slot::slot_transition;
use crate::slot::PollOutcome;
use crate::slot::RebuildAction;
use crate::slot::RebuildSlot;

verus! {

/// The address-stable buffer set shared with the solver: current and
/// previous vertex positions, three scalars per vertex, interleaved.
pub struct Dataset {
    pub curr: Vec<u32>,
    pub prev: Vec<u32>,
}

/// What the geometry provider (or, on resume, the persisted checkpoint)
/// supplied for the start of the session.
pub struct InitialState {
    /// Mesh vertices reported per step (surface and volumetric).
    pub vertex_count: usize,
    /// Leading vertices that belong to the surface; geometry snapshots for
    /// the rebuild worker cover exactly these.
    pub surface_vertex_count: usize,
    /// Initial current positions, `3 * vertex_count` scalars.
    pub curr: Vec<u32>,
    /// Initial previous positions, `3 * vertex_count` scalars.
    pub prev: Vec<u32>,
    /// Initial simulation time.
    pub time: u32,
    /// Initial frame number.
    pub frame: i32,
}

/// What the driver must do right after the solver accepted `initialize`.
#[derive(Clone, Copy, PartialEq, Eq, Structural, Debug)]
pub struct InitDirectives {
    /// Resume only: push the checkpoint's dynamic index and offset.
    pub push_dynamic_index: bool,
    /// Resume only: force one synchronous spatial-index push so the solver's
    /// acceleration structures match the resumed geometry.
    pub force_spatial_push: bool,
    /// Start the rebuild worker (whenever contact processing is enabled).
    pub start_worker: bool,
}

/// What a step needs from the rebuild pipeline before `advance`.
#[derive(Clone, Copy, PartialEq, Eq, Structural, Debug)]
pub enum RebuildQuery {
    /// No frame boundary (or contact processing is off): nothing to do.
    Skip,
    /// A frame boundary was crossed: refresh the mirrored state from the
    /// solver, poll the result channel iff `poll`, then apply the boundary.
    Boundary { poll: bool },
}

/// The location of the persisted dataset snapshot under the output
/// directory.
pub open spec fn dataset_archive_suffix() -> Seq<char> {
    "/dataset.bin.gz"@
}

/// Builds the expected path of the persisted dataset snapshot.
pub fn dataset_archive_path(output: &String) -> (p: String)
    ensures
        p@ == output@ + dataset_archive_suffix(),
{
    let mut p = output.clone();
    p.append("/dataset.bin.gz");
    p
}

/// Copies `values` into `dst` element by element, in place.
fn copy_into(dst: &mut Vec<u32>, values: &Vec<u32>)
    requires
        old(dst)@.len() == values@.len(),
    ensures
        final(dst)@ == values@,
{
    let n = values.len();
    let mut i: usize = 0;
    while i < n
        invariant
            i <= n,
            n == values@.len(),
            dst@.len() == n,
            forall|j: int| 0 <= j < i ==> dst@[j] == values@[j],
        decreases n - i,
    {
        let v = values[i];
        dst.set(i, v);
        i += 1;
    }
    proof {
        assert(dst@ =~= values@);
    }
}

/// Returns a fresh buffer with the same contents.
fn duplicate_buffer(values: &Vec<u32>) -> (r: Vec<u32>)
    ensures
        r@ == values@,
{
    let n = values.len();
    let mut r: Vec<u32> = Vec::new();
    let mut i: usize = 0;
    while i < n
        invariant
            i <= n,
            n == values@.len(),
            r@.len() == i,
            forall|j: int| 0 <= j < i ==> r@[j] == values@[j],
        decreases n - i,
    {
        r.push(values[i]);
        i += 1;
    }
    proof {
        assert(r@ =~= values@);
    }
    r
}

/// The session controller. Owns the stable buffers and the mirrored vertex
/// state, runs the per-step protocol, and gates the single-slot rebuild
/// pipeline.
pub struct SessionController {
    pub config: SessionConfig,
    pub vertex_count: usize,
    pub surface_vertex_count: usize,
    /// The stable buffer set registered with the solver at `initialize`.
    pub dataset: Dataset,
    /// Controller-side mirror of the current vertex positions.
    pub mirror_curr: Vec<u32>,
    /// Controller-side mirror of the previous vertex positions.
    pub mirror_prev: Vec<u32>,
    /// Current simulation time, as reported by the solver.
    pub time: u32,
    /// Last recorded frame number.
    pub frame: i32,
    /// The rebuild pipeline's one job slot.
    pub slot: RebuildSlot,
    /// Whether the solver accepted `initialize`.
    pub initialized: bool,
    /// How many snapshots were ever submitted to the worker.
    pub jobs_submitted: Ghost<nat>,
    /// How many completed index sets were pushed to the solver.
    pub jobs_applied: Ghost<nat>,
    /// How many submitted jobs were abandoned (worker unreachable, close).
    pub jobs_abandoned: Ghost<nat>,
    /// The frame number recorded at construction.
    pub construction_frame: Ghost<i32>,
}

impl SessionController {
    /// Jobs outstanding in the rebuild slot; by construction never above one.
    pub open spec fn outstanding(self) -> nat {
        outstanding_jobs(self.slot)
    }

    /// Well-formedness: buffer sizes match the vertex count for the whole
    /// session, every submitted job is accounted for (applied, abandoned or
    /// the one outstanding), and a session with contact processing disabled
    /// never submitted a job nor moved its frame number.
    pub open spec fn wf(self) -> bool {
        &&& self.surface_vertex_count <= self.vertex_count
        &&& self.dataset.curr@.len() == 3 * self.vertex_count
        &&& self.dataset.prev@.len() == 3 * self.vertex_count
        &&& self.mirror_curr@.len() == 3 * self.vertex_count
        &&& self.mirror_prev@.len() == 3 * self.vertex_count
        &&& self.jobs_submitted@ == self.jobs_applied@ + self.jobs_abandoned@ + self.outstanding()
        &&& (self.config.disable_contact ==> {
            &&& self.slot == RebuildSlot::Idle
            &&& self.jobs_submitted@ == 0
            &&& self.frame == self.construction_frame@
        })
    }

    /// The parts of the state that no step-protocol operation may touch.
    pub open spec fn same_session(self, other: Self) -> bool {
        &&& self.config.scene_path@ == other.config.scene_path@
        &&& self.config.output_path@ == other.config.output_path@
        &&& self.config.resume_frame == other.config.resume_frame
        &&& self.config.disable_contact == other.config.disable_contact
        &&& self.config.verbose == other.config.verbose
        &&& self.vertex_count == other.vertex_count
        &&& self.surface_vertex_count == other.surface_vertex_count
        &&& self.construction_frame@ == other.construction_frame@
    }

    /// Builds a session from validated plain inputs, on either path (cold
    /// start or resume). `dataset_file_present` is the host's probe for the
    /// persisted dataset snapshot; it is only consulted when resuming.
    pub fn construct(
        config: SessionConfig,
        init: InitialState,
        dataset_file_present: bool,
    ) -> (r: Result<SessionController, SessionError>)
        requires
            init.surface_vertex_count <= init.vertex_count,
            init.curr@.len() == 3 * init.vertex_count,
            init.prev@.len() == 3 * init.vertex_count,
        ensures
            config.scene_path@.len() == 0 ==> (r matches Err(SessionError::Configuration { field })
                && field == ConfigField::ScenePath),
            config.scene_path@.len() > 0 && config.output_path@.len() == 0 ==> (r matches Err(
                SessionError::Configuration { field },
            ) && field == ConfigField::OutputPath),
            config.scene_path@.len() > 0 && config.output_path@.len() > 0 && config.resuming()
                && !dataset_file_present ==> (r matches Err(SessionError::Io { path }) && path@
                == config.output_path@ + dataset_archive_suffix()),
            config.scene_path@.len() > 0 && config.output_path@.len() > 0 && (config.resuming()
                ==> dataset_file_present) ==> (r matches Ok(c) && c.wf() && !c.initialized
                && c.config.scene_path@ == config.scene_path@ && c.config.output_path@
                == config.output_path@ && c.config.resume_frame == config.resume_frame
                && c.config.disable_contact == config.disable_contact && c.config.verbose
                == config.verbose && c.vertex_count == init.vertex_count && c.surface_vertex_count
                == init.surface_vertex_count && c.dataset.curr@ == init.curr@ && c.dataset.prev@
                == init.prev@ && c.mirror_curr@ == init.curr@ && c.mirror_prev@ == init.prev@
                && c.time == init.time && c.frame == init.frame && c.construction_frame@
                == init.frame && c.slot == RebuildSlot::Idle && c.jobs_submitted@ == 0
                && c.jobs_applied@ == 0 && c.jobs_abandoned@ == 0),
    {
        if config.scene_path.as_str().is_empty() {
            return Err(SessionError::Configuration { field: ConfigField::ScenePath });
        }
        if config.output_path.as_str().is_empty() {
            return Err(SessionError::Configuration { field: ConfigField::OutputPath });
        }
        if config.resume_frame > 0 && !dataset_file_present {
            let path = dataset_archive_path(&config.output_path);
            return Err(SessionError::Io { path });
        }
        let mirror_curr = duplicate_buffer(&init.curr);
        let mirror_prev = duplicate_buffer(&init.prev);
        let frame = init.frame;
        Ok(SessionController {
            config,
            vertex_count: init.vertex_count,
            surface_vertex_count: init.surface_vertex_count,
            dataset: Dataset { curr: init.curr, prev: init.prev },
            mirror_curr,
            mirror_prev,
            time: init.time,
            frame,
            slot: RebuildSlot::Idle,
            initialized: false,
            jobs_submitted: Ghost(0),
            jobs_applied: Ghost(0),
            jobs_abandoned: Ghost(0),
            construction_frame: Ghost(frame),
        })
    }

    /// Records the solver's verdict on `initialize` — called exactly once,
    /// before any other operation — and, on acceptance, tells the driver
    /// what to do next: on resume with contact processing enabled, push the
    /// checkpoint's dynamic index and force one spatial-index push; start
    /// the rebuild worker unless contact processing is disabled.
    pub fn complete_initialization(&mut self, accepted: bool) -> (r: Result<
        InitDirectives,
        SessionError,
    >)
        requires
            old(self).wf(),
            !old(self).initialized,
        ensures
            final(self).wf(),
            !accepted ==> (r matches Err(SessionError::InitializationFailure) && *final(self)
                == *old(self)),
            accepted ==> (r matches Ok(d) && {
                &&& d.push_dynamic_index == (old(self).config.resuming() && !old(
                    self,
                ).config.disable_contact)
                &&& d.force_spatial_push == (old(self).config.resuming() && !old(
                    self,
                ).config.disable_contact)
                &&& d.start_worker == !old(self).config.disable_contact
                &&& final(self).initialized
                &&& *final(self) == (SessionController { initialized: true, ..*old(self) })
            }),
    {
        if !accepted {
            return Err(SessionError::InitializationFailure);
        }
        let resuming_contact = self.config.resume_frame > 0 && !self.config.disable_contact;
        self.initialized = true;
        Ok(InitDirectives {
            push_dynamic_index: resuming_contact,
            force_spatial_push: resuming_contact,
            start_worker: !self.config.disable_contact,
        })
    }

    /// Whether a step at this observed frame number crosses a frame
    /// boundary that the rebuild pipeline must look at. The observed frame
    /// is the host's evaluation of floor(time × frame-rate) for the current
    /// simulation time.
    pub open spec fn at_boundary(self, observed_frame: i32) -> bool {
        !self.config.disable_contact && observed_frame != self.frame
    }

    /// Decides what the rebuild pipeline needs at this step. At a boundary
    /// the driver refreshes the mirrored state from the solver, polls the
    /// result channel exactly when `poll` says so, and then applies the
    /// boundary; the poll is non-blocking and happens nowhere else.
    pub fn rebuild_query(&self, observed_frame: i32) -> (q: RebuildQuery)
        ensures
            !self.at_boundary(observed_frame) ==> q == RebuildQuery::Skip,
            self.at_boundary(observed_frame) ==> q == (RebuildQuery::Boundary {
                poll: self.slot == RebuildSlot::Submitted,
            }),
    {
        if self.config.disable_contact {
            return RebuildQuery::Skip;
        }
        if observed_frame == self.frame {
            return RebuildQuery::Skip;
        }
        RebuildQuery::Boundary { poll: self.slot == RebuildSlot::Submitted }
    }

    /// Applies a frame boundary: records the observed frame number and
    /// steps the rebuild slot by what the poll observed, returning the work
    /// the driver must perform. This never fails a step: a worker that
    /// became unreachable parks the slot for good and everything else
    /// proceeds; an empty poll leaves the previously applied (possibly
    /// stale) spatial index in use, by design.
    pub fn apply_rebuild(&mut self, observed_frame: i32, poll: PollOutcome) -> (a: RebuildAction)
        requires
            old(self).wf(),
            old(self).initialized,
        ensures
            final(self).wf(),
            final(self).same_session(*old(self)),
            final(self).initialized,
            final(self).time == old(self).time,
            final(self).dataset.curr@ == old(self).dataset.curr@,
            final(self).dataset.prev@ == old(self).dataset.prev@,
            final(self).mirror_curr@ == old(self).mirror_curr@,
            final(self).mirror_prev@ == old(self).mirror_prev@,
            !old(self).at_boundary(observed_frame) ==> (a == RebuildAction::DoNothing && *final(self) == *old(self)),
            old(self).at_boundary(observed_frame) ==> {
                &&& final(self).frame == observed_frame
                &&& final(self).slot == slot_transition(old(self).slot, poll).0
                &&& a == slot_transition(old(self).slot, poll).1
                &&& final(self).jobs_submitted@ == old(self).jobs_submitted@ + (
                if a == RebuildAction::SubmitSnapshot || a == RebuildAction::ApplyAndResubmit {
                    1int
                } else {
                    0int
                })
                &&& final(self).jobs_applied@ == old(self).jobs_applied@ + (
                if a == RebuildAction::ApplyAndResubmit {
                    1int
                } else {
                    0int
                })
                &&& final(self).jobs_abandoned@ == old(self).jobs_abandoned@ + (
                if old(self).slot == RebuildSlot::Submitted && poll == PollOutcome::Disconnected {
                    1int
                } else {
                    0int
                })
            },
    {
        if self.config.disable_contact {
            return RebuildAction::DoNothing;
        }
        if observed_frame == self.frame {
            return RebuildAction::DoNothing;
        }
        self.frame = observed_frame;
        match self.slot {
            RebuildSlot::Idle => {
                self.slot = RebuildSlot::Submitted;
                self.jobs_submitted = Ghost(self.jobs_submitted@ + 1);
                RebuildAction::SubmitSnapshot
            },
            RebuildSlot::Submitted => match poll {
                PollOutcome::Ready => {
                    self.jobs_applied = Ghost(self.jobs_applied@ + 1);
                    self.jobs_submitted = Ghost(self.jobs_submitted@ + 1);
                    RebuildAction::ApplyAndResubmit
                },
                PollOutcome::Disconnected => {
                    self.slot = RebuildSlot::Dead;
                    self.jobs_abandoned = Ghost(self.jobs_abandoned@ + 1);
                    RebuildAction::DoNothing
                },
                _ => RebuildAction::DoNothing,
            },
            RebuildSlot::Dead => RebuildAction::DoNothing,
        }
    }

    /// Adopts vertex state freshly pulled from the solver into the stable
    /// buffer model and the controller-side mirrors, element-wise and in
    /// place. A frame boundary refreshes state this way before a snapshot
    /// is captured.
    pub fn refresh_mirrors(&mut self, fetched_curr: &Vec<u32>, fetched_prev: &Vec<u32>)
        requires
            old(self).wf(),
            old(self).initialized,
            fetched_curr@.len() == 3 * old(self).vertex_count,
            fetched_prev@.len() == 3 * old(self).vertex_count,
        ensures
            final(self).wf(),
            final(self).same_session(*old(self)),
            final(self).initialized,
            final(self).dataset.curr@ == fetched_curr@,
            final(self).dataset.prev@ == fetched_prev@,
            final(self).mirror_curr@ == fetched_curr@,
            final(self).mirror_prev@ == fetched_prev@,
            final(self).time == old(self).time,
            final(self).frame == old(self).frame,
            final(self).slot == old(self).slot,
            final(self).jobs_submitted@ == old(self).jobs_submitted@,
            final(self).jobs_applied@ == old(self).jobs_applied@,
            final(self).jobs_abandoned@ == old(self).jobs_abandoned@,
    {
        copy_into(&mut self.dataset.curr, fetched_curr);
        copy_into(&mut self.dataset.prev, fetched_prev);
        copy_into(&mut self.mirror_curr, fetched_curr);
        copy_into(&mut self.mirror_prev, fetched_prev);
    }

    /// The geometry snapshot a submission carries: the current positions of
    /// the surface vertices, cut from the just-refreshed mirror. The worker
    /// receives it by value; no buffer is shared across threads.
    pub fn capture_snapshot(&self) -> (s: Vec<u32>)
        requires
            self.wf(),
        ensures
            s@ == self.mirror_curr@.subrange(0, 3 * self.surface_vertex_count as int),
    {
        let total = self.mirror_curr.len();
        let n = 3 * self.surface_vertex_count;
        let mut s: Vec<u32> = Vec::new();
        let mut i: usize = 0;
        while i < n
            invariant
                i <= n,
                n == 3 * self.surface_vertex_count,
                n <= total,
                total == self.mirror_curr@.len(),
                s@.len() == i,
                forall|j: int| 0 <= j < i ==> s@[j] == self.mirror_curr@[j],
            decreases n - i,
        {
            s.push(self.mirror_curr[i]);
            i += 1;
        }
        proof {
            assert(s@ =~= self.mirror_curr@.subrange(0, 3 * self.surface_vertex_count as int));
        }
        s
    }

    /// Finishes a step once the solver's `advance` returned: a rejected
    /// advance fails the step and leaves the whole state — the simulation
    /// time above all — unmodified; an accepted one adopts the reported
    /// time, pulls the updated vertex state into the mirrors and returns
    /// the current positions, three scalars per vertex, bit-identical to
    /// what the solver wrote.
    pub fn complete_step(
        &mut self,
        reported_time: u32,
        accepted: bool,
        fetched_curr: &Vec<u32>,
        fetched_prev: &Vec<u32>,
    ) -> (r: Result<Vec<u32>, SessionError>)
        requires
            old(self).wf(),
            old(self).initialized,
            fetched_curr@.len() == 3 * old(self).vertex_count,
            fetched_prev@.len() == 3 * old(self).vertex_count,
        ensures
            final(self).wf(),
            final(self).same_session(*old(self)),
            !accepted ==> (r matches Err(SessionError::StepFailure) && *final(self) == *old(self)),
            accepted ==> (r matches Ok(out) && {
                &&& out@ == fetched_curr@
                &&& final(self).time == reported_time
                &&& final(self).mirror_curr@ == fetched_curr@
                &&& final(self).mirror_prev@ == fetched_prev@
                &&& final(self).dataset.curr@ == fetched_curr@
                &&& final(self).dataset.prev@ == fetched_prev@
                &&& final(self).frame == old(self).frame
                &&& final(self).slot == old(self).slot
                &&& final(self).initialized
                &&& final(self).jobs_submitted@ == old(self).jobs_submitted@
                &&& final(self).jobs_applied@ == old(self).jobs_applied@
                &&& final(self).jobs_abandoned@ == old(self).jobs_abandoned@
            }),
    {
        if !accepted {
            return Err(SessionError::StepFailure);
        }
        self.time = reported_time;
        self.refresh_mirrors(fetched_curr, fetched_prev);
        Ok(duplicate_buffer(&self.mirror_curr))
    }

    /// Overwrites the current and previous vertex state in place from a
    /// flat buffer — both to the same value, establishing zero velocity for
    /// the overwritten state. The write goes through the stable buffers
    /// element by element, never through a fresh allocation. A buffer of
    /// the wrong size is rejected, naming the expected and the actual
    /// count, with nothing changed.
    pub fn override_vertices(&mut self, values: &Vec<u32>) -> (r: Result<(), SessionError>)
        requires
            old(self).wf(),
            old(self).initialized,
        ensures
            final(self).wf(),
            final(self).same_session(*old(self)),
            values@.len() != 3 * old(self).vertex_count ==> (r matches Err(
                SessionError::SizeMismatch { expected, actual },
            ) && expected == 3 * old(self).vertex_count && actual == values@.len() && *final(self)
                == *old(self)),
            values@.len() == 3 * old(self).vertex_count ==> {
                &&& r is Ok
                &&& final(self).dataset.curr@ == values@
                &&& final(self).dataset.prev@ == values@
                &&& final(self).mirror_curr@ == values@
                &&& final(self).mirror_prev@ == values@
                &&& final(self).time == old(self).time
                &&& final(self).frame == old(self).frame
                &&& final(self).slot == old(self).slot
                &&& final(self).initialized
                &&& final(self).jobs_submitted@ == old(self).jobs_submitted@
                &&& final(self).jobs_applied@ == old(self).jobs_applied@
                &&& final(self).jobs_abandoned@ == old(self).jobs_abandoned@
            },
    {
        let registered = self.dataset.curr.len();
        let expected = 3 * self.vertex_count;
        if values.len() != expected {
            return Err(SessionError::SizeMismatch { expected, actual: values.len() });
        }
        // The stable buffers must still be at the size registered with the
        // solver. Well-formedness rules drift out, so this guard is dead
        // under verification; it stays as the session's last line of
        // defense for the solver's memory contract.
        if registered != expected || self.dataset.prev.len() != expected {
            return Err(SessionError::SizeMismatch { expected, actual: registered });
        }
        copy_into(&mut self.dataset.curr, values);
        copy_into(&mut self.dataset.prev, values);
        copy_into(&mut self.mirror_curr, values);
        copy_into(&mut self.mirror_prev, values);
        Ok(())
    }

    /// The mirrored current vertex state, three scalars per vertex.
    pub fn current_vertices(&self) -> (r: Vec<u32>)
        ensures
            r@ == self.mirror_curr@,
    {
        duplicate_buffer(&self.mirror_curr)
    }

    /// Ends the session. The driver drops the channel endpoints; the worker
    /// observes that and exits on its next blocking receive. An outstanding
    /// job is abandoned, never awaited or cancelled. The stable buffers are
    /// left exactly as they were.
    pub fn close(&mut self)
        requires
            old(self).wf(),
        ensures
            final(self).wf(),
            final(self).same_session(*old(self)),
            final(self).outstanding() == 0,
            !old(self).config.disable_contact ==> final(self).slot == RebuildSlot::Dead,
            old(self).config.disable_contact ==> *final(self) == *old(self),
            final(self).dataset.curr@ == old(self).dataset.curr@,
            final(self).dataset.prev@ == old(self).dataset.prev@,
            final(self).mirror_curr@ == old(self).mirror_curr@,
            final(self).mirror_prev@ == old(self).mirror_prev@,
            final(self).time == old(self).time,
            final(self).frame == old(self).frame,
            final(self).initialized == old(self).initialized,
            final(self).jobs_submitted@ == old(self).jobs_submitted@,
            final(self).jobs_applied@ == old(self).jobs_applied@,
            final(self).jobs_abandoned@ == old(self).jobs_abandoned@ + old(self).outstanding(),
    {
        if !self.config.disable_contact {
            if self.slot == RebuildSlot::Submitted {
                self.jobs_abandoned = Ghost(self.jobs_abandoned@ + 1);
            }
            self.slot = RebuildSlot::Dead;
        }
    }

    /// Last recorded frame number.
    pub fn current_frame(&self) -> (f: i32)
        ensures
            f == self.frame,
    {
        self.frame
    }

    /// Current simulation time, in the solver's scalar encoding.
    pub fn time_code(&self) -> (t: u32)
        ensures
            t == self.time,
    {
        self.time
    }

    /// State of the rebuild slot.
    pub fn slot_state(&self) -> (s: RebuildSlot)
        ensures
            s == self.slot,
    {
        self.slot
    }

    /// Mesh vertex count reported per step.
    pub fn mesh_vertex_count(&self) -> (n: usize)
        ensures
            n == self.vertex_count,
    {
        self.vertex_count
    }
}

/// At every point in time the rebuild slot holds at most one outstanding
/// job, and every job ever submitted is accounted for: applied, abandoned,
/// or the single outstanding one.
pub proof fn lemma_single_job_slot(c: SessionController)
    requires
        c.wf(),
    ensures
        c.outstanding() <= 1,
        c.jobs_submitted@ == c.jobs_applied@ + c.jobs_abandoned@ + c.outstanding(),
{
}

/// When contact processing is disabled at construction the whole rebuild
/// mechanism is inert: however many steps were taken, the frame number
/// still equals the construction frame, no job was ever submitted, and the
/// slot never left its initial state.
pub proof fn lemma_disabled_contact_inert(c: SessionController)
    requires
        c.wf(),
        c.config.disable_contact,
    ensures
        c.frame == c.construction_frame@,
        c.jobs_submitted@ == 0,
        c.slot == RebuildSlot::Idle,
{
}

/// Round trip of a vertex override: `override_vertices` with a buffer of
/// the matching size leaves the mirrored current-vertex state equal to the
/// written scalars, and `current_vertices` returns that mirror, so a read
/// before the next step hands the written buffer back bit for bit.
pub proof fn lemma_override_read_round_trip(
    written: SessionController,
    values: Seq<u32>,
    read: Seq<u32>,
)
    requires
        written.mirror_curr@ == values,
        read == written.mirror_curr@,
    ensures
        read == values,
{
}

/// The stable buffers observed through a well-formed controller always
/// have the size registered at initialization — one current and one
/// previous scalar triple per vertex — since no operation ever replaces or
/// resizes them.
pub proof fn lemma_stable_buffer_sizes(c: SessionController)
    requires
        c.wf(),
    ensures
        c.dataset.curr@.len() == 3 * c.vertex_count,
        c.dataset.prev@.len() == 3 * c.vertex_count,
{
}

} // verus!
