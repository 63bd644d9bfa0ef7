//! One encode as a state machine. The caller performs each action that the
//! machine asks for against the devices and hands back what came of it; the
//! machine decides the protocol: map the three buffers, make the inputs
//! visible to the device, configure, start, wait, re-synchronise, and
//! release every mapping once, latest first.
use vstd::prelude::*;

use crate::jpeg::{
    config_record, is_ioctl_error, is_wait_failure, make_config, outcome_of, result_outcome,
    wait_failure, EncodeConfig, EncodeError, Error, MtkEncodeConfig, MtkJpeg, WAIT_TIMEOUT,
};
use crate::m4u::{error_of, Cache, Module, Mva, Port, SyncMode, PROT_READ_WRITE};

verus! {

/// A step of the protocol for the caller to perform.
#[derive(Debug, Clone, Copy)]
pub enum Action {
    /// Register a buffer with the M4U (allocate ioctl on the M4U device).
    MapBuffer(Module),
    /// Synchronise the cache over a mapping (cache-sync ioctl on the M4U device).
    Sync(Cache),
    /// Hand the configuration to the encoder (CONFIG ioctl).
    Configure(MtkEncodeConfig),
    /// Start the encoder (START ioctl).
    Start,
    /// Wait for the encoder with this timeout (WAIT ioctl).
    Wait(u64),
    /// Release a registration (deallocate ioctl); a failure here is fatal.
    Release(Module),
    /// The encode is over, with this outcome.
    Finish(Result<u32, EncodeError>),
}

/// What came of the last action.
#[derive(Debug, Clone, Copy, PartialEq, Eq, Structural)]
pub enum Event {
    /// The call succeeded.
    Done,
    /// The allocate call succeeded and mapped the buffer at this device address.
    Mapped(u32),
    /// The WAIT call returned with the hardware's result code and file size.
    Waited(u32, u32),
    /// The call failed with this platform error code.
    Failed(i32),
}

/// Where an encode stands.
#[derive(Debug, Clone, Copy, PartialEq, Eq, Structural)]
pub enum Phase {
    Mapping,
    PreSync(usize),
    Configure,
    Start,
    Wait,
    PostSync(usize),
    Release,
}

/// The cache operation for the `k`-th mapping: inputs are flushed, the
/// output is invalidated.
pub open spec fn mode_of(k: int) -> SyncMode {
    if k < 2 {
        SyncMode::FlushByRange
    } else {
        SyncMode::InvalidByRange
    }
}

fn mode_at(k: usize) -> (r: SyncMode)
    ensures
        r == mode_of(k as int),
{
    if k < 2 {
        SyncMode::FlushByRange
    } else {
        SyncMode::InvalidByRange
    }
}

/// The record that registers `p` for `port`.
pub open spec fn map_record<T: Port>(port: T, p: crate::jpeg::Plane) -> Module {
    Module {
        port: port.spec_raw(),
        buf_addr: p.addr,
        buf_size: p.len,
        prot: PROT_READ_WRITE,
        mva_start: 0,
        mva_end: 0,
        flags: 0,
    }
}

/// The record that synchronises the whole of `m` with `mode`.
pub open spec fn sync_record<T: Port>(m: Mva<T>, mode: SyncMode) -> Cache {
    Cache { port: m.port.spec_raw(), sync_mode: mode.spec_raw(), va: m.va, size: m.len, mva: m.start }
}

/// The record that releases `m`.
pub open spec fn release_record<T: Port>(m: Mva<T>) -> Module {
    Module {
        port: m.port.spec_raw(),
        buf_addr: 0,
        buf_size: 0,
        prot: 0,
        mva_start: m.start,
        mva_end: 0,
        flags: 0,
    }
}

/// The releases still owed for the mappings `s`, in the order they are
/// issued: the latest mapping first.
pub open spec fn releases_of<T: Port>(s: Seq<Mva<T>>) -> Seq<Module>
    decreases s.len(),
{
    if s.len() == 0 {
        Seq::empty()
    } else {
        seq![release_record(s.last())] + releases_of(s.drop_last())
    }
}

/// Every mapping is released exactly once, in the reverse of the order in
/// which the mappings were made.
pub proof fn lemma_releases_reverse<T: Port>(s: Seq<Mva<T>>)
    ensures
        releases_of(s).len() == s.len(),
        forall|i: int|
            0 <= i < s.len() ==> #[trigger] releases_of(s)[i] == release_record(
                s[s.len() - 1 - i],
            ),
    decreases s.len(),
{
    if s.len() > 0 {
        lemma_releases_reverse(s.drop_last());
        assert forall|i: int| 0 <= i < s.len() implies #[trigger] releases_of(s)[i]
            == release_record(s[s.len() - 1 - i]) by {
            if i > 0 {
                assert(releases_of(s)[i] == releases_of(s.drop_last())[i - 1]);
            }
        }
    }
}

/// One encode in progress on a session.
pub struct EncodeRun<'a, T: Port> {
    pub session: &'a MtkJpeg,
    pub config: EncodeConfig<T>,
    pub phase: Phase,
    /// The mappings made so far, in the order they were made.
    pub mapped: Vec<Mva<T>>,
    /// The outcome, once it is decided.
    pub outcome: Option<Result<u32, EncodeError>>,
}

impl<'a, T: Port> EncodeRun<'a, T> {
    pub open spec fn wf(&self) -> bool {
        &&& self.config.valid()
        &&& self.mapped.len() <= 3
        &&& forall|k: int|
            #![trigger self.mapped@[k]]
            0 <= k < self.mapped.len() ==> self.mapped@[k].port == self.config.port(k)
                && self.mapped@[k].va == self.config.plane(k).addr && self.mapped@[k].len
                == self.config.plane(k).len
        &&& match self.phase {
            Phase::Mapping => self.mapped.len() < 3,
            Phase::PreSync(i) => self.mapped.len() == 3 && i < 3,
            Phase::PostSync(i) => self.mapped.len() == 3 && i < 3,
            Phase::Release => true,
            _ => self.mapped.len() == 3,
        }
        &&& (self.phase is PostSync || self.phase is Release) <==> self.outcome is Some
    }

    /// The action that the run asks for in its present state.
    pub open spec fn pending(&self) -> Action {
        match self.phase {
            Phase::Mapping => Action::MapBuffer(
                map_record(
                    self.config.port(self.mapped.len() as int),
                    self.config.plane(self.mapped.len() as int),
                ),
            ),
            Phase::PreSync(i) => Action::Sync(sync_record(self.mapped@[i as int], mode_of(i as int))),
            Phase::PostSync(i) => Action::Sync(
                sync_record(self.mapped@[i as int], mode_of(i as int)),
            ),
            Phase::Configure => Action::Configure(
                config_record(
                    self.config.width,
                    self.config.height,
                    self.mapped@[0],
                    self.mapped@[1],
                    self.mapped@[2],
                ),
            ),
            Phase::Start => Action::Start,
            Phase::Wait => Action::Wait(WAIT_TIMEOUT),
            Phase::Release => if self.mapped.len() > 0 {
                Action::Release(release_record(self.mapped@.last()))
            } else {
                Action::Finish(self.outcome->0)
            },
        }
    }

    /// Whether `ev` can answer the pending action.
    pub open spec fn accepts(&self, ev: Event) -> bool {
        match self.phase {
            Phase::Mapping => ev is Mapped || ev is Failed,
            Phase::Wait => ev is Waited || ev is Failed,
            Phase::Release => true,
            _ => ev is Done || ev is Failed,
        }
    }

    /// Records that the run failed with `e` and turns to releasing what it mapped.
    fn fail(&mut self, e: EncodeError)
        requires
            old(self).wf(),
        ensures
            final(self).wf(),
            final(self).phase == Phase::Release,
            final(self).outcome == Some(Err::<u32, EncodeError>(e)),
            final(self).mapped == old(self).mapped,
            final(self).config == old(self).config,
            final(self).session == old(self).session,
    {
        self.outcome = Some(Err(e));
        self.phase = Phase::Release;
    }

    /// Takes the answer to the pending action, moves on, and returns the
    /// action that comes next.
    pub fn step(&mut self, ev: Event) -> (r: Action)
        requires
            old(self).wf(),
            old(self).accepts(ev),
        ensures
            final(self).wf(),
            r == final(self).pending(),
            final(self).config == old(self).config,
            final(self).session == old(self).session,
            // A successful mapping is kept, after those made before it.
            old(self).phase == Phase::Mapping ==> (ev matches Event::Mapped(start) ==> {
                let k = old(self).mapped.len() as int;
                &&& final(self).mapped@ == old(self).mapped@.push(
                    Mva {
                        port: old(self).config.port(k),
                        start,
                        va: old(self).config.plane(k).addr,
                        len: old(self).config.plane(k).len,
                    },
                )
                &&& final(self).phase == if k + 1 < 3 {
                    Phase::Mapping
                } else {
                    Phase::PreSync(0)
                }
            }),
            ev == Event::Done ==> (old(self).phase matches Phase::PreSync(i) ==> {
                &&& final(self).mapped == old(self).mapped
                &&& final(self).phase == if i + 1 < 3 {
                    Phase::PreSync((i + 1) as usize)
                } else {
                    Phase::Configure
                }
            }),
            (old(self).phase == Phase::Configure && ev == Event::Done) ==> final(self).phase
                == Phase::Start && final(self).mapped == old(self).mapped,
            (old(self).phase == Phase::Start && ev == Event::Done) ==> final(self).phase
                == Phase::Wait && final(self).mapped == old(self).mapped,
            old(self).phase == Phase::Wait ==> (ev matches Event::Waited(res, size) ==> {
                &&& final(self).mapped == old(self).mapped
                &&& final(self).phase == Phase::PostSync(0)
                &&& final(self).outcome == Some(outcome_of(res, size))
            }),
            ev == Event::Done ==> (old(self).phase matches Phase::PostSync(i) ==> {
                &&& final(self).mapped == old(self).mapped
                &&& final(self).outcome == old(self).outcome
                &&& final(self).phase == if i + 1 < 3 {
                    Phase::PostSync((i + 1) as usize)
                } else {
                    Phase::Release
                }
            }),
            // A failure decides the outcome and turns to releasing what was mapped.
            (old(self).phase != Phase::Release && ev is Failed) ==> {
                &&& final(self).mapped == old(self).mapped
                &&& final(self).phase == Phase::Release
            },
            ev matches Event::Failed(c) ==> {
                &&& (old(self).phase is Mapping || old(self).phase is PreSync
                    || old(self).phase is PostSync) ==> final(self).outcome == Some(Err::<
                    u32,
                    EncodeError,
                >(EncodeError::M4uError(error_of(c))))
                &&& old(self).phase == Phase::Configure ==> (final(self).outcome matches Some(Err(
                    EncodeError::IoError(e),
                )) && is_ioctl_error(e, "JPEG_ENC_IOCTL_CONFIG"@, c))
                &&& old(self).phase == Phase::Start ==> (final(self).outcome matches Some(Err(
                    EncodeError::IoError(e),
                )) && is_ioctl_error(e, "JPEG_ENC_IOCTL_START"@, c))
                &&& old(self).phase == Phase::Wait ==> (final(self).outcome matches Some(Err(e))
                    && is_wait_failure(e, c))
            },
            // Releasing: each answered release drops the latest mapping, once.
            (old(self).phase == Phase::Release) ==> {
                &&& final(self).phase == Phase::Release
                &&& final(self).outcome == old(self).outcome
                &&& old(self).mapped.len() > 0 ==> releases_of(old(self).mapped@) == seq![
                    release_record(old(self).mapped@.last()),
                ] + releases_of(final(self).mapped@)
                &&& final(self).mapped@ == if old(self).mapped.len() > 0 {
                    old(self).mapped@.drop_last()
                } else {
                    old(self).mapped@
                }
                &&& old(self).mapped.len() > 0 ==> releases_of(old(self).mapped@) == seq![
                    release_record(old(self).mapped@.last()),
                ] + releases_of(final(self).mapped@)
            },
    {
        match self.phase {
            Phase::Mapping => {
                let n = self.mapped.len();
                let p = if n < 2 { self.config.read_port } else { self.config.write_port };
                let plane = if n == 0 {
                    self.config.y_plane
                } else if n == 1 {
                    self.config.uv_plane
                } else {
                    self.config.output
                };
                let answer = match ev {
                    Event::Mapped(start) => Ok(start),
                    Event::Failed(c) => Err(c),
                    _ => Err(0),
                };
                match self.session.m4u.allocate(p, plane.addr, plane.len, answer) {
                    Ok(m) => {
                        self.mapped.push(m);
                        if n + 1 == 3 {
                            self.phase = Phase::PreSync(0);
                        }
                        proof {
                            assert forall|k: int| 0 <= k < self.mapped.len() implies #[trigger] self.mapped@[k].port == self.config.port(k) && self.mapped@[k].va == self.config.plane(k).addr && self.mapped@[k].len == self.config.plane(k).len by {
                                if k < n {
                                    assert(self.mapped@[k] == old(self).mapped@[k]);
                                }
                            }
                        }
                    },
                    Err(e) => self.fail(EncodeError::M4uError(e)),
                }
            },
            Phase::PreSync(i) => {
                let answer = match ev {
                    Event::Failed(c) => Err(c),
                    _ => Ok(()),
                };
                match self.mapped[i].flush(answer) {
                    Ok(_) => {
                        self.phase = if i + 1 < 3 { Phase::PreSync(i + 1) } else { Phase::Configure };
                    },
                    Err(e) => self.fail(EncodeError::M4uError(e)),
                }
            },
            Phase::Configure => match ev {
                Event::Failed(c) => self.fail(EncodeError::IoError(Error::ioctl("JPEG_ENC_IOCTL_CONFIG", c))),
                _ => self.phase = Phase::Start,
            },
            Phase::Start => match ev {
                Event::Failed(c) => self.fail(EncodeError::IoError(Error::ioctl("JPEG_ENC_IOCTL_START", c))),
                _ => self.phase = Phase::Wait,
            },
            Phase::Wait => match ev {
                Event::Waited(res, size) => {
                    self.outcome = Some(result_outcome(res, size));
                    self.phase = Phase::PostSync(0);
                },
                Event::Failed(c) => self.fail(wait_failure(c)),
                _ => {},
            },
            Phase::PostSync(i) => {
                let answer = match ev {
                    Event::Failed(c) => Err(c),
                    _ => Ok(()),
                };
                match self.mapped[i].flush(answer) {
                    Ok(_) => {
                        self.phase = if i + 1 < 3 { Phase::PostSync(i + 1) } else { Phase::Release };
                    },
                    Err(e) => self.fail(EncodeError::M4uError(e)),
                }
            },
            Phase::Release => {
                if self.mapped.len() > 0 {
                    self.mapped.pop();
                }
            },
        }
        self.next_action()
    }

    fn next_action(&self) -> (r: Action)
        requires
            self.wf(),
        ensures
            r == self.pending(),
    {
        let n = self.mapped.len();
        match self.phase {
            Phase::Mapping => {
                let p = if n < 2 { self.config.read_port } else { self.config.write_port };
                let plane = if n == 0 {
                    self.config.y_plane
                } else if n == 1 {
                    self.config.uv_plane
                } else {
                    self.config.output
                };
                Action::MapBuffer(self.session.m4u.alloc_request(p, plane.addr, plane.len))
            },
            Phase::PreSync(i) => Action::Sync(self.mapped[i].sync_request(mode_at(i))),
            Phase::PostSync(i) => Action::Sync(self.mapped[i].sync_request(mode_at(i))),
            Phase::Configure => Action::Configure(
                make_config(
                    self.config.width,
                    self.config.height,
                    &self.mapped[0],
                    &self.mapped[1],
                    &self.mapped[2],
                ),
            ),
            Phase::Start => Action::Start,
            Phase::Wait => Action::Wait(WAIT_TIMEOUT),
            Phase::Release => if n > 0 {
                Action::Release(self.mapped[n - 1].release_request())
            } else {
                Action::Finish(self.outcome.unwrap())
            },
        }
    }
}


impl MtkJpeg {
    /// Begins one encode of `config` on this session and returns the first
    /// action, the mapping of the luma plane.
    pub fn encode<T: Port>(&self, config: EncodeConfig<T>) -> (r: (EncodeRun<'_, T>, Action))
        requires
            config.valid(),
        ensures
            r.0.wf(),
            r.0.session == self,
            r.0.config == config,
            r.0.phase == Phase::Mapping,
            r.0.mapped@.len() == 0,
            r.1 == r.0.pending(),
    {
        let run = EncodeRun {
            session: self,
            config,
            phase: Phase::Mapping,
            mapped: Vec::new(),
            outcome: None,
        };
        let first = run.next_action();
        (run, first)
    }
}

} // verus!
