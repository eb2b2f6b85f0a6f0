//! The session state machine.
//!
//! One session carries one command to the device: locate and open it,
//! read its endpoints, set configuration and alternate setting, detach
//! kernel drivers where needed and claim the two interfaces, issue the
//! one control transfer, then unconditionally release every claimed
//! interface and reattach every driver the session itself detached.
//! The machine only decides; the I/O shell performs each returned
//! [`Action`] and feeds the outcome back as an [`Event`]. The central
//! property, stated in `step`'s contract, is the unwind discipline:
//! teardown runs on every exit path once anything was claimed or
//! detached, covers all of it, and never touches an interface the
//! session did not claim or detach; teardown failures never override
//! the command's own verdict.

use vstd::prelude::*;

use crate::command::Command;
use crate::command::SessionError;
use crate::command::cmd_valid;
use crate::command::validate;
use crate::endpoints::EndpointRecord;
use crate::report::REPORT_LEN;
use crate::report::encode_report;
use crate::report::report_bytes;

verus! {

/// The fixed second interface claimed for command delivery, beside the
/// first endpoint's own interface. Hardware-specific.
pub const REPORT_INTERFACE: u8 = 1;

/// Request type of the SET_REPORT control transfer: class-specific,
/// interface recipient, host to device.
pub const REQUEST_TYPE_SET_REPORT: u8 = 0x21;

/// The SET_REPORT request.
pub const REQUEST_SET_REPORT: u8 = 0x09;

/// Fixed wValue of the transfer: output report, report id 8.
pub const TRANSFER_VALUE: u16 = 0x0208;

/// Fixed wIndex of the transfer: the report interface.
pub const TRANSFER_INDEX: u16 = 0x0001;

/// Timeout of the one blocking transfer, in milliseconds.
pub const TRANSFER_TIMEOUT_MS: u32 = 1000;

/// Everything one control transfer needs.
#[derive(Debug)]
pub struct TransferParams {
    pub request_type: u8,
    pub request: u8,
    pub value: u16,
    pub index: u16,
    pub timeout_ms: u32,
    pub data: Vec<u8>,
}

/// What the I/O shell is asked to do next. Interfaces and settings are
/// named by number.
#[derive(Debug)]
pub enum Action {
    /// Enumerate the bus and open the target device.
    FindDevice,
    /// Read the device's descriptor tree and flatten its endpoints.
    ReadEndpoints,
    /// Set the device's active configuration.
    SetConfiguration(u8),
    /// Set an interface's alternate setting.
    SetAltSetting(u8, u8),
    /// Ask whether a kernel driver is active on an interface.
    QueryDriver(u8),
    /// Detach the kernel driver from an interface.
    DetachDriver(u8),
    /// Claim an interface.
    ClaimInterface(u8),
    /// Issue the one control transfer.
    Transfer(TransferParams),
    /// Release a claimed interface.
    ReleaseInterface(u8),
    /// Reattach the kernel driver to an interface.
    AttachDriver(u8),
    /// The session is over; report this verdict.
    Finish(Result<(), SessionError>),
}

/// What the I/O shell reports back after performing an action.
#[derive(Debug)]
pub enum Event {
    /// Drive the first action out of a fresh session.
    Begin,
    /// Outcome of `FindDevice`.
    DeviceFound(Result<(), SessionError>),
    /// Outcome of `ReadEndpoints`: the flattened records.
    EndpointsRead(Vec<EndpointRecord>),
    /// Success or failure of a configuration, alternate-setting,
    /// detach, claim, release or reattach action.
    Ack(bool),
    /// Outcome of `QueryDriver`: whether a driver is active, or `None`
    /// when the query itself failed.
    DriverActive(Option<bool>),
    /// Outcome of `Transfer`: the number of bytes written, or `None`
    /// on a transport error.
    TransferDone(Option<usize>),
}

/// Where in its life a session stands.
#[derive(Debug, Clone, Copy, PartialEq, Eq, Structural)]
pub enum Phase {
    Ready,
    Locating,
    Enumerating,
    Configuring,
    SettingAlt,
    Querying,
    Detaching,
    Claiming,
    Transferring,
    Releasing,
    Reenumerating,
    Attaching,
    Done,
}

/// The session: the validated command, the phase, and the bookkeeping
/// the unwind discipline rests on — which interfaces were claimed and
/// which drivers the session itself detached.
#[derive(Debug)]
pub struct Session {
    pub cmd: Command,
    pub phase: Phase,
    /// The first endpoint record, once enumeration found one.
    pub target: EndpointRecord,
    /// The interfaces to claim, in order: the target's, then the fixed
    /// report interface.
    pub to_claim: Vec<u8>,
    /// How many entries of `to_claim` are dealt with so far.
    pub claim_idx: usize,
    /// Interfaces claimed so far; all of them are released on teardown.
    pub claimed: Vec<u8>,
    /// Interfaces whose kernel driver the session detached; exactly
    /// these are reattached on teardown.
    pub detached: Vec<u8>,
    /// How many of `claimed` are released so far.
    pub release_idx: usize,
    /// How many of `detached` are reattached so far.
    pub attach_idx: usize,
    /// The command's verdict, fixed the moment the session stops
    /// moving forward; teardown never changes it.
    pub verdict: Option<Result<(), SessionError>>,
    /// Whether some release failed; collected, never fatal.
    pub release_failed: bool,
    /// Whether some reattach failed; collected, never fatal.
    pub reattach_failed: bool,
}

impl Session {
    /// The session's internal invariant.
    pub open spec fn wf(self) -> bool {
        &&& cmd_valid(self.cmd)
        &&& match self.phase {
            Phase::Ready | Phase::Locating | Phase::Enumerating => {
                &&& self.to_claim@.len() == 0
                &&& self.claimed@.len() == 0
                &&& self.detached@.len() == 0
                &&& self.verdict matches Option::None
            },
            Phase::Configuring | Phase::SettingAlt => {
                &&& self.to_claim@ =~= seq![self.target.iface, REPORT_INTERFACE]
                &&& self.claim_idx == 0
                &&& self.claimed@.len() == 0
                &&& self.detached@.len() == 0
                &&& self.verdict matches Option::None
            },
            Phase::Querying | Phase::Detaching | Phase::Claiming => {
                &&& self.to_claim@ =~= seq![self.target.iface, REPORT_INTERFACE]
                &&& self.claim_idx < self.to_claim@.len()
                &&& self.claimed@ =~= self.to_claim@.take(self.claim_idx as int)
                &&& self.verdict matches Option::None
            },
            Phase::Transferring => {
                &&& self.to_claim@ =~= seq![self.target.iface, REPORT_INTERFACE]
                &&& self.claim_idx == self.to_claim@.len()
                &&& self.claimed@ =~= self.to_claim@
                &&& self.verdict matches Option::None
            },
            Phase::Releasing => {
                &&& self.release_idx < self.claimed@.len()
                &&& self.attach_idx == 0
                &&& self.verdict matches Option::Some(_)
            },
            Phase::Reenumerating => {
                &&& self.release_idx == self.claimed@.len()
                &&& self.detached@.len() > 0
                &&& self.attach_idx == 0
                &&& self.verdict matches Option::Some(_)
            },
            Phase::Attaching => {
                &&& self.release_idx == self.claimed@.len()
                &&& self.attach_idx < self.detached@.len()
                &&& self.verdict matches Option::Some(_)
            },
            Phase::Done => {
                &&& self.release_idx == self.claimed@.len()
                &&& self.attach_idx == self.detached@.len()
                &&& self.verdict matches Option::Some(_)
            },
        }
    }

    /// Which events fit the current phase: exactly the outcome of the
    /// action the machine last asked for.
    pub open spec fn accepts(self, ev: Event) -> bool {
        match self.phase {
            Phase::Ready => ev matches Event::Begin,
            Phase::Locating => ev matches Event::DeviceFound(_),
            Phase::Enumerating => ev matches Event::EndpointsRead(_),
            Phase::Configuring => ev matches Event::Ack(_),
            Phase::SettingAlt => ev matches Event::Ack(_),
            Phase::Querying => ev matches Event::DriverActive(_),
            Phase::Detaching => ev matches Event::Ack(_),
            Phase::Claiming => ev matches Event::Ack(_),
            Phase::Transferring => ev matches Event::TransferDone(_),
            Phase::Releasing => ev matches Event::Ack(_),
            Phase::Reenumerating => ev matches Event::EndpointsRead(_),
            Phase::Attaching => ev matches Event::Ack(_),
            Phase::Done => false,
        }
    }

    /// Whether a transfer outcome counts as success: the whole report
    /// was written.
    pub open spec fn transfer_ok(ev: Event) -> bool {
        ev matches Event::TransferDone(n) && n == Option::Some(REPORT_LEN)
    }

    /// How the session moves when it stops moving forward: the verdict
    /// is fixed to `v`, the claimed and detached lists are kept whole,
    /// and teardown begins — releases first if anything was claimed,
    /// else re-enumeration and reattachment if anything was detached,
    /// else the session is done outright.
    pub open spec fn begins_teardown(
        pre: Session,
        post: Session,
        act: Action,
        v: Result<(), SessionError>,
    ) -> bool {
        &&& post.verdict == Option::Some(v)
        &&& post.claimed@ == pre.claimed@
        &&& post.detached@ == pre.detached@
        &&& if pre.claimed@.len() > 0 {
            &&& post.phase matches Phase::Releasing
            &&& post.release_idx == 0
            &&& act == Action::ReleaseInterface(pre.claimed@[0])
        } else if pre.detached@.len() > 0 {
            &&& post.phase matches Phase::Reenumerating
            &&& act == Action::ReadEndpoints
        } else {
            &&& post.phase matches Phase::Done
            &&& act == Action::Finish(v)
        }
    }

    /// A session that reached its end has fully unwound: every
    /// interface it claimed was the subject of a release action and
    /// every kernel driver it detached the subject of a reattach
    /// action, whatever the command's verdict was.
    pub proof fn lemma_done_is_fully_unwound(s: Session)
        requires
            s.wf(),
            s.phase matches Phase::Done,
        ensures
            s.release_idx == s.claimed@.len(),
            s.attach_idx == s.detached@.len(),
            s.verdict matches Option::Some(_),
    {
    }

    /// Start a session for a command, rejecting out-of-range arguments
    /// before any device interaction.
    pub fn new(cmd: Command) -> (r: Result<Session, SessionError>)
        ensures
            r matches Result::Ok(_) <==> cmd_valid(cmd),
            r matches Result::Err(e) ==> e == SessionError::InvalidArgument,
            r matches Result::Ok(s) ==> (s.wf() && s.cmd == cmd && (s.phase matches Phase::Ready)
                && s.claimed@.len() == 0 && s.detached@.len() == 0 && !s.release_failed
                && !s.reattach_failed),
    {
        if !validate(&cmd) {
            return Result::Err(SessionError::InvalidArgument);
        }
        Result::Ok(
            Session {
                cmd,
                phase: Phase::Ready,
                target: EndpointRecord { config: 0, iface: 0, setting: 0, address: 0 },
                to_claim: Vec::new(),
                claim_idx: 0,
                claimed: Vec::new(),
                detached: Vec::new(),
                release_idx: 0,
                attach_idx: 0,
                verdict: Option::None,
                release_failed: false,
                reattach_failed: false,
            },
        )
    }

    /// Fix the verdict and enter teardown.
    fn stop(&mut self, v: Result<(), SessionError>) -> (act: Action)
        requires
            cmd_valid(old(self).cmd),
        ensures
            final(self).wf(),
            Session::begins_teardown(*old(self), *final(self), act, v),
            final(self).cmd == old(self).cmd,
            final(self).target == old(self).target,
            final(self).to_claim@ == old(self).to_claim@,
            final(self).release_failed == old(self).release_failed,
            final(self).reattach_failed == old(self).reattach_failed,
    {
        self.verdict = Option::Some(v);
        self.release_idx = 0;
        self.attach_idx = 0;
        if self.claimed.len() > 0 {
            self.phase = Phase::Releasing;
            Action::ReleaseInterface(self.claimed[0])
        } else if self.detached.len() > 0 {
            self.phase = Phase::Reenumerating;
            Action::ReadEndpoints
        } else {
            self.phase = Phase::Done;
            Action::Finish(v)
        }
    }

    /// The verdict of a stopped session.
    fn verdict_value(&self) -> (v: Result<(), SessionError>)
        requires
            self.verdict matches Option::Some(_),
        ensures
            self.verdict == Option::Some(v),
    {
        match self.verdict {
            Option::Some(v) => v,
            Option::None => vstd::pervasive::unreached(),
        }
    }

    /// Advance the machine by one event and say what to do next.
    ///
    /// The contract is the machine's whole transition relation. The
    /// unwind discipline lives in these clauses: a release action only
    /// ever names a claimed interface and a reattach action only an
    /// interface whose driver the session itself detached, so a claim
    /// failure never leads to reattaching a driver that was never
    /// detached; a transfer outcome — success or failure — always
    /// begins teardown over the full claimed and detached lists; and
    /// teardown failures are collected without touching the verdict.
    pub fn step(&mut self, ev: Event) -> (act: Action)
        requires
            old(self).wf(),
            old(self).accepts(ev),
        ensures
            final(self).wf(),
            final(self).cmd == old(self).cmd,
            // safety of teardown actions
            act matches Action::ReleaseInterface(i) ==> final(self).claimed@.contains(i),
            act matches Action::AttachDriver(i) ==> final(self).detached@.contains(i),
            // the transfer carries the fixed request and the command's exact report,
            // and happens only with both interfaces claimed
            act matches Action::Transfer(p) ==> p.request_type == REQUEST_TYPE_SET_REPORT
                && p.request == REQUEST_SET_REPORT && p.value == TRANSFER_VALUE && p.index
                == TRANSFER_INDEX && p.timeout_ms == TRANSFER_TIMEOUT_MS && p.data@
                == report_bytes(old(self).cmd) && final(self).claimed@ == final(self).to_claim@
                && final(self).claimed@.len() == 2,
            // a finished session has fully unwound
            act matches Action::Finish(v) ==> (final(self).verdict == Option::Some(v) && (final(self).phase matches Phase::Done) && final(self).release_idx == final(self).claimed@.len()
                && final(self).attach_idx == final(self).detached@.len()),
            // teardown failures are collected, never fatal
            final(self).release_failed == (old(self).release_failed || (old(self).phase matches Phase::Releasing && ev == Event::Ack(false))),
            final(self).reattach_failed == (old(self).reattach_failed || (old(self).phase matches Phase::Attaching && ev == Event::Ack(false))),
            // the transition relation, phase by phase
            old(self).phase matches Phase::Ready ==> final(self).phase matches Phase::Locating
                && act == Action::FindDevice,
            old(self).phase matches Phase::Locating ==> match ev {
                Event::DeviceFound(Result::Ok(())) => final(self).phase matches Phase::Enumerating
                    && act == Action::ReadEndpoints,
                Event::DeviceFound(Result::Err(e)) => Session::begins_teardown(
                    *old(self),
                    *final(self),
                    act,
                    Result::Err(e),
                ),
                _ => true,
            },
            old(self).phase matches Phase::Enumerating ==> match ev {
                Event::EndpointsRead(v) => {
                    if v@.len() == 0 {
                        Session::begins_teardown(
                            *old(self),
                            *final(self),
                            act,
                            Result::Err(SessionError::NoEndpoints),
                        )
                    } else {
                        &&& final(self).phase matches Phase::Configuring
                        &&& final(self).target == v@[0]
                        &&& final(self).to_claim@ =~= seq![v@[0].iface, REPORT_INTERFACE]
                        &&& act == Action::SetConfiguration(v@[0].config)
                    }
                },
                _ => true,
            },
            old(self).phase matches Phase::Configuring ==> match ev {
                Event::Ack(true) => final(self).phase matches Phase::SettingAlt && act
                    == Action::SetAltSetting(old(self).target.iface, old(self).target.setting),
                Event::Ack(false) => Session::begins_teardown(
                    *old(self),
                    *final(self),
                    act,
                    Result::Err(SessionError::ConfigurationFailed),
                ),
                _ => true,
            },
            old(self).phase matches Phase::SettingAlt ==> match ev {
                Event::Ack(true) => final(self).phase matches Phase::Querying && final(self).claim_idx == 0 && act == Action::QueryDriver(old(self).to_claim@[0]),
                Event::Ack(false) => Session::begins_teardown(
                    *old(self),
                    *final(self),
                    act,
                    Result::Err(SessionError::ConfigurationFailed),
                ),
                _ => true,
            },
            old(self).phase matches Phase::Querying ==> match ev {
                Event::DriverActive(Option::Some(true)) => final(self).phase matches Phase::Detaching && act == Action::DetachDriver(
                    old(self).to_claim@[old(self).claim_idx as int],
                ) && final(self).detached@ == old(self).detached@,
                Event::DriverActive(Option::Some(false)) => final(self).phase matches Phase::Claiming && act == Action::ClaimInterface(
                    old(self).to_claim@[old(self).claim_idx as int],
                ) && final(self).detached@ == old(self).detached@,
                Event::DriverActive(Option::None) => Session::begins_teardown(
                    *old(self),
                    *final(self),
                    act,
                    Result::Err(SessionError::DriverDetachFailed),
                ),
                _ => true,
            },
            old(self).phase matches Phase::Detaching ==> match ev {
                Event::Ack(true) => final(self).phase matches Phase::Claiming && final(self).detached@ == old(self).detached@.push(
                    old(self).to_claim@[old(self).claim_idx as int],
                ) && act == Action::ClaimInterface(old(self).to_claim@[old(self).claim_idx as int]),
                Event::Ack(false) => Session::begins_teardown(
                    *old(self),
                    *final(self),
                    act,
                    Result::Err(SessionError::DriverDetachFailed),
                ),
                _ => true,
            },
            old(self).phase matches Phase::Claiming ==> match ev {
                Event::Ack(true) => {
                    &&& final(self).claimed@ == old(self).claimed@.push(
                        old(self).to_claim@[old(self).claim_idx as int],
                    )
                    &&& final(self).claim_idx == old(self).claim_idx + 1
                    &&& final(self).detached@ == old(self).detached@
                    &&& old(self).claim_idx + 1 < old(self).to_claim@.len() ==> (final(self).phase matches Phase::Querying && act == Action::QueryDriver(
                        old(self).to_claim@[old(self).claim_idx + 1],
                    ))
                    &&& old(self).claim_idx + 1 == old(self).to_claim@.len() ==> (final(self).phase matches Phase::Transferring && act matches Action::Transfer(_))
                },
                Event::Ack(false) => Session::begins_teardown(
                    *old(self),
                    *final(self),
                    act,
                    Result::Err(SessionError::ClaimFailed),
                ),
                _ => true,
            },
            old(self).phase matches Phase::Transferring ==> Session::begins_teardown(
                *old(self),
                *final(self),
                act,
                if Session::transfer_ok(ev) {
                    Result::Ok(())
                } else {
                    Result::Err(SessionError::TransferError)
                },
            ),
            old(self).phase matches Phase::Releasing ==> {
                &&& final(self).release_idx == old(self).release_idx + 1
                &&& final(self).verdict == old(self).verdict
                &&& final(self).claimed@ == old(self).claimed@
                &&& final(self).detached@ == old(self).detached@
                &&& old(self).release_idx + 1 < old(self).claimed@.len() ==> (final(self).phase matches Phase::Releasing && act == Action::ReleaseInterface(
                    old(self).claimed@[old(self).release_idx + 1],
                ))
                &&& (old(self).release_idx + 1 == old(self).claimed@.len() && old(self).detached@.len() > 0) ==> (final(self).phase matches Phase::Reenumerating && act
                    == Action::ReadEndpoints)
                &&& (old(self).release_idx + 1 == old(self).claimed@.len() && old(self).detached@.len() == 0) ==> (final(self).phase matches Phase::Done && old(self).verdict matches Option::Some(v) && act == Action::Finish(v))
            },
            old(self).phase matches Phase::Reenumerating ==> final(self).phase matches Phase::Attaching && final(self).attach_idx == 0 && final(self).verdict
                == old(self).verdict && final(self).claimed@ == old(self).claimed@ && final(self).detached@ == old(self).detached@ && act == Action::AttachDriver(
                old(self).detached@[0],
            ),
            old(self).phase matches Phase::Attaching ==> {
                &&& final(self).attach_idx == old(self).attach_idx + 1
                &&& final(self).verdict == old(self).verdict
                &&& final(self).claimed@ == old(self).claimed@
                &&& final(self).detached@ == old(self).detached@
                &&& old(self).attach_idx + 1 < old(self).detached@.len() ==> (final(self).phase matches Phase::Attaching && act == Action::AttachDriver(
                    old(self).detached@[old(self).attach_idx + 1],
                ))
                &&& old(self).attach_idx + 1 == old(self).detached@.len() ==> (final(self).phase matches Phase::Done && old(self).verdict matches Option::Some(v) && act
                    == Action::Finish(v))
            },
    {
        let phase = self.phase;
        match (phase, ev) {
            (Phase::Ready, Event::Begin) => {
                self.phase = Phase::Locating;
                Action::FindDevice
            },
            (Phase::Locating, Event::DeviceFound(outcome)) => {
                match outcome {
                    Result::Ok(()) => {
                        self.phase = Phase::Enumerating;
                        Action::ReadEndpoints
                    },
                    Result::Err(e) => self.stop(Result::Err(e)),
                }
            },
            (Phase::Enumerating, Event::EndpointsRead(records)) => {
                if records.len() == 0 {
                    self.stop(Result::Err(SessionError::NoEndpoints))
                } else {
                    let first: EndpointRecord = records[0];
                    self.target = first;
                    let mut plan: Vec<u8> = Vec::new();
                    plan.push(first.iface);
                    plan.push(REPORT_INTERFACE);
                    self.to_claim = plan;
                    self.claim_idx = 0;
                    self.phase = Phase::Configuring;
                    assert(self.to_claim@ =~= seq![first.iface, REPORT_INTERFACE]);
                    Action::SetConfiguration(first.config)
                }
            },
            (Phase::Configuring, Event::Ack(ok)) => {
                if ok {
                    self.phase = Phase::SettingAlt;
                    Action::SetAltSetting(self.target.iface, self.target.setting)
                } else {
                    self.stop(Result::Err(SessionError::ConfigurationFailed))
                }
            },
            (Phase::SettingAlt, Event::Ack(ok)) => {
                if ok {
                    self.claim_idx = 0;
                    self.phase = Phase::Querying;
                    assert(self.claimed@ =~= self.to_claim@.take(0));
                    Action::QueryDriver(self.to_claim[0])
                } else {
                    self.stop(Result::Err(SessionError::ConfigurationFailed))
                }
            },
            (Phase::Querying, Event::DriverActive(active)) => {
                match active {
                    Option::Some(true) => {
                        self.phase = Phase::Detaching;
                        Action::DetachDriver(self.to_claim[self.claim_idx])
                    },
                    Option::Some(false) => {
                        self.phase = Phase::Claiming;
                        Action::ClaimInterface(self.to_claim[self.claim_idx])
                    },
                    Option::None => self.stop(Result::Err(SessionError::DriverDetachFailed)),
                }
            },
            (Phase::Detaching, Event::Ack(ok)) => {
                if ok {
                    let cur: u8 = self.to_claim[self.claim_idx];
                    self.detached.push(cur);
                    self.phase = Phase::Claiming;
                    Action::ClaimInterface(cur)
                } else {
                    self.stop(Result::Err(SessionError::DriverDetachFailed))
                }
            },
            (Phase::Claiming, Event::Ack(ok)) => {
                if ok {
                    let cur: u8 = self.to_claim[self.claim_idx];
                    self.claimed.push(cur);
                    self.claim_idx = self.claim_idx + 1;
                    proof {
                        assert(self.claimed@ =~= self.to_claim@.take(self.claim_idx as int));
                    }
                    if self.claim_idx < self.to_claim.len() {
                        self.phase = Phase::Querying;
                        Action::QueryDriver(self.to_claim[self.claim_idx])
                    } else {
                        self.phase = Phase::Transferring;
                        proof {
                            assert(self.claimed@ =~= self.to_claim@);
                        }
                        Action::Transfer(
                            TransferParams {
                                request_type: REQUEST_TYPE_SET_REPORT,
                                request: REQUEST_SET_REPORT,
                                value: TRANSFER_VALUE,
                                index: TRANSFER_INDEX,
                                timeout_ms: TRANSFER_TIMEOUT_MS,
                                data: encode_report(&self.cmd),
                            },
                        )
                    }
                } else {
                    self.stop(Result::Err(SessionError::ClaimFailed))
                }
            },
            (Phase::Transferring, Event::TransferDone(written)) => {
                let ok: bool = match written {
                    Option::Some(n) => n == REPORT_LEN,
                    Option::None => false,
                };
                if ok {
                    self.stop(Result::Ok(()))
                } else {
                    self.stop(Result::Err(SessionError::TransferError))
                }
            },
            (Phase::Releasing, Event::Ack(ok)) => {
                if !ok {
                    self.release_failed = true;
                }
                let total: usize = self.claimed.len();
                assert(self.release_idx < total);
                self.release_idx = self.release_idx + 1;
                if self.release_idx < self.claimed.len() {
                    Action::ReleaseInterface(self.claimed[self.release_idx])
                } else if self.detached.len() > 0 {
                    self.phase = Phase::Reenumerating;
                    Action::ReadEndpoints
                } else {
                    self.phase = Phase::Done;
                    Action::Finish(self.verdict_value())
                }
            },
            (Phase::Reenumerating, Event::EndpointsRead(_)) => {
                self.attach_idx = 0;
                self.phase = Phase::Attaching;
                Action::AttachDriver(self.detached[0])
            },
            (Phase::Attaching, Event::Ack(ok)) => {
                if !ok {
                    self.reattach_failed = true;
                }
                let total: usize = self.detached.len();
                assert(self.attach_idx < total);
                self.attach_idx = self.attach_idx + 1;
                if self.attach_idx < self.detached.len() {
                    Action::AttachDriver(self.detached[self.attach_idx])
                } else {
                    self.phase = Phase::Done;
                    Action::Finish(self.verdict_value())
                }
            },
            _ => vstd::pervasive::unreached(),
        }
    }
}

} // verus!
