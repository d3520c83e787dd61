//! Device handles and the two privilege states they can be in.
//!
//! A handle is tagged, in its type, as [`Unprivileged`] or as [`Master`].
//! Queries exist on master handles only, and a master handle comes only from
//! an elevation, on a status by which the native layer grants it.

use vstd::prelude::*;
use libc::c_int;
use crate::connector::{DRMModeConnector, RawConnector};
use crate::error::Error;
use crate::native::{drop_master, set_master, NativeCall};
use crate::resources::{DRMModeRes, RawResources};

verus! {

/// Tag of a handle that holds exclusive control of its device.
#[derive(Debug)]
pub struct Master {}

/// Tag of a handle that holds no special right.
#[derive(Debug)]
pub struct Unprivileged {}

/// The privilege states a handle can be tagged with.
pub trait DeviceType {}

impl DeviceType for Master {}

impl DeviceType for Unprivileged {}

/// An open display device at one privilege level.  The handle refers to the
/// device by its file descriptor and does not own it.
#[derive(Debug)]
pub struct Device<T: DeviceType> {
    fd: c_int,
    state: T,
}

impl<T: DeviceType> Device<T> {
    /// The file descriptor the handle refers to.
    pub closed spec fn fd(&self) -> c_int {
        self.fd
    }
}

impl Device<Unprivileged> {
    /// A handle over an open device.  Every handle starts out unprivileged.
    pub fn new(fd: c_int) -> (device: Self)
        ensures
            device.fd() == fd,
    {
        Device { fd, state: Unprivileged {} }
    }

    /// The request that asks the native layer for exclusive control of this
    /// device.
    pub fn elevate_call(&self) -> (call: NativeCall)
        ensures
            call == (NativeCall::SetMaster { fd: self.fd() }),
    {
        set_master(self.fd)
    }

    /// Begins a scoped elevation: a stretch of work under exclusive control
    /// that ends, whatever the work comes to, with control given up again.
    /// Returned are the scope, waiting for the native layer's word, and the
    /// request to put to it.
    #[must_use]
    pub fn as_master(&self) -> (r: (MasterScope, NativeCall))
        ensures
            r.0 == (MasterScope::Elevating { fd: self.fd() }),
            r.1 == (NativeCall::SetMaster { fd: self.fd() }),
    {
        (MasterScope::Elevating { fd: self.fd }, set_master(self.fd))
    }

    /// Takes the status that the native layer gave to the request of
    /// [`Self::elevate_call`].  A status below zero is a refusal; any other
    /// yields the master handle over the same device.
    pub fn elevate(self, status: c_int) -> (r: Result<Device<Master>, Error>)
        ensures
            status >= 0 ==> r is Ok && r.unwrap() == Device::<Master>::over(self.fd()),
            status >= 0 ==> r is Ok && r.unwrap().fd() == self.fd(),
            status < 0 ==> r is Err && r.unwrap_err() == Error::master_denied(),
    {
        if status >= 0 {
            Ok(Device { fd: self.fd, state: Master {} })
        } else {
            Err(Error::master_denied())
        }
    }
}

impl Device<Master> {
    /// The master handle over the device behind `fd`.
    pub closed spec fn over(fd: c_int) -> Self {
        Device { fd, state: Master {} }
    }

    /// The master handle over a device refers to that device.
    pub proof fn lemma_over_fd(fd: c_int)
        ensures
            Self::over(fd).fd() == fd,
    {
    }

    /// Gives exclusive control up: the handle becomes an unprivileged one
    /// over the same device, and the request that tells the native layer so
    /// is returned with it.  Whatever the native layer answers to that
    /// request is of no consequence.
    #[must_use]
    pub fn drop_master(self) -> (r: (Device<Unprivileged>, NativeCall))
        ensures
            r.0.fd() == self.fd(),
            r.1 == (NativeCall::DropMaster { fd: self.fd() }),
    {
        (Device { fd: self.fd, state: Unprivileged {} }, drop_master(self.fd))
    }

    /// The request that fetches the resources of this device.
    pub fn get_resources_call(&self) -> (call: NativeCall)
        ensures
            call == (NativeCall::GetResources { fd: self.fd() }),
    {
        NativeCall::GetResources { fd: self.fd }
    }

    /// Takes the answer to the request of [`Self::get_resources_call`]: the
    /// resources of the device, or the failure of the query where the answer
    /// is empty.
    pub fn get_resources<'a>(&self, reply: Option<RawResources<'a>>) -> (r: Result<
        DRMModeRes<'a>,
        Error,
    >)
        ensures
            match reply {
                Some(raw) => r is Ok && r.unwrap()@ == raw@,
                None => r is Err && r.unwrap_err() == Error::resources_unavailable(),
            },
    {
        DRMModeRes::new(reply)
    }

    /// The request that fetches one connector of this device.  Any
    /// identifier may be asked for; whether it names a connector is for the
    /// native layer to say.
    pub fn get_connector_call(&self, connector_id: u32) -> (call: NativeCall)
        ensures
            call == (NativeCall::GetConnector { fd: self.fd(), connector_id }),
    {
        NativeCall::GetConnector { fd: self.fd, connector_id }
    }

    /// Takes the answer to the request of [`Self::get_connector_call`]: the
    /// connector with its modes decoded, beside the call that frees the
    /// native mode array; or the failure of the query where the answer is
    /// empty.
    pub fn get_connector<'a, 'm>(&self, reply: Option<RawConnector<'a, 'm>>) -> (r: Result<
        (DRMModeConnector<'a>, NativeCall),
        Error,
    >)
        ensures
            match reply {
                Some(raw) => {
                    &&& r is Ok
                    &&& r.unwrap().0@ == raw@
                    &&& r.unwrap().1 == (NativeCall::FreeModeInfo { addr: raw.modes.addr })
                },
                None => r is Err && r.unwrap_err() == Error::connector_unavailable(),
            },
    {
        DRMModeConnector::new(reply)
    }

    /// The file descriptor of the device.
    pub fn raw_fd(&self) -> (fd: c_int)
        ensures
            fd == self.fd(),
    {
        self.fd
    }
}

/// What happened outside a scoped elevation since its last step.
#[derive(Clone, Copy, Debug, PartialEq, Eq)]
pub enum ScopeEvent {
    /// The native layer answered the call last asked for, with this status.
    Status(c_int),
    /// The work under exclusive control came to an end, with this result.
    Body(Result<(), Error>),
}

/// What a scoped elevation asks of its driver next.
#[derive(Clone, Copy, Debug, PartialEq, Eq)]
pub enum ScopeAction {
    /// Perform this native call and report its status.
    Call(NativeCall),
    /// Do the work under exclusive control, with the handle that
    /// [`MasterScope::master`] lends, and report its result.
    Run,
    /// The scope is over; this is its result.
    Return(Result<(), Error>),
    /// The event was not one the scope was waiting for; nothing changed.
    Wait,
}

impl ScopeAction {
    /// The native calls the action asks for: one or none.
    pub open spec fn calls(self) -> Seq<NativeCall> {
        match self {
            ScopeAction::Call(call) => seq![call],
            _ => seq![],
        }
    }

    /// How often the action starts the work under exclusive control: once or
    /// not at all.
    pub open spec fn runs(self) -> nat {
        match self {
            ScopeAction::Run => 1,
            _ => 0,
        }
    }
}

/// A scoped elevation in progress.
#[derive(Debug)]
pub enum MasterScope {
    /// Exclusive control has been asked for; the native layer's status is
    /// awaited.
    Elevating { fd: c_int },
    /// Exclusive control is held; the work is under way.
    Running { master: Device<Master> },
    /// The work has ended and control is being given up; the native layer's
    /// status is awaited, and ignored.
    Releasing { outcome: Result<(), Error> },
    /// The scope is over.
    Finished { outcome: Result<(), Error> },
}

impl MasterScope {
    /// The scope and the action that follow an event.
    ///
    /// A refused elevation ends the scope at once with the refusal, and the
    /// work is never started.  A granted one starts the work.  When the work
    /// ends, with success or with failure, control is given up, and once the
    /// native layer has answered, whatever it answered, the scope ends with
    /// the result of the work.
    pub open spec fn next(self, event: ScopeEvent) -> (MasterScope, ScopeAction) {
        match (self, event) {
            (MasterScope::Elevating { fd }, ScopeEvent::Status(status)) => if status >= 0 {
                (MasterScope::Running { master: Device::<Master>::over(fd) }, ScopeAction::Run)
            } else {
                (
                    MasterScope::Finished { outcome: Err(Error::master_denied()) },
                    ScopeAction::Return(Err(Error::master_denied())),
                )
            },
            (MasterScope::Running { master }, ScopeEvent::Body(result)) => (
                MasterScope::Releasing { outcome: result },
                ScopeAction::Call(NativeCall::DropMaster { fd: master.fd() }),
            ),
            (MasterScope::Releasing { outcome }, ScopeEvent::Status(_)) => (
                MasterScope::Finished { outcome },
                ScopeAction::Return(outcome),
            ),
            _ => (self, ScopeAction::Wait),
        }
    }

    /// Advances the scope by one event.
    #[must_use]
    pub fn step(self, event: ScopeEvent) -> (r: (MasterScope, ScopeAction))
        ensures
            r == self.next(event),
            self matches MasterScope::Elevating { fd } ==> (r.0 matches MasterScope::Running {
                master,
            } ==> master.fd() == fd),
    {
        match (self, event) {
            (MasterScope::Elevating { fd }, ScopeEvent::Status(status)) => {
                match Device::new(fd).elevate(status) {
                    Ok(master) => (MasterScope::Running { master }, ScopeAction::Run),
                    Err(e) => (MasterScope::Finished { outcome: Err(e) }, ScopeAction::Return(Err(e))),
                }
            },
            (MasterScope::Running { master }, ScopeEvent::Body(result)) => {
                let (_, call) = master.drop_master();
                (MasterScope::Releasing { outcome: result }, ScopeAction::Call(call))
            },
            (MasterScope::Releasing { outcome }, ScopeEvent::Status(_)) => {
                (MasterScope::Finished { outcome }, ScopeAction::Return(outcome))
            },
            (scope, _) => (scope, ScopeAction::Wait),
        }
    }

    /// The master handle, while the work is under way and at no other time.
    pub fn master(&self) -> (m: Option<&Device<Master>>)
        ensures
            match *self {
                MasterScope::Running { master } => m == Some(&master),
                _ => m is None,
            },
    {
        match self {
            MasterScope::Running { master } => Some(master),
            _ => None,
        }
    }
}

impl MasterScope {
    /// The scope that a run of events leaves behind.
    pub open spec fn after(self, events: Seq<ScopeEvent>) -> MasterScope
        decreases events.len(),
    {
        if events.len() == 0 {
            self
        } else {
            self.next(events[0]).0.after(events.drop_first())
        }
    }

    /// The native calls that the scope asks for over a run of events, in
    /// order.
    pub open spec fn calls_over(self, events: Seq<ScopeEvent>) -> Seq<NativeCall>
        decreases events.len(),
    {
        if events.len() == 0 {
            seq![]
        } else {
            self.next(events[0]).1.calls() + self.next(events[0]).0.calls_over(
                events.drop_first(),
            )
        }
    }

    /// How often the scope starts the work over a run of events.
    pub open spec fn runs_over(self, events: Seq<ScopeEvent>) -> nat
        decreases events.len(),
    {
        if events.len() == 0 {
            0
        } else {
            self.next(events[0]).1.runs() + self.next(events[0]).0.runs_over(events.drop_first())
        }
    }

    /// Every native call of a scoped elevation on the device behind `fd`,
    /// from the request that begins it, over a run of events.
    pub open spec fn trace(fd: c_int, events: Seq<ScopeEvent>) -> Seq<NativeCall> {
        seq![NativeCall::SetMaster { fd }] + (MasterScope::Elevating { fd }).calls_over(events)
    }

    /// A scope that is over stays as it is and asks for nothing more.
    pub proof fn lemma_finished_is_final(self, events: Seq<ScopeEvent>)
        requires
            self is Finished,
        ensures
            self.after(events) == self,
            self.calls_over(events) == Seq::<NativeCall>::empty(),
            self.runs_over(events) == 0,
        decreases events.len(),
    {
        if events.len() > 0 {
            self.lemma_finished_is_final(events.drop_first());
        }
    }

    /// A scope that is giving control up asks for nothing more and ends, if
    /// it ends, with the result it holds.
    pub proof fn lemma_releasing_keeps_outcome(self, events: Seq<ScopeEvent>)
        requires
            self is Releasing,
        ensures
            self.after(events) == self || self.after(events) == (MasterScope::Finished {
                outcome: self->Releasing_outcome,
            }),
            self.calls_over(events) == Seq::<NativeCall>::empty(),
            self.runs_over(events) == 0,
        decreases events.len(),
    {
        if events.len() > 0 {
            let (mid, _) = self.next(events[0]);
            if mid is Finished {
                mid.lemma_finished_is_final(events.drop_first());
            } else {
                self.lemma_releasing_keeps_outcome(events.drop_first());
            }
        }
    }

    /// A scope whose work is under way does not start it again.  It gives
    /// control up exactly once, on its own device, as soon as the work has
    /// reported, and ends, if it ends, with a result that the work reported.
    pub proof fn lemma_running_releases_once(self, events: Seq<ScopeEvent>)
        requires
            self is Running,
        ensures
            self.runs_over(events) == 0,
            self.after(events) == self ==> self.calls_over(events) == Seq::<NativeCall>::empty(),
            self.after(events) != self ==> {
                &&& self.calls_over(events) == seq![
                    NativeCall::DropMaster { fd: self->master.fd() },
                ]
                &&& exists|i: int|
                    0 <= i < events.len() && {
                        ||| self.after(events) == (MasterScope::Releasing {
                            outcome: (#[trigger] events[i])->Body_0,
                        })
                        ||| self.after(events) == (MasterScope::Finished {
                            outcome: events[i]->Body_0,
                        })
                    } && events[i] is Body
            },
        decreases events.len(),
    {
        if events.len() > 0 {
            let rest = events.drop_first();
            let (mid, _) = self.next(events[0]);
            if mid is Releasing {
                mid.lemma_releasing_keeps_outcome(rest);
            } else {
                self.lemma_running_releases_once(rest);
            }
        }
    }

    /// A scope whose driver answers what it is asked is over after three
    /// events where the elevation is granted, having started the work once
    /// and given control up once, and ends with the result of the work
    /// whatever the native layer said to the release.  Where the elevation is
    /// refused it is over after the first event, with the refusal.
    pub proof fn lemma_scope_completes(
        fd: c_int,
        status: c_int,
        result: Result<(), Error>,
        drop_status: c_int,
    )
        ensures
            ({
                let scope = MasterScope::Elevating { fd };
                let granted = seq![
                    ScopeEvent::Status(status),
                    ScopeEvent::Body(result),
                    ScopeEvent::Status(drop_status),
                ];
                let refused = seq![ScopeEvent::Status(status)];
                &&& status >= 0 ==> {
                    &&& scope.after(granted) == (MasterScope::Finished { outcome: result })
                    &&& scope.calls_over(granted) == seq![NativeCall::DropMaster { fd }]
                    &&& scope.runs_over(granted) == 1
                }
                &&& status < 0 ==> {
                    &&& scope.after(refused) == (MasterScope::Finished {
                        outcome: Err(Error::master_denied()),
                    })
                    &&& scope.calls_over(refused) == Seq::<NativeCall>::empty()
                    &&& scope.runs_over(refused) == 0
                }
            }),
    {
        let scope = MasterScope::Elevating { fd };
        if status >= 0 {
            let granted = seq![
                ScopeEvent::Status(status),
                ScopeEvent::Body(result),
                ScopeEvent::Status(drop_status),
            ];
            let running = scope.next(granted[0]).0;
            let releasing = running.next(granted[1]).0;
            let finished = releasing.next(granted[2]).0;
            let tail2 = granted.drop_first();
            let tail1 = tail2.drop_first();
            let tail0 = tail1.drop_first();
            assert(finished.after(tail0) == finished);
            assert(releasing.after(tail1) == finished);
            assert(running.after(tail2) == finished);
            assert(finished.calls_over(tail0) =~= Seq::<NativeCall>::empty());
            assert(releasing.calls_over(tail1) =~= Seq::<NativeCall>::empty());
            assert(running.calls_over(tail2) =~= seq![NativeCall::DropMaster { fd }]);
            assert(finished.runs_over(tail0) == 0);
            assert(releasing.runs_over(tail1) == 0);
            assert(running.runs_over(tail2) == 0);
        } else {
            let refused = seq![ScopeEvent::Status(status)];
            let finished = scope.next(refused[0]).0;
            let tail0 = refused.drop_first();
            assert(finished.after(tail0) == finished);
            assert(finished.calls_over(tail0) =~= Seq::<NativeCall>::empty());
            assert(finished.runs_over(tail0) == 0);
        }
    }

    /// However a scoped elevation is driven, it starts the work at most once
    /// and gives control up at most once, on the device it was begun for and
    /// not before the work was started.  Once it is over it has given control
    /// up exactly as often as it started the work: a refused elevation ends
    /// with the refusal and without either, a granted one ends with a result
    /// that the work reported, after one release.
    pub proof fn lemma_scope_releases_once(fd: c_int, events: Seq<ScopeEvent>)
        ensures
            ({
                let scope = MasterScope::Elevating { fd };
                let end = scope.after(events);
                let calls = scope.calls_over(events);
                let runs = scope.runs_over(events);
                &&& runs <= 1
                &&& calls.len() <= runs
                &&& calls == Seq::<NativeCall>::empty() || calls == seq![
                    NativeCall::DropMaster { fd },
                ]
                &&& end is Elevating ==> runs == 0
                &&& end is Running ==> runs == 1 && calls.len() == 0
                &&& end is Releasing ==> runs == 1 && calls.len() == 1
                &&& end is Finished ==> calls.len() == runs
                &&& end is Finished && runs == 0 ==> end->Finished_outcome == Err::<(), Error>(
                    Error::master_denied(),
                )
                &&& end is Finished && runs == 1 ==> exists|i: int|
                    0 <= i < events.len() && #[trigger] events[i] == ScopeEvent::Body(
                        end->Finished_outcome,
                    )
            }),
        decreases events.len(),
    {
        let scope = MasterScope::Elevating { fd };
        if events.len() > 0 {
            let rest = events.drop_first();
            let (mid, _) = scope.next(events[0]);
            if mid is Running {
                mid.lemma_running_releases_once(rest);
            } else if mid is Finished {
                mid.lemma_finished_is_final(rest);
            } else {
                Self::lemma_scope_releases_once(fd, rest);
            }
        }
    }

    /// A scoped elevation that is over has made one request for exclusive
    /// control and, where the work was started, one release after it, and no
    /// other native call.
    pub proof fn lemma_scope_trace(fd: c_int, events: Seq<ScopeEvent>)
        ensures
            ({
                let scope = MasterScope::Elevating { fd };
                scope.after(events) is Finished ==> Self::trace(fd, events) == if scope.runs_over(
                    events,
                ) == 1 {
                    seq![NativeCall::SetMaster { fd }, NativeCall::DropMaster { fd }]
                } else {
                    seq![NativeCall::SetMaster { fd }]
                }
            }),
    {
        Self::lemma_scope_releases_once(fd, events);
        let scope = MasterScope::Elevating { fd };
        if scope.after(events) is Finished {
            if scope.runs_over(events) == 1 {
                assert(Self::trace(fd, events) =~= seq![
                    NativeCall::SetMaster { fd },
                    NativeCall::DropMaster { fd },
                ]);
            } else {
                assert(Self::trace(fd, events) =~= seq![NativeCall::SetMaster { fd }]);
            }
        }
    }
}

} // verus!
