//! The control plane of an interface: what can be read and set, and the
//! order in which a configuration is applied.

use crate::address::Ipv4Address;
use crate::configuration::Configuration;
use crate::error::Error;
use vstd::prelude::*;

verus! {

/// One step of applying a configuration.
#[derive(Debug, Clone, Copy, PartialEq, Eq, Structural)]
pub enum ControlRequest {
    Address(Ipv4Address),
    Destination(Ipv4Address),
    Broadcast(Ipv4Address),
    Netmask(Ipv4Address),
    Mtu(i32),
    Enable(bool),
}

/// The steps for one attribute: one if it is present, none if it is not.
pub open spec fn step_for<T>(value: Option<T>, request: spec_fn(T) -> ControlRequest) -> Seq<
    ControlRequest,
> {
    match value {
        Some(v) => seq![request(v)],
        None => Seq::empty(),
    }
}

/// The steps that apply a configuration, in their order: address,
/// destination, broadcast, netmask and mtu, each only if it is present, and
/// then, always, bringing the interface up or down.
pub open spec fn plan(config: Configuration) -> Seq<ControlRequest> {
    step_for(config.address, |a: Ipv4Address| ControlRequest::Address(a)) + step_for(
        config.destination,
        |a: Ipv4Address| ControlRequest::Destination(a),
    ) + step_for(config.broadcast, |a: Ipv4Address| ControlRequest::Broadcast(a)) + step_for(
        config.netmask,
        |a: Ipv4Address| ControlRequest::Netmask(a),
    ) + step_for(config.mtu, |m: i32| ControlRequest::Mtu(m)) + seq![
        ControlRequest::Enable(config.enabled),
    ]
}

/// Works out the steps that apply a configuration.
pub fn configure_plan(config: &Configuration) -> (steps: Vec<ControlRequest>)
    ensures
        steps@ == plan(*config),
{
    let mut steps: Vec<ControlRequest> = Vec::new();
    if let Some(addr) = config.address {
        steps.push(ControlRequest::Address(addr));
    }
    if let Some(addr) = config.destination {
        steps.push(ControlRequest::Destination(addr));
    }
    if let Some(addr) = config.broadcast {
        steps.push(ControlRequest::Broadcast(addr));
    }
    if let Some(addr) = config.netmask {
        steps.push(ControlRequest::Netmask(addr));
    }
    if let Some(mtu) = config.mtu {
        steps.push(ControlRequest::Mtu(mtu));
    }
    steps.push(ControlRequest::Enable(config.enabled));
    assert(steps@ =~= plan(*config));
    steps
}

/// The plan never is empty, ends with the step that brings the interface up
/// or down, holds no other such step, and holds a step for an attribute
/// exactly if the configuration has the attribute.
pub proof fn lemma_plan_shape(config: Configuration)
    ensures
        1 <= plan(config).len() <= 6,
        plan(config).last() == ControlRequest::Enable(config.enabled),
        forall|i: int|
            0 <= i < plan(config).len() - 1 ==> !(#[trigger] plan(config)[i] is Enable),
        config.address matches Some(a) ==> plan(config)[0] == ControlRequest::Address(a),
        config.address is None ==> forall|i: int|
            0 <= i < plan(config).len() ==> !(#[trigger] plan(config)[i] is Address),
        config.mtu matches Some(m) ==> plan(config)[plan(config).len() - 2]
            == ControlRequest::Mtu(m),
{
}

/// The application of a configuration, step by step: which step is due, and
/// what follows from how the last one went.
#[derive(Debug)]
pub struct Setup {
    steps: Vec<ControlRequest>,
    position: usize,
}

impl Setup {
    #[verifier::type_invariant]
    spec fn well_formed(self) -> bool {
        self.position <= self.steps@.len()
    }

    /// The steps to go through.
    pub closed spec fn steps(&self) -> Seq<ControlRequest> {
        self.steps@
    }

    /// The number of steps that are behind: those that went well, or all of
    /// them once one has failed.
    pub closed spec fn position(&self) -> nat {
        self.position as nat
    }

    /// The steps that are still ahead.
    pub open spec fn remaining(&self) -> Seq<ControlRequest> {
        self.steps().skip(self.position() as int)
    }

    /// Sets out to apply a configuration: with its whole plan ahead.
    pub fn new(config: &Configuration) -> (setup: Self)
        ensures
            setup.steps() == plan(*config),
            setup.position() == 0,
            setup.remaining() == plan(*config),
    {
        let setup = Setup { steps: configure_plan(config), position: 0 };
        assert(setup.steps().skip(0) =~= setup.steps());
        setup
    }

    /// The step that is due: the first of those ahead, if there is one.
    pub fn pending(&self) -> (step: Option<ControlRequest>)
        ensures
            step == if self.remaining().len() > 0 {
                Some(self.remaining()[0])
            } else {
                None
            },
            self.position() <= self.steps().len(),
    {
        proof {
            use_type_invariant(self);
        }
        if self.position < self.steps.len() {
            Some(self.steps[self.position])
        } else {
            None
        }
    }

    /// Takes note of how the step that was due went. After a success the
    /// next step is due. A failure ends the application: its error is handed
    /// on as it is, and no step is due any more.
    pub fn record(&mut self, outcome: Result<(), Error>) -> (r: Result<(), Error>)
        ensures
            final(self).steps() == old(self).steps(),
            final(self).position() == match outcome {
                Ok(()) => if old(self).position() < old(self).steps().len() {
                    old(self).position() + 1
                } else {
                    old(self).position()
                },
                Err(_) => old(self).steps().len(),
            },
            match outcome {
                Ok(()) => r is Ok && final(self).remaining() == if old(self).remaining().len()
                    > 0 {
                    old(self).remaining().skip(1)
                } else {
                    old(self).remaining()
                },
                Err(e) => r == Err::<(), Error>(e) && final(self).remaining().len() == 0,
            },
            final(self).remaining().len() <= old(self).remaining().len(),
            outcome is Ok && old(self).remaining().len() > 0 ==> final(self).remaining().len()
                < old(self).remaining().len(),
    {
        proof {
            use_type_invariant(&*self);
        }
        match outcome {
            Ok(()) => {
                if self.position < self.steps.len() {
                    self.position = self.position + 1;
                    assert(self.remaining() =~= old(self).remaining().skip(1));
                }
                Ok(())
            },
            Err(e) => {
                self.position = self.steps.len();
                Err(e)
            },
        }
    }
}

/// Whether every outcome is a success.
pub open spec fn all_ok(outcomes: Seq<Result<(), Error>>) -> bool {
    forall|i: int| 0 <= i < outcomes.len() ==> (#[trigger] outcomes[i]) is Ok
}

/// What a run of calls comes to, given the outcome of each: there is one
/// call for each of the first steps, and every call but the last succeeded.
/// A run that went through all steps and succeeded in all is a success. Any
/// other run ends with a call that failed, whose error is the result, and
/// leaves the steps behind it untried.
pub open spec fn result_of(
    steps: Seq<ControlRequest>,
    outcomes: Seq<Result<(), Error>>,
    r: Result<(), Error>,
) -> bool {
    &&& outcomes.len() <= steps.len()
    &&& forall|i: int| 0 <= i < outcomes.len() - 1 ==> (#[trigger] outcomes[i]) is Ok
    &&& if outcomes.len() == steps.len() && all_ok(outcomes) {
        r is Ok
    } else {
        outcomes.len() > 0 && outcomes.last() is Err && r == outcomes.last()
    }
}

/// Whether an outcome is one that the accessor for a step may give when it
/// is called, with the value of the step, on the device behind `d`. The six
/// accessors of a device are handed in as they are.
pub open spec fn issued<D, A, B, C, N, M, E>(
    set_address: A,
    set_destination: B,
    set_broadcast: C,
    set_netmask: N,
    set_mtu: M,
    enable: E,
    d: &mut D,
    step: ControlRequest,
    outcome: Result<(), Error>,
) -> bool where
    A: FnOnce(&mut D, Ipv4Address) -> Result<(), Error>,
    B: FnOnce(&mut D, Ipv4Address) -> Result<(), Error>,
    C: FnOnce(&mut D, Ipv4Address) -> Result<(), Error>,
    N: FnOnce(&mut D, Ipv4Address) -> Result<(), Error>,
    M: FnOnce(&mut D, i32) -> Result<(), Error>,
    E: FnOnce(&mut D, bool) -> Result<(), Error>,
{
    match step {
        ControlRequest::Address(addr) => call_ensures(set_address, (d, addr), outcome),
        ControlRequest::Destination(addr) => call_ensures(set_destination, (d, addr), outcome),
        ControlRequest::Broadcast(addr) => call_ensures(set_broadcast, (d, addr), outcome),
        ControlRequest::Netmask(addr) => call_ensures(set_netmask, (d, addr), outcome),
        ControlRequest::Mtu(mtu) => call_ensures(set_mtu, (d, mtu), outcome),
        ControlRequest::Enable(value) => call_ensures(enable, (d, value), outcome),
    }
}

/// A run of calls on a device: one call for each of the first steps, in
/// their order, each with an outcome that its accessor may give. The first
/// call finds the device as it was at the start, each further one as the
/// call before left it, and the device ends as the last call left it, or as
/// it was where there was no call. `afters` holds the device as each call
/// left it.
pub open spec fn run_of<D, A, B, C, N, M, E>(
    set_address: A,
    set_destination: B,
    set_broadcast: C,
    set_netmask: N,
    set_mtu: M,
    enable: E,
    steps: Seq<ControlRequest>,
    start: D,
    calls: Seq<&mut D>,
    outcomes: Seq<Result<(), Error>>,
    afters: Seq<D>,
    end: D,
) -> bool where
    A: FnOnce(&mut D, Ipv4Address) -> Result<(), Error>,
    B: FnOnce(&mut D, Ipv4Address) -> Result<(), Error>,
    C: FnOnce(&mut D, Ipv4Address) -> Result<(), Error>,
    N: FnOnce(&mut D, Ipv4Address) -> Result<(), Error>,
    M: FnOnce(&mut D, i32) -> Result<(), Error>,
    E: FnOnce(&mut D, bool) -> Result<(), Error>,
{
    &&& calls.len() == outcomes.len()
    &&& calls.len() == afters.len()
    &&& calls.len() <= steps.len()
    &&& forall|i: int|
        #![trigger calls[i]]
        #![trigger outcomes[i]]
        #![trigger afters[i]]
        0 <= i < calls.len() ==> {
            &&& *calls[i] == (if i == 0 {
                start
            } else {
                afters[i - 1]
            })
            &&& issued(
                set_address,
                set_destination,
                set_broadcast,
                set_netmask,
                set_mtu,
                enable,
                calls[i],
                steps[i],
                outcomes[i],
            )
        }
    &&& end == (if calls.len() == 0 {
        start
    } else {
        afters.last()
    })
}

/// The capabilities of a virtual interface. The platform's device
/// implements the accessors; `configure` is the same for all.
pub trait Interface {
    type Queue;

    /// Applies a configuration: issues the steps of its plan on the device,
    /// in their order, and stops at the first that fails, with its error.
    ///
    /// In the words of the contract: there is a run of calls of the
    /// device's accessors, for the first steps of the plan, that begins with
    /// the device as it was and ends with the device as it is left; each
    /// call leaves the device as the run says; and the result is that of
    /// the run.
    fn configure(&mut self, config: &Configuration) -> (r: Result<(), Error>) where Self: Sized
        ensures
            exists|calls: Seq<&mut Self>, outcomes: Seq<Result<(), Error>>, afters: Seq<Self>|
                {
                    &&& #[trigger] run_of(
                        Self::set_address,
                        Self::set_destination,
                        Self::set_broadcast,
                        Self::set_netmask,
                        Self::set_mtu,
                        Self::enable,
                        plan(*config),
                        *old(self),
                        calls,
                        outcomes,
                        afters,
                        *final(self),
                    )
                    &&& result_of(plan(*config), outcomes, r)
                    &&& forall|i: int|
                        #![trigger calls[i]]
                        #![trigger afters[i]]
                        0 <= i < calls.len() ==> *final(calls[i]) == afters[i]
                },
    {
        let ghost start = *self;
        let ghost steps = plan(*config);
        let mut setup = Setup::new(config);
        assert(run_of(
            Self::set_address,
            Self::set_destination,
            Self::set_broadcast,
            Self::set_netmask,
            Self::set_mtu,
            Self::enable,
            steps,
            start,
            Seq::<&mut Self>::empty(),
            Seq::<Result<(), Error>>::empty(),
            Seq::<Self>::empty(),
            *self,
        ));
        loop
            invariant
                start == *old(self),
                steps == plan(*config),
                setup.steps() == steps,
                exists|calls: Seq<&mut Self>, outcomes: Seq<Result<(), Error>>, afters: Seq<Self>|
                    {
                        &&& #[trigger] run_of(
                            Self::set_address,
                            Self::set_destination,
                            Self::set_broadcast,
                            Self::set_netmask,
                            Self::set_mtu,
                            Self::enable,
                            steps,
                            start,
                            calls,
                            outcomes,
                            afters,
                            *self,
                        )
                        &&& all_ok(outcomes)
                        &&& calls.len() == setup.position()
                        &&& forall|i: int|
                            #![trigger calls[i]]
                            0 <= i < calls.len() ==> *final(calls[i]) == afters[i]
                    },
            decreases setup.remaining().len(),
        {
            let ghost before = *self;
            let ghost done = choose|
                calls: Seq<&mut Self>,
                outcomes: Seq<Result<(), Error>>,
                afters: Seq<Self>,
            |
                {
                    &&& #[trigger] run_of(
                        Self::set_address,
                        Self::set_destination,
                        Self::set_broadcast,
                        Self::set_netmask,
                        Self::set_mtu,
                        Self::enable,
                        steps,
                        start,
                        calls,
                        outcomes,
                        afters,
                        *self,
                    )
                    &&& all_ok(outcomes)
                    &&& calls.len() == setup.position()
                    &&& forall|i: int|
                        #![trigger calls[i]]
                        0 <= i < calls.len() ==> *final(calls[i]) == afters[i]
                };
            let pending = setup.pending();
            let outcome = match pending {
                None => {
                    assert(result_of(steps, done.1, Ok::<(), Error>(())));
                    return Ok(());
                },
                Some(ControlRequest::Address(addr)) => self.set_address(addr),
                Some(ControlRequest::Destination(addr)) => self.set_destination(addr),
                Some(ControlRequest::Broadcast(addr)) => self.set_broadcast(addr),
                Some(ControlRequest::Netmask(addr)) => self.set_netmask(addr),
                Some(ControlRequest::Mtu(mtu)) => self.set_mtu(mtu),
                Some(ControlRequest::Enable(value)) => self.enable(value),
            };
            let ghost step = steps[done.0.len() as int];
            assert(pending == Some(step));
            let ghost d = choose|d: &mut Self|
                #![trigger call_ensures(Self::set_address, (d, step->Address_0), outcome)]
                #![trigger call_ensures(Self::set_destination, (d, step->Destination_0), outcome)]
                #![trigger call_ensures(Self::set_broadcast, (d, step->Broadcast_0), outcome)]
                #![trigger call_ensures(Self::set_netmask, (d, step->Netmask_0), outcome)]
                #![trigger call_ensures(Self::set_mtu, (d, step->Mtu_0), outcome)]
                #![trigger call_ensures(Self::enable, (d, step->Enable_0), outcome)]
                {
                    &&& *d == before
                    &&& *final(d) == *self
                    &&& issued(
                        Self::set_address,
                        Self::set_destination,
                        Self::set_broadcast,
                        Self::set_netmask,
                        Self::set_mtu,
                        Self::enable,
                        d,
                        step,
                        outcome,
                    )
                };
            let ghost calls = done.0.push(d);
            let ghost outcomes = done.1.push(outcome);
            let ghost afters = done.2.push(*self);
            assert(run_of(
                Self::set_address,
                Self::set_destination,
                Self::set_broadcast,
                Self::set_netmask,
                Self::set_mtu,
                Self::enable,
                steps,
                start,
                calls,
                outcomes,
                afters,
                *self,
            )) by {
                assert forall|i: int| 0 <= i < calls.len() - 1 implies calls[i] == done.0[i]
                    && outcomes[i] == done.1[i] && afters[i] == done.2[i] by {}
            }
            assert forall|i: int| 0 <= i < calls.len() implies *final(#[trigger] calls[i])
                == afters[i] by {
                if i < calls.len() - 1 {
                    assert(calls[i] == done.0[i]);
                }
            }
            if let Err(e) = setup.record(outcome) {
                assert(result_of(steps, outcomes, Err::<(), Error>(e)));
                return Err(e);
            }
            assert(all_ok(outcomes));
        }
    }

    fn name(&self) -> Result<String, Error>;

    fn set_name(&mut self, name: &str) -> Result<(), Error>;

    fn enable(&mut self, value: bool) -> Result<(), Error>;

    /// Stores the flags if some are given, and returns those of the
    /// interface.
    fn flags(&self, flags: Option<i16>) -> Result<i16, Error>;

    fn address(&self) -> Result<Ipv4Address, Error>;

    fn set_address(&mut self, addr: Ipv4Address) -> Result<(), Error>;

    fn destination(&self) -> Result<Ipv4Address, Error>;

    fn set_destination(&mut self, addr: Ipv4Address) -> Result<(), Error>;

    fn broadcast(&self) -> Result<Ipv4Address, Error>;

    fn set_broadcast(&mut self, addr: Ipv4Address) -> Result<(), Error>;

    fn netmask(&self) -> Result<Ipv4Address, Error>;

    fn set_netmask(&mut self, addr: Ipv4Address) -> Result<(), Error>;

    fn mtu(&self) -> Result<i32, Error>;

    fn set_mtu(&mut self, mtu: i32) -> Result<(), Error>;

    fn queue(&mut self, index: usize) -> Option<&mut Self::Queue>;
}

} // verus!
