use crate::ruuvitag::{DeviceAddress, RuuviTag};
use std::collections::VecDeque;
use vstd::prelude::*;

verus! {

/// What the radio reports about a beacon.
#[derive(Clone, Copy, Debug)]
pub enum Event {
    DeviceDiscovered(RuuviTag),
    DeviceUpdated(RuuviTag),
}

impl Event {
    pub open spec fn tag(self) -> RuuviTag {
        match self {
            Event::DeviceDiscovered(t) => t,
            Event::DeviceUpdated(t) => t,
        }
    }
}

/// The run mode, chosen once: report new devices, show every reading, or pass
/// the updates of the listed devices (of every device, if the list is empty)
/// on to the sinks.
#[derive(Clone, Debug)]
pub enum Mode {
    Find,
    Show { normalize: bool },
    Collect { ruuvitags_macs: Vec<DeviceAddress> },
}

/// What is to be done with one event.
#[derive(Clone, Copy, Debug)]
pub enum Action {
    /// Nothing: the event is dropped without error.
    Skip,
    /// Report a newly discovered device.
    Announce(DeviceAddress),
    /// Print the reading.
    Show(RuuviTag),
    /// Hand the reading to every sink.
    Forward(RuuviTag),
}

/// Whether the allow-list `macs` lets readings of `mac` through.
pub open spec fn accepts(macs: Seq<DeviceAddress>, mac: DeviceAddress) -> bool {
    macs.len() == 0 || exists|i: int| 0 <= i < macs.len() && (#[trigger] macs[i]).address@ == mac.address@
}

/// Decides, event by event, according to the run mode.
#[derive(Clone, Debug)]
pub struct Controller {
    pub mode: Mode,
}

impl Controller {
    pub fn new(mode: Mode) -> (r: Controller)
        ensures
            r.mode == mode,
    {
        Controller { mode }
    }

    /// A controller that passes on the updates of the devices in
    /// `ruuvitags_macs`, or of all devices if it is empty.
    pub fn collect(ruuvitags_macs: Vec<DeviceAddress>) -> (r: Controller)
        ensures
            r.mode == (Mode::Collect { ruuvitags_macs }),
    {
        Controller { mode: Mode::Collect { ruuvitags_macs } }
    }

    /// A controller that reports each discovered device.
    pub fn find() -> (r: Controller)
        ensures
            r.mode == Mode::Find,
    {
        Controller { mode: Mode::Find }
    }

    /// A controller that shows every reading, normalized if `normalize`.
    pub fn write(normalize: bool) -> (r: Controller)
        ensures
            r.mode == (Mode::Show { normalize }),
    {
        Controller { mode: Mode::Show { normalize } }
    }

    /// The action for `event`.
    pub open spec fn decide(self, event: Event) -> Action {
        match self.mode {
            Mode::Find => match event {
                Event::DeviceDiscovered(t) => Action::Announce(t.mac),
                Event::DeviceUpdated(_) => Action::Skip,
            },
            Mode::Show { normalize } => Action::Show(
                if normalize {
                    event.tag().normalized()
                } else {
                    event.tag()
                },
            ),
            Mode::Collect { ruuvitags_macs } => match event {
                Event::DeviceDiscovered(_) => Action::Skip,
                Event::DeviceUpdated(t) => if accepts(ruuvitags_macs@, t.mac) {
                    Action::Forward(t)
                } else {
                    Action::Skip
                },
            },
        }
    }

    /// Whether the allow-list lets readings of `mac` through.
    pub fn is_allowed(macs: &Vec<DeviceAddress>, mac: &DeviceAddress) -> (r: bool)
        ensures
            r == accepts(macs@, *mac),
    {
        if macs.len() == 0 {
            return true;
        }
        let mut i: usize = 0;
        while i < macs.len()
            invariant
                0 <= i <= macs@.len(),
                forall|j: int| 0 <= j < i ==> (#[trigger] macs@[j]).address@ != mac.address@,
            decreases macs@.len() - i,
        {
            if macs[i].same_as(mac) {
                return true;
            }
            i = i + 1;
        }
        false
    }

    /// The action for `event`.
    pub fn handle(&self, event: &Event) -> (r: Action)
        ensures
            r == self.decide(*event),
    {
        match &self.mode {
            Mode::Find => match event {
                Event::DeviceDiscovered(t) => Action::Announce(t.mac),
                Event::DeviceUpdated(_) => Action::Skip,
            },
            Mode::Show { normalize } => {
                let tag = match event {
                    Event::DeviceDiscovered(t) => *t,
                    Event::DeviceUpdated(t) => *t,
                };
                if *normalize {
                    Action::Show(tag.normalize_sensor_values())
                } else {
                    Action::Show(tag)
                }
            },
            Mode::Collect { ruuvitags_macs } => match event {
                Event::DeviceDiscovered(_) => Action::Skip,
                Event::DeviceUpdated(t) => {
                    if Controller::is_allowed(ruuvitags_macs, &t.mac) {
                        Action::Forward(*t)
                    } else {
                        Action::Skip
                    }
                },
            },
        }
    }
}

/// The inbound queue of one sink: readings wait here, oldest first, until the
/// sink takes them. Once the sink has stopped reading, the queue is closed and
/// what is sent to it is dropped.
#[derive(Debug)]
pub struct SinkQueue {
    pub pending: VecDeque<RuuviTag>,
    pub open: bool,
}

/// A queue's readings and whether it is open.
pub type SinkState = (Seq<RuuviTag>, bool);

impl SinkQueue {
    pub open spec fn state(&self) -> SinkState {
        (self.pending@, self.open)
    }

    pub fn new() -> (r: SinkQueue)
        ensures
            r.state() == (Seq::<RuuviTag>::empty(), true),
    {
        SinkQueue { pending: VecDeque::new(), open: true }
    }

    /// Queues `tag` if the queue is open; never waits.
    pub fn send(&mut self, tag: RuuviTag)
        ensures
            final(self).state() == sent(old(self).state(), tag),
    {
        if self.open {
            self.pending.push_back(tag);
        }
    }

    /// The oldest waiting reading, if any.
    pub fn receive(&mut self) -> (r: Option<RuuviTag>)
        ensures
            old(self).pending@.len() == 0 ==> r is None && final(self).state() == old(self).state(),
            old(self).pending@.len() > 0 ==> r == Some(old(self).pending@[0]) && final(self).state()
                == (old(self).pending@.drop_first(), old(self).open),
    {
        self.pending.pop_front()
    }

    /// The sink has stopped reading: drop what waits and every later reading.
    pub fn close(&mut self)
        ensures
            final(self).state() == (Seq::<RuuviTag>::empty(), false),
    {
        self.pending.clear();
        self.open = false;
    }
}

/// A queue's state after `tag` is sent to it.
pub open spec fn sent(q: SinkState, tag: RuuviTag) -> SinkState {
    if q.1 {
        (q.0.push(tag), true)
    } else {
        q
    }
}

/// A queue's state after the dispatcher has taken `action`.
pub open spec fn after(q: SinkState, action: Action) -> SinkState {
    match action {
        Action::Forward(t) => sent(q, t),
        _ => q,
    }
}

/// A queue's state after the dispatcher has handled `events`, oldest first,
/// with no reading taken from the queue meanwhile.
pub open spec fn run(q: SinkState, c: Controller, events: Seq<Event>) -> SinkState
    decreases events.len(),
{
    if events.len() == 0 {
        q
    } else {
        after(run(q, c, events.drop_last()), c.decide(events.last()))
    }
}

/// The readings that `c` forwards for `events`, in order.
pub open spec fn forwarded(c: Controller, events: Seq<Event>) -> Seq<RuuviTag>
    decreases events.len(),
{
    if events.len() == 0 {
        Seq::empty()
    } else {
        match c.decide(events.last()) {
            Action::Forward(t) => forwarded(c, events.drop_last()).push(t),
            _ => forwarded(c, events.drop_last()),
        }
    }
}

/// Runs a controller and fans each forwarded reading out to every sink's queue.
#[derive(Debug)]
pub struct Dispatcher {
    pub controller: Controller,
    pub sinks: Vec<SinkQueue>,
}

impl Dispatcher {
    /// The state of every sink's queue, in order.
    pub open spec fn states(&self) -> Seq<SinkState> {
        Seq::new(self.sinks@.len(), |i: int| self.sinks@[i].state())
    }

    /// A dispatcher with `sink_count` open, empty sink queues.
    pub fn new(controller: Controller, sink_count: usize) -> (r: Dispatcher)
        ensures
            r.controller == controller,
            r.sinks@.len() == sink_count,
            forall|i: int|
                0 <= i < sink_count ==> (#[trigger] r.sinks@[i]).state() == (
                    Seq::<RuuviTag>::empty(),
                    true,
                ),
    {
        let mut sinks: Vec<SinkQueue> = Vec::new();
        let mut i: usize = 0;
        while i < sink_count
            invariant
                0 <= i <= sink_count,
                sinks@.len() == i,
                forall|j: int|
                    0 <= j < i ==> (#[trigger] sinks@[j]).state() == (
                        Seq::<RuuviTag>::empty(),
                        true,
                    ),
            decreases sink_count - i,
        {
            sinks.push(SinkQueue::new());
            i = i + 1;
        }
        Dispatcher { controller, sinks }
    }

    /// Decides on `event` and, for a forwarded reading, queues it on every
    /// open sink, each independently of the others.
    pub fn dispatch(&mut self, event: &Event) -> (r: Action)
        ensures
            r == old(self).controller.decide(*event),
            final(self).controller == old(self).controller,
            final(self).sinks@.len() == old(self).sinks@.len(),
            forall|i: int|
                0 <= i < old(self).sinks@.len() ==> (#[trigger] final(self).sinks@[i]).state()
                    == after(old(self).sinks@[i].state(), r),
            final(self).states() == step_all(old(self).states(), r),
    {
        let ghost before = self.states();
        let action = self.controller.handle(event);
        if let Action::Forward(tag) = action {
            let mut i: usize = 0;
            while i < self.sinks.len()
                invariant
                    0 <= i <= self.sinks@.len(),
                    self.sinks@.len() == old(self).sinks@.len(),
                    self.controller == old(self).controller,
                    action == Action::Forward(tag),
                    forall|j: int|
                        0 <= j < i ==> (#[trigger] self.sinks@[j]).state() == after(
                            old(self).sinks@[j].state(),
                            action,
                        ),
                    forall|j: int|
                        i <= j < self.sinks@.len() ==> (#[trigger] self.sinks@[j]) == old(
                            self,
                        ).sinks@[j],
                decreases self.sinks@.len() - i,
            {
                self.sinks[i].send(tag);
                i = i + 1;
            }
        }
        assert(self.states() =~= step_all(before, action));
        action
    }

    /// The oldest reading waiting for sink `sink`, if any.
    pub fn receive(&mut self, sink: usize) -> (r: Option<RuuviTag>)
        requires
            sink < old(self).sinks@.len(),
        ensures
            final(self).controller == old(self).controller,
            final(self).sinks@.len() == old(self).sinks@.len(),
            old(self).sinks@[sink as int].pending@.len() == 0 ==> r is None,
            old(self).sinks@[sink as int].pending@.len() > 0 ==> r == Some(
                old(self).sinks@[sink as int].pending@[0],
            ),
            final(self).sinks@[sink as int].state() == if old(
                self,
            ).sinks@[sink as int].pending@.len() == 0 {
                old(self).sinks@[sink as int].state()
            } else {
                (
                    old(self).sinks@[sink as int].pending@.drop_first(),
                    old(self).sinks@[sink as int].open,
                )
            },
            forall|i: int|
                0 <= i < old(self).sinks@.len() && i != sink ==> (#[trigger] final(self).sinks@[i])
                    == old(self).sinks@[i],
    {
        self.sinks[sink].receive()
    }

    /// Sink `sink` has stopped reading: later readings for it are dropped.
    pub fn close(&mut self, sink: usize)
        requires
            sink < old(self).sinks@.len(),
        ensures
            final(self).controller == old(self).controller,
            final(self).sinks@.len() == old(self).sinks@.len(),
            final(self).sinks@[sink as int].state() == (Seq::<RuuviTag>::empty(), false),
            forall|i: int|
                0 <= i < old(self).sinks@.len() && i != sink ==> (#[trigger] final(self).sinks@[i])
                    == old(self).sinks@[i],
    {
        self.sinks[sink].close();
    }
}

/// The states of all sinks' queues after the dispatcher has taken `action`.
pub open spec fn step_all(qs: Seq<SinkState>, action: Action) -> Seq<SinkState> {
    Seq::new(qs.len(), |i: int| after(qs[i], action))
}

/// The states of all sinks' queues after the dispatcher has handled `events`,
/// oldest first, with no reading taken meanwhile.
pub open spec fn run_all(qs: Seq<SinkState>, c: Controller, events: Seq<Event>) -> Seq<
    SinkState,
>
    decreases events.len(),
{
    if events.len() == 0 {
        qs
    } else {
        step_all(run_all(qs, c, events.drop_last()), c.decide(events.last()))
    }
}

proof fn lemma_run_all_per_sink(qs: Seq<SinkState>, c: Controller, events: Seq<Event>, i: int)
    requires
        0 <= i < qs.len(),
    ensures
        run_all(qs, c, events).len() == qs.len(),
        run_all(qs, c, events)[i] == run(qs[i], c, events),
    decreases events.len(),
{
    if events.len() > 0 {
        lemma_run_all_per_sink(qs, c, events.drop_last(), i);
    }
}

/// Two runs on the same events whose sinks differ only in sink `j` (say, one
/// whose reader has stalled with a long backlog and one whose reader keeps
/// up) leave every other sink `i` with the same queue after each event: an
/// open one holds what it held plus every reading forwarded so far, in order.
pub proof fn lemma_stalled_sink_adds_nothing(
    qs1: Seq<SinkState>,
    qs2: Seq<SinkState>,
    c: Controller,
    events: Seq<Event>,
    j: int,
    i: int,
)
    requires
        qs1.len() == qs2.len(),
        0 <= i < qs1.len(),
        i != j,
        forall|k: int| 0 <= k < qs1.len() && k != j ==> qs1[k] == qs2[k],
    ensures
        forall|n: int|
            0 <= n <= events.len() ==> #[trigger] run_all(qs1, c, events.take(n))[i] == run_all(
                qs2,
                c,
                events.take(n),
            )[i],
        forall|n: int|
            0 <= n <= events.len() ==> #[trigger] run_all(qs1, c, events.take(n))[i] == if qs1[i].1 {
                (qs1[i].0 + forwarded(c, events.take(n)), true)
            } else {
                qs1[i]
            },
{
    assert forall|n: int| 0 <= n <= events.len() implies #[trigger] run_all(
        qs1,
        c,
        events.take(n),
    )[i] == run_all(qs2, c, events.take(n))[i] && run_all(qs1, c, events.take(n))[i] == if qs1[i].1 {
        (qs1[i].0 + forwarded(c, events.take(n)), true)
    } else {
        qs1[i]
    } by {
        lemma_run_all_per_sink(qs1, c, events.take(n), i);
        lemma_run_all_per_sink(qs2, c, events.take(n), i);
        lemma_fanout_isolation(qs1[i], c, events.take(n));
    }
}

/// With an empty allow-list every update is forwarded; with a list of one
/// address, exactly the updates of that address are, and the others are
/// skipped without error. Discoveries are never forwarded.
pub proof fn lemma_allow_list(ruuvitags_macs: Vec<DeviceAddress>, tag: RuuviTag)
    ensures
        ruuvitags_macs@.len() == 0 ==> (Controller {
            mode: Mode::Collect { ruuvitags_macs },
        }).decide(Event::DeviceUpdated(tag)) == Action::Forward(tag),
        ruuvitags_macs@.len() == 1 ==> (Controller {
            mode: Mode::Collect { ruuvitags_macs },
        }).decide(Event::DeviceUpdated(tag)) == if ruuvitags_macs@[0].address@
            == tag.mac.address@ {
            Action::Forward(tag)
        } else {
            Action::Skip
        },
        (Controller { mode: Mode::Collect { ruuvitags_macs } }).decide(
            Event::DeviceDiscovered(tag),
        ) == Action::Skip,
{
    if ruuvitags_macs@.len() == 1 && ruuvitags_macs@[0].address@ == tag.mac.address@ {
        assert(accepts(ruuvitags_macs@, tag.mac));
    }
}

/// What a sink's queue holds after any run of events depends on that queue
/// and the events alone: an open queue gains every forwarded reading, in the
/// order of the events, however far behind another sink has fallen; a closed
/// one stays as it was.
pub proof fn lemma_fanout_isolation(q: SinkState, c: Controller, events: Seq<Event>)
    ensures
        run(q, c, events) == if q.1 {
            (q.0 + forwarded(c, events), true)
        } else {
            q
        },
    decreases events.len(),
{
    if events.len() > 0 {
        lemma_fanout_isolation(q, c, events.drop_last());
        if q.1 {
            match c.decide(events.last()) {
                Action::Forward(t) => {
                    assert(q.0 + forwarded(c, events.drop_last()).push(t) =~= (q.0 + forwarded(
                        c,
                        events.drop_last(),
                    )).push(t));
                },
                _ => {},
            }
        }
    } else {
        assert(q.0 + Seq::<RuuviTag>::empty() =~= q.0);
    }
}

} // verus!
