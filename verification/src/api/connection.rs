//! A gateway session: the handshake that opens it, the record that the
//! caller keeps of it, and the keepalive machine that holds it open.
//!
//! Nothing here reads a socket or a clock. Each machine takes what happened
//! and the time at which it happened, and says what to write and what to
//! remember; whoever owns the socket runs the loop.

use crate::api::frame::{heartbeat_frame, heartbeat_text, identify_frame, identify_text};
use crate::api::model::gateway::{Event, GatewayEvent, ReadyState, ReceiveError};
use crate::api::text::views;
use crate::api::websocket::WsEvent;
use vstd::prelude::*;

verus! {

/// The milliseconds between two polls of the keepalive loop.
pub const POLL_INTERVAL_MS: u64 = 100;

/// What the owner of a session tells its keepalive loop.
#[derive(Debug, Clone)]
pub enum KeepaliveCommand {
    /// Write this frame to the socket.
    SendPayload(String),
    /// The last sequence number seen is now this one.
    UpdateSequence(usize),
    /// Heartbeats are from now on this many milliseconds apart.
    ChangeInterval(usize),
    /// Stop.
    Abort,
}

/// The keepalive machine of one connection. Times are in milliseconds on
/// whatever clock the caller reads; only their differences count.
#[derive(Debug, Clone, Copy, PartialEq, Eq)]
pub struct Keepalive {
    /// The milliseconds between two heartbeats.
    pub interval: usize,
    /// When the next heartbeat is due.
    pub next_tick_at: u64,
    /// The last sequence number seen, which every heartbeat echoes.
    pub last_sequence: Option<usize>,
    /// Whether the machine still writes to the socket.
    pub running: bool,
}

/// `now + interval`, or the last moment there is where that lies beyond it.
pub open spec fn deadline(now: u64, interval: usize) -> u64 {
    if now + interval > u64::MAX {
        u64::MAX
    } else {
        (now + interval) as u64
    }
}

impl Keepalive {
    /// The machine as it starts at `now` with the interval that the gateway
    /// named.
    pub open spec fn started(interval: usize, now: u64) -> Keepalive {
        Keepalive {
            interval,
            next_tick_at: deadline(now, interval),
            last_sequence: None,
            running: true,
        }
    }

    /// The machine once it has stopped.
    pub open spec fn stopped(self) -> Keepalive {
        Keepalive { running: false, ..self }
    }

    /// The machine after a command that came at `now`. A stopped machine
    /// takes no command.
    pub open spec fn after(self, command: KeepaliveCommand, now: u64) -> Keepalive {
        if !self.running {
            self
        } else {
            match command {
                KeepaliveCommand::SendPayload(_) => self,
                KeepaliveCommand::UpdateSequence(sequence) => Keepalive {
                    last_sequence: Some(sequence),
                    ..self
                },
                KeepaliveCommand::ChangeInterval(interval) => Keepalive {
                    interval,
                    next_tick_at: deadline(now, interval),
                    ..self
                },
                KeepaliveCommand::Abort => self.stopped(),
            }
        }
    }

    /// What a command makes the machine write: the payload of a
    /// `SendPayload`, and nothing else.
    pub open spec fn written_for(self, command: KeepaliveCommand) -> Option<Seq<char>> {
        match command {
            KeepaliveCommand::SendPayload(payload) if self.running => Some(payload@),
            _ => None,
        }
    }

    /// The machine after each of `commands`, all of which came at `now`.
    pub open spec fn after_all(self, commands: Seq<KeepaliveCommand>, now: u64) -> Keepalive
        decreases commands.len(),
    {
        if commands.len() == 0 {
            self
        } else {
            self.after_all(commands.drop_last(), now).after(commands.last(), now)
        }
    }

    /// What `commands` make the machine write, in their order.
    pub open spec fn written_for_all(self, commands: Seq<KeepaliveCommand>, now: u64) -> Seq<
        Seq<char>,
    >
        decreases commands.len(),
    {
        if commands.len() == 0 {
            Seq::empty()
        } else {
            let earlier = self.written_for_all(commands.drop_last(), now);
            match self.after_all(commands.drop_last(), now).written_for(commands.last()) {
                Some(text) => earlier.push(text),
                None => earlier,
            }
        }
    }

    /// Whether a heartbeat is due at `now`.
    pub open spec fn due(self, now: u64) -> bool {
        self.running && now >= self.next_tick_at
    }

    /// The machine after the clock was looked at: where a heartbeat was
    /// due, the next one is due an interval after this one was.
    pub open spec fn after_tick(self, now: u64) -> Keepalive {
        if self.due(now) {
            Keepalive { next_tick_at: deadline(self.next_tick_at, self.interval), ..self }
        } else {
            self
        }
    }

    /// What the machine writes when the clock is looked at: a heartbeat
    /// with the last sequence number seen where one is due.
    pub open spec fn written_at(self, now: u64) -> Option<Seq<char>> {
        if self.due(now) {
            Some(heartbeat_text(self.last_sequence))
        } else {
            None
        }
    }

    /// The machine as the commands of one poll leave it, before the clock
    /// is looked at: a closed command channel stops it as `Abort` does.
    pub open spec fn drained(
        self,
        commands: Seq<KeepaliveCommand>,
        closed: bool,
        now: u64,
    ) -> Keepalive {
        if closed {
            self.after_all(commands, now).stopped()
        } else {
            self.after_all(commands, now)
        }
    }

    /// The machine after one poll at `now`: the pending commands, then the
    /// clock.
    pub open spec fn polled(
        self,
        commands: Seq<KeepaliveCommand>,
        closed: bool,
        now: u64,
    ) -> Keepalive {
        self.drained(commands, closed, now).after_tick(now)
    }

    /// What one poll at `now` writes: the payloads, then the heartbeat
    /// where one is due.
    pub open spec fn written_in_poll(
        self,
        commands: Seq<KeepaliveCommand>,
        closed: bool,
        now: u64,
    ) -> Seq<Seq<char>> {
        let payloads = self.written_for_all(commands, now);
        match self.drained(commands, closed, now).written_at(now) {
            Some(heartbeat) => payloads.push(heartbeat),
            None => payloads,
        }
    }

    /// The machine after polls without commands at each of `times`.
    pub open spec fn ticked(self, times: Seq<u64>) -> Keepalive
        decreases times.len(),
    {
        if times.len() == 0 {
            self
        } else {
            self.ticked(times.drop_last()).after_tick(times.last())
        }
    }

    /// Those of `times` at which a poll without commands wrote a heartbeat.
    pub open spec fn beats(self, times: Seq<u64>) -> Seq<u64>
        decreases times.len(),
    {
        if times.len() == 0 {
            Seq::empty()
        } else if self.ticked(times.drop_last()).due(times.last()) {
            self.beats(times.drop_last()).push(times.last())
        } else {
            self.beats(times.drop_last())
        }
    }

    /// Starts the machine at `now` with the interval that the gateway
    /// named.
    pub fn new(interval: usize, now: u64) -> (r: Keepalive)
        ensures
            r == Keepalive::started(interval, now),
    {
        Keepalive {
            interval,
            next_tick_at: later(now, interval),
            last_sequence: None,
            running: true,
        }
    }

    /// Takes one command that came at `now` and returns what it makes the
    /// machine write.
    pub fn command(&mut self, command: &KeepaliveCommand, now: u64) -> (r: Option<String>)
        ensures
            *final(self) == old(self).after(*command, now),
            r is Some == old(self).written_for(*command) is Some,
            r matches Some(text) ==> text@ == old(self).written_for(*command)->0,
    {
        if !self.running {
            return None;
        }
        match command {
            KeepaliveCommand::SendPayload(payload) => Some(payload.clone()),
            KeepaliveCommand::UpdateSequence(sequence) => {
                self.last_sequence = Some(*sequence);
                None
            },
            KeepaliveCommand::ChangeInterval(interval) => {
                self.interval = *interval;
                self.next_tick_at = later(now, *interval);
                None
            },
            KeepaliveCommand::Abort => {
                self.running = false;
                None
            },
        }
    }

    /// Stops the machine: the command channel was closed.
    pub fn close(&mut self)
        ensures
            *final(self) == old(self).stopped(),
    {
        self.running = false;
    }

    /// Looks at the clock and returns the heartbeat where one is due.
    pub fn tick(&mut self, now: u64) -> (r: Option<String>)
        ensures
            *final(self) == old(self).after_tick(now),
            r is Some == old(self).written_at(now) is Some,
            r matches Some(text) ==> text@ == old(self).written_at(now)->0,
    {
        if self.running && now >= self.next_tick_at {
            self.next_tick_at = later(self.next_tick_at, self.interval);
            Some(heartbeat_frame(self.last_sequence))
        } else {
            None
        }
    }

    /// One poll of the loop at `now`: takes the pending commands in their
    /// order, stops where the channel was closed behind them, then looks at
    /// the clock. Returns the frames to write, in the order in which to
    /// write them.
    pub fn poll(&mut self, commands: &Vec<KeepaliveCommand>, closed: bool, now: u64) -> (r: Vec<
        String,
    >)
        ensures
            *final(self) == old(self).polled(commands@, closed, now),
            views(r@) == old(self).written_in_poll(commands@, closed, now),
    {
        let ghost start = *self;
        let mut out: Vec<String> = Vec::new();
        let mut i: usize = 0;
        assert(commands@.take(0) =~= Seq::<KeepaliveCommand>::empty());
        assert(views(out@) =~= Seq::<Seq<char>>::empty());
        while i < commands.len()
            invariant
                i <= commands.len(),
                *self == start.after_all(commands@.take(i as int), now),
                views(out@) == start.written_for_all(commands@.take(i as int), now),
            decreases commands.len() - i,
        {
            proof {
                let t = commands@.take(i + 1);
                assert(t.drop_last() =~= commands@.take(i as int));
                assert(t.last() == commands@[i as int]);
            }
            let ghost before = out@;
            match self.command(&commands[i], now) {
                Some(text) => {
                    out.push(text);
                    assert(views(out@) =~= views(before).push(text@));
                },
                None => {},
            }
            i += 1;
        }
        assert(commands@.take(i as int) =~= commands@);
        if closed {
            self.close();
        }
        let ghost before = out@;
        match self.tick(now) {
            Some(text) => {
                out.push(text);
                assert(views(out@) =~= views(before).push(text@));
            },
            None => {},
        }
        out
    }
}

/// `now + interval`, or the last moment there is.
fn later(now: u64, interval: usize) -> (r: u64)
    ensures
        r == deadline(now, interval),
{
    let interval = interval as u64;
    if interval > u64::MAX - now {
        u64::MAX
    } else {
        now + interval
    }
}

/// Whether polls at `times` follow `start` and one another by no more than
/// `tick` milliseconds each.
pub open spec fn paced(start: u64, times: Seq<u64>, tick: u64) -> bool {
    &&& times.len() > 0 ==> start <= times[0] <= start + tick
    &&& forall|i: int|
        0 < i < times.len() ==> times[i - 1] <= #[trigger] times[i] <= times[i - 1] + tick
}

/// Heartbeats go out on schedule. A machine that starts at `start` with an
/// interval and is polled without commands, each poll no more than `tick`
/// after the one before and `tick` no longer than the interval, writes its
/// first heartbeat an interval after `start`, its second two intervals
/// after `start`, and so on, each no more than `tick` late; and after every
/// poll no heartbeat is overdue.
pub proof fn lemma_heartbeats_on_schedule(interval: usize, start: u64, times: Seq<u64>, tick: u64)
    requires
        paced(start, times, tick),
        tick <= interval,
        times.len() > 0 ==> times.last() + interval <= u64::MAX,
        start + interval <= u64::MAX,
    ensures
        ({
            let machine = Keepalive::started(interval, start);
            let beats = machine.beats(times);
            let end = machine.ticked(times);
            &&& forall|m: int|
                0 <= m < beats.len() ==> start + (m + 1) * interval <= #[trigger] beats[m] <= start
                    + (m + 1) * interval + tick
            &&& end.next_tick_at == start + (beats.len() + 1) * interval
            &&& end.running
            &&& end.interval == interval
            &&& times.len() > 0 ==> times.last() <= end.next_tick_at
        }),
    decreases times.len(),
{
    let machine = Keepalive::started(interval, start);
    if times.len() == 0 {
        assert((0 + 1) * interval == interval) by (nonlinear_arith);
    } else {
        let earlier = times.drop_last();
        let t = times.last();
        let n = times.len() - 1;
        assert(paced(start, earlier, tick)) by {
            assert forall|i: int| 0 < i < earlier.len() implies earlier[i - 1]
                <= #[trigger] earlier[i] <= earlier[i - 1] + tick by {
                assert(earlier[i] == times[i]);
                assert(earlier[i - 1] == times[i - 1]);
            }
            if earlier.len() > 0 {
                assert(earlier[0] == times[0]);
            }
        }
        if earlier.len() > 0 {
            assert(earlier.last() == times[n - 1]);
            assert(times[n - 1] <= times[n]);
        }
        lemma_heartbeats_on_schedule(interval, start, earlier, tick);
        let before = machine.ticked(earlier);
        let sent = machine.beats(earlier).len();
        assert(t <= before.next_tick_at + tick) by {
            if earlier.len() == 0 {
                assert((0 + 1) * interval == interval) by (nonlinear_arith);
            }
        }
        assert((sent + 1 + 1) * interval == (sent + 1) * interval + interval)
            by (nonlinear_arith);
    }
}

/// The heartbeat that follows `UpdateSequence(n)` carries `n`: whatever
/// the machine had seen before, once it has taken the command the next
/// heartbeat it writes is the one for `n`.
pub proof fn lemma_heartbeat_carries_latest_sequence(
    machine: Keepalive,
    sequence: usize,
    at: u64,
    now: u64,
)
    requires
        machine.running,
        now >= machine.next_tick_at,
    ensures
        machine.after(KeepaliveCommand::UpdateSequence(sequence), at).written_at(now) == Some(
            heartbeat_text(Some(sequence)),
        ),
        machine.written_in_poll(seq![KeepaliveCommand::UpdateSequence(sequence)], false, now)
            == seq![heartbeat_text(Some(sequence))],
{
    let commands = seq![KeepaliveCommand::UpdateSequence(sequence)];
    assert(commands.drop_last() =~= Seq::<KeepaliveCommand>::empty());
    assert(machine.after_all(commands.drop_last(), now) == machine);
    assert(machine.written_for_all(commands.drop_last(), now) =~= Seq::<Seq<char>>::empty());
    assert(machine.written_in_poll(commands, false, now) =~= seq![
        heartbeat_text(Some(sequence)),
    ]);
}

/// A stopped machine stays stopped and writes nothing, whatever commands
/// come.
pub proof fn lemma_stopped_stays_silent(
    machine: Keepalive,
    commands: Seq<KeepaliveCommand>,
    now: u64,
)
    requires
        !machine.running,
    ensures
        machine.after_all(commands, now) == machine,
        machine.written_for_all(commands, now) == Seq::<Seq<char>>::empty(),
    decreases commands.len(),
{
    if commands.len() > 0 {
        lemma_stopped_stays_silent(machine, commands.drop_last(), now);
    }
}

/// `Abort` and a closed command channel end the heartbeats at once: the
/// poll in which either comes writes no heartbeat, and no later poll
/// writes anything or changes the machine.
pub proof fn lemma_abort_ends_heartbeats(
    machine: Keepalive,
    now: u64,
    commands: Seq<KeepaliveCommand>,
    closed: bool,
    later: u64,
)
    ensures
        machine.written_in_poll(seq![KeepaliveCommand::Abort], false, now) == Seq::<
            Seq<char>,
        >::empty(),
        machine.written_in_poll(Seq::empty(), true, now) == Seq::<Seq<char>>::empty(),
        !machine.polled(seq![KeepaliveCommand::Abort], false, now).running,
        !machine.polled(Seq::empty(), true, now).running,
        !machine.running ==> machine.polled(commands, closed, later) == machine,
        !machine.running ==> machine.written_in_poll(commands, closed, later) == Seq::<
            Seq<char>,
        >::empty(),
{
    let abort = seq![KeepaliveCommand::Abort];
    assert(abort.drop_last() =~= Seq::<KeepaliveCommand>::empty());
    assert(machine.after_all(abort.drop_last(), now) == machine);
    assert(machine.written_for_all(abort.drop_last(), now) =~= Seq::<Seq<char>>::empty());
    assert(!machine.after_all(abort, now).running);
    assert(machine.written_in_poll(abort, false, now) =~= Seq::<Seq<char>>::empty());
    assert(machine.written_in_poll(Seq::empty(), true, now) =~= Seq::<Seq<char>>::empty());
    if !machine.running {
        lemma_stopped_stays_silent(machine, commands, later);
    }
}

/// What the reading side of a session does with what it received.
#[derive(Debug, Clone)]
pub enum Inbound {
    /// Hand the event on to the owner of the session.
    Forward(GatewayEvent),
    /// Log the error and read on: one frame that cannot be used does not
    /// end a session.
    Drop(ReceiveError),
    /// Stop reading: the socket is gone.
    End(ReceiveError),
}

/// Decides what the reading side does with what it received. An event is
/// handed on; a socket that failed or was closed ends the reading; anything
/// else is dropped.
pub fn inbound(received: Result<GatewayEvent, ReceiveError>) -> (r: Inbound)
    ensures
        match received {
            Ok(event) => r == Inbound::Forward(event),
            Err(ReceiveError::Transport(reason)) => r == Inbound::End(
                ReceiveError::Transport(reason),
            ),
            Err(ReceiveError::Closed) => r == Inbound::End(ReceiveError::Closed),
            Err(error) => r == Inbound::Drop(error),
        },
{
    match received {
        Ok(event) => Inbound::Forward(event),
        Err(ReceiveError::Transport(reason)) => Inbound::End(ReceiveError::Transport(reason)),
        Err(ReceiveError::Closed) => Inbound::End(ReceiveError::Closed),
        Err(error) => Inbound::Drop(error),
    }
}

/// How far the handshake of a session has come.
#[derive(Debug, Clone, Copy, PartialEq, Eq)]
pub enum Phase {
    /// The socket has not yet said that it is open.
    AwaitingOpen,
    /// The identify frame is out; the gateway has not yet said hello.
    AwaitingHello,
    /// The keepalive loop runs; the gateway has not yet said that the
    /// session is ready.
    AwaitingReady,
    /// The session stands.
    Established,
    /// The handshake has failed for good.
    Failed,
}

/// One step of a handshake, with what the caller hands over in it.
pub enum Step {
    /// The first report of the socket.
    Opened(WsEvent),
    /// The first frame, as it was received.
    Greeted(Result<GatewayEvent, ReceiveError>),
    /// The first event that the keepalive loop hands on.
    Readied(GatewayEvent),
}

impl Phase {
    /// Whether `step`, taken in this phase, writes the identify frame.
    pub open spec fn identifies(self, step: Step) -> bool {
        self == Phase::AwaitingOpen && step matches Step::Opened(WsEvent::Opened)
    }

    /// Whether `step`, taken in this phase, accepts the gateway's hello.
    pub open spec fn greets(self, step: Step) -> bool {
        self == Phase::AwaitingHello && step matches Step::Greeted(Ok(GatewayEvent::Hello(_)))
    }

    /// Whether `step`, taken in this phase, establishes the session.
    pub open spec fn establishes(self, step: Step) -> bool {
        self == Phase::AwaitingReady && step matches Step::Readied(
            GatewayEvent::Dispatch(_, Event::Ready(_)),
        )
    }

    /// Whether `step` belongs to this phase.
    pub open spec fn expects(self, step: Step) -> bool {
        match step {
            Step::Opened(_) => self == Phase::AwaitingOpen,
            Step::Greeted(_) => self == Phase::AwaitingHello,
            Step::Readied(_) => self == Phase::AwaitingReady,
        }
    }

    /// The phase that follows this one on `step`. A step that does not
    /// belong to the phase changes nothing; one that belongs to it moves
    /// the handshake on or fails it.
    pub open spec fn after(self, step: Step) -> Phase {
        if !self.expects(step) {
            self
        } else if self.identifies(step) {
            Phase::AwaitingHello
        } else if self.greets(step) {
            Phase::AwaitingReady
        } else if self.establishes(step) {
            Phase::Established
        } else {
            Phase::Failed
        }
    }

    /// The phase that follows this one on each of `steps` in turn.
    pub open spec fn after_all(self, steps: Seq<Step>) -> Phase
        decreases steps.len(),
    {
        if steps.len() == 0 {
            self
        } else {
            self.after_all(steps.drop_last()).after(steps.last())
        }
    }

    /// How many identify frames `steps` write, taken in turn from this
    /// phase on.
    pub open spec fn identified(self, steps: Seq<Step>) -> nat
        decreases steps.len(),
    {
        if steps.len() == 0 {
            0
        } else if self.after_all(steps.drop_last()).identifies(steps.last()) {
            self.identified(steps.drop_last()) + 1
        } else {
            self.identified(steps.drop_last())
        }
    }
}

/// Why a handshake failed. After every one of these but `OutOfOrder` the
/// caller starts over with a new socket.
#[derive(Debug, Clone)]
pub enum HandshakeError {
    /// The socket reported something else before it reported that it is
    /// open.
    NotOpened,
    /// No frame could be had where the hello was expected.
    Receive(ReceiveError),
    /// The first frame was no hello.
    ExpectedHello,
    /// The gateway invalidated the session before it was ready.
    SessionInvalidated,
    /// The first event was not the one that says that the session is
    /// ready.
    ExpectedReady,
    /// The step does not belong to the phase that the handshake is in.
    OutOfOrder,
}

/// The record that the caller keeps of a session that stands.
#[derive(Debug, Clone)]
pub struct Connection {
    /// The session's id.
    pub session_id: Option<String>,
    /// The last sequence number seen. It never goes down.
    pub last_sequence: usize,
    /// The identify frame with which the session was opened.
    pub identify: String,
    /// The address of the gateway.
    pub ws_url: String,
}

/// The sequence number that a gateway event carries.
pub open spec fn sequence_of(event: GatewayEvent) -> Option<usize> {
    match event {
        GatewayEvent::Dispatch(sequence, _) => Some(sequence),
        GatewayEvent::Heartbeat(sequence) => Some(sequence),
        _ => None,
    }
}

/// The last sequence number seen once `event` has been seen too: the
/// greater of the two.
pub open spec fn sequence_after(last: usize, event: GatewayEvent) -> usize {
    match sequence_of(event) {
        Some(sequence) if sequence > last => sequence,
        _ => last,
    }
}

impl Connection {
    /// The record of a session that the gateway has just declared ready.
    pub fn new(url: &str, identify: String, sequence: usize, ready: &ReadyState) -> (r: Connection)
        ensures
            r.session_id matches Some(id) && id@ == ready.session_id@,
            r.last_sequence == sequence,
            r.identify == identify,
            r.ws_url@ == url@,
    {
        Connection {
            session_id: Some(ready.session_id.clone()),
            last_sequence: sequence,
            identify,
            ws_url: url.to_owned(),
        }
    }

    /// Takes note of an event that the gateway sent. Where the event
    /// carries a sequence number greater than the last one seen, the
    /// record moves on to it, and the command that tells the keepalive
    /// loop so is returned.
    pub fn observe(&mut self, event: &GatewayEvent) -> (r: Option<KeepaliveCommand>)
        ensures
            final(self).last_sequence == sequence_after(old(self).last_sequence, *event),
            final(self).last_sequence >= old(self).last_sequence,
            final(self).session_id == old(self).session_id,
            final(self).identify == old(self).identify,
            final(self).ws_url == old(self).ws_url,
            final(self).last_sequence == old(self).last_sequence ==> r is None,
            final(self).last_sequence != old(self).last_sequence ==> r == Some(
                KeepaliveCommand::UpdateSequence(final(self).last_sequence),
            ),
    {
        let seen = match event {
            GatewayEvent::Dispatch(sequence, _) => Some(*sequence),
            GatewayEvent::Heartbeat(sequence) => Some(*sequence),
            _ => None,
        };
        match seen {
            Some(sequence) => if sequence > self.last_sequence {
                self.last_sequence = sequence;
                Some(KeepaliveCommand::UpdateSequence(sequence))
            } else {
                None
            },
            None => None,
        }
    }
}

/// The handshake that opens a session, step by step. The caller opens the
/// socket and hands over what comes out of it; the handshake says what to
/// write and when the session stands.
#[derive(Debug, Clone)]
pub struct Handshake {
    /// How far the handshake has come.
    pub phase: Phase,
    /// The address of the gateway.
    pub url: String,
    /// The identify frame, written once, as soon as the socket is open.
    pub identify: String,
}

impl Handshake {
    /// Whether `after` is `before` in another phase.
    pub open spec fn moved(before: Handshake, after: Handshake, phase: Phase) -> bool {
        after.phase == phase && after.url == before.url && after.identify == before.identify
    }

    /// Whether `after` and `r` are what the first report of the socket
    /// leads to. Out of its phase the step changes nothing. In its phase,
    /// the report that the socket is open moves the handshake on and gives
    /// the identify frame; any other report fails it.
    pub open spec fn opened_as(
        before: Handshake,
        event: WsEvent,
        after: Handshake,
        r: Result<String, HandshakeError>,
    ) -> bool {
        &&& after.phase == before.phase.after(Step::Opened(event))
        &&& if before.phase != Phase::AwaitingOpen {
            after == before && r matches Err(HandshakeError::OutOfOrder)
        } else if event is Opened {
            &&& Handshake::moved(before, after, Phase::AwaitingHello)
            &&& r matches Ok(frame)
            &&& frame@ == before.identify@
        } else {
            &&& Handshake::moved(before, after, Phase::Failed)
            &&& r matches Err(HandshakeError::NotOpened)
        }
    }

    /// Whether `after` and `r` are what the first frame leads to. Out of
    /// its phase the step changes nothing. In its phase, a hello moves the
    /// handshake on and gives the heartbeat interval; any other frame, and
    /// any failure to receive one, fails it.
    pub open spec fn greeted_as(
        before: Handshake,
        received: Result<GatewayEvent, ReceiveError>,
        after: Handshake,
        r: Result<usize, HandshakeError>,
    ) -> bool {
        &&& after.phase == before.phase.after(Step::Greeted(received))
        &&& if before.phase != Phase::AwaitingHello {
            after == before && r matches Err(HandshakeError::OutOfOrder)
        } else {
            match received {
                Ok(GatewayEvent::Hello(interval)) => {
                    &&& Handshake::moved(before, after, Phase::AwaitingReady)
                    &&& r matches Ok(i)
                    &&& i == interval
                },
                Ok(_) => {
                    &&& Handshake::moved(before, after, Phase::Failed)
                    &&& r matches Err(HandshakeError::ExpectedHello)
                },
                Err(error) => {
                    &&& Handshake::moved(before, after, Phase::Failed)
                    &&& r matches Err(HandshakeError::Receive(e))
                    &&& e == error
                },
            }
        }
    }

    /// Whether `after` and `r` are what the first event leads to. Out of
    /// its phase the step changes nothing. In its phase, the event that
    /// says that the session is ready establishes it, with the event's
    /// sequence number and the session's id in the record; an invalidated
    /// session and any other event fail the handshake.
    pub open spec fn readied_as(
        before: Handshake,
        event: GatewayEvent,
        after: Handshake,
        r: Result<(Connection, ReadyState), HandshakeError>,
    ) -> bool {
        &&& after.phase == before.phase.after(Step::Readied(event))
        &&& if before.phase != Phase::AwaitingReady {
            after == before && r matches Err(HandshakeError::OutOfOrder)
        } else {
            match event {
                GatewayEvent::Dispatch(sequence, Event::Ready(ready)) => {
                    &&& Handshake::moved(before, after, Phase::Established)
                    &&& r matches Ok((connection, state))
                    &&& state == ready
                    &&& connection.session_id matches Some(id)
                    &&& id@ == ready.session_id@
                    &&& connection.last_sequence == sequence
                    &&& connection.identify@ == before.identify@
                    &&& connection.ws_url@ == before.url@
                },
                GatewayEvent::InvalidateSession => {
                    &&& Handshake::moved(before, after, Phase::Failed)
                    &&& r matches Err(HandshakeError::SessionInvalidated)
                },
                _ => {
                    &&& Handshake::moved(before, after, Phase::Failed)
                    &&& r matches Err(HandshakeError::ExpectedReady)
                },
            }
        }
    }

    /// A handshake for the gateway at `url`, with the token of the account
    /// and the name of the operating system.
    pub fn new(url: &str, token: &str, os: &str) -> (r: Handshake)
        ensures
            r.phase == Phase::AwaitingOpen,
            r.url@ == url@,
            r.identify@ == identify_text(token@, os@),
    {
        Handshake {
            phase: Phase::AwaitingOpen,
            url: url.to_owned(),
            identify: identify_frame(token, os),
        }
    }

    /// The first thing that the socket reports. It has to be that the
    /// socket is open; then the identify frame is returned, to be written
    /// at once.
    pub fn opened(&mut self, event: &WsEvent) -> (r: Result<String, HandshakeError>)
        ensures
            Handshake::opened_as(*old(self), *event, *final(self), r),
    {
        match self.phase {
            Phase::AwaitingOpen => match event {
                WsEvent::Opened => {
                    self.phase = Phase::AwaitingHello;
                    Ok(self.identify.clone())
                },
                _ => {
                    self.phase = Phase::Failed;
                    Err(HandshakeError::NotOpened)
                },
            },
            _ => Err(HandshakeError::OutOfOrder),
        }
    }

    /// The first frame after the identify frame, as it was received. It has
    /// to be the hello; then the heartbeat interval that it names is
    /// returned, and the keepalive loop is to be started with it.
    pub fn greeted(&mut self, received: Result<GatewayEvent, ReceiveError>) -> (r: Result<
        usize,
        HandshakeError,
    >)
        ensures
            Handshake::greeted_as(*old(self), received, *final(self), r),
    {
        match self.phase {
            Phase::AwaitingHello => match received {
                Ok(GatewayEvent::Hello(interval)) => {
                    self.phase = Phase::AwaitingReady;
                    Ok(interval)
                },
                Ok(_) => {
                    self.phase = Phase::Failed;
                    Err(HandshakeError::ExpectedHello)
                },
                Err(error) => {
                    self.phase = Phase::Failed;
                    Err(HandshakeError::Receive(error))
                },
            },
            _ => Err(HandshakeError::OutOfOrder),
        }
    }

    /// The first event that the keepalive loop hands on. It has to say
    /// that the session is ready; then the session stands, and its record
    /// is returned with what the gateway said of it.
    pub fn readied(&mut self, event: GatewayEvent) -> (r: Result<
        (Connection, ReadyState),
        HandshakeError,
    >)
        ensures
            Handshake::readied_as(*old(self), event, *final(self), r),
    {
        match self.phase {
            Phase::AwaitingReady => match event {
                GatewayEvent::Dispatch(sequence, Event::Ready(ready)) => {
                    self.phase = Phase::Established;
                    let connection = Connection::new(
                        self.url.as_str(),
                        self.identify.clone(),
                        sequence,
                        &ready,
                    );
                    Ok((connection, ready))
                },
                GatewayEvent::InvalidateSession => {
                    self.phase = Phase::Failed;
                    Err(HandshakeError::SessionInvalidated)
                },
                _ => {
                    self.phase = Phase::Failed;
                    Err(HandshakeError::ExpectedReady)
                },
            },
            _ => Err(HandshakeError::OutOfOrder),
        }
    }
}

/// The sequence number of a session never goes down, whatever events are
/// seen in whatever order.
pub proof fn lemma_sequence_never_goes_down(last: usize, event: GatewayEvent)
    ensures
        sequence_after(last, event) >= last,
        sequence_of(event) matches Some(sequence) ==> sequence_after(last, event) >= sequence,
        sequence_of(event) is None ==> sequence_after(last, event) == last,
{
}

/// The identify frame is written once per socket, and before the hello is
/// taken: whatever steps a handshake is asked to take, in whatever order,
/// it writes the identify frame at most once; it has written it exactly
/// once by the time it accepts a hello, and it has written none while it
/// still waits for the socket to open.
pub proof fn lemma_identify_once_before_hello(steps: Seq<Step>)
    ensures
        Phase::AwaitingOpen.identified(steps) <= 1,
        Phase::AwaitingOpen.after_all(steps) == Phase::AwaitingOpen
            ==> Phase::AwaitingOpen.identified(steps) == 0,
        Phase::AwaitingOpen.after_all(steps) == Phase::AwaitingHello
            || Phase::AwaitingOpen.after_all(steps) == Phase::AwaitingReady
            || Phase::AwaitingOpen.after_all(steps) == Phase::Established
            ==> Phase::AwaitingOpen.identified(steps) == 1,
        forall|k: int|
            0 <= k < steps.len() && (#[trigger] Phase::AwaitingOpen.after_all(steps.take(k))).greets(
                steps[k],
            ) ==> Phase::AwaitingOpen.identified(steps.take(k)) == 1,
    decreases steps.len(),
{
    if steps.len() > 0 {
        let earlier = steps.drop_last();
        lemma_identify_once_before_hello(earlier);
        assert forall|k: int|
            0 <= k < steps.len() && (#[trigger] Phase::AwaitingOpen.after_all(steps.take(k))).greets(
                steps[k],
            ) implies Phase::AwaitingOpen.identified(steps.take(k)) == 1 by {
            if k < steps.len() - 1 {
                assert(earlier.take(k) =~= steps.take(k));
                assert(earlier[k] == steps[k]);
            } else {
                assert(steps.take(k) =~= earlier);
            }
        }
    }
}

/// The interval in force is that of the latest `ChangeInterval`: a running
/// machine that takes one has its interval from then on, and no other
/// command touches it.
pub proof fn lemma_interval_in_force(machine: Keepalive, command: KeepaliveCommand, now: u64)
    requires
        machine.running,
    ensures
        command matches KeepaliveCommand::ChangeInterval(interval) ==> machine.after(
            command,
            now,
        ).interval == interval,
        !(command is ChangeInterval) ==> machine.after(command, now).interval == machine.interval,
        machine.after_tick(now).interval == machine.interval,
{
}

} // verus!
