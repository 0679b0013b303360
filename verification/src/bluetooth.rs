use vstd::prelude::*;
use vstd::string::StringExecFns;

use crate::alert::Alert;
use crate::error::FeedError;
use crate::pipeline;

verus! {

/// Power state of the bluetooth radio, as the platform reports it: one byte
/// per device, read from the rfkill interface.
#[derive(Clone, Copy, PartialEq, Eq, Structural, Debug)]
pub enum DeviceState {
    NoDev,
    OffHard,
    OffSoft,
    On,
}

impl DeviceState {
    /// Decodes the rfkill state byte: 0 is soft-off, 1 is on, 2 is hard-off,
    /// 254 is "no device".  Every other byte is an invariant violation, never
    /// a silent default.
    pub fn from_byte(b: u8) -> (r: Result<DeviceState, FeedError>)
        ensures
            (r is Ok) <==> (b == 0 || b == 1 || b == 2 || b == 254),
            b == 0 ==> r == Ok::<DeviceState, FeedError>(DeviceState::OffSoft),
            b == 1 ==> r == Ok::<DeviceState, FeedError>(DeviceState::On),
            b == 2 ==> r == Ok::<DeviceState, FeedError>(DeviceState::OffHard),
            b == 254 ==> r == Ok::<DeviceState, FeedError>(DeviceState::NoDev),
            (r is Err) ==> r == Err::<DeviceState, FeedError>(FeedError::InvalidStateByte(b)),
    {
        match b {
            0 => Ok(DeviceState::OffSoft),
            1 => Ok(DeviceState::On),
            2 => Ok(DeviceState::OffHard),
            254 => Ok(DeviceState::NoDev),
            _ => Err(FeedError::InvalidStateByte(b)),
        }
    }
}

/// The two-character symbol a device state renders to: "on" for a powered
/// radio, "off" for either off variant (soft and hard off are deliberately
/// not distinguished in the rendered form), and "--" when no device was
/// found or no event has arrived yet.
pub open spec fn symbol_spec(d: Option<DeviceState>) -> Seq<char> {
    match d {
        Some(DeviceState::On) => "on"@,
        Some(DeviceState::OffSoft) => "off"@,
        Some(DeviceState::OffHard) => "off"@,
        Some(DeviceState::NoDev) => "--"@,
        None => "--"@,
    }
}

/// The full output line for a prefix and a device state: prefix, symbol,
/// newline.
pub open spec fn line_spec(prefix: Seq<char>, d: Option<DeviceState>) -> Seq<char> {
    prefix + symbol_spec(d) + "\n"@
}

/// Accumulator of the bluetooth feed: a fixed line prefix and the most
/// recently observed device state, if any.
pub struct State {
    pub prefix: String,
    pub device_state: Option<DeviceState>,
}

impl State {
    /// A fresh state: no event yet, so the feed renders "--" until the first
    /// observation arrives.
    pub fn new(prefix: String) -> (s: State)
        ensures
            s.prefix@ == prefix@,
            s.device_state is None,
    {
        State { prefix, device_state: None }
    }

    fn symbol(d: Option<DeviceState>) -> (s: &'static str)
        ensures
            s@ == symbol_spec(d),
    {
        match d {
            Some(DeviceState::On) => "on",
            Some(DeviceState::OffSoft) => "off",
            Some(DeviceState::OffHard) => "off",
            Some(DeviceState::NoDev) => "--",
            None => "--",
        }
    }
}

impl pipeline::State for State {
    type Event = Option<DeviceState>;

    open spec fn wf(&self) -> bool {
        true
    }

    open spec fn accepts(&self, e: Option<DeviceState>) -> bool {
        true
    }

    open spec fn next_spec(&self, e: Option<DeviceState>) -> State {
        State { prefix: self.prefix, device_state: e }
    }

    open spec fn alerts_spec(&self, e: Option<DeviceState>) -> Seq<Seq<char>> {
        Seq::empty()
    }

    open spec fn render_spec(&self) -> Seq<char> {
        line_spec(self.prefix@, self.device_state)
    }

    fn update(&mut self, e: Option<DeviceState>) -> (r: Result<Option<Vec<Alert>>, FeedError>) {
        self.device_state = e;
        Ok(None)
    }

    fn display(&self) -> (line: String) {
        let mut line = self.prefix.clone();
        line.append(Self::symbol(self.device_state));
        line.append("\n");
        line
    }
}

/// The events that survive the adapter: failed reads are dropped (they are
/// logged by the driving loop), successful reads pass through in order.
pub open spec fn ok_events(results: Seq<Result<Option<DeviceState>, FeedError>>) -> Seq<
    Option<DeviceState>,
>
    decreases results.len(),
{
    if results.len() == 0 {
        Seq::empty()
    } else {
        let rest = ok_events(results.drop_last());
        match results.last() {
            Ok(e) => rest.push(e),
            Err(_) => rest,
        }
    }
}

/// The lines the bluetooth feed renders for a trace of observed events: one
/// line per event, showing that event's symbol after the fixed prefix.
pub open spec fn bt_lines_spec(prefix: Seq<char>, events: Seq<Option<DeviceState>>) -> Seq<
    Seq<char>,
> {
    events.map(|i: int, e: Option<DeviceState>| line_spec(prefix, e))
}

/// For the bluetooth state every event is accepted and rendering shows only
/// the latest event, so the generic pipeline output reduces to one line per
/// event.
proof fn lemma_bt_lines(init: State, events: Seq<Option<DeviceState>>)
    ensures
        pipeline::lines_of(init, events) == bt_lines_spec(init.prefix@, events),
        pipeline::fold_events(init, events).prefix == init.prefix,
    decreases events.len(),
{
    if events.len() == 0 {
        assert(pipeline::lines_of(init, events) =~= bt_lines_spec(init.prefix@, events));
    } else {
        lemma_bt_lines(init, events.drop_last());
        assert(bt_lines_spec(init.prefix@, events.drop_last())
            =~= bt_lines_spec(init.prefix@, events).drop_last());
        assert(pipeline::lines_of(init, events)
            =~= bt_lines_spec(init.prefix@, events));
    }
}

/// Drives one batch of adapter results through the bluetooth feed, as the
/// endless loop in the binary does cycle by cycle: failed reads are dropped,
/// each successful read updates the state and renders one line.  The result
/// is exactly one line per successful read, each fixed by that read alone.
pub fn run(prefix: &str, results: &Vec<Result<Option<DeviceState>, FeedError>>) -> (lines: Vec<
    String,
>)
    ensures
        pipeline::line_views(lines@) == bt_lines_spec(prefix@, ok_events(results@)),
{
    let mut events: Vec<Option<DeviceState>> = Vec::new();
    let mut i: usize = 0;
    while i < results.len()
        invariant
            0 <= i <= results@.len(),
            events@ == ok_events(results@.take(i as int)),
        decreases results@.len() - i,
    {
        proof {
            assert(results@.take(i as int + 1).drop_last() =~= results@.take(i as int));
            assert(results@.take(i as int + 1).last() == results@[i as int]);
        }
        match results[i] {
            Ok(e) => events.push(e),
            Err(_) => {}
        }
        i = i + 1;
    }
    proof {
        assert(results@.take(results@.len() as int) =~= results@);
    }
    let mut state = State::new(String::from_str(prefix));
    proof {
        lemma_bt_lines(state, events@);
    }
    let out = pipeline::run(&mut state, &events);
    out.lines
}

} // verus!
