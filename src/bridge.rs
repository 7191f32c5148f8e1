use vstd::prelude::*;
use vstd::string::StringExecFns;

use crate::frame::frame_line;

verus! {

/// The state of the serial link to the display.
pub enum Link {
    /// No port open. `manual` is set after the user disconnected, and keeps
    /// automatic discovery off until the next connect request.
    Idle { manual: bool },
    /// A port is open under this name.
    Connected { port: String },
}

pub enum LinkModel {
    Idle { manual: bool },
    Connected { port: Seq<char> },
}

impl View for Link {
    type V = LinkModel;

    open spec fn view(&self) -> LinkModel {
        match self {
            Link::Idle { manual } => LinkModel::Idle { manual: *manual },
            Link::Connected { port } => LinkModel::Connected { port: port@ },
        }
    }
}

/// The shared state in mathematical form: the last serialized sample, the
/// link, the count of idle ticks since the last scan, and the status text.
pub struct BridgeModel {
    pub stats: Seq<char>,
    pub link: LinkModel,
    pub fail_count: nat,
    pub status: Seq<char>,
}

/// What the caller of `tick` is to do next.
pub enum TickAction {
    /// Write this line to the open port, then report with `write_finished`.
    Send(String),
    /// Nothing until the next tick.
    Wait,
    /// Enumerate the ports, pick one with `find_candidate`, try to open it and
    /// report a success with `auto_connect`.
    Scan,
}

pub enum ActionModel {
    Send(Seq<char>),
    Wait,
    Scan,
}

impl View for TickAction {
    type V = ActionModel;

    open spec fn view(&self) -> ActionModel {
        match self {
            TickAction::Send(line) => ActionModel::Send(line@),
            TickAction::Wait => ActionModel::Wait,
            TickAction::Scan => ActionModel::Scan,
        }
    }
}

/// What `get_ports` reports: the enumerated port names, the connected port,
/// and the status text.
pub struct PortStatus {
    pub ports: Vec<String>,
    pub connected: Option<String>,
    pub status_text: String,
}

/// The state that the sampling loop and the command handlers share.
pub struct Bridge {
    stats: String,
    link: Link,
    fail_count: u8,
    status: String,
}

impl View for Bridge {
    type V = BridgeModel;

    closed spec fn view(&self) -> BridgeModel {
        BridgeModel {
            stats: self.stats@,
            link: self.link@,
            fail_count: self.fail_count as nat,
            status: self.status@,
        }
    }
}

/// Ticks without a port after which a scan is made.
pub open spec fn scan_threshold() -> nat {
    3
}

pub open spec fn initial_model() -> BridgeModel {
    BridgeModel {
        stats: "{}"@,
        link: LinkModel::Idle { manual: false },
        fail_count: 0,
        status: "Waiting for connection..."@,
    }
}

pub open spec fn disconnected(m: BridgeModel) -> BridgeModel {
    BridgeModel {
        link: LinkModel::Idle { manual: true },
        fail_count: 0,
        status: "Disconnected"@,
        ..m
    }
}

pub open spec fn connected(m: BridgeModel, port: Seq<char>) -> BridgeModel {
    BridgeModel {
        link: LinkModel::Connected { port },
        fail_count: 0,
        status: Seq::empty(),
        ..m
    }
}

pub open spec fn open_failure_text(error: Seq<char>) -> Seq<char> {
    "Connection failed: "@ + error
}

/// A failed open only changes the status text.
pub open spec fn open_failed(m: BridgeModel, error: Seq<char>) -> BridgeModel {
    BridgeModel { status: open_failure_text(error), ..m }
}

pub open spec fn tick_state(m: BridgeModel, payload: Seq<char>) -> BridgeModel {
    let m1 = BridgeModel { stats: payload, ..m };
    match m.link {
        LinkModel::Connected { .. } => m1,
        LinkModel::Idle { manual } => if manual {
            m1
        } else if m.fail_count + 1 >= scan_threshold() {
            BridgeModel { fail_count: 0, ..m1 }
        } else {
            BridgeModel { fail_count: m.fail_count + 1, ..m1 }
        },
    }
}

pub open spec fn tick_action(m: BridgeModel, payload: Seq<char>) -> ActionModel {
    match m.link {
        LinkModel::Connected { .. } => ActionModel::Send(payload + seq!['\n']),
        LinkModel::Idle { manual } => if !manual && m.fail_count + 1 >= scan_threshold() {
            ActionModel::Scan
        } else {
            ActionModel::Wait
        },
    }
}

/// A failed write while connected drops the link, clears the status text,
/// and starts counting idle ticks afresh; automatic discovery stays on.
pub open spec fn write_done(m: BridgeModel, ok: bool) -> BridgeModel {
    if ok {
        BridgeModel { fail_count: 0, ..m }
    } else if m.link is Connected {
        BridgeModel {
            link: LinkModel::Idle { manual: false },
            fail_count: 0,
            status: Seq::empty(),
            ..m
        }
    } else {
        m
    }
}

/// The name reported as connected: the open port's, where it has one.
pub open spec fn connected_name(m: BridgeModel) -> Option<Seq<char>> {
    match m.link {
        LinkModel::Connected { port } => if port.len() > 0 {
            Some(port)
        } else {
            None
        },
        LinkModel::Idle { .. } => None,
    }
}

/// The state after ticks with the given payloads, with no other event in
/// between.
pub open spec fn run_ticks(m: BridgeModel, payloads: Seq<Seq<char>>) -> BridgeModel
    decreases payloads.len(),
{
    if payloads.len() == 0 {
        m
    } else {
        tick_state(run_ticks(m, payloads.drop_last()), payloads.last())
    }
}

/// A second disconnect request changes nothing: the link stays idle with
/// discovery off.
pub proof fn lemma_disconnect_idempotent(m: BridgeModel)
    ensures
        disconnected(disconnected(m)) == disconnected(m),
        disconnected(m).link == (LinkModel::Idle { manual: true }),
{
}

/// From an idle link with discovery on and no idle tick counted, the first
/// two ticks only wait and the third one scans.
pub proof fn lemma_scan_on_third_idle_tick(
    m: BridgeModel,
    p1: Seq<char>,
    p2: Seq<char>,
    p3: Seq<char>,
)
    requires
        m.link == (LinkModel::Idle { manual: false }),
        m.fail_count == 0,
    ensures
        tick_action(m, p1) == ActionModel::Wait,
        tick_action(tick_state(m, p1), p2) == ActionModel::Wait,
        tick_action(tick_state(tick_state(m, p1), p2), p3) == ActionModel::Scan,
        tick_state(tick_state(tick_state(m, p1), p2), p3).fail_count == 0,
{
}

/// A failed write drops the link with discovery on and the count of idle
/// ticks at zero, so the next scan comes only on the third tick after it.
pub proof fn lemma_write_failure_defers_scan(
    m: BridgeModel,
    p1: Seq<char>,
    p2: Seq<char>,
    p3: Seq<char>,
)
    requires
        m.link is Connected,
    ensures
        write_done(m, false).link == (LinkModel::Idle { manual: false }),
        write_done(m, false).fail_count == 0,
        write_done(m, false).status == Seq::<char>::empty(),
        tick_action(write_done(m, false), p1) == ActionModel::Wait,
        tick_action(tick_state(write_done(m, false), p1), p2) == ActionModel::Wait,
        tick_action(tick_state(tick_state(write_done(m, false), p1), p2), p3)
            == ActionModel::Scan,
{
    lemma_scan_on_third_idle_tick(write_done(m, false), p1, p2, p3);
}

/// After a disconnect by the user, no number of ticks scans for a port or
/// opens one: only a connect request ends the idle state.
pub proof fn lemma_manual_disconnect_holds(m: BridgeModel, payloads: Seq<Seq<char>>)
    requires
        m.link == (LinkModel::Idle { manual: true }),
    ensures
        run_ticks(m, payloads).link == (LinkModel::Idle { manual: true }),
        forall|i: int|
            0 <= i < payloads.len() ==> tick_action(run_ticks(m, payloads.take(i)), payloads[i])
                == ActionModel::Wait,
    decreases payloads.len(),
{
    if payloads.len() > 0 {
        let init = payloads.drop_last();
        lemma_manual_disconnect_holds(m, init);
        assert forall|i: int| 0 <= i < payloads.len() implies tick_action(
            run_ticks(m, payloads.take(i)),
            payloads[i],
        ) == ActionModel::Wait by {
            if i < init.len() {
                assert(payloads.take(i) =~= init.take(i));
                assert(payloads[i] == init[i]);
            } else {
                assert(payloads.take(i) =~= init);
            }
        }
    }
}

impl Bridge {
    /// The state at start-up: an empty sample, no port, discovery on.
    pub fn new() -> (r: Bridge)
        ensures
            r@ == initial_model(),
    {
        Bridge {
            stats: String::from_str("{}"),
            link: Link::Idle { manual: false },
            fail_count: 0,
            status: String::from_str("Waiting for connection..."),
        }
    }

    /// The last serialized sample.
    pub fn get_stats(&self) -> (r: String)
        ensures
            r@ == self@.stats,
    {
        self.stats.clone()
    }

    /// Combines the enumerated port names with the connection state.
    pub fn get_ports(&self, ports: Vec<String>) -> (r: PortStatus)
        ensures
            r.ports == ports,
            r.status_text@ == self@.status,
            match r.connected {
                Some(name) => connected_name(self@) == Some(name@),
                None => connected_name(self@) is None,
            },
    {
        let connected = match &self.link {
            Link::Connected { port } => if port.unicode_len() > 0 {
                Some(port.clone())
            } else {
                None
            },
            Link::Idle { .. } => None,
        };
        PortStatus { ports, connected, status_text: self.status.clone() }
    }

    /// Whether automatic discovery is off after a disconnect by the user.
    pub fn manual_disconnect(&self) -> (r: bool)
        ensures
            r == (self@.link == LinkModel::Idle { manual: true }),
    {
        match self.link {
            Link::Idle { manual } => manual,
            Link::Connected { .. } => false,
        }
    }

    /// Idle ticks counted towards the next scan.
    pub fn fail_count(&self) -> (r: u8)
        ensures
            r == self@.fail_count,
    {
        self.fail_count
    }

    /// A connect or disconnect request. `opened` is the outcome of opening
    /// `port_name`, which the caller attempts only when `connect` holds; it is
    /// ignored otherwise.
    pub fn toggle_connection(&mut self, port_name: String, connect: bool, opened: Result<(), String>) -> (r:
        Result<String, String>)
        ensures
            !connect ==> final(self)@ == disconnected(old(self)@),
            !connect ==> r is Ok && r->Ok_0@ == "Disconnected"@,
            connect && opened is Ok ==> final(self)@ == connected(old(self)@, port_name@),
            connect && opened is Ok ==> r is Ok && r->Ok_0@ == "Connected"@,
            connect && opened is Err ==> final(self)@ == open_failed(old(self)@, opened->Err_0@),
            connect && opened is Err ==> r is Err && r->Err_0@ == open_failure_text(
                opened->Err_0@,
            ),
    {
        if !connect {
            self.link = Link::Idle { manual: true };
            self.fail_count = 0;
            self.status = String::from_str("Disconnected");
            return Ok(String::from_str("Disconnected"));
        }
        match opened {
            Ok(()) => {
                self.auto_connect(port_name);
                Ok(String::from_str("Connected"))
            },
            Err(error) => {
                let text = String::from_str("Connection failed: ").concat(error.as_str());
                self.status = text.clone();
                Err(text)
            },
        }
    }

    /// A port found by a scan was opened.
    pub fn auto_connect(&mut self, port_name: String)
        ensures
            final(self)@ == connected(old(self)@, port_name@),
    {
        self.link = Link::Connected { port: port_name };
        self.fail_count = 0;
        self.status = String::new();
    }

    /// One tick of the sampling loop: records the serialized sample and says
    /// what to do with the link.
    pub fn tick(&mut self, payload: String) -> (r: TickAction)
        ensures
            final(self)@ == tick_state(old(self)@, payload@),
            r@ == tick_action(old(self)@, payload@),
    {
        let line = frame_line(&payload);
        self.stats = payload;
        match self.link {
            Link::Connected { .. } => TickAction::Send(line),
            Link::Idle { manual } => {
                if manual {
                    TickAction::Wait
                } else if self.fail_count >= 2 {
                    self.fail_count = 0;
                    TickAction::Scan
                } else {
                    self.fail_count = self.fail_count + 1;
                    TickAction::Wait
                }
            },
        }
    }

    /// Reports whether the line of a `Send` reached the port.
    pub fn write_finished(&mut self, ok: bool)
        ensures
            final(self)@ == write_done(old(self)@, ok),
    {
        if ok {
            self.fail_count = 0;
        } else if matches!(self.link, Link::Connected { .. }) {
            self.link = Link::Idle { manual: false };
            self.fail_count = 0;
            self.status = String::new();
        }
    }
}

} // verus!
