pub mod interface;
pub mod serial_link;

use vstd::prelude::*;
use vstd::string::*;
use crate::rr_core::utils::{ComboBox, LogManager};
use crate::text::{contains_text, int_text, nat_text, push_int, push_nat, text_contains};
use interface::SerialMessage;

verus! {

/// The choices of a selection box and the one chosen, as values.
pub struct ComboState<V> {
    pub all: Seq<V>,
    pub selected: Option<V>,
}

/// The serial settings page as values: what every contract of
/// [`SerialManager`] speaks of.
pub struct SerialState {
    pub driver_num: nat,
    pub id: Seq<usize>,
    pub id_box: ComboState<usize>,
    pub is_small_packet: bool,
    pub is_smooth: bool,
    pub conn_count: nat,
    pub thread_count: nat,
    pub path_list: Option<ComboState<Seq<char>>>,
    pub selected: Seq<char>,
    pub smooth_value: i32,
    pub log: Seq<Seq<char>>,
}

/// What the page asks its surroundings to do after a message.
pub enum SerialAction {
    /// Nothing beyond the change of state.
    Idle,
    /// List the serial ports and hand the names to [`SerialManager::search_port`].
    ScanPorts,
    /// Start a link thread as the plan says.
    Launch(SerialLaunch),
    /// Stop the thread of the given slot and drop the connector at that index.
    StopThread(usize),
}

/// How to start a link thread: on which port, in which slot of the thread and
/// connector lists, with which packet size, and with which smoothing gain, if any.
pub struct SerialLaunch {
    pub port: String,
    pub slot: usize,
    pub small_packet: bool,
    pub smooth_value: Option<i32>,
}

/// The settings page of the serial links: the ports found, the port chosen,
/// the packet options, and the bookkeeping of the link threads started.
pub struct SerialManager {
    /// The number of links running.
    pub driver_num: usize,
    /// The identifiers of the links running, in starting order.
    pub id: Vec<usize>,
    /// The identifiers offered for stopping, and the one chosen.
    pub id_box: ComboBox<usize>,
    pub is_small_packet: bool,
    pub is_smooth: bool,
    /// The length of the list of thread connectors kept beside this page.
    pub conn_count: usize,
    /// The length of the list of thread managers kept beside this page.
    pub thread_count: usize,
    /// The usable ports of the last scan, if it succeeded.
    pub path_list: Option<ComboBox<String>>,
    /// The port chosen.
    pub selected: String,
    pub smooth_value: i32,
    pub logger: LogManager,
}

pub open spec fn id_box_state(c: ComboBox<usize>) -> ComboState<usize> {
    ComboState { all: c.all@, selected: c.selected }
}

pub open spec fn name_box_state(c: ComboBox<String>) -> ComboState<Seq<char>> {
    ComboState {
        all: c.all.deep_view(),
        selected: match c.selected {
            Some(s) => Some(s@),
            None => None,
        },
    }
}

impl View for SerialManager {
    type V = SerialState;

    open spec fn view(&self) -> SerialState {
        SerialState {
            driver_num: self.driver_num as nat,
            id: self.id@,
            id_box: id_box_state(self.id_box),
            is_small_packet: self.is_small_packet,
            is_smooth: self.is_smooth,
            conn_count: self.conn_count as nat,
            thread_count: self.thread_count as nat,
            path_list: match self.path_list {
                Some(c) => Some(name_box_state(c)),
                None => None,
            },
            selected: self.selected@,
            smooth_value: self.smooth_value,
            log: self.logger.lines.deep_view(),
        }
    }
}

impl SerialState {
    /// The bookkeeping of the links agrees: one identifier per running link,
    /// one connector more than links (the one the next link takes), and at
    /// least as many thread managers (stopped ones are kept).
    pub open spec fn wf(self) -> bool {
        &&& self.id.len() == self.driver_num
        &&& self.conn_count == self.driver_num + 1
        &&& self.thread_count >= self.driver_num + 1
    }
}

/// A name the port scan keeps: anything but the on-board UARTs.
pub open spec fn usable_port(name: Seq<char>) -> bool {
    !contains_text(name, "/dev/ttyS"@)
}

/// The names a port scan keeps, in the order found.
pub open spec fn usable_ports(names: Seq<Seq<char>>) -> Seq<Seq<char>> {
    names.filter(|name: Seq<char>| usable_port(name))
}

/// The state with one more line in the log.
pub open spec fn logged(s: SerialState, line: Seq<char>) -> SerialState {
    SerialState { log: s.log.push(line), ..s }
}

/// The state after a link is started in the next free slot: its identifier is
/// the slot, the stop box is rebuilt from the identifiers with nothing chosen,
/// and one thread manager and one connector are added.
pub open spec fn launched(s: SerialState) -> SerialState {
    SerialState {
        driver_num: s.driver_num + 1,
        id: s.id.push(s.driver_num as usize),
        id_box: ComboState { all: s.id.push(s.driver_num as usize), selected: None },
        conn_count: s.conn_count + 1,
        thread_count: s.thread_count + 1,
        ..s
    }
}

/// Whether the page can take `msg` in state `s` without running past the
/// bookkeeping it keeps.
pub open spec fn accepts(s: SerialState, msg: SerialMessage) -> bool {
    match msg {
        SerialMessage::SerialStart => s.thread_count < usize::MAX,
        SerialMessage::ThreadStop => match s.id_box.selected {
            Some(k) => k < s.driver_num,
            None => true,
        },
        _ => true,
    }
}

/// The state of the page after `msg`.
pub open spec fn next_state(s: SerialState, msg: SerialMessage) -> SerialState {
    match msg {
        SerialMessage::PortSelected(name) => logged(
            SerialState { selected: name@, ..s },
            "Port path selected: "@ + name@,
        ),
        SerialMessage::SerialScan => logged(s, "Search available port."@),
        SerialMessage::SerialStart => if s.is_smooth {
            logged(launched(s), "Start Serial with smoother at "@ + s.selected)
        } else {
            logged(launched(s), "Start Serial at "@ + s.selected)
        },
        SerialMessage::SetPacketSize(changed) => logged(
            SerialState { is_small_packet: changed, ..s },
            if changed {
                "Set small packet is enable."@
            } else {
                "Set small packet is disable."@
            },
        ),
        SerialMessage::ThreadID(k) => logged(
            SerialState { id_box: ComboState { selected: Some(k), ..s.id_box }, ..s },
            "Select thread id :"@ + nat_text(k as nat),
        ),
        SerialMessage::ThreadStop => match s.id_box.selected {
            Some(k) => logged(
                SerialState {
                    conn_count: (s.conn_count - 1) as nat,
                    driver_num: (s.driver_num - 1) as nat,
                    id: s.id.remove(k as int),
                    ..s
                },
                "Stop the thread. ID is "@ + nat_text(k as nat),
            ),
            None => logged(s, "Don't select thread ID."@),
        },
        SerialMessage::SmoothValue(val) => logged(
            SerialState { smooth_value: val, ..s },
            "Set smooth gain : "@ + int_text(val as int),
        ),
        SerialMessage::SetSmooth(sm) => logged(
            SerialState { is_smooth: sm, ..s },
            if sm {
                "Set smoother to enable"@
            } else {
                "Set smoother to disable"@
            },
        ),
        SerialMessage::SetIM920(_) => s,
    }
}

/// Whether `plan` starts a link on the chosen port, in the next free slot,
/// with the packet size in force.
pub open spec fn plans_launch(s: SerialState, plan: SerialLaunch) -> bool {
    &&& plan.port@ == s.selected
    &&& plan.slot == s.driver_num
    &&& plan.small_packet == s.is_small_packet
}

/// What the page asks for after `msg` in state `s`.
pub open spec fn action_for(s: SerialState, msg: SerialMessage, action: SerialAction) -> bool {
    match msg {
        SerialMessage::SerialScan => action is ScanPorts,
        SerialMessage::SerialStart => match action {
            SerialAction::Launch(plan) => plans_launch(s, plan) && plan.smooth_value == (if s.is_smooth {
                Some(s.smooth_value)
            } else {
                None
            }),
            _ => false,
        },
        SerialMessage::ThreadStop => match s.id_box.selected {
            Some(k) => action matches SerialAction::StopThread(j) && j == k,
            None => action is Idle,
        },
        _ => action is Idle,
    }
}

fn keep_usable_ports(ports: Vec<String>) -> (kept: Vec<String>)
    ensures
        kept.deep_view() == usable_ports(ports.deep_view()),
{
    let mut kept: Vec<String> = Vec::new();
    let mut i: usize = 0;
    while i < ports.len()
        invariant
            i <= ports@.len(),
            kept.deep_view() == usable_ports(ports.deep_view().take(i as int)),
        decreases ports@.len() - i,
    {
        let usable = !text_contains(ports[i].as_str(), "/dev/ttyS");
        let ghost before = kept.deep_view();
        if usable {
            kept.push(ports[i].clone());
        }
        proof {
            let names = ports.deep_view();
            assert(names.take(i + 1).drop_last() =~= names.take(i as int));
            assert(names.take(i + 1).last() == ports[i as int]@);
            reveal_with_fuel(Seq::filter, 1);
            if usable {
                assert(kept.deep_view() =~= before.push(ports[i as int]@));
            } else {
                assert(kept.deep_view() =~= before);
            }
        }
        i = i + 1;
    }
    proof {
        assert(ports.deep_view().take(ports@.len() as int) =~= ports.deep_view());
    }
    kept
}

impl SerialManager {
    /// The bookkeeping of the links agrees (see [`SerialState::wf`]).
    pub open spec fn wf(&self) -> bool {
        self@.wf()
    }

    /// A page with no port found or chosen, no link running, one connector
    /// and one thread manager ready, full packets, no smoothing at gain one,
    /// and an empty log.
    pub fn new() -> (m: SerialManager)
        ensures
            m.wf(),
            m@ == (SerialState {
                driver_num: 0,
                id: Seq::empty(),
                id_box: ComboState { all: Seq::empty(), selected: None },
                is_small_packet: false,
                is_smooth: false,
                conn_count: 1,
                thread_count: 1,
                path_list: None,
                selected: Seq::empty(),
                smooth_value: 1,
                log: Seq::empty(),
            }),
    {
        let id_v: Vec<usize> = Vec::new();
        let m = SerialManager {
            driver_num: 0,
            is_small_packet: false,
            conn_count: 1,
            path_list: None,
            selected: String::new(),
            thread_count: 1,
            id: id_v.clone(),
            id_box: ComboBox::new(id_v.clone()),
            smooth_value: 1,
            is_smooth: false,
            logger: LogManager::new(),
        };
        proof {
            assert(m@.id =~= Seq::<usize>::empty());
            assert(m@.id_box.all =~= Seq::<usize>::empty());
            assert(m@.log =~= Seq::<Seq<char>>::empty());
        }
        m
    }

    /// The title of the page's tab.
    pub fn title(&self) -> (t: String)
        ensures
            t@ == "シリアル設定"@,
    {
        String::from_str("シリアル設定")
    }

    /// Takes the result of a port scan: the usable names of a successful scan
    /// become the port list, with nothing chosen; a failed scan clears it.
    pub fn search_port(&mut self, ports: Option<Vec<String>>)
        ensures
            final(self)@ == (SerialState {
                path_list: match ports {
                    Some(names) => Some(
                        ComboState { all: usable_ports(names.deep_view()), selected: None },
                    ),
                    None => None,
                },
                ..old(self)@
            }),
    {
        match ports {
            Some(names) => {
                let path_list_ = keep_usable_ports(names);
                self.path_list = Some(ComboBox::new(path_list_));
            },
            None => {
                self.path_list = None;
            },
        }
    }

    fn launch(&mut self, smooth: Option<i32>) -> (plan: SerialLaunch)
        requires
            old(self).wf(),
            old(self)@.thread_count < usize::MAX,
        ensures
            final(self)@ == launched(old(self)@),
            final(self).wf(),
            plans_launch(old(self)@, plan),
            plan.smooth_value == smooth,
    {
        let selected_port = self.selected.clone();
        let slot = self.driver_num;
        self.id.push(self.driver_num);
        self.id_box = ComboBox::new(self.id.clone());
        self.driver_num = self.driver_num + 1;
        self.thread_count = self.thread_count + 1;
        self.conn_count = self.conn_count + 1;
        proof {
            assert(self@.id_box.all =~= self@.id);
        }
        SerialLaunch {
            port: selected_port,
            slot,
            small_packet: self.is_small_packet,
            smooth_value: smooth,
        }
    }

    /// Records a plain link started on the chosen port in the next free slot,
    /// and returns how to start it.
    pub fn spawn_serial(&mut self) -> (plan: SerialLaunch)
        requires
            old(self).wf(),
            old(self)@.thread_count < usize::MAX,
        ensures
            final(self)@ == launched(old(self)@),
            final(self).wf(),
            plans_launch(old(self)@, plan),
            plan.smooth_value is None,
    {
        self.launch(None)
    }

    /// Records a smoothing link with gain `smooth_value` started on the chosen
    /// port in the next free slot, and returns how to start it.
    pub fn spawn_smooth_serial(&mut self, smooth_value: i32) -> (plan: SerialLaunch)
        requires
            old(self).wf(),
            old(self)@.thread_count < usize::MAX,
        ensures
            final(self)@ == launched(old(self)@),
            final(self).wf(),
            plans_launch(old(self)@, plan),
            plan.smooth_value == Some(smooth_value),
    {
        self.launch(Some(smooth_value))
    }

    /// Whether [`SerialManager::update`] can take `message` now; where it
    /// cannot, the message would run past the links' bookkeeping.
    pub fn can_take(&self, message: &SerialMessage) -> (ok: bool)
        ensures
            ok == accepts(self@, *message),
    {
        match message {
            SerialMessage::SerialStart => self.thread_count < usize::MAX,
            SerialMessage::ThreadStop => match self.id_box.selected {
                Some(k) => k < self.driver_num,
                None => true,
            },
            _ => true,
        }
    }

    /// Handles one message of the page: changes the state as [`next_state`]
    /// says and returns what the surroundings have to do.
    pub fn update(&mut self, message: SerialMessage) -> (action: SerialAction)
        requires
            old(self).wf(),
            accepts(old(self)@, message),
        ensures
            final(self)@ == next_state(old(self)@, message),
            final(self).wf(),
            action_for(old(self)@, message, action),
    {
        let ghost msg = message;
        match message {
            SerialMessage::PortSelected(name) => {
                let mut line = String::from_str("Port path selected: ");
                line.append(name.as_str());
                self.selected = name;
                self.logger.add_str(line);
                SerialAction::Idle
            },
            SerialMessage::SerialScan => {
                self.logger.add_str(String::from_str("Search available port."));
                SerialAction::ScanPorts
            },
            SerialMessage::SerialStart => {
                if self.is_smooth {
                    let plan = self.spawn_smooth_serial(self.smooth_value);
                    let mut line = String::from_str("Start Serial with smoother at ");
                    line.append(self.selected.as_str());
                    self.logger.add_str(line);
                    SerialAction::Launch(plan)
                } else {
                    let plan = self.spawn_serial();
                    let mut line = String::from_str("Start Serial at ");
                    line.append(self.selected.as_str());
                    self.logger.add_str(line);
                    SerialAction::Launch(plan)
                }
            },
            SerialMessage::SetPacketSize(changed) => {
                self.is_small_packet = changed;
                if changed {
                    self.logger.add_str(String::from_str("Set small packet is enable."));
                } else {
                    self.logger.add_str(String::from_str("Set small packet is disable."));
                }
                SerialAction::Idle
            },
            SerialMessage::ThreadID(k) => {
                self.id_box.selected = Some(k);
                let mut line = String::from_str("Select thread id :");
                push_nat(&mut line, k as u64);
                self.logger.add_str(line);
                SerialAction::Idle
            },
            SerialMessage::ThreadStop => {
                match self.id_box.selected {
                    Some(k) => {
                        self.conn_count = self.conn_count - 1;
                        self.driver_num = self.driver_num - 1;
                        self.id.remove(k);
                        let mut line = String::from_str("Stop the thread. ID is ");
                        push_nat(&mut line, k as u64);
                        self.logger.add_str(line);
                        SerialAction::StopThread(k)
                    },
                    None => {
                        self.logger.add_str(String::from_str("Don't select thread ID."));
                        SerialAction::Idle
                    },
                }
            },
            SerialMessage::SmoothValue(val) => {
                self.smooth_value = val;
                let mut line = String::from_str("Set smooth gain : ");
                push_int(&mut line, val as i64);
                self.logger.add_str(line);
                SerialAction::Idle
            },
            SerialMessage::SetSmooth(sm) => {
                self.is_smooth = sm;
                if sm {
                    self.logger.add_str(String::from_str("Set smoother to enable"));
                } else {
                    self.logger.add_str(String::from_str("Set smoother to disable"));
                }
                SerialAction::Idle
            },
            SerialMessage::SetIM920(_) => SerialAction::Idle,
        }
    }
}

/// Law: every message the page accepts keeps its bookkeeping in agreement.
pub proof fn update_keeps_well_formed(s: SerialState, msg: SerialMessage)
    requires
        s.wf(),
        accepts(s, msg),
    ensures
        next_state(s, msg).wf(),
{
}

/// Law: starting a link, choosing its identifier and stopping it gives back
/// the running links, their identifiers and the connectors as they were; the
/// thread manager of the stopped link stays.
pub proof fn launch_then_stop_restores(s: SerialState)
    requires
        s.wf(),
        s.thread_count < usize::MAX,
    ensures
        ({
            let started = next_state(s, SerialMessage::SerialStart);
            let chosen = next_state(started, SerialMessage::ThreadID(s.driver_num as usize));
            let stopped = next_state(chosen, SerialMessage::ThreadStop);
            &&& accepts(s, SerialMessage::SerialStart)
            &&& accepts(started, SerialMessage::ThreadID(s.driver_num as usize))
            &&& accepts(chosen, SerialMessage::ThreadStop)
            &&& stopped.driver_num == s.driver_num
            &&& stopped.id == s.id
            &&& stopped.conn_count == s.conn_count
            &&& stopped.thread_count == s.thread_count + 1
        }),
{
    let started = next_state(s, SerialMessage::SerialStart);
    let chosen = next_state(started, SerialMessage::ThreadID(s.driver_num as usize));
    let stopped = next_state(chosen, SerialMessage::ThreadStop);
    assert(started.id == s.id.push(s.driver_num as usize));
    assert(stopped.id == started.id.remove(s.driver_num as int));
    assert(stopped.id =~= s.id);
}

/// Law: every message but `SetIM920` adds exactly one line to the log and
/// keeps the lines before it; `SetIM920` changes nothing.
pub proof fn messages_log_one_line(s: SerialState, msg: SerialMessage)
    ensures
        msg is SetIM920 ==> next_state(s, msg) == s,
        !(msg is SetIM920) ==> next_state(s, msg).log.len() == s.log.len() + 1
            && next_state(s, msg).log.drop_last() == s.log,
{
    if !(msg is SetIM920) {
        assert(next_state(s, msg).log.drop_last() =~= s.log);
    }
}

/// Law: a port scan keeps exactly the names without `/dev/ttyS`, in the order
/// found.
pub proof fn port_scan_keeps_usable(names: Seq<Seq<char>>)
    ensures
        forall|i: int|
            0 <= i < usable_ports(names).len() ==> usable_port(#[trigger] usable_ports(names)[i]),
        forall|i: int|
            0 <= i < names.len() && usable_port(#[trigger] names[i]) ==> usable_ports(
                names,
            ).contains(names[i]),
        forall|n: Seq<char>| #[trigger] usable_ports(names).contains(n) ==> names.contains(n),
{
    let pred = |name: Seq<char>| usable_port(name);
    assert forall|i: int| 0 <= i < usable_ports(names).len() implies usable_port(
        #[trigger] usable_ports(names)[i],
    ) by {
        names.lemma_filter_pred(pred, i);
    }
    assert forall|i: int| 0 <= i < names.len() && usable_port(#[trigger] names[i]) implies usable_ports(
        names,
    ).contains(names[i]) by {
        names.lemma_filter_contains(pred, i);
    }
    assert forall|n: Seq<char>| #[trigger] usable_ports(names).contains(n) implies names.contains(
        n,
    ) by {
        names.lemma_filter_contains_rev(pred, n);
    }
}

/// Law: each setting message sets its own setting to the value it carries,
/// whatever it was before; in particular `SetSmooth(false)` turns smoothing
/// off, and the next start then launches a plain link.
pub proof fn settings_take_the_given_value(s: SerialState, b: bool, v: i32, action: SerialAction)
    ensures
        next_state(s, SerialMessage::SetSmooth(b)).is_smooth == b,
        next_state(s, SerialMessage::SetPacketSize(b)).is_small_packet == b,
        next_state(s, SerialMessage::SmoothValue(v)).smooth_value == v,
        action_for(next_state(s, SerialMessage::SetSmooth(b)), SerialMessage::SerialStart, action)
            ==> (action matches SerialAction::Launch(plan) && (plan.smooth_value is Some <==> b)),
        action_for(next_state(s, SerialMessage::SetSmooth(false)), SerialMessage::SerialStart, action)
            ==> (action matches SerialAction::Launch(plan) && plan.smooth_value is None),
{
}

/// Law: a scan drops exactly the names that contain `/dev/ttyS`: any name
/// with it inside is dropped, and any name too short to hold it is kept.
pub proof fn port_scan_drops_exactly_uart_names(names: Seq<Seq<char>>)
    ensures
        usable_ports(names) == names.filter(|n: Seq<char>| !contains_text(n, "/dev/ttyS"@)),
        forall|a: Seq<char>, b: Seq<char>| !usable_port(#[trigger] (a + "/dev/ttyS"@ + b)),
        forall|n: Seq<char>| n.len() < "/dev/ttyS"@.len() ==> #[trigger] usable_port(n),
{
    let f1 = |name: Seq<char>| usable_port(name);
    let f2 = |n: Seq<char>| !contains_text(n, "/dev/ttyS"@);
    assert(f1 =~= f2);
    assert forall|a: Seq<char>, b: Seq<char>| !usable_port(#[trigger] (a + "/dev/ttyS"@ + b)) by {
        let p = "/dev/ttyS"@;
        let whole = a + p + b;
        assert(whole.subrange(a.len() as int, a.len() as int + p.len()) =~= p);
    }
}

/// Law: what each message does to the page, in terms of the message and the
/// state before: choosing a port sets it, choosing an id chooses it, a scan
/// only logs, a start adds one link with the next identifier, and a stop with
/// an id chosen drops the identifier at that place and one connector.
pub proof fn message_effects(s: SerialState, msg: SerialMessage)
    requires
        s.wf(),
        accepts(s, msg),
    ensures
        ({
            let t = next_state(s, msg);
            &&& (msg matches SerialMessage::PortSelected(name) ==> t.selected == name@
                && t.driver_num == s.driver_num && t.id == s.id)
            &&& (msg matches SerialMessage::ThreadID(k) ==> t.id_box.selected == Some(k)
                && t.id_box.all == s.id_box.all && t.driver_num == s.driver_num)
            &&& (msg is SerialScan ==> t.log.drop_last() == s.log && t.driver_num == s.driver_num
                && t.id == s.id && t.path_list == s.path_list && t.selected == s.selected)
            &&& (msg is SerialStart ==> t.driver_num == s.driver_num + 1 && t.id.len() == s.id.len() + 1
                && t.id.last() == s.driver_num && t.id.drop_last() == s.id && t.id_box.all == t.id
                && t.id_box.selected is None && t.conn_count == s.conn_count + 1
                && t.thread_count == s.thread_count + 1 && t.is_smooth == s.is_smooth
                && t.selected == s.selected)
            &&& (s.id_box.selected matches Some(k) ==> msg is ThreadStop ==> t.driver_num + 1 == s.driver_num
                && t.id.len() + 1 == s.id.len()
                && (forall|j: int| 0 <= j < k ==> t.id[j] == s.id[j])
                && (forall|j: int| k <= j < t.id.len() ==> t.id[j] == s.id[j + 1])
                && t.conn_count + 1 == s.conn_count && t.thread_count == s.thread_count)
            &&& (msg is ThreadStop && s.id_box.selected is None ==> t.log.drop_last() == s.log
                && t.driver_num == s.driver_num && t.id == s.id && t.conn_count == s.conn_count)
        }),
{
    let t = next_state(s, msg);
    if msg is SerialScan || (msg is ThreadStop && s.id_box.selected is None) {
        assert(t.log.drop_last() =~= s.log);
    }
    if msg is SerialStart {
        assert(t.id.drop_last() =~= s.id);
    }
}

} // verus!
