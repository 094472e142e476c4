use vstd::prelude::*;
use crate::address::{is_ipv4, is_ipv4_address};
use crate::batch::Data;
use crate::error::{ConfigIssue, ErrCode, ProtocolIssue, SensorError};
use crate::interface::{interface_name, Interface};
use crate::protocol::{
    channel_name_key, command_views, failed_status, name_key, Command, CommandView, Reply,
    NAME_BUFFER_LEN, NAME_QUERY_LIMIT,
};
use crate::stats::{whole_rows, ScaledBits};

verus! {

/// Settings gathered before a session is opened on an engine instance.
///
/// The instance is created by the caller, who hands its handle to [`SensorBuilder::new`];
/// every outcome of [`SensorBuilder::connect`] ends with that instance released or
/// owned by a [`Sensor`].
#[derive(Debug)]
pub struct SensorBuilder {
    sensor_handle: u32,
    interface: Option<Interface>,
    ip_address: Option<String>,
    logging: bool,
}

pub struct BuilderView {
    pub handle: u32,
    pub interface: Option<Interface>,
    pub address: Option<Seq<char>>,
    pub logging: bool,
}

impl View for SensorBuilder {
    type V = BuilderView;

    closed spec fn view(&self) -> BuilderView {
        BuilderView {
            handle: self.sensor_handle,
            interface: self.interface,
            address: match self.ip_address {
                Some(a) => Some(a@),
                None => None,
            },
            logging: self.logging,
        }
    }
}

/// What makes the settings unusable, checked in this order; `None` when they are
/// complete and the address is a dotted-quad IPv4 address.
pub open spec fn config_issue(b: BuilderView) -> Option<ConfigIssue> {
    match (b.interface, b.address) {
        (None, _) => Some(ConfigIssue::MissingInterface),
        (_, None) => Some(ConfigIssue::MissingAddress),
        (Some(_), Some(a)) => if is_ipv4(a) {
            None
        } else {
            Some(ConfigIssue::InvalidAddress)
        },
    }
}

/// The engine calls that open a session: transport, address, optionally logging,
/// then the open itself and the command that makes the engine describe its channels.
pub open spec fn setup_plan(interface: Interface, address: Seq<char>, logging: bool) -> Seq<
    CommandView,
> {
    seq![
        CommandView::SetString("IP_Interface"@, interface_name(interface)),
        CommandView::SetString("IP_RemoteAddr"@, address),
    ] + (if logging {
        seq![CommandView::SetInt("IP_EnableLogging"@, 1)]
    } else {
        Seq::empty()
    }) + seq![CommandView::Open, CommandView::Exec("Get_TransmittedDataInfo"@)]
}

/// Why channel discovery stopped.
#[derive(Debug, Clone, Copy, PartialEq, Eq, Structural)]
pub enum DiscoveryEnd {
    /// The engine returned an empty name: the catalog is complete.
    EmptyName,
    /// A name query failed with this status; the names before it form the catalog.
    QueryFailed(ErrCode),
    /// Names were returned up to the highest index asked about.
    Limit,
}

/// Where a connection stands.
#[derive(Debug, Clone, Copy, PartialEq, Eq, Structural)]
pub enum Stage {
    /// The setup call at this position of the plan is next.
    Setup(usize),
    /// The name of the channel with this index (from 1) is asked next.
    Discover(u32),
    /// The open session is closed next, then the instance released.
    Closing(SensorError),
    /// The instance is released next.
    Releasing(SensorError),
    /// The session is open and its channels discovered.
    Connected(DiscoveryEnd),
    /// The connection failed and the instance was released.
    Failed(SensorError),
}

/// The session-opening protocol as a state machine: [`Connection::pending`] names
/// the engine call to make, [`Connection::advance`] takes its reply, until
/// [`Connection::finish`] gives the sensor or the error.
#[derive(Debug)]
pub struct Connection {
    sensor_handle: u32,
    interface: Option<Interface>,
    ip_address: Option<String>,
    logging: bool,
    stage: Stage,
    catalog: Vec<String>,
}

pub struct ConnectionView {
    pub handle: u32,
    pub plan: Seq<CommandView>,
    pub stage: Stage,
    pub catalog: Seq<String>,
}

impl View for Connection {
    type V = ConnectionView;

    closed spec fn view(&self) -> ConnectionView {
        ConnectionView {
            handle: self.sensor_handle,
            plan: match (self.interface, self.ip_address) {
                (Some(i), Some(a)) => setup_plan(i, a@, self.logging),
                _ => Seq::empty(),
            },
            stage: self.stage,
            catalog: self.catalog@,
        }
    }
}

/// The states a connection can be in.
pub open spec fn well_formed(v: ConnectionView) -> bool {
    &&& v.catalog.len() <= NAME_QUERY_LIMIT
    &&& match v.stage {
        Stage::Setup(k) => k < v.plan.len() && v.catalog.len() == 0,
        Stage::Discover(k) => 1 <= k <= NAME_QUERY_LIMIT && v.catalog.len() == k - 1,
        _ => true,
    }
}

/// The engine call a connection waits on, if any.
pub open spec fn pending_command(v: ConnectionView) -> Option<CommandView> {
    match v.stage {
        Stage::Setup(k) => Some(v.plan[k as int]),
        Stage::Discover(k) => Some(CommandView::Query(name_key(k as nat), NAME_BUFFER_LEN)),
        Stage::Closing(_) => Some(CommandView::Close),
        Stage::Releasing(_) => Some(CommandView::Release),
        _ => None,
    }
}

/// How the connection stands after `reply` answers its pending call.
pub open spec fn next_stage(v: ConnectionView, reply: Reply) -> Stage {
    match v.stage {
        Stage::Setup(k) => match failed_status(reply) {
            Some(e) => if v.plan.take(k as int).contains(CommandView::Open) {
                Stage::Closing(SensorError::Engine(e))
            } else {
                Stage::Releasing(SensorError::Engine(e))
            },
            None => if k + 1 < v.plan.len() {
                Stage::Setup((k + 1) as usize)
            } else {
                Stage::Discover(1)
            },
        },
        Stage::Discover(k) => match reply {
            Reply::Text(name) => if name@.len() == 0 {
                Stage::Connected(DiscoveryEnd::EmptyName)
            } else if k < NAME_QUERY_LIMIT {
                Stage::Discover((k + 1) as u32)
            } else {
                Stage::Connected(DiscoveryEnd::Limit)
            },
            Reply::Status(e) => Stage::Connected(
                if e.is_success() {
                    DiscoveryEnd::EmptyName
                } else {
                    DiscoveryEnd::QueryFailed(e)
                },
            ),
            Reply::InvalidText => Stage::Closing(SensorError::Protocol(ProtocolIssue::InvalidText)),
        },
        Stage::Closing(e) => Stage::Releasing(e),
        Stage::Releasing(e) => Stage::Failed(e),
        other => other,
    }
}

/// The catalog after `reply` answers the pending call: a non-empty name is appended.
pub open spec fn next_catalog(v: ConnectionView, reply: Reply) -> Seq<String> {
    match v.stage {
        Stage::Discover(_) => match reply {
            Reply::Text(name) => if name@.len() > 0 {
                v.catalog.push(name)
            } else {
                v.catalog
            },
            _ => v.catalog,
        },
        _ => v.catalog,
    }
}

/// The connection once `reply` answers its pending call.
pub open spec fn next_view(v: ConnectionView, reply: Reply) -> ConnectionView {
    ConnectionView { stage: next_stage(v, reply), catalog: next_catalog(v, reply), ..v }
}

/// The connection once each of `replies` in turn answers its pending call.
pub open spec fn after_replies(v: ConnectionView, replies: Seq<Reply>) -> ConnectionView
    decreases replies.len(),
{
    if replies.len() == 0 {
        v
    } else {
        after_replies(next_view(v, replies[0]), replies.drop_first())
    }
}

/// Successful text replies carrying `names`, in order.
pub open spec fn text_replies(names: Seq<String>) -> Seq<Reply> {
    names.map_values(|s: String| Reply::Text(s))
}

/// An upper bound on the engine calls a connection still makes.
pub open spec fn calls_left(v: ConnectionView) -> nat {
    match v.stage {
        Stage::Setup(k) => (v.plan.len() - k + NAME_QUERY_LIMIT + 2) as nat,
        Stage::Discover(k) => (NAME_QUERY_LIMIT - k + 3) as nat,
        Stage::Closing(_) => 2,
        Stage::Releasing(_) => 1,
        _ => 0,
    }
}

proof fn lemma_plan_shape(i: Interface, a: Seq<char>, logging: bool)
    ensures
        ({
            let p = setup_plan(i, a, logging);
            &&& p.len() == (if logging { 5int } else { 4int })
            &&& p[0] == CommandView::SetString("IP_Interface"@, interface_name(i))
            &&& p[1] == CommandView::SetString("IP_RemoteAddr"@, a)
            &&& logging ==> p[2] == CommandView::SetInt("IP_EnableLogging"@, 1)
            &&& p[p.len() - 2] == CommandView::Open
            &&& p[p.len() - 1] == CommandView::Exec("Get_TransmittedDataInfo"@)
            &&& forall|j: int| 0 <= j < p.len() - 2 ==> p[j] != CommandView::Open
        }),
{
}

impl SensorBuilder {
    /// Settings for the engine instance `sensor_handle`, with nothing chosen yet.
    pub fn new(sensor_handle: u32) -> (r: Self)
        ensures
            r@ == (BuilderView { handle: sensor_handle, interface: None, address: None, logging: false }),
    {
        SensorBuilder { sensor_handle, interface: None, ip_address: None, logging: false }
    }

    /// Select the transport to be used.
    pub fn with_interface(self, interface: Interface) -> (r: Self)
        ensures
            r@ == (BuilderView { interface: Some(interface), ..self@ }),
    {
        SensorBuilder { interface: Some(interface), ..self }
    }

    /// Set the sensor's address; it is checked only by [`SensorBuilder::connect`].
    pub fn with_ip_address(self, ip_address: &str) -> (r: Self)
        ensures
            r@ == (BuilderView { address: Some(ip_address@), ..self@ }),
    {
        SensorBuilder { ip_address: Some(ip_address.to_owned()), ..self }
    }

    /// Have the engine write a log file.
    pub fn enable_logging(self) -> (r: Self)
        ensures
            r@ == (BuilderView { logging: true, ..self@ }),
    {
        SensorBuilder { logging: true, ..self }
    }

    /// The handle of the engine instance these settings are for.
    pub fn sensor_handle(&self) -> (r: u32)
        ensures
            r == self@.handle,
    {
        self.sensor_handle
    }

    /// Start opening the session. Missing or invalid settings are found here, before
    /// any engine call; the connection then only releases the instance and fails.
    pub fn connect(self) -> (r: Connection)
        ensures
            r.wf(),
            r@.handle == self@.handle,
            r@.catalog.len() == 0,
            match config_issue(self@) {
                Some(issue) => r@.stage == Stage::Releasing(SensorError::Configuration(issue)),
                None => r@.stage == Stage::Setup(0) && r@.plan == setup_plan(
                    self@.interface->0,
                    self@.address->0,
                    self@.logging,
                ),
            },
    {
        let issue = match (&self.interface, &self.ip_address) {
            (None, _) => Some(ConfigIssue::MissingInterface),
            (_, None) => Some(ConfigIssue::MissingAddress),
            (Some(_), Some(a)) => if is_ipv4_address(a.as_str()) {
                None
            } else {
                Some(ConfigIssue::InvalidAddress)
            },
        };
        let stage = match issue {
            Some(issue) => Stage::Releasing(SensorError::Configuration(issue)),
            None => Stage::Setup(0),
        };
        Connection {
            sensor_handle: self.sensor_handle,
            interface: self.interface,
            ip_address: self.ip_address,
            logging: self.logging,
            stage,
            catalog: Vec::new(),
        }
    }
}

impl Connection {
    pub open spec fn wf(&self) -> bool {
        well_formed(self@)
    }

    /// The engine call to make next; `None` once the connection has finished.
    pub fn pending(&self) -> (r: Option<Command>)
        requires
            self.wf(),
        ensures
            match r {
                Some(c) => pending_command(self@) == Some(c@),
                None => pending_command(self@) is None,
            },
    {
        match self.stage {
            Stage::Setup(k) => Some(self.setup_command(k)),
            Stage::Discover(k) => Some(
                Command::GetParameterString {
                    name: channel_name_key(k),
                    max_len: NAME_BUFFER_LEN,
                },
            ),
            Stage::Closing(_) => Some(Command::CloseSensor),
            Stage::Releasing(_) => Some(Command::ReleaseSensorInstance),
            _ => None,
        }
    }

    fn setup_command(&self, k: usize) -> (r: Command)
        requires
            k < self@.plan.len(),
        ensures
            r@ == self@.plan[k as int],
    {
        match (&self.interface, &self.ip_address) {
            (Some(interface), Some(address)) => {
                proof {
                    lemma_plan_shape(*interface, address@, self.logging);
                }
                // position of the discovery command, the last setup call
                let exec_at: usize = if self.logging {
                    4
                } else {
                    3
                };
                if k == 0 {
                    Command::SetParameterString {
                        name: String::from_str("IP_Interface"),
                        value: String::from_str(interface.name()),
                    }
                } else if k == 1 {
                    Command::SetParameterString {
                        name: String::from_str("IP_RemoteAddr"),
                        value: address.clone(),
                    }
                } else if k + 2 == exec_at {
                    Command::SetParameterInt { name: String::from_str("IP_EnableLogging"), value: 1 }
                } else if k + 1 == exec_at {
                    Command::OpenSensor
                } else {
                    Command::ExecSCmd { command: String::from_str("Get_TransmittedDataInfo") }
                }
            },
            _ => {
                proof {
                    assert(false);
                }
                Command::OpenSensor
            },
        }
    }

    /// Take the engine's reply to the pending call.
    pub fn advance(&mut self, reply: Reply)
        requires
            old(self).wf(),
            pending_command(old(self)@) is Some,
        ensures
            final(self).wf(),
            final(self)@ == next_view(old(self)@, reply),
            calls_left(final(self)@) < calls_left(old(self)@),
    {
        match self.stage {
            Stage::Setup(k) => {
                let ghost v = self@;
                proof {
                    let (i, a) = (self.interface->0, self.ip_address->0);
                    lemma_plan_shape(i, a@, self.logging);
                    if v.plan.take(k as int).contains(CommandView::Open) {
                        let j = choose|j: int| 0 <= j < k && v.plan.take(k as int)[j] == CommandView::Open;
                        assert(v.plan[j] == CommandView::Open);
                    }
                    if k + 1 == v.plan.len() {
                        assert(v.plan.take(k as int)[k - 1] == CommandView::Open);
                    }
                }
                let plan_len: usize = if self.logging {
                    5
                } else {
                    4
                };
                let failure = match &reply {
                    Reply::Status(e) => if e.is_ok() {
                        None
                    } else {
                        Some(*e)
                    },
                    _ => None,
                };
                self.stage = match failure {
                    Some(e) => if k + 1 == plan_len {
                        Stage::Closing(SensorError::Engine(e))
                    } else {
                        Stage::Releasing(SensorError::Engine(e))
                    },
                    None => if k + 1 < plan_len {
                        Stage::Setup(k + 1)
                    } else {
                        Stage::Discover(1)
                    },
                };
            },
            Stage::Discover(k) => {
                match reply {
                    Reply::Text(name) => {
                        if name.as_str().unicode_len() == 0 {
                            self.stage = Stage::Connected(DiscoveryEnd::EmptyName);
                        } else {
                            self.catalog.push(name);
                            if k < NAME_QUERY_LIMIT {
                                self.stage = Stage::Discover(k + 1);
                            } else {
                                self.stage = Stage::Connected(DiscoveryEnd::Limit);
                            }
                        }
                    },
                    Reply::Status(e) => {
                        let end = if e.is_ok() {
                            DiscoveryEnd::EmptyName
                        } else {
                            DiscoveryEnd::QueryFailed(e)
                        };
                        self.stage = Stage::Connected(end);
                    },
                    Reply::InvalidText => {
                        self.stage = Stage::Closing(SensorError::Protocol(ProtocolIssue::InvalidText));
                    },
                }
            },
            Stage::Closing(e) => {
                self.stage = Stage::Releasing(e);
            },
            Stage::Releasing(e) => {
                self.stage = Stage::Failed(e);
            },
            _ => {},
        }
    }

    /// The outcome of a finished connection: the sensor, or the error that ended it
    /// (by then the instance has been released).
    pub fn finish(self) -> (r: Result<Sensor, SensorError>)
        requires
            self.wf(),
            pending_command(self@) is None,
        ensures
            match self@.stage {
                Stage::Connected(end) => r matches Ok(s) && s@ == SensorView {
                    handle: self@.handle,
                    parameters: self@.catalog,
                    discovery_end: end,
                    released: false,
                },
                Stage::Failed(e) => r == Err::<Sensor, SensorError>(e),
                _ => false,
            },
    {
        match self.stage {
            Stage::Connected(end) => Ok(
                Sensor {
                    sensor_handle: self.sensor_handle,
                    parameters: self.catalog,
                    discovery_end: end,
                    released: false,
                },
            ),
            Stage::Failed(e) => Err(e),
            _ => {
                proof {
                    assert(false);
                }
                Err(SensorError::Protocol(ProtocolIssue::InvalidText))
            },
        }
    }

    /// Where the connection stands.
    pub fn stage(&self) -> (r: Stage)
        ensures
            r == self@.stage,
    {
        self.stage
    }

    /// The handle of the engine instance being connected.
    pub fn sensor_handle(&self) -> (r: u32)
        ensures
            r == self@.handle,
    {
        self.sensor_handle
    }
}

/// Discovery yields exactly the names the engine returns before its first empty
/// one: from channel index `k`, non-empty `names` that keep within the query limit,
/// followed by an empty name, append `names` to the catalog and connect.
pub proof fn lemma_discovery_collects_names(
    v: ConnectionView,
    k: u32,
    names: Seq<String>,
    last: String,
)
    requires
        v.stage == Stage::Discover(k),
        1 <= k,
        k + names.len() <= NAME_QUERY_LIMIT,
        forall|i: int| 0 <= i < names.len() ==> (#[trigger] names[i])@.len() > 0,
        last@.len() == 0,
    ensures
        after_replies(v, text_replies(names).push(Reply::Text(last))) == (ConnectionView {
            stage: Stage::Connected(DiscoveryEnd::EmptyName),
            catalog: v.catalog + names,
            ..v
        }),
    decreases names.len(),
{
    let replies = text_replies(names).push(Reply::Text(last));
    if names.len() == 0 {
        assert(replies.drop_first() =~= Seq::<Reply>::empty());
        assert(replies[0] == Reply::Text(last));
        let w = next_view(v, replies[0]);
        assert(after_replies(w, Seq::<Reply>::empty()) == w);
        assert(v.catalog + names =~= v.catalog);
    } else {
        assert(replies[0] == Reply::Text(names[0]));
        assert(names[0]@.len() > 0);
        let w = next_view(v, replies[0]);
        assert(w.stage == Stage::Discover((k + 1) as u32));
        let rest = names.drop_first();
        assert(replies.drop_first() =~= text_replies(rest).push(Reply::Text(last)));
        assert forall|i: int| 0 <= i < rest.len() implies (#[trigger] rest[i])@.len() > 0 by {
            assert(rest[i] == names[i + 1]);
        }
        lemma_discovery_collects_names(w, (k + 1) as u32, rest, last);
        assert(w.catalog + rest =~= v.catalog + names);
    }
}

/// A connection fails only by way of releasing its instance, and an error while
/// the session is open (its last setup call, or a name that is not text) closes the
/// session first.
pub proof fn lemma_failure_releases(
    v: ConnectionView,
    reply: Reply,
    interface: Interface,
    address: Seq<char>,
    logging: bool,
)
    requires
        well_formed(v),
        v.plan == setup_plan(interface, address, logging),
    ensures
        next_stage(v, reply) is Failed ==> v.stage is Releasing || v.stage is Failed,
        next_stage(v, reply) is Releasing ==> v.stage is Closing || v.stage is Setup,
        v.stage is Setup && v.stage->Setup_0 + 1 == v.plan.len() && failed_status(reply) is Some
            ==> next_stage(v, reply) is Closing,
        v.stage is Discover && reply is InvalidText ==> next_stage(v, reply) is Closing,
{
    lemma_plan_shape(interface, address, logging);
    if v.stage is Setup && v.stage->Setup_0 + 1 == v.plan.len() && failed_status(reply) is Some {
        let k = v.stage->Setup_0;
        assert(v.plan.take(k as int)[k - 1] == CommandView::Open);
    }
}

/// An open session on an engine instance, with its channel catalog.
#[derive(Debug)]
pub struct Sensor {
    sensor_handle: u32,
    parameters: Vec<String>,
    discovery_end: DiscoveryEnd,
    released: bool,
}

pub struct SensorView {
    pub handle: u32,
    /// The channel names, in column order.
    pub parameters: Seq<String>,
    pub discovery_end: DiscoveryEnd,
    /// The session has been closed and the instance released.
    pub released: bool,
}

impl View for Sensor {
    type V = SensorView;

    closed spec fn view(&self) -> SensorView {
        SensorView {
            handle: self.sensor_handle,
            parameters: self.parameters@,
            discovery_end: self.discovery_end,
            released: self.released,
        }
    }
}

/// The calls that tear a sensor down: close, then release, unless done before.
pub open spec fn teardown_commands(v: SensorView) -> Seq<CommandView> {
    if v.released {
        Seq::empty()
    } else {
        seq![CommandView::Close, CommandView::Release]
    }
}

/// The sensor once torn down.
pub open spec fn torn_down(v: SensorView) -> SensorView {
    SensorView { released: true, ..v }
}

/// What the reply to a query for available samples means: `Some(n)` to transfer
/// up to `n` samples, `None` when there is nothing to read yet.
pub open spec fn available_spec(status: ErrCode, available: i32) -> Result<
    Option<usize>,
    SensorError,
> {
    if !status.is_success() {
        Err(SensorError::Engine(status))
    } else if available < 0 {
        Err(SensorError::Protocol(ProtocolIssue::NegativeCount))
    } else if available == 0 {
        Ok(None)
    } else {
        Ok(Some(available as usize))
    }
}

impl Sensor {
    /// The channel names, in the order of the columns of every batch.
    pub fn parameters(&self) -> (r: &[String])
        ensures
            r@ == self@.parameters,
    {
        self.parameters.as_slice()
    }

    /// Why channel discovery stopped.
    pub fn discovery_end(&self) -> (r: DiscoveryEnd)
        ensures
            r == self@.discovery_end,
    {
        self.discovery_end
    }

    /// The handle of the engine instance this sensor owns.
    pub fn sensor_handle(&self) -> (r: u32)
        ensures
            r == self@.handle,
    {
        self.sensor_handle
    }

    /// Whether the sensor has been torn down.
    pub fn is_released(&self) -> (r: bool)
        ensures
            r == self@.released,
    {
        self.released
    }

    /// The calls that close the session and release the instance, in that order;
    /// none when the sensor was torn down before.
    pub fn teardown(&mut self) -> (r: Vec<Command>)
        ensures
            command_views(r@) == teardown_commands(old(self)@),
            final(self)@ == torn_down(old(self)@),
    {
        let mut calls: Vec<Command> = Vec::new();
        if !self.released {
            calls.push(Command::CloseSensor);
            calls.push(Command::ReleaseSensorInstance);
            self.released = true;
        }
        proof {
            assert(command_views(calls@) =~= teardown_commands(old(self)@));
        }
        calls
    }

    /// Decide on the engine's answer to the query for available samples.
    pub fn data_available(&self, status: ErrCode, available: i32) -> (r: Result<
        Option<usize>,
        SensorError,
    >)
        requires
            !self@.released,
        ensures
            r == available_spec(status, available),
    {
        if !status.is_ok() {
            Err(SensorError::Engine(status))
        } else if available < 0 {
            Err(SensorError::Protocol(ProtocolIssue::NegativeCount))
        } else if available == 0 {
            Ok(None)
        } else {
            Ok(Some(available as usize))
        }
    }

    /// Package the outcome of a transfer into `raw` and `scaled` buffers, of which
    /// the engine filled the first `read` samples.
    pub fn read_data(&self, status: ErrCode, raw: Vec<i32>, scaled: Vec<ScaledBits>, read: i32) -> (r:
        Result<Data, SensorError>)
        requires
            !self@.released,
        ensures
            !status.is_success() ==> r == Err::<Data, SensorError>(SensorError::Engine(status)),
            status.is_success() && (read < 0 || read > raw@.len() || read > scaled@.len()) ==> r
                == Err::<Data, SensorError>(SensorError::Protocol(ProtocolIssue::TransferOverrun)),
            status.is_success() && 0 <= read <= raw@.len() && read <= scaled@.len() && !whole_rows(
                read as nat,
                self@.parameters.len(),
            ) ==> r == Err::<Data, SensorError>(SensorError::Protocol(ProtocolIssue::PartialRow)),
            status.is_success() && 0 <= read <= raw@.len() && read <= scaled@.len() && whole_rows(
                read as nat,
                self@.parameters.len(),
            ) ==> (r matches Ok(d) && d.channels@ == self@.parameters && d.raw_data@ == raw@.take(
                read as int,
            ) && d.scaled_data@ == scaled@.take(read as int)),
    {
        if !status.is_ok() {
            return Err(SensorError::Engine(status));
        }
        if read < 0 || read as usize > raw.len() || read as usize > scaled.len() {
            return Err(SensorError::Protocol(ProtocolIssue::TransferOverrun));
        }
        let n = self.parameters.len();
        let count = read as usize;
        let whole = if n == 0 {
            count == 0
        } else {
            count % n == 0
        };
        if !whole {
            return Err(SensorError::Protocol(ProtocolIssue::PartialRow));
        }
        let mut raw_data = raw;
        let mut scaled_data = scaled;
        raw_data.truncate(count);
        scaled_data.truncate(count);
        Ok(Data { channels: self.copy_parameters(), raw_data, scaled_data })
    }

    fn copy_parameters(&self) -> (r: Vec<String>)
        ensures
            r@ == self.parameters@,
    {
        let mut out: Vec<String> = Vec::new();
        let mut i: usize = 0;
        while i < self.parameters.len()
            invariant
                i <= self.parameters@.len(),
                out@ == self.parameters@.take(i as int),
            decreases self.parameters@.len() - i,
        {
            out.push(self.parameters[i].clone());
            proof {
                assert(out@ =~= self.parameters@.take(i + 1));
            }
            i = i + 1;
        }
        proof {
            assert(self.parameters@.take(i as int) =~= self.parameters@);
        }
        out
    }
}

/// Tearing a sensor down a second time makes no engine call, so its session is
/// closed and its instance released at most once; a sensor that was live is closed
/// before it is released.
pub proof fn lemma_teardown_once(v: SensorView)
    ensures
        teardown_commands(torn_down(v)) == Seq::<CommandView>::empty(),
        torn_down(torn_down(v)) == torn_down(v),
        !v.released ==> teardown_commands(v) == seq![CommandView::Close, CommandView::Release],
{
}

} // verus!
