//! Talking to the whole fleet of lamps.
//!
//! Every exchange with a lamp is one datagram out and one reply back, and the
//! network is not to be trusted: a lamp that does not answer ends the run.
//! [`LightCommunication`] decides what is sent next and what a reply or its
//! absence means; the caller owns the socket. An operation on the fleet starts
//! with one of `get_initial_states`, `set_color_all`, `set_fade_speed_all` and
//! `restore_initial_states`, each of which hands out the first [`Action`].
//! The caller performs it and reports the outcome to `advance`, until the
//! action is `Finished` or `Failed`.

use vstd::prelude::*;
use vstd::string::*;
use crate::device::{DeviceCommandParams, DeviceState, ProtocolError};
use crate::fleet::{distinct, lemma_put, lookup, put, FleetState};
use crate::pilot::{
    color_command, get_pilot_command, get_pilot_message, get_user_config_command,
    get_user_config_message, pilot_command, set_pilot_message, set_temperature_message,
    set_user_config_command, set_user_config_message,
};
use crate::reply::{
    decode_pilot, decode_user_config, decoded_pilot, decoded_state, decoded_user_config,
};

verus! {

/// The port on which every lamp listens.
pub const LAMPS_PORT: u16 = 38899;

/// What the reply to a request is needed for.
#[derive(Clone, Copy, Debug, PartialEq, Eq, Structural)]
pub enum Expect {
    /// Nothing: the reply only shows that the lamp is there.
    Nothing,
    /// What the lamp shows.
    Pilot,
    /// The lamp's fade timing.
    UserConfig,
}

/// One exchange that an operation asks for.
#[derive(Debug, PartialEq, Eq)]
pub struct Request {
    pub host: String,
    pub payload: String,
    pub expect: Expect,
}

/// A request as the contracts see it.
pub struct RequestView {
    pub host: Seq<char>,
    pub payload: Seq<char>,
    pub expect: Expect,
}

impl View for Request {
    type V = RequestView;

    open spec fn view(&self) -> RequestView {
        RequestView { host: self.host@, payload: self.payload@, expect: self.expect }
    }
}

/// How the exchange that was asked for ended.
#[derive(Debug, PartialEq, Eq)]
pub enum Event {
    /// The lamp answered with this text.
    Reply(String),
    /// The datagram could not be sent, or no answer came in time.
    Unreachable(String),
}

/// An outcome as the contracts see it.
pub enum EventView {
    Reply(Seq<char>),
    Unreachable(Seq<char>),
}

impl View for Event {
    type V = EventView;

    open spec fn view(&self) -> EventView {
        match self {
            Event::Reply(text) => EventView::Reply(text@),
            Event::Unreachable(detail) => EventView::Unreachable(detail@),
        }
    }
}

/// Why an operation on the fleet was given up.
#[derive(Debug, PartialEq, Eq)]
pub enum Failure {
    /// The lamp at `address` did not take the datagram or did not answer.
    DeviceUnreachable { address: String, detail: String },
    /// The lamp at `address` answered with something that cannot be read.
    Protocol { address: String, error: ProtocolError },
}

/// A failure as the contracts see it.
pub enum FailureView {
    DeviceUnreachable { address: Seq<char>, detail: Seq<char> },
    Protocol { address: Seq<char>, error: ProtocolError },
}

impl View for Failure {
    type V = FailureView;

    open spec fn view(&self) -> FailureView {
        match self {
            Failure::DeviceUnreachable { address, detail } => FailureView::DeviceUnreachable {
                address: address@,
                detail: detail@,
            },
            Failure::Protocol { address, error } => FailureView::Protocol { address: address@, error: *error },
        }
    }
}

/// What the caller has to do next.
#[derive(Debug, PartialEq, Eq)]
pub enum Action {
    /// Send `payload` to `host` at `port` and wait for one reply.
    Send { host: String, port: u16, payload: String },
    /// The operation is complete.
    Finished,
    /// The operation was given up; nothing more will be sent.
    Failed(Failure),
}

/// An action as the contracts see it.
pub enum ActionView {
    Send { host: Seq<char>, port: u16, payload: Seq<char> },
    Finished,
    Failed(FailureView),
}

impl View for Action {
    type V = ActionView;

    open spec fn view(&self) -> ActionView {
        match self {
            Action::Send { host, port, payload } => ActionView::Send { host: host@, port: *port, payload: payload@ },
            Action::Finished => ActionView::Finished,
            Action::Failed(failure) => ActionView::Failed(failure@),
        }
    }
}

/// The fleet as the contracts see it.
pub struct FleetModel {
    /// The addresses of the lamps, as they were configured.
    pub lights: Seq<Seq<char>>,
    /// The captured state of each lamp that has one, by address.
    pub initial: Seq<(Seq<char>, DeviceState)>,
    /// The exchanges of the operation under way.
    pub plan: Seq<RequestView>,
    /// How many of them were answered.
    pub cursor: nat,
    /// What the lamp under capture shows, until its fade timing is known.
    pub pending: Option<DeviceCommandParams>,
    /// Why the operation was given up, if it was.
    pub failure: Option<FailureView>,
}

/// The same payload for every lamp, in the order of the lamps.
pub open spec fn broadcast_plan(lights: Seq<Seq<char>>, payload: Seq<char>) -> Seq<RequestView> {
    Seq::new(lights.len(), |i: int| RequestView { host: lights[i], payload, expect: Expect::Nothing })
}

/// For every lamp in turn the query for what it shows, then the query for
/// its fade timing.
pub open spec fn capture_plan(lights: Seq<Seq<char>>) -> Seq<RequestView> {
    Seq::new(
        2 * lights.len(),
        |k: int|
            if k % 2 == 0 {
                RequestView { host: lights[k / 2], payload: get_pilot_command().text(), expect: Expect::Pilot }
            } else {
                RequestView {
                    host: lights[k / 2],
                    payload: get_user_config_command().text(),
                    expect: Expect::UserConfig,
                }
            },
    )
}

/// For every captured lamp in turn the command that makes it show what it
/// showed, then the command that gives it back its fade timing.
pub open spec fn restore_plan(initial: Seq<(Seq<char>, DeviceState)>) -> Seq<RequestView> {
    Seq::new(
        2 * initial.len(),
        |k: int|
            if k % 2 == 0 {
                RequestView {
                    host: initial[k / 2].0,
                    payload: pilot_command(initial[k / 2].1.params).text(),
                    expect: Expect::Nothing,
                }
            } else {
                RequestView {
                    host: initial[k / 2].0,
                    payload: set_user_config_command(initial[k / 2].1.fade_in, initial[k / 2].1.fade_out).text(),
                    expect: Expect::Nothing,
                }
            },
    )
}

impl FleetModel {
    /// Whether a request is out and its outcome awaited.
    pub open spec fn sending(self) -> bool {
        self.failure is None && self.cursor < self.plan.len()
    }

    /// How many requests of the plan were handed out so far.
    pub open spec fn attempted(self) -> nat {
        if self.cursor < self.plan.len() {
            self.cursor + 1
        } else {
            self.cursor
        }
    }

    /// What the caller has to do in this state.
    pub open spec fn action(self) -> ActionView {
        match self.failure {
            Some(failure) => ActionView::Failed(failure),
            None => if self.cursor < self.plan.len() {
                ActionView::Send {
                    host: self.plan[self.cursor as int].host,
                    port: LAMPS_PORT,
                    payload: self.plan[self.cursor as int].payload,
                }
            } else {
                ActionView::Finished
            },
        }
    }

    /// The state in which `plan` was just begun.
    pub open spec fn begin(self, plan: Seq<RequestView>) -> FleetModel {
        FleetModel { plan, cursor: 0, pending: None, failure: None, ..self }
    }

    /// The state with the operation given up for unreadable text from the
    /// lamp that was asked.
    pub open spec fn malformed(self) -> FleetModel {
        FleetModel {
            failure: Some(
                FailureView::Protocol {
                    address: self.plan[self.cursor as int].host,
                    error: ProtocolError::Malformed,
                },
            ),
            ..self
        }
    }

    /// The state after the outcome of the request that was out. Without such
    /// a request nothing changes. A lamp that cannot be reached, or whose
    /// reply cannot be read where it is needed, ends the operation, and
    /// nothing is recorded for it. A reply to the query for the fade timing
    /// completes the state of its lamp, which is then recorded.
    pub open spec fn step(self, event: EventView) -> FleetModel {
        if !self.sending() {
            self
        } else {
            let request = self.plan[self.cursor as int];
            match event {
                EventView::Unreachable(detail) => FleetModel {
                    failure: Some(FailureView::DeviceUnreachable { address: request.host, detail }),
                    ..self
                },
                EventView::Reply(text) => match request.expect {
                    Expect::Nothing => FleetModel { cursor: self.cursor + 1, ..self },
                    Expect::Pilot => match decoded_pilot(text) {
                        Ok(params) => FleetModel { cursor: self.cursor + 1, pending: Some(params), ..self },
                        Err(_) => self.malformed(),
                    },
                    Expect::UserConfig => match (decoded_user_config(text), self.pending) {
                        (Ok(fade), Some(params)) => FleetModel {
                            cursor: self.cursor + 1,
                            pending: None,
                            initial: put(
                                self.initial,
                                request.host,
                                DeviceState { params, fade_in: fade.0, fade_out: fade.1 },
                            ),
                            ..self
                        },
                        _ => self.malformed(),
                    },
                },
            }
        }
    }

    /// The state after a series of outcomes.
    pub open spec fn run(self, events: Seq<EventView>) -> FleetModel
        decreases events.len(),
    {
        if events.len() == 0 {
            self
        } else {
            self.run(events.drop_last()).step(events.last())
        }
    }
}

/// The texts of a list of strings.
pub open spec fn texts(strings: Seq<String>) -> Seq<Seq<char>> {
    strings.map_values(|s: String| s@)
}

/// The views of a list of requests.
pub open spec fn requests(plan: Seq<Request>) -> Seq<RequestView> {
    plan.map_values(|r: Request| r@)
}

/// What the user is told of a failure: the address of the lamp and what to
/// look at.
pub open spec fn failure_message(failure: FailureView) -> Seq<char> {
    match failure {
        FailureView::DeviceUnreachable { address, .. } => "Error communicating with "@ + address
            + " \nPlease make sure the IP is correct, the lamp is turned on and connected to the same network as this computer"@,
        FailureView::Protocol { address, .. } => "Unreadable reply from "@ + address
            + " \nPlease make sure the IP is that of a lamp"@,
    }
}

impl Failure {
    /// What the user is told of the failure.
    pub fn message(&self) -> (text: String)
        ensures
            text@ == failure_message(self@),
    {
        match self {
            Failure::DeviceUnreachable { address, .. } => {
                let mut text = String::from_str("Error communicating with ");
                text.append(address.as_str());
                text.append(
                    " \nPlease make sure the IP is correct, the lamp is turned on and connected to the same network as this computer",
                );
                text
            },
            Failure::Protocol { address, .. } => {
                let mut text = String::from_str("Unreadable reply from ");
                text.append(address.as_str());
                text.append(" \nPlease make sure the IP is that of a lamp");
                text
            },
        }
    }

    /// A copy of the failure.
    pub fn duplicate(&self) -> (copy: Failure)
        ensures
            copy@ == self@,
    {
        match self {
            Failure::DeviceUnreachable { address, detail } => Failure::DeviceUnreachable {
                address: address.clone(),
                detail: detail.clone(),
            },
            Failure::Protocol { address, error } => Failure::Protocol { address: address.clone(), error: *error },
        }
    }
}

fn plan_broadcast(lights: &Vec<String>, payload: &String) -> (plan: Vec<Request>)
    ensures
        requests(plan@) == broadcast_plan(texts(lights@), payload@),
{
    let mut plan: Vec<Request> = Vec::new();
    let mut i: usize = 0;
    while i < lights.len()
        invariant
            i <= lights.len(),
            plan.len() == i,
            forall|k: int| 0 <= k < i ==> (#[trigger] plan[k])@ == broadcast_plan(texts(lights@), payload@)[k],
        decreases lights.len() - i,
    {
        plan.push(Request { host: lights[i].clone(), payload: payload.clone(), expect: Expect::Nothing });
        i += 1;
    }
    assert(requests(plan@) =~= broadcast_plan(texts(lights@), payload@));
    plan
}

fn plan_capture(lights: &Vec<String>) -> (plan: Vec<Request>)
    ensures
        requests(plan@) == capture_plan(texts(lights@)),
{
    let mut plan: Vec<Request> = Vec::new();
    let mut i: usize = 0;
    while i < lights.len()
        invariant
            i <= lights.len(),
            plan.len() == 2 * i,
            forall|k: int| 0 <= k < 2 * i ==> (#[trigger] plan[k])@ == capture_plan(texts(lights@))[k],
        decreases lights.len() - i,
    {
        plan.push(Request { host: lights[i].clone(), payload: get_pilot_message(), expect: Expect::Pilot });
        plan.push(
            Request { host: lights[i].clone(), payload: get_user_config_message(), expect: Expect::UserConfig },
        );
        i += 1;
    }
    assert(requests(plan@) =~= capture_plan(texts(lights@)));
    plan
}

fn plan_restore(fleet: &FleetState) -> (plan: Vec<Request>)
    ensures
        requests(plan@) == restore_plan(fleet@),
{
    let mut plan: Vec<Request> = Vec::new();
    let count = fleet.len();
    let mut i: usize = 0;
    while i < count
        invariant
            count == fleet@.len(),
            i <= count,
            plan.len() == 2 * i,
            forall|k: int| 0 <= k < 2 * i ==> (#[trigger] plan[k])@ == restore_plan(fleet@)[k],
        decreases count - i,
    {
        let entry = fleet.entry(i);
        plan.push(
            Request { host: entry.address.clone(), payload: entry.state.params.message(), expect: Expect::Nothing },
        );
        plan.push(
            Request {
                host: entry.address.clone(),
                payload: set_user_config_message(entry.state.fade_in, entry.state.fade_out),
                expect: Expect::Nothing,
            },
        );
        i += 1;
    }
    assert(requests(plan@) =~= restore_plan(fleet@));
    plan
}

/// The lamps, their captured states, and the operation under way.
#[derive(Debug)]
pub struct LightCommunication {
    /// The addresses of the lamps.
    lights: Vec<String>,
    /// The state in which each lamp was found.
    lights_initial_state: FleetState,
    plan: Vec<Request>,
    cursor: usize,
    pending: Option<DeviceCommandParams>,
    failure: Option<Failure>,
}

impl View for LightCommunication {
    type V = FleetModel;

    closed spec fn view(&self) -> FleetModel {
        FleetModel {
            lights: texts(self.lights@),
            initial: self.lights_initial_state@,
            plan: requests(self.plan@),
            cursor: self.cursor as nat,
            pending: self.pending,
            failure: match self.failure {
                Some(failure) => Some(failure@),
                None => None,
            },
        }
    }
}

impl LightCommunication {
    /// A fleet of the lamps at these addresses, with no state captured and
    /// no operation under way.
    pub fn new(lights: Vec<String>) -> (fleet: Self)
        ensures
            fleet@ == (FleetModel {
                lights: texts(lights@),
                initial: Seq::empty(),
                plan: Seq::empty(),
                cursor: 0,
                pending: None,
                failure: None,
            }),
    {
        let fleet = LightCommunication {
            lights,
            lights_initial_state: FleetState::new(),
            plan: Vec::new(),
            cursor: 0,
            pending: None,
            failure: None,
        };
        assert(fleet@.plan =~= Seq::<RequestView>::empty());
        fleet
    }

    /// The addresses of the lamps.
    pub fn lights(&self) -> (lights: &Vec<String>)
        ensures
            texts(lights@) == self@.lights,
    {
        &self.lights
    }

    /// The captured states. No address has more than one.
    pub fn initial_states(&self) -> (fleet: &FleetState)
        ensures
            fleet@ == self@.initial,
            distinct(self@.initial),
    {
        let n = self.lights_initial_state.len();
        &self.lights_initial_state
    }

    /// The text of `setPilot` for a colour given both ways: as a temperature
    /// where `temp` is not zero, as `rgb` otherwise.
    pub fn set_pilot_message(&self, rgb: (u64, u64, u64), temp: u64, dimming: u64, is_on: bool) -> (msg: String)
        ensures
            msg@ == color_command(rgb, temp, dimming, is_on).text(),
    {
        if temp != 0 {
            set_temperature_message(temp, dimming, is_on)
        } else {
            set_pilot_message(rgb.0, rgb.1, rgb.2, dimming, is_on)
        }
    }

    fn current_action(&self) -> (action: Action)
        ensures
            action@ == self@.action(),
    {
        match &self.failure {
            Some(failure) => Action::Failed(failure.duplicate()),
            None => if self.cursor < self.plan.len() {
                Action::Send {
                    host: self.plan[self.cursor].host.clone(),
                    port: LAMPS_PORT,
                    payload: self.plan[self.cursor].payload.clone(),
                }
            } else {
                Action::Finished
            },
        }
    }

    fn begin(&mut self, plan: Vec<Request>) -> (action: Action)
        ensures
            final(self)@ == old(self)@.begin(requests(plan@)),
            action@ == final(self)@.action(),
    {
        self.plan = plan;
        self.cursor = 0;
        self.pending = None;
        self.failure = None;
        self.current_action()
    }

    /// Begins to capture the state of every lamp: what it shows and how it
    /// fades. The states are recorded as the replies come in.
    pub fn get_initial_states(&mut self) -> (action: Action)
        ensures
            final(self)@ == old(self)@.begin(capture_plan(old(self)@.lights)),
            action@ == final(self)@.action(),
    {
        let plan = plan_capture(&self.lights);
        self.begin(plan)
    }

    /// Begins to make every lamp show one colour.
    pub fn set_color_all(&mut self, rgb: (u64, u64, u64), temp: u64, dimming: u64, is_on: bool) -> (action: Action)
        ensures
            final(self)@ == old(self)@.begin(
                broadcast_plan(old(self)@.lights, color_command(rgb, temp, dimming, is_on).text()),
            ),
            action@ == final(self)@.action(),
    {
        let payload = self.set_pilot_message(rgb, temp, dimming, is_on);
        let plan = plan_broadcast(&self.lights, &payload);
        self.begin(plan)
    }

    /// Begins to give every lamp the same fade timing.
    pub fn set_fade_speed_all(&mut self, fade_in: u64, fade_out: u64) -> (action: Action)
        ensures
            final(self)@ == old(self)@.begin(
                broadcast_plan(old(self)@.lights, set_user_config_command(fade_in, fade_out).text()),
            ),
            action@ == final(self)@.action(),
    {
        let payload = set_user_config_message(fade_in, fade_out);
        let plan = plan_broadcast(&self.lights, &payload);
        self.begin(plan)
    }

    /// Begins to put every lamp back into the state in which it was found.
    pub fn restore_initial_states(&mut self) -> (action: Action)
        ensures
            final(self)@ == old(self)@.begin(restore_plan(old(self)@.initial)),
            action@ == final(self)@.action(),
    {
        let plan = plan_restore(&self.lights_initial_state);
        self.begin(plan)
    }

    fn fail_malformed(&mut self)
        requires
            old(self)@.sending(),
        ensures
            final(self)@ == old(self)@.malformed(),
    {
        let address = self.plan[self.cursor].host.clone();
        self.failure = Some(Failure::Protocol { address, error: ProtocolError::Malformed });
    }

    /// Takes the outcome of the request that was handed out last and says
    /// what to do next. An empty reply to a query is unreadable.
    pub fn advance(&mut self, event: Event) -> (action: Action)
        ensures
            final(self)@ == old(self)@.step(event@),
            action@ == final(self)@.action(),
            old(self)@.sending() && old(self)@.plan[old(self)@.cursor as int].expect != Expect::Nothing
                && event@ == EventView::Reply(Seq::empty()) ==> final(self)@ == old(self)@.malformed(),
    {
        if self.failure.is_none() && self.cursor < self.plan.len() {
            let expect = self.plan[self.cursor].expect;
            match event {
                Event::Unreachable(detail) => {
                    let address = self.plan[self.cursor].host.clone();
                    self.failure = Some(Failure::DeviceUnreachable { address, detail });
                },
                Event::Reply(text) => match expect {
                    Expect::Nothing => {
                        self.cursor = self.cursor + 1;
                    },
                    Expect::Pilot => match decode_pilot(text.as_str()) {
                        Ok(params) => {
                            self.pending = Some(params);
                            self.cursor = self.cursor + 1;
                        },
                        Err(_) => {
                            self.fail_malformed();
                        },
                    },
                    Expect::UserConfig => match (decode_user_config(text.as_str()), self.pending) {
                        (Ok((fade_in, fade_out)), Some(params)) => {
                            let address = self.plan[self.cursor].host.clone();
                            self.lights_initial_state.put(address, DeviceState { params, fade_in, fade_out });
                            self.pending = None;
                            self.cursor = self.cursor + 1;
                        },
                        _ => {
                            self.fail_malformed();
                        },
                    },
                },
            }
        }
        self.current_action()
    }
}

/// The outcomes "the lamp answered" for a series of reply texts.
pub open spec fn replies(texts: Seq<Seq<char>>) -> Seq<EventView> {
    texts.map_values(|text: Seq<char>| EventView::Reply(text))
}

/// Whether no request of the plan needs its reply read.
pub open spec fn commands_only(plan: Seq<RequestView>) -> bool {
    forall|i: int| 0 <= i < plan.len() ==> (#[trigger] plan[i]).expect == Expect::Nothing
}

/// A plan that tells every lamp the same, and a plan that restores the
/// captured states, consist of commands only: one for each lamp in the first,
/// two for each captured lamp in the second.
pub proof fn lemma_command_plans(lights: Seq<Seq<char>>, payload: Seq<char>, initial: Seq<(Seq<char>, DeviceState)>)
    ensures
        commands_only(broadcast_plan(lights, payload)),
        broadcast_plan(lights, payload).len() == lights.len(),
        forall|i: int|
            0 <= i < lights.len() ==> (#[trigger] broadcast_plan(lights, payload)[i]).host == lights[i]
                && broadcast_plan(lights, payload)[i].payload == payload,
        commands_only(restore_plan(initial)),
        restore_plan(initial).len() == 2 * initial.len(),
{
}

/// An operation that was given up stays given up: whatever is reported
/// afterwards, the state does not change and no request is handed out.
pub proof fn lemma_failure_is_final(fleet: FleetModel, events: Seq<EventView>)
    requires
        fleet.failure is Some,
    ensures
        fleet.run(events) == fleet,
        fleet.action() == ActionView::Failed(fleet.failure->0),
    decreases events.len(),
{
    if events.len() > 0 {
        lemma_failure_is_final(fleet, events.drop_last());
    }
}

/// While the lamps answer, a plan of commands goes forward by one request
/// for each reply, whatever the replies hold.
pub proof fn lemma_replies_advance(fleet: FleetModel, answers: Seq<Seq<char>>)
    requires
        fleet.failure is None,
        commands_only(fleet.plan),
        fleet.cursor + answers.len() <= fleet.plan.len(),
    ensures
        fleet.run(replies(answers)) == (FleetModel { cursor: fleet.cursor + answers.len(), ..fleet }),
    decreases answers.len(),
{
    if answers.len() > 0 {
        lemma_replies_advance(fleet, answers.drop_last());
        assert(replies(answers).drop_last() =~= replies(answers.drop_last()));
        assert(replies(answers).last() == EventView::Reply(answers.last()));
    }
}

/// Where the lamps of a plan of commands answer one after the other and then
/// one does not, every lamp before it was sent its datagram, in the order of
/// the plan, the operation ends with that lamp's address, and no request
/// after it is ever handed out.
pub proof fn lemma_stops_at_first_failure(
    fleet: FleetModel,
    answers: Seq<Seq<char>>,
    detail: Seq<char>,
    later: Seq<EventView>,
)
    requires
        fleet.failure is None,
        fleet.cursor == 0,
        commands_only(fleet.plan),
        answers.len() < fleet.plan.len(),
    ensures
        forall|j: int|
            0 <= j <= answers.len() ==> (#[trigger] fleet.run(replies(answers.take(j)))).action() == (
            ActionView::Send { host: fleet.plan[j].host, port: LAMPS_PORT, payload: fleet.plan[j].payload }),
        ({
            let failed = fleet.run(replies(answers)).step(EventView::Unreachable(detail));
            &&& failed.failure == Some(
                FailureView::DeviceUnreachable { address: fleet.plan[answers.len() as int].host, detail },
            )
            &&& failed.attempted() == answers.len() + 1
            &&& failed.run(later) == failed
            &&& failed.run(later).action() is Failed
        }),
{
    assert forall|j: int| 0 <= j <= answers.len() implies (#[trigger] fleet.run(replies(answers.take(j)))).action()
        == (ActionView::Send { host: fleet.plan[j].host, port: LAMPS_PORT, payload: fleet.plan[j].payload }) by {
        lemma_replies_advance(fleet, answers.take(j));
    }
    lemma_replies_advance(fleet, answers);
    let failed = fleet.run(replies(answers)).step(EventView::Unreachable(detail));
    lemma_failure_is_final(failed, later);
}

/// A reply that cannot be read where it is needed ends the operation with
/// the address of the lamp that sent it, and no state is recorded: neither
/// then nor by anything that is reported later.
pub proof fn lemma_unreadable_reply_records_nothing(fleet: FleetModel, text: Seq<char>, later: Seq<EventView>)
    requires
        fleet.sending(),
        match fleet.plan[fleet.cursor as int].expect {
            Expect::Nothing => false,
            Expect::Pilot => decoded_pilot(text) is Err,
            Expect::UserConfig => decoded_user_config(text) is Err,
        },
    ensures
        ({
            let after = fleet.step(EventView::Reply(text));
            &&& after.failure == Some(
                FailureView::Protocol {
                    address: fleet.plan[fleet.cursor as int].host,
                    error: ProtocolError::Malformed,
                },
            )
            &&& after.initial == fleet.initial
            &&& after.run(later) == after
        }),
{
    lemma_failure_is_final(fleet.step(EventView::Reply(text)), later);
}

/// Two readable replies of a lamp, to the query for what it shows and to the
/// query for its fade timing, record the state that they describe under the
/// lamp's address, and the operation goes on.
pub proof fn lemma_capture_records(fleet: FleetModel, pilot: Seq<char>, user_config: Seq<char>)
    requires
        fleet.sending(),
        fleet.cursor + 1 < fleet.plan.len(),
        fleet.plan[fleet.cursor as int].expect == Expect::Pilot,
        fleet.plan[fleet.cursor as int + 1].expect == Expect::UserConfig,
        decoded_pilot(pilot) is Ok,
        decoded_user_config(user_config) is Ok,
    ensures
        ({
            let after = fleet.step(EventView::Reply(pilot)).step(EventView::Reply(user_config));
            &&& after.failure is None
            &&& after.cursor == fleet.cursor + 2
            &&& after.initial == put(
                fleet.initial,
                fleet.plan[fleet.cursor as int + 1].host,
                DeviceState {
                    params: decoded_pilot(pilot)->Ok_0,
                    fade_in: decoded_user_config(user_config)->Ok_0.0,
                    fade_out: decoded_user_config(user_config)->Ok_0.1,
                },
            )
        }),
{
}

/// The outcomes of a capture in which every lamp answers both queries: for
/// each lamp its reply to `getPilot`, then its reply to `getUserConfig`.
pub open spec fn capture_replies(answers: Seq<(Seq<char>, Seq<char>)>) -> Seq<EventView> {
    Seq::new(
        2 * answers.len(),
        |k: int|
            if k % 2 == 0 {
                EventView::Reply(answers[k / 2].0)
            } else {
                EventView::Reply(answers[k / 2].1)
            },
    )
}

/// The captured states after the first lamps answered readably: the state
/// that each pair of replies describes, recorded under its lamp's address in
/// the order of the lamps.
pub open spec fn captured(
    initial: Seq<(Seq<char>, DeviceState)>,
    lights: Seq<Seq<char>>,
    answers: Seq<(Seq<char>, Seq<char>)>,
) -> Seq<(Seq<char>, DeviceState)>
    decreases answers.len(),
{
    if answers.len() == 0 {
        initial
    } else {
        put(
            captured(initial, lights, answers.drop_last()),
            lights[answers.len() - 1],
            decoded_state(answers.last().0, answers.last().1)->Ok_0,
        )
    }
}

/// Whether every pair of replies describes a state.
pub open spec fn readable(answers: Seq<(Seq<char>, Seq<char>)>) -> bool {
    forall|i: int| 0 <= i < answers.len() ==> decoded_state((#[trigger] answers[i]).0, answers[i].1) is Ok
}

/// A capture in which the lamps answer readably goes through the lamps in
/// order and records the state of each; when all have answered it is
/// finished.
pub proof fn lemma_capture_all(fleet: FleetModel, answers: Seq<(Seq<char>, Seq<char>)>)
    requires
        fleet.plan == capture_plan(fleet.lights),
        fleet.cursor == 0,
        fleet.pending is None,
        fleet.failure is None,
        answers.len() <= fleet.lights.len(),
        readable(answers),
    ensures
        fleet.run(capture_replies(answers)) == (FleetModel {
            cursor: 2 * answers.len(),
            initial: captured(fleet.initial, fleet.lights, answers),
            ..fleet
        }),
        answers.len() == fleet.lights.len() ==> fleet.run(capture_replies(answers)).action() == ActionView::Finished,
    decreases answers.len(),
{
    if answers.len() > 0 {
        let fewer = answers.drop_last();
        let events = capture_replies(answers);
        assert(readable(fewer)) by {
            assert forall|i: int| 0 <= i < fewer.len() implies decoded_state((#[trigger] fewer[i]).0, fewer[i].1) is Ok by {
                assert(fewer[i] == answers[i]);
            }
        }
        lemma_capture_all(fleet, fewer);
        assert(events.drop_last().drop_last() =~= capture_replies(fewer));
        let n = fewer.len() as int;
        assert(events.drop_last().last() == EventView::Reply(answers[n].0));
        assert(events.last() == EventView::Reply(answers[n].1));
        assert(decoded_state(answers[n].0, answers[n].1) is Ok);
        let before = fleet.run(capture_replies(fewer));
        assert(fleet.run(events.drop_last()) == before.step(EventView::Reply(answers[n].0)));
        assert(fleet.plan[2 * n].expect == Expect::Pilot);
        assert(fleet.plan[2 * n + 1].expect == Expect::UserConfig);
        assert(fleet.plan[2 * n + 1].host == fleet.lights[n]);
    }
}

/// After such a capture every lamp that answered has a state on record, and
/// no address has more than one, provided that none had before.
pub proof fn lemma_captured_holds_every_lamp(
    initial: Seq<(Seq<char>, DeviceState)>,
    lights: Seq<Seq<char>>,
    answers: Seq<(Seq<char>, Seq<char>)>,
)
    requires
        distinct(initial),
        answers.len() <= lights.len(),
    ensures
        distinct(captured(initial, lights, answers)),
        forall|i: int| 0 <= i < answers.len() ==> lookup(captured(initial, lights, answers), #[trigger] lights[i]) is Some,
        forall|address: Seq<char>| lookup(initial, address) is Some ==> lookup(captured(initial, lights, answers), address) is Some,
    decreases answers.len(),
{
    if answers.len() > 0 {
        let fewer = answers.drop_last();
        let n = fewer.len() as int;
        lemma_captured_holds_every_lamp(initial, lights, fewer);
        let before = captured(initial, lights, fewer);
        let state = decoded_state(answers.last().0, answers.last().1)->Ok_0;
        lemma_put(before, lights[n], state);
    }
}

} // verus!
